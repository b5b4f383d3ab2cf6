//! Instruction byte codec for the lending engine.
//!
//! Each instruction is a single unsigned tag byte followed by tag-specific
//! little-endian parameters.  [`LendingInstruction::unpack`] and
//! [`LendingInstruction::pack`] are exact inverses, which
//! [`lemma_pack_unpack_round_trip`] proves.

use vstd::prelude::*;
use vstd::bytes::{
    spec_u64_to_le_bytes, spec_u64_from_le_bytes, u64_from_le_bytes, u64_to_le_bytes,
    lemma_auto_spec_u64_to_from_le_bytes,
};
use vstd::slice::slice_subrange;
use crate::error::LendingError;

verus! {

/// Instructions supported by the lending engine.
#[derive(Clone, Copy, PartialEq, Eq, Structural, Debug)]
pub enum LendingInstruction {
    /// Initializes a new lending market.
    InitLendingMarket,
    /// Initializes a new lending market reserve.
    InitReserve,
    /// Deposit liquidity into a reserve in exchange for collateral tokens.
    DepositReserveLiquidity {
        /// Amount to deposit into the reserve.
        liquidity_amount: u64,
    },
    /// Withdraw liquidity from a reserve by burning collateral tokens.
    WithdrawReserveLiquidity {
        /// Amount of collateral to redeem for liquidity.
        collateral_amount: u64,
    },
    /// Borrow liquidity from a reserve by depositing collateral tokens.
    BorrowReserveLiquidity {
        /// Amount of collateral to deposit.
        collateral_amount: u64,
    },
    /// Repay borrowed liquidity and receive collateral back.
    RepayReserveLiquidity {
        /// Amount of loan to repay.
        liquidity_amount: u64,
    },
    /// Refresh the cached order-book midpoint price of a reserve.
    SetPrice,
}

/// The bytes that encode an instruction.
pub open spec fn spec_pack_instruction(i: LendingInstruction) -> Seq<u8> {
    match i {
        LendingInstruction::InitLendingMarket => seq![0u8],
        LendingInstruction::InitReserve => seq![1u8],
        LendingInstruction::DepositReserveLiquidity { liquidity_amount } => seq![2u8]
            + spec_u64_to_le_bytes(liquidity_amount),
        LendingInstruction::WithdrawReserveLiquidity { collateral_amount } => seq![3u8]
            + spec_u64_to_le_bytes(collateral_amount),
        LendingInstruction::BorrowReserveLiquidity { collateral_amount } => seq![4u8]
            + spec_u64_to_le_bytes(collateral_amount),
        LendingInstruction::RepayReserveLiquidity { liquidity_amount } => seq![5u8]
            + spec_u64_to_le_bytes(liquidity_amount),
        LendingInstruction::SetPrice => seq![6u8],
    }
}

/// The instruction that a byte string decodes to, or the error rejecting it.
pub open spec fn spec_unpack_instruction(s: Seq<u8>) -> Result<LendingInstruction, LendingError> {
    if s.len() == 0 {
        Err(LendingError::InvalidInstruction)
    } else if s[0] == 0 {
        Ok(LendingInstruction::InitLendingMarket)
    } else if s[0] == 1 {
        Ok(LendingInstruction::InitReserve)
    } else if s[0] == 6 {
        Ok(LendingInstruction::SetPrice)
    } else if 2 <= s[0] <= 5 {
        if s.len() >= 9 {
            let amount = spec_u64_from_le_bytes(s.subrange(1, 9));
            if s[0] == 2 {
                Ok(LendingInstruction::DepositReserveLiquidity { liquidity_amount: amount })
            } else if s[0] == 3 {
                Ok(LendingInstruction::WithdrawReserveLiquidity { collateral_amount: amount })
            } else if s[0] == 4 {
                Ok(LendingInstruction::BorrowReserveLiquidity { collateral_amount: amount })
            } else {
                Ok(LendingInstruction::RepayReserveLiquidity { liquidity_amount: amount })
            }
        } else {
            Err(LendingError::InvalidInstruction)
        }
    } else {
        Err(LendingError::InvalidInstruction)
    }
}

impl LendingInstruction {
    /// Reads a little-endian 64-bit amount off the front of `input`,
    /// returning it with the remaining bytes.
    pub fn unpack_u64(input: &[u8]) -> (r: Result<(u64, &[u8]), LendingError>)
        ensures
            input@.len() >= 8 ==> (r matches Ok((amount, rest))
                && amount == spec_u64_from_le_bytes(input@.subrange(0, 8))
                && rest@ == input@.skip(8)),
            input@.len() < 8 ==> (r matches Err(e) && e == LendingError::InvalidInstruction),
    {
        if input.len() >= 8 {
            let amount = u64_from_le_bytes(slice_subrange(input, 0, 8));
            let rest = slice_subrange(input, 8, input.len());
            proof {
                assert(rest@ =~= input@.skip(8));
            }
            Ok((amount, rest))
        } else {
            Err(LendingError::InvalidInstruction)
        }
    }

    /// Decodes an instruction from its byte string.
    pub fn unpack(input: &[u8]) -> (r: Result<Self, LendingError>)
        ensures
            r == spec_unpack_instruction(input@),
    {
        if input.len() == 0 {
            return Err(LendingError::InvalidInstruction);
        }
        let tag = *vstd::slice::slice_index_get(input, 0);
        match tag {
            0 => Ok(LendingInstruction::InitLendingMarket),
            1 => Ok(LendingInstruction::InitReserve),
            6 => Ok(LendingInstruction::SetPrice),
            2 | 3 | 4 | 5 => {
                let rest = slice_subrange(input, 1, input.len());
                proof {
                    assert(rest@ =~= input@.skip(1));
                }
                match Self::unpack_u64(rest) {
                    Ok((amount, _rest)) => {
                        proof {
                            assert(rest@.subrange(0, 8) =~= input@.subrange(1, 9));
                        }
                        if tag == 2 {
                            Ok(LendingInstruction::DepositReserveLiquidity {
                                liquidity_amount: amount,
                            })
                        } else if tag == 3 {
                            Ok(LendingInstruction::WithdrawReserveLiquidity {
                                collateral_amount: amount,
                            })
                        } else if tag == 4 {
                            Ok(LendingInstruction::BorrowReserveLiquidity {
                                collateral_amount: amount,
                            })
                        } else {
                            Ok(LendingInstruction::RepayReserveLiquidity {
                                liquidity_amount: amount,
                            })
                        }
                    },
                    Err(e) => Err(e),
                }
            },
            _ => Err(LendingError::InvalidInstruction),
        }
    }

    /// Encodes the instruction as its byte string.
    pub fn pack(&self) -> (r: Vec<u8>)
        ensures
            r@ == spec_pack_instruction(*self),
    {
        let mut buf: Vec<u8> = Vec::new();
        match *self {
            LendingInstruction::InitLendingMarket => {
                buf.push(0);
            },
            LendingInstruction::InitReserve => {
                buf.push(1);
            },
            LendingInstruction::DepositReserveLiquidity { liquidity_amount } => {
                buf.push(2);
                let mut amount = u64_to_le_bytes(liquidity_amount);
                buf.append(&mut amount);
            },
            LendingInstruction::WithdrawReserveLiquidity { collateral_amount } => {
                buf.push(3);
                let mut amount = u64_to_le_bytes(collateral_amount);
                buf.append(&mut amount);
            },
            LendingInstruction::BorrowReserveLiquidity { collateral_amount } => {
                buf.push(4);
                let mut amount = u64_to_le_bytes(collateral_amount);
                buf.append(&mut amount);
            },
            LendingInstruction::RepayReserveLiquidity { liquidity_amount } => {
                buf.push(5);
                let mut amount = u64_to_le_bytes(liquidity_amount);
                buf.append(&mut amount);
            },
            LendingInstruction::SetPrice => {
                buf.push(6);
            },
        }
        proof {
            assert(buf@ =~= spec_pack_instruction(*self));
        }
        buf
    }
}

/// Decoding inverts encoding: every instruction survives a byte round trip.
pub proof fn lemma_pack_unpack_round_trip(i: LendingInstruction)
    ensures
        spec_unpack_instruction(spec_pack_instruction(i)) == Ok::<
            LendingInstruction,
            LendingError,
        >(i),
{
    lemma_auto_spec_u64_to_from_le_bytes();
    let s = spec_pack_instruction(i);
    match i {
        LendingInstruction::DepositReserveLiquidity { liquidity_amount } => {
            assert(s.subrange(1, 9) =~= spec_u64_to_le_bytes(liquidity_amount));
        },
        LendingInstruction::WithdrawReserveLiquidity { collateral_amount } => {
            assert(s.subrange(1, 9) =~= spec_u64_to_le_bytes(collateral_amount));
        },
        LendingInstruction::BorrowReserveLiquidity { collateral_amount } => {
            assert(s.subrange(1, 9) =~= spec_u64_to_le_bytes(collateral_amount));
        },
        LendingInstruction::RepayReserveLiquidity { liquidity_amount } => {
            assert(s.subrange(1, 9) =~= spec_u64_to_le_bytes(liquidity_amount));
        },
        _ => {},
    }
}

} // verus!
