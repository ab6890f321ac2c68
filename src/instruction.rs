use crate::bytes::{key_from_slice, le_u64, read_le_u64};
use crate::error::WrapperError;
use vstd::prelude::*;

verus! {

/// The opcode of a lock-in.
pub const LOCK_IN_TAG: u8 = 0;

/// The opcode of a lock-out.
pub const LOCK_OUT_TAG: u8 = 1;

/// The opcode of the registry's initialization.
pub const INITIALIZE_TAG: u8 = 2;

/// An amount-carrying transfer command, in its wire form. The bridge itself
/// moves single units through [`TokenInstruction`]; this form is decoded and
/// checked only.
#[derive(Debug, Clone, Copy, PartialEq, Eq, Structural)]
pub enum WrapperInstruction {
    /// A transfer of `amount` units in.
    TransferIn { amount: u64 },
    /// A transfer of `amount` units out.
    TransferOut { amount: u64 },
}

/// What a byte buffer decodes to as a [`WrapperInstruction`]: an opcode byte,
/// then an amount in exactly eight bytes, little-endian. Any other length is
/// refused as a whole.
pub open spec fn wrapper_instruction_of(s: Seq<u8>) -> Result<WrapperInstruction, WrapperError> {
    if s.len() != 9 || s[0] > 1 {
        Err(WrapperError::InvalidInstruction)
    } else if s[0] == 0 {
        Ok(WrapperInstruction::TransferIn { amount: le_u64(s.subrange(1, s.len() as int)) as u64 })
    } else {
        Ok(WrapperInstruction::TransferOut { amount: le_u64(s.subrange(1, s.len() as int)) as u64 })
    }
}

impl WrapperInstruction {
    /// Decodes an opcode-tagged buffer.
    pub fn unpack(input: &[u8]) -> (r: Result<WrapperInstruction, WrapperError>)
        ensures
            r == wrapper_instruction_of(input@),
    {
        if input.len() == 0 {
            return Err(WrapperError::InvalidInstruction);
        }
        let (head, rest) = input.split_at(1);
        let tag = head[0];
        if tag == 0 {
            let amount = WrapperInstruction::unpack_amount(rest)?;
            Ok(WrapperInstruction::TransferIn { amount })
        } else if tag == 1 {
            let amount = WrapperInstruction::unpack_amount(rest)?;
            Ok(WrapperInstruction::TransferOut { amount })
        } else {
            Err(WrapperError::InvalidInstruction)
        }
    }

    /// Reads a little-endian amount from exactly eight bytes.
    pub fn unpack_amount(input: &[u8]) -> (r: Result<u64, WrapperError>)
        ensures
            input@.len() != 8 ==> r == Err::<u64, WrapperError>(WrapperError::InvalidInstruction),
            input@.len() == 8 ==> r == Ok::<u64, WrapperError>(le_u64(input@) as u64),
    {
        if input.len() != 8 {
            return Err(WrapperError::InvalidInstruction);
        }
        Ok(read_le_u64(input))
    }
}

/// A command of the custody bridge.
#[derive(Debug, Clone, Copy, PartialEq, Eq)]
pub enum TokenInstruction {
    /// Lock one unit under the program and correlate it with a foreign address.
    LockIn { foreign_address: [u8; 32] },
    /// Release one unit whose record carries this foreign address.
    LockOut { foreign_address: [u8; 32] },
    /// Set up the registry with its capacity and the authority's bump.
    Initialize { capacity: u16, bump: u8 },
}

/// Whether `r` is what the buffer `s` decodes to as a [`TokenInstruction`].
/// Lock-in and lock-out carry exactly 32 bytes of address; initialization
/// exactly three bytes: the capacity, little-endian, then the bump. Any other
/// opcode or length is refused as a whole.
pub open spec fn token_instruction_decodes(
    s: Seq<u8>,
    r: Result<TokenInstruction, WrapperError>,
) -> bool {
    if s.len() == 33 && s[0] == LOCK_IN_TAG {
        r matches Ok(TokenInstruction::LockIn { foreign_address })
            && foreign_address@ == s.subrange(1, 33)
    } else if s.len() == 33 && s[0] == LOCK_OUT_TAG {
        r matches Ok(TokenInstruction::LockOut { foreign_address })
            && foreign_address@ == s.subrange(1, 33)
    } else if s.len() == 4 && s[0] == INITIALIZE_TAG {
        r == Ok::<TokenInstruction, WrapperError>(
            TokenInstruction::Initialize { capacity: (s[1] as int + s[2] as int * 256) as u16, bump: s[3] },
        )
    } else {
        r == Err::<TokenInstruction, WrapperError>(WrapperError::InvalidInstruction)
    }
}

impl TokenInstruction {
    /// Decodes an opcode-tagged buffer; no partial parse succeeds.
    pub fn unpack(input: &[u8]) -> (r: Result<TokenInstruction, WrapperError>)
        ensures
            token_instruction_decodes(input@, r),
    {
        if input.len() == 0 {
            return Err(WrapperError::InvalidInstruction);
        }
        let (head, rest) = input.split_at(1);
        let tag = head[0];
        if tag == LOCK_IN_TAG && rest.len() == 32 {
            Ok(TokenInstruction::LockIn { foreign_address: key_from_slice(rest) })
        } else if tag == LOCK_OUT_TAG && rest.len() == 32 {
            Ok(TokenInstruction::LockOut { foreign_address: key_from_slice(rest) })
        } else if tag == INITIALIZE_TAG && rest.len() == 3 {
            let capacity = (rest[0] as u16) + (rest[1] as u16) * 256;
            Ok(TokenInstruction::Initialize { capacity, bump: rest[2] })
        } else {
            Err(WrapperError::InvalidInstruction)
        }
    }
}

} // verus!
