use vstd::prelude::*;
use vstd::bytes::spec_u64_from_le_bytes;
use vstd::bytes::u64_from_le_bytes;
use vstd::slice::slice_subrange;
use crate::error::EscrowError;

verus! {

/// The four commands the wire format can carry. Each wraps the 64-bit
/// quantity decoded from the payload. The tag-to-variant mapping is the
/// wire contract: 0 initializes the escrow, 1 is reserved (decoded but
/// rejected by the processor), 2 asserts the role-A outcome, 3 the role-B
/// outcome.
#[derive(Clone, Copy, Debug, PartialEq, Eq, Structural)]
pub enum EscrowInstruction {
    /// Tag 0: create the escrow record and collect both pledges.
    InitEscrow { amount: u64 },
    /// Tag 1: reserved for future use; decodes, but no operation
    /// implements it and the processor rejects it explicitly.
    ReceiveTakerTokens { amount: u64 },
    /// Tag 2: the role-A outcome — release party A's pledge.
    InitializerWins { amount: u64 },
    /// Tag 3: the role-B outcome — release party B's pledge.
    TakerWins { amount: u64 },
}

/// The amount field: the first 8 bytes of `input` read as a little-endian
/// unsigned 64-bit integer; fewer than 8 bytes is a malformed payload.
pub open spec fn spec_unpack_amount(input: Seq<u8>) -> Result<u64, EscrowError> {
    if input.len() < 8 {
        Err(EscrowError::InvalidInstruction)
    } else {
        Ok(spec_u64_from_le_bytes(input.subrange(0, 8)))
    }
}

/// The decoder, over all byte buffers: byte 0 is the tag, the bytes after
/// it carry the amount. Empty buffers, tags above 3 and truncated amounts
/// are malformed; everything else decodes to exactly one command.
pub open spec fn spec_unpack(input: Seq<u8>) -> Result<EscrowInstruction, EscrowError> {
    if input.len() == 0 {
        Err(EscrowError::InvalidInstruction)
    } else {
        let tag = input[0];
        if tag > 3 {
            Err(EscrowError::InvalidInstruction)
        } else {
            match spec_unpack_amount(input.subrange(1, input.len() as int)) {
                Err(e) => Err(e),
                Ok(amount) => Ok(
                    if tag == 0 {
                        EscrowInstruction::InitEscrow { amount }
                    } else if tag == 1 {
                        EscrowInstruction::ReceiveTakerTokens { amount }
                    } else if tag == 2 {
                        EscrowInstruction::InitializerWins { amount }
                    } else {
                        EscrowInstruction::TakerWins { amount }
                    },
                ),
            }
        }
    }
}

impl EscrowInstruction {
    /// Decodes an instruction payload. Total over all inputs: it returns
    /// the command `spec_unpack` assigns to the buffer, or
    /// `InvalidInstruction` for every malformed buffer, and never anything
    /// else.
    pub fn unpack(input: &[u8]) -> (r: Result<Self, EscrowError>)
        ensures
            r == spec_unpack(input@),
    {
        if input.len() == 0 {
            return Err(EscrowError::InvalidInstruction);
        }
        let tag = input[0];
        if tag > 3 {
            return Err(EscrowError::InvalidInstruction);
        }
        let rest = slice_subrange(input, 1, input.len());
        let amount = match Self::unpack_amount(rest) {
            Ok(a) => a,
            Err(e) => {
                return Err(e);
            },
        };
        if tag == 0 {
            Ok(EscrowInstruction::InitEscrow { amount })
        } else if tag == 1 {
            Ok(EscrowInstruction::ReceiveTakerTokens { amount })
        } else if tag == 2 {
            Ok(EscrowInstruction::InitializerWins { amount })
        } else {
            Ok(EscrowInstruction::TakerWins { amount })
        }
    }

    /// Reads the little-endian amount from the head of an amount-bearing
    /// tail, rejecting tails shorter than 8 bytes.
    pub fn unpack_amount(input: &[u8]) -> (r: Result<u64, EscrowError>)
        ensures
            r == spec_unpack_amount(input@),
    {
        if input.len() < 8 {
            return Err(EscrowError::InvalidInstruction);
        }
        let head = slice_subrange(input, 0, 8);
        Ok(u64_from_le_bytes(head))
    }
}

/// Totality of the decoder: every malformed payload — empty, unknown tag,
/// or truncated amount — decodes to `InvalidInstruction`, and a command is
/// constructed exactly for the well-formed payloads.
pub proof fn lemma_unpack_total(input: Seq<u8>)
    ensures
        (input.len() == 0 || (input.len() > 0 && input[0] > 3) || input.len() < 9)
            ==> spec_unpack(input) == Result::<EscrowInstruction, EscrowError>::Err(
                EscrowError::InvalidInstruction,
            ),
        spec_unpack(input) is Ok <==> (input.len() >= 9 && input[0] <= 3),
{
}

} // verus!
