//! The two instructions of the escrow program as they arrive: eight bytes that name
//! the instruction, followed by its arguments in little-endian bytes.

use vstd::prelude::*;
use vstd::bytes::{
    lemma_auto_spec_u64_to_from_le_bytes, spec_u64_from_le_bytes, spec_u64_to_le_bytes, u64_from_le_bytes,
    u64_to_le_bytes,
};
use vstd::slice::slice_subrange;
use crate::tag::{begins_with, check_tag};

verus! {

/// An instruction to the escrow program.
#[derive(Clone, Copy, Debug, PartialEq, Eq, Structural)]
pub enum Instruction {
    /// Make the offer `id`: escrow `offer_amount` of one asset and ask
    /// `wanted_amount` of another for it.
    MakeOffer { id: u64, offer_amount: u64, wanted_amount: u64 },
    /// Take the offer whose record is among the accounts.
    TakeOffer,
}

/// Why instruction data cannot be read.
#[derive(Clone, Copy, Debug, PartialEq, Eq, Structural)]
pub enum DecodeError {
    /// The data begins with the name of no instruction.
    UnknownInstruction,
    /// The data names the making of an offer and is too short for its arguments.
    MissingArguments,
}

/// The bytes that name the instruction to make an offer: the first eight bytes of
/// the SHA-256 digest of `global:make_offer`.
pub open spec fn make_offer_tag() -> Seq<u8> {
    seq![214u8, 98u8, 97u8, 35u8, 59u8, 12u8, 44u8, 178u8]
}

/// The bytes that name the instruction to take an offer: the first eight bytes of
/// the SHA-256 digest of `global:take_offer`.
pub open spec fn take_offer_tag() -> Seq<u8> {
    seq![128u8, 156u8, 242u8, 207u8, 237u8, 192u8, 103u8, 240u8]
}

impl Instruction {
    /// The bytes that name the instruction.
    pub open spec fn tag(self) -> Seq<u8> {
        match self {
            Instruction::MakeOffer { .. } => make_offer_tag(),
            Instruction::TakeOffer => take_offer_tag(),
        }
    }

    /// The instruction as it is sent: its name, then its arguments, each in eight
    /// little-endian bytes.
    pub open spec fn encoding(self) -> Seq<u8> {
        match self {
            Instruction::MakeOffer { id, offer_amount, wanted_amount } => make_offer_tag()
                + spec_u64_to_le_bytes(id) + spec_u64_to_le_bytes(offer_amount) + spec_u64_to_le_bytes(
                wanted_amount,
            ),
            Instruction::TakeOffer => take_offer_tag(),
        }
    }

    /// The instruction as it is sent.
    pub fn encode(&self) -> (data: Vec<u8>)
        ensures
            data@ == self.encoding(),
    {
        match self {
            Instruction::MakeOffer { id, offer_amount, wanted_amount } => {
                let mut data: Vec<u8> = Vec::new();
                data.push(214);
                data.push(98);
                data.push(97);
                data.push(35);
                data.push(59);
                data.push(12);
                data.push(44);
                data.push(178);
                let mut id_bytes = u64_to_le_bytes(*id);
                let mut offer_bytes = u64_to_le_bytes(*offer_amount);
                let mut wanted_bytes = u64_to_le_bytes(*wanted_amount);
                data.append(&mut id_bytes);
                data.append(&mut offer_bytes);
                data.append(&mut wanted_bytes);
                data
            },
            Instruction::TakeOffer => {
                let mut data: Vec<u8> = Vec::new();
                data.push(128);
                data.push(156);
                data.push(242);
                data.push(207);
                data.push(237);
                data.push(192);
                data.push(103);
                data.push(240);
                data
            },
        }
    }

    /// Reads the instruction with which `data` begins. Bytes that follow a complete
    /// instruction are ignored. An error is returned exactly when `data` begins with
    /// no instruction: it names neither, or names the making of an offer and is too
    /// short for the three arguments.
    pub fn decode(data: &[u8]) -> (read: Result<Instruction, DecodeError>)
        ensures
            read matches Ok(instruction) ==> begins_with(data@, instruction.encoding()),
            read is Err ==> forall|instruction: Instruction| !begins_with(data@, #[trigger] instruction.encoding()),
            read == (if begins_with(data@, make_offer_tag()) {
                if data@.len() >= 32 {
                    Ok::<Instruction, DecodeError>(
                        Instruction::MakeOffer {
                            id: spec_u64_from_le_bytes(data@.subrange(8, 16)),
                            offer_amount: spec_u64_from_le_bytes(data@.subrange(16, 24)),
                            wanted_amount: spec_u64_from_le_bytes(data@.subrange(24, 32)),
                        },
                    )
                } else {
                    Err::<Instruction, DecodeError>(DecodeError::MissingArguments)
                }
            } else if begins_with(data@, take_offer_tag()) {
                Ok::<Instruction, DecodeError>(Instruction::TakeOffer)
            } else {
                Err::<Instruction, DecodeError>(DecodeError::UnknownInstruction)
            }),
    {
        proof {
            lemma_auto_spec_u64_to_from_le_bytes();
        }
        let make_offer: [u8; 8] = [214, 98, 97, 35, 59, 12, 44, 178];
        let take_offer: [u8; 8] = [128, 156, 242, 207, 237, 192, 103, 240];
        if check_tag(data, &make_offer) {
            if data.len() < 32 {
                return Err(DecodeError::MissingArguments);
            }
            let id = u64_from_le_bytes(slice_subrange(data, 8, 16));
            let offer_amount = u64_from_le_bytes(slice_subrange(data, 16, 24));
            let wanted_amount = u64_from_le_bytes(slice_subrange(data, 24, 32));
            let instruction = Instruction::MakeOffer { id, offer_amount, wanted_amount };
            assert(data@.subrange(0, 32) =~= instruction.encoding());
            Ok(instruction)
        } else if check_tag(data, &take_offer) {
            Ok(Instruction::TakeOffer)
        } else {
            assert forall|instruction: Instruction| !begins_with(
                data@,
                #[trigger] instruction.encoding(),
            ) by {
                let sent = instruction.encoding();
                if begins_with(data@, sent) {
                    assert(data@.subrange(0, 8) =~= data@.subrange(0, sent.len() as int).subrange(0, 8));
                    assert(sent.subrange(0, 8) =~= instruction.tag());
                }
            }
            Err(DecodeError::UnknownInstruction)
        }
    }
}

/// An instruction is read back as it was sent, whatever follows it.
pub proof fn lemma_instruction_reads_back(instruction: Instruction, rest: Seq<u8>)
    ensures
        begins_with(instruction.encoding() + rest, instruction.encoding()),
        forall|other: Instruction|
            begins_with(instruction.encoding() + rest, #[trigger] other.encoding()) ==> other == instruction,
{
    lemma_auto_spec_u64_to_from_le_bytes();
    let sent = instruction.encoding();
    assert((sent + rest).subrange(0, sent.len() as int) =~= sent);
    assert forall|other: Instruction| begins_with(sent + rest, #[trigger] other.encoding()) implies other
        == instruction by {
        let read = other.encoding();
        if let Instruction::MakeOffer { id, offer_amount, wanted_amount } = instruction {
            assert(sent.subrange(8, 16) =~= spec_u64_to_le_bytes(id));
            assert(sent.subrange(16, 24) =~= spec_u64_to_le_bytes(offer_amount));
            assert(sent.subrange(24, 32) =~= spec_u64_to_le_bytes(wanted_amount));
            assert(read.subrange(8, 16) =~= spec_u64_to_le_bytes(other->id));
            assert(read.subrange(16, 24) =~= spec_u64_to_le_bytes(other->offer_amount));
            assert(read.subrange(24, 32) =~= spec_u64_to_le_bytes(other->wanted_amount));
        }
    }
}

} // verus!
