//! The request header and the instruction it routes to.

use vstd::prelude::*;
use crate::status::AppSW;

verus! {

/// The fixed header of a request, as the transport hands it over.
#[derive(Clone, Copy, Debug, PartialEq, Eq, Structural)]
pub struct ApduHeader {
    /// Class.
    pub cla: u8,
    /// Instruction.
    pub ins: u8,
    /// Parameter 1.
    pub p1: u8,
    /// Parameter 2.
    pub p2: u8,
    /// Length of the data that follows the header.
    pub len: usize,
}

/// The commands this device supports.
#[derive(Clone, Copy, Debug, PartialEq, Eq, Structural)]
pub enum Instruction {
    GetVersion,
}

/// The instruction a header routes to. The routing key is the instruction
/// byte with both parameters; a key that is not listed is not supported.
/// The class byte and the length take no part: the transport has checked
/// them before.
pub open spec fn decode(header: ApduHeader) -> Result<Instruction, AppSW> {
    if header.ins == 3 && header.p1 == 0 && header.p2 == 0 {
        Ok(Instruction::GetVersion)
    } else {
        Err(AppSW::InsNotSupported)
    }
}

impl TryFrom<ApduHeader> for Instruction {
    type Error = AppSW;

    /// Decodes the routing key of a header.
    fn try_from(value: ApduHeader) -> (decoded: Result<Instruction, AppSW>)
        ensures
            decoded == decode(value),
    {
        match (value.ins, value.p1, value.p2) {
            (3, 0, 0) => Ok(Instruction::GetVersion),
            (_, _, _) => Err(AppSW::InsNotSupported),
        }
    }
}

impl vstd::std_specs::convert::TryFromSpecImpl<ApduHeader> for Instruction {
    open spec fn obeys_try_from_spec() -> bool {
        true
    }

    open spec fn try_from_spec(value: ApduHeader) -> Result<Instruction, AppSW> {
        decode(value)
    }
}

/// Decoding is total and fails closed: the key (3, 0, 0) gives `GetVersion`,
/// no other key gives it, and every other key gives `InsNotSupported`.
pub proof fn lemma_routing_table(header: ApduHeader)
    ensures
        decode(header) == Ok::<Instruction, AppSW>(Instruction::GetVersion) <==> (header.ins == 3
            && header.p1 == 0 && header.p2 == 0),
        decode(header) == Err::<Instruction, AppSW>(AppSW::InsNotSupported) <==> !(header.ins == 3
            && header.p1 == 0 && header.p2 == 0),
        decode(header) is Err ==> decode(header)->Err_0 == AppSW::InsNotSupported,
{
}

} // verus!
