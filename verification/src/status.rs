//! Status words: the closed set of reply codes and their wire values.

use vstd::prelude::*;

verus! {

/// Reply codes understood by the host. Each has one fixed 16-bit wire value.
#[derive(Clone, Copy, Debug, PartialEq, Eq, Structural)]
pub enum AppSW {
    /// User or policy rejection.
    Deny,
    /// Parameter validation failure.
    WrongP1P2,
    /// Unknown instruction/parameter combination.
    InsNotSupported,
    /// Unknown class byte.
    ClaNotSupported,
    /// UI rendering failure for a transaction.
    TxDisplayFail,
    /// UI rendering failure for an address.
    AddrDisplayFail,
    /// Malformed transaction length.
    TxWrongLength,
    /// Transaction decode failure.
    TxParsingFail,
    /// Hashing failure.
    TxHashFail,
    /// Signing failure.
    TxSignFail,
    /// Key derivation failure.
    KeyDeriveFail,
    /// The version string is malformed.
    VersionParsingFail,
    /// Malformed frame length, with the code the transport uses for it.
    WrongApduLength,
    /// Success.
    Success,
}

/// The status word with which the transport rejects a frame of bad length.
pub const TRANSPORT_BAD_LENGTH: u16 = 0x6E03;

impl AppSW {
    /// The wire value of a status word.
    pub open spec fn wire(self) -> u16 {
        match self {
            AppSW::Deny => 0x6985,
            AppSW::WrongP1P2 => 0x6A86,
            AppSW::InsNotSupported => 0x6D00,
            AppSW::ClaNotSupported => 0x6E00,
            AppSW::TxDisplayFail => 0xB001,
            AppSW::AddrDisplayFail => 0xB002,
            AppSW::TxWrongLength => 0xB004,
            AppSW::TxParsingFail => 0xB005,
            AppSW::TxHashFail => 0xB006,
            AppSW::TxSignFail => 0xB008,
            AppSW::KeyDeriveFail => 0xB009,
            AppSW::VersionParsingFail => 0xB00A,
            AppSW::WrongApduLength => TRANSPORT_BAD_LENGTH,
            AppSW::Success => 0x9000,
        }
    }

    /// The wire value, as sent to the host.
    pub fn code(self) -> (w: u16)
        ensures
            w == self.wire(),
    {
        match self {
            AppSW::Deny => 0x6985,
            AppSW::WrongP1P2 => 0x6A86,
            AppSW::InsNotSupported => 0x6D00,
            AppSW::ClaNotSupported => 0x6E00,
            AppSW::TxDisplayFail => 0xB001,
            AppSW::AddrDisplayFail => 0xB002,
            AppSW::TxWrongLength => 0xB004,
            AppSW::TxParsingFail => 0xB005,
            AppSW::TxHashFail => 0xB006,
            AppSW::TxSignFail => 0xB008,
            AppSW::KeyDeriveFail => 0xB009,
            AppSW::VersionParsingFail => 0xB00A,
            AppSW::WrongApduLength => TRANSPORT_BAD_LENGTH,
            AppSW::Success => 0x9000,
        }
    }
}

/// The terminal artifact of one request: a status word as it goes on the wire.
#[derive(Clone, Copy, Debug, PartialEq, Eq, Structural)]
pub struct Reply(pub u16);

impl Reply {
    /// The two bytes that end a reply, high byte first.
    pub open spec fn wire_bytes(self) -> Seq<u8> {
        seq![(self.0 / 256) as u8, (self.0 % 256) as u8]
    }

    /// The status word as the two bytes that end a reply, high byte first.
    pub fn to_bytes(&self) -> (bytes: [u8; 2])
        ensures
            bytes@ == self.wire_bytes(),
    {
        let bytes: [u8; 2] = [(self.0 / 256) as u8, (self.0 % 256) as u8];
        assert(bytes@ =~= self.wire_bytes());
        bytes
    }
}

impl From<AppSW> for Reply {
    fn from(sw: AppSW) -> (reply: Reply) {
        Reply(sw.code())
    }
}

impl vstd::std_specs::convert::FromSpecImpl<AppSW> for Reply {
    open spec fn obeys_from_spec() -> bool {
        true
    }

    open spec fn from_spec(sw: AppSW) -> Reply {
        Reply(sw.wire())
    }
}

/// No wire value stands for two status words.
pub proof fn lemma_wire_values_distinct(a: AppSW, b: AppSW)
    ensures
        a.wire() == b.wire() <==> a == b,
{
}

} // verus!
