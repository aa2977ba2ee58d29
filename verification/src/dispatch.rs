//! Routing a decoded command to its handler and framing the reply.

use vstd::prelude::*;
use vstd::string::StringSliceAdditionalSpecFns;
use crate::apdu::{decode, ApduHeader, Instruction};
use crate::comm::{status_frame, success_frame, Comm};
use crate::event::Event;
use crate::status::{AppSW, Reply};
use crate::ux::delivered;
use crate::version::{is_version, lemma_version_unique, numbers_at, parse_version, splits_at, version_of};

verus! {

/// What the handler of `ins` produces for a version string: the payload of
/// its reply, or the status it fails with.
pub open spec fn outcome(ins: Instruction, version: Seq<u8>) -> Result<Seq<u8>, AppSW> {
    match ins {
        Instruction::GetVersion => match version_of(version) {
            Some((major, minor, patch)) => Ok(seq![major, minor, patch]),
            None => Err(AppSW::VersionParsingFail),
        },
    }
}

/// The reply to a command: the payload and the success status where the
/// command decoded and its handler succeeded, else the failing status alone.
pub open spec fn reply_frame(command: Result<Instruction, AppSW>, version: Seq<u8>) -> Seq<u8> {
    match command {
        Ok(ins) => match outcome(ins, version) {
            Ok(payload) => success_frame(payload),
            Err(sw) => status_frame(Reply(sw.wire())),
        },
        Err(sw) => status_frame(Reply(sw.wire())),
    }
}

/// Answers `GetVersion`: appends the three numbers of `version` to the
/// reply, one byte each. A string that is not "major.minor.patch" with
/// every part from 0 to 255 fails and leaves the reply as it was.
pub fn handler_get_version(comm: &mut Comm, version: &str) -> (r: Result<(), AppSW>)
    ensures
        match outcome(Instruction::GetVersion, version.spec_bytes()) {
            Ok(payload) => r is Ok && final(comm)@ == old(comm)@ + payload,
            Err(sw) => r == Err::<(), AppSW>(sw) && final(comm)@ == old(comm)@,
        },
{
    match parse_version(version.as_bytes()) {
        Some((major, minor, patch)) => {
            let payload: [u8; 3] = [major, minor, patch];
            proof {
                assert(payload@ =~= seq![major, minor, patch]);
            }
            comm.append(payload.as_slice());
            Ok(())
        },
        None => Err(AppSW::VersionParsingFail),
    }
}

/// Runs the one handler that `ins` names. On success the handler's payload
/// has been appended to the reply; on failure the reply is untouched.
pub fn handle_apdu(comm: &mut Comm, ins: &Instruction, version: &str) -> (r: Result<(), AppSW>)
    ensures
        match outcome(*ins, version.spec_bytes()) {
            Ok(payload) => r is Ok && final(comm)@ == old(comm)@ + payload,
            Err(sw) => r == Err::<(), AppSW>(sw) && final(comm)@ == old(comm)@,
        },
{
    match ins {
        Instruction::GetVersion => handler_get_version(comm, version),
    }
}

/// Handles one command and returns the framed reply to send. The reply
/// starts empty whatever was pending, a command that failed to decode is
/// answered with its status, and nothing is left pending afterwards.
pub fn dispatch(comm: &mut Comm, command: &Result<Instruction, AppSW>, version: &str) -> (frame:
    Vec<u8>)
    ensures
        frame@ == reply_frame(*command, version.spec_bytes()),
        final(comm)@ == Seq::<u8>::empty(),
{
    comm.clear();
    let handled = match command {
        Ok(ins) => handle_apdu(comm, ins, version),
        Err(sw) => Err(*sw),
    };
    match handled {
        Ok(()) => {
            proof {
                assert(comm@ =~= outcome(command->Ok_0, version.spec_bytes())->Ok_0);
            }
            comm.reply_ok()
        },
        Err(sw) => comm.reply(Reply::from(sw)),
    }
}

/// One turn of the main loop: a command is dispatched and its framed reply
/// returned; any other event asks for no reply and changes nothing.
pub fn handle_event(
    comm: &mut Comm,
    event: &Event<Result<Instruction, AppSW>>,
    version: &str,
) -> (frame: Option<Vec<u8>>)
    ensures
        match *event {
            Event::Command(command) => frame is Some && frame->Some_0@ == reply_frame(
                command,
                version.spec_bytes(),
            ) && final(comm)@ == Seq::<u8>::empty(),
            _ => frame is None && final(comm)@ == old(comm)@,
        },
{
    match event {
        Event::Command(command) => Some(dispatch(comm, command, version)),
        _ => None,
    }
}

/// A well-formed version is answered with its three numbers, byte for byte,
/// followed by the status 0x9000.
pub proof fn lemma_version_reply(version: Seq<u8>, i: int, j: int)
    requires
        splits_at(version, i, j),
    ensures
        reply_frame(Ok(Instruction::GetVersion), version) == seq![
            numbers_at(version, i, j).0,
            numbers_at(version, i, j).1,
            numbers_at(version, i, j).2,
            0x90u8,
            0x00u8,
        ],
{
    lemma_version_unique(version, i, j);
    let (major, minor, patch) = numbers_at(version, i, j);
    assert(success_frame(seq![major, minor, patch]) =~= seq![major, minor, patch, 0x90u8, 0x00u8]);
}

/// A malformed version is answered with `VersionParsingFail` and no payload.
pub proof fn lemma_malformed_version_reply(version: Seq<u8>)
    requires
        !is_version(version),
    ensures
        outcome(Instruction::GetVersion, version) == Err::<Seq<u8>, AppSW>(
            AppSW::VersionParsingFail,
        ),
        reply_frame(Ok(Instruction::GetVersion), version) == seq![0xB0u8, 0x0Au8],
{
    assert(Reply(AppSW::VersionParsingFail.wire()).wire_bytes() =~= seq![0xB0u8, 0x0Au8]);
}

/// A command that fails to decode is not lost on its way to the host: the
/// wait delivers it as a command that carries the failure, and handling that
/// event answers `InsNotSupported` alone.
pub proof fn lemma_decode_failure_is_answered(header: ApduHeader, version: Seq<u8>)
    requires
        !(header.ins == 3 && header.p1 == 0 && header.p2 == 0),
    ensures
        delivered(Some(Event::Command(header))) == Some(
            Event::Command(Err::<Instruction, AppSW>(AppSW::InsNotSupported)),
        ),
        reply_frame(decode(header), version) == seq![0x6Du8, 0x00u8],
{
    assert(Reply(AppSW::InsNotSupported.wire()).wire_bytes() =~= seq![0x6Du8, 0x00u8]);
}

/// A reply never carries a payload together with a failing status: it is
/// either a status word alone, or it ends with the success status.
pub proof fn lemma_payload_excludes_failure(command: Result<Instruction, AppSW>, version: Seq<u8>)
    ensures
        reply_frame(command, version).len() >= 2,
        reply_frame(command, version).len() > 2 ==> reply_frame(command, version).subrange(
            reply_frame(command, version).len() - 2,
            reply_frame(command, version).len() as int,
        ) == seq![0x90u8, 0x00u8],
{
    let frame = reply_frame(command, version);
    let ok = Reply(AppSW::Success.wire()).wire_bytes();
    assert(ok =~= seq![0x90u8, 0x00u8]);
    if frame.len() > 2 {
        assert(command is Ok && outcome(command->Ok_0, version) is Ok);
        let payload = outcome(command->Ok_0, version)->Ok_0;
        assert(frame == payload + ok);
        assert(frame.subrange(frame.len() - 2, frame.len() as int) =~= ok);
    }
}

} // verus!
