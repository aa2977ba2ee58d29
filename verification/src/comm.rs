//! The reply side of the request/reply channel.

use vstd::prelude::*;
use crate::status::{AppSW, Reply};

verus! {

/// The reply under construction. Handlers append payload bytes; replying
/// frames them and leaves the buffer empty for the next request.
#[derive(Debug)]
pub struct Comm {
    payload: Vec<u8>,
}

impl View for Comm {
    type V = Seq<u8>;

    /// The payload bytes that are pending.
    closed spec fn view(&self) -> Seq<u8> {
        self.payload@
    }
}

/// A reply that carries a payload: the payload, then the success status.
pub open spec fn success_frame(payload: Seq<u8>) -> Seq<u8> {
    payload + Reply(AppSW::Success.wire()).wire_bytes()
}

/// A reply that reports a status and nothing else.
pub open spec fn status_frame(reply: Reply) -> Seq<u8> {
    reply.wire_bytes()
}

impl Comm {
    /// A channel with no reply pending.
    pub fn new() -> (comm: Comm)
        ensures
            comm@ == Seq::<u8>::empty(),
    {
        Comm { payload: Vec::new() }
    }

    /// Appends payload bytes to the pending reply.
    pub fn append(&mut self, bytes: &[u8])
        ensures
            final(self)@ == old(self)@ + bytes@,
    {
        let mut k: usize = 0;
        while k < bytes.len()
            invariant
                k <= bytes.len(),
                self.payload@ == old(self).payload@ + bytes@.take(k as int),
            decreases bytes.len() - k,
        {
            self.payload.push(bytes[k]);
            proof {
                assert(bytes@.take(k + 1) =~= bytes@.take(k as int).push(bytes@[k as int]));
            }
            k = k + 1;
        }
        proof {
            assert(bytes@.take(bytes.len() as int) =~= bytes@);
        }
    }

    /// Drops whatever payload is pending.
    pub fn clear(&mut self)
        ensures
            final(self)@ == Seq::<u8>::empty(),
    {
        self.payload.clear();
    }

    /// The pending payload.
    pub fn pending(&self) -> (bytes: &[u8])
        ensures
            bytes@ == self@,
    {
        self.payload.as_slice()
    }

    /// Frames a successful reply: the pending payload followed by the
    /// success status. Nothing stays pending.
    pub fn reply_ok(&mut self) -> (frame: Vec<u8>)
        ensures
            frame@ == success_frame(old(self)@),
            final(self)@ == Seq::<u8>::empty(),
    {
        let status = Reply::from(AppSW::Success).to_bytes();
        let mut frame: Vec<u8> = Vec::new();
        core::mem::swap(&mut frame, &mut self.payload);
        frame.push(status[0]);
        frame.push(status[1]);
        proof {
            assert(frame@ =~= success_frame(old(self)@));
        }
        frame
    }

    /// Frames a reply that consists of the status word alone. A payload
    /// that was pending is dropped, not sent.
    pub fn reply(&mut self, reply: Reply) -> (frame: Vec<u8>)
        ensures
            frame@ == status_frame(reply),
            final(self)@ == Seq::<u8>::empty(),
    {
        self.payload.clear();
        let status = reply.to_bytes();
        let mut frame: Vec<u8> = Vec::new();
        frame.push(status[0]);
        frame.push(status[1]);
        proof {
            assert(frame@ =~= status_frame(reply));
        }
        frame
    }
}

} // verus!
