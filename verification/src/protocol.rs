use vstd::prelude::*;

use crate::errors::TransportError;

verus! {

/// The fixed capacity, in bytes, of the buffer that the single response
/// read attempt fills. One response is assumed never to exceed it; whatever
/// a peer delivers beyond it in one window is not captured.
pub const RESPONSE_CAPACITY: usize = 512;

/// What the single non-blocking read attempt produced, as the stream hands
/// it back: a buffer with a count of bytes delivered at its front, a
/// would-block notice, or some other input/output failure with the text of
/// its cause.
pub enum ReadOutcome {
    /// The read delivered `count` bytes at the front of `buf`.
    Filled { buf: Vec<u8>, count: usize },
    /// The readiness notification was a false positive; nothing was read.
    WouldBlock,
    /// The read failed with some other input/output error.
    Failed { cause: String },
}

/// The first `count` bytes of `buf`: the part of the read buffer that the
/// read attempt actually filled.
pub fn take_prefix(buf: &Vec<u8>, count: usize) -> (r: Vec<u8>)
    requires
        count <= buf@.len(),
    ensures
        r@ == buf@.subrange(0, count as int),
{
    let mut r: Vec<u8> = Vec::new();
    let mut i: usize = 0;
    while i < count
        invariant
            i <= count,
            count <= buf@.len(),
            r@ == buf@.subrange(0, i as int),
        decreases count - i,
    {
        r.push(buf[i]);
        proof {
            assert(buf@.subrange(0, i + 1) =~= buf@.subrange(0, i as int).push(buf@[i as int]));
        }
        i = i + 1;
    }
    r
}

/// Interpret the outcome of the single read attempt that follows a
/// readiness notification. Zero bytes delivered mean the peer closed the
/// stream; a positive count yields exactly the delivered bytes, never more
/// than the buffer holds; a would-block notice and any other failure each
/// surface as their own error kind. Nothing is retried here.
pub fn interpret_read(outcome: ReadOutcome) -> (r: Result<Vec<u8>, TransportError>)
    requires
        outcome matches ReadOutcome::Filled { buf, count } ==> count <= buf@.len(),
    ensures
        match outcome {
            ReadOutcome::Filled { buf, count } => {
                &&& count == 0 ==> (r matches Err(e) && e is ConnectionClosed)
                &&& count > 0 ==> (r matches Ok(resp) && resp@ == buf@.subrange(0, count as int)
                    && resp@.len() <= buf@.len())
            },
            ReadOutcome::WouldBlock => r matches Err(e) && e is ReadWouldBlock,
            ReadOutcome::Failed { cause } => (r matches Err(e) && e matches TransportError::IoFailure(c)
                && c@ == cause@),
        },
{
    match outcome {
        ReadOutcome::Filled { buf, count } => {
            if count == 0 {
                Err(TransportError::connection_closed())
            } else {
                Ok(take_prefix(&buf, count))
            }
        },
        ReadOutcome::WouldBlock => Err(TransportError::read_would_block()),
        ReadOutcome::Failed { cause } => Err(TransportError::io_failure(cause)),
    }
}

} // verus!
