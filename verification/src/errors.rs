use vstd::prelude::*;

verus! {

/// The transport's error taxonomy. Every failure of a connect or of one
/// exchange attempt is reported as exactly one of these kinds; none is
/// retried inside the transport, each is terminal for its attempt.
#[derive(Debug)]
pub enum TransportError {
    /// The initial connect failed. The operating system's own detail is
    /// discarded in favour of this single coarse kind.
    ConnectionRefused,
    /// The peer closed the stream: the single read attempt returned zero
    /// bytes. The transport should be considered dead.
    ConnectionClosed,
    /// The readiness notification was a false positive: the single
    /// non-blocking read attempt found nothing to read. The caller may try
    /// the exchange again.
    ReadWouldBlock,
    /// Any other input/output failure on the stream, with the text of its
    /// cause kept for diagnostics.
    IoFailure(String),
}

impl TransportError {
    /// The kind that every failed connect reports, whatever its cause.
    pub fn connection_refused() -> (e: TransportError)
        ensures
            e is ConnectionRefused,
    {
        TransportError::ConnectionRefused
    }

    /// The kind that a zero-byte read reports: the peer closed the stream.
    pub fn connection_closed() -> (e: TransportError)
        ensures
            e is ConnectionClosed,
    {
        TransportError::ConnectionClosed
    }

    /// The kind that a false-positive readiness notification reports.
    pub fn read_would_block() -> (e: TransportError)
        ensures
            e is ReadWouldBlock,
    {
        TransportError::ReadWouldBlock
    }

    /// The kind that any other stream failure reports, carrying the text of
    /// its cause.
    pub fn io_failure(cause: String) -> (e: TransportError)
        ensures
            e matches TransportError::IoFailure(c) && c@ == cause@,
    {
        TransportError::IoFailure(cause)
    }
}

} // verus!
