use vstd::prelude::*;

use crate::errors::TransportError;
use crate::frame::{encode_frame, frame_of};
use crate::protocol::{interpret_read, ReadOutcome};

verus! {

#[verifier::external_type_specification]
#[verifier::external_body]
#[verifier::reject_recursive_types(B)]
pub struct ExAPDUCommand<B>(ledger_apdu::APDUCommand<B>);

/// The bytes that serializing an APDU command yields. They depend on the
/// command's fields alone, so the same command always serializes to the
/// same bytes.
pub uninterp spec fn serialized_of(c: ledger_apdu::APDUCommand<Vec<u8>>) -> Seq<u8>;

/// Relies on ledger_apdu::APDUCommand::serialize: the serialized bytes are
/// a function of the command's fields alone.
#[verifier::external_body]
fn serialize_command(c: &ledger_apdu::APDUCommand<Vec<u8>>) -> (r: Vec<u8>)
    ensures
        r@ == serialized_of(*c),
{
    c.serialize()
}

/// Serialize a command and build its wire frame: the serialized payload's
/// length as a four-byte big-endian prefix, then the payload. `None` when
/// the serialized payload's length does not fit in 32 bits, which the
/// prefix cannot carry.
pub fn frame_command(c: &ledger_apdu::APDUCommand<Vec<u8>>) -> (r: Option<Vec<u8>>)
    ensures
        r is Some <==> serialized_of(*c).len() < 0x1_0000_0000,
        r matches Some(f) ==> f@ == frame_of(serialized_of(*c)),
{
    let payload = serialize_command(c);
    if (payload.len() as u64) < 0x1_0000_0000u64 {
        Some(encode_frame(&payload))
    } else {
        None
    }
}

#[verifier::external_type_specification]
#[verifier::external_body]
#[verifier::reject_recursive_types(B)]
pub struct ExAPDUAnswer<B>(ledger_apdu::APDUAnswer<B>);

#[verifier::external_type_specification]
#[verifier::external_body]
pub struct ExAPDUAnswerError(ledger_apdu::APDUAnswerError);

/// The response payload that a parsed APDU answer holds: the answer's bytes
/// without their trailing two-byte return code.
pub uninterp spec fn answer_payload_of(a: ledger_apdu::APDUAnswer<Vec<u8>>) -> Seq<u8>;

/// The return code that a parsed APDU answer holds: its bytes' last two,
/// read big-endian.
pub uninterp spec fn answer_retcode_of(a: ledger_apdu::APDUAnswer<Vec<u8>>) -> u16;

/// Relies on ledger_apdu::APDUAnswer::from_answer: two or more bytes parse
/// into an answer that holds all bytes before the last two as its payload
/// and the last two, big-endian, as its return code; fewer than two bytes
/// are refused as too short.
#[verifier::external_body]
fn parse_answer(bytes: Vec<u8>) -> (r: Result<
    ledger_apdu::APDUAnswer<Vec<u8>>,
    ledger_apdu::APDUAnswerError,
>)
    ensures
        r is Ok <==> bytes@.len() >= 2,
        r matches Ok(a) ==> answer_payload_of(a) == bytes@.subrange(0, bytes@.len() - 2),
        r matches Ok(a) ==> answer_retcode_of(a) as int == bytes@[bytes@.len() - 2] * 256
            + bytes@[bytes@.len() - 1],
{
    ledger_apdu::APDUAnswer::from_answer(bytes)
}

/// Interpret one read attempt and parse what it delivered as an APDU
/// answer. A transport failure keeps its kind in the outer result; a
/// delivery too short to carry a return code is the answer codec's
/// refusal, returned in the inner result.
pub fn read_answer(outcome: ReadOutcome) -> (r: Result<
    Result<ledger_apdu::APDUAnswer<Vec<u8>>, ledger_apdu::APDUAnswerError>,
    TransportError,
>)
    requires
        outcome matches ReadOutcome::Filled { buf, count } ==> count <= buf@.len(),
    ensures
        match outcome {
            ReadOutcome::Filled { buf, count } => {
                &&& count == 0 ==> (r matches Err(e) && e is ConnectionClosed)
                &&& count == 1 ==> (r matches Ok(inner) && inner is Err)
                &&& count >= 2 ==> (r matches Ok(inner) && inner matches Ok(a)
                    && answer_payload_of(a) == buf@.subrange(0, count - 2)
                    && answer_retcode_of(a) as int == buf@[count - 2] * 256 + buf@[count - 1])
            },
            ReadOutcome::WouldBlock => r matches Err(e) && e is ReadWouldBlock,
            ReadOutcome::Failed { cause } => (r matches Err(e) && e matches TransportError::IoFailure(
                c,
            ) && c@ == cause@),
        },
{
    match interpret_read(outcome) {
        Ok(resp) => Ok(parse_answer(resp)),
        Err(e) => Err(e),
    }
}

} // verus!
