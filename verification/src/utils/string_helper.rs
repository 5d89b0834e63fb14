//! Turning a native string into an owned UTF-8 string, as steps of an
//! exchange with the native layer.
//!
//! The caller hands over the one reference it holds on the native string.
//! Whether the conversion ends with a string or with an error, the reference
//! is released exactly once before it does.
use vstd::prelude::*;
use vstd::utf8::decode_utf8;
use vstd::utf8::valid_utf8;

use crate::exchange::in_order;
use crate::exchange::Fault;
use crate::exchange::Reply;
use crate::exchange::Request;
use crate::exchange::Step;

verus! {

/// Why a native string could not be turned into a string.
#[derive(Clone, Copy, PartialEq, Eq, Debug, Structural)]
pub enum Error {
    /// The native layer converted nothing.
    FailToGetBytes,
    /// The native string has no characters.
    LengthIsZero,
    /// The bytes are not UTF-8; they are valid up to this index.
    Utf8(usize),
}

/// The most bytes that the UTF-8 encoding of one UTF-16 code unit can take.
pub const MAX_BYTES_PER_UNIT: usize = 3;

/// Whether `end` is the longest prefix of the bytes that is valid UTF-8.
pub open spec fn longest_valid_prefix(bytes: Seq<u8>, end: int) -> bool {
    &&& 0 <= end <= bytes.len()
    &&& valid_utf8(bytes.take(end))
    &&& forall|longer: int| end < longer <= bytes.len() ==> !valid_utf8(#[trigger] bytes.take(longer))
}

/// The length of the longest prefix of the bytes that is valid UTF-8.
pub open spec fn valid_up_to(bytes: Seq<u8>) -> int {
    choose|end: int| longest_valid_prefix(bytes, end)
}

/// What decoding the bytes as UTF-8 gives.
pub open spec fn decoded(bytes: Seq<u8>) -> Result<Seq<char>, Error> {
    if valid_utf8(bytes) {
        Ok(decode_utf8(bytes))
    } else {
        Err(Error::Utf8(valid_up_to(bytes) as usize))
    }
}

/// The step that follows once the string must be released: the release is
/// asked for, and after it the outcome stands.
pub open spec fn released<T>(string: u64, replies: Seq<Reply>, at: int, outcome: Step<T, Error>)
    -> Step<T, Error> {
    if replies.len() <= at {
        Step::Ask(Request::StringRelease { string })
    } else {
        match replies[at] {
            Reply::Released => outcome,
            _ => Step::Fault(Fault::UnexpectedReply),
        }
    }
}

/// What the encoded bytes come to once the native layer has filled the
/// buffer: nothing converted or nothing written is a failure, and otherwise
/// the buffer is cut to the bytes that were written.
pub open spec fn encoded(converted: isize, used: isize, bytes: Seq<u8>) -> Step<Seq<u8>, Error> {
    if converted <= 0 || used <= 0 {
        Step::Failed(Error::FailToGetBytes, 3)
    } else {
        Step::Done(bytes.take(used as int), 3)
    }
}

/// The steps of fetching the UTF-8 bytes of a native string.
///
/// The length is asked for. A string without characters, or one too long for
/// any buffer, is released and fails. Otherwise a buffer of three bytes per
/// code unit, which no encoding exceeds, is handed over to be filled, the
/// string is released, and the bytes written are the result.
pub open spec fn byte_array_step(string: u64, replies: Seq<Reply>) -> Step<Seq<u8>, Error> {
    if replies.len() == 0 {
        Step::Ask(Request::StringLength { string })
    } else {
        match replies[0] {
            Reply::Length(length) => if length <= 0 {
                released(string, replies, 1, Step::Failed(Error::LengthIsZero, 2))
            } else if length * 3 > usize::MAX {
                released(string, replies, 1, Step::Failed(Error::FailToGetBytes, 2))
            } else if replies.len() == 1 {
                Step::Ask(
                    Request::StringBytes {
                        string,
                        length: length as usize,
                        capacity: (length * 3) as usize,
                    },
                )
            } else {
                match replies[1] {
                    Reply::Bytes { converted, used, bytes } => if bytes@.len() == length * 3 && used
                        <= length * 3 {
                        released(string, replies, 2, encoded(converted, used, bytes@))
                    } else {
                        Step::Fault(Fault::UnexpectedReply)
                    },
                    _ => Step::Fault(Fault::UnexpectedReply),
                }
            },
            _ => Step::Fault(Fault::UnexpectedReply),
        }
    }
}

/// The steps of converting a native string: its bytes are fetched and then
/// decoded as UTF-8.
pub open spec fn string_step(string: u64, replies: Seq<Reply>) -> Step<Seq<char>, Error> {
    match byte_array_step(string, replies) {
        Step::Ask(request) => Step::Ask(request),
        Step::Fault(fault) => Step::Fault(fault),
        Step::Failed(error, used) => Step::Failed(error, used),
        Step::Done(bytes, used) => match decoded(bytes) {
            Ok(characters) => Step::Done(characters, used),
            Err(error) => Step::Failed(error, used),
        },
    }
}

/// Converts a native string into an owned string and releases it.
///
/// A null handle is the caller's defect and is kept out.
pub fn to_string(string_ref: u64, replies: &[Reply]) -> (step: Step<String, Error>)
    requires
        string_ref != 0,
    ensures
        step@ == string_step(string_ref, replies@),
        step.within(replies@.len()),
{
    match get_btye_array(string_ref, replies) {
        Step::Ask(request) => Step::Ask(request),
        Step::Fault(fault) => Step::Fault(fault),
        Step::Failed(error, used) => Step::Failed(error, used),
        Step::Done(buffer, used) => match btye_array_to_string(buffer) {
            Ok(string) => Step::Done(string, used),
            Err(error) => Step::Failed(error, used),
        },
    }
}

/// Asks for the release of the string, and lets the outcome stand after it.
fn release<T>(string: u64, replies: &[Reply], at: usize, outcome: Step<T, Error>) -> (step: Step<
    T,
    Error,
>)
    ensures
        step == released(string, replies@, at as int, outcome),
        outcome.within((at + 1) as nat) ==> step.within(replies@.len()),
{
    if replies.len() <= at {
        return Step::Ask(Request::StringRelease { string });
    }
    match &replies[at] {
        Reply::Released => outcome,
        _ => Step::Fault(Fault::UnexpectedReply),
    }
}

/// Fetches the UTF-8 bytes of a native string and releases it.
pub fn get_btye_array(string_ref: u64, replies: &[Reply]) -> (step: Step<Vec<u8>, Error>)
    ensures
        step@ == byte_array_step(string_ref, replies@),
        step.within(replies@.len()),
{
    if replies.len() == 0 {
        return Step::Ask(Request::StringLength { string: string_ref });
    }
    let length: isize = match &replies[0] {
        Reply::Length(length) => *length,
        _ => {
            return Step::Fault(Fault::UnexpectedReply);
        },
    };
    if length <= 0 {
        return release(string_ref, replies, 1, Step::Failed(Error::LengthIsZero, 2));
    }
    let length: usize = length as usize;
    if length > usize::MAX / MAX_BYTES_PER_UNIT {
        return release(string_ref, replies, 1, Step::Failed(Error::FailToGetBytes, 2));
    }
    let capacity: usize = length * MAX_BYTES_PER_UNIT;
    if replies.len() == 1 {
        return Step::Ask(Request::StringBytes { string: string_ref, length, capacity });
    }
    match &replies[1] {
        Reply::Bytes { converted, used, bytes } => {
            let overrun: bool = *used > 0 && *used as usize > capacity;
            if bytes.len() != capacity || overrun {
                return Step::Fault(Fault::UnexpectedReply);
            }
            if *converted <= 0 || *used <= 0 {
                return release(string_ref, replies, 2, Step::Failed(Error::FailToGetBytes, 3));
            }
            let mut buffer = bytes.clone();
            buffer.truncate(*used as usize);
            release(string_ref, replies, 2, Step::Done(buffer, 3))
        },
        _ => Step::Fault(Fault::UnexpectedReply),
    }
}

/// Calls `String::from_utf8` of the standard library. Taken on trust: it
/// yields a string exactly where the bytes are valid UTF-8, the string is the
/// one that the bytes encode, and otherwise the error's `valid_up_to` is the
/// length of the longest prefix of the bytes that is valid.
#[verifier::external_body]
fn from_utf8(buffer: Vec<u8>) -> (result: Result<String, usize>)
    ensures
        result is Ok <==> valid_utf8(buffer@),
        result is Ok ==> result->Ok_0@ == decode_utf8(buffer@),
        result is Err ==> longest_valid_prefix(buffer@, result->Err_0 as int),
{
    match String::from_utf8(buffer) {
        Ok(string) => Ok(string),
        Err(error) => Err(error.utf8_error().valid_up_to()),
    }
}

/// There is one longest valid prefix at most.
proof fn lemma_one_longest_prefix(bytes: Seq<u8>, a: int, b: int)
    requires
        longest_valid_prefix(bytes, a),
        longest_valid_prefix(bytes, b),
    ensures
        a == b,
{
    if a < b {
        assert(!valid_utf8(bytes.take(b)));
    } else if b < a {
        assert(!valid_utf8(bytes.take(a)));
    }
}

/// Decodes the bytes as UTF-8.
pub fn btye_array_to_string(buffer: Vec<u8>) -> (result: Result<String, Error>)
    ensures
        result is Ok <==> valid_utf8(buffer@),
        match result {
            Ok(string) => Ok::<Seq<char>, Error>(string@) == decoded(buffer@),
            Err(error) => Err::<Seq<char>, Error>(error) == decoded(buffer@),
        },
{
    let ghost bytes = buffer@;
    match from_utf8(buffer) {
        Ok(string) => Ok(string),
        Err(end) => {
            proof {
                lemma_one_longest_prefix(bytes, end as int, valid_up_to(bytes));
            }
            Err(Error::Utf8(end))
        },
    }
}

/// The request that fetching the bytes of the string makes after the first
/// `count` of the replies, if it makes one.
pub open spec fn asked(string: u64, replies: Seq<Reply>, count: int) -> Option<Request> {
    match byte_array_step(string, replies.take(count)) {
        Step::Ask(request) => Some(request),
        _ => None,
    }
}

/// A native string without characters is no string: once it is released,
/// the conversion fails with `LengthIsZero`.
pub proof fn lemma_empty_string_fails(string: u64, replies: Seq<Reply>)
    requires
        replies.len() >= 2,
        replies[0] matches Reply::Length(length) && length <= 0,
        replies[1] is Released,
    ensures
        string_step(string, replies) == Step::<Seq<char>, Error>::Failed(Error::LengthIsZero, 2),
{
}

/// The string is released exactly once on every path: whenever the
/// conversion settles with a value or an error, its last request was the
/// release of the string, and none of its requests before that was.
pub proof fn lemma_released_once(string: u64, replies: Seq<Reply>)
    requires
        string_step(string, replies) is Done || string_step(string, replies) is Failed,
    ensures
        ({
            let used = match string_step(string, replies) {
                Step::Done(_, used) => used,
                Step::Failed(_, used) => used,
                _ => 0,
            };
            &&& 2 <= used <= replies.len()
            &&& asked(string, replies, used - 1) == Some(Request::StringRelease { string })
            &&& forall|count: int|
                0 <= count < used - 1 ==> {
                    &&& #[trigger] asked(string, replies, count) is Some
                    &&& asked(string, replies, count) != Some(Request::StringRelease { string })
                }
        }),
{
    let used = match string_step(string, replies) {
        Step::Done(_, used) => used,
        Step::Failed(_, used) => used,
        _ => 0,
    };
    assert(replies.take(0).len() == 0);
    assert(replies.take(1)[0] == replies[0]);
    if used == 3 {
        assert(replies.take(2)[0] == replies[0]);
        assert(replies.take(2)[1] == replies[1]);
    }
    assert forall|count: int| 0 <= count < used - 1 implies {
        &&& #[trigger] asked(string, replies, count) is Some
        &&& asked(string, replies, count) != Some(Request::StringRelease { string })
    } by {
        if count == 0 {
            assert(replies.take(0).len() == 0);
        } else {
            assert(replies.take(1)[0] == replies[0]);
        }
    }
}


/// What has settled stays settled: a conversion that has come to an end
/// comes to the same end whatever replies follow, and it accounts for no
/// more replies than it was given.
pub proof fn lemma_settled_for_good(string: u64, replies: Seq<Reply>, more: Seq<Reply>)
    ensures
        in_order(
            byte_array_step(string, replies),
            replies.len(),
            byte_array_step(string, replies + more),
        ),
        in_order(string_step(string, replies), replies.len(), string_step(string, replies + more)),
{
    if replies.len() > 0 {
        assert((replies + more)[0] == replies[0]);
    }
    if replies.len() > 1 {
        assert((replies + more)[1] == replies[1]);
    }
    if replies.len() > 2 {
        assert((replies + more)[2] == replies[2]);
    }
}

} // verus!
