//! Reading, sizing and writing the properties of an audio object, as steps of
//! an exchange with the native layer.
use vstd::prelude::*;

use super::property_address::four_cc;
use super::property_address::PropertyAddress;
use crate::exchange::in_order;
use crate::exchange::lemma_rest_of_longer;
use crate::exchange::Fault;
use crate::exchange::Reply;
use crate::exchange::Request;
use crate::exchange::Step;

verus! {

/// The status of a native call that went well.
pub const NO_ERROR: i32 = 0;

/// The object id that stands for no object.
pub const UNKNOWN_OBJECT: u32 = 0;

/// `!obj`: the object id does not name an audio object.
pub const BAD_OBJECT_ERROR: u32 = 0x216F_626A;

/// `!siz`: the buffer handed over is not of the size of the property's data.
pub const BAD_PROPERTY_SIZE_ERROR: u32 = 0x2173_697A;

/// `who?`: the object knows no property at the address.
pub const UNKNOWN_PROPERTY_ERROR: u32 = 0x7768_6F3F;

/// Why a property could not be read, sized or written.
#[derive(Clone, Copy, PartialEq, Eq, Debug, Structural)]
pub enum Error {
    BadObject,
    BadPropertySize,
    UnknownProperty,
    SizeIsZero,
}

/// The status as the unsigned number with the same 32 bits.
pub open spec fn status_bits(status: i32) -> u32 {
    if status >= 0 {
        status as u32
    } else {
        (status + 0x1_0000_0000) as u32
    }
}

/// The error that a native status code stands for, if it stands for one.
pub open spec fn error_of(code: u32) -> Option<Error> {
    if code == four_cc('!', 'o', 'b', 'j') {
        Some(Error::BadObject)
    } else if code == four_cc('!', 's', 'i', 'z') {
        Some(Error::BadPropertySize)
    } else if code == four_cc('w', 'h', 'o', '?') {
        Some(Error::UnknownProperty)
    } else {
        None
    }
}

/// Whether the status is success or one of the errors above.
pub open spec fn recognised(status: i32) -> bool {
    status == 0 || error_of(status_bits(status)) is Some
}

/// What a call with this status settles as, when success yields `value`.
pub open spec fn status_step<T>(status: i32, value: T, used: usize) -> Step<T, Error> {
    if status == 0 {
        Step::Done(value, used)
    } else {
        match error_of(status_bits(status)) {
            Some(error) => Step::Failed(error, used),
            None => Step::Fault(Fault::UnknownStatus(status)),
        }
    }
}

/// Reinterprets a status as the unsigned number with the same bits.
pub fn to_bindgen_type(status: i32) -> (code: u32)
    ensures
        code == status_bits(status),
{
    if status >= 0 {
        status as u32
    } else {
        let low: u32 = (status + i32::MAX + 1) as u32;
        low + 0x8000_0000
    }
}

/// Whether `convert_to_result` accepts the status.
pub fn is_recognised(status: i32) -> (known: bool)
    ensures
        known == recognised(status),
{
    let code: u32 = to_bindgen_type(status);
    status == NO_ERROR || code == BAD_OBJECT_ERROR || code == BAD_PROPERTY_SIZE_ERROR || code
        == UNKNOWN_PROPERTY_ERROR
}

/// Maps the code of a failed native call to its error. The set of errors is
/// closed: any other code is a defect and is kept out.
pub fn status_to_error(code: u32) -> (error: Error)
    requires
        error_of(code) is Some,
    ensures
        error_of(code) == Some(error),
{
    if code == BAD_OBJECT_ERROR {
        Error::BadObject
    } else if code == BAD_PROPERTY_SIZE_ERROR {
        Error::BadPropertySize
    } else {
        Error::UnknownProperty
    }
}

/// Turns the status of a native call into success or the error it names.
pub fn convert_to_result(status: i32) -> (result: Result<(), Error>)
    requires
        recognised(status),
    ensures
        result is Ok <==> status == 0,
        result is Err ==> error_of(status_bits(status)) == Some(result->Err_0),
{
    if status == NO_ERROR {
        Ok(())
    } else {
        Err(status_to_error(to_bindgen_type(status)))
    }
}

/// Keeps a size that is not zero, and turns zero into `SizeIsZero`.
pub fn non_empty_size(result: Result<usize, Error>) -> (checked: Result<usize, Error>)
    ensures
        checked == (match result {
            Ok(value) => if value > 0 {
                Ok(value)
            } else {
                Err(Error::SizeIsZero)
            },
            Err(error) => Err(error),
        }),
{
    match result {
        Ok(value) => {
            if value > 0 {
                Ok(value)
            } else {
                Err(Error::SizeIsZero)
            }
        },
        Err(error) => Err(error),
    }
}

/// Settles a call by its status: the value on success, the error that the
/// status names, or a fault where it names none.
fn settle<T>(status: i32, value: T, used: usize) -> (step: Step<T, Error>)
    ensures
        step == status_step(status, value, used),
{
    if !is_recognised(status) {
        return Step::Fault(Fault::UnknownStatus(status));
    }
    match convert_to_result(status) {
        Ok(()) => Step::Done(value, used),
        Err(error) => Step::Failed(error, used),
    }
}

/// The steps of probing for a property: one request, and the flag it yields.
/// The id that stands for no object has no property, and nothing is asked.
pub open spec fn has_property_step(id: u32, address: PropertyAddress, replies: Seq<Reply>) -> Step<
    bool,
    Error,
> {
    if id == UNKNOWN_OBJECT {
        Step::Done(false, 0)
    } else if replies.len() == 0 {
        Step::Ask(Request::HasProperty { id, address })
    } else {
        match replies[0] {
            Reply::Flag(present) => Step::Done(present, 1),
            _ => Step::Fault(Fault::UnexpectedReply),
        }
    }
}

/// The steps of sizing a property: one request, settled by its status. The
/// id that stands for no object is refused, and nothing is asked.
pub open spec fn data_size_step(id: u32, address: PropertyAddress, replies: Seq<Reply>) -> Step<
    usize,
    Error,
> {
    if id == UNKNOWN_OBJECT {
        Step::Failed(Error::BadObject, 0)
    } else if replies.len() == 0 {
        Step::Ask(Request::PropertyDataSize { id, address })
    } else {
        match replies[0] {
            Reply::Size { status, size } => status_step(status, size as usize, 1),
            _ => Step::Fault(Fault::UnexpectedReply),
        }
    }
}

/// The steps of one read into a buffer of `size` bytes: the request, settled
/// by its status with the buffer, which must come back at that size.
pub open spec fn read_step(request: Request, size: usize, replies: Seq<Reply>) -> Step<
    Seq<u8>,
    Error,
> {
    if replies.len() == 0 {
        Step::Ask(request)
    } else {
        match replies[0] {
            Reply::Data { status, bytes } => if bytes@.len() == size {
                status_step(status, bytes@, 1)
            } else {
                Step::Fault(Fault::UnexpectedReply)
            },
            _ => Step::Fault(Fault::UnexpectedReply),
        }
    }
}

/// The steps of a read that is checked against the property's size: the
/// property is sized first, any other size than the expected one is a fault,
/// and then the read is carried out into a buffer of `size` bytes.
pub open spec fn sized_read_step(
    id: u32,
    address: PropertyAddress,
    expected: usize,
    request: Request,
    size: usize,
    replies: Seq<Reply>,
) -> Step<Seq<u8>, Error> {
    match data_size_step(id, address, replies) {
        Step::Ask(request) => Step::Ask(request),
        Step::Fault(fault) => Step::Fault(fault),
        Step::Failed(error, used) => Step::Failed(error, used),
        Step::Done(reported, _) => if reported == expected {
            read_step(request, size, replies.skip(1)).after(1)
        } else {
            Step::Fault(Fault::SizeMismatch { expected, reported })
        },
    }
}

/// The steps of reading a value of `size` bytes: a read of that many bytes,
/// checked against that size.
pub open spec fn data_step(id: u32, address: PropertyAddress, size: usize, replies: Seq<Reply>)
    -> Step<Seq<u8>, Error> {
    sized_read_step(id, address, size, Request::PropertyData { id, address, size }, size, replies)
}

/// The size of the structure that a translation is read through: the
/// addresses and sizes of its input and of its output.
pub const TRANSLATION_SIZE: usize = 32;

/// The steps of reading what a property translates the four-byte `input`
/// into, as a value of `size` bytes: the property must have the size of a
/// translation, and the read hands the input over.
pub open spec fn translated_step(
    id: u32,
    address: PropertyAddress,
    input: u32,
    size: usize,
    replies: Seq<Reply>,
) -> Step<Seq<u8>, Error> {
    sized_read_step(
        id,
        address,
        TRANSLATION_SIZE,
        Request::TranslatedData { id, address, input, size },
        size,
        replies,
    )
}

/// The steps of reading data whose size only the native layer knows: the
/// property is sized, a size of zero is an error, and then it is read whole.
pub open spec fn variable_sized_step(id: u32, address: PropertyAddress, replies: Seq<Reply>)
    -> Step<Seq<u8>, Error> {
    match data_size_step(id, address, replies) {
        Step::Ask(request) => Step::Ask(request),
        Step::Fault(fault) => Step::Fault(fault),
        Step::Failed(error, used) => Step::Failed(error, used),
        Step::Done(size, used) => if size == 0 {
            Step::Failed(Error::SizeIsZero, used)
        } else {
            read_step(Request::PropertyData { id, address, size }, size, replies.skip(1)).after(1)
        },
    }
}

/// The steps of reading an array of elements of `width` bytes each: as for
/// data of unknown size, and of what was read the whole elements are kept.
pub open spec fn array_step(id: u32, address: PropertyAddress, width: usize, replies: Seq<Reply>)
    -> Step<Seq<u8>, Error> {
    match variable_sized_step(id, address, replies) {
        Step::Done(bytes, used) => Step::Done(
            bytes.take((bytes.len() as int) / (width as int) * (width as int)),
            used,
        ),
        other => other,
    }
}

/// The steps of writing a property: one request, settled by its status. The
/// id that stands for no object is refused, and nothing is asked.
pub open spec fn set_step(id: u32, address: PropertyAddress, value: u32, replies: Seq<Reply>)
    -> Step<(), Error> {
    if id == UNKNOWN_OBJECT {
        Step::Failed(Error::BadObject, 0)
    } else if replies.len() == 0 {
        Step::Ask(Request::SetPropertyData { id, address, value })
    } else {
        match replies[0] {
            Reply::Status(status) => status_step(status, (), 1),
            _ => Step::Fault(Fault::UnexpectedReply),
        }
    }
}

/// Probes whether the object has a property at the address. Never fails.
pub fn has_property(id: u32, address: &PropertyAddress, replies: &[Reply]) -> (step: Step<
    bool,
    Error,
>)
    ensures
        step == has_property_step(id, *address, replies@),
        step.within(replies@.len()),
        !(step is Failed),
{
    if id == UNKNOWN_OBJECT {
        return Step::Done(false, 0);
    }
    if replies.len() == 0 {
        return Step::Ask(Request::HasProperty { id, address: *address });
    }
    match &replies[0] {
        Reply::Flag(present) => Step::Done(*present, 1),
        _ => Step::Fault(Fault::UnexpectedReply),
    }
}

/// Queries the size in bytes of the property's data.
pub fn get_property_data_size(id: u32, address: &PropertyAddress, replies: &[Reply]) -> (step:
    Step<usize, Error>)
    ensures
        step == data_size_step(id, *address, replies@),
        step.within(replies@.len()),
{
    if id == UNKNOWN_OBJECT {
        return Step::Failed(Error::BadObject, 0);
    }
    if replies.len() == 0 {
        return Step::Ask(Request::PropertyDataSize { id, address: *address });
    }
    match &replies[0] {
        Reply::Size { status, size } => settle(*status, *size as usize, 1),
        _ => Step::Fault(Fault::UnexpectedReply),
    }
}

/// Carries out one read into a buffer of `size` bytes.
fn read(request: Request, size: usize, replies: &[Reply]) -> (step: Step<Vec<u8>, Error>)
    ensures
        step@ == read_step(request, size, replies@),
        step.within(replies@.len()),
{
    if replies.len() == 0 {
        return Step::Ask(request);
    }
    match &replies[0] {
        Reply::Data { status, bytes } => {
            if bytes.len() == size {
                settle(*status, bytes.clone(), 1)
            } else {
                Step::Fault(Fault::UnexpectedReply)
            }
        },
        _ => Step::Fault(Fault::UnexpectedReply),
    }
}

/// Sizes the property, takes any other size than `expected` for a fault, and
/// carries out the read into a buffer of `size` bytes.
fn sized_read(
    id: u32,
    address: &PropertyAddress,
    expected: usize,
    request: Request,
    size: usize,
    replies: &[Reply],
) -> (step: Step<Vec<u8>, Error>)
    ensures
        step@ == sized_read_step(id, *address, expected, request, size, replies@),
        step.within(replies@.len()),
{
    match get_property_data_size(id, address, replies) {
        Step::Ask(request) => Step::Ask(request),
        Step::Fault(fault) => Step::Fault(fault),
        Step::Failed(error, used) => Step::Failed(error, used),
        Step::Done(reported, _) => {
            if reported == expected {
                let rest = vstd::slice::slice_subrange(replies, 1, replies.len());
                read(request, size, rest).shift(1)
            } else {
                Step::Fault(Fault::SizeMismatch { expected, reported })
            }
        },
    }
}

/// Reads a value of `size` bytes from the property. The native layer must
/// report that very size for it: any other is a fault.
pub fn get_property_data(id: u32, address: &PropertyAddress, size: usize, replies: &[Reply]) -> (step:
    Step<Vec<u8>, Error>)
    ensures
        step@ == data_step(id, *address, size, replies@),
        step.within(replies@.len()),
{
    let request = Request::PropertyData { id, address: *address, size };
    sized_read(id, address, size, request, size, replies)
}

/// Reads what the property translates the four-byte `input` into, as a value
/// of `size` bytes.
pub fn get_translated_data(
    id: u32,
    address: &PropertyAddress,
    input: u32,
    size: usize,
    replies: &[Reply],
) -> (step: Step<Vec<u8>, Error>)
    ensures
        step@ == translated_step(id, *address, input, size, replies@),
        step.within(replies@.len()),
{
    let request = Request::TranslatedData { id, address: *address, input, size };
    sized_read(id, address, TRANSLATION_SIZE, request, size, replies)
}

/// Reads the property into `data`, whose length is the size of the value.
/// `data` changes only when the read is done.
pub fn get_property_data_with_ptr(
    id: u32,
    address: &PropertyAddress,
    data: &mut Vec<u8>,
    replies: &[Reply],
) -> (step: Step<(), Error>)
    ensures
        step@ == data_step(id, *address, old(data)@.len() as usize, replies@).unit(),
        step.within(replies@.len()),
        final(data)@ == (match data_step(id, *address, old(data)@.len() as usize, replies@) {
            Step::Done(bytes, _) => bytes,
            _ => old(data)@,
        }),
{
    match get_property_data(id, address, data.len(), replies) {
        Step::Done(bytes, used) => {
            *data = bytes;
            Step::Done((), used)
        },
        Step::Failed(error, used) => Step::Failed(error, used),
        Step::Ask(request) => Step::Ask(request),
        Step::Fault(fault) => Step::Fault(fault),
    }
}

/// Reads data whose size only the native layer knows. No data at all is an
/// error of its own, apart from a property that the object does not have.
pub fn get_property_variable_sized_data(id: u32, address: &PropertyAddress, replies: &[Reply])
    -> (step: Step<Vec<u8>, Error>)
    ensures
        step@ == variable_sized_step(id, *address, replies@),
        step.within(replies@.len()),
{
    match get_property_data_size(id, address, replies) {
        Step::Ask(request) => Step::Ask(request),
        Step::Fault(fault) => Step::Fault(fault),
        Step::Failed(error, used) => Step::Failed(error, used),
        Step::Done(reported, used) => {
            match non_empty_size(Ok(reported)) {
                Err(error) => Step::Failed(error, used),
                Ok(size) => {
                    let rest = vstd::slice::slice_subrange(replies, 1, replies.len());
                    let request = Request::PropertyData { id, address: *address, size };
                    read(request, size, rest).shift(1)
                },
            }
        },
    }
}

/// Reads an array of elements of `width` bytes each and returns the bytes of
/// its whole elements, as many as fit into the size that was reported.
pub fn get_property_array(id: u32, address: &PropertyAddress, width: usize, replies: &[Reply])
    -> (step: Step<Vec<u8>, Error>)
    requires
        width > 0,
    ensures
        step@ == array_step(id, *address, width, replies@),
        step.within(replies@.len()),
{
    match get_property_variable_sized_data(id, address, replies) {
        Step::Done(bytes, used) => {
            let mut bytes = bytes;
            let whole: usize = allocate_array(bytes.len(), width);
            bytes.truncate(whole);
            Step::Done(bytes, used)
        },
        other => other,
    }
}

/// The number of bytes that the whole elements of `width` bytes take up in
/// `size` bytes.
pub fn allocate_array(size: usize, width: usize) -> (whole: usize)
    requires
        width > 0,
    ensures
        whole == size / width * width,
        whole <= size,
{
    let elements: usize = size / width;
    proof {
        vstd::arithmetic::div_mod::lemma_fundamental_div_mod(size as int, width as int);
        vstd::arithmetic::mul::lemma_mul_is_commutative(size as int / width as int, width as int);
        vstd::arithmetic::div_mod::lemma_mod_bound(size as int, width as int);
    }
    elements * width
}

/// Writes the four-byte value as the property's data.
pub fn set_property_data(id: u32, address: &PropertyAddress, value: u32, replies: &[Reply]) -> (step:
    Step<(), Error>)
    ensures
        step == set_step(id, *address, value, replies@),
        step.within(replies@.len()),
{
    if id == UNKNOWN_OBJECT {
        return Step::Failed(Error::BadObject, 0);
    }
    if replies.len() == 0 {
        return Step::Ask(Request::SetPropertyData { id, address: *address, value });
    }
    match &replies[0] {
        Reply::Status(status) => settle(*status, (), 1),
        _ => Step::Fault(Fault::UnexpectedReply),
    }
}


/// The 32-bit number that four bytes hold, least significant byte first.
pub open spec fn word(bytes: Seq<u8>) -> u32 {
    (bytes[0] + bytes[1] * 0x100 + bytes[2] * 0x1_0000 + bytes[3] * 0x100_0000) as u32
}

/// The 64-bit number that eight bytes hold, least significant byte first.
pub open spec fn handle(bytes: Seq<u8>) -> u64 {
    (word(bytes.subrange(0, 4)) + word(bytes.subrange(4, 8)) * 0x1_0000_0000) as u64
}

/// The 32-bit numbers that the bytes hold, four bytes each.
pub open spec fn words(bytes: Seq<u8>) -> Seq<u32> {
    Seq::new((bytes.len() / 4) as nat, |i: int| word(bytes.subrange(4 * i, 4 * i + 4)))
}

/// The bytes that hold a 32-bit number, least significant byte first.
pub open spec fn word_bytes(value: u32) -> Seq<u8> {
    seq![
        (value % 0x100) as u8,
        (value / 0x100 % 0x100) as u8,
        (value / 0x1_0000 % 0x100) as u8,
        (value / 0x100_0000) as u8,
    ]
}

/// A number is read back from its bytes as it was.
pub proof fn lemma_word_of_its_bytes(value: u32)
    ensures
        word_bytes(value).len() == 4,
        word(word_bytes(value)) == value,
{
}

/// Reads the 32-bit number that starts at `at`.
pub fn read_word(bytes: &[u8], at: usize) -> (value: u32)
    requires
        at + 4 <= bytes@.len(),
    ensures
        value == word(bytes@.subrange(at as int, at + 4)),
{
    let b0: u32 = bytes[at] as u32;
    let b1: u32 = bytes[at + 1] as u32;
    let b2: u32 = bytes[at + 2] as u32;
    let b3: u32 = bytes[at + 3] as u32;
    b0 + b1 * 0x100 + b2 * 0x1_0000 + b3 * 0x100_0000
}

/// Reads the 64-bit number that the eight bytes hold.
pub fn read_handle(bytes: &[u8]) -> (value: u64)
    requires
        bytes@.len() == 8,
    ensures
        value == handle(bytes@),
{
    let low: u64 = read_word(bytes, 0) as u64;
    let high: u64 = read_word(bytes, 4) as u64;
    low + high * 0x1_0000_0000
}

/// Reads the 32-bit numbers that the bytes hold, as many as fit.
pub fn read_words(bytes: &[u8]) -> (values: Vec<u32>)
    ensures
        values@ == words(bytes@),
{
    let count: usize = bytes.len() / 4;
    let mut values: Vec<u32> = Vec::new();
    let mut i: usize = 0;
    while i < count
        invariant
            4 * count <= bytes@.len() <= usize::MAX,
            count == bytes@.len() / 4,
            i <= count,
            values@.len() == i,
            forall|k: int| 0 <= k < i ==> values@[k] == word(#[trigger] bytes@.subrange(4 * k, 4 * k + 4)),
        decreases count - i,
    {
        let value: u32 = read_word(bytes, 4 * i);
        values.push(value);
        i = i + 1;
    }
    assert(values@ =~= words(bytes@));
    values
}


/// Whether the reply carries the status of an object id that names no
/// object.
pub open spec fn refuses_object(reply: Reply) -> bool {
    match reply {
        Reply::Size { status, size } => status == 0x216F_626A,
        Reply::Status(status) => status == 0x216F_626A,
        _ => false,
    }
}

/// Sizing a property and then reading it as a value of the size reported
/// yields the value: where the native layer reports that size again and
/// carries out the read with success, the read is done with the bytes it
/// handed back, and there is no fault.
pub proof fn lemma_read_after_size(
    id: u32,
    address: PropertyAddress,
    size: usize,
    sizing: Seq<Reply>,
    reading: Seq<Reply>,
)
    requires
        data_size_step(id, address, sizing) == Step::<usize, Error>::Done(size, 1),
        reading.len() >= 2,
        reading[0] == sizing[0],
        reading[1] matches Reply::Data { status, bytes } && status == 0 && bytes@.len() == size,
    ensures
        reading[1] matches Reply::Data { status, bytes } && data_step(id, address, size, reading)
            == Step::<Seq<u8>, Error>::Done(bytes@, 2),
{
    assert(reading.skip(1)[0] == reading[1]);
}

/// The object id that stands for no object is refused by every operation:
/// whatever the replies, each of them fails with `BadObject`, none of them
/// asks anything of the native layer, and none of them ends in a fault. A
/// probe for a property finds none.
pub proof fn lemma_no_object_is_refused(
    address: PropertyAddress,
    size: usize,
    width: usize,
    input: u32,
    value: u32,
    replies: Seq<Reply>,
)
    ensures
        has_property_step(UNKNOWN_OBJECT, address, replies) == Step::<bool, Error>::Done(false, 0),
        data_size_step(UNKNOWN_OBJECT, address, replies) == Step::<usize, Error>::Failed(
            Error::BadObject,
            0,
        ),
        data_step(UNKNOWN_OBJECT, address, size, replies) == Step::<Seq<u8>, Error>::Failed(
            Error::BadObject,
            0,
        ),
        translated_step(UNKNOWN_OBJECT, address, input, size, replies) == Step::<
            Seq<u8>,
            Error,
        >::Failed(Error::BadObject, 0),
        variable_sized_step(UNKNOWN_OBJECT, address, replies) == Step::<Seq<u8>, Error>::Failed(
            Error::BadObject,
            0,
        ),
        array_step(UNKNOWN_OBJECT, address, width, replies) == Step::<Seq<u8>, Error>::Failed(
            Error::BadObject,
            0,
        ),
        set_step(UNKNOWN_OBJECT, address, value, replies) == Step::<(), Error>::Failed(
            Error::BadObject,
            0,
        ),
{
}

/// An object id that the native layer takes for no object makes every
/// operation fail with `BadObject` at its first request: none of them goes
/// on, and none of them ends in a fault.
pub proof fn lemma_bad_object_fails(
    id: u32,
    address: PropertyAddress,
    size: usize,
    width: usize,
    value: u32,
    replies: Seq<Reply>,
)
    requires
        id != UNKNOWN_OBJECT,
        replies.len() > 0,
        refuses_object(replies[0]),
    ensures
        replies[0] is Size ==> {
            &&& data_size_step(id, address, replies) == Step::<usize, Error>::Failed(
                Error::BadObject,
                1,
            )
            &&& data_step(id, address, size, replies) == Step::<Seq<u8>, Error>::Failed(
                Error::BadObject,
                1,
            )
            &&& variable_sized_step(id, address, replies) == Step::<Seq<u8>, Error>::Failed(
                Error::BadObject,
                1,
            )
            &&& array_step(id, address, width, replies) == Step::<Seq<u8>, Error>::Failed(
                Error::BadObject,
                1,
            )
        },
        replies[0] is Status ==> set_step(id, address, value, replies) == Step::<
            (),
            Error,
        >::Failed(Error::BadObject, 1),
{
}


/// What has settled stays settled. An operation that has come to an end
/// after the replies it was given comes to the same end whatever replies
/// follow them, and it accounts for no more replies than it was given. So a
/// driver that appends one reply for each request is handed each outcome
/// once, after exactly the requests that led to it.
pub proof fn lemma_settled_for_good(
    id: u32,
    address: PropertyAddress,
    expected: usize,
    request: Request,
    size: usize,
    width: usize,
    value: u32,
    replies: Seq<Reply>,
    more: Seq<Reply>,
)
    ensures
        in_order(
            has_property_step(id, address, replies),
            replies.len(),
            has_property_step(id, address, replies + more),
        ),
        in_order(
            data_size_step(id, address, replies),
            replies.len(),
            data_size_step(id, address, replies + more),
        ),
        in_order(
            read_step(request, size, replies),
            replies.len(),
            read_step(request, size, replies + more),
        ),
        in_order(
            sized_read_step(id, address, expected, request, size, replies),
            replies.len(),
            sized_read_step(id, address, expected, request, size, replies + more),
        ),
        in_order(
            variable_sized_step(id, address, replies),
            replies.len(),
            variable_sized_step(id, address, replies + more),
        ),
        in_order(
            array_step(id, address, width, replies),
            replies.len(),
            array_step(id, address, width, replies + more),
        ),
        in_order(
            set_step(id, address, value, replies),
            replies.len(),
            set_step(id, address, value, replies + more),
        ),
{
    if replies.len() > 0 {
        assert((replies + more)[0] == replies[0]);
        lemma_rest_of_longer(replies, more, 1);
        if replies.len() > 1 {
            assert((replies.skip(1) + more)[0] == replies.skip(1)[0]);
        }
    }
}

} // verus!
