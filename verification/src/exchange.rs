//! The vocabulary of the conversation with the native audio layer: what can be
//! asked of it, what it can answer, and where an operation stands after the
//! answers given so far.
use vstd::prelude::*;

use crate::stream::audio_unit::ComponentDescription;
use crate::stream::audio_unit::UnitValue;
use crate::utils::audio_objects::property_address::PropertyAddress;

verus! {

/// One call into the native layer, with every argument that the call takes.
#[derive(Clone, Copy, PartialEq, Eq, Debug, Structural)]
pub enum Request {
    /// Probe whether the object has a property at the address.
    HasProperty { id: u32, address: PropertyAddress },
    /// Query the byte size of the property's data.
    PropertyDataSize { id: u32, address: PropertyAddress },
    /// Read the property's data into a buffer of `size` bytes.
    PropertyData { id: u32, address: PropertyAddress, size: usize },
    /// Read a property that translates the four-byte `input` into `size` bytes.
    TranslatedData { id: u32, address: PropertyAddress, input: u32, size: usize },
    /// Write the four-byte `value` as the property's data.
    SetPropertyData { id: u32, address: PropertyAddress, value: u32 },
    /// Query the length of a native string, in UTF-16 code units.
    StringLength { string: u64 },
    /// Encode the first `length` code units of a native string as UTF-8 into a
    /// buffer of `capacity` bytes.
    StringBytes { string: u64, length: usize, capacity: usize },
    /// Give up the one reference held on a native string.
    StringRelease { string: u64 },
    /// Find the first audio component after `after` that matches the description.
    FindComponent { after: u64, description: ComponentDescription },
    /// Create an instance of the component.
    NewInstance { component: u64 },
    /// Query size and writability of a property of an audio unit.
    UnitPropertyInfo { unit: u64, id: u32, scope: u32, element: u32 },
    /// Read a property of an audio unit into a buffer of `size` bytes.
    UnitProperty { unit: u64, id: u32, scope: u32, element: u32, size: usize },
    /// Write a property of an audio unit.
    SetUnitProperty { unit: u64, id: u32, scope: u32, element: u32, data: UnitValue },
    /// Allocate the unit's rendering resources.
    Initialize { unit: u64 },
    /// Free the unit's rendering resources.
    Uninitialize { unit: u64 },
    /// Start rendering.
    Start { unit: u64 },
    /// Stop rendering.
    Stop { unit: u64 },
}

/// What the native layer handed back for one request.
#[derive(Clone, PartialEq, Eq, Debug)]
pub enum Reply {
    /// The answer to `HasProperty`.
    Flag(bool),
    /// The answer to `PropertyDataSize`.
    Size { status: i32, size: u32 },
    /// The answer to `PropertyData`, `TranslatedData` and `UnitProperty`: the
    /// status, and the buffer as the call left it.
    Data { status: i32, bytes: Vec<u8> },
    /// The answer to every request that returns a bare status.
    Status(i32),
    /// The answer to `StringLength`.
    Length(isize),
    /// The answer to `StringBytes`: the number of code units converted, the
    /// number of buffer bytes used, and the buffer.
    Bytes { converted: isize, used: isize, bytes: Vec<u8> },
    /// The answer to `StringRelease`.
    Released,
    /// The answer to `FindComponent`: the component's handle, zero for none.
    Component(u64),
    /// The answer to `NewInstance`.
    Instance { status: i32, instance: u64 },
    /// The answer to `UnitPropertyInfo`.
    Info { status: i32, size: u32, writable: bool },
}

/// A breach of what the operations take for granted. The driver must not go
/// on after one: it signals a defect, not a condition to recover from.
#[derive(Clone, Copy, PartialEq, Eq, Debug, Structural)]
pub enum Fault {
    /// The reply is not of the kind that the request before it calls for, or
    /// its buffer is not of the size that was asked for.
    UnexpectedReply,
    /// The native status is outside the closed set that the errors cover.
    UnknownStatus(i32),
    /// The native layer reports another size than the value to be read has.
    SizeMismatch { expected: usize, reported: usize },
    /// A property that holds a native string holds none.
    NullString,
    /// An array whose first element is needed has no element.
    NoElement,
    /// The data of a property is not laid out as its type is.
    Malformed,
}

/// Where an operation stands after the replies it was given.
#[derive(Clone, PartialEq, Eq, Debug)]
pub enum Step<T, E> {
    /// The replies are used up: carry out this request and append its reply.
    Ask(Request),
    /// Settled with a value, having consumed this many replies.
    Done(T, usize),
    /// Settled with an error, having consumed this many replies.
    Failed(E, usize),
    /// A reply broke the rules of the exchange.
    Fault(Fault),
}

impl<T: View, E> View for Step<T, E> {
    type V = Step<T::V, E>;

    open spec fn view(&self) -> Step<T::V, E> {
        match *self {
            Step::Ask(request) => Step::Ask(request),
            Step::Done(value, used) => Step::Done(value@, used),
            Step::Failed(error, used) => Step::Failed(error, used),
            Step::Fault(fault) => Step::Fault(fault),
        }
    }
}

impl<T, E> Step<T, E> {
    /// Whether the operation has come to an end, one way or another.
    pub open spec fn settled(self) -> bool {
        !(self is Ask)
    }

    /// The step of an operation that started `offset` replies into a longer
    /// sequence, counted from the start of that sequence.
    pub open spec fn after(self, offset: usize) -> Step<T, E> {
        match self {
            Step::Done(value, used) => Step::Done(value, (offset + used) as usize),
            Step::Failed(error, used) => Step::Failed(error, (offset + used) as usize),
            other => other,
        }
    }

    /// The same step with its value left out.
    pub open spec fn unit(self) -> Step<(), E> {
        match self {
            Step::Ask(request) => Step::Ask(request),
            Step::Done(_, used) => Step::Done((), used),
            Step::Failed(error, used) => Step::Failed(error, used),
            Step::Fault(fault) => Step::Fault(fault),
        }
    }

    /// Whether the step accounts for no more replies than there are.
    pub open spec fn within(self, limit: nat) -> bool {
        match self {
            Step::Done(_, used) => used <= limit,
            Step::Failed(_, used) => used <= limit,
            _ => true,
        }
    }

    /// Counts the replies that were consumed before the operation started.
    pub fn shift(self, offset: usize) -> (step: Step<T, E>)
        requires
            self.within((usize::MAX - offset) as nat),
        ensures
            step == self.after(offset),
    {
        match self {
            Step::Done(value, used) => Step::Done(value, offset + used),
            Step::Failed(error, used) => Step::Failed(error, offset + used),
            other => other,
        }
    }

    /// Whether the operation has come to an end.
    pub fn is_settled(&self) -> (settled: bool)
        ensures
            settled == self.settled(),
    {
        match self {
            Step::Ask(_) => false,
            _ => true,
        }
    }
}

/// Whether two steps of one operation, before and after more replies came
/// in, are in order: the first accounts for no more replies than there were,
/// and if it has come to an end, the second is the same.
pub open spec fn in_order<T, E>(first: Step<T, E>, given: nat, second: Step<T, E>) -> bool {
    &&& first.within(given)
    &&& first.settled() ==> second == first
}

/// What is left of a longer sequence after the first replies of the shorter
/// one is what is left of the shorter one, and then the rest.
pub proof fn lemma_rest_of_longer(replies: Seq<Reply>, more: Seq<Reply>, used: int)
    requires
        0 <= used <= replies.len(),
    ensures
        (replies + more).skip(used) =~= replies.skip(used) + more,
{
}

} // verus!
