//! Audio objects: the system object, which knows the devices, the devices
//! themselves and their streams. Every query is a sequence of property reads,
//! given as steps of an exchange with the native layer.
use vstd::prelude::*;
use vstd::slice::slice_subrange;

pub mod audio_object_utils;
pub mod property_address;

use self::audio_object_utils::array_step;
use self::audio_object_utils::data_size_step;
use self::audio_object_utils::data_step;
use self::audio_object_utils::handle;
use self::audio_object_utils::set_step;
use self::audio_object_utils::translated_step;
use self::audio_object_utils::word;
use self::audio_object_utils::words;
use self::property_address::get_global_property_address;
use self::property_address::get_scope_property_address;
use self::property_address::global_address;
use self::property_address::scope_address;
use self::property_address::Property;
use self::property_address::PropertyAddress;
use crate::exchange::in_order;
use crate::exchange::lemma_rest_of_longer;
use crate::exchange::Fault;
use crate::exchange::Reply;
use crate::exchange::Request;
use crate::exchange::Step;
use crate::utils::string_helper;
use crate::utils::string_helper::string_step;

verus! {

/// The side of a device: the one it records from or the one it plays to.
#[derive(Clone, Copy, PartialEq, Eq, Debug, Structural)]
pub enum Scope {
    Input,
    Output,
}

/// Why a query about an audio object failed.
#[derive(Clone, Copy, PartialEq, Eq, Debug, Structural)]
pub enum Error {
    /// A native string could not be turned into a string.
    ConversionFailed(string_helper::Error),
    /// The native layer refused the object or the property.
    InvalidParameters(audio_object_utils::Error),
    /// There is no default device at this time.
    NoDeviceFound,
    /// The device is the default device already.
    SetSameDevice,
    /// The device has no stream on the side asked for.
    WrongScope,
}

impl From<audio_object_utils::Error> for Error {
    fn from(e: audio_object_utils::Error) -> (error: Error) {
        Error::InvalidParameters(e)
    }
}

impl vstd::std_specs::convert::FromSpecImpl<audio_object_utils::Error> for Error {
    open spec fn obeys_from_spec() -> bool {
        true
    }

    open spec fn from_spec(e: audio_object_utils::Error) -> Error {
        Error::InvalidParameters(e)
    }
}

impl From<string_helper::Error> for Error {
    fn from(e: string_helper::Error) -> (error: Error) {
        Error::ConversionFailed(e)
    }
}

impl vstd::std_specs::convert::FromSpecImpl<string_helper::Error> for Error {
    open spec fn obeys_from_spec() -> bool {
        true
    }

    open spec fn from_spec(e: string_helper::Error) -> Error {
        Error::ConversionFailed(e)
    }
}


/// The id of the one object that knows the devices.
pub const SYSTEM_OBJECT: u32 = 1;

/// The id that stands for no object.
pub const UNKNOWN_OBJECT: u32 = audio_object_utils::UNKNOWN_OBJECT;

/// The size of an object id in property data.
pub const OBJECT_ID_SIZE: usize = 4;

/// The size of a reference to a native string in property data.
pub const STRING_REF_SIZE: usize = 8;

/// Whatever can say which audio object it stands for.
pub trait GetObjectId {
    /// The id of the object.
    spec fn id(&self) -> u32;

    /// The id of the object.
    fn get_id(&self) -> (id: u32)
        ensures
            id == self.id(),
    ;
}

/// The object that knows the devices and which of them are the defaults.
#[derive(Clone, Copy, PartialEq, Eq, Debug)]
pub struct AudioSystemObject(u32);

/// A device, or whatever else the id names. Two are equal if their ids are.
#[derive(Clone, Copy, PartialEq, Eq, Debug, Structural)]
pub struct AudioObject(pub u32);

/// A stream of a device.
#[derive(Clone, Copy, PartialEq, Eq, Debug, Structural)]
pub struct AudioStream(pub u32);

impl GetObjectId for AudioSystemObject {
    closed spec fn id(&self) -> u32 {
        self.0
    }

    fn get_id(&self) -> (id: u32) {
        self.0
    }
}

impl GetObjectId for AudioObject {
    open spec fn id(&self) -> u32 {
        self.0
    }

    fn get_id(&self) -> (id: u32) {
        self.0
    }
}

impl GetObjectId for AudioStream {
    open spec fn id(&self) -> u32 {
        self.0
    }

    fn get_id(&self) -> (id: u32) {
        self.0
    }
}

impl Default for AudioObject {
    fn default() -> (object: AudioObject)
        ensures
            object == AudioObject(UNKNOWN_OBJECT),
    {
        AudioObject::new(UNKNOWN_OBJECT)
    }
}

/// The step with an error of property access taken up as `InvalidParameters`.
pub open spec fn lifted<T>(step: Step<T, audio_object_utils::Error>) -> Step<T, Error> {
    match step {
        Step::Ask(request) => Step::Ask(request),
        Step::Done(value, used) => Step::Done(value, used),
        Step::Failed(error, used) => Step::Failed(Error::InvalidParameters(error), used),
        Step::Fault(fault) => Step::Fault(fault),
    }
}

/// The step with an error of string conversion taken up as `ConversionFailed`.
pub open spec fn converted<T>(step: Step<T, string_helper::Error>) -> Step<T, Error> {
    match step {
        Step::Ask(request) => Step::Ask(request),
        Step::Done(value, used) => Step::Done(value, used),
        Step::Failed(error, used) => Step::Failed(Error::ConversionFailed(error), used),
        Step::Fault(fault) => Step::Fault(fault),
    }
}

/// The property that holds the default device of a side.
pub open spec fn default_device_property(scope: Scope) -> Property {
    match scope {
        Scope::Input => Property::DefaultInputDevice,
        Scope::Output => Property::DefaultOutputDevice,
    }
}

/// The steps of reading a 32-bit number from a property.
pub open spec fn word_step(id: u32, address: PropertyAddress, replies: Seq<Reply>) -> Step<
    u32,
    Error,
> {
    match data_step(id, address, OBJECT_ID_SIZE, replies) {
        Step::Ask(request) => Step::Ask(request),
        Step::Done(bytes, used) => Step::Done(word(bytes), used),
        Step::Failed(error, used) => Step::Failed(Error::InvalidParameters(error), used),
        Step::Fault(fault) => Step::Fault(fault),
    }
}

/// The steps that follow the read of a reference to a native string: a null
/// reference is a fault, and any other is converted and released.
pub open spec fn named(read: Step<Seq<u8>, audio_object_utils::Error>, replies: Seq<Reply>) -> Step<
    Seq<char>,
    Error,
> {
    match read {
        Step::Ask(request) => Step::Ask(request),
        Step::Done(bytes, used) => if handle(bytes) == 0 {
            Step::Fault(Fault::NullString)
        } else {
            converted(string_step(handle(bytes), replies.skip(used as int))).after(used)
        },
        Step::Failed(error, used) => Step::Failed(Error::InvalidParameters(error), used),
        Step::Fault(fault) => Step::Fault(fault),
    }
}

/// The steps of reading a property that holds a native string.
pub open spec fn string_property_step(id: u32, address: PropertyAddress, replies: Seq<Reply>)
    -> Step<Seq<char>, Error> {
    named(data_step(id, address, STRING_REF_SIZE, replies), replies)
}

/// The steps of counting the streams of one side of a device: the size of
/// the list of its streams, in stream ids.
pub open spec fn streams_step(id: u32, scope: Scope, replies: Seq<Reply>) -> Step<usize, Error> {
    match data_size_step(id, scope_address(scope, Property::DeviceStreams), replies) {
        Step::Ask(request) => Step::Ask(request),
        Step::Done(size, used) => Step::Done(size / OBJECT_ID_SIZE, used),
        Step::Failed(error, used) => Step::Failed(Error::InvalidParameters(error), used),
        Step::Fault(fault) => Step::Fault(fault),
    }
}

/// The steps of telling whether a device has a side: it has if it has at
/// least one stream there.
pub open spec fn in_scope_step(id: u32, scope: Scope, replies: Seq<Reply>) -> Step<bool, Error> {
    match streams_step(id, scope, replies) {
        Step::Ask(request) => Step::Ask(request),
        Step::Done(streams, used) => Step::Done(streams > 0, used),
        Step::Failed(error, used) => Step::Failed(error, used),
        Step::Fault(fault) => Step::Fault(fault),
    }
}

/// The steps of reading the data source of one side of a device, which the
/// device must have.
pub open spec fn source_step(id: u32, scope: Scope, replies: Seq<Reply>) -> Step<u32, Error> {
    match in_scope_step(id, scope, replies) {
        Step::Ask(request) => Step::Ask(request),
        Step::Done(inside, used) => if inside {
            word_step(
                id,
                scope_address(scope, Property::DeviceSource),
                replies.skip(used as int),
            ).after(used)
        } else {
            Step::Failed(Error::WrongScope, used)
        },
        Step::Failed(error, used) => Step::Failed(error, used),
        Step::Fault(fault) => Step::Fault(fault),
    }
}

/// The steps of reading the name of the data source of one side of a device:
/// the source is read and then translated into its name.
pub open spec fn source_name_step(id: u32, scope: Scope, replies: Seq<Reply>) -> Step<
    Seq<char>,
    Error,
> {
    match source_step(id, scope, replies) {
        Step::Ask(request) => Step::Ask(request),
        Step::Done(source, used) => named(
            translated_step(
                id,
                scope_address(scope, Property::DeviceSourceName),
                source,
                STRING_REF_SIZE,
                replies.skip(used as int),
            ).after(used),
            replies,
        ),
        Step::Failed(error, used) => Step::Failed(error, used),
        Step::Fault(fault) => Step::Fault(fault),
    }
}

/// The steps of reading the name of a device.
pub open spec fn name_step(id: u32, replies: Seq<Reply>) -> Step<Seq<char>, Error> {
    string_property_step(id, global_address(Property::DeviceName), replies)
}

/// The steps of finding a label for one side of a device: the name of its
/// data source where that can be had, and the name of the device where it
/// cannot. A device without that side has no label.
pub open spec fn label_step(id: u32, scope: Scope, replies: Seq<Reply>) -> Step<Seq<char>, Error> {
    match source_name_step(id, scope, replies) {
        Step::Failed(error, used) => if error == Error::WrongScope {
            Step::Failed(Error::WrongScope, used)
        } else {
            name_step(id, replies.skip(used as int)).after(used)
        },
        other => other,
    }
}

/// The steps of reading the latency of the first stream of one side of a
/// device.
pub open spec fn stream_latency_step(id: u32, scope: Scope, replies: Seq<Reply>) -> Step<
    u32,
    Error,
> {
    match array_step(id, scope_address(scope, Property::DeviceStreams), OBJECT_ID_SIZE, replies) {
        Step::Ask(request) => Step::Ask(request),
        Step::Done(bytes, used) => if bytes.len() < 4 {
            Step::Fault(Fault::NoElement)
        } else {
            word_step(
                word(bytes.subrange(0, 4)),
                scope_address(scope, Property::StreamLatency),
                replies.skip(used as int),
            ).after(used)
        },
        Step::Failed(error, used) => Step::Failed(Error::InvalidParameters(error), used),
        Step::Fault(fault) => Step::Fault(fault),
    }
}

/// The steps of reading the default device of a side. The id that stands for
/// no object means that there is none.
pub open spec fn default_device_step(scope: Scope, replies: Seq<Reply>) -> Step<
    AudioObject,
    Error,
> {
    match word_step(SYSTEM_OBJECT, global_address(default_device_property(scope)), replies) {
        Step::Ask(request) => Step::Ask(request),
        Step::Done(id, used) => if id == UNKNOWN_OBJECT {
            Step::Failed(Error::NoDeviceFound, used)
        } else {
            Step::Done(AudioObject(id), used)
        },
        Step::Failed(error, used) => Step::Failed(error, used),
        Step::Fault(fault) => Step::Fault(fault),
    }
}

/// The devices that a list of ids names.
pub open spec fn objects(ids: Seq<u32>) -> Seq<AudioObject> {
    Seq::new(ids.len(), |i: int| AudioObject(ids[i]))
}

/// The steps of listing all devices.
pub open spec fn all_devices_step(replies: Seq<Reply>) -> Step<Seq<AudioObject>, Error> {
    match array_step(SYSTEM_OBJECT, global_address(Property::Devices), OBJECT_ID_SIZE, replies) {
        Step::Ask(request) => Step::Ask(request),
        Step::Done(bytes, used) => Step::Done(objects(words(bytes)), used),
        Step::Failed(error, used) => Step::Failed(Error::InvalidParameters(error), used),
        Step::Fault(fault) => Step::Fault(fault),
    }
}

/// The steps of probing the first `count` of the devices for a side, one
/// after the other: those that have it are kept, in their order, and the
/// first probe that fails ends the whole.
pub open spec fn probed_step(
    devices: Seq<AudioObject>,
    scope: Scope,
    replies: Seq<Reply>,
    count: nat,
) -> Step<Seq<AudioObject>, Error>
    decreases count,
{
    if count == 0 {
        Step::Done(Seq::empty(), 0)
    } else {
        match probed_step(devices, scope, replies, (count - 1) as nat) {
            Step::Done(kept, used) => match in_scope_step(
                devices[count - 1].0,
                scope,
                replies.skip(used as int),
            ).after(used) {
                Step::Ask(request) => Step::Ask(request),
                Step::Done(inside, next) => Step::Done(
                    if inside {
                        kept.push(devices[count - 1])
                    } else {
                        kept
                    },
                    next,
                ),
                Step::Failed(error, next) => Step::Failed(error, next),
                Step::Fault(fault) => Step::Fault(fault),
            },
            other => other,
        }
    }
}

/// The steps of listing the devices that have a side: all devices are
/// listed, and each is probed for the side.
pub open spec fn devices_step(scope: Scope, replies: Seq<Reply>) -> Step<Seq<AudioObject>, Error> {
    match all_devices_step(replies) {
        Step::Done(devices, used) => probed_step(
            devices,
            scope,
            replies.skip(used as int),
            devices.len(),
        ).after(used),
        other => other,
    }
}

/// The steps of making a device the default of a side. The native layer
/// takes any id, so the checks are made here, before anything is written:
/// the device must have the side, and must not be the default already.
pub open spec fn set_default_device_step(device: AudioObject, scope: Scope, replies: Seq<Reply>)
    -> Step<(), Error> {
    match in_scope_step(device.0, scope, replies) {
        Step::Ask(request) => Step::Ask(request),
        Step::Done(inside, used) => if !inside {
            Step::Failed(Error::WrongScope, used)
        } else {
            match default_device_step(scope, replies.skip(used as int)).after(used) {
                Step::Ask(request) => Step::Ask(request),
                Step::Done(current, next) => if current == device {
                    Step::Failed(Error::SetSameDevice, next)
                } else {
                    lifted(
                        set_step(
                            SYSTEM_OBJECT,
                            global_address(default_device_property(scope)),
                            device.0,
                            replies.skip(next as int),
                        ),
                    ).after(next)
                },
                Step::Failed(error, next) => Step::Failed(error, next),
                Step::Fault(fault) => Step::Fault(fault),
            }
        },
        Step::Failed(error, used) => Step::Failed(error, used),
        Step::Fault(fault) => Step::Fault(fault),
    }
}

/// Takes an error of property access up as `InvalidParameters`.
pub fn lift<T>(step: Step<T, audio_object_utils::Error>) -> (out: Step<T, Error>)
    ensures
        out == lifted(step),
{
    match step {
        Step::Ask(request) => Step::Ask(request),
        Step::Done(value, used) => Step::Done(value, used),
        Step::Failed(error, used) => Step::Failed(Error::InvalidParameters(error), used),
        Step::Fault(fault) => Step::Fault(fault),
    }
}

/// Takes an error of string conversion up as `ConversionFailed`.
pub fn convert<T>(step: Step<T, string_helper::Error>) -> (out: Step<T, Error>)
    ensures
        out == converted(step),
{
    match step {
        Step::Ask(request) => Step::Ask(request),
        Step::Done(value, used) => Step::Done(value, used),
        Step::Failed(error, used) => Step::Failed(Error::ConversionFailed(error), used),
        Step::Fault(fault) => Step::Fault(fault),
    }
}

/// Reads a 32-bit number from a property of an object.
fn get_word(id: u32, address: &PropertyAddress, replies: &[Reply]) -> (step: Step<u32, Error>)
    ensures
        step == word_step(id, *address, replies@),
        step.within(replies@.len()),
{
    match audio_object_utils::get_property_data(id, address, OBJECT_ID_SIZE, replies) {
        Step::Ask(request) => Step::Ask(request),
        Step::Done(bytes, used) => Step::Done(
            audio_object_utils::read_word(bytes.as_slice(), 0),
            used,
        ),
        Step::Failed(error, used) => Step::Failed(Error::InvalidParameters(error), used),
        Step::Fault(fault) => Step::Fault(fault),
    }
}

/// Converts the native string whose reference was read, and releases it.
fn name_of(read: Step<Vec<u8>, audio_object_utils::Error>, replies: &[Reply]) -> (step: Step<
    String,
    Error,
>)
    requires
        read.within(replies@.len()),
        read matches Step::Done(bytes, _) ==> bytes@.len() == STRING_REF_SIZE,
    ensures
        step@ == named(read@, replies@),
        step.within(replies@.len()),
{
    match read {
        Step::Ask(request) => Step::Ask(request),
        Step::Done(bytes, used) => {
            let string: u64 = audio_object_utils::read_handle(bytes.as_slice());
            if string == 0 {
                return Step::Fault(Fault::NullString);
            }
            let rest = slice_subrange(replies, used, replies.len());
            convert(string_helper::to_string(string, rest)).shift(used)
        },
        Step::Failed(error, used) => Step::Failed(Error::InvalidParameters(error), used),
        Step::Fault(fault) => Step::Fault(fault),
    }
}

/// Reads a property that holds a native string.
fn get_string(id: u32, address: &PropertyAddress, replies: &[Reply]) -> (step: Step<String, Error>)
    ensures
        step@ == string_property_step(id, *address, replies@),
        step.within(replies@.len()),
{
    let read = audio_object_utils::get_property_data(id, address, STRING_REF_SIZE, replies);
    name_of(read, replies)
}

/// The property of the default device of a side.
fn default_property(scope: &Scope) -> (p: Property)
    ensures
        p == default_device_property(*scope),
{
    match scope {
        Scope::Input => Property::DefaultInputDevice,
        Scope::Output => Property::DefaultOutputDevice,
    }
}

/// The devices that the ids name.
fn to_objects(ids: &Vec<u32>) -> (devices: Vec<AudioObject>)
    ensures
        devices@ == objects(ids@),
{
    let mut devices: Vec<AudioObject> = Vec::new();
    let mut i: usize = 0;
    while i < ids.len()
        invariant
            i <= ids@.len(),
            devices@.len() == i,
            forall|k: int| 0 <= k < i ==> devices@[k] == AudioObject(ids@[k]),
        decreases ids@.len() - i,
    {
        devices.push(AudioObject::new(ids[i]));
        i = i + 1;
    }
    assert(devices@ =~= objects(ids@));
    devices
}

/// Once probing has ended without a list, probing more devices changes
/// nothing.
proof fn lemma_probing_ends(
    devices: Seq<AudioObject>,
    scope: Scope,
    replies: Seq<Reply>,
    count: nat,
    more: nat,
)
    requires
        count <= more,
        !(probed_step(devices, scope, replies, count) is Done),
    ensures
        probed_step(devices, scope, replies, more) == probed_step(devices, scope, replies, count),
    decreases more,
{
    if count < more {
        lemma_probing_ends(devices, scope, replies, count, (more - 1) as nat);
    }
}

/// Probes each device for the side and keeps those that have it.
fn probe(devices: &Vec<AudioObject>, scope: &Scope, replies: &[Reply]) -> (step: Step<
    Vec<AudioObject>,
    Error,
>)
    ensures
        step@ == probed_step(devices@, *scope, replies@, devices@.len()),
        step.within(replies@.len()),
{
    let mut kept: Vec<AudioObject> = Vec::new();
    let mut used: usize = 0;
    let mut i: usize = 0;
    while i < devices.len()
        invariant
            i <= devices@.len(),
            used <= replies@.len(),
            probed_step(devices@, *scope, replies@, i as nat) == Step::<
                Seq<AudioObject>,
                Error,
            >::Done(kept@, used),
        decreases devices@.len() - i,
    {
        let rest = slice_subrange(replies, used, replies.len());
        let device = devices[i];
        match device.in_scope(scope, rest).shift(used) {
            Step::Ask(request) => {
                proof {
                    lemma_probing_ends(devices@, *scope, replies@, (i + 1) as nat, devices@.len());
                }
                return Step::Ask(request);
            },
            Step::Done(inside, next) => {
                if inside {
                    kept.push(device);
                }
                used = next;
            },
            Step::Failed(error, next) => {
                proof {
                    lemma_probing_ends(devices@, *scope, replies@, (i + 1) as nat, devices@.len());
                }
                return Step::Failed(error, next);
            },
            Step::Fault(fault) => {
                proof {
                    lemma_probing_ends(devices@, *scope, replies@, (i + 1) as nat, devices@.len());
                }
                return Step::Fault(fault);
            },
        }
        i = i + 1;
    }
    Step::Done(kept, used)
}

impl AudioSystemObject {
    /// The only id that a system object has.
    #[verifier::type_invariant]
    spec fn well_formed(self) -> bool {
        self.0 == SYSTEM_OBJECT
    }

    /// The system object.
    pub fn new() -> (system: AudioSystemObject)
        ensures
            system.id() == SYSTEM_OBJECT,
    {
        AudioSystemObject(SYSTEM_OBJECT)
    }

    /// Reads the default device of a side.
    pub fn get_default_device(&self, scope: &Scope, replies: &[Reply]) -> (step: Step<
        AudioObject,
        Error,
    >)
        ensures
            step == default_device_step(*scope, replies@),
            step.within(replies@.len()),
            step matches Step::Done(device, _) ==> device.is_valid(),
    {
        proof {
            use_type_invariant(self);
        }
        let address = get_global_property_address(default_property(scope));
        match get_word(self.0, &address, replies) {
            Step::Ask(request) => Step::Ask(request),
            Step::Done(id, used) => {
                let device = AudioObject::new(id);
                if device.is_valid() {
                    Step::Done(device, used)
                } else {
                    Step::Failed(Error::NoDeviceFound, used)
                }
            },
            Step::Failed(error, used) => Step::Failed(error, used),
            Step::Fault(fault) => Step::Fault(fault),
        }
    }

    /// Lists the devices that have a side. The native layer lists devices
    /// only as a whole, so all are listed and each is probed.
    pub fn get_devices(&self, scope: &Scope, replies: &[Reply]) -> (step: Step<
        Vec<AudioObject>,
        Error,
    >)
        ensures
            step@ == devices_step(*scope, replies@),
            step.within(replies@.len()),
    {
        match self.get_all_devices(replies) {
            Step::Done(devices, used) => {
                let rest = slice_subrange(replies, used, replies.len());
                probe(&devices, scope, rest).shift(used)
            },
            other => other,
        }
    }

    /// Lists all devices.
    pub fn get_all_devices(&self, replies: &[Reply]) -> (step: Step<Vec<AudioObject>, Error>)
        ensures
            step@ == all_devices_step(replies@),
            step.within(replies@.len()),
    {
        proof {
            use_type_invariant(self);
        }
        let address = get_global_property_address(Property::Devices);
        match audio_object_utils::get_property_array(self.0, &address, OBJECT_ID_SIZE, replies) {
            Step::Ask(request) => Step::Ask(request),
            Step::Done(bytes, used) => {
                let ids = audio_object_utils::read_words(bytes.as_slice());
                Step::Done(to_objects(&ids), used)
            },
            Step::Failed(error, used) => Step::Failed(Error::InvalidParameters(error), used),
            Step::Fault(fault) => Step::Fault(fault),
        }
    }

    /// Makes the device the default of a side, unless it lacks the side or is
    /// the default already.
    pub fn set_default_device(&self, device: &AudioObject, scope: &Scope, replies: &[Reply]) -> (step:
        Step<(), Error>)
        ensures
            step == set_default_device_step(*device, *scope, replies@),
            step.within(replies@.len()),
    {
        proof {
            use_type_invariant(self);
        }
        let used: usize = match device.in_scope(scope, replies) {
            Step::Ask(request) => {
                return Step::Ask(request);
            },
            Step::Done(inside, used) => {
                if !inside {
                    return Step::Failed(Error::WrongScope, used);
                }
                used
            },
            Step::Failed(error, used) => {
                return Step::Failed(error, used);
            },
            Step::Fault(fault) => {
                return Step::Fault(fault);
            },
        };
        let rest = slice_subrange(replies, used, replies.len());
        let next: usize = match self.get_default_device(scope, rest).shift(used) {
            Step::Ask(request) => {
                return Step::Ask(request);
            },
            Step::Done(current, next) => {
                if current.0 == device.0 {
                    return Step::Failed(Error::SetSameDevice, next);
                }
                next
            },
            Step::Failed(error, next) => {
                return Step::Failed(error, next);
            },
            Step::Fault(fault) => {
                return Step::Fault(fault);
            },
        };
        let rest = slice_subrange(replies, next, replies.len());
        let address = get_global_property_address(default_property(scope));
        lift(audio_object_utils::set_property_data(self.0, &address, device.0, rest)).shift(next)
    }
}

impl AudioObject {
    /// The object that the id names.
    pub fn new(id: u32) -> (object: AudioObject)
        ensures
            object == AudioObject(id),
    {
        AudioObject(id)
    }

    /// Whether the id is another than the one that stands for no object.
    #[verifier::when_used_as_spec(spec_is_valid)]
    pub fn is_valid(&self) -> (valid: bool)
        ensures
            valid == (self.0 != UNKNOWN_OBJECT),
    {
        self.0 != UNKNOWN_OBJECT
    }

    /// Whether the id is another than the one that stands for no object.
    pub open spec fn spec_is_valid(&self) -> bool {
        self.0 != UNKNOWN_OBJECT
    }

    /// Reads the unique id of the device.
    pub fn get_uid(&self, replies: &[Reply]) -> (step: Step<String, Error>)
        ensures
            step@ == string_property_step(self.0, global_address(Property::DeviceUID), replies@),
            step.within(replies@.len()),
    {
        let address = get_global_property_address(Property::DeviceUID);
        get_string(self.0, &address, replies)
    }

    /// Reads the name of the maker of the device.
    pub fn get_manufacturer(&self, replies: &[Reply]) -> (step: Step<String, Error>)
        ensures
            step@ == string_property_step(
                self.0,
                global_address(Property::DeviceManufacturer),
                replies@,
            ),
            step.within(replies@.len()),
    {
        let address = get_global_property_address(Property::DeviceManufacturer);
        get_string(self.0, &address, replies)
    }

    /// Reads the latency of one side of the device, in frames.
    pub fn get_device_latency(&self, scope: &Scope, replies: &[Reply]) -> (step: Step<u32, Error>)
        ensures
            step == word_step(self.0, scope_address(*scope, Property::DeviceLatency), replies@),
            step.within(replies@.len()),
    {
        let address = get_scope_property_address(scope, Property::DeviceLatency);
        get_word(self.0, &address, replies)
    }

    /// Reads the latency of the first stream of one side of the device.
    pub fn get_stream_latency(&self, scope: &Scope, replies: &[Reply]) -> (step: Step<u32, Error>)
        ensures
            step == stream_latency_step(self.0, *scope, replies@),
            step.within(replies@.len()),
    {
        let address = get_scope_property_address(scope, Property::DeviceStreams);
        match audio_object_utils::get_property_array(self.0, &address, OBJECT_ID_SIZE, replies) {
            Step::Ask(request) => Step::Ask(request),
            Step::Done(bytes, used) => {
                if bytes.len() < 4 {
                    return Step::Fault(Fault::NoElement);
                }
                let stream = AudioStream(audio_object_utils::read_word(bytes.as_slice(), 0));
                let rest = slice_subrange(replies, used, replies.len());
                stream.get_latency(scope, rest).shift(used)
            },
            Step::Failed(error, used) => Step::Failed(Error::InvalidParameters(error), used),
            Step::Fault(fault) => Step::Fault(fault),
        }
    }

    /// Finds a label for one side of the device: the name of its data source,
    /// or the name of the device where the source has none to give. A device
    /// without that side gets no label but `WrongScope`.
    pub fn get_label(&self, scope: &Scope, replies: &[Reply]) -> (step: Step<String, Error>)
        ensures
            step@ == label_step(self.0, *scope, replies@),
            step.within(replies@.len()),
    {
        match self.get_source_name(scope, replies) {
            Step::Failed(error, used) => {
                match error {
                    Error::WrongScope => Step::Failed(Error::WrongScope, used),
                    _ => {
                        let rest = slice_subrange(replies, used, replies.len());
                        self.get_name(rest).shift(used)
                    },
                }
            },
            other => other,
        }
    }

    /// Reads the name of the device.
    pub fn get_name(&self, replies: &[Reply]) -> (step: Step<String, Error>)
        ensures
            step@ == name_step(self.0, replies@),
            step.within(replies@.len()),
    {
        let address = get_global_property_address(Property::DeviceName);
        get_string(self.0, &address, replies)
    }

    /// Reads the name of the data source of one side of the device.
    pub fn get_source_name(&self, scope: &Scope, replies: &[Reply]) -> (step: Step<String, Error>)
        ensures
            step@ == source_name_step(self.0, *scope, replies@),
            step.within(replies@.len()),
    {
        match self.get_source(scope, replies) {
            Step::Ask(request) => Step::Ask(request),
            Step::Done(source, used) => {
                let address = get_scope_property_address(scope, Property::DeviceSourceName);
                let rest = slice_subrange(replies, used, replies.len());
                let read = audio_object_utils::get_translated_data(
                    self.0,
                    &address,
                    source,
                    STRING_REF_SIZE,
                    rest,
                ).shift(used);
                name_of(read, replies)
            },
            Step::Failed(error, used) => Step::Failed(error, used),
            Step::Fault(fault) => Step::Fault(fault),
        }
    }

    /// Tells whether the device has the side: whether it has a stream there.
    pub fn in_scope(&self, scope: &Scope, replies: &[Reply]) -> (step: Step<bool, Error>)
        ensures
            step == in_scope_step(self.0, *scope, replies@),
            step.within(replies@.len()),
    {
        match self.number_of_streams(scope, replies) {
            Step::Ask(request) => Step::Ask(request),
            Step::Done(streams, used) => Step::Done(streams > 0, used),
            Step::Failed(error, used) => Step::Failed(error, used),
            Step::Fault(fault) => Step::Fault(fault),
        }
    }

    /// Reads the data source of one side of the device, which it must have.
    pub fn get_source(&self, scope: &Scope, replies: &[Reply]) -> (step: Step<u32, Error>)
        ensures
            step == source_step(self.0, *scope, replies@),
            step.within(replies@.len()),
    {
        match self.in_scope(scope, replies) {
            Step::Ask(request) => Step::Ask(request),
            Step::Done(inside, used) => {
                if !inside {
                    return Step::Failed(Error::WrongScope, used);
                }
                let address = get_scope_property_address(scope, Property::DeviceSource);
                let rest = slice_subrange(replies, used, replies.len());
                get_word(self.0, &address, rest).shift(used)
            },
            Step::Failed(error, used) => Step::Failed(error, used),
            Step::Fault(fault) => Step::Fault(fault),
        }
    }

    /// Counts the streams of one side of the device, by the size of their
    /// list alone.
    pub fn number_of_streams(&self, scope: &Scope, replies: &[Reply]) -> (step: Step<usize, Error>)
        ensures
            step == streams_step(self.0, *scope, replies@),
            step.within(replies@.len()),
    {
        let address = get_scope_property_address(scope, Property::DeviceStreams);
        match audio_object_utils::get_property_data_size(self.0, &address, replies) {
            Step::Ask(request) => Step::Ask(request),
            Step::Done(size, used) => Step::Done(size / OBJECT_ID_SIZE, used),
            Step::Failed(error, used) => Step::Failed(Error::InvalidParameters(error), used),
            Step::Fault(fault) => Step::Fault(fault),
        }
    }
}

impl AudioStream {
    /// Reads the latency of the stream, in frames.
    pub fn get_latency(&self, scope: &Scope, replies: &[Reply]) -> (step: Step<u32, Error>)
        ensures
            step == word_step(self.0, scope_address(*scope, Property::StreamLatency), replies@),
            step.within(replies@.len()),
    {
        let address = get_scope_property_address(scope, Property::StreamLatency);
        get_word(self.0, &address, replies)
    }
}


/// The size of what stands before the buffers in a list of buffers: their
/// number, and the padding after it.
pub const BUFFER_LIST_HEADER: usize = 8;

/// The size of one buffer in a list of buffers: the number of its channels,
/// the size of its data, and the address of its data.
pub const BUFFER_SIZE: usize = 16;

/// The number of buffers that a list of buffers says it has.
pub open spec fn buffer_count(bytes: Seq<u8>) -> nat {
    word(bytes.subrange(0, 4)) as nat
}

/// Whether the bytes hold a list of buffers: the number of the buffers, and
/// then as many buffers.
pub open spec fn laid_out(bytes: Seq<u8>) -> bool {
    bytes.len() >= 8 && bytes.len() >= 8 + 16 * buffer_count(bytes)
}

/// The number of channels of the buffer at `index` of a list of buffers.
pub open spec fn buffer_channels(bytes: Seq<u8>, index: int) -> nat {
    word(bytes.subrange(8 + 16 * index, 12 + 16 * index)) as nat
}

/// The number of channels of the first `count` buffers of a list of buffers.
pub open spec fn channel_sum(bytes: Seq<u8>, count: nat) -> nat
    decreases count,
{
    if count == 0 {
        0
    } else {
        channel_sum(bytes, (count - 1) as nat) + buffer_channels(bytes, count - 1)
    }
}

/// The number of channels of a list of buffers, if the bytes hold a list and
/// the number fits.
pub open spec fn channels_of(bytes: Seq<u8>) -> Option<u32> {
    if laid_out(bytes) && channel_sum(bytes, buffer_count(bytes)) <= u32::MAX {
        Some(channel_sum(bytes, buffer_count(bytes)) as u32)
    } else {
        None
    }
}

/// The steps of counting the channels of one side of a device: the
/// configuration of its streams is read as a list of buffers, and the
/// channels of the buffers are added up.
pub open spec fn channel_count_step(id: u32, scope: Scope, replies: Seq<Reply>) -> Step<u32, Error> {
    match audio_object_utils::variable_sized_step(
        id,
        scope_address(scope, Property::StreamConfiguration),
        replies,
    ) {
        Step::Ask(request) => Step::Ask(request),
        Step::Done(bytes, used) => match channels_of(bytes) {
            Some(channels) => Step::Done(channels, used),
            None => Step::Fault(Fault::Malformed),
        },
        Step::Failed(error, used) => Step::Failed(Error::InvalidParameters(error), used),
        Step::Fault(fault) => Step::Fault(fault),
    }
}

/// More buffers have no fewer channels.
proof fn lemma_channel_sum_grows(bytes: Seq<u8>, fewer: nat, count: nat)
    requires
        fewer <= count,
    ensures
        channel_sum(bytes, fewer) <= channel_sum(bytes, count),
    decreases count,
{
    if fewer < count {
        lemma_channel_sum_grows(bytes, fewer, (count - 1) as nat);
    }
}

/// Adds up the channels of the buffers of a list of buffers.
pub fn count_channels(bytes: &[u8]) -> (channels: Option<u32>)
    ensures
        channels == channels_of(bytes@),
{
    if bytes.len() < BUFFER_LIST_HEADER {
        return None;
    }
    let buffers: usize = audio_object_utils::read_word(bytes, 0) as usize;
    if buffers > (bytes.len() - BUFFER_LIST_HEADER) / BUFFER_SIZE {
        return None;
    }
    let mut count: u32 = 0;
    let mut i: usize = 0;
    while i < buffers
        invariant
            i <= buffers,
            buffers == buffer_count(bytes@),
            8 + 16 * buffers <= bytes@.len() <= usize::MAX,
            count == channel_sum(bytes@, i as nat),
        decreases buffers - i,
    {
        let channels: u32 = audio_object_utils::read_word(
            bytes,
            BUFFER_LIST_HEADER + BUFFER_SIZE * i,
        );
        if channels > u32::MAX - count {
            proof {
                lemma_channel_sum_grows(bytes@, (i + 1) as nat, buffers as nat);
            }
            return None;
        }
        count = count + channels;
        i = i + 1;
    }
    Some(count)
}

impl AudioObject {
    /// Counts the channels of one side of the device.
    pub fn get_channel_count(&self, scope: &Scope, replies: &[Reply]) -> (step: Step<u32, Error>)
        ensures
            step == channel_count_step(self.0, *scope, replies@),
            step.within(replies@.len()),
    {
        let address = get_scope_property_address(scope, Property::StreamConfiguration);
        match audio_object_utils::get_property_variable_sized_data(self.0, &address, replies) {
            Step::Ask(request) => Step::Ask(request),
            Step::Done(bytes, used) => match count_channels(bytes.as_slice()) {
                Some(channels) => Step::Done(channels, used),
                None => Step::Fault(Fault::Malformed),
            },
            Step::Failed(error, used) => Step::Failed(Error::InvalidParameters(error), used),
            Step::Fault(fault) => Step::Fault(fault),
        }
    }
}

/// A device that is the default of a side already is never made the default
/// again: where it has the side and the default that is read is the device
/// itself, setting it fails with `SetSameDevice`, and nothing is written.
pub proof fn lemma_same_device_is_refused(device: AudioObject, scope: Scope, replies: Seq<Reply>)
    requires
        in_scope_step(device.0, scope, replies) matches Step::Done(inside, used) && inside && (
        default_device_step(scope, replies.skip(used as int)) matches Step::Done(current, _)
            && current == device),
    ensures
        set_default_device_step(device, scope, replies) matches Step::Failed(error, _) && error
            == Error::SetSameDevice,
{
}

/// A device that lacks the side is never made its default: setting it fails
/// with `WrongScope`, and nothing is written.
pub proof fn lemma_wrong_scope_is_refused(device: AudioObject, scope: Scope, replies: Seq<Reply>)
    requires
        in_scope_step(device.0, scope, replies) matches Step::Done(inside, _) && !inside,
    ensures
        set_default_device_step(device, scope, replies) matches Step::Failed(error, _) && error
            == Error::WrongScope,
{
}

/// The default device is written only after both checks: whenever setting a
/// device asks for a write, the device has the side and is another than the
/// default that was read, and what is to be written to the property of the
/// default device is the id of the device.
pub proof fn lemma_write_is_guarded(device: AudioObject, scope: Scope, replies: Seq<Reply>)
    requires
        set_default_device_step(device, scope, replies) matches Step::Ask(request)
            && request is SetPropertyData,
    ensures
        in_scope_step(device.0, scope, replies) matches Step::Done(inside, used) && inside && (
        default_device_step(scope, replies.skip(used as int)) matches Step::Done(current, _)
            && current != device),
        set_default_device_step(device, scope, replies) == Step::<(), Error>::Ask(
            Request::SetPropertyData {
                id: SYSTEM_OBJECT,
                address: global_address(default_device_property(scope)),
                value: device.0,
            },
        ),
{
}

/// Nothing is known of the device that is none: every query about it fails
/// with `BadObject`, whatever the replies, and asks nothing of the native
/// layer. It cannot be made a default device either.
pub proof fn lemma_no_device_is_refused(scope: Scope, replies: Seq<Reply>)
    ensures
        streams_step(UNKNOWN_OBJECT, scope, replies) == Step::<usize, Error>::Failed(
            Error::InvalidParameters(audio_object_utils::Error::BadObject),
            0,
        ),
        in_scope_step(UNKNOWN_OBJECT, scope, replies) == Step::<bool, Error>::Failed(
            Error::InvalidParameters(audio_object_utils::Error::BadObject),
            0,
        ),
        source_step(UNKNOWN_OBJECT, scope, replies) == Step::<u32, Error>::Failed(
            Error::InvalidParameters(audio_object_utils::Error::BadObject),
            0,
        ),
        source_name_step(UNKNOWN_OBJECT, scope, replies) == Step::<Seq<char>, Error>::Failed(
            Error::InvalidParameters(audio_object_utils::Error::BadObject),
            0,
        ),
        name_step(UNKNOWN_OBJECT, replies) == Step::<Seq<char>, Error>::Failed(
            Error::InvalidParameters(audio_object_utils::Error::BadObject),
            0,
        ),
        label_step(UNKNOWN_OBJECT, scope, replies) == Step::<Seq<char>, Error>::Failed(
            Error::InvalidParameters(audio_object_utils::Error::BadObject),
            0,
        ),
        stream_latency_step(UNKNOWN_OBJECT, scope, replies) == Step::<u32, Error>::Failed(
            Error::InvalidParameters(audio_object_utils::Error::BadObject),
            0,
        ),
        channel_count_step(UNKNOWN_OBJECT, scope, replies) == Step::<u32, Error>::Failed(
            Error::InvalidParameters(audio_object_utils::Error::BadObject),
            0,
        ),
        set_default_device_step(AudioObject(UNKNOWN_OBJECT), scope, replies) == Step::<
            (),
            Error,
        >::Failed(Error::InvalidParameters(audio_object_utils::Error::BadObject), 0),
{
    assert(replies.skip(0) =~= replies);
}

/// What was written is what is read: where the native layer hands back the
/// bytes of the id that was written as the default of a side, the default
/// that is read is the device that was set.
pub proof fn lemma_default_is_read_back(device: AudioObject, scope: Scope, replies: Seq<Reply>)
    requires
        device.is_valid(),
        replies.len() >= 2,
        replies[0] == (Reply::Size { status: 0, size: 4 }),
        replies[1] matches Reply::Data { status, bytes } && status == 0 && bytes@
            == audio_object_utils::word_bytes(device.0),
    ensures
        default_device_step(scope, replies) == Step::<AudioObject, Error>::Done(device, 2),
{
    audio_object_utils::lemma_word_of_its_bytes(device.0);
    assert(replies.skip(1)[0] == replies[1]);
}

/// A label in a side that the device lacks is never the name of the device:
/// `WrongScope` comes through as it is.
pub proof fn lemma_wrong_scope_has_no_label(id: u32, scope: Scope, replies: Seq<Reply>)
    requires
        in_scope_step(id, scope, replies) matches Step::Done(inside, _) && !inside,
    ensures
        label_step(id, scope, replies) matches Step::Failed(error, _) && error == Error::WrongScope,
{
}


/// Reading a number that has settled stays settled.
proof fn lemma_word_settled(id: u32, address: PropertyAddress, replies: Seq<Reply>, more: Seq<Reply>)
    ensures
        in_order(word_step(id, address, replies), replies.len(), word_step(id, address, replies + more)),
{
    audio_object_utils::lemma_settled_for_good(
        id,
        address,
        OBJECT_ID_SIZE,
        Request::PropertyData { id, address, size: OBJECT_ID_SIZE },
        OBJECT_ID_SIZE,
        1,
        0,
        replies,
        more,
    );
}

/// The conversion of a string whose reference was read stays settled, if
/// the read does.
proof fn lemma_named_settled(
    first: Step<Seq<u8>, audio_object_utils::Error>,
    second: Step<Seq<u8>, audio_object_utils::Error>,
    replies: Seq<Reply>,
    more: Seq<Reply>,
)
    requires
        in_order(first, replies.len(), second),
    ensures
        in_order(named(first, replies), replies.len(), named(second, replies + more)),
{
    if let Step::Done(bytes, used) = first {
        lemma_rest_of_longer(replies, more, used as int);
        string_helper::lemma_settled_for_good(handle(bytes), replies.skip(used as int), more);
    }
}

/// Reading a string that has settled stays settled.
proof fn lemma_string_settled(id: u32, address: PropertyAddress, replies: Seq<Reply>, more: Seq<Reply>)
    ensures
        in_order(
            string_property_step(id, address, replies),
            replies.len(),
            string_property_step(id, address, replies + more),
        ),
{
    audio_object_utils::lemma_settled_for_good(
        id,
        address,
        STRING_REF_SIZE,
        Request::PropertyData { id, address, size: STRING_REF_SIZE },
        STRING_REF_SIZE,
        1,
        0,
        replies,
        more,
    );
    lemma_named_settled(
        data_step(id, address, STRING_REF_SIZE, replies),
        data_step(id, address, STRING_REF_SIZE, replies + more),
        replies,
        more,
    );
}

/// A probe for a side that has settled stays settled.
pub proof fn lemma_in_scope_settled(id: u32, scope: Scope, replies: Seq<Reply>, more: Seq<Reply>)
    ensures
        in_order(
            streams_step(id, scope, replies),
            replies.len(),
            streams_step(id, scope, replies + more),
        ),
        in_order(
            in_scope_step(id, scope, replies),
            replies.len(),
            in_scope_step(id, scope, replies + more),
        ),
{
    let address = scope_address(scope, Property::DeviceStreams);
    audio_object_utils::lemma_settled_for_good(
        id,
        address,
        0,
        Request::PropertyDataSize { id, address },
        0,
        1,
        0,
        replies,
        more,
    );
}

/// Reading a source that has settled stays settled.
proof fn lemma_source_settled(id: u32, scope: Scope, replies: Seq<Reply>, more: Seq<Reply>)
    ensures
        in_order(source_step(id, scope, replies), replies.len(), source_step(id, scope, replies + more)),
{
    lemma_in_scope_settled(id, scope, replies, more);
    if let Step::Done(inside, used) = in_scope_step(id, scope, replies) {
        lemma_rest_of_longer(replies, more, used as int);
        lemma_word_settled(
            id,
            scope_address(scope, Property::DeviceSource),
            replies.skip(used as int),
            more,
        );
    }
}

/// Reading the name of a source that has settled stays settled.
proof fn lemma_source_name_settled(id: u32, scope: Scope, replies: Seq<Reply>, more: Seq<Reply>)
    ensures
        in_order(
            source_name_step(id, scope, replies),
            replies.len(),
            source_name_step(id, scope, replies + more),
        ),
{
    lemma_source_settled(id, scope, replies, more);
    if let Step::Done(source, used) = source_step(id, scope, replies) {
        let address = scope_address(scope, Property::DeviceSourceName);
        lemma_rest_of_longer(replies, more, used as int);
        audio_object_utils::lemma_settled_for_good(
            id,
            address,
            audio_object_utils::TRANSLATION_SIZE,
            Request::TranslatedData { id, address, input: source, size: STRING_REF_SIZE },
            STRING_REF_SIZE,
            1,
            0,
            replies.skip(used as int),
            more,
        );
        lemma_named_settled(
            translated_step(id, address, source, STRING_REF_SIZE, replies.skip(used as int)).after(
                used,
            ),
            translated_step(id, address, source, STRING_REF_SIZE, (replies + more).skip(used as int)).after(
                used,
            ),
            replies,
            more,
        );
    }
}

/// Probing devices that has settled stays settled.
proof fn lemma_probed_settled(
    devices: Seq<AudioObject>,
    scope: Scope,
    replies: Seq<Reply>,
    more: Seq<Reply>,
    count: nat,
)
    ensures
        in_order(
            probed_step(devices, scope, replies, count),
            replies.len(),
            probed_step(devices, scope, replies + more, count),
        ),
    decreases count,
{
    if count > 0 {
        lemma_probed_settled(devices, scope, replies, more, (count - 1) as nat);
        if let Step::Done(kept, used) = probed_step(devices, scope, replies, (count - 1) as nat) {
            lemma_rest_of_longer(replies, more, used as int);
            lemma_in_scope_settled(devices[count - 1].0, scope, replies.skip(used as int), more);
        }
    }
}

/// Finding a label that has settled stays settled.
pub proof fn lemma_label_settled(id: u32, scope: Scope, replies: Seq<Reply>, more: Seq<Reply>)
    ensures
        in_order(name_step(id, replies), replies.len(), name_step(id, replies + more)),
        in_order(label_step(id, scope, replies), replies.len(), label_step(id, scope, replies + more)),
{
    lemma_source_name_settled(id, scope, replies, more);
    lemma_string_settled(id, global_address(Property::DeviceName), replies, more);
    if let Step::Failed(error, used) = source_name_step(id, scope, replies) {
        lemma_rest_of_longer(replies, more, used as int);
        lemma_string_settled(
            id,
            global_address(Property::DeviceName),
            replies.skip(used as int),
            more,
        );
    }
}

/// Reading the latency of the first stream that has settled stays settled.
proof fn lemma_stream_latency_settled(id: u32, scope: Scope, replies: Seq<Reply>, more: Seq<Reply>)
    ensures
        in_order(
            stream_latency_step(id, scope, replies),
            replies.len(),
            stream_latency_step(id, scope, replies + more),
        ),
{
    let streams = scope_address(scope, Property::DeviceStreams);
    audio_object_utils::lemma_settled_for_good(
        id,
        streams,
        0,
        Request::PropertyDataSize { id, address: streams },
        0,
        OBJECT_ID_SIZE,
        0,
        replies,
        more,
    );
    if let Step::Done(bytes, used) = array_step(id, streams, OBJECT_ID_SIZE, replies) {
        lemma_rest_of_longer(replies, more, used as int);
        if bytes.len() >= 4 {
            lemma_word_settled(
                word(bytes.subrange(0, 4)),
                scope_address(scope, Property::StreamLatency),
                replies.skip(used as int),
                more,
            );
        }
    }
}

/// Reading the default device that has settled stays settled.
pub proof fn lemma_default_device_settled(scope: Scope, replies: Seq<Reply>, more: Seq<Reply>)
    ensures
        in_order(
            default_device_step(scope, replies),
            replies.len(),
            default_device_step(scope, replies + more),
        ),
{
    lemma_word_settled(SYSTEM_OBJECT, global_address(default_device_property(scope)), replies, more);
}

/// Listing devices that has settled stays settled.
pub proof fn lemma_devices_settled(scope: Scope, replies: Seq<Reply>, more: Seq<Reply>)
    ensures
        in_order(all_devices_step(replies), replies.len(), all_devices_step(replies + more)),
        in_order(devices_step(scope, replies), replies.len(), devices_step(scope, replies + more)),
{
    let list = global_address(Property::Devices);
    audio_object_utils::lemma_settled_for_good(
        SYSTEM_OBJECT,
        list,
        0,
        Request::PropertyDataSize { id: SYSTEM_OBJECT, address: list },
        0,
        OBJECT_ID_SIZE,
        0,
        replies,
        more,
    );
    if let Step::Done(devices, used) = all_devices_step(replies) {
        lemma_rest_of_longer(replies, more, used as int);
        lemma_probed_settled(devices, scope, replies.skip(used as int), more, devices.len());
    }
}

/// Setting the default device that has settled stays settled.
pub proof fn lemma_set_default_device_settled(
    device: AudioObject,
    scope: Scope,
    replies: Seq<Reply>,
    more: Seq<Reply>,
)
    ensures
        in_order(
            set_default_device_step(device, scope, replies),
            replies.len(),
            set_default_device_step(device, scope, replies + more),
        ),
{
    let default = global_address(default_device_property(scope));
    lemma_in_scope_settled(device.0, scope, replies, more);
    if let Step::Done(inside, used) = in_scope_step(device.0, scope, replies) {
        lemma_rest_of_longer(replies, more, used as int);
        lemma_default_device_settled(scope, replies.skip(used as int), more);
        if let Step::Done(current, next) = default_device_step(scope, replies.skip(used as int)).after(
            used,
        ) {
            lemma_rest_of_longer(replies, more, next as int);
            audio_object_utils::lemma_settled_for_good(
                SYSTEM_OBJECT,
                default,
                0,
                Request::PropertyDataSize { id: SYSTEM_OBJECT, address: default },
                0,
                1,
                device.0,
                replies.skip(next as int),
                more,
            );
        }
    }
}

/// What has settled stays settled. A query that has come to an end after
/// the replies it was given comes to the same end whatever replies follow
/// them, and it accounts for no more replies than it was given. So a driver
/// that appends one reply for each request is handed each outcome once,
/// after exactly the requests that led to it.
pub proof fn lemma_settled_for_good(
    device: AudioObject,
    scope: Scope,
    address: PropertyAddress,
    replies: Seq<Reply>,
    more: Seq<Reply>,
)
    ensures
        in_order(
            word_step(device.0, address, replies),
            replies.len(),
            word_step(device.0, address, replies + more),
        ),
        in_order(
            string_property_step(device.0, address, replies),
            replies.len(),
            string_property_step(device.0, address, replies + more),
        ),
        in_order(
            streams_step(device.0, scope, replies),
            replies.len(),
            streams_step(device.0, scope, replies + more),
        ),
        in_order(
            in_scope_step(device.0, scope, replies),
            replies.len(),
            in_scope_step(device.0, scope, replies + more),
        ),
        in_order(
            source_step(device.0, scope, replies),
            replies.len(),
            source_step(device.0, scope, replies + more),
        ),
        in_order(
            source_name_step(device.0, scope, replies),
            replies.len(),
            source_name_step(device.0, scope, replies + more),
        ),
        in_order(name_step(device.0, replies), replies.len(), name_step(device.0, replies + more)),
        in_order(
            label_step(device.0, scope, replies),
            replies.len(),
            label_step(device.0, scope, replies + more),
        ),
        in_order(
            stream_latency_step(device.0, scope, replies),
            replies.len(),
            stream_latency_step(device.0, scope, replies + more),
        ),
        in_order(
            default_device_step(scope, replies),
            replies.len(),
            default_device_step(scope, replies + more),
        ),
        in_order(all_devices_step(replies), replies.len(), all_devices_step(replies + more)),
        in_order(devices_step(scope, replies), replies.len(), devices_step(scope, replies + more)),
        in_order(
            set_default_device_step(device, scope, replies),
            replies.len(),
            set_default_device_step(device, scope, replies + more),
        ),
{
    lemma_word_settled(device.0, address, replies, more);
    lemma_string_settled(device.0, address, replies, more);
    lemma_in_scope_settled(device.0, scope, replies, more);
    lemma_source_settled(device.0, scope, replies, more);
    lemma_source_name_settled(device.0, scope, replies, more);
    lemma_label_settled(device.0, scope, replies, more);
    lemma_stream_latency_settled(device.0, scope, replies, more);
    lemma_default_device_settled(scope, replies, more);
    lemma_devices_settled(scope, replies, more);
    lemma_set_default_device_settled(device, scope, replies, more);
}


} // verus!
