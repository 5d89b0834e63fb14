//! The devices of the machine: which there are, which are the defaults, and
//! how to make another one the default.
use vstd::prelude::*;

pub mod audio_objects;
pub mod string_helper;

use self::audio_objects::all_devices_step;
use self::audio_objects::default_device_step;
use self::audio_objects::devices_step;
use self::audio_objects::set_default_device_step;
use self::audio_objects::AudioSystemObject;
use crate::exchange::in_order;
use crate::exchange::lemma_rest_of_longer;
use crate::exchange::Fault;
use crate::exchange::Reply;
use crate::exchange::Step;

pub use self::audio_objects::AudioObject;
pub use self::audio_objects::GetObjectId;
pub use self::audio_objects::Scope;

verus! {

/// Why a query about the devices failed.
#[derive(Clone, Copy, PartialEq, Eq, Debug, Structural)]
pub enum Error {
    AudioObjects(audio_objects::Error),
}

impl From<audio_objects::Error> for Error {
    fn from(e: audio_objects::Error) -> (error: Error) {
        Error::AudioObjects(e)
    }
}

impl vstd::std_specs::convert::FromSpecImpl<audio_objects::Error> for Error {
    open spec fn obeys_from_spec() -> bool {
        true
    }

    open spec fn from_spec(e: audio_objects::Error) -> Error {
        Error::AudioObjects(e)
    }
}

/// The step with its error taken up as `AudioObjects`.
pub open spec fn wrapped<T>(step: Step<T, audio_objects::Error>) -> Step<T, Error> {
    match step {
        Step::Ask(request) => Step::Ask(request),
        Step::Done(value, used) => Step::Done(value, used),
        Step::Failed(error, used) => Step::Failed(Error::AudioObjects(error), used),
        Step::Fault(fault) => Step::Fault(fault),
    }
}

/// Takes the error of a step up as `AudioObjects`.
pub fn wrap<T>(step: Step<T, audio_objects::Error>) -> (out: Step<T, Error>)
    ensures
        out == wrapped(step),
{
    match step {
        Step::Ask(request) => Step::Ask(request),
        Step::Done(value, used) => Step::Done(value, used),
        Step::Failed(error, used) => Step::Failed(Error::AudioObjects(error), used),
        Step::Fault(fault) => Step::Fault(fault),
    }
}

/// Reads the default device of a side.
pub fn get_default_device(scope: &Scope, replies: &[Reply]) -> (step: Step<AudioObject, Error>)
    ensures
        step == wrapped(default_device_step(*scope, replies@)),
        step.within(replies@.len()),
        step matches Step::Done(device, _) ==> device.is_valid(),
{
    let system_device = AudioSystemObject::new();
    wrap(system_device.get_default_device(scope, replies))
}

/// Lists the devices that have a side.
pub fn get_devices(scope: &Scope, replies: &[Reply]) -> (step: Step<Vec<AudioObject>, Error>)
    ensures
        step@ == wrapped(devices_step(*scope, replies@)),
        step.within(replies@.len()),
{
    let system_device = AudioSystemObject::new();
    wrap(system_device.get_devices(scope, replies))
}

/// Lists all devices.
pub fn get_all_devices(replies: &[Reply]) -> (step: Step<Vec<AudioObject>, Error>)
    ensures
        step@ == wrapped(all_devices_step(replies@)),
        step.within(replies@.len()),
{
    let system_device = AudioSystemObject::new();
    wrap(system_device.get_all_devices(replies))
}

/// Makes the device the default of a side, unless it lacks the side or is
/// the default already.
pub fn set_default_device(device: &AudioObject, scope: &Scope, replies: &[Reply]) -> (step: Step<
    (),
    Error,
>)
    ensures
        step == wrapped(set_default_device_step(*device, *scope, replies@)),
        step.within(replies@.len()),
{
    let system_device = AudioSystemObject::new();
    wrap(system_device.set_default_device(device, scope, replies))
}


/// The first of the devices that is another than `current`, if there is one.
pub open spec fn first_other(devices: Seq<AudioObject>, current: AudioObject) -> Option<
    AudioObject,
>
    decreases devices.len(),
{
    if devices.len() == 0 {
        None
    } else if devices[0] != current {
        Some(devices[0])
    } else {
        first_other(devices.drop_first(), current)
    }
}

/// The steps of moving the default of a side on to another device. The
/// devices of the side are listed; with fewer than two of them, or where
/// they cannot be listed, there is nothing to do. Otherwise the default is
/// read, and the first device that is another than the default is made the
/// default. The outcome is the device that was chosen.
pub open spec fn change_default_device_step(scope: Scope, replies: Seq<Reply>) -> Step<
    Option<AudioObject>,
    Error,
> {
    match devices_step(scope, replies) {
        Step::Ask(request) => Step::Ask(request),
        Step::Failed(_, used) => Step::Done(None, used),
        Step::Fault(fault) => Step::Fault(fault),
        Step::Done(devices, used) => if devices.len() < 2 {
            Step::Done(None, used)
        } else {
            match default_device_step(scope, replies.skip(used as int)).after(used) {
                Step::Ask(request) => Step::Ask(request),
                Step::Failed(error, next) => Step::Failed(Error::AudioObjects(error), next),
                Step::Fault(fault) => Step::Fault(fault),
                Step::Done(current, next) => match first_other(devices, current) {
                    None => Step::Fault(Fault::NoElement),
                    Some(device) => match set_default_device_step(
                        device,
                        scope,
                        replies.skip(next as int),
                    ).after(next) {
                        Step::Ask(request) => Step::Ask(request),
                        Step::Failed(error, end) => Step::Failed(Error::AudioObjects(error), end),
                        Step::Fault(fault) => Step::Fault(fault),
                        Step::Done(_, end) => Step::Done(Some(device), end),
                    },
                },
            }
        },
    }
}

/// Finds the first of the devices that is another than `current`.
pub fn other_device(devices: &[AudioObject], current: &AudioObject) -> (found: Option<AudioObject>)
    ensures
        found == first_other(devices@, *current),
        found matches Some(device) ==> device != *current && devices@.contains(device),
        found is None ==> forall|i: int| 0 <= i < devices@.len() ==> devices@[i] == *current,
{
    let mut i: usize = 0;
    assert(devices@.skip(0) =~= devices@);
    while i < devices.len()
        invariant
            i <= devices@.len(),
            first_other(devices@, *current) == first_other(devices@.skip(i as int), *current),
            forall|k: int| 0 <= k < i ==> devices@[k] == *current,
        decreases devices@.len() - i,
    {
        assert(devices@.skip(i as int).drop_first() =~= devices@.skip(i + 1));
        if devices[i].0 != current.0 {
            return Some(devices[i]);
        }
        i = i + 1;
    }
    None
}

/// Moves the default of a side on to the first other device of that side,
/// and tells which device that is.
pub fn change_default_device(scope: &Scope, replies: &[Reply]) -> (step: Step<
    Option<AudioObject>,
    Error,
>)
    ensures
        step == change_default_device_step(*scope, replies@),
        step.within(replies@.len()),
{
    let (devices, used) = match get_devices(scope, replies) {
        Step::Ask(request) => {
            return Step::Ask(request);
        },
        Step::Failed(_, used) => {
            return Step::Done(None, used);
        },
        Step::Fault(fault) => {
            return Step::Fault(fault);
        },
        Step::Done(devices, used) => (devices, used),
    };
    if devices.len() < 2 {
        return Step::Done(None, used);
    }
    let rest = vstd::slice::slice_subrange(replies, used, replies.len());
    let (current, next) = match get_default_device(scope, rest).shift(used) {
        Step::Ask(request) => {
            return Step::Ask(request);
        },
        Step::Failed(error, next) => {
            return Step::Failed(error, next);
        },
        Step::Fault(fault) => {
            return Step::Fault(fault);
        },
        Step::Done(current, next) => (current, next),
    };
    let device = match other_device(devices.as_slice(), &current) {
        None => {
            return Step::Fault(Fault::NoElement);
        },
        Some(device) => device,
    };
    let rest = vstd::slice::slice_subrange(replies, next, replies.len());
    match set_default_device(&device, scope, rest).shift(next) {
        Step::Ask(request) => Step::Ask(request),
        Step::Failed(error, end) => Step::Failed(error, end),
        Step::Fault(fault) => Step::Fault(fault),
        Step::Done(_, end) => Step::Done(Some(device), end),
    }
}

/// What there is to show of one side of a device: whether the device is
/// the default of that side, and its label there.
pub open spec fn shown(step: Step<Option<(bool, String)>, Error>) -> Step<
    Option<(bool, Seq<char>)>,
    Error,
> {
    match step {
        Step::Ask(request) => Step::Ask(request),
        Step::Done(Some(info), used) => Step::Done(Some((info.0, info.1@)), used),
        Step::Done(None, used) => Step::Done(None, used),
        Step::Failed(error, used) => Step::Failed(error, used),
        Step::Fault(fault) => Step::Fault(fault),
    }
}

/// The steps of finding what there is to show of one side of a device. A
/// device that lacks the side shows nothing there. For one that has it, the
/// default of the side is read, to tell whether the device is the default,
/// and then its label.
pub open spec fn device_info_step(device: AudioObject, scope: Scope, replies: Seq<Reply>) -> Step<
    Option<(bool, Seq<char>)>,
    Error,
> {
    match audio_objects::in_scope_step(device.0, scope, replies) {
        Step::Ask(request) => Step::Ask(request),
        Step::Failed(error, used) => Step::Failed(Error::AudioObjects(error), used),
        Step::Fault(fault) => Step::Fault(fault),
        Step::Done(inside, used) => if !inside {
            Step::Done(None, used)
        } else {
            match default_device_step(scope, replies.skip(used as int)).after(used) {
                Step::Ask(request) => Step::Ask(request),
                Step::Failed(error, next) => Step::Failed(Error::AudioObjects(error), next),
                Step::Fault(fault) => Step::Fault(fault),
                Step::Done(default, next) => match audio_objects::label_step(
                    device.0,
                    scope,
                    replies.skip(next as int),
                ).after(next) {
                    Step::Ask(request) => Step::Ask(request),
                    Step::Failed(error, end) => Step::Failed(Error::AudioObjects(error), end),
                    Step::Fault(fault) => Step::Fault(fault),
                    Step::Done(label, end) => Step::Done(Some((device == default, label)), end),
                },
            }
        },
    }
}

/// Finds what there is to show of one side of a device: nothing where the
/// device lacks the side, and otherwise whether it is the default of the
/// side, and its label.
pub fn get_device_info(device: &AudioObject, scope: &Scope, replies: &[Reply]) -> (step: Step<
    Option<(bool, String)>,
    Error,
>)
    ensures
        shown(step) == device_info_step(*device, *scope, replies@),
        step.within(replies@.len()),
{
    let used: usize = match device.in_scope(scope, replies) {
        Step::Ask(request) => {
            return Step::Ask(request);
        },
        Step::Failed(error, used) => {
            return Step::Failed(Error::AudioObjects(error), used);
        },
        Step::Fault(fault) => {
            return Step::Fault(fault);
        },
        Step::Done(inside, used) => {
            if !inside {
                return Step::Done(None, used);
            }
            used
        },
    };
    let rest = vstd::slice::slice_subrange(replies, used, replies.len());
    let (default, next) = match get_default_device(scope, rest).shift(used) {
        Step::Ask(request) => {
            return Step::Ask(request);
        },
        Step::Failed(error, next) => {
            return Step::Failed(error, next);
        },
        Step::Fault(fault) => {
            return Step::Fault(fault);
        },
        Step::Done(default, next) => (default, next),
    };
    let rest = vstd::slice::slice_subrange(replies, next, replies.len());
    match device.get_label(scope, rest).shift(next) {
        Step::Ask(request) => Step::Ask(request),
        Step::Failed(error, end) => Step::Failed(Error::AudioObjects(error), end),
        Step::Fault(fault) => Step::Fault(fault),
        Step::Done(label, end) => Step::Done(Some((device.0 == default.0, label)), end),
    }
}

/// Moving the default on that has settled stays settled.
#[verifier::rlimit(80)]
proof fn lemma_change_settled(scope: Scope, replies: Seq<Reply>, more: Seq<Reply>)
    ensures
        in_order(
            change_default_device_step(scope, replies),
            replies.len(),
            change_default_device_step(scope, replies + more),
        ),
{
    audio_objects::lemma_devices_settled(scope, replies, more);
    if let Step::Done(devices, used) = devices_step(scope, replies) {
        lemma_rest_of_longer(replies, more, used as int);
        audio_objects::lemma_default_device_settled(scope, replies.skip(used as int), more);
        if let Step::Done(current, next) = default_device_step(scope, replies.skip(used as int)).after(
            used,
        ) {
            lemma_rest_of_longer(replies, more, next as int);
            if let Some(device) = first_other(devices, current) {
                audio_objects::lemma_set_default_device_settled(
                    device,
                    scope,
                    replies.skip(next as int),
                    more,
                );
            }
        }
    }
}

/// Finding what there is to show that has settled stays settled.
#[verifier::rlimit(80)]
proof fn lemma_device_info_settled(
    device: AudioObject,
    scope: Scope,
    replies: Seq<Reply>,
    more: Seq<Reply>,
)
    ensures
        in_order(
            device_info_step(device, scope, replies),
            replies.len(),
            device_info_step(device, scope, replies + more),
        ),
{
    audio_objects::lemma_in_scope_settled(device.0, scope, replies, more);
    if let Step::Done(inside, used) = audio_objects::in_scope_step(device.0, scope, replies) {
        lemma_rest_of_longer(replies, more, used as int);
        audio_objects::lemma_default_device_settled(scope, replies.skip(used as int), more);
        if let Step::Done(default, next) = default_device_step(scope, replies.skip(used as int)).after(
            used,
        ) {
            lemma_rest_of_longer(replies, more, next as int);
            audio_objects::lemma_label_settled(device.0, scope, replies.skip(next as int), more);
        }
    }
}

/// What has settled stays settled: a query that has come to an end comes to
/// the same end whatever replies follow, and it accounts for no more replies
/// than it was given.
pub proof fn lemma_settled_for_good(
    device: AudioObject,
    scope: Scope,
    replies: Seq<Reply>,
    more: Seq<Reply>,
)
    ensures
        in_order(
            wrapped(default_device_step(scope, replies)),
            replies.len(),
            wrapped(default_device_step(scope, replies + more)),
        ),
        in_order(
            wrapped(devices_step(scope, replies)),
            replies.len(),
            wrapped(devices_step(scope, replies + more)),
        ),
        in_order(
            wrapped(all_devices_step(replies)),
            replies.len(),
            wrapped(all_devices_step(replies + more)),
        ),
        in_order(
            wrapped(set_default_device_step(device, scope, replies)),
            replies.len(),
            wrapped(set_default_device_step(device, scope, replies + more)),
        ),
        in_order(
            change_default_device_step(scope, replies),
            replies.len(),
            change_default_device_step(scope, replies + more),
        ),
        in_order(
            device_info_step(device, scope, replies),
            replies.len(),
            device_info_step(device, scope, replies + more),
        ),
{
    lemma_device_info_settled(device, scope, replies, more);
    audio_objects::lemma_default_device_settled(scope, replies, more);
    audio_objects::lemma_devices_settled(scope, replies, more);
    audio_objects::lemma_set_default_device_settled(device, scope, replies, more);
    lemma_change_settled(scope, replies, more);
}

} // verus!
