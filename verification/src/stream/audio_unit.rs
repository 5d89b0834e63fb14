//! The audio unit that renders to the default output device: finding it,
//! creating it, its properties and its life cycle, as steps of an exchange
//! with the native layer.
use vstd::prelude::*;
use vstd::slice::slice_subrange;

use crate::exchange::in_order;
use crate::exchange::lemma_rest_of_longer;
use crate::exchange::Fault;
use crate::exchange::Reply;
use crate::exchange::Request;
use crate::exchange::Step;
use crate::stream::StreamDescription;
use crate::utils::audio_objects::property_address::four_cc;

verus! {

/// The status of a native call that went well.
pub const NO_ERROR: i32 = 0;

/// The status of a call that names a component that is none.
pub const INVALID_COMPONENT_ID: i32 = -3000;

/// The status of a write to a property that cannot be written.
pub const PROPERTY_NOT_WRITABLE: i32 = -10865;

/// The status of a call that needs an initialized unit and has none.
pub const UNINITIALIZED: i32 = -10867;

/// `auou`: the type of the components that put audio out.
pub const TYPE_OUTPUT: u32 = 0x6175_6F75;

/// `def `: the output component that follows the default output device.
pub const SUB_TYPE_DEFAULT_OUTPUT: u32 = 0x6465_6620;

/// `appl`: the maker of the system's own components.
pub const MANUFACTURER_APPLE: u32 = 0x6170_706C;

/// Why a call on an audio unit failed.
#[derive(Clone, Copy, PartialEq, Eq, Debug, Structural)]
pub enum Error {
    InvalidComponentID,
    NoComponentFound,
    PropertyNotWritable,
    Uninitialized,
}

/// The bus of an audio unit that a property belongs to.
#[derive(Clone, Copy, PartialEq, Eq, Debug, Structural)]
pub enum Element {
    Output,
    Input,
}

impl Element {
    /// The number of the bus: 0 for output, 1 for input.
    pub open spec fn spec_index(self) -> u32 {
        match self {
            Element::Output => 0,
            Element::Input => 1,
        }
    }

    /// The number of the bus: 0 for output, 1 for input.
    #[verifier::when_used_as_spec(spec_index)]
    pub fn index(self) -> (index: u32)
        ensures
            index == self.spec_index(),
    {
        match self {
            Element::Output => 0,
            Element::Input => 1,
        }
    }
}

/// What identifies the kind of audio component to look for.
#[derive(Clone, Copy, PartialEq, Eq, Debug, Structural)]
pub struct ComponentDescription {
    pub component_type: u32,
    pub component_sub_type: u32,
    pub component_manufacturer: u32,
    pub component_flags: u32,
    pub component_flags_mask: u32,
}

/// A value that can be written to a property of an audio unit.
#[derive(Clone, Copy, PartialEq, Eq, Debug, Structural)]
pub enum UnitValue {
    /// The format of the samples that the unit is fed.
    StreamFormat(StreamDescription),
    /// The render callback that the driver holds for the stream.
    RenderCallback,
}

/// The handle of an audio unit.
#[derive(Clone, Copy, PartialEq, Eq, Debug, Structural)]
pub struct AudioUnit(pub u64);

/// The error that a status stands for, if it stands for one.
pub open spec fn error_of(status: i32) -> Option<Error> {
    if status == -3000 {
        Some(Error::InvalidComponentID)
    } else if status == -10865 {
        Some(Error::PropertyNotWritable)
    } else if status == -10867 {
        Some(Error::Uninitialized)
    } else {
        None
    }
}

/// Whether the status is success or one of the errors above.
pub open spec fn recognised(status: i32) -> bool {
    status == 0 || error_of(status) is Some
}

/// What a call with this status settles as, when success yields `value`.
pub open spec fn status_step<T>(status: i32, value: T, used: usize) -> Step<T, Error> {
    if status == 0 {
        Step::Done(value, used)
    } else {
        match error_of(status) {
            Some(error) => Step::Failed(error, used),
            None => Step::Fault(Fault::UnknownStatus(status)),
        }
    }
}

/// The description of the output unit that follows the default device.
pub open spec fn default_output() -> ComponentDescription {
    ComponentDescription {
        component_type: four_cc('a', 'u', 'o', 'u'),
        component_sub_type: four_cc('d', 'e', 'f', ' '),
        component_manufacturer: four_cc('a', 'p', 'p', 'l'),
        component_flags: 0,
        component_flags_mask: 0,
    }
}

/// The steps of a call that yields nothing but its status.
pub open spec fn command_step(request: Request, replies: Seq<Reply>) -> Step<(), Error> {
    if replies.len() == 0 {
        Step::Ask(request)
    } else {
        match replies[0] {
            Reply::Status(status) => status_step(status, (), 1),
            _ => Step::Fault(Fault::UnexpectedReply),
        }
    }
}

/// The steps of looking for a component: no component is an error.
pub open spec fn find_step(after: u64, description: ComponentDescription, replies: Seq<Reply>)
    -> Step<u64, Error> {
    if replies.len() == 0 {
        Step::Ask(Request::FindComponent { after, description })
    } else {
        match replies[0] {
            Reply::Component(component) => if component == 0 {
                Step::Failed(Error::NoComponentFound, 1)
            } else {
                Step::Done(component, 1)
            },
            _ => Step::Fault(Fault::UnexpectedReply),
        }
    }
}

/// The steps of creating an instance of a component.
pub open spec fn instance_step(component: u64, replies: Seq<Reply>) -> Step<u64, Error> {
    if replies.len() == 0 {
        Step::Ask(Request::NewInstance { component })
    } else {
        match replies[0] {
            Reply::Instance { status, instance } => status_step(status, instance, 1),
            _ => Step::Fault(Fault::UnexpectedReply),
        }
    }
}

/// The steps of creating the output unit: its component is looked for from
/// the start of the list, and an instance of it is created.
pub open spec fn create_step(replies: Seq<Reply>) -> Step<u64, Error> {
    match find_step(0, default_output(), replies) {
        Step::Done(component, used) => instance_step(component, replies.skip(used as int)).after(
            used,
        ),
        other => other,
    }
}

/// The steps of querying size and writability of a property.
pub open spec fn property_info_step(
    unit: u64,
    id: u32,
    scope: u32,
    element: Element,
    replies: Seq<Reply>,
) -> Step<(usize, bool), Error> {
    if replies.len() == 0 {
        Step::Ask(Request::UnitPropertyInfo { unit, id, scope, element: element.index() })
    } else {
        match replies[0] {
            Reply::Info { status, size, writable } => status_step(
                status,
                (size as usize, writable),
                1,
            ),
            _ => Step::Fault(Fault::UnexpectedReply),
        }
    }
}

/// The steps of reading a property into a buffer of `size` bytes, which must
/// come back at that size.
pub open spec fn property_step(
    unit: u64,
    id: u32,
    scope: u32,
    element: Element,
    size: usize,
    replies: Seq<Reply>,
) -> Step<Seq<u8>, Error> {
    if replies.len() == 0 {
        Step::Ask(Request::UnitProperty { unit, id, scope, element: element.index(), size })
    } else {
        match replies[0] {
            Reply::Data { status, bytes } => if bytes@.len() == size {
                status_step(status, bytes@, 1)
            } else {
                Step::Fault(Fault::UnexpectedReply)
            },
            _ => Step::Fault(Fault::UnexpectedReply),
        }
    }
}

/// The steps of writing a property.
pub open spec fn set_property_step(
    unit: u64,
    id: u32,
    scope: u32,
    element: Element,
    data: UnitValue,
    replies: Seq<Reply>,
) -> Step<(), Error> {
    command_step(
        Request::SetUnitProperty { unit, id, scope, element: element.index(), data },
        replies,
    )
}

/// The steps of tearing a unit down: it is stopped and then uninitialized,
/// whatever the status of either call.
pub open spec fn teardown_step(unit: u64, replies: Seq<Reply>) -> Step<(), Error> {
    if replies.len() == 0 {
        Step::Ask(Request::Stop { unit })
    } else if !(replies[0] is Status) {
        Step::Fault(Fault::UnexpectedReply)
    } else if replies.len() == 1 {
        Step::Ask(Request::Uninitialize { unit })
    } else if !(replies[1] is Status) {
        Step::Fault(Fault::UnexpectedReply)
    } else {
        Step::Done((), 2)
    }
}

/// Whether `convert_to_result` accepts the status.
pub fn is_recognised(status: i32) -> (known: bool)
    ensures
        known == recognised(status),
{
    status == NO_ERROR || status == INVALID_COMPONENT_ID || status == PROPERTY_NOT_WRITABLE
        || status == UNINITIALIZED
}

/// Maps the status of a failed native call to its error. The set of errors
/// is closed: any other status is a defect and is kept out.
pub fn status_to_error(status: i32) -> (error: Error)
    requires
        error_of(status) is Some,
    ensures
        error_of(status) == Some(error),
{
    if status == INVALID_COMPONENT_ID {
        Error::InvalidComponentID
    } else if status == PROPERTY_NOT_WRITABLE {
        Error::PropertyNotWritable
    } else {
        Error::Uninitialized
    }
}

/// Turns the status of a native call into success or the error it names.
pub fn convert_to_result(status: i32) -> (result: Result<(), Error>)
    requires
        recognised(status),
    ensures
        result is Ok <==> status == 0,
        result is Err ==> error_of(status) == Some(result->Err_0),
{
    if status == NO_ERROR {
        Ok(())
    } else {
        Err(status_to_error(status))
    }
}

/// Settles a call by its status: the value on success, the error that the
/// status names, or a fault where it names none.
fn settle<T>(status: i32, value: T, used: usize) -> (step: Step<T, Error>)
    ensures
        step == status_step(status, value, used),
{
    if !is_recognised(status) {
        return Step::Fault(Fault::UnknownStatus(status));
    }
    match convert_to_result(status) {
        Ok(()) => Step::Done(value, used),
        Err(error) => Step::Failed(error, used),
    }
}

/// Carries out a call that yields nothing but its status.
fn command(request: Request, replies: &[Reply]) -> (step: Step<(), Error>)
    ensures
        step == command_step(request, replies@),
        step.within(replies@.len()),
{
    if replies.len() == 0 {
        return Step::Ask(request);
    }
    match &replies[0] {
        Reply::Status(status) => settle(*status, (), 1),
        _ => Step::Fault(Fault::UnexpectedReply),
    }
}

/// Creates the output unit that follows the default output device.
pub fn create_unit(replies: &[Reply]) -> (step: Step<u64, Error>)
    ensures
        step == create_step(replies@),
        step.within(replies@.len()),
{
    let description = ComponentDescription {
        component_type: TYPE_OUTPUT,
        component_sub_type: SUB_TYPE_DEFAULT_OUTPUT,
        component_manufacturer: MANUFACTURER_APPLE,
        component_flags: 0,
        component_flags_mask: 0,
    };
    match find_next_component(0, &description, replies) {
        Step::Done(component, used) => {
            let rest = slice_subrange(replies, used, replies.len());
            get_new_instance(component, rest).shift(used)
        },
        other => other,
    }
}

/// Allocates the unit's rendering resources.
pub fn init_unit(unit: u64, replies: &[Reply]) -> (step: Step<(), Error>)
    ensures
        step == command_step(Request::Initialize { unit }, replies@),
        step.within(replies@.len()),
{
    command(Request::Initialize { unit }, replies)
}

/// Frees the unit's rendering resources.
pub fn uninit_unit(unit: u64, replies: &[Reply]) -> (step: Step<(), Error>)
    ensures
        step == command_step(Request::Uninitialize { unit }, replies@),
        step.within(replies@.len()),
{
    command(Request::Uninitialize { unit }, replies)
}

/// Starts rendering.
pub fn start_unit(unit: u64, replies: &[Reply]) -> (step: Step<(), Error>)
    ensures
        step == command_step(Request::Start { unit }, replies@),
        step.within(replies@.len()),
{
    command(Request::Start { unit }, replies)
}

/// Stops rendering.
pub fn stop_unit(unit: u64, replies: &[Reply]) -> (step: Step<(), Error>)
    ensures
        step == command_step(Request::Stop { unit }, replies@),
        step.within(replies@.len()),
{
    command(Request::Stop { unit }, replies)
}

/// Queries the size of a property and whether it can be written.
pub fn get_property_info(unit: u64, id: u32, scope: u32, element: Element, replies: &[Reply]) -> (step:
    Step<(usize, bool), Error>)
    ensures
        step == property_info_step(unit, id, scope, element, replies@),
        step.within(replies@.len()),
{
    if replies.len() == 0 {
        return Step::Ask(
            Request::UnitPropertyInfo { unit, id, scope, element: element.index() },
        );
    }
    match &replies[0] {
        Reply::Info { status, size, writable } => settle(*status, (*size as usize, *writable), 1),
        _ => Step::Fault(Fault::UnexpectedReply),
    }
}

/// Reads a property as a value of `size` bytes.
pub fn get_property(
    unit: u64,
    id: u32,
    scope: u32,
    element: Element,
    size: usize,
    replies: &[Reply],
) -> (step: Step<Vec<u8>, Error>)
    ensures
        step@ == property_step(unit, id, scope, element, size, replies@),
        step.within(replies@.len()),
{
    if replies.len() == 0 {
        return Step::Ask(
            Request::UnitProperty { unit, id, scope, element: element.index(), size },
        );
    }
    match &replies[0] {
        Reply::Data { status, bytes } => {
            if bytes.len() == size {
                settle(*status, bytes.clone(), 1)
            } else {
                Step::Fault(Fault::UnexpectedReply)
            }
        },
        _ => Step::Fault(Fault::UnexpectedReply),
    }
}

/// Writes a property.
pub fn set_property(
    unit: u64,
    id: u32,
    scope: u32,
    element: Element,
    data: &UnitValue,
    replies: &[Reply],
) -> (step: Step<(), Error>)
    ensures
        step == set_property_step(unit, id, scope, element, *data, replies@),
        step.within(replies@.len()),
{
    command(
        Request::SetUnitProperty { unit, id, scope, element: element.index(), data: *data },
        replies,
    )
}

/// Looks for the first component after `component` that matches the
/// description; zero starts at the head of the list.
pub fn find_next_component(component: u64, description: &ComponentDescription, replies: &[Reply])
    -> (step: Step<u64, Error>)
    ensures
        step == find_step(component, *description, replies@),
        step.within(replies@.len()),
{
    if replies.len() == 0 {
        return Step::Ask(Request::FindComponent { after: component, description: *description });
    }
    match &replies[0] {
        Reply::Component(found) => {
            if *found == 0 {
                Step::Failed(Error::NoComponentFound, 1)
            } else {
                Step::Done(*found, 1)
            }
        },
        _ => Step::Fault(Fault::UnexpectedReply),
    }
}

/// Creates an instance of the component.
pub fn get_new_instance(component: u64, replies: &[Reply]) -> (step: Step<u64, Error>)
    ensures
        step == instance_step(component, replies@),
        step.within(replies@.len()),
{
    if replies.len() == 0 {
        return Step::Ask(Request::NewInstance { component });
    }
    match &replies[0] {
        Reply::Instance { status, instance } => settle(*status, *instance, 1),
        _ => Step::Fault(Fault::UnexpectedReply),
    }
}

impl AudioUnit {
    /// Creates the output unit that follows the default output device.
    pub fn new(replies: &[Reply]) -> (step: Step<AudioUnit, Error>)
        ensures
            step == (match create_step(replies@) {
                Step::Ask(request) => Step::Ask(request),
                Step::Done(unit, used) => Step::Done(AudioUnit(unit), used),
                Step::Failed(error, used) => Step::Failed(error, used),
                Step::Fault(fault) => Step::Fault(fault),
            }),
            step.within(replies@.len()),
    {
        match create_unit(replies) {
            Step::Ask(request) => Step::Ask(request),
            Step::Done(unit, used) => Step::Done(AudioUnit(unit), used),
            Step::Failed(error, used) => Step::Failed(error, used),
            Step::Fault(fault) => Step::Fault(fault),
        }
    }

    /// Queries the size of a property and whether it can be written.
    pub fn get_property_info(&self, id: u32, scope: u32, element: Element, replies: &[Reply]) -> (step:
        Step<(usize, bool), Error>)
        ensures
            step == property_info_step(self.0, id, scope, element, replies@),
            step.within(replies@.len()),
    {
        get_property_info(self.0, id, scope, element, replies)
    }

    /// Reads a property as a value of `size` bytes.
    pub fn get_property(
        &self,
        id: u32,
        scope: u32,
        element: Element,
        size: usize,
        replies: &[Reply],
    ) -> (step: Step<Vec<u8>, Error>)
        ensures
            step@ == property_step(self.0, id, scope, element, size, replies@),
            step.within(replies@.len()),
    {
        get_property(self.0, id, scope, element, size, replies)
    }

    /// Writes a property.
    pub fn set_property(
        &self,
        id: u32,
        scope: u32,
        element: Element,
        data: &UnitValue,
        replies: &[Reply],
    ) -> (step: Step<(), Error>)
        ensures
            step == set_property_step(self.0, id, scope, element, *data, replies@),
            step.within(replies@.len()),
    {
        set_property(self.0, id, scope, element, data, replies)
    }

    /// Allocates the unit's rendering resources.
    pub fn initialize(&self, replies: &[Reply]) -> (step: Step<(), Error>)
        ensures
            step == command_step(Request::Initialize { unit: self.0 }, replies@),
            step.within(replies@.len()),
    {
        init_unit(self.0, replies)
    }

    /// Frees the unit's rendering resources.
    pub fn uninitialize(&self, replies: &[Reply]) -> (step: Step<(), Error>)
        ensures
            step == command_step(Request::Uninitialize { unit: self.0 }, replies@),
            step.within(replies@.len()),
    {
        uninit_unit(self.0, replies)
    }

    /// Starts rendering.
    pub fn start(&self, replies: &[Reply]) -> (step: Step<(), Error>)
        ensures
            step == command_step(Request::Start { unit: self.0 }, replies@),
            step.within(replies@.len()),
    {
        start_unit(self.0, replies)
    }

    /// Stops rendering.
    pub fn stop(&self, replies: &[Reply]) -> (step: Step<(), Error>)
        ensures
            step == command_step(Request::Stop { unit: self.0 }, replies@),
            step.within(replies@.len()),
    {
        stop_unit(self.0, replies)
    }

    /// Gives the unit up: stops it and then uninitializes it. Neither call
    /// can make the teardown fail.
    pub fn teardown(&self, replies: &[Reply]) -> (step: Step<(), Error>)
        ensures
            step == teardown_step(self.0, replies@),
            step.within(replies@.len()),
            !(step is Failed),
    {
        if replies.len() == 0 {
            return Step::Ask(Request::Stop { unit: self.0 });
        }
        match &replies[0] {
            Reply::Status(_) => {},
            _ => {
                return Step::Fault(Fault::UnexpectedReply);
            },
        }
        if replies.len() == 1 {
            return Step::Ask(Request::Uninitialize { unit: self.0 });
        }
        match &replies[1] {
            Reply::Status(_) => Step::Done((), 2),
            _ => Step::Fault(Fault::UnexpectedReply),
        }
    }
}


/// What has settled stays settled: a call on a unit that has come to an end
/// comes to the same end whatever replies follow, and it accounts for no
/// more replies than it was given.
pub proof fn lemma_settled_for_good(
    unit: u64,
    request: Request,
    description: ComponentDescription,
    id: u32,
    scope: u32,
    element: Element,
    size: usize,
    data: UnitValue,
    replies: Seq<Reply>,
    more: Seq<Reply>,
)
    ensures
        in_order(command_step(request, replies), replies.len(), command_step(request, replies + more)),
        in_order(
            find_step(unit, description, replies),
            replies.len(),
            find_step(unit, description, replies + more),
        ),
        in_order(instance_step(unit, replies), replies.len(), instance_step(unit, replies + more)),
        in_order(create_step(replies), replies.len(), create_step(replies + more)),
        in_order(
            property_info_step(unit, id, scope, element, replies),
            replies.len(),
            property_info_step(unit, id, scope, element, replies + more),
        ),
        in_order(
            property_step(unit, id, scope, element, size, replies),
            replies.len(),
            property_step(unit, id, scope, element, size, replies + more),
        ),
        in_order(
            set_property_step(unit, id, scope, element, data, replies),
            replies.len(),
            set_property_step(unit, id, scope, element, data, replies + more),
        ),
        in_order(teardown_step(unit, replies), replies.len(), teardown_step(unit, replies + more)),
{
    if replies.len() > 0 {
        assert((replies + more)[0] == replies[0]);
        lemma_rest_of_longer(replies, more, 1);
        if replies.len() > 1 {
            assert((replies + more)[1] == replies[1]);
            assert((replies.skip(1) + more)[0] == replies.skip(1)[0]);
        }
    }
}

} // verus!
