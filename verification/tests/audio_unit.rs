#![allow(dead_code, unused_imports)]
use rust_coreaudio::exchange::{Fault, Reply, Request, Step};
use rust_coreaudio::stream::audio_unit::{
    convert_to_result, create_unit, find_next_component, get_new_instance, get_property,
    get_property_info, init_unit, is_recognised, set_property, start_unit, status_to_error,
    stop_unit, uninit_unit, AudioUnit, ComponentDescription, Element, Error, UnitValue,
};
use rust_coreaudio::utils::audio_objects::property_address::PropertyAddress;

// A stand-in for the native layer: a machine with a few devices, which
// answers each request as the native layer answers it.

const BAD_OBJECT: i32 = 0x216F_626A;
const UNKNOWN_PROPERTY: i32 = 0x7768_6F3F;
const INVALID_COMPONENT: i32 = -3000;
const NOT_INITIALIZED: i32 = -10867;
const COMPONENT: u64 = 0x1000;
const UNIT: u64 = 0x2000;

struct Device {
    id: u32,
    name: &'static str,
    inputs: u32,
    outputs: u32,
    source: Option<(u32, &'static str)>,
}

struct Machine {
    devices: Vec<Device>,
    default_input: u32,
    default_output: u32,
    strings: Vec<String>,
    released: Vec<u64>,
    initialized: bool,
    running: bool,
    log: Vec<Request>,
}

fn code(text: &str) -> u32 {
    let bytes = text.as_bytes();
    u32::from_be_bytes([bytes[0], bytes[1], bytes[2], bytes[3]])
}

impl Machine {
    fn new() -> Machine {
        Machine {
            devices: vec![
                Device { id: 40, name: "Built-in Microphone", inputs: 1, outputs: 0, source: Some((0x696D_6963, "Internal Microphone")) },
                Device { id: 47, name: "Built-in Output", inputs: 0, outputs: 1, source: Some((0x6973_706B, "Internal Speakers")) },
                Device { id: 52, name: "USB Headset", inputs: 1, outputs: 2, source: None },
            ],
            default_input: 40,
            default_output: 47,
            strings: Vec::new(),
            released: Vec::new(),
            initialized: false,
            running: false,
            log: Vec::new(),
        }
    }

    fn empty() -> Machine {
        let mut machine = Machine::new();
        machine.devices.clear();
        machine.default_input = 0;
        machine.default_output = 0;
        machine
    }

    fn string(&mut self, text: &str) -> u64 {
        self.strings.push(text.to_string());
        self.strings.len() as u64
    }

    fn streams(device: &Device, scope: u32) -> Vec<u32> {
        let (count, base) = if scope == code("inpt") {
            (device.inputs, device.id * 100)
        } else if scope == code("outp") {
            (device.outputs, device.id * 100 + 50)
        } else {
            (0, 0)
        };
        (0..count).map(|k| base + k).collect()
    }

    fn has_source(device: &Device, scope: u32) -> bool {
        device.source.is_some() && !Machine::streams(device, scope).is_empty()
    }

    // The data of a property, or the status that refuses it.
    fn property(&mut self, id: u32, address: &PropertyAddress) -> Result<Vec<u8>, i32> {
        let selector = address.selector;
        if id == 1 {
            if selector == code("dev#") {
                return Ok(self.devices.iter().flat_map(|d| d.id.to_le_bytes()).collect());
            }
            if selector == code("dIn ") {
                return Ok(self.default_input.to_le_bytes().to_vec());
            }
            if selector == code("dOut") {
                return Ok(self.default_output.to_le_bytes().to_vec());
            }
            return Err(UNKNOWN_PROPERTY);
        }
        if let Some(at) = self.devices.iter().position(|d| d.id == id) {
            if selector == code("stm#") {
                let list = Machine::streams(&self.devices[at], address.scope);
                return Ok(list.iter().flat_map(|s| s.to_le_bytes()).collect());
            }
            if selector == code("lnam") || selector == code("lmak") || selector == code("uid ") {
                let text = if selector == code("lnam") {
                    self.devices[at].name.to_string()
                } else if selector == code("lmak") {
                    "Acme".to_string()
                } else {
                    format!("device-{}", id)
                };
                let handle = self.string(&text);
                return Ok(handle.to_le_bytes().to_vec());
            }
            if selector == code("ssrc") && Machine::has_source(&self.devices[at], address.scope) {
                return Ok(self.devices[at].source.unwrap().0.to_le_bytes().to_vec());
            }
            if selector == code("lscn") && Machine::has_source(&self.devices[at], address.scope) {
                return Ok(vec![0; 32]);
            }
            if selector == code("ltnc") {
                return Ok(12u32.to_le_bytes().to_vec());
            }
            if selector == code("slay") {
                let list = Machine::streams(&self.devices[at], address.scope);
                let mut bytes = (list.len() as u32).to_le_bytes().to_vec();
                bytes.extend([0; 4]);
                for _ in &list {
                    bytes.extend(2u32.to_le_bytes());
                    bytes.extend([0; 12]);
                }
                return Ok(bytes);
            }
            return Err(UNKNOWN_PROPERTY);
        }
        let stream = self.devices.iter().any(|d| {
            Machine::streams(d, code("inpt")).contains(&id)
                || Machine::streams(d, code("outp")).contains(&id)
        });
        if stream {
            if selector == code("ltnc") {
                return Ok(3u32.to_le_bytes().to_vec());
            }
            return Err(UNKNOWN_PROPERTY);
        }
        Err(BAD_OBJECT)
    }

    fn answer(&mut self, request: &Request) -> Reply {
        self.log.push(*request);
        match *request {
            Request::HasProperty { id, address } => Reply::Flag(self.property(id, &address).is_ok()),
            Request::PropertyDataSize { id, address } => match self.property(id, &address) {
                Ok(data) => Reply::Size { status: 0, size: data.len() as u32 },
                Err(status) => Reply::Size { status, size: 0 },
            },
            Request::PropertyData { id, address, size } => match self.property(id, &address) {
                Ok(mut data) => {
                    data.resize(size, 0);
                    Reply::Data { status: 0, bytes: data }
                }
                Err(status) => Reply::Data { status, bytes: vec![0; size] },
            },
            Request::TranslatedData { id, address: _, input, size } => {
                let name = self
                    .devices
                    .iter()
                    .find(|d| d.id == id)
                    .and_then(|d| d.source)
                    .filter(|s| s.0 == input)
                    .map(|s| s.1);
                match name {
                    Some(text) => {
                        let mut bytes = self.string(text).to_le_bytes().to_vec();
                        bytes.resize(size, 0);
                        Reply::Data { status: 0, bytes }
                    }
                    None => Reply::Data { status: UNKNOWN_PROPERTY, bytes: vec![0; size] },
                }
            }
            Request::SetPropertyData { id, address, value } => {
                if id != 1 {
                    return Reply::Status(BAD_OBJECT);
                }
                if address.selector == code("dIn ") {
                    self.default_input = value;
                } else if address.selector == code("dOut") {
                    self.default_output = value;
                } else {
                    return Reply::Status(UNKNOWN_PROPERTY);
                }
                Reply::Status(0)
            }
            Request::StringLength { string } => {
                let text = &self.strings[string as usize - 1];
                Reply::Length(text.encode_utf16().count() as isize)
            }
            Request::StringBytes { string, length: _, capacity } => {
                let text = &self.strings[string as usize - 1];
                let mut bytes = text.as_bytes().to_vec();
                let used = bytes.len() as isize;
                bytes.resize(capacity, 0);
                Reply::Bytes { converted: text.encode_utf16().count() as isize, used, bytes }
            }
            Request::StringRelease { string } => {
                self.released.push(string);
                Reply::Released
            }
            Request::FindComponent { after: _, description } => {
                let found = description.component_type == code("auou")
                    && description.component_sub_type == code("def ")
                    && description.component_manufacturer == code("appl");
                Reply::Component(if found { COMPONENT } else { 0 })
            }
            Request::NewInstance { component } => {
                if component == COMPONENT {
                    Reply::Instance { status: 0, instance: UNIT }
                } else {
                    Reply::Instance { status: INVALID_COMPONENT, instance: 0 }
                }
            }
            Request::UnitPropertyInfo { .. } => Reply::Info { status: 0, size: 40, writable: true },
            Request::UnitProperty { size, .. } => Reply::Data { status: 0, bytes: vec![0; size] },
            Request::SetUnitProperty { .. } => Reply::Status(0),
            Request::Initialize { .. } => {
                self.initialized = true;
                Reply::Status(0)
            }
            Request::Uninitialize { .. } => {
                self.initialized = false;
                self.running = false;
                Reply::Status(0)
            }
            Request::Start { .. } => {
                if !self.initialized {
                    return Reply::Status(NOT_INITIALIZED);
                }
                self.running = true;
                Reply::Status(0)
            }
            Request::Stop { .. } => {
                self.running = false;
                Reply::Status(0)
            }
        }
    }
}

// Carries an operation through: answers each request that it makes and hands
// it the replies so far, until it settles.
fn run<T, E>(machine: &mut Machine, mut operation: impl FnMut(&[Reply]) -> Step<T, E>) -> Result<T, E> {
    let mut replies: Vec<Reply> = Vec::new();
    loop {
        match operation(&replies) {
            Step::Ask(request) => {
                let reply = machine.answer(&request);
                replies.push(reply);
            }
            Step::Done(value, used) => {
                assert_eq!(used, replies.len());
                return Ok(value);
            }
            Step::Failed(error, used) => {
                assert_eq!(used, replies.len());
                return Err(error);
            }
            Step::Fault(fault) => panic!("the exchange broke down: {:?}", fault),
        }
    }
}


fn output_description() -> ComponentDescription {
    ComponentDescription {
        component_type: code("auou"),
        component_sub_type: code("def "),
        component_manufacturer: code("appl"),
        component_flags: 0,
        component_flags_mask: 0,
    }
}

// create_unit
// ------------------------------------
#[test]
fn test_create_unit() {
    let mut machine = Machine::new();
    let output = run(&mut machine, |r| create_unit(r)).unwrap();
    assert!(output != 0);
}

#[test]
fn the_unit_is_found_and_then_created() {
    let mut replies: Vec<Reply> = Vec::new();
    assert_eq!(
        create_unit(&replies),
        Step::Ask(Request::FindComponent {
            after: 0,
            description: ComponentDescription {
                component_type: 0x6175_6F75,
                component_sub_type: 0x6465_6620,
                component_manufacturer: 0x6170_706C,
                component_flags: 0,
                component_flags_mask: 0,
            },
        })
    );
    replies.push(Reply::Component(77));
    assert_eq!(create_unit(&replies), Step::Ask(Request::NewInstance { component: 77 }));
    replies.push(Reply::Instance { status: 0, instance: 99 });
    assert_eq!(create_unit(&replies), Step::Done(99, 2));
    assert_eq!(AudioUnit::new(&replies), Step::Done(AudioUnit(99), 2));
}

// find_next_component
// ------------------------------------
#[test]
fn test_find_next_component_with_invalid_description() {
    let mut machine = Machine::new();
    let desc = ComponentDescription {
        component_type: code("aufx"),
        component_sub_type: code("def "),
        component_manufacturer: code("appl"),
        component_flags: 0,
        component_flags_mask: 0,
    };
    assert_eq!(
        run(&mut machine, |r| find_next_component(0, &desc, r)).unwrap_err(),
        Error::NoComponentFound
    );
}

#[test]
fn test_find_next_component() {
    let mut machine = Machine::new();
    let desc = output_description();
    let component = run(&mut machine, |r| find_next_component(0, &desc, r)).unwrap();
    assert!(component != 0);
}

// get_new_instance
// ------------------------------------
#[test]
fn test_get_new_instance_with_invalid_component() {
    let mut machine = Machine::new();
    assert_eq!(
        run(&mut machine, |r| get_new_instance(0, r)).unwrap_err(),
        Error::InvalidComponentID
    );
}

#[test]
fn test_get_new_instance() {
    let mut machine = Machine::new();
    let desc = output_description();
    let component = run(&mut machine, |r| find_next_component(0, &desc, r)).unwrap();
    let instance = run(&mut machine, |r| get_new_instance(component, r)).unwrap();
    assert!(instance != 0);
}

#[test]
fn no_component_means_no_unit() {
    assert_eq!(create_unit(&[Reply::Component(0)]), Step::Failed(Error::NoComponentFound, 1));
    assert_eq!(AudioUnit::new(&[Reply::Component(0)]), Step::Failed(Error::NoComponentFound, 1));
    assert_eq!(
        create_unit(&[Reply::Component(5), Reply::Instance { status: -3000, instance: 0 }]),
        Step::Failed(Error::InvalidComponentID, 2)
    );
}

// statuses
// ------------------------------------
#[test]
fn each_status_of_a_unit_is_its_error() {
    assert_eq!(status_to_error(-3000), Error::InvalidComponentID);
    assert_eq!(status_to_error(-10865), Error::PropertyNotWritable);
    assert_eq!(status_to_error(-10867), Error::Uninitialized);
    assert_eq!(convert_to_result(0), Ok(()));
    assert_eq!(convert_to_result(-10867), Err(Error::Uninitialized));
    assert!(is_recognised(0));
    assert!(is_recognised(-3000));
    assert!(is_recognised(-10865));
    assert!(is_recognised(-10867));
    assert!(!is_recognised(-10866));
    assert!(!is_recognised(1));
    assert_eq!(start_unit(9, &[Reply::Status(-10866)]), Step::Fault(Fault::UnknownStatus(-10866)));
    assert_eq!(start_unit(9, &[Reply::Flag(true)]), Step::Fault(Fault::UnexpectedReply));
}

// properties
// ------------------------------------
#[test]
fn properties_of_a_unit_are_read_and_written() {
    let unit = AudioUnit(9);
    assert_eq!(Element::Output.index(), 0);
    assert_eq!(Element::Input.index(), 1);
    assert_eq!(
        unit.get_property_info(8, 1, Element::Input, &[]),
        Step::Ask(Request::UnitPropertyInfo { unit: 9, id: 8, scope: 1, element: 1 })
    );
    assert_eq!(
        unit.get_property_info(
            8,
            1,
            Element::Input,
            &[Reply::Info { status: 0, size: 40, writable: true }]
        ),
        Step::Done((40, true), 1)
    );
    assert_eq!(
        get_property_info(9, 8, 1, Element::Input, &[Reply::Status(0)]),
        Step::Fault(Fault::UnexpectedReply)
    );
    assert_eq!(
        unit.get_property(8, 1, Element::Output, 4, &[]),
        Step::Ask(Request::UnitProperty { unit: 9, id: 8, scope: 1, element: 0, size: 4 })
    );
    assert_eq!(
        unit.get_property(
            8,
            1,
            Element::Output,
            4,
            &[Reply::Data { status: 0, bytes: vec![1, 2, 3, 4] }]
        ),
        Step::Done(vec![1, 2, 3, 4], 1)
    );
    assert_eq!(
        get_property(9, 8, 1, Element::Output, 4, &[Reply::Data { status: 0, bytes: vec![1, 2] }]),
        Step::Fault(Fault::UnexpectedReply)
    );
    assert_eq!(
        unit.set_property(23, 1, Element::Output, &UnitValue::RenderCallback, &[]),
        Step::Ask(Request::SetUnitProperty {
            unit: 9,
            id: 23,
            scope: 1,
            element: 0,
            data: UnitValue::RenderCallback,
        })
    );
    assert_eq!(
        set_property(
            9,
            23,
            1,
            Element::Output,
            &UnitValue::RenderCallback,
            &[Reply::Status(-10865)]
        ),
        Step::Failed(Error::PropertyNotWritable, 1)
    );
}

// life cycle
// ------------------------------------
#[test]
fn a_unit_that_is_not_initialized_does_not_start() {
    let mut machine = Machine::new();
    let unit = run(&mut machine, |r| AudioUnit::new(r)).unwrap();
    assert_eq!(run(&mut machine, |r| unit.start(r)), Err(Error::Uninitialized));
    assert_eq!(run(&mut machine, |r| unit.initialize(r)), Ok(()));
    assert_eq!(run(&mut machine, |r| unit.start(r)), Ok(()));
    assert!(machine.running);
    assert_eq!(run(&mut machine, |r| unit.stop(r)), Ok(()));
    assert_eq!(run(&mut machine, |r| unit.stop(r)), Ok(()));
    assert_eq!(run(&mut machine, |r| unit.uninitialize(r)), Ok(()));
    assert!(!machine.initialized);
    assert_eq!(init_unit(3, &[]), Step::Ask(Request::Initialize { unit: 3 }));
    assert_eq!(uninit_unit(3, &[]), Step::Ask(Request::Uninitialize { unit: 3 }));
    assert_eq!(start_unit(3, &[]), Step::Ask(Request::Start { unit: 3 }));
    assert_eq!(stop_unit(3, &[]), Step::Ask(Request::Stop { unit: 3 }));
}

#[test]
fn a_teardown_stops_and_then_uninitializes_whatever_comes_back() {
    let unit = AudioUnit(9);
    let mut replies: Vec<Reply> = Vec::new();
    assert_eq!(unit.teardown(&replies), Step::Ask(Request::Stop { unit: 9 }));
    replies.push(Reply::Status(-10867));
    assert_eq!(unit.teardown(&replies), Step::Ask(Request::Uninitialize { unit: 9 }));
    replies.push(Reply::Status(12345));
    assert_eq!(unit.teardown(&replies), Step::Done((), 2));
}
