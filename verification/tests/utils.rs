#![allow(dead_code, unused_imports)]
use rust_coreaudio::exchange::{Reply, Request, Step};
use rust_coreaudio::utils::audio_objects;
use rust_coreaudio::utils::audio_objects::property_address::PropertyAddress;
use rust_coreaudio::utils::{
    change_default_device, get_all_devices, get_default_device, get_device_info, get_devices,
    other_device,
    set_default_device, AudioObject, Error, GetObjectId, Scope,
};

// A stand-in for the native layer: a machine with a few devices, which
// answers each request as the native layer answers it.

const BAD_OBJECT: i32 = 0x216F_626A;
const UNKNOWN_PROPERTY: i32 = 0x7768_6F3F;
const INVALID_COMPONENT: i32 = -3000;
const NOT_INITIALIZED: i32 = -10867;
const COMPONENT: u64 = 0x1000;
const UNIT: u64 = 0x2000;

struct Device {
    id: u32,
    name: &'static str,
    inputs: u32,
    outputs: u32,
    source: Option<(u32, &'static str)>,
}

struct Machine {
    devices: Vec<Device>,
    default_input: u32,
    default_output: u32,
    strings: Vec<String>,
    released: Vec<u64>,
    initialized: bool,
    running: bool,
    log: Vec<Request>,
}

fn code(text: &str) -> u32 {
    let bytes = text.as_bytes();
    u32::from_be_bytes([bytes[0], bytes[1], bytes[2], bytes[3]])
}

impl Machine {
    fn new() -> Machine {
        Machine {
            devices: vec![
                Device { id: 40, name: "Built-in Microphone", inputs: 1, outputs: 0, source: Some((0x696D_6963, "Internal Microphone")) },
                Device { id: 47, name: "Built-in Output", inputs: 0, outputs: 1, source: Some((0x6973_706B, "Internal Speakers")) },
                Device { id: 52, name: "USB Headset", inputs: 1, outputs: 2, source: None },
            ],
            default_input: 40,
            default_output: 47,
            strings: Vec::new(),
            released: Vec::new(),
            initialized: false,
            running: false,
            log: Vec::new(),
        }
    }

    fn empty() -> Machine {
        let mut machine = Machine::new();
        machine.devices.clear();
        machine.default_input = 0;
        machine.default_output = 0;
        machine
    }

    fn string(&mut self, text: &str) -> u64 {
        self.strings.push(text.to_string());
        self.strings.len() as u64
    }

    fn streams(device: &Device, scope: u32) -> Vec<u32> {
        let (count, base) = if scope == code("inpt") {
            (device.inputs, device.id * 100)
        } else if scope == code("outp") {
            (device.outputs, device.id * 100 + 50)
        } else {
            (0, 0)
        };
        (0..count).map(|k| base + k).collect()
    }

    fn has_source(device: &Device, scope: u32) -> bool {
        device.source.is_some() && !Machine::streams(device, scope).is_empty()
    }

    // The data of a property, or the status that refuses it.
    fn property(&mut self, id: u32, address: &PropertyAddress) -> Result<Vec<u8>, i32> {
        let selector = address.selector;
        if id == 1 {
            if selector == code("dev#") {
                return Ok(self.devices.iter().flat_map(|d| d.id.to_le_bytes()).collect());
            }
            if selector == code("dIn ") {
                return Ok(self.default_input.to_le_bytes().to_vec());
            }
            if selector == code("dOut") {
                return Ok(self.default_output.to_le_bytes().to_vec());
            }
            return Err(UNKNOWN_PROPERTY);
        }
        if let Some(at) = self.devices.iter().position(|d| d.id == id) {
            if selector == code("stm#") {
                let list = Machine::streams(&self.devices[at], address.scope);
                return Ok(list.iter().flat_map(|s| s.to_le_bytes()).collect());
            }
            if selector == code("lnam") || selector == code("lmak") || selector == code("uid ") {
                let text = if selector == code("lnam") {
                    self.devices[at].name.to_string()
                } else if selector == code("lmak") {
                    "Acme".to_string()
                } else {
                    format!("device-{}", id)
                };
                let handle = self.string(&text);
                return Ok(handle.to_le_bytes().to_vec());
            }
            if selector == code("ssrc") && Machine::has_source(&self.devices[at], address.scope) {
                return Ok(self.devices[at].source.unwrap().0.to_le_bytes().to_vec());
            }
            if selector == code("lscn") && Machine::has_source(&self.devices[at], address.scope) {
                return Ok(vec![0; 32]);
            }
            if selector == code("ltnc") {
                return Ok(12u32.to_le_bytes().to_vec());
            }
            if selector == code("slay") {
                let list = Machine::streams(&self.devices[at], address.scope);
                let mut bytes = (list.len() as u32).to_le_bytes().to_vec();
                bytes.extend([0; 4]);
                for _ in &list {
                    bytes.extend(2u32.to_le_bytes());
                    bytes.extend([0; 12]);
                }
                return Ok(bytes);
            }
            return Err(UNKNOWN_PROPERTY);
        }
        let stream = self.devices.iter().any(|d| {
            Machine::streams(d, code("inpt")).contains(&id)
                || Machine::streams(d, code("outp")).contains(&id)
        });
        if stream {
            if selector == code("ltnc") {
                return Ok(3u32.to_le_bytes().to_vec());
            }
            return Err(UNKNOWN_PROPERTY);
        }
        Err(BAD_OBJECT)
    }

    fn answer(&mut self, request: &Request) -> Reply {
        self.log.push(*request);
        match *request {
            Request::HasProperty { id, address } => Reply::Flag(self.property(id, &address).is_ok()),
            Request::PropertyDataSize { id, address } => match self.property(id, &address) {
                Ok(data) => Reply::Size { status: 0, size: data.len() as u32 },
                Err(status) => Reply::Size { status, size: 0 },
            },
            Request::PropertyData { id, address, size } => match self.property(id, &address) {
                Ok(mut data) => {
                    data.resize(size, 0);
                    Reply::Data { status: 0, bytes: data }
                }
                Err(status) => Reply::Data { status, bytes: vec![0; size] },
            },
            Request::TranslatedData { id, address: _, input, size } => {
                let name = self
                    .devices
                    .iter()
                    .find(|d| d.id == id)
                    .and_then(|d| d.source)
                    .filter(|s| s.0 == input)
                    .map(|s| s.1);
                match name {
                    Some(text) => {
                        let mut bytes = self.string(text).to_le_bytes().to_vec();
                        bytes.resize(size, 0);
                        Reply::Data { status: 0, bytes }
                    }
                    None => Reply::Data { status: UNKNOWN_PROPERTY, bytes: vec![0; size] },
                }
            }
            Request::SetPropertyData { id, address, value } => {
                if id != 1 {
                    return Reply::Status(BAD_OBJECT);
                }
                if address.selector == code("dIn ") {
                    self.default_input = value;
                } else if address.selector == code("dOut") {
                    self.default_output = value;
                } else {
                    return Reply::Status(UNKNOWN_PROPERTY);
                }
                Reply::Status(0)
            }
            Request::StringLength { string } => {
                let text = &self.strings[string as usize - 1];
                Reply::Length(text.encode_utf16().count() as isize)
            }
            Request::StringBytes { string, length: _, capacity } => {
                let text = &self.strings[string as usize - 1];
                let mut bytes = text.as_bytes().to_vec();
                let used = bytes.len() as isize;
                bytes.resize(capacity, 0);
                Reply::Bytes { converted: text.encode_utf16().count() as isize, used, bytes }
            }
            Request::StringRelease { string } => {
                self.released.push(string);
                Reply::Released
            }
            Request::FindComponent { after: _, description } => {
                let found = description.component_type == code("auou")
                    && description.component_sub_type == code("def ")
                    && description.component_manufacturer == code("appl");
                Reply::Component(if found { COMPONENT } else { 0 })
            }
            Request::NewInstance { component } => {
                if component == COMPONENT {
                    Reply::Instance { status: 0, instance: UNIT }
                } else {
                    Reply::Instance { status: INVALID_COMPONENT, instance: 0 }
                }
            }
            Request::UnitPropertyInfo { .. } => Reply::Info { status: 0, size: 40, writable: true },
            Request::UnitProperty { size, .. } => Reply::Data { status: 0, bytes: vec![0; size] },
            Request::SetUnitProperty { .. } => Reply::Status(0),
            Request::Initialize { .. } => {
                self.initialized = true;
                Reply::Status(0)
            }
            Request::Uninitialize { .. } => {
                self.initialized = false;
                self.running = false;
                Reply::Status(0)
            }
            Request::Start { .. } => {
                if !self.initialized {
                    return Reply::Status(NOT_INITIALIZED);
                }
                self.running = true;
                Reply::Status(0)
            }
            Request::Stop { .. } => {
                self.running = false;
                Reply::Status(0)
            }
        }
    }
}

// Carries an operation through: answers each request that it makes and hands
// it the replies so far, until it settles.
fn run<T, E>(machine: &mut Machine, mut operation: impl FnMut(&[Reply]) -> Step<T, E>) -> Result<T, E> {
    let mut replies: Vec<Reply> = Vec::new();
    loop {
        match operation(&replies) {
            Step::Ask(request) => {
                let reply = machine.answer(&request);
                replies.push(reply);
            }
            Step::Done(value, used) => {
                assert_eq!(used, replies.len());
                return Ok(value);
            }
            Step::Failed(error, used) => {
                assert_eq!(used, replies.len());
                return Err(error);
            }
            Step::Fault(fault) => panic!("the exchange broke down: {:?}", fault),
        }
    }
}


// get_default_device
// ------------------------------------
#[test]
fn test_get_default_device() {
    let mut machine = Machine::new();
    // If we have default input/output devices, then they must be valid ids.
    if let Ok(device) = run(&mut machine, |r| get_default_device(&Scope::Input, r)) {
        assert!(device.is_valid());
    }

    if let Ok(device) = run(&mut machine, |r| get_default_device(&Scope::Output, r)) {
        assert!(device.is_valid());
    }
}

#[test]
fn default_devices_are_those_of_the_machine() {
    let mut machine = Machine::new();
    let input = run(&mut machine, |r| get_default_device(&Scope::Input, r)).unwrap();
    let output = run(&mut machine, |r| get_default_device(&Scope::Output, r)).unwrap();
    assert_eq!(input, AudioObject::new(40));
    assert_eq!(output.get_id(), 47);
}

#[test]
fn no_default_device_is_an_error() {
    let mut machine = Machine::empty();
    assert_eq!(
        run(&mut machine, |r| get_default_device(&Scope::Input, r)).unwrap_err(),
        Error::AudioObjects(audio_objects::Error::NoDeviceFound)
    );
    assert_eq!(
        run(&mut machine, |r| get_default_device(&Scope::Output, r)).unwrap_err(),
        Error::AudioObjects(audio_objects::Error::NoDeviceFound)
    );
}

// get_devices
// ------------------------------------
#[test]
fn test_get_devices() {
    let mut machine = Machine::new();
    if run(&mut machine, |r| get_default_device(&Scope::Input, r)).is_ok() {
        assert!(!run(&mut machine, |r| get_devices(&Scope::Input, r)).unwrap().is_empty());
    }

    if run(&mut machine, |r| get_default_device(&Scope::Output, r)).is_ok() {
        assert!(!run(&mut machine, |r| get_devices(&Scope::Output, r)).unwrap().is_empty());
    }
}

#[test]
fn devices_are_filtered_by_side_in_their_order() {
    let mut machine = Machine::new();
    let inputs = run(&mut machine, |r| get_devices(&Scope::Input, r)).unwrap();
    let outputs = run(&mut machine, |r| get_devices(&Scope::Output, r)).unwrap();
    assert_eq!(inputs, vec![AudioObject::new(40), AudioObject::new(52)]);
    assert_eq!(outputs, vec![AudioObject::new(47), AudioObject::new(52)]);
}

#[test]
fn a_failing_probe_ends_the_listing() {
    // The list names a device that the native layer then takes for none.
    let replies = vec![
        Reply::Size { status: 0, size: 8 },
        Reply::Data { status: 0, bytes: vec![40, 0, 0, 0, 41, 0, 0, 0] },
        Reply::Size { status: 0, size: 4 },
        Reply::Size { status: BAD_OBJECT, size: 0 },
    ];
    assert_eq!(
        get_devices(&Scope::Input, &replies),
        Step::Failed(
            Error::AudioObjects(audio_objects::Error::InvalidParameters(
                audio_objects::audio_object_utils::Error::BadObject
            )),
            4
        )
    );
}

// get_all_devices
// ------------------------------------
#[test]
fn test_get_all_devices() {
    let mut machine = Machine::new();
    if run(&mut machine, |r| get_default_device(&Scope::Input, r)).is_ok()
        || run(&mut machine, |r| get_default_device(&Scope::Output, r)).is_ok()
    {
        assert!(!run(&mut machine, |r| get_all_devices(r)).unwrap().is_empty());
    }
}

#[test]
fn all_devices_are_listed_in_their_order() {
    let mut machine = Machine::new();
    let devices = run(&mut machine, |r| get_all_devices(r)).unwrap();
    assert_eq!(devices, vec![AudioObject::new(40), AudioObject::new(47), AudioObject::new(52)]);
}

#[test]
fn an_empty_list_of_devices_is_an_error() {
    let mut machine = Machine::empty();
    assert_eq!(
        run(&mut machine, |r| get_all_devices(r)).unwrap_err(),
        Error::AudioObjects(audio_objects::Error::InvalidParameters(
            audio_objects::audio_object_utils::Error::SizeIsZero
        ))
    );
}

// set_default_device
// ------------------------------------
#[test]
fn test_set_default_device_with_invalid_id() {
    let mut machine = Machine::new();
    let unknown_device = audio_objects::AudioObject::default();
    assert!(!run(&mut machine, |r| set_default_device(&unknown_device, &Scope::Input, r)).is_ok());
    assert!(!run(&mut machine, |r| set_default_device(&unknown_device, &Scope::Output, r)).is_ok());
}

#[test]
fn test_set_default_device_with_same_device() {
    let mut machine = Machine::new();
    if let Ok(device) = run(&mut machine, |r| get_default_device(&Scope::Input, r)) {
        assert!(device.is_valid());
        assert_eq!(
            run(&mut machine, |r| set_default_device(&device, &Scope::Input, r)).unwrap_err(),
            Error::AudioObjects(audio_objects::Error::SetSameDevice)
        );
    }

    if let Ok(device) = run(&mut machine, |r| get_default_device(&Scope::Output, r)) {
        assert!(device.is_valid());
        assert_eq!(
            run(&mut machine, |r| set_default_device(&device, &Scope::Output, r)).unwrap_err(),
            Error::AudioObjects(audio_objects::Error::SetSameDevice)
        );
    }
}

#[test]
fn test_set_default_device_with_invalid_scope() {
    let mut machine = Machine::new();
    if let Ok(device) = run(&mut machine, |r| get_default_device(&Scope::Input, r)) {
        assert!(device.is_valid());
        let is_output = run(&mut machine, |r| device.in_scope(&Scope::Output, r)).unwrap();
        if !is_output {
            assert_eq!(
                run(&mut machine, |r| set_default_device(&device, &Scope::Output, r)).unwrap_err(),
                Error::AudioObjects(audio_objects::Error::WrongScope)
            );
        }
    }

    if let Ok(device) = run(&mut machine, |r| get_default_device(&Scope::Output, r)) {
        assert!(device.is_valid());
        let is_input = run(&mut machine, |r| device.in_scope(&Scope::Input, r)).unwrap();
        if !is_input {
            assert_eq!(
                run(&mut machine, |r| set_default_device(&device, &Scope::Input, r)).unwrap_err(),
                Error::AudioObjects(audio_objects::Error::WrongScope)
            );
        }
    }
}

fn test_change_default_device(machine: &mut Machine, scope: &Scope) {
    let devices = run(machine, |r| get_devices(scope, r)).unwrap_or_default();
    if devices.len() < 2 {
        return;
    }

    let current_device = run(machine, |r| get_default_device(scope, r)).unwrap();
    let new_device = devices
        .into_iter()
        .find(|ref device| device != &&current_device)
        .unwrap();
    assert!(run(machine, |r| set_default_device(&new_device, scope, r)).is_ok());
}

#[test]
fn test_set_default_device() {
    let mut machine = Machine::new();
    test_change_default_device(&mut machine, &Scope::Input);
    test_change_default_device(&mut machine, &Scope::Output);
    assert_eq!(machine.default_input, 52);
    assert_eq!(machine.default_output, 52);
}

#[test]
fn a_default_that_was_set_is_read_back() {
    let mut machine = Machine::new();
    let headset = AudioObject::new(52);
    run(&mut machine, |r| set_default_device(&headset, &Scope::Output, r)).unwrap();
    assert_eq!(run(&mut machine, |r| get_default_device(&Scope::Output, r)).unwrap(), headset);
    // The other side is as it was.
    assert_eq!(
        run(&mut machine, |r| get_default_device(&Scope::Input, r)).unwrap(),
        AudioObject::new(40)
    );
}

#[test]
fn a_refused_device_is_never_written() {
    let mut machine = Machine::new();
    let microphone = AudioObject::new(40);
    assert!(run(&mut machine, |r| set_default_device(&microphone, &Scope::Input, r)).is_err());
    assert!(run(&mut machine, |r| set_default_device(&microphone, &Scope::Output, r)).is_err());
    assert!(machine.log.iter().all(|request| !matches!(request, Request::SetPropertyData { .. })));
    assert_eq!(machine.default_input, 40);
    assert_eq!(machine.default_output, 47);
}

#[test]
fn the_write_names_the_property_of_the_side_and_the_device() {
    let mut machine = Machine::new();
    let headset = AudioObject::new(52);
    run(&mut machine, |r| set_default_device(&headset, &Scope::Input, r)).unwrap();
    let write = *machine.log.last().unwrap();
    assert_eq!(
        write,
        Request::SetPropertyData {
            id: 1,
            address: PropertyAddress { selector: 0x6449_6E20, scope: 0x676C_6F62, element: 0 },
            value: 52,
        }
    );
}

// change_default_device
// ------------------------------------
#[test]
fn the_default_moves_on_to_the_first_other_device() {
    let mut machine = Machine::new();
    assert_eq!(
        run(&mut machine, |r| change_default_device(&Scope::Input, r)),
        Ok(Some(AudioObject::new(52)))
    );
    assert_eq!(machine.default_input, 52);
    assert_eq!(
        run(&mut machine, |r| change_default_device(&Scope::Input, r)),
        Ok(Some(AudioObject::new(40)))
    );
    assert_eq!(machine.default_input, 40);
    assert_eq!(machine.default_output, 47);
}

#[test]
fn with_fewer_than_two_devices_the_default_stays() {
    let mut machine = Machine::new();
    machine.devices.remove(2);
    assert_eq!(run(&mut machine, |r| change_default_device(&Scope::Output, r)), Ok(None));
    assert_eq!(machine.default_output, 47);
    let mut none = Machine::empty();
    assert_eq!(run(&mut none, |r| change_default_device(&Scope::Output, r)), Ok(None));
    assert!(none.log.iter().all(|request| !matches!(request, Request::SetPropertyData { .. })));
}

#[test]
fn the_first_other_device_is_found() {
    let a = AudioObject::new(1);
    let b = AudioObject::new(2);
    let c = AudioObject::new(3);
    assert_eq!(other_device(&[a, b, c], &a), Some(b));
    assert_eq!(other_device(&[a, b, c], &b), Some(a));
    assert_eq!(other_device(&[a, a, c], &a), Some(c));
    assert_eq!(other_device(&[a, a], &a), None);
    assert_eq!(other_device(&[], &a), None);
}

// get_device_info
// ------------------------------------
#[test]
fn a_device_shows_its_label_and_whether_it_is_the_default() {
    let mut machine = Machine::new();
    let microphone = AudioObject::new(40);
    let headset = AudioObject::new(52);
    assert_eq!(
        run(&mut machine, |r| get_device_info(&microphone, &Scope::Input, r)),
        Ok(Some((true, String::from("Internal Microphone"))))
    );
    assert_eq!(run(&mut machine, |r| get_device_info(&microphone, &Scope::Output, r)), Ok(None));
    assert_eq!(
        run(&mut machine, |r| get_device_info(&headset, &Scope::Input, r)),
        Ok(Some((false, String::from("USB Headset"))))
    );
    assert_eq!(
        run(&mut machine, |r| get_device_info(&headset, &Scope::Output, r)),
        Ok(Some((false, String::from("USB Headset"))))
    );
    assert_eq!(
        run(&mut machine, |r| get_device_info(&AudioObject::new(0), &Scope::Output, r)),
        Err(Error::AudioObjects(audio_objects::Error::InvalidParameters(
            audio_objects::audio_object_utils::Error::BadObject
        )))
    );
}
