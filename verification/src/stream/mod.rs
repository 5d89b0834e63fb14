//! A playback stream on the default output device: its format, its life
//! cycle, and the check of every buffer list that the real-time thread is
//! handed.
//!
//! A stream is set up in three stages, each of which happens once: the
//! format is written, the render callback is registered, and the unit is
//! initialized. From then on it can be started and stopped any number of
//! times, until it is torn down.
use vstd::prelude::*;
use vstd::slice::slice_subrange;

pub mod audio_unit;

use self::audio_unit::command_step;
use self::audio_unit::create_step;
use self::audio_unit::teardown_step;
use self::audio_unit::AudioUnit;
use self::audio_unit::Element;
use self::audio_unit::UnitValue;
use crate::exchange::Reply;
use crate::exchange::Request;
use crate::exchange::Step;
use crate::utils::audio_objects::property_address::four_cc;

verus! {

/// Why a call on a stream failed.
#[derive(Clone, Copy, PartialEq, Eq, Debug, Structural)]
pub enum Error {
    AudioUnit(audio_unit::Error),
}

impl From<audio_unit::Error> for Error {
    fn from(e: audio_unit::Error) -> (error: Error) {
        Error::AudioUnit(e)
    }
}

impl vstd::std_specs::convert::FromSpecImpl<audio_unit::Error> for Error {
    open spec fn obeys_from_spec() -> bool {
        true
    }

    open spec fn from_spec(e: audio_unit::Error) -> Error {
        Error::AudioUnit(e)
    }
}

/// The property of an audio unit that holds the format of its samples.
pub const PROPERTY_STREAM_FORMAT: u32 = 8;

/// The property of an audio unit that holds its render callback.
pub const PROPERTY_SET_RENDER_CALLBACK: u32 = 23;

/// The scope of what an audio unit is fed.
pub const SCOPE_INPUT: u32 = 1;

/// `lpcm`: uncompressed samples, one after the other.
pub const FORMAT_LINEAR_PCM: u32 = 0x6C70_636D;

/// The samples are floating-point numbers.
pub const FLAG_IS_FLOAT: u32 = 1;

/// The samples are signed integers.
pub const FLAG_IS_SIGNED_INTEGER: u32 = 4;

/// The samples fill all the bits of their bytes.
pub const FLAG_IS_PACKED: u32 = 8;

/// Every channel has a buffer of its own.
pub const FLAG_IS_NON_INTERLEAVED: u32 = 32;

/// The status that lets the native layer go on rendering.
pub const RENDER_CONTINUE: i32 = 0;

/// The type of the samples of a stream.
#[derive(Clone, Copy, PartialEq, Eq, Debug, Structural)]
pub enum Format {
    /// Signed 16-bit integers, little-endian.
    S16LE,
    /// 32-bit floating-point numbers, little-endian.
    F32LE,
}

impl Format {
    /// The size of one sample in bytes.
    pub open spec fn spec_byte_size(&self) -> usize {
        match self {
            Format::S16LE => 2,
            Format::F32LE => 4,
        }
    }

    /// The size of one sample in bytes.
    #[verifier::when_used_as_spec(spec_byte_size)]
    pub fn byte_size(&self) -> (size: usize)
        ensures
            size == self.spec_byte_size(),
    {
        match self {
            Format::S16LE => 2,
            Format::F32LE => 4,
        }
    }

    /// The flags of the format: the kind of its samples, and that they are
    /// packed and not interleaved.
    pub open spec fn spec_format_flags(&self) -> u32 {
        match self {
            Format::S16LE => 44,
            Format::F32LE => 41,
        }
    }

    /// The flags of the format: the kind of its samples, and that they are
    /// packed and not interleaved.
    #[verifier::when_used_as_spec(spec_format_flags)]
    pub fn to_format_flags(&self) -> (flags: u32)
        ensures
            flags == self.spec_format_flags(),
            flags & FLAG_IS_PACKED == FLAG_IS_PACKED,
            flags & FLAG_IS_NON_INTERLEAVED == FLAG_IS_NON_INTERLEAVED,
            (flags & FLAG_IS_FLOAT == FLAG_IS_FLOAT) <==> *self == Format::F32LE,
            (flags & FLAG_IS_SIGNED_INTEGER == FLAG_IS_SIGNED_INTEGER) <==> *self == Format::S16LE,
    {
        let kind: u32 = match self {
            Format::S16LE => FLAG_IS_SIGNED_INTEGER,
            Format::F32LE => FLAG_IS_FLOAT,
        };
        let flags: u32 = kind | FLAG_IS_PACKED | FLAG_IS_NON_INTERLEAVED;
        assert(4u32 | 8u32 | 32u32 == 44u32) by (bit_vector);
        assert(1u32 | 8u32 | 32u32 == 41u32) by (bit_vector);
        assert(44u32 & 8u32 == 8u32 && 44u32 & 32u32 == 32u32 && 44u32 & 1u32 != 1u32 && 44u32
            & 4u32 == 4u32) by (bit_vector);
        assert(41u32 & 8u32 == 8u32 && 41u32 & 32u32 == 32u32 && 41u32 & 1u32 == 1u32 && 41u32
            & 4u32 != 4u32) by (bit_vector);
        flags
    }
}

/// The native description of the samples of a stream.
#[derive(Clone, Copy, PartialEq, Eq, Debug, Structural)]
pub struct StreamDescription {
    /// The sample rate, as the bits of a 64-bit floating-point number.
    pub sample_rate: u64,
    pub format_id: u32,
    pub format_flags: u32,
    pub bytes_per_packet: u32,
    pub frames_per_packet: u32,
    pub bytes_per_frame: u32,
    pub channels_per_frame: u32,
    pub bits_per_channel: u32,
    pub reserved: u32,
}

/// What a stream is opened with.
#[derive(Clone, Copy, PartialEq, Eq, Debug, Structural)]
pub struct Parameters {
    /// The number of channels.
    pub channels: u32,
    /// The type of the samples.
    pub format: Format,
    /// The sample rate, as the bits of a 64-bit floating-point number.
    pub rate: u64,
}

impl Parameters {
    /// The parameters of a stream.
    pub fn new(channels: u32, format: Format, rate: u64) -> (parameters: Parameters)
        ensures
            parameters == (Parameters { channels, format, rate }),
    {
        Parameters { channels, format, rate }
    }

    /// The description of the samples: linear PCM, packed, one frame to the
    /// packet and, the channels not being interleaved, one sample to the
    /// frame.
    pub open spec fn description(&self) -> StreamDescription {
        StreamDescription {
            sample_rate: self.rate,
            format_id: four_cc('l', 'p', 'c', 'm'),
            format_flags: self.format.to_format_flags(),
            bytes_per_packet: self.format.byte_size() as u32,
            frames_per_packet: 1,
            bytes_per_frame: self.format.byte_size() as u32,
            channels_per_frame: self.channels,
            bits_per_channel: (8 * self.format.byte_size()) as u32,
            reserved: 0,
        }
    }

    /// Builds the native description of the samples.
    pub fn to_description(&self) -> (description: StreamDescription)
        ensures
            description == self.description(),
    {
        let byte_size: u32 = self.format.byte_size() as u32;
        let bits_per_channel: u32 = byte_size * 8;
        let frames_per_packet: u32 = 1;
        let bytes_per_frame: u32 = byte_size;
        let bytes_per_packet: u32 = bytes_per_frame * frames_per_packet;
        StreamDescription {
            sample_rate: self.rate,
            format_id: FORMAT_LINEAR_PCM,
            format_flags: self.format.to_format_flags(),
            bytes_per_packet,
            frames_per_packet,
            bytes_per_frame,
            channels_per_frame: self.channels,
            bits_per_channel,
            reserved: 0,
        }
    }
}

/// How far a stream has come in its life.
#[derive(Clone, Copy, PartialEq, Eq, Debug, Structural)]
pub enum Phase {
    Created,
    FormatConfigured,
    CallbackRegistered,
    Initialized,
    Started,
    Stopped,
    Uninitialized,
}

impl Phase {
    /// The number of stages of the set-up that are still to come.
    pub open spec fn stages_left(self) -> nat {
        match self {
            Phase::Created => 3,
            Phase::FormatConfigured => 2,
            Phase::CallbackRegistered => 1,
            _ => 0,
        }
    }

    /// The phase that the next stage of the set-up leads to.
    pub open spec fn next_stage(self) -> Phase {
        match self {
            Phase::Created => Phase::FormatConfigured,
            Phase::FormatConfigured => Phase::CallbackRegistered,
            _ => Phase::Initialized,
        }
    }

    /// Whether a stream in this phase is set up and not torn down, so that
    /// it can be started and stopped.
    pub open spec fn spec_runnable(self) -> bool {
        self == Phase::Initialized || self == Phase::Started || self == Phase::Stopped
    }

    /// Whether a stream in this phase is set up and not torn down, so that
    /// it can be started and stopped.
    #[verifier::when_used_as_spec(spec_runnable)]
    pub fn runnable(self) -> (runnable: bool)
        ensures
            runnable == self.spec_runnable(),
    {
        match self {
            Phase::Initialized => true,
            Phase::Started => true,
            Phase::Stopped => true,
            _ => false,
        }
    }
}

/// The shape of one buffer of a native buffer list.
#[derive(Clone, Copy, PartialEq, Eq, Debug, Structural)]
pub struct AudioBuffer {
    /// The number of channels that the buffer interleaves.
    pub channels: u32,
    /// The size of the buffer in bytes.
    pub byte_size: u32,
}

/// What to do with one buffer list.
#[derive(Clone, Copy, PartialEq, Eq, Debug, Structural)]
pub struct Rendering {
    /// The status to hand back to the native layer.
    pub status: i32,
    /// The number of samples in each channel to hand to the callback, or
    /// `None` where the buffers are not as negotiated and the callback must
    /// not see them.
    pub frames: Option<usize>,
}

/// A stream: the parameters it was opened with, its audio unit, and how far
/// it has come.
#[derive(Clone, Copy, PartialEq, Eq, Debug, Structural)]
pub struct Stream {
    pub parameters: Parameters,
    pub unit: AudioUnit,
    pub phase: Phase,
}

/// The step with its error taken up as `AudioUnit`.
pub open spec fn wrapped<T>(step: Step<T, audio_unit::Error>) -> Step<T, Error> {
    match step {
        Step::Ask(request) => Step::Ask(request),
        Step::Done(value, used) => Step::Done(value, used),
        Step::Failed(error, used) => Step::Failed(Error::AudioUnit(error), used),
        Step::Fault(fault) => Step::Fault(fault),
    }
}

/// The request that takes the set-up of a stream on from a phase.
pub open spec fn stage_request(stream: Stream) -> Request {
    match stream.phase {
        Phase::Created => Request::SetUnitProperty {
            unit: stream.unit.0,
            id: PROPERTY_STREAM_FORMAT,
            scope: SCOPE_INPUT,
            element: Element::Output.index(),
            data: UnitValue::StreamFormat(stream.parameters.description()),
        },
        Phase::FormatConfigured => Request::SetUnitProperty {
            unit: stream.unit.0,
            id: PROPERTY_SET_RENDER_CALLBACK,
            scope: SCOPE_INPUT,
            element: Element::Output.index(),
            data: UnitValue::RenderCallback,
        },
        _ => Request::Initialize { unit: stream.unit.0 },
    }
}

/// The stream in another phase.
pub open spec fn in_phase(stream: Stream, phase: Phase) -> Stream {
    Stream { phase, ..stream }
}

/// One stage of the set-up: its request is made, and only if it succeeds
/// does the stream move on.
pub open spec fn stage_run(stream: Stream, replies: Seq<Reply>) -> (Step<(), Error>, Stream) {
    match command_step(stage_request(stream), replies) {
        Step::Done(_, used) => (Step::Done((), used), in_phase(stream, stream.phase.next_stage())),
        other => (wrapped(other), stream),
    }
}

/// The set-up of a stream: the stages that are still to come, in their
/// order. The first one that fails ends it, and the stream stays where it
/// was before that stage. As long as a request is open the stream stays
/// where it was before the set-up. Each stage happens once: for a stream
/// that is set up there is nothing to do and nothing is asked, and one that
/// is torn down is refused as uninitialized.
pub open spec fn init_run(stream: Stream, replies: Seq<Reply>) -> (Step<(), Error>, Stream)
    decreases stream.phase.stages_left(),
{
    if stream.phase == Phase::Uninitialized {
        (Step::Failed(Error::AudioUnit(audio_unit::Error::Uninitialized), 0), stream)
    } else if stream.phase.stages_left() == 0 {
        (Step::Done((), 0), stream)
    } else {
        match stage_run(stream, replies) {
            (Step::Done(_, used), moved) => {
                let (step, end) = init_run(moved, replies.skip(used as int));
                if step is Done || step is Failed {
                    (step.after(used), end)
                } else {
                    (step, stream)
                }
            },
            other => other,
        }
    }
}

/// Starting or stopping a stream. One that is not set up, or is torn down,
/// is refused as uninitialized and nothing is asked of the native layer.
/// Otherwise the request is made, and only if it succeeds is the stream in
/// the phase aimed at.
pub open spec fn switch_run(stream: Stream, request: Request, goal: Phase, replies: Seq<Reply>) -> (
    Step<(), Error>,
    Stream,
) {
    if !stream.phase.runnable() {
        (Step::Failed(Error::AudioUnit(audio_unit::Error::Uninitialized), 0), stream)
    } else {
        match command_step(request, replies) {
            Step::Done(_, used) => (Step::Done((), used), in_phase(stream, goal)),
            other => (wrapped(other), stream),
        }
    }
}

/// Tearing a stream down: unless that has happened already, the unit is
/// stopped and then uninitialized, whatever either call reports.
pub open spec fn teardown_run(stream: Stream, replies: Seq<Reply>) -> (Step<(), Error>, Stream) {
    if stream.phase == Phase::Uninitialized {
        (Step::Done((), 0), stream)
    } else {
        match teardown_step(stream.unit.0, replies) {
            Step::Done(_, used) => (Step::Done((), used), in_phase(stream, Phase::Uninitialized)),
            other => (wrapped(other), stream),
        }
    }
}

/// Takes the error of a step up as `AudioUnit`.
pub fn wrap<T>(step: Step<T, audio_unit::Error>) -> (out: Step<T, Error>)
    ensures
        out == wrapped(step),
{
    match step {
        Step::Ask(request) => Step::Ask(request),
        Step::Done(value, used) => Step::Done(value, used),
        Step::Failed(error, used) => Step::Failed(Error::AudioUnit(error), used),
        Step::Fault(fault) => Step::Fault(fault),
    }
}

impl Stream {
    /// Opens a stream: creates the output unit. Nothing is set up yet.
    pub fn new(channels: u32, format: Format, rate: u64, replies: &[Reply]) -> (step: Step<
        Stream,
        Error,
    >)
        ensures
            step == (match create_step(replies@) {
                Step::Ask(request) => Step::Ask(request),
                Step::Done(unit, used) => Step::Done(
                    Stream {
                        parameters: Parameters { channels, format, rate },
                        unit: AudioUnit(unit),
                        phase: Phase::Created,
                    },
                    used,
                ),
                Step::Failed(error, used) => Step::Failed(Error::AudioUnit(error), used),
                Step::Fault(fault) => Step::Fault(fault),
            }),
            step.within(replies@.len()),
    {
        let parameters = Parameters::new(channels, format, rate);
        match AudioUnit::new(replies) {
            Step::Ask(request) => Step::Ask(request),
            Step::Done(unit, used) => Step::Done(
                Stream { parameters, unit, phase: Phase::Created },
                used,
            ),
            Step::Failed(error, used) => Step::Failed(Error::AudioUnit(error), used),
            Step::Fault(fault) => Step::Fault(fault),
        }
    }

    /// Sets the stream up: carries out the stages that are still to come.
    /// Each stage happens once, so for a stream that is set up nothing is
    /// done again.
    #[verifier::rlimit(80)]
    pub fn init(&mut self, replies: &[Reply]) -> (step: Step<(), Error>)
        ensures
            (step, *final(self)) == init_run(*old(self), replies@),
            step.within(replies@.len()),
    {
        proof {
            reveal_with_fuel(init_run, 4);
        }
        if self.phase == Phase::Uninitialized {
            return Step::Failed(Error::AudioUnit(audio_unit::Error::Uninitialized), 0);
        }
        if self.phase.runnable() {
            return Step::Done((), 0);
        }
        let before = *self;
        let mut used: usize = 0;
        if self.phase == Phase::Created {
            match self.set_stream_format(replies) {
                Step::Done(_, next) => {
                    used = next;
                },
                other => {
                    return other;
                },
            }
        }
        if self.phase == Phase::FormatConfigured {
            let rest = slice_subrange(replies, used, replies.len());
            match self.set_callback(rest).shift(used) {
                Step::Done(_, next) => {
                    used = next;
                },
                Step::Failed(error, next) => {
                    return Step::Failed(error, next);
                },
                other => {
                    *self = before;
                    return other;
                },
            }
        }
        let rest = slice_subrange(replies, used, replies.len());
        assert(replies@.skip(0) =~= replies@);
        match self.init_unit(rest).shift(used) {
            Step::Done(_, next) => Step::Done((), next),
            Step::Failed(error, next) => Step::Failed(error, next),
            other => {
                *self = before;
                other
            },
        }
    }

    /// Starts the stream.
    pub fn start(&mut self, replies: &[Reply]) -> (step: Step<(), Error>)
        ensures
            (step, *final(self)) == switch_run(
                *old(self),
                Request::Start { unit: old(self).unit.0 },
                Phase::Started,
                replies@,
            ),
            step.within(replies@.len()),
    {
        if !self.phase.runnable() {
            return Step::Failed(Error::AudioUnit(audio_unit::Error::Uninitialized), 0);
        }
        let step = wrap(self.unit.start(replies));
        if let Step::Done(_, _) = step {
            self.phase = Phase::Started;
        }
        step
    }

    /// Stops the stream. Callbacks that are under way may still run to
    /// their end.
    pub fn stop(&mut self, replies: &[Reply]) -> (step: Step<(), Error>)
        ensures
            (step, *final(self)) == switch_run(
                *old(self),
                Request::Stop { unit: old(self).unit.0 },
                Phase::Stopped,
                replies@,
            ),
            step.within(replies@.len()),
    {
        if !self.phase.runnable() {
            return Step::Failed(Error::AudioUnit(audio_unit::Error::Uninitialized), 0);
        }
        let step = wrap(self.unit.stop(replies));
        if let Step::Done(_, _) = step {
            self.phase = Phase::Stopped;
        }
        step
    }

    /// The last stage of the set-up: initializes the unit.
    pub fn init_unit(&mut self, replies: &[Reply]) -> (step: Step<(), Error>)
        requires
            old(self).phase == Phase::CallbackRegistered,
        ensures
            (step, *final(self)) == stage_run(*old(self), replies@),
            step.within(replies@.len()),
    {
        let step = wrap(self.unit.initialize(replies));
        if let Step::Done(_, _) = step {
            self.phase = Phase::Initialized;
        }
        step
    }

    /// Tears the stream down: stops the unit and uninitializes it, once.
    /// Nothing that the native layer reports can make this fail.
    pub fn teardown(&mut self, replies: &[Reply]) -> (step: Step<(), Error>)
        ensures
            (step, *final(self)) == teardown_run(*old(self), replies@),
            step.within(replies@.len()),
            !(step is Failed),
    {
        if self.phase == Phase::Uninitialized {
            return Step::Done((), 0);
        }
        let step = wrap(self.unit.teardown(replies));
        if let Step::Done(_, _) = step {
            self.phase = Phase::Uninitialized;
        }
        step
    }

    /// The first stage of the set-up: writes the format of the samples.
    pub fn set_stream_format(&mut self, replies: &[Reply]) -> (step: Step<(), Error>)
        requires
            old(self).phase == Phase::Created,
        ensures
            (step, *final(self)) == stage_run(*old(self), replies@),
            step.within(replies@.len()),
    {
        let description = self.parameters.to_description();
        let step = wrap(
            self.unit.set_property(
                PROPERTY_STREAM_FORMAT,
                SCOPE_INPUT,
                Element::Output,
                &UnitValue::StreamFormat(description),
                replies,
            ),
        );
        if let Step::Done(_, _) = step {
            self.phase = Phase::FormatConfigured;
        }
        step
    }

    /// The second stage of the set-up: registers the render callback.
    pub fn set_callback(&mut self, replies: &[Reply]) -> (step: Step<(), Error>)
        requires
            old(self).phase == Phase::FormatConfigured,
        ensures
            (step, *final(self)) == stage_run(*old(self), replies@),
            step.within(replies@.len()),
    {
        let step = wrap(
            self.unit.set_property(
                PROPERTY_SET_RENDER_CALLBACK,
                SCOPE_INPUT,
                Element::Output,
                &UnitValue::RenderCallback,
                replies,
            ),
        );
        if let Step::Done(_, _) = step {
            self.phase = Phase::CallbackRegistered;
        }
        step
    }

    /// Whether the buffers are as negotiated: one for each channel, none of
    /// them interleaved, each of the size of `frames` samples.
    pub open spec fn fits(&self, buffers: Seq<AudioBuffer>, frames: usize) -> bool {
        &&& buffers.len() == self.parameters.channels
        &&& forall|i: int|
            0 <= i < buffers.len() ==> (#[trigger] buffers[i]).channels == 1 && buffers[i].byte_size
                == frames * self.parameters.format.byte_size()
    }

    /// Checks one buffer list on the real-time thread. Where the buffers are
    /// as negotiated, the callback is to see each channel as `frames`
    /// samples. Where they are not, it must not see them. Either way the
    /// native layer is told to go on.
    pub fn get_buffer_data(&self, buffers: &[AudioBuffer], frames: usize) -> (rendering: Rendering)
        ensures
            rendering.status == RENDER_CONTINUE,
            rendering.frames == (if self.fits(buffers@, frames) {
                Some(frames)
            } else {
                None
            }),
    {
        if buffers.len() as u64 != self.parameters.channels as u64 {
            return Rendering { status: RENDER_CONTINUE, frames: None };
        }
        let size: u64 = self.parameters.format.byte_size() as u64;
        if frames as u64 > u32::MAX as u64 {
            if buffers.len() > 0 {
                assert(!self.fits(buffers@, frames)) by {
                    assert(buffers@[0].byte_size <= u32::MAX);
                    assert(frames * self.parameters.format.byte_size() > u32::MAX)
                        by (nonlinear_arith)
                        requires
                            frames > u32::MAX,
                            self.parameters.format.byte_size() >= 2,
                    ;
                }
                return Rendering { status: RENDER_CONTINUE, frames: None };
            }
            return Rendering { status: RENDER_CONTINUE, frames: Some(frames) };
        }
        let bytes: u64 = frames as u64 * size;
        let mut i: usize = 0;
        while i < buffers.len()
            invariant
                i <= buffers@.len(),
                buffers@.len() == self.parameters.channels,
                bytes == frames * self.parameters.format.byte_size(),
                forall|k: int|
                    0 <= k < i ==> (#[trigger] buffers@[k]).channels == 1 && buffers@[k].byte_size
                        == bytes,
            decreases buffers@.len() - i,
        {
            if buffers[i].channels != 1 || buffers[i].byte_size as u64 != bytes {
                assert(!self.fits(buffers@, frames)) by {
                    let broken = buffers@[i as int];
                    assert(broken.channels != 1 || broken.byte_size != bytes);
                }
                return Rendering { status: RENDER_CONTINUE, frames: None };
            }
            i = i + 1;
        }
        Rendering { status: RENDER_CONTINUE, frames: Some(frames) }
    }
}


/// Stopping a stream that is stopped changes nothing: whatever status of
/// those that are known the native layer answers with, the call settles
/// without a fault, as done or with the error of that status, and the stream
/// is stopped as before.
pub proof fn lemma_stop_twice(stream: Stream, first: Seq<Reply>, second: Seq<Reply>)
    requires
        switch_run(
            stream,
            Request::Stop { unit: stream.unit.0 },
            Phase::Stopped,
            first,
        ).0 is Done,
        second.len() > 0,
        second[0] matches Reply::Status(status) && audio_unit::recognised(status),
    ensures
        ({
            let stopped = switch_run(
                stream,
                Request::Stop { unit: stream.unit.0 },
                Phase::Stopped,
                first,
            ).1;
            let again = switch_run(
                stopped,
                Request::Stop { unit: stopped.unit.0 },
                Phase::Stopped,
                second,
            );
            &&& stopped.phase == Phase::Stopped
            &&& again.0 is Done || again.0 is Failed
            &&& again.1 == stopped
        }),
{
}

/// A stream can be torn down from every phase: after two statuses,
/// whichever they are, the teardown is done and the stream is
/// uninitialized. The unit is stopped first and then uninitialized.
pub proof fn lemma_teardown_from_any_phase(stream: Stream, replies: Seq<Reply>)
    requires
        stream.phase != Phase::Uninitialized,
        replies.len() >= 2,
        replies[0] is Status,
        replies[1] is Status,
    ensures
        teardown_run(stream, replies) == (
            Step::<(), Error>::Done((), 2),
            in_phase(stream, Phase::Uninitialized),
        ),
        teardown_run(stream, replies.take(0)).0 == Step::<(), Error>::Ask(
            Request::Stop { unit: stream.unit.0 },
        ),
        teardown_run(stream, replies.take(1)).0 == Step::<(), Error>::Ask(
            Request::Uninitialize { unit: stream.unit.0 },
        ),
{
    assert(replies.take(0).len() == 0);
    assert(replies.take(1)[0] == replies[0]);
}

/// A stream is torn down once: after that, tearing it down asks nothing of
/// the native layer, and neither does starting or stopping it, which fail.
pub proof fn lemma_torn_down_is_final(stream: Stream, replies: Seq<Reply>)
    requires
        stream.phase == Phase::Uninitialized,
    ensures
        teardown_run(stream, replies) == (Step::<(), Error>::Done((), 0), stream),
        switch_run(stream, Request::Start { unit: stream.unit.0 }, Phase::Started, replies).0
            is Failed,
        switch_run(stream, Request::Stop { unit: stream.unit.0 }, Phase::Stopped, replies).0
            is Failed,
{
}

/// A start that fails leaves the stream in the phase it was in.
pub proof fn lemma_failed_start_changes_nothing(stream: Stream, replies: Seq<Reply>)
    requires
        !(switch_run(
            stream,
            Request::Start { unit: stream.unit.0 },
            Phase::Started,
            replies,
        ).0 is Done),
    ensures
        switch_run(stream, Request::Start { unit: stream.unit.0 }, Phase::Started, replies).1
            == stream,
{
}

/// A stream moves only when a call has settled: as long as a request is
/// open, and where a reply broke the rules, it is as it was before the call.
pub proof fn lemma_open_call_changes_nothing(stream: Stream, replies: Seq<Reply>)
    ensures
        !(init_run(stream, replies).0 is Done || init_run(stream, replies).0 is Failed)
            ==> init_run(stream, replies).1 == stream,
        !(teardown_run(stream, replies).0 is Done) ==> teardown_run(stream, replies).1 == stream,
        forall|request: Request, goal: Phase|
            !(#[trigger] switch_run(stream, request, goal, replies).0 is Done) ==> switch_run(
                stream,
                request,
                goal,
                replies,
            ).1 == stream,
{
    reveal_with_fuel(init_run, 4);
}

/// The set-up goes through its stages in their order and never back: it
/// ends in the phase it started from or a later one of the set-up, and it is
/// done exactly when the stream is initialized.
pub proof fn lemma_init_is_ordered(stream: Stream, replies: Seq<Reply>)
    requires
        stream.phase.stages_left() > 0,
    ensures
        init_run(stream, replies).1.phase.stages_left() <= stream.phase.stages_left(),
        init_run(stream, replies).0 is Done <==> init_run(stream, replies).1.phase
            == Phase::Initialized,
        init_run(stream, replies).1.unit == stream.unit,
        init_run(stream, replies).1.parameters == stream.parameters,
{
    reveal_with_fuel(init_run, 4);
}


/// Whether two runs of one call, before and after more replies came in, are
/// in order: the first accounts for no more replies than there were, and if
/// it has come to an end, the second is the same, step and stream.
pub open spec fn runs_in_order(
    first: (Step<(), Error>, Stream),
    given: nat,
    second: (Step<(), Error>, Stream),
) -> bool {
    &&& first.0.within(given)
    &&& first.0.settled() ==> second == first
}

/// The set-up that has settled stays settled.
proof fn lemma_init_settled(stream: Stream, replies: Seq<Reply>, more: Seq<Reply>)
    ensures
        runs_in_order(init_run(stream, replies), replies.len(), init_run(stream, replies + more)),
    decreases stream.phase.stages_left(),
{
    if stream.phase.stages_left() > 0 {
        audio_unit::lemma_settled_for_good(
            stream.unit.0,
            stage_request(stream),
            audio_unit::default_output(),
            0,
            0,
            Element::Output,
            0,
            UnitValue::RenderCallback,
            replies,
            more,
        );
        if let (Step::Done(_, used), moved) = stage_run(stream, replies) {
            crate::exchange::lemma_rest_of_longer(replies, more, used as int);
            lemma_init_settled(moved, replies.skip(used as int), more);
        }
    }
}

/// What has settled stays settled. A call on a stream that has come to an
/// end after the replies it was given comes to the same end, and leaves the
/// stream in the same phase, whatever replies follow them, and it accounts
/// for no more replies than it was given.
pub proof fn lemma_settled_for_good(
    stream: Stream,
    request: Request,
    goal: Phase,
    replies: Seq<Reply>,
    more: Seq<Reply>,
)
    ensures
        runs_in_order(init_run(stream, replies), replies.len(), init_run(stream, replies + more)),
        runs_in_order(
            switch_run(stream, request, goal, replies),
            replies.len(),
            switch_run(stream, request, goal, replies + more),
        ),
        runs_in_order(
            teardown_run(stream, replies),
            replies.len(),
            teardown_run(stream, replies + more),
        ),
{
    lemma_init_settled(stream, replies, more);
    audio_unit::lemma_settled_for_good(
        stream.unit.0,
        request,
        audio_unit::default_output(),
        0,
        0,
        Element::Output,
        0,
        UnitValue::RenderCallback,
        replies,
        more,
    );
}


} // verus!
