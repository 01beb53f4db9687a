//! The capture session and the device switch. A session owns at most one
//! open capture stream. The platform calls themselves are the caller's: the
//! session says which device to open, takes the outcome, and holds the
//! stream while it captures.

use crate::config::FrameRate;
use crate::device::{
    device_specs,
    distinct_ids,
    lemma_next_index_advances,
    next_device_index,
    next_index,
    AudioDeviceDescriptor,
    AudioDeviceID,
    DeviceSpec,
};
use crate::error::{CaptureError, OpenFailure};
use crate::relay::{should_drain, SampleRelay};
use vstd::prelude::*;

verus! {

/// Samples per second that capture asks for.
pub const SAMPLE_RATE: u32 = 44100;

/// Interleaved channels that capture asks for.
pub const CHANNELS: u32 = 2;

/// How one captured sample is encoded.
#[derive(Clone, Copy, Debug, PartialEq, Eq, Structural)]
pub enum SampleType {
    /// 32-bit floating point, in the byte order of the machine.
    F32,
}

/// The format a capture stream is opened with.
#[derive(Clone, Copy, Debug, PartialEq, Eq, Structural)]
pub struct SampleFormat {
    pub rate: u32,
    pub channels: u32,
    pub sample_type: SampleType,
}

/// Where a capture session stands.
#[derive(Clone, Copy, Debug, PartialEq, Eq, Structural)]
pub enum CaptureState {
    /// No stream is open.
    Closed,
    /// A device is being opened; the outcome is awaited.
    Opening,
    /// A stream is open and delivers audio.
    Capturing,
    /// The stream is being given up.
    Stopping,
}

/// The one format every capture stream is opened with.
pub open spec fn capture_format() -> SampleFormat {
    SampleFormat { rate: SAMPLE_RATE, channels: CHANNELS, sample_type: SampleType::F32 }
}

/// What the caller has to open: the device and the format.
#[derive(Clone, Copy, Debug, PartialEq, Eq, Structural)]
pub struct OpenRequest {
    pub device_id: AudioDeviceID,
    pub format: SampleFormat,
}

/// The first half of a start: the stream that was given up, for the caller
/// to close, and the device to open or the reason why none is opened.
#[derive(Debug)]
pub struct StartStep<S> {
    pub released: Option<S>,
    pub request: Result<OpenRequest, CaptureError>,
}

/// What the platform made of an open request.
#[derive(Debug)]
pub enum OpenOutcome<S> {
    /// The device could not be opened; the platform's message.
    Failed { reason: String },
    /// The device was opened. `device_id` and `device_name` are what the
    /// stream reports of the device it is bound to, `resumed` the outcome of
    /// starting it.
    Opened {
        stream: S,
        device_id: Option<AudioDeviceID>,
        device_name: Option<String>,
        resumed: Result<(), String>,
    },
}

/// The second half of a start: whether the session now captures, and a
/// stream that was opened but is not kept, for the caller to close.
#[derive(Debug)]
pub struct FinishStep<S> {
    pub released: Option<S>,
    pub result: Result<(), CaptureError>,
}

/// A device list as the platform gave it, or empty with a warning where the
/// platform could not list its devices.
#[derive(Debug)]
pub struct DeviceListing {
    pub devices: Vec<AudioDeviceDescriptor>,
    pub warning: Option<CaptureError>,
}

/// The device a start opens: the one asked for, else the platform default.
pub open spec fn resolve_device(
    device_id: Option<AudioDeviceID>,
    default_device: Option<AudioDeviceID>,
) -> Option<AudioDeviceID> {
    match device_id {
        Some(id) => Some(id),
        None => default_device,
    }
}

/// What a start asks of the caller.
pub open spec fn open_request(
    device_id: Option<AudioDeviceID>,
    default_device: Option<AudioDeviceID>,
) -> Result<OpenRequest, CaptureError> {
    match resolve_device(device_id, default_device) {
        Some(id) => Ok(OpenRequest { device_id: id, format: capture_format() }),
        None => Err(CaptureError::NoDeviceAvailable),
    }
}

/// The name a device goes by where the platform gives none.
pub open spec fn name_or_unknown(device_name: Option<String>) -> Seq<char> {
    match device_name {
        Some(name) => name@,
        None => "unknown"@,
    }
}

/// Whether an outcome lets the session capture, and from which device. A
/// refused open comes first, then a stream bound to no device, then a stream
/// that did not start.
pub open spec fn open_verdict<S>(outcome: OpenOutcome<S>) -> Result<DeviceSpec, OpenFailure> {
    match outcome {
        OpenOutcome::Failed { reason } => Err(OpenFailure::Platform(reason)),
        OpenOutcome::Opened { stream, device_id, device_name, resumed } => match device_id {
            None => Err(OpenFailure::Unbound),
            Some(id) => match resumed {
                Err(reason) => Err(OpenFailure::Resume(reason)),
                Ok(_) => Ok(DeviceSpec { id, name: name_or_unknown(device_name) }),
            },
        },
    }
}

/// The stream an outcome brought, if it brought one.
pub open spec fn opened_stream<S>(outcome: OpenOutcome<S>) -> Option<S> {
    match outcome {
        OpenOutcome::Failed { .. } => None,
        OpenOutcome::Opened { stream, .. } => Some(stream),
    }
}

/// A capture session as plain values.
pub struct AudioModel<S> {
    pub state: CaptureState,
    /// The open stream.
    pub stream: Option<S>,
    /// The device that was last opened with success and still captures.
    pub device: Option<DeviceSpec>,
    /// The device whose opening is under way.
    pub opening: Option<AudioDeviceID>,
    /// The frame rate the session was set up with.
    pub frame_rate: Option<FrameRate>,
}

impl<S> AudioModel<S> {
    /// The session's invariant: it holds a stream exactly while it captures,
    /// knows its device exactly then, and knows the device it is opening
    /// exactly while it opens one.
    pub open spec fn wf(self) -> bool {
        &&& self.stream is Some <==> self.state == CaptureState::Capturing
        &&& self.device is Some <==> self.state == CaptureState::Capturing
        &&& self.opening is Some <==> self.state == CaptureState::Opening
    }

    /// The session after a stop.
    pub open spec fn stopped(self) -> Self {
        AudioModel {
            state: CaptureState::Closed,
            stream: None,
            device: None,
            opening: None,
            frame_rate: self.frame_rate,
        }
    }

    /// The session while it waits for `device_id` to be opened.
    pub open spec fn opening(self, device_id: AudioDeviceID) -> Self {
        AudioModel {
            state: CaptureState::Opening,
            stream: None,
            device: None,
            opening: Some(device_id),
            frame_rate: self.frame_rate,
        }
    }

    /// The session while it captures from `device` through `stream`.
    pub open spec fn capturing(self, stream: S, device: DeviceSpec) -> Self {
        AudioModel {
            state: CaptureState::Capturing,
            stream: Some(stream),
            device: Some(device),
            opening: None,
            frame_rate: self.frame_rate,
        }
    }

    /// The session after the first half of a start: whatever was open is
    /// given up, and an open is under way if there is a device to open.
    pub open spec fn begun(
        self,
        device_id: Option<AudioDeviceID>,
        default_device: Option<AudioDeviceID>,
    ) -> Self {
        match resolve_device(device_id, default_device) {
            Some(id) => self.opening(id),
            None => self.stopped(),
        }
    }

    /// The session after the second half of a start. An outcome that no
    /// open was waiting for changes nothing; a failure leaves the session
    /// closed.
    pub open spec fn finished(self, outcome: OpenOutcome<S>) -> Self {
        if self.state != CaptureState::Opening {
            self
        } else {
            match open_verdict(outcome) {
                Ok(device) => self.capturing(opened_stream(outcome).unwrap(), device),
                Err(_) => self.stopped(),
            }
        }
    }

    /// What the second half of a start reports.
    pub open spec fn finish_result(self, outcome: OpenOutcome<S>) -> Result<(), CaptureError> {
        if self.state != CaptureState::Opening {
            Err(CaptureError::OpenFailed(OpenFailure::NotOpening))
        } else {
            match open_verdict(outcome) {
                Ok(_) => Ok(()),
                Err(failure) => Err(CaptureError::OpenFailed(failure)),
            }
        }
    }

    /// The stream the second half of a start hands back: the one the
    /// outcome brought, unless the session keeps it.
    pub open spec fn finish_released(self, outcome: OpenOutcome<S>) -> Option<S> {
        if self.state == CaptureState::Opening && open_verdict(outcome) is Ok {
            None
        } else {
            opened_stream(outcome)
        }
    }

    /// The session after a whole start: both halves, with `outcome` what
    /// the platform made of the open request, if one was made.
    pub open spec fn started(
        self,
        device_id: Option<AudioDeviceID>,
        default_device: Option<AudioDeviceID>,
        outcome: OpenOutcome<S>,
    ) -> Self {
        match resolve_device(device_id, default_device) {
            Some(id) => self.opening(id).finished(outcome),
            None => self.stopped(),
        }
    }

    /// What a whole start reports.
    pub open spec fn start_result(
        self,
        device_id: Option<AudioDeviceID>,
        default_device: Option<AudioDeviceID>,
        outcome: OpenOutcome<S>,
    ) -> Result<(), CaptureError> {
        match resolve_device(device_id, default_device) {
            Some(id) => self.opening(id).finish_result(outcome),
            None => Err(CaptureError::NoDeviceAvailable),
        }
    }

    /// The session after a switch to the next device of `devices`: an open
    /// of that device is under way, or nothing changed where the list is
    /// empty.
    pub open spec fn switched(self, devices: Seq<DeviceSpec>) -> Self {
        match next_index(devices, self.device) {
            Some(i) => self.opening(devices[i].id),
            None => self,
        }
    }
}

enum Phase<S> {
    Closed,
    Opening { device_id: AudioDeviceID },
    Capturing { stream: S, device: AudioDeviceDescriptor },
    Stopping,
}

/// The capture session.
pub struct Audio<S> {
    phase: Phase<S>,
    frame_rate: Option<FrameRate>,
}

impl<S> View for Audio<S> {
    type V = AudioModel<S>;

    closed spec fn view(&self) -> AudioModel<S> {
        match self.phase {
            Phase::Closed => AudioModel {
                state: CaptureState::Closed,
                stream: None,
                device: None,
                opening: None,
                frame_rate: self.frame_rate,
            },
            Phase::Opening { device_id } => AudioModel {
                state: CaptureState::Opening,
                stream: None,
                device: None,
                opening: Some(device_id),
                frame_rate: self.frame_rate,
            },
            Phase::Capturing { stream, device } => AudioModel {
                state: CaptureState::Capturing,
                stream: Some(stream),
                device: Some(device@),
                opening: None,
                frame_rate: self.frame_rate,
            },
            Phase::Stopping => AudioModel {
                state: CaptureState::Stopping,
                stream: None,
                device: None,
                opening: None,
                frame_rate: self.frame_rate,
            },
        }
    }
}

/// Stopping leaves the session closed, whatever state it was in, and a
/// second stop changes nothing more.
pub proof fn lemma_stop_idempotent<S>(session: AudioModel<S>)
    ensures
        session.stopped().state == CaptureState::Closed,
        session.stopped().stream is None,
        session.stopped().wf(),
        session.stopped().stopped() == session.stopped(),
{
}

/// A start that fails leaves the session closed and without a stream,
/// whatever state it began in and whatever failed; a start that succeeds
/// leaves it capturing through the stream that was opened. So does every
/// start that follows a failed one.
pub proof fn lemma_failed_start_closed<S>(
    session: AudioModel<S>,
    device_id: Option<AudioDeviceID>,
    default_device: Option<AudioDeviceID>,
    outcome: OpenOutcome<S>,
)
    ensures
        session.start_result(device_id, default_device, outcome) is Err ==> session.started(
            device_id,
            default_device,
            outcome,
        ) == session.stopped(),
        session.start_result(device_id, default_device, outcome) is Ok ==> {
            let after = session.started(device_id, default_device, outcome);
            &&& after.state == CaptureState::Capturing
            &&& after.stream == opened_stream(outcome)
            &&& after.stream is Some
        },
        session.started(device_id, default_device, outcome).wf(),
{
}

/// The second half of a start keeps the session's invariant, and tells by
/// its result whether the session captures: with an open under way, it
/// captures afterwards exactly if the result is `Ok`, and is closed
/// otherwise.
pub proof fn lemma_finish_decides<S>(session: AudioModel<S>, outcome: OpenOutcome<S>)
    requires
        session.wf(),
    ensures
        session.finished(outcome).wf(),
        session.state == CaptureState::Opening ==> (session.finish_result(outcome) is Ok
            <==> session.finished(outcome).state == CaptureState::Capturing),
        session.state == CaptureState::Opening && session.finish_result(outcome) is Err
            ==> session.finished(outcome) == session.stopped(),
        session.state != CaptureState::Opening ==> session.finished(outcome) == session
            && session.finish_result(outcome) is Err,
{
}

/// Over a device list without repeated identifiers, a session that captures
/// from the device at place `i` and switches, with the open succeeding on
/// the device asked for, captures from the device one place further on,
/// modulo the length of the list.
pub proof fn lemma_switch_advances<S>(
    session: AudioModel<S>,
    devices: Seq<DeviceSpec>,
    i: int,
    outcome: OpenOutcome<S>,
)
    requires
        distinct_ids(devices),
        0 <= i < devices.len(),
        session.device == Some(devices[i]),
        open_verdict(outcome) == Ok::<DeviceSpec, OpenFailure>(
            devices[(i + 1) % (devices.len() as int)],
        ),
    ensures
        session.switched(devices).state == CaptureState::Opening,
        session.switched(devices).opening == Some(devices[(i + 1) % (devices.len() as int)].id),
        session.switched(devices).finished(outcome).state == CaptureState::Capturing,
        session.switched(devices).finished(outcome).device == Some(
            devices[(i + 1) % (devices.len() as int)],
        ),
{
    lemma_next_index_advances(devices, i);
}

/// A switch over an empty device list changes nothing: a closed session
/// stays closed.
pub proof fn lemma_switch_without_devices<S>(session: AudioModel<S>, devices: Seq<DeviceSpec>)
    requires
        devices.len() == 0,
    ensures
        session.switched(devices) == session,
        session.state == CaptureState::Closed ==> session.switched(devices).state
            == CaptureState::Closed,
{
}

impl<S> Audio<S> {
    /// Every session meets the invariant of its model.
    pub proof fn lemma_wf(&self)
        ensures
            self@.wf(),
    {
    }

    /// A closed session that was not set up with a frame rate yet.
    pub fn new() -> (audio: Self)
        ensures
            audio@ == (AudioModel::<S> {
                state: CaptureState::Closed,
                stream: None,
                device: None,
                opening: None,
                frame_rate: None,
            }),
    {
        Audio { phase: Phase::Closed, frame_rate: None }
    }

    /// Sets the session up with the frame rate and begins capture from the
    /// platform's default device.
    pub fn init(&mut self, frame_rate: FrameRate, default_device: Option<AudioDeviceID>) -> (step:
        StartStep<S>)
        ensures
            final(self)@ == (AudioModel { frame_rate: Some(frame_rate), ..old(self)@ }).begun(
                None,
                default_device,
            ),
            step.released == old(self)@.stream,
            step.request == open_request(None, default_device),
    {
        self.frame_rate = Some(frame_rate);
        self.begin_audio_recording(None, default_device)
    }

    /// Where the session stands.
    pub fn state(&self) -> (state: CaptureState)
        ensures
            state == self@.state,
    {
        match &self.phase {
            Phase::Closed => CaptureState::Closed,
            Phase::Opening { .. } => CaptureState::Opening,
            Phase::Capturing { .. } => CaptureState::Capturing,
            Phase::Stopping => CaptureState::Stopping,
        }
    }

    /// Whether a stream is open and delivers audio.
    pub fn is_capturing(&self) -> (capturing: bool)
        ensures
            capturing == (self@.state == CaptureState::Capturing),
    {
        match &self.phase {
            Phase::Capturing { .. } => true,
            _ => false,
        }
    }

    /// The frame rate the session was set up with.
    pub fn frame_rate(&self) -> (rate: Option<FrameRate>)
        ensures
            rate == self@.frame_rate,
    {
        self.frame_rate
    }

    /// The device the session captures from.
    pub fn current_device(&self) -> (device: Option<&AudioDeviceDescriptor>)
        ensures
            match device {
                Some(d) => self@.device == Some(d@),
                None => self@.device is None,
            },
    {
        match &self.phase {
            Phase::Capturing { device, .. } => Some(device),
            _ => None,
        }
    }

    /// The display name of the device the session captures from.
    pub fn recording_device_name(&self) -> (name: Option<String>)
        ensures
            match name {
                Some(n) => self@.device matches Some(d) && d.name == n@,
                None => self@.device is None,
            },
    {
        match &self.phase {
            Phase::Capturing { device, .. } => Some(device.name.clone()),
            _ => None,
        }
    }

    /// The open stream, to read captured samples from.
    pub fn recording_stream(&self) -> (stream: Option<&S>)
        ensures
            match stream {
                Some(s) => self@.stream == Some(*s),
                None => self@.stream is None,
            },
    {
        match &self.phase {
            Phase::Capturing { stream, .. } => Some(stream),
            _ => None,
        }
    }

    /// The open stream, for reads that change it. Whatever the caller does
    /// to the stream, the session goes on capturing through it.
    pub fn recording_stream_mut(&mut self) -> (stream: Option<&mut S>)
        ensures
            match stream {
                Some(s) => old(self)@.stream == Some(*s) && final(self)@ == (AudioModel {
                    stream: Some(*final(s)),
                    ..old(self)@
                }),
                None => old(self)@.stream is None && final(self)@ == old(self)@,
            },
    {
        match &mut self.phase {
            Phase::Capturing { stream, .. } => Some(stream),
            _ => None,
        }
    }

    /// Stops capture: the session is closed afterwards, from whatever state,
    /// and the stream it held is handed back for the caller to close.
    pub fn stop_audio_recording(&mut self) -> (released: Option<S>)
        ensures
            final(self)@ == old(self)@.stopped(),
            released == old(self)@.stream,
    {
        // The session is stopping while the stream is taken out of it.
        let mut phase: Phase<S> = Phase::Stopping;
        core::mem::swap(&mut self.phase, &mut phase);
        let released: Option<S> = match phase {
            Phase::Capturing { stream, .. } => Some(stream),
            _ => None,
        };
        self.phase = Phase::Closed;
        released
    }

    /// Begins capture from `device_id`, or from `default_device` where none
    /// is named. Capture under way is stopped first. Where there is a device
    /// to open the session waits for the outcome, to be handed to
    /// `finish_audio_recording`; where there is none it is closed.
    pub fn begin_audio_recording(
        &mut self,
        device_id: Option<AudioDeviceID>,
        default_device: Option<AudioDeviceID>,
    ) -> (step: StartStep<S>)
        ensures
            final(self)@ == old(self)@.begun(device_id, default_device),
            step.released == old(self)@.stream,
            step.request == open_request(device_id, default_device),
    {
        let released: Option<S> = self.stop_audio_recording();
        let target: Option<AudioDeviceID> = match device_id {
            Some(id) => Some(id),
            None => default_device,
        };
        match target {
            Some(id) => {
                self.phase = Phase::Opening { device_id: id };
                let format = SampleFormat {
                    rate: SAMPLE_RATE,
                    channels: CHANNELS,
                    sample_type: SampleType::F32,
                };
                StartStep { released, request: Ok(OpenRequest { device_id: id, format }) }
            },
            None => StartStep { released, request: Err(CaptureError::NoDeviceAvailable) },
        }
    }

    /// Takes the outcome of the open that `begin_audio_recording` asked for.
    /// The session captures afterwards if the device was opened, is bound to
    /// a device and was started; otherwise it is closed and the failure is
    /// reported. A stream that is not kept is handed back.
    pub fn finish_audio_recording(&mut self, outcome: OpenOutcome<S>) -> (step: FinishStep<S>)
        ensures
            final(self)@ == old(self)@.finished(outcome),
            step.result == old(self)@.finish_result(outcome),
            step.released == old(self)@.finish_released(outcome),
    {
        let opening: bool = match &self.phase {
            Phase::Opening { .. } => true,
            _ => false,
        };
        if !opening {
            let released: Option<S> = match outcome {
                OpenOutcome::Failed { .. } => None,
                OpenOutcome::Opened { stream, .. } => Some(stream),
            };
            return FinishStep {
                released,
                result: Err(CaptureError::OpenFailed(OpenFailure::NotOpening)),
            };
        }
        match outcome {
            OpenOutcome::Failed { reason } => {
                self.phase = Phase::Closed;
                FinishStep {
                    released: None,
                    result: Err(CaptureError::OpenFailed(OpenFailure::Platform(reason))),
                }
            },
            OpenOutcome::Opened { stream, device_id, device_name, resumed } => match device_id {
                None => {
                    self.phase = Phase::Closed;
                    FinishStep {
                        released: Some(stream),
                        result: Err(CaptureError::OpenFailed(OpenFailure::Unbound)),
                    }
                },
                Some(id) => match resumed {
                    Err(reason) => {
                        self.phase = Phase::Closed;
                        FinishStep {
                            released: Some(stream),
                            result: Err(CaptureError::OpenFailed(OpenFailure::Resume(reason))),
                        }
                    },
                    Ok(_) => {
                        let name: String = match device_name {
                            Some(name) => name,
                            None => "unknown".to_owned(),
                        };
                        let device = AudioDeviceDescriptor { id, name };
                        self.phase = Phase::Capturing { stream, device };
                        FinishStep { released: None, result: Ok(()) }
                    },
                },
            },
        }
    }

    /// Begins capture from the device `device_id`.
    pub fn switch_to(&mut self, device_id: AudioDeviceID) -> (step: StartStep<S>)
        ensures
            final(self)@ == old(self)@.opening(device_id),
            step.released == old(self)@.stream,
            step.request == Ok::<OpenRequest, CaptureError>(
                OpenRequest { device_id, format: capture_format() },
            ),
    {
        self.begin_audio_recording(Some(device_id), None)
    }

    /// Begins capture from the device that follows the current one in
    /// `devices`, the list as the platform gives it now. The current device
    /// is looked for by identifier, then by name; where it is not listed, or
    /// the session has none, the head of the list is taken. Over an empty
    /// list nothing happens, and that is reported.
    pub fn open_next_device(&mut self, devices: &Vec<AudioDeviceDescriptor>) -> (step: StartStep<S>)
        ensures
            final(self)@ == old(self)@.switched(device_specs(devices@)),
            match next_index(device_specs(devices@), old(self)@.device) {
                Some(i) => 0 <= i < devices@.len() && step.released == old(self)@.stream
                    && step.request == Ok::<OpenRequest, CaptureError>(
                    OpenRequest { device_id: devices@[i].id, format: capture_format() },
                ),
                None => devices@.len() == 0 && step.released is None && step.request == Err::<
                    OpenRequest,
                    CaptureError,
                >(CaptureError::NoDeviceAvailable),
            },
    {
        let next: Option<usize> = next_device_index(devices, self.current_device());
        match next {
            Some(i) => {
                let device_id: AudioDeviceID = devices[i].id;
                self.begin_audio_recording(Some(device_id), None)
            },
            None => StartStep { released: None, request: Err(CaptureError::NoDeviceAvailable) },
        }
    }

    /// The device list to work with, from what the platform answered to the
    /// query for its input devices: the list itself, or an empty list and a
    /// warning where the query failed.
    pub fn list_devices(query: Result<Vec<AudioDeviceDescriptor>, String>) -> (listing:
        DeviceListing)
        ensures
            match query {
                Ok(devices) => listing.devices == devices && listing.warning is None,
                Err(reason) => listing.devices@.len() == 0 && listing.warning == Some(
                    CaptureError::DeviceEnumerationFailed(reason),
                ),
            },
    {
        match query {
            Ok(devices) => DeviceListing { devices, warning: None },
            Err(reason) => DeviceListing {
                devices: Vec::new(),
                warning: Some(CaptureError::DeviceEnumerationFailed(reason)),
            },
        }
    }

    /// Starts the drain pass of one frame. `available` is what the stream
    /// reports as waiting, `max_samples` the engine's limit for one call;
    /// the pass reads only if the session captures and samples wait.
    pub fn process_frame_samples(&self, available: Option<usize>, max_samples: u32) -> (relay:
        SampleRelay)
        ensures
            relay.capacity() == max_samples,
            relay.draining() == should_drain(self@.state == CaptureState::Capturing, available),
    {
        SampleRelay::begin(self.is_capturing(), available, max_samples)
    }
}

} // verus!
