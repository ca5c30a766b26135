//! The streaming pump as a state machine: the caller performs each action
//! (a transfer, a read from the decoder, a sleep) and reports what came of it;
//! the pump decides what happens next.

use vstd::prelude::*;
use crate::config::Picture;
use crate::error::Error;
use crate::framebuffer::{
    check_decoded_pixels, frame_size, solid_color_frame, solid_fill, BYTES_PER_PIXEL,
};
use crate::protocol::{compose_probe_request, frame_packet, frame_pkt, payload_length, probe_header};
use crate::usb::{BULK_READ_TIMEOUT_MS, BULK_WRITE_TIMEOUT_MS};

verus! {

/// Pause between frames where nothing in the picture changes, in milliseconds.
pub const DEFAULT_INTERVAL_MS: u64 = 1000;

/// Where the payload of each frame comes from.
#[derive(Debug)]
pub enum FrameSource {
    /// Every pixel has one colour; the payload is built anew for each frame.
    Constant { color: u16 },
    /// The pixels of one decoded image, shown again and again.
    SingleShot { pixels: Vec<u8> },
    /// Frames are read one at a time from a running decoder.
    Stream { frame_size: usize },
}

impl FrameSource {
    /// Whether the source fits a display of the given size.
    pub open spec fn wf(self, width: u16, height: u16) -> bool {
        match self {
            FrameSource::Constant { .. } => true,
            FrameSource::SingleShot { pixels } => pixels@.len() == frame_size(width, height),
            FrameSource::Stream { frame_size: n } => n == frame_size(width, height),
        }
    }

    /// A source of frames of one colour.
    pub fn constant(color: u16) -> (s: FrameSource)
        ensures
            s == (FrameSource::Constant { color }),
    {
        FrameSource::Constant { color }
    }

    /// A source that shows one decoded image. Pixels that are not exactly one
    /// frame are refused.
    pub fn single_shot(width: u16, height: u16, pixels: Vec<u8>) -> (r: Result<FrameSource, Error>)
        requires
            frame_size(width, height) <= u32::MAX,
        ensures
            pixels@.len() == frame_size(width, height) ==> r == Ok::<FrameSource, Error>(
                FrameSource::SingleShot { pixels },
            ),
            pixels@.len() != frame_size(width, height) ==> r == Err::<FrameSource, Error>(
                Error::DecodeSizeMismatch {
                    expected: frame_size(width, height) as usize,
                    actual: pixels@.len() as usize,
                },
            ),
            r is Ok ==> r->Ok_0.wf(width, height),
    {
        match check_decoded_pixels(width, height, pixels) {
            Ok(checked) => Ok(FrameSource::SingleShot { pixels: checked }),
            Err(e) => Err(e),
        }
    }

    /// A source that reads frames of the display's size from a decoder.
    pub fn stream(width: u16, height: u16) -> (s: FrameSource)
        requires
            frame_size(width, height) <= u32::MAX,
        ensures
            s == (FrameSource::Stream { frame_size: frame_size(width, height) as usize }),
            s.wf(width, height),
    {
        FrameSource::Stream { frame_size: payload_length(width, height, BYTES_PER_PIXEL) as usize }
    }
}

/// The pause between two frames of a picture: a video's frame period in whole
/// milliseconds, and the default for a picture that does not change.
pub open spec fn pacing_interval(picture: Picture) -> int
    recommends
        picture is Video ==> picture->fps > 0,
{
    match picture {
        Picture::Video { fps, .. } => 1000int / (fps as int),
        _ => 1000int,
    }
}

/// Computes the pause between two frames.
pub fn pacing_interval_ms(picture: &Picture) -> (ms: u64)
    requires
        *picture is Video ==> picture->fps > 0,
    ensures
        ms == pacing_interval(*picture),
{
    match picture {
        Picture::Video { fps, .. } => 1000 / (*fps as u64),
        _ => DEFAULT_INTERVAL_MS,
    }
}

/// What the pump is waiting for.
#[derive(Clone, Copy, Debug, PartialEq, Eq, Structural)]
pub enum Phase {
    /// Endpoints are not yet known.
    Init,
    /// The probe request is on its way.
    Probing,
    /// Streaming: waiting for the decoder's next frame.
    Reading,
    /// Streaming: a packet of `expected` bytes is being written.
    Writing { expected: usize },
    /// Streaming: sleeping until the next frame is due.
    Pacing,
    /// Done, for good.
    Stopped,
}

/// What the caller reports to the pump.
#[derive(Debug)]
pub enum Event {
    /// The endpoints were found.
    Started,
    /// The probe exchange is over; `answered` tells whether a response came.
    ProbeFinished { answered: bool },
    /// The decoder's stream gave these bytes for the frame that was asked for.
    /// Anything but a whole frame means that the stream has ended.
    FrameRead { bytes: Vec<u8> },
    /// Reading from the decoder failed for another reason than its end.
    ReadFailed,
    /// The bulk write returned after moving `written` bytes.
    Written { written: usize },
    /// The bulk write failed or timed out.
    WriteFailed,
    /// The pause is over.
    Slept,
}

/// What the pump asks of the caller.
#[derive(Debug)]
pub enum Action {
    /// Write the probe request to the OUT endpoint within `write_timeout_ms`
    /// milliseconds, then read the response from the IN endpoint within
    /// `read_timeout_ms` milliseconds.
    SendProbe { request: Vec<u8>, write_timeout_ms: u64, read_timeout_ms: u64 },
    /// Read `size` bytes from the decoder, blocking until they are there or
    /// the stream closes.
    ReadFrame { size: usize },
    /// Write the packet to the OUT endpoint within `timeout_ms` milliseconds.
    Write { packet: Vec<u8>, timeout_ms: u64 },
    /// Sleep for `millis` milliseconds.
    Sleep { millis: u64 },
    /// Release the frame source, ending any decoder process, and return
    /// `result`.
    Finish { result: Result<(), Error> },
}

/// The streaming pump.
#[derive(Debug)]
pub struct Pump {
    pub phase: Phase,
    pub width: u16,
    pub height: u16,
    pub source: FrameSource,
    pub interval_ms: u64,
    /// Frames written in full so far; it stops counting at `u64::MAX`.
    pub sent: u64,
    /// The error that stopped the pump, if one did.
    pub failure: Option<Error>,
}

/// Whether a pump in `phase` waits for `event`. A stopped pump takes any event.
pub open spec fn awaited(phase: Phase, event: Event) -> bool {
    match phase {
        Phase::Init => event is Started,
        Phase::Probing => event is ProbeFinished,
        Phase::Reading => event is FrameRead || event is ReadFailed,
        Phase::Writing { .. } => event is Written || event is WriteFailed,
        Phase::Pacing => event is Slept,
        Phase::Stopped => true,
    }
}

/// `n + 1`, or `n` where that does not fit.
pub open spec fn counted(n: u64) -> u64 {
    if n < u64::MAX {
        (n + 1) as u64
    } else {
        n
    }
}

impl Pump {
    /// Whether the pump's parts fit together.
    pub open spec fn wf(self) -> bool {
        &&& frame_size(self.width, self.height) <= u32::MAX
        &&& self.source.wf(self.width, self.height)
        &&& self.phase == Phase::Reading ==> self.source is Stream
        &&& self.phase != Phase::Stopped ==> self.failure is None
    }

    /// The result that a stopped pump hands back.
    pub open spec fn result(self) -> Result<(), Error> {
        match self.failure {
            Some(e) => Err(e),
            None => Ok(()),
        }
    }

    /// Whether `next` differs from `self` in nothing but phase, count and failure.
    pub open spec fn same_setup(self, next: Pump) -> bool {
        &&& next.width == self.width
        &&& next.height == self.height
        &&& next.source == self.source
        &&& next.interval_ms == self.interval_ms
    }

    /// Whether `next` and `action` are how a pump in state `self` starts on
    /// its next frame: a constant or single-shot source has the packet ready
    /// to be written, a stream source must first read the frame.
    pub open spec fn starts_frame(self, next: Pump, action: Action) -> bool {
        &&& next.sent == self.sent
        &&& next.failure == self.failure
        &&& match self.source {
            FrameSource::Constant { color } => {
                &&& action is Write
                &&& action->timeout_ms == BULK_WRITE_TIMEOUT_MS
                &&& action->packet@ == frame_packet(
                    self.width,
                    self.height,
                    BYTES_PER_PIXEL,
                    solid_fill((self.width as nat) * (self.height as nat), color),
                )
                &&& next.phase == (Phase::Writing { expected: action->packet@.len() as usize })
            },
            FrameSource::SingleShot { pixels } => {
                &&& action is Write
                &&& action->timeout_ms == BULK_WRITE_TIMEOUT_MS
                &&& action->packet@ == frame_packet(
                    self.width,
                    self.height,
                    BYTES_PER_PIXEL,
                    pixels@,
                )
                &&& next.phase == (Phase::Writing { expected: action->packet@.len() as usize })
            },
            FrameSource::Stream { frame_size: n } => {
                &&& action == (Action::ReadFrame { size: n })
                &&& next.phase == Phase::Reading
            },
        }
    }

    /// Whether `next` and `action` are the pump stopped with `failure`.
    pub open spec fn stops(self, next: Pump, action: Action, failure: Option<Error>) -> bool {
        &&& next.phase == Phase::Stopped
        &&& next.sent == self.sent
        &&& next.failure == failure
        &&& action == (Action::Finish { result: next.result() })
    }

    /// Whether `next` and `action` are what the pump in state `self` makes of
    /// an event that it waits for.
    pub open spec fn steps_to(self, event: Event, next: Pump, action: Action) -> bool {
        match self.phase {
            Phase::Init => {
                &&& next.phase == Phase::Probing
                &&& next.sent == self.sent
                &&& next.failure == self.failure
                &&& action is SendProbe
                &&& action->request@ == probe_header().wire()
                &&& action->write_timeout_ms == BULK_WRITE_TIMEOUT_MS
                &&& action->read_timeout_ms == BULK_READ_TIMEOUT_MS
            },
            Phase::Probing => self.starts_frame(next, action),
            Phase::Pacing => self.starts_frame(next, action),
            Phase::Reading => if event is ReadFailed {
                self.stops(next, action, Some(Error::SourceRead))
            } else if event->bytes@.len() == frame_size(self.width, self.height) {
                &&& next.sent == self.sent
                &&& next.failure == self.failure
                &&& action is Write
                &&& action->timeout_ms == BULK_WRITE_TIMEOUT_MS
                &&& action->packet@ == frame_packet(
                    self.width,
                    self.height,
                    BYTES_PER_PIXEL,
                    event->bytes@,
                )
                &&& next.phase == (Phase::Writing { expected: action->packet@.len() as usize })
            } else {
                self.stops(next, action, None)
            },
            Phase::Writing { expected } => if event is Written && event->written == expected {
                &&& next.phase == Phase::Pacing
                &&& next.sent == counted(self.sent)
                &&& next.failure == self.failure
                &&& action == (Action::Sleep { millis: self.interval_ms })
            } else if event is Written {
                self.stops(
                    next,
                    action,
                    Some(Error::ShortWrite { written: event->written, expected }),
                )
            } else {
                self.stops(next, action, Some(Error::Transport))
            },
            Phase::Stopped => self.stops(next, action, self.failure),
        }
    }

    /// A pump that has not started.
    pub fn new(width: u16, height: u16, source: FrameSource, interval_ms: u64) -> (p: Pump)
        requires
            frame_size(width, height) <= u32::MAX,
            source.wf(width, height),
        ensures
            p.wf(),
            p == (Pump {
                phase: Phase::Init,
                width,
                height,
                source,
                interval_ms,
                sent: 0,
                failure: None,
            }),
    {
        Pump { phase: Phase::Init, width, height, source, interval_ms, sent: 0, failure: None }
    }

    /// Whether the pump has stopped.
    pub fn is_stopped(&self) -> (b: bool)
        ensures
            b == (self.phase == Phase::Stopped),
    {
        match self.phase {
            Phase::Stopped => true,
            _ => false,
        }
    }

    /// Whether the pump waits for `event`.
    pub fn accepts(&self, event: &Event) -> (b: bool)
        ensures
            b == awaited(self.phase, *event),
    {
        match self.phase {
            Phase::Init => matches!(event, Event::Started),
            Phase::Probing => matches!(event, Event::ProbeFinished { .. }),
            Phase::Reading => matches!(event, Event::FrameRead { .. } | Event::ReadFailed),
            Phase::Writing { .. } => matches!(event, Event::Written { .. } | Event::WriteFailed),
            Phase::Pacing => matches!(event, Event::Slept),
            Phase::Stopped => true,
        }
    }

    fn stop(&mut self, failure: Option<Error>) -> (action: Action)
        requires
            old(self).wf(),
        ensures
            final(self).wf(),
            old(self).same_setup(*final(self)),
            old(self).stops(*final(self), action, failure),
    {
        self.phase = Phase::Stopped;
        self.failure = failure;
        match failure {
            Some(e) => Action::Finish { result: Err(e) },
            None => Action::Finish { result: Ok(()) },
        }
    }

    fn write_packet(&mut self, packet: Vec<u8>) -> (action: Action)
        requires
            old(self).wf(),
            old(self).phase != Phase::Stopped,
        ensures
            final(self).wf(),
            old(self).same_setup(*final(self)),
            final(self).sent == old(self).sent,
            final(self).failure == old(self).failure,
            final(self).phase == (Phase::Writing { expected: packet@.len() as usize }),
            action == (Action::Write { packet, timeout_ms: BULK_WRITE_TIMEOUT_MS }),
    {
        self.phase = Phase::Writing { expected: packet.len() };
        Action::Write { packet, timeout_ms: BULK_WRITE_TIMEOUT_MS }
    }

    fn start_frame(&mut self) -> (action: Action)
        requires
            old(self).wf(),
            old(self).phase != Phase::Stopped,
        ensures
            final(self).wf(),
            old(self).same_setup(*final(self)),
            old(self).starts_frame(*final(self), action),
    {
        match &self.source {
            FrameSource::Constant { color } => {
                let packet = solid_color_frame(self.width, self.height, *color);
                self.write_packet(packet)
            },
            FrameSource::SingleShot { pixels } => {
                let payload = copy_bytes(pixels);
                let packet = frame_pkt(self.width, self.height, BYTES_PER_PIXEL, payload);
                self.write_packet(packet)
            },
            FrameSource::Stream { frame_size } => {
                let size = *frame_size;
                self.phase = Phase::Reading;
                Action::ReadFrame { size }
            },
        }
    }

    /// Takes one event and says what to do next. An event that the pump does
    /// not wait for changes nothing and gets no action. A stopped pump stays
    /// stopped and repeats its result.
    pub fn step(&mut self, event: Event) -> (r: Option<Action>)
        requires
            old(self).wf(),
        ensures
            final(self).wf(),
            old(self).same_setup(*final(self)),
            !awaited(old(self).phase, event) ==> r is None && *final(self) == *old(self),
            awaited(old(self).phase, event) ==> r is Some && old(self).steps_to(
                event,
                *final(self),
                r->0,
            ),
    {
        match self.phase {
            Phase::Init => match event {
                Event::Started => {
                    self.phase = Phase::Probing;
                    Some(
                        Action::SendProbe {
                            request: compose_probe_request(),
                            write_timeout_ms: BULK_WRITE_TIMEOUT_MS,
                            read_timeout_ms: BULK_READ_TIMEOUT_MS,
                        },
                    )
                },
                _ => None,
            },
            Phase::Probing => match event {
                Event::ProbeFinished { .. } => Some(self.start_frame()),
                _ => None,
            },
            Phase::Pacing => match event {
                Event::Slept => Some(self.start_frame()),
                _ => None,
            },
            Phase::Reading => match event {
                Event::FrameRead { bytes } => {
                    let size = payload_length(self.width, self.height, BYTES_PER_PIXEL) as usize;
                    if bytes.len() == size {
                        let packet = frame_pkt(self.width, self.height, BYTES_PER_PIXEL, bytes);
                        Some(self.write_packet(packet))
                    } else {
                        Some(self.stop(None))
                    }
                },
                Event::ReadFailed => Some(self.stop(Some(Error::SourceRead))),
                _ => None,
            },
            Phase::Writing { expected } => match event {
                Event::Written { written } => {
                    if written == expected {
                        self.phase = Phase::Pacing;
                        if self.sent < u64::MAX {
                            self.sent = self.sent + 1;
                        }
                        Some(Action::Sleep { millis: self.interval_ms })
                    } else {
                        Some(self.stop(Some(Error::ShortWrite { written, expected })))
                    }
                },
                Event::WriteFailed => Some(self.stop(Some(Error::Transport))),
                _ => None,
            },
            Phase::Stopped => {
                let failure = self.failure;
                Some(self.stop(failure))
            },
        }
    }
}

/// A stopped pump stays as it is, whatever it is told, and repeats its result.
pub proof fn lemma_stopped_is_terminal(p: Pump, event: Event, next: Pump, action: Action)
    requires
        p.phase == Phase::Stopped,
        p.steps_to(event, next, action),
    ensures
        next.phase == Phase::Stopped,
        next.sent == p.sent,
        next.failure == p.failure,
        action == (Action::Finish { result: p.result() }),
{
}

/// A running pump stops for three reasons only. The end of the decoder's
/// stream stops it without a failure; a short or failed write and a failed
/// read stop it with one. Every other event keeps it running.
pub proof fn lemma_why_the_pump_stops(p: Pump, event: Event, next: Pump, action: Action)
    requires
        p.wf(),
        p.phase != Phase::Stopped,
        awaited(p.phase, event),
        p.steps_to(event, next, action),
    ensures
        next.phase == Phase::Stopped <==> {
            ||| event is FrameRead && event->bytes@.len() != frame_size(p.width, p.height)
            ||| event is ReadFailed
            ||| event is WriteFailed
            ||| event is Written && p.phase != (Phase::Writing { expected: event->written })
        },
        next.phase == Phase::Stopped ==> (next.failure is None <==> event is FrameRead),
        next.phase == Phase::Stopped && next.failure is None ==> p.source is Stream,
        next.phase == Phase::Stopped ==> action == (Action::Finish { result: next.result() }),
{
}

/// The count of frames never falls, and it rises, by one, exactly where a
/// packet was written in full.
pub proof fn lemma_count_of_frames(p: Pump, event: Event, next: Pump, action: Action)
    requires
        p.wf(),
        awaited(p.phase, event),
        p.steps_to(event, next, action),
    ensures
        next.sent >= p.sent,
        next.sent != p.sent ==> next.sent == p.sent + 1 && event is Written && p.phase == (
        Phase::Writing { expected: event->written }),
        event is Written && p.phase == (Phase::Writing { expected: event->written }) && p.sent
            < u64::MAX ==> next.sent == p.sent + 1,
{
}

/// A copy of `bytes`.
pub fn copy_bytes(bytes: &Vec<u8>) -> (copy: Vec<u8>)
    ensures
        copy@ == bytes@,
{
    let mut copy: Vec<u8> = Vec::new();
    let mut k: usize = 0;
    while k < bytes.len()
        invariant
            k <= bytes@.len(),
            copy@ == bytes@.take(k as int),
        decreases bytes@.len() - k,
    {
        copy.push(bytes[k]);
        k = k + 1;
        assert(copy@ =~= bytes@.take(k as int));
    }
    assert(bytes@.take(bytes@.len() as int) =~= bytes@);
    copy
}

} // verus!
