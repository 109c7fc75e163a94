//! Core of a streaming audio visualizer: ingestion of a chunked audio stream
//! under a one-outstanding-append discipline, and per-frame fan-out of one
//! frequency snapshot to independently styled renderers.
//!
//! The crate holds no handle to a network, an audio graph or a drawing
//! surface. Every operation takes plain values and returns plain values: the
//! caller performs the outside work that a returned action, plan or frame
//! describes. Lengths, radii and fractions are fixed-point integers, see
//! [`units`].

pub mod units;
pub mod ring_style;
pub mod rainbow_style;
pub mod stream;
pub mod fault;
pub mod source;
pub mod ack;

use vstd::prelude::*;
use crate::rainbow_style::{Bg, BgState, Entropy, RainbowFrame, SpawnRoll};
use crate::ring_style::{RingFrame, RingState, Visualizer, BARS};
use crate::source::{resolve_source_url, resolved};
use crate::stream::{SessionModel, SessionState, StreamAction, StreamEvent, StreamIngestionController};

verus! {

/// Size of the transform that the analysis is configured with.
pub const FFT_SIZE: u32 = 256;

/// Number of frequency bins of a snapshot: half the transform size.
pub const BIN_COUNT: usize = 128;

/// The styles of renderer.
#[derive(Clone, Copy, Debug, PartialEq, Eq)]
pub enum StyleType {
    /// The ring of radial bars.
    Visualizer,
    /// The rainbow background with particles.
    Bg,
}

/// The instruction to blank a surface: clear the rectangle from its origin to
/// its full width and height.
#[derive(Clone, Copy, Debug)]
pub struct ClearRect {
    pub width: u32,
    pub height: u32,
}

/// What one renderer paints in one frame.
#[derive(Debug)]
pub enum Frame {
    Ring(RingFrame),
    Rainbow(RainbowFrame),
}

/// The mathematical state of one renderer instance.
pub enum InstanceState {
    Ring(RingState),
    Rainbow(BgState),
}

impl InstanceState {
    /// The states that an instance can be in.
    pub open spec fn wf(self) -> bool {
        match self {
            InstanceState::Ring(s) => s.wf(),
            InstanceState::Rainbow(s) => s.wf(),
        }
    }

    /// The state of a fresh instance of a style. Only the rainbow style
    /// consumes the rolls.
    pub open spec fn initial(width: int, height: int, style: StyleType, rolls: Seq<SpawnRoll>) -> InstanceState {
        match style {
            StyleType::Visualizer => InstanceState::Ring(RingState::initial(width, height)),
            StyleType::Bg => InstanceState::Rainbow(BgState::initial(width, height, rolls)),
        }
    }

    /// The style of the instance.
    pub open spec fn style(self) -> StyleType {
        match self {
            InstanceState::Ring(_) => StyleType::Visualizer,
            InstanceState::Rainbow(_) => StyleType::Bg,
        }
    }

    /// Width of the instance's surface.
    pub open spec fn width(self) -> int {
        match self {
            InstanceState::Ring(s) => s.width,
            InstanceState::Rainbow(s) => s.width,
        }
    }

    /// Height of the instance's surface.
    pub open spec fn height(self) -> int {
        match self {
            InstanceState::Ring(s) => s.height,
            InstanceState::Rainbow(s) => s.height,
        }
    }

    /// Whether the instance can draw a snapshot of the given length: the ring
    /// reads 128 bins, the rainbow reads what there is.
    pub open spec fn reads(self, bins: nat) -> bool {
        self is Ring ==> bins >= BARS
    }

    /// The state after drawing one snapshot. Only the rainbow style consumes
    /// the rolls.
    pub open spec fn after_draw(self, snapshot: Seq<u8>, entropy: Entropy) -> InstanceState {
        match self {
            InstanceState::Ring(s) => InstanceState::Ring(s.after_draw(snapshot)),
            InstanceState::Rainbow(s) => InstanceState::Rainbow(s.after_draw(snapshot, entropy)),
        }
    }

    /// Whether `frame` is what drawing `snapshot` in this state paints.
    pub open spec fn paints(self, snapshot: Seq<u8>, entropy: Entropy, frame: Frame) -> bool {
        match (self, frame) {
            (InstanceState::Ring(s), Frame::Ring(f)) => s.paints(snapshot, f),
            (InstanceState::Rainbow(s), Frame::Rainbow(f)) => s.paints(snapshot, entropy, f),
            _ => false,
        }
    }

    /// Whether `clear` blanks the whole surface of the instance.
    pub open spec fn cleared_by(self, clear: ClearRect) -> bool {
        clear.width == self.width() && clear.height == self.height()
    }
}

/// One registered renderer: the state of its style.
pub enum AudioVisualizerInstance {
    Ring(Visualizer),
    Rainbow(Bg),
}

impl View for AudioVisualizerInstance {
    type V = InstanceState;

    open spec fn view(&self) -> InstanceState {
        match self {
            AudioVisualizerInstance::Ring(v) => InstanceState::Ring(v@),
            AudioVisualizerInstance::Rainbow(b) => InstanceState::Rainbow(b@),
        }
    }
}

impl AudioVisualizerInstance {
    /// A renderer of the given style for a surface of the given pixel size.
    pub fn new(width: u32, height: u32, style_type: StyleType, rolls: &[SpawnRoll; 100]) -> (instance:
        AudioVisualizerInstance)
        ensures
            instance@ == InstanceState::initial(width as int, height as int, style_type, rolls@),
            instance@.wf(),
    {
        match style_type {
            StyleType::Visualizer => AudioVisualizerInstance::Ring(Visualizer::new(width, height)),
            StyleType::Bg => AudioVisualizerInstance::Rainbow(Bg::new(width, height, rolls)),
        }
    }

    /// The style of the renderer.
    pub fn style_type(&self) -> (style: StyleType)
        ensures
            style == self@.style(),
    {
        match self {
            AudioVisualizerInstance::Ring(_) => StyleType::Visualizer,
            AudioVisualizerInstance::Rainbow(_) => StyleType::Bg,
        }
    }

    /// Draws one frame in the renderer's style.
    pub fn draw(&mut self, audio_data: &[u8], entropy: &Entropy) -> (frame: Frame)
        requires
            old(self)@.wf(),
            old(self)@.reads(audio_data@.len()),
        ensures
            final(self)@ == old(self)@.after_draw(audio_data@, *entropy),
            final(self)@.wf(),
            old(self)@.paints(audio_data@, *entropy, frame),
    {
        match self {
            AudioVisualizerInstance::Ring(visualizer) => Frame::Ring(visualizer.draw(audio_data)),
            AudioVisualizerInstance::Rainbow(bg) => Frame::Rainbow(bg.draw(audio_data, entropy)),
        }
    }

    /// The instruction that blanks the renderer's surface. The renderer's
    /// state is untouched, so that a restart continues where the picture was.
    pub fn clear_canvas(&self) -> (clear: ClearRect)
        ensures
            self@.cleared_by(clear),
    {
        match self {
            AudioVisualizerInstance::Ring(visualizer) => ClearRect {
                width: visualizer.width(),
                height: visualizer.height(),
            },
            AudioVisualizerInstance::Rainbow(bg) => ClearRect { width: bg.width(), height: bg.height() },
        }
    }
}

/// What stopping asks of the caller: detach the playback element, and blank
/// the surfaces, `clears[i]` being for renderer `i`.
#[derive(Debug)]
pub struct StopPlan {
    pub clears: Vec<ClearRect>,
}

/// What starting a stream asks of the caller.
#[derive(Debug)]
pub struct StartPlan {
    /// The teardown to perform first, if a session was under way or had not
    /// been stopped.
    pub stop: Option<StopPlan>,
    /// The address to fetch.
    pub url: String,
    /// The number under which to report the events of the new session.
    pub session: u64,
}

/// Whether `clears` blanks the surface of every renderer, in order.
pub open spec fn clears_all(instances: Seq<InstanceState>, clears: Seq<ClearRect>) -> bool {
    &&& clears.len() == instances.len()
    &&& forall|i: int| 0 <= i < instances.len() ==> instances[i].cleared_by(#[trigger] clears[i])
}

/// The mathematical state of the processor.
pub struct ProcessorState {
    /// The ingestion controller.
    pub session: SessionModel,
    /// Whether playback has begun and has not been stopped.
    pub playing: bool,
    /// Whether an end-of-playback callback is registered.
    pub on_audio_end: bool,
    /// Whether the live session still owes its end-of-playback notification.
    pub end_pending: bool,
    /// The registered renderers, in registration order.
    pub instances: Seq<InstanceState>,
}

impl ProcessorState {
    /// The states that a processor can be in.
    pub open spec fn wf(self) -> bool {
        forall|i: int| 0 <= i < self.instances.len() ==> (#[trigger] self.instances[i]).wf()
    }

    /// A processor before any registration or session.
    pub open spec fn initial() -> ProcessorState {
        ProcessorState {
            session: SessionModel::initial(),
            playing: false,
            on_audio_end: false,
            end_pending: false,
            instances: Seq::empty(),
        }
    }

    /// The processor after `stop_audio`: the session idle, playback off, the
    /// renderers as they were.
    pub open spec fn stopped(self) -> ProcessorState {
        ProcessorState {
            session: self.session.stopped(),
            playing: false,
            on_audio_end: self.on_audio_end,
            end_pending: false,
            instances: self.instances,
        }
    }

    /// The processor after a start: a new session opening, playback not yet
    /// begun, the notification owed if a callback is registered.
    pub open spec fn started(self) -> ProcessorState {
        ProcessorState {
            session: self.session.started(),
            playing: false,
            on_audio_end: self.on_audio_end,
            end_pending: self.on_audio_end,
            instances: self.instances,
        }
    }

    /// Whether a ring renderer is registered.
    pub open spec fn has_ring(self) -> bool {
        exists|i: int| 0 <= i < self.instances.len() && (#[trigger] self.instances[i]) is Ring
    }

    /// Number of bins that a snapshot must have for a tick to draw it: the
    /// 128 that a ring reads, if one is registered.
    pub open spec fn bins_needed(self) -> nat {
        if self.has_ring() {
            BARS as nat
        } else {
            0
        }
    }

    /// Whether a tick can draw: while playing, every renderer has its rolls
    /// and the bins that it reads.
    pub open spec fn can_draw(self, snapshot: Seq<u8>, entropy: Seq<Entropy>) -> bool {
        self.playing ==> {
            &&& entropy.len() == self.instances.len()
            &&& snapshot.len() >= self.bins_needed()
        }
    }

    /// The processor after a tick: while playing, every renderer has drawn
    /// the snapshot with its own rolls; otherwise nothing has changed.
    pub open spec fn after_tick(self, snapshot: Seq<u8>, entropy: Seq<Entropy>) -> ProcessorState {
        if self.playing {
            ProcessorState {
                session: self.session,
                playing: self.playing,
                on_audio_end: self.on_audio_end,
                end_pending: self.end_pending,
                instances: Seq::new(
                    self.instances.len(),
                    |i: int| self.instances[i].after_draw(snapshot, entropy[i]),
                ),
            }
        } else {
            self
        }
    }

    /// Whether `frames` is what a tick paints: while playing, one frame per
    /// renderer in registration order; otherwise none.
    pub open spec fn tick_paints(self, snapshot: Seq<u8>, entropy: Seq<Entropy>, frames: Seq<Frame>) -> bool {
        if self.playing {
            &&& frames.len() == self.instances.len()
            &&& forall|i: int|
                0 <= i < self.instances.len() ==> self.instances[i].paints(
                    snapshot,
                    entropy[i],
                    #[trigger] frames[i],
                )
        } else {
            frames.len() == 0
        }
    }
}

/// The processor: one ingestion controller, the playback flag, and the
/// registry of renderers that every tick fans a snapshot out to.
pub struct SharedAudioProcessor {
    stream: StreamIngestionController,
    is_playing: bool,
    on_audio_end: bool,
    end_pending: bool,
    instances: Vec<AudioVisualizerInstance>,
}

impl View for SharedAudioProcessor {
    type V = ProcessorState;

    closed spec fn view(&self) -> ProcessorState {
        ProcessorState {
            session: self.stream@,
            playing: self.is_playing,
            on_audio_end: self.on_audio_end,
            end_pending: self.end_pending,
            instances: self.instances@.map_values(|instance: AudioVisualizerInstance| instance@),
        }
    }
}

impl SharedAudioProcessor {
    spec fn inv(self) -> bool {
        forall|i: int| 0 <= i < self.instances@.len() ==> (#[trigger] self.instances@[i])@.wf()
    }

    proof fn lemma_inv_is_wf(self)
        ensures
            self.inv() <==> self@.wf(),
            self@.instances.len() == self.instances@.len(),
    {
        if self.inv() {
            assert forall|i: int| 0 <= i < self@.instances.len() implies (
            #[trigger] self@.instances[i]).wf() by {
                assert(self@.instances[i] == self.instances@[i]@);
            }
        }
        if self@.wf() {
            assert forall|i: int| 0 <= i < self.instances@.len() implies (
            #[trigger] self.instances@[i])@.wf() by {
                assert(self@.instances[i] == self.instances@[i]@);
            }
        }
    }

    /// A processor with no renderer, no callback and no session.
    pub fn new() -> (processor: SharedAudioProcessor)
        ensures
            processor@ == ProcessorState::initial(),
            processor@.wf(),
    {
        let processor = SharedAudioProcessor {
            stream: StreamIngestionController::new(),
            is_playing: false,
            on_audio_end: false,
            end_pending: false,
            instances: Vec::new(),
        };
        proof {
            processor.lemma_inv_is_wf();
            assert(processor@.instances =~= Seq::<InstanceState>::empty());
        }
        processor
    }

    /// Registers a renderer of the given style for a surface of the given
    /// pixel size, behind those registered before, and returns its index.
    pub fn add_instance(
        &mut self,
        width: u32,
        height: u32,
        style_type: StyleType,
        rolls: &[SpawnRoll; 100],
    ) -> (index: usize)
        requires
            old(self)@.wf(),
        ensures
            final(self)@.wf(),
            index == old(self)@.instances.len(),
            final(self)@.instances == old(self)@.instances.push(
                InstanceState::initial(width as int, height as int, style_type, rolls@),
            ),
            final(self)@.session == old(self)@.session,
            final(self)@.playing == old(self)@.playing,
            final(self)@.on_audio_end == old(self)@.on_audio_end,
            final(self)@.end_pending == old(self)@.end_pending,
    {
        proof {
            self.lemma_inv_is_wf();
        }
        let ghost before = self@;
        let index = self.instances.len();
        let instance = AudioVisualizerInstance::new(width, height, style_type, rolls);
        self.instances.push(instance);
        proof {
            self.lemma_inv_is_wf();
            assert(self@.instances =~= before.instances.push(instance@));
        }
        index
    }

    /// Registers the end-of-playback callback, which the caller keeps. A
    /// session notifies it if it was registered when the session started.
    pub fn set_on_audio_end(&mut self)
        ensures
            final(self)@.on_audio_end,
            final(self)@.session == old(self)@.session,
            final(self)@.playing == old(self)@.playing,
            final(self)@.end_pending == old(self)@.end_pending,
            final(self)@.instances == old(self)@.instances,
    {
        self.on_audio_end = true;
    }

    /// Starts a session on the audio source at `path`. If the controller is
    /// not idle, the processor is stopped first, and the plan says so.
    pub fn process_audio_from_path(&mut self, path: &str) -> (plan: StartPlan)
        ensures
            final(self)@ == old(self)@.started(),
            plan.url@ == resolved(path@),
            plan.session == final(self)@.session.session,
            plan.stop is Some <==> !(old(self)@.session.state is Idle),
            plan.stop matches Some(stop) ==> clears_all(old(self)@.instances, stop.clears@),
    {
        let stop = match self.stream.state() {
            SessionState::Idle => None,
            _ => Some(self.stop_audio()),
        };
        let _teardown = self.stream.start();
        self.is_playing = false;
        self.end_pending = self.on_audio_end;
        StartPlan { stop, url: resolve_source_url(path), session: self.stream.session() }
    }

    /// Takes the news that playback of a session has begun. It is accepted,
    /// and ticks draw from then on, if the session is the live one.
    pub fn playback_started(&mut self, session: u64) -> (accepted: bool)
        ensures
            accepted == (session == old(self)@.session.session && !(old(self)@.session.state is Idle)),
            final(self)@.playing == (accepted || old(self)@.playing),
            final(self)@.session == old(self)@.session,
            final(self)@.on_audio_end == old(self)@.on_audio_end,
            final(self)@.end_pending == old(self)@.end_pending,
            final(self)@.instances == old(self)@.instances,
    {
        let live = match self.stream.state() {
            SessionState::Idle => false,
            _ => session == self.stream.session(),
        };
        if live {
            self.is_playing = true;
        }
        live
    }

    /// Takes the news that playback of a session has come to its natural end,
    /// and says whether the callback is to be invoked: once per session at
    /// most, and only for the live session.
    pub fn playback_ended(&mut self, session: u64) -> (notify: bool)
        ensures
            notify == (session == old(self)@.session.session && old(self)@.end_pending),
            final(self)@.end_pending == (old(self)@.end_pending && !notify),
            final(self)@.session == old(self)@.session,
            final(self)@.playing == old(self)@.playing,
            final(self)@.on_audio_end == old(self)@.on_audio_end,
            final(self)@.instances == old(self)@.instances,
    {
        let notify = self.end_pending && session == self.stream.session();
        if notify {
            self.end_pending = false;
        }
        notify
    }

    /// Hands an event of the streaming task to the ingestion controller and
    /// returns its answer.
    pub fn on_stream_event(&mut self, session: u64, event: StreamEvent) -> (action: StreamAction)
        ensures
            (final(self)@.session, action) == old(self)@.session.on_event(session, event),
            final(self)@.playing == old(self)@.playing,
            final(self)@.on_audio_end == old(self)@.on_audio_end,
            final(self)@.end_pending == old(self)@.end_pending,
            final(self)@.instances == old(self)@.instances,
    {
        self.stream.on_event(session, event)
    }

    /// Stops, from any state: the session is abandoned and idle, playback is
    /// off, and the plan blanks every surface. The renderers keep their state.
    pub fn stop_audio(&mut self) -> (plan: StopPlan)
        ensures
            final(self)@ == old(self)@.stopped(),
            final(self)@.session.state is Idle,
            !final(self)@.playing,
            clears_all(old(self)@.instances, plan.clears@),
    {
        self.is_playing = false;
        self.end_pending = false;
        let _was_active = self.stream.stop();
        StopPlan { clears: self.clear_all() }
    }

    /// One tick. While playing, every renderer draws the snapshot with its
    /// own rolls, in registration order, and `frames[i]` is what renderer `i`
    /// paints. While not playing, nothing is drawn and nothing changes.
    pub fn draw(&mut self, snapshot: &[u8], entropy: &[Entropy]) -> (frames: Vec<Frame>)
        requires
            old(self)@.wf(),
            old(self)@.can_draw(snapshot@, entropy@),
        ensures
            final(self)@ == old(self)@.after_tick(snapshot@, entropy@),
            final(self)@.wf(),
            old(self)@.tick_paints(snapshot@, entropy@, frames@),
    {
        let mut frames: Vec<Frame> = Vec::new();
        if !self.is_playing {
            return frames;
        }
        let ghost before = self@;
        proof {
            self.lemma_inv_is_wf();
            assert forall|k: int| 0 <= k < self.instances@.len() implies (
            #[trigger] self.instances@[k])@.reads(snapshot@.len()) by {
                assert(before.instances[k] == self.instances@[k]@);
            }
        }
        let count = self.instances.len();
        let mut i: usize = 0;
        while i < count
            invariant
                i <= count,
                count == self.instances@.len(),
                count == old(self).instances@.len(),
                entropy@.len() == count,
                self.stream == old(self).stream,
                self.is_playing == old(self).is_playing,
                self.on_audio_end == old(self).on_audio_end,
                self.end_pending == old(self).end_pending,
                forall|k: int| 0 <= k < count ==> (#[trigger] old(self).instances@[k])@.wf(),
                forall|k: int|
                    0 <= k < count ==> (#[trigger] old(self).instances@[k])@.reads(snapshot@.len()),
                forall|k: int| 0 <= k < count ==> (#[trigger] self.instances@[k])@.wf(),
                forall|k: int|
                    0 <= k < i ==> (#[trigger] self.instances@[k])@ == old(
                        self,
                    ).instances@[k]@.after_draw(snapshot@, entropy@[k]),
                forall|k: int| i <= k < count ==> #[trigger] self.instances@[k] == old(self).instances@[k],
                frames@.len() == i,
                forall|k: int|
                    0 <= k < i ==> old(self).instances@[k]@.paints(
                        snapshot@,
                        entropy@[k],
                        #[trigger] frames@[k],
                    ),
            decreases count - i,
        {
            let frame = self.instances[i].draw(snapshot, &entropy[i]);
            frames.push(frame);
            i = i + 1;
        }
        proof {
            self.lemma_inv_is_wf();
            assert(self@.instances =~= before.after_tick(snapshot@, entropy@).instances);
            assert forall|k: int| 0 <= k < before.instances.len() implies before.instances[k].paints(
                snapshot@,
                entropy@[k],
                #[trigger] frames@[k],
            ) by {
                assert(before.instances[k] == old(self).instances@[k]@);
            }
        }
        frames
    }

    /// The instructions that blank every surface, `clears[i]` being for
    /// renderer `i`.
    pub fn clear_all(&self) -> (clears: Vec<ClearRect>)
        ensures
            clears_all(self@.instances, clears@),
    {
        let mut clears: Vec<ClearRect> = Vec::new();
        let mut i: usize = 0;
        while i < self.instances.len()
            invariant
                i <= self.instances@.len(),
                clears@.len() == i,
                forall|k: int| 0 <= k < i ==> self.instances@[k]@.cleared_by(#[trigger] clears@[k]),
            decreases self.instances@.len() - i,
        {
            clears.push(self.instances[i].clear_canvas());
            i = i + 1;
        }
        proof {
            assert forall|k: int| 0 <= k < self@.instances.len() implies self@.instances[k].cleared_by(
                #[trigger] clears@[k],
            ) by {
                assert(self@.instances[k] == self.instances@[k]@);
            }
        }
        clears
    }

    /// Whether playback has begun and has not been stopped.
    pub fn is_playing(&self) -> (b: bool)
        ensures
            b == self@.playing,
    {
        self.is_playing
    }

    /// Number of registered renderers.
    pub fn instance_count(&self) -> (n: usize)
        ensures
            n == self@.instances.len(),
    {
        self.instances.len()
    }

    /// The state of the live session, or of the last one.
    pub fn session_state(&self) -> (s: SessionState)
        ensures
            s == self@.session.state,
    {
        self.stream.state()
    }

    /// The number of the live session, or of the last one.
    pub fn session(&self) -> (n: u64)
        ensures
            n == self@.session.session,
    {
        self.stream.session()
    }

    /// Number of bins that a snapshot must have for a tick to draw it.
    pub fn bins_needed(&self) -> (n: usize)
        ensures
            n == self@.bins_needed(),
    {
        let mut needed: usize = 0;
        let mut i: usize = 0;
        while i < self.instances.len()
            invariant
                i <= self.instances@.len(),
                needed == 0 || needed == BARS,
                needed == BARS <==> exists|k: int| 0 <= k < i && (#[trigger] self.instances@[k])@ is Ring,
            decreases self.instances@.len() - i,
        {
            match self.instances[i].style_type() {
                StyleType::Visualizer => {
                    needed = BARS;
                },
                StyleType::Bg => {},
            }
            i = i + 1;
        }
        proof {
            if needed == BARS {
                let k = choose|k: int|
                    0 <= k < self.instances@.len() && (#[trigger] self.instances@[k])@ is Ring;
                assert(self@.instances[k] == self.instances@[k]@);
            }
            if self@.has_ring() {
                let k = choose|k: int|
                    0 <= k < self@.instances.len() && (#[trigger] self@.instances[k]) is Ring;
                assert(self@.instances[k] == self.instances@[k]@);
            }
        }
        needed
    }
}

} // verus!
