//! The frame orchestrator: one value owning the clock, the surface
//! configuration, the depth target, and the uniform channel, stepped
//! through the per-frame state machine
//! `Idle → Acquiring → Recording → Submitted → Presented → Idle`.
//!
//! The surrounding binary drives the loop: it measures the frame delta,
//! attempts the surface acquisition, replays the returned command
//! stream against the device, submits, and presents; every decision and
//! every piece of recorded state lives here. A failed acquisition is
//! transient: the frame is skipped whole and the loop recovers on the
//! next event. Resize events arrive between frames and update surface,
//! depth target, and projection in one step, so the dimension-match
//! invariant holds whenever a frame is in flight.

use crate::clock::FrameInfo;
use crate::depth::DepthTarget;
use crate::passes::CommandStream;
use crate::passes::frame_stream_spec;
use crate::passes::record_frame;
use crate::surface::SurfaceConfig;
use crate::uniform::Projection;
use crate::uniform::UniformChannel;
use crate::uniform::block_bytes;
use crate::uniform::wrap_inc;
use crate::clamp_dim_spec;
use vstd::prelude::*;

verus! {

/// Where the orchestrator stands inside one frame. Between events it
/// always rests at `Idle`.
#[derive(Clone, Copy, PartialEq, Eq, Structural, Debug)]
pub enum FrameState {
    Idle,
    Acquiring,
    Recording,
    Submitted,
    Presented,
}

/// What the surface acquisition came back with. `Unavailable` is the
/// transient per-frame failure: the surface was invalidated externally,
/// so this frame draws nothing and the next event recovers.
#[derive(Clone, Copy, PartialEq, Eq, Structural, Debug)]
pub enum AcquireOutcome {
    Acquired,
    Unavailable,
}

/// Everything the binary needs to realize one frame: the bytes to
/// write into the uniform buffer before drawing, and the two-pass
/// command stream to replay, submit as one unit, and present.
pub struct FramePlan {
    pub uniform_block: Vec<u8>,
    pub stream: CommandStream,
}

/// The root per-session value: owns all frame-lifecycle state.
pub struct FrameOrchestrator {
    pub clock: FrameInfo,
    pub surface: SurfaceConfig,
    pub depth: DepthTarget,
    pub channel: UniformChannel,
    /// How many indices one draw of the fixed mesh covers.
    pub index_count: u32,
    pub state: FrameState,
}

impl FrameOrchestrator {
    /// The session invariant: the clock is between windows, the surface
    /// is at least one pixel each way, the depth target is well formed
    /// and exactly matches the surface, the recorded projection is
    /// derived from exactly the current surface dimensions, and the
    /// device-side mirror agrees with the CPU mirror.
    pub open spec fn wf(self) -> bool {
        &&& self.clock.wf()
        &&& self.surface.wf()
        &&& self.depth.wf()
        &&& self.depth.matches_surface(self.surface)
        &&& self.channel.wf()
        &&& self.channel.synced()
        &&& self.channel.cpu.proj == (Projection {
            num: self.surface.width,
            den: self.surface.height,
        })
    }

    /// The startup state for requested dimensions (clamped), the
    /// negotiated format token, the mesh's index count, and the matrix
    /// words derived for the clamped dimensions.
    pub open spec fn new_spec(
        width: u32,
        height: u32,
        format: u32,
        index_count: u32,
        proj_words: [u32; 16],
    ) -> FrameOrchestrator {
        FrameOrchestrator {
            clock: FrameInfo {
                frame_count: 0,
                accumulated_micros: 0,
                fps_milli: 0,
                frame_time_micros: 0,
            },
            surface: SurfaceConfig {
                width: clamp_dim_spec(width),
                height: clamp_dim_spec(height),
                format,
            },
            depth: DepthTarget::rebuild_spec(clamp_dim_spec(width), clamp_dim_spec(height)),
            channel: UniformChannel::new_spec(
                clamp_dim_spec(width),
                clamp_dim_spec(height),
                proj_words,
            ),
            index_count,
            state: FrameState::Idle,
        }
    }

    pub fn new(width: u32, height: u32, format: u32, index_count: u32, proj_words: [u32; 16]) -> (r:
        FrameOrchestrator)
        ensures
            r == FrameOrchestrator::new_spec(width, height, format, index_count, proj_words),
            r.wf(),
            r.state == FrameState::Idle,
    {
        let surface = SurfaceConfig::new(width, height, format);
        let depth = DepthTarget::rebuild(surface.width, surface.height);
        let channel = UniformChannel::new(surface.width, surface.height, proj_words);
        FrameOrchestrator {
            clock: FrameInfo::new(),
            surface,
            depth,
            channel,
            index_count,
            state: FrameState::Idle,
        }
    }

    /// One resize: clamp and apply the new configuration, rebuild the
    /// depth target for exactly those dimensions, re-derive the
    /// projection, and flush — all in one step, so nothing can observe
    /// the surface and the depth target apart.
    pub open spec fn resize_spec(
        self,
        width: u32,
        height: u32,
        proj_words: [u32; 16],
    ) -> FrameOrchestrator {
        let cfg = self.surface.configure_spec(width, height);
        FrameOrchestrator {
            surface: cfg,
            depth: DepthTarget::rebuild_spec(cfg.width, cfg.height),
            channel: self.channel.set_projection_spec(
                cfg.width,
                cfg.height,
                proj_words,
            ).flush_spec(),
            ..self
        }
    }

    /// React to a resize event. `proj_words` are the matrix words the
    /// caller derived for the clamped dimensions (clamp with
    /// [`crate::clamp_dim`] first). The returned bytes are the freshly
    /// flushed uniform block, to be written to the device buffer before
    /// the next frame.
    pub fn handle_resize(&mut self, width: u32, height: u32, proj_words: [u32; 16]) -> (r: Vec<u8>)
        requires
            old(self).wf(),
            old(self).state == FrameState::Idle,
        ensures
            *final(self) == old(self).resize_spec(width, height, proj_words),
            final(self).wf(),
            final(self).state == FrameState::Idle,
            final(self).surface.width == clamp_dim_spec(width),
            final(self).surface.height == clamp_dim_spec(height),
            final(self).depth.matches_surface(final(self).surface),
            final(self).channel.cpu.proj.num == clamp_dim_spec(width),
            final(self).channel.cpu.proj.den == clamp_dim_spec(height),
            final(self).channel.cpu.time == old(self).channel.cpu.time,
            final(self).clock == old(self).clock,
            r@ == block_bytes(final(self).channel.cpu, proj_words@),
            r@.len() == crate::uniform::UNIFORM_BLOCK_BYTES,
    {
        self.surface.configure(width, height);
        self.depth = DepthTarget::rebuild(self.surface.width, self.surface.height);
        self.channel.set_projection(self.surface.width, self.surface.height, proj_words);
        self.channel.flush()
    }

    /// Opening step of one frame: tick the clock.
    pub open spec fn begin_frame_spec(self, delta_micros: u64) -> FrameOrchestrator {
        FrameOrchestrator {
            clock: self.clock.tick_spec(delta_micros),
            state: FrameState::Acquiring,
            ..self
        }
    }

    /// React to a redraw request: advance the clock by the measured
    /// delta and move to acquiring. The returned delta goes to the
    /// overlay library's timing input.
    pub fn begin_frame(&mut self, delta_micros: u64) -> (delta: u64)
        requires
            old(self).wf(),
            old(self).state == FrameState::Idle,
        ensures
            *final(self) == old(self).begin_frame_spec(delta_micros),
            final(self).wf(),
            final(self).state == FrameState::Acquiring,
            delta == delta_micros,
    {
        let delta = self.clock.fetch(delta_micros);
        self.state = FrameState::Acquiring;
        delta
    }

    /// A successful acquisition: count the frame on the CPU mirror and
    /// flush it, so the GPU-visible counter advances by exactly one.
    pub open spec fn acquired_spec(self) -> FrameOrchestrator {
        FrameOrchestrator {
            channel: self.channel.advance_frame_spec().flush_spec(),
            state: FrameState::Recording,
            ..self
        }
    }

    /// A failed acquisition: skip the frame whole, drawing nothing.
    pub open spec fn aborted_spec(self) -> FrameOrchestrator {
        FrameOrchestrator { state: FrameState::Idle, ..self }
    }

    /// React to the acquisition's outcome. On success the frame
    /// counter advances, the block is flushed, and the caller receives
    /// the plan: the block bytes to upload and the two-pass stream to
    /// replay. On failure the orchestrator returns to idle with
    /// everything else untouched; the failure never unwinds further.
    pub fn resolve_acquire(&mut self, outcome: AcquireOutcome) -> (r: Option<FramePlan>)
        requires
            old(self).wf(),
            old(self).state == FrameState::Acquiring,
        ensures
            final(self).wf(),
            outcome is Unavailable ==> *final(self) == old(self).aborted_spec() && r is None,
            outcome is Acquired ==> {
                &&& *final(self) == old(self).acquired_spec()
                &&& final(self).state == FrameState::Recording
                &&& final(self).channel.cpu.time == wrap_inc(old(self).channel.cpu.time)
                &&& final(self).channel.device.time == wrap_inc(old(self).channel.cpu.time)
                &&& r matches Some(plan) && plan.uniform_block@ == block_bytes(
                    final(self).channel.cpu,
                    final(self).channel.proj_words@,
                ) && plan.uniform_block@.len() == crate::uniform::UNIFORM_BLOCK_BYTES
                    && plan.stream@ == frame_stream_spec(
                    old(self).surface.width,
                    old(self).surface.height,
                    old(self).index_count,
                )
            },
    {
        match outcome {
            AcquireOutcome::Unavailable => {
                self.state = FrameState::Idle;
                None
            },
            AcquireOutcome::Acquired => {
                self.channel.advance_frame();
                let uniform_block = self.channel.flush();
                let stream = record_frame(self.surface.width, self.surface.height, self.index_count);
                self.state = FrameState::Recording;
                Some(FramePlan { uniform_block, stream })
            },
        }
    }

    pub open spec fn submit_spec(self) -> FrameOrchestrator {
        FrameOrchestrator { state: FrameState::Submitted, ..self }
    }

    /// The recorded stream was handed to the queue as one unit.
    pub fn submit_frame(&mut self)
        requires
            old(self).state == FrameState::Recording,
        ensures
            *final(self) == old(self).submit_spec(),
            old(self).wf() ==> final(self).wf(),
    {
        self.state = FrameState::Submitted;
    }

    pub open spec fn present_spec(self) -> FrameOrchestrator {
        FrameOrchestrator { state: FrameState::Presented, ..self }
    }

    /// The acquired target was handed to the presentation engine.
    pub fn present_frame(&mut self)
        requires
            old(self).state == FrameState::Submitted,
        ensures
            *final(self) == old(self).present_spec(),
            old(self).wf() ==> final(self).wf(),
    {
        self.state = FrameState::Presented;
    }

    pub open spec fn end_frame_spec(self) -> FrameOrchestrator {
        FrameOrchestrator { state: FrameState::Idle, ..self }
    }

    /// The terminal state feeds back to idle for the next request.
    pub fn end_frame(&mut self)
        requires
            old(self).state == FrameState::Presented,
        ensures
            *final(self) == old(self).end_frame_spec(),
            old(self).wf() ==> final(self).wf(),
    {
        self.state = FrameState::Idle;
    }

    /// One whole successful frame, as the five steps compose.
    pub open spec fn successful_frame_spec(self, delta_micros: u64) -> FrameOrchestrator {
        self.begin_frame_spec(
            delta_micros,
        ).acquired_spec().submit_spec().present_spec().end_frame_spec()
    }

    /// A run of consecutive successful frames with the given deltas.
    pub open spec fn run_frames_spec(self, deltas: Seq<u64>) -> FrameOrchestrator
        decreases deltas.len(),
    {
        if deltas.len() == 0 {
            self
        } else {
            self.successful_frame_spec(deltas[0]).run_frames_spec(deltas.skip(1))
        }
    }
}

/// Frame-counter monotonicity: over any run of consecutive successful
/// frames that stays below the counter's 32-bit ceiling, the counter
/// seen by the GPU-visible mirror — and the authoritative CPU mirror —
/// increases by exactly the number of frames.
pub proof fn lemma_frame_counter_monotonic(o: FrameOrchestrator, deltas: Seq<u64>)
    requires
        o.channel.cpu.time + deltas.len() <= u32::MAX,
    ensures
        o.run_frames_spec(deltas).channel.cpu.time == o.channel.cpu.time + deltas.len(),
        deltas.len() > 0 ==> o.run_frames_spec(deltas).channel.device.time == o.channel.cpu.time
            + deltas.len(),
    decreases deltas.len(),
{
    if deltas.len() > 0 {
        let next = o.successful_frame_spec(deltas[0]);
        assert(next.channel.cpu.time == o.channel.cpu.time + 1);
        assert(next.channel.device.time == next.channel.cpu.time);
        lemma_frame_counter_monotonic(next, deltas.skip(1));
    }
}

/// Invariant preservation: a run of successful frames, however long,
/// returns to idle with the session invariant intact and never touches
/// the surface configuration or the depth target — so the
/// dimension-match invariant cannot break between resize events.
pub proof fn lemma_run_frames_preserves_wf(o: FrameOrchestrator, deltas: Seq<u64>)
    requires
        o.wf(),
        o.state == FrameState::Idle,
    ensures
        o.run_frames_spec(deltas).wf(),
        o.run_frames_spec(deltas).state == FrameState::Idle,
        o.run_frames_spec(deltas).surface == o.surface,
        o.run_frames_spec(deltas).depth == o.depth,
    decreases deltas.len(),
{
    if deltas.len() > 0 {
        let next = o.successful_frame_spec(deltas[0]);
        assert(next.wf());
        lemma_run_frames_preserves_wf(next, deltas.skip(1));
    }
}

/// Resize idempotence: applying the same resize twice leaves the
/// orchestrator — surface configuration, depth target, projection, and
/// both uniform mirrors — identical to applying it once.
pub proof fn lemma_resize_idempotent(
    o: FrameOrchestrator,
    width: u32,
    height: u32,
    proj_words: [u32; 16],
)
    ensures
        o.resize_spec(width, height, proj_words).resize_spec(width, height, proj_words)
            == o.resize_spec(width, height, proj_words),
{
}

} // verus!
