//! The frame scheduler: one state record and the decisions of the loop.
//!
//! The scheduler owns all core state — buffer pool, frame clock, pacing
//! policy, window geometry and the termination flag — and exposes two
//! operations.  [`FrameScheduler::handle_event`] maps one delivered event
//! to a state change and an action for the transport.  When that action
//! asks for rendering, the caller drains [`FrameScheduler::render_step`]
//! until it returns nothing: each step either produces the full set of
//! commands for one frame (which buffer to attach, the overlay's size and
//! position, whether to wait on a pacing barrier, and a possible
//! frames-per-second report) or declines because the window is not yet
//! configured or no buffer is free.  A declined step changes nothing: a
//! frame is produced immediately or dropped, never queued.

use crate::clock::FrameClock;
use crate::clock::REPORT_WINDOW_MS;
use crate::geometry::{clamped, orbit_coord, WindowGeometry, ORBIT_SCALE, OVERLAY_DIVISOR};
use crate::policy::{toggled, PresentationPolicy};
use crate::pool::{first_free, BufferPool};
use vstd::prelude::*;

verus! {

/// Key code that requests termination (escape).
pub const KEY_EXIT: u32 = 1;

/// Key code that toggles the presentation mode (space).
pub const KEY_TOGGLE_MODE: u32 = 57;

/// One discrete event delivered by the dispatcher.
pub enum Event {
    /// The buffer at this pool index finished displaying and came back.
    BufferReleased { index: usize },
    /// The surface configuration with this serial must be acknowledged.
    SurfaceConfigured { serial: u32 },
    /// The window was proposed a new size; 0 lets the client choose.
    WindowResized { width: i32, height: i32 },
    /// The window was asked to close.
    CloseRequested,
    /// A key changed state.
    Key { code: u32, pressed: bool },
    /// A liveness ping that must be answered with the same serial.
    Ping { serial: u32 },
    /// An event that carries nothing actionable.
    Irrelevant,
}

/// What the caller must do after an event was handled.
pub enum Action {
    /// Nothing to do.
    Nothing,
    /// Drain render steps until one declines.
    Render,
    /// Acknowledge the configuration with this serial, then drain renders.
    AckConfigureThenRender { serial: u32 },
    /// Answer the ping with the same serial.
    Pong { serial: u32 },
    /// Report the new presentation mode's status text.
    AnnounceMode,
}

/// Everything one render step asks the transport to perform.
pub struct FrameCommands {
    /// Pool index of the buffer to attach to the primary surface.
    pub buffer_index: usize,
    /// Overlay destination width: a fifth of the window.
    pub overlay_width: i32,
    /// Overlay destination height: a fifth of the window.
    pub overlay_height: i32,
    /// Overlay x position relative to the primary surface.
    pub overlay_x: i32,
    /// Overlay y position relative to the primary surface.
    pub overlay_y: i32,
    /// A frames-per-second value to report, when a window just closed.
    pub fps_report: Option<u64>,
    /// Whether to set and wait on a pacing barrier before the commit.
    pub pace: bool,
}

/// The single state record of the event loop.
pub struct FrameScheduler {
    /// Cleared by a close request or the exit key.
    pub running: bool,
    /// The fixed pool of presentable buffers.
    pub pool: BufferPool,
    /// Elapsed-time and frames-per-window accounting.
    pub clock: FrameClock,
    /// Pacing mode and capability.
    pub policy: PresentationPolicy,
    /// Current window extent.
    pub geometry: WindowGeometry,
}

impl FrameScheduler {
    /// The scheduler's own well-formedness: its geometry's.
    pub open spec fn wf(self) -> bool {
        self.geometry.wf()
    }

    /// Everything but the pool bitmap and clock is unchanged.
    pub open spec fn same_mode_and_geometry(self, other: FrameScheduler) -> bool {
        &&& self.running == other.running
        &&& self.policy == other.policy
        &&& self.geometry == other.geometry
        &&& self.pool.spec_fill_color() == other.pool.spec_fill_color()
        &&& self.pool.free_map().len() == other.pool.free_map().len()
    }

    /// State at startup: running, all buffers free, the clock started at
    /// `now_ms`, Fifo requested with the discovered capability, geometry
    /// unknown.
    pub fn new(buffer_count: usize, fill_color: u32, pacing_available: bool, now_ms: u64) -> (s:
        FrameScheduler)
        ensures
            s.wf(),
            s.running,
            s.pool.free_map().len() == buffer_count,
            forall|j: int| 0 <= j < buffer_count ==> s.pool.free_map()[j],
            s.pool.spec_fill_color() == fill_color,
            s.clock.spec_frames() == 0,
            s.clock.spec_next_report_at() == now_ms,
            s.policy.spec_mode() is Fifo,
            s.policy.spec_pacing_available() == pacing_available,
            !s.geometry.spec_ready(),
    {
        FrameScheduler {
            running: true,
            pool: BufferPool::allocate(buffer_count, fill_color),
            clock: FrameClock::start(now_ms),
            policy: PresentationPolicy::new(pacing_available),
            geometry: WindowGeometry::unconfigured(),
        }
    }

    /// Whether the scheduler's state is well formed, for callers outside
    /// the proof.
    pub fn is_well_formed(&self) -> (r: bool)
        ensures
            r == self.wf(),
    {
        let w = self.geometry.width();
        let h = self.geometry.height();
        (w == 0 && h == 0) || (w >= 100 && h >= 100)
    }

    /// Attempt to produce one frame at time `now_ms`, with the orbit
    /// fractions for that time.  Declines — changing nothing — unless the
    /// window is configured and a buffer is free; otherwise it acquires
    /// the first free buffer, counts the frame, and returns the commands
    /// for the transport.
    pub fn render_step(&mut self, now_ms: u64, sin_frac: u32, cos_frac: u32) -> (r: Option<
        FrameCommands,
    >)
        requires
            old(self).wf(),
            sin_frac <= ORBIT_SCALE,
            cos_frac <= ORBIT_SCALE,
            now_ms <= u64::MAX - REPORT_WINDOW_MS,
            old(self).clock.spec_frames() < u64::MAX,
        ensures
            final(self).wf(),
            final(self).same_mode_and_geometry(*old(self)),
            match r {
                None => {
                    &&& !(old(self).geometry.spec_ready() && first_free(
                        old(self).pool.free_map(),
                    ) is Some)
                    &&& final(self).pool.free_map() == old(self).pool.free_map()
                    &&& final(self).clock == old(self).clock
                },
                Some(c) => {
                    &&& old(self).geometry.spec_ready()
                    &&& first_free(old(self).pool.free_map()) == Some(c.buffer_index as int)
                    &&& old(self).pool.free_map()[c.buffer_index as int]
                    &&& final(self).pool.free_map() =~= old(self).pool.free_map().update(
                        c.buffer_index as int,
                        false,
                    )
                    &&& c.overlay_width == old(self).geometry.spec_width() / OVERLAY_DIVISOR
                    &&& c.overlay_height == old(self).geometry.spec_height() / OVERLAY_DIVISOR
                    &&& c.overlay_x == orbit_coord(
                        sin_frac as int,
                        old(self).geometry.spec_width() as int,
                    )
                    &&& c.overlay_y == orbit_coord(
                        cos_frac as int,
                        old(self).geometry.spec_height() as int,
                    )
                    &&& 0 <= c.overlay_x <= old(self).geometry.spec_width() - c.overlay_width
                    &&& 0 <= c.overlay_y <= old(self).geometry.spec_height() - c.overlay_height
                    &&& c.pace == old(self).policy.spec_should_pace()
                    &&& if old(self).clock.report_due(now_ms) {
                        &&& c.fps_report == Some(old(self).clock.report_value())
                        &&& final(self).clock.spec_frames() == 1
                        &&& final(self).clock.spec_next_report_at() == now_ms + REPORT_WINDOW_MS
                    } else {
                        &&& c.fps_report is None
                        &&& final(self).clock.spec_frames() == old(self).clock.spec_frames() + 1
                        &&& final(self).clock.spec_next_report_at() == old(
                            self,
                        ).clock.spec_next_report_at()
                    }
                },
            },
    {
        if !self.geometry.is_ready() {
            return None;
        }
        let acquired = self.pool.acquire_free();
        match acquired {
            None => None,
            Some(index) => {
                let fps_report = self.clock.record_frame(now_ms);
                let (overlay_width, overlay_height) = self.geometry.overlay_size();
                let (overlay_x, overlay_y) = self.geometry.overlay_position(sin_frac, cos_frac);
                let pace = self.policy.should_pace();
                Some(
                    FrameCommands {
                        buffer_index: index,
                        overlay_width,
                        overlay_height,
                        overlay_x,
                        overlay_y,
                        fps_report,
                        pace,
                    },
                )
            },
        }
    }

    /// Handle one delivered event: mutate the core state as the event
    /// demands and say what the caller must do next.  Payloads that carry
    /// nothing actionable — a release of an unknown index, an unmapped
    /// key, a key release — are silently ignored.
    pub fn handle_event(&mut self, event: Event) -> (action: Action)
        requires
            old(self).wf(),
        ensures
            final(self).wf(),
            final(self).pool.spec_fill_color() == old(self).pool.spec_fill_color(),
            final(self).pool.free_map().len() == old(self).pool.free_map().len(),
            final(self).clock == old(self).clock,
            match event {
                Event::BufferReleased { index } => {
                    &&& if index < old(self).pool.free_map().len() {
                        &&& final(self).pool.free_map() =~= old(self).pool.free_map().update(
                            index as int,
                            true,
                        )
                        &&& action is Render
                    } else {
                        &&& *final(self) == *old(self)
                        &&& action is Nothing
                    }
                    &&& final(self).running == old(self).running
                    &&& final(self).policy == old(self).policy
                    &&& final(self).geometry == old(self).geometry
                },
                Event::SurfaceConfigured { serial } => {
                    &&& *final(self) == *old(self)
                    &&& action == Action::AckConfigureThenRender { serial }
                },
                Event::WindowResized { width, height } => {
                    &&& final(self).geometry.spec_width() == clamped(width)
                    &&& final(self).geometry.spec_height() == clamped(height)
                    &&& final(self).running == old(self).running
                    &&& final(self).policy == old(self).policy
                    &&& final(self).pool.free_map() == old(self).pool.free_map()
                    &&& action is Nothing
                },
                Event::CloseRequested => {
                    &&& !final(self).running
                    &&& final(self).policy == old(self).policy
                    &&& final(self).geometry == old(self).geometry
                    &&& final(self).pool.free_map() == old(self).pool.free_map()
                    &&& action is Nothing
                },
                Event::Key { code, pressed } => {
                    if !pressed {
                        &&& *final(self) == *old(self)
                        &&& action is Nothing
                    } else if code == KEY_EXIT {
                        &&& !final(self).running
                        &&& final(self).policy == old(self).policy
                        &&& final(self).geometry == old(self).geometry
                        &&& final(self).pool.free_map() == old(self).pool.free_map()
                        &&& action is Nothing
                    } else if code == KEY_TOGGLE_MODE {
                        &&& final(self).policy.spec_mode() == toggled(old(self).policy.spec_mode())
                        &&& final(self).policy.spec_pacing_available() == old(
                            self,
                        ).policy.spec_pacing_available()
                        &&& final(self).running == old(self).running
                        &&& final(self).geometry == old(self).geometry
                        &&& final(self).pool.free_map() == old(self).pool.free_map()
                        &&& action is AnnounceMode
                    } else {
                        &&& *final(self) == *old(self)
                        &&& action is Nothing
                    }
                },
                Event::Ping { serial } => {
                    &&& *final(self) == *old(self)
                    &&& action == Action::Pong { serial }
                },
                Event::Irrelevant => {
                    &&& *final(self) == *old(self)
                    &&& action is Nothing
                },
            },
    {
        match event {
            Event::BufferReleased { index } => {
                if index < self.pool.slot_count() {
                    self.pool.release(index);
                    Action::Render
                } else {
                    Action::Nothing
                }
            },
            Event::SurfaceConfigured { serial } => Action::AckConfigureThenRender { serial },
            Event::WindowResized { width, height } => {
                self.geometry.configure(width, height);
                Action::Nothing
            },
            Event::CloseRequested => {
                self.running = false;
                Action::Nothing
            },
            Event::Key { code, pressed } => {
                if !pressed {
                    Action::Nothing
                } else if code == KEY_EXIT {
                    self.running = false;
                    Action::Nothing
                } else if code == KEY_TOGGLE_MODE {
                    self.policy.toggle();
                    Action::AnnounceMode
                } else {
                    Action::Nothing
                }
            },
            Event::Ping { serial } => Action::Pong { serial },
            Event::Irrelevant => Action::Nothing,
        }
    }
}

} // verus!
