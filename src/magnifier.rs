//! The session controller: all monitors and overlay surfaces, the pointer
//! confirmation state machine, zoom, and the decisions taken on each
//! compositor event.
//!
//! Each event handler mutates the session and returns what the caller must
//! do on the compositor's side (bind an object, acknowledge, render a
//! monitor, clear and exit). Monitors and surfaces are named by their index.
use crate::config::{Config, RATIO_ONE, ZOOM_SPEED_MIN};
use crate::layer_surface::LayerSurface;
use crate::monitor::{Monitor, MONITOR_DIM_LIMIT};
use crate::pointer::{is_within, normalize_position, normalized_position, within};
use crate::pool_buffer::{surface_buffer, BufferError, PoolBuffer};
use crate::renderer::{
    anchor_of, clamp_zoom, mapping_fits, mapping_in_range, plan_spec, RenderPlan, Renderer, ZOOM_DEFAULT,
};
use crate::vector::{size_in_range, Vector2D, FIXED_ONE};
use vstd::prelude::*;

verus! {

/// Pointer position, in pixels, before any pointer event has arrived.
pub const DEFAULT_POSITION_PX: i64 = 500;

/// Size assumed for a monitor that is not known.
pub const FALLBACK_WIDTH_PX: i64 = 1920;

pub const FALLBACK_HEIGHT_PX: i64 = 1080;

/// Seat capability bits.
pub const SEAT_POINTER: u32 = 1;

pub const SEAT_KEYBOARD: u32 = 2;

/// Key codes are evdev codes; the keymap numbers them 8 higher.
pub const KEYCODE_OFFSET: u64 = 8;

/// Escape in the keymap's numbering.
pub const ESCAPE_KEYCODE: u64 = 9;

/// Scroll distance of one wheel notch, in sub-pixel steps (120 x 256).
pub const SCROLL_NOTCH_FIXED: i64 = 30720;

/// A global object that the compositor advertises.
#[derive(Clone, Copy, Debug, PartialEq, Eq, Structural)]
pub enum GlobalKind {
    Compositor,
    Shm,
    Seat,
    Output,
    LayerShell,
    Screencopy,
    Other,
}

/// A property event of an output.
pub enum OutputEvent {
    Geometry { x: i32, y: i32, physical_width: i32, physical_height: i32 },
    Mode { width: i32, height: i32, refresh: i32 },
    Scale { factor: i32 },
    Name { name: String },
    Done,
}

/// A fatal startup condition.
#[derive(Clone, Copy, Debug, PartialEq, Eq, Structural)]
pub enum StartupError {
    MissingCompositor,
    MissingShm,
    MissingLayerShell,
    MissingScreencopy,
    /// Some overlay surface received no configure event.
    NotConfigured,
}

/// What the caller does after an event.
pub enum Action {
    Nothing,
    /// Render this monitor (see `render_monitor`).
    Render(usize),
    /// Zoomed all the way out. For each surface, the slot that was submitted
    /// after clearing it to transparent, if any; then wait `delay_ms` and stop.
    Exit { cleared: Vec<Option<usize>>, delay_ms: u64 },
    /// Stop the session.
    Stop,
}

/// Why a monitor could not be rendered.
#[derive(Clone, Copy, Debug, PartialEq, Eq, Structural)]
pub enum RenderError {
    InvalidMonitor,
    NoScreenBuffer,
    NoLayerSurface,
    /// The anchor's point in the capture does not fit in 64 bits.
    OutOfRange,
}

/// What rendering a monitor came to.
#[derive(Clone, Copy, Debug)]
pub enum RenderOutcome {
    /// The surface is not configured yet; nothing was drawn.
    Skipped,
    /// The slot to draw into holds no buffer: allocate one of `shape` for
    /// each missing slot, install them, and render again.
    NeedBuffers { surface: usize, missing: (bool, bool), shape: Result<PoolBuffer, BufferError> },
    /// Draw `slot` of `surface` (cleared to transparent, then following
    /// `plan` if there is one) and commit it; the slot was marked submitted.
    Drawn { surface: usize, slot: usize, plan: Option<RenderPlan> },
}

/// What to do after polling the connection.
#[derive(Clone, Copy, Debug, PartialEq, Eq, Structural)]
pub enum PollOutcome {
    /// Data is ready: read events.
    Read,
    /// Timed out: cancel the pending read and loop.
    Cancel,
    /// The poll failed: leave the loop.
    Fail,
}

pub struct AppState {
    pub has_compositor: bool,
    pub has_shm: bool,
    pub has_seat: bool,
    pub has_layer_shell: bool,
    pub has_screencopy: bool,
    pub monitors: Vec<Monitor>,
    pub layer_surfaces: Vec<LayerSurface>,
    pub next_output_id: u32,
    /// Pointer position, monitor-local, in sub-pixel steps.
    pub magnifier_position: Vector2D,
    pub magnifier_size: Vector2D,
    /// Zoom factor in millionths; always equal to the renderer's.
    pub zoom: i64,
    /// Zoom change per wheel notch, in millionths.
    pub zoom_speed: i64,
    pub exit_delay_ms: u64,
    /// Scale that overrides every monitor's integer scale, in millionths.
    pub scale_override: Option<i64>,
    /// Monitor under the pointer.
    pub active_monitor: Option<usize>,
    pub renderer: Renderer,
    pub running: bool,
    /// A motion event has arrived since startup: the position is trusted.
    pub pointer_position_confirmed: bool,
    pub initialization_complete: bool,
    /// First enter event during startup whose position lay on its monitor.
    pub first_enter_during_init: Option<(usize, Vector2D)>,
}

/// Sub-pixel position of a coordinate pair reported by the compositor.
pub open spec fn raw_position(x: i32, y: i32) -> Vector2D {
    Vector2D { x: x as i64, y: y as i64 }
}

pub open spec fn fallback_size() -> Vector2D {
    Vector2D { x: 491520, y: 276480 }
}

/// The first enter event of `events` (surface, reported position) whose
/// normalized position lies on its monitor, as the startup seed.
pub open spec fn first_valid_enter(s: AppState, events: Seq<(usize, Vector2D)>) -> Option<
    (usize, Vector2D),
>
    decreases events.len(),
{
    if events.len() == 0 {
        None
    } else {
        match first_valid_enter(s, events.drop_last()) {
            Some(seed) => Some(seed),
            None => s.enter_candidate(events.last().0, events.last().1),
        }
    }
}

/// A monitor after one of its output's property events; a scale event does
/// not displace the monitor's scale override, if it has one.
pub open spec fn output_updated(m: Monitor, event: OutputEvent) -> Monitor {
    match event {
        OutputEvent::Geometry { .. } => m,
        OutputEvent::Mode { width, height, .. } => Monitor {
            size: Vector2D { x: (width * 256) as i64, y: (height * 256) as i64 },
            ..m
        },
        OutputEvent::Scale { factor } => Monitor {
            scale: factor,
            fractional_scale: match m.scale_override {
                Some(s) => s,
                None => (factor * RATIO_ONE) as i64,
            },
            ..m
        },
        OutputEvent::Name { name } => Monitor { name, ..m },
        OutputEvent::Done => Monitor { ready: true, ..m },
    }
}

/// Zoom change, in millionths, of a vertical scroll by `value` sub-pixel
/// steps: minus the number of notches times the zoom speed, rounded down.
pub open spec fn scroll_delta(value: i32, zoom_speed: i64) -> int {
    ((-value) * zoom_speed) / (SCROLL_NOTCH_FIXED as int)
}

/// Surface `n` is surface `o` after the exit sequence handled it: if it was
/// configured and had a buffer to draw into, that buffer was submitted
/// (`slot`); otherwise nothing happened to it.
pub open spec fn exit_cleared(o: LayerSurface, n: LayerSurface, slot: Option<usize>) -> bool {
    if o.configured && o.available() is Some {
        slot == o.available() && o.frame_sent(&n, slot)
    } else {
        slot is None && n == o
    }
}

impl AppState {
    pub open spec fn wf(&self) -> bool {
        &&& self.renderer.wf()
        &&& self.zoom == self.renderer.zoom
        &&& ZOOM_SPEED_MIN <= self.zoom_speed <= RATIO_ONE
        &&& self.magnifier_position.in_range()
        &&& size_in_range(self.magnifier_size)
        &&& forall|i: int| 0 <= i < self.monitors.len() ==> (#[trigger] self.monitors[i]).wf()
        &&& forall|i: int|
            0 <= i < self.layer_surfaces.len() ==> (#[trigger] self.layer_surfaces[i]).wf()
        &&& (self.first_enter_during_init matches Some(seed) ==> seed.1.in_range())
    }

    /// Size of monitor `m`, or the fallback size if there is none.
    pub open spec fn size_of(&self, m: int) -> Vector2D {
        if 0 <= m < self.monitors.len() {
            self.monitors[m].size
        } else {
            fallback_size()
        }
    }

    /// The seed that an enter event on `surface` at `raw` offers during
    /// startup: its monitor and normalized position, if that position lies
    /// on the monitor.
    pub open spec fn enter_candidate(&self, surface: usize, raw: Vector2D) -> Option<(usize, Vector2D)> {
        if surface < self.layer_surfaces.len() {
            let m = self.layer_surfaces[surface as int].monitor_idx;
            let local = normalized_position(raw, self.size_of(m as int));
            if within(local, self.size_of(m as int)) {
                Some((m, local))
            } else {
                None
            }
        } else {
            None
        }
    }

    /// The session after an enter event during startup: only the seed may change.
    pub open spec fn seeded(&self, surface: usize, raw: Vector2D) -> AppState {
        AppState {
            first_enter_during_init: if self.first_enter_during_init is None {
                self.enter_candidate(surface, raw)
            } else {
                self.first_enter_during_init
            },
            ..*self
        }
    }

    pub fn new(config: &Config) -> (r: Self)
        requires
            config.wf(),
        ensures
            r.wf(),
            r.monitors@.len() == 0,
            r.layer_surfaces@.len() == 0,
            r.magnifier_size == config.size,
            r.zoom == ZOOM_DEFAULT,
            r.zoom_speed == config.zoom_speed,
            r.exit_delay_ms == config.exit_delay_ms,
            r.scale_override == config.scale,
            r.active_monitor is None,
            r.running,
            !r.pointer_position_confirmed,
            !r.initialization_complete,
            r.first_enter_during_init is None,
            !r.has_compositor && !r.has_shm && !r.has_seat && !r.has_layer_shell
                && !r.has_screencopy,
    {
        AppState {
            has_compositor: false,
            has_shm: false,
            has_seat: false,
            has_layer_shell: false,
            has_screencopy: false,
            monitors: Vec::new(),
            layer_surfaces: Vec::new(),
            next_output_id: 0,
            magnifier_position: Vector2D::new(
                DEFAULT_POSITION_PX * FIXED_ONE,
                DEFAULT_POSITION_PX * FIXED_ONE,
            ),
            magnifier_size: config.size,
            zoom: ZOOM_DEFAULT,
            zoom_speed: config.zoom_speed,
            exit_delay_ms: config.exit_delay_ms,
            scale_override: config.scale,
            active_monitor: None,
            renderer: Renderer::new(),
            running: true,
            pointer_position_confirmed: false,
            initialization_complete: false,
            first_enter_during_init: None,
        }
    }

    /// A global was advertised. Returns whether to bind it. A new output
    /// becomes a monitor with the next id (and the scale override, if any).
    pub fn on_global(&mut self, kind: GlobalKind) -> (bind: bool)
        requires
            old(self).wf(),
        ensures
            final(self).wf(),
            bind == (kind != GlobalKind::Other && (kind == GlobalKind::Output ==> old(
                self,
            ).next_output_id < u32::MAX)),
            kind == GlobalKind::Compositor ==> *final(self) == (AppState {
                has_compositor: true,
                ..*old(self)
            }),
            kind == GlobalKind::Shm ==> *final(self) == (AppState { has_shm: true, ..*old(self) }),
            kind == GlobalKind::Seat ==> *final(self) == (AppState { has_seat: true, ..*old(self) }),
            kind == GlobalKind::LayerShell ==> *final(self) == (AppState {
                has_layer_shell: true,
                ..*old(self)
            }),
            kind == GlobalKind::Screencopy ==> *final(self) == (AppState {
                has_screencopy: true,
                ..*old(self)
            }),
            kind == GlobalKind::Other || !bind ==> *final(self) == *old(self),
            kind == GlobalKind::Output && bind ==> {
                &&& final(self).monitors@.len() == old(self).monitors@.len() + 1
                &&& final(self).monitors@.drop_last() == old(self).monitors@
                &&& final(self).next_output_id == old(self).next_output_id + 1
                &&& final(self).monitors@.last().wayland_name == old(self).next_output_id
                &&& final(self).monitors@.last().size == (Vector2D { x: 0, y: 0 })
                &&& !final(self).monitors@.last().ready
                &&& final(self).monitors@.last().screen_buffer is None
                &&& final(self).monitors@.last().fractional_scale == match old(self).scale_override {
                    Some(s) => s,
                    None => RATIO_ONE,
                }
                &&& final(self).monitors@.last().scale_override == old(self).scale_override
                &&& *final(self) == (AppState {
                    monitors: final(self).monitors,
                    next_output_id: final(self).next_output_id,
                    ..*old(self)
                })
            },
    {
        match kind {
            GlobalKind::Compositor => {
                self.has_compositor = true;
                true
            },
            GlobalKind::Shm => {
                self.has_shm = true;
                true
            },
            GlobalKind::Seat => {
                self.has_seat = true;
                true
            },
            GlobalKind::LayerShell => {
                self.has_layer_shell = true;
                true
            },
            GlobalKind::Screencopy => {
                self.has_screencopy = true;
                true
            },
            GlobalKind::Output => {
                if self.next_output_id == u32::MAX {
                    return false;
                }
                let mut monitor = Monitor::new(self.next_output_id);
                match self.scale_override {
                    Some(s) => monitor.set_fractional_scale(s),
                    None => {},
                }
                self.monitors.push(monitor);
                self.next_output_id = self.next_output_id + 1;
                proof {
                    assert(self.monitors@.drop_last() =~= old(self).monitors@);
                    assert forall|i: int| 0 <= i < self.monitors.len() implies (
                    #[trigger] self.monitors[i]).wf() by {
                        if i < old(self).monitors.len() {
                            assert(self.monitors[i] == old(self).monitors[i]);
                        }
                    }
                }
                true
            },
            GlobalKind::Other => false,
        }
    }

    /// A property event of monitor `monitor`'s output.
    pub fn on_output_event(&mut self, monitor: usize, event: OutputEvent)
        requires
            old(self).wf(),
        ensures
            final(self).wf(),
            monitor >= old(self).monitors.len() ==> *final(self) == *old(self),
            monitor < old(self).monitors.len() ==> *final(self) == (AppState {
                monitors: final(self).monitors,
                ..*old(self)
            }) && final(self).monitors@ == old(self).monitors@.update(
                monitor as int,
                output_updated(old(self).monitors[monitor as int], event),
            ),
    {
        if monitor >= self.monitors.len() {
            return ;
        }
        let ghost ev = event;
        match event {
            OutputEvent::Geometry { x, y, physical_width, physical_height } => {
                self.monitors[monitor].set_geometry(x, y, physical_width, physical_height);
            },
            OutputEvent::Mode { width, height, refresh } => {
                self.monitors[monitor].set_mode(width, height, refresh);
            },
            OutputEvent::Scale { factor } => {
                self.monitors[monitor].set_scale(factor);
            },
            OutputEvent::Name { name } => {
                self.monitors[monitor].set_name(name);
            },
            OutputEvent::Done => {
                self.monitors[monitor].set_done();
            },
        }
        proof {
            assert(self.monitors@ =~= old(self).monitors@.update(
                monitor as int,
                output_updated(old(self).monitors[monitor as int], ev),
            ));
        }
    }

    /// Fails on the first required global that was not advertised.
    pub fn check_protocols(&self) -> (r: Result<(), StartupError>)
        ensures
            r == if !self.has_compositor {
                Err(StartupError::MissingCompositor)
            } else if !self.has_shm {
                Err(StartupError::MissingShm)
            } else if !self.has_layer_shell {
                Err(StartupError::MissingLayerShell)
            } else if !self.has_screencopy {
                Err(StartupError::MissingScreencopy)
            } else {
                Ok(())
            },
    {
        if !self.has_compositor {
            Err(StartupError::MissingCompositor)
        } else if !self.has_shm {
            Err(StartupError::MissingShm)
        } else if !self.has_layer_shell {
            Err(StartupError::MissingLayerShell)
        } else if !self.has_screencopy {
            Err(StartupError::MissingScreencopy)
        } else {
            Ok(())
        }
    }

    /// Creates one unconfigured overlay surface per monitor, linked to it by index.
    pub fn create_surfaces(&mut self)
        requires
            old(self).wf(),
            old(self).layer_surfaces.len() == 0,
        ensures
            final(self).wf(),
            final(self).layer_surfaces.len() == old(self).monitors.len(),
            final(self).monitors.len() == old(self).monitors.len(),
            forall|i: int|
                0 <= i < final(self).monitors.len() ==> #[trigger] final(self).monitors[i] == (
                Monitor { layer_surface_idx: Some(i as usize), ..old(self).monitors[i] }),
            forall|i: int|
                0 <= i < final(self).layer_surfaces.len() ==> {
                    let ls = #[trigger] final(self).layer_surfaces[i];
                    &&& ls.monitor_idx == i
                    &&& ls.monitor_size == old(self).monitors[i].size
                    &&& ls.monitor_scale == old(self).monitors[i].scale
                    &&& !ls.configured
                    &&& ls.last_buffer == 0
                    &&& ls.buffers[0] is None
                    &&& ls.buffers[1] is None
                },
            *final(self) == (AppState {
                monitors: final(self).monitors,
                layer_surfaces: final(self).layer_surfaces,
                ..*old(self)
            }),
    {
        let n = self.monitors.len();
        let mut i: usize = 0;
        while i < n
            invariant
                n == self.monitors.len() == old(self).monitors.len(),
                i <= n,
                self.layer_surfaces.len() == i,
                old(self).wf(),
                forall|j: int|
                    0 <= j < i ==> #[trigger] self.monitors[j] == (Monitor {
                        layer_surface_idx: Some(j as usize),
                        ..old(self).monitors[j]
                    }),
                forall|j: int| i <= j < n ==> #[trigger] self.monitors[j] == old(self).monitors[j],
                forall|j: int|
                    0 <= j < i ==> {
                        let ls = #[trigger] self.layer_surfaces[j];
                        &&& ls.wf()
                        &&& ls.monitor_idx == j
                        &&& ls.monitor_size == old(self).monitors[j].size
                        &&& ls.monitor_scale == old(self).monitors[j].scale
                        &&& !ls.configured
                        &&& ls.last_buffer == 0
                        &&& ls.buffers[0] is None
                        &&& ls.buffers[1] is None
                    },
                *self == (AppState {
                    monitors: self.monitors,
                    layer_surfaces: self.layer_surfaces,
                    ..*old(self)
                }),
            decreases n - i,
        {
            let ls = LayerSurface::new(i, self.monitors[i].size, self.monitors[i].scale);
            self.layer_surfaces.push(ls);
            self.monitors[i].set_layer_surface(i);
            i = i + 1;
        }
        proof {
            assert forall|j: int| 0 <= j < self.monitors.len() implies (
            #[trigger] self.monitors[j]).wf() by {
                assert(old(self).monitors[j].wf());
            }
        }
    }

    /// A configure event for surface `surface`: it is acknowledged with its
    /// serial. Returns whether the surface exists (and so must be acknowledged).
    pub fn on_configure(&mut self, surface: usize, serial: u32) -> (r: bool)
        requires
            old(self).wf(),
        ensures
            final(self).wf(),
            r == (surface < old(self).layer_surfaces.len()),
            !r ==> *final(self) == *old(self),
            r ==> *final(self) == (AppState {
                layer_surfaces: final(self).layer_surfaces,
                ..*old(self)
            }) && final(self).layer_surfaces@ == old(self).layer_surfaces@.update(
                surface as int,
                LayerSurface {
                    configured: true,
                    ack_serial: serial,
                    ..old(self).layer_surfaces[surface as int]
                },
            ),
    {
        if surface >= self.layer_surfaces.len() {
            return false;
        }
        self.layer_surfaces[surface].acknowledge_configure(serial);
        proof {
            assert forall|j: int| 0 <= j < self.layer_surfaces.len() implies (
            #[trigger] self.layer_surfaces[j]).wf() by {
                assert(old(self).layer_surfaces[j].wf());
            }
        }
        true
    }

    /// Every overlay surface has been configured.
    pub fn check_configured(&self) -> (r: Result<(), StartupError>)
        ensures
            r is Ok <==> forall|i: int|
                0 <= i < self.layer_surfaces.len() ==> #[trigger] self.layer_surfaces[i].configured,
            r is Err ==> r == Err::<(), StartupError>(StartupError::NotConfigured),
    {
        let mut i: usize = 0;
        while i < self.layer_surfaces.len()
            invariant
                i <= self.layer_surfaces.len(),
                forall|j: int| 0 <= j < i ==> #[trigger] self.layer_surfaces[j].configured,
            decreases self.layer_surfaces.len() - i,
        {
            if !self.layer_surfaces[i].configured {
                return Err(StartupError::NotConfigured);
            }
            i = i + 1;
        }
        Ok(())
    }

    /// Puts a newly allocated buffer into slot `slot` of surface `surface`.
    /// Returns whether that slot exists.
    pub fn install_buffer(&mut self, surface: usize, slot: usize, buffer: PoolBuffer) -> (r: bool)
        requires
            old(self).wf(),
        ensures
            final(self).wf(),
            r == (surface < old(self).layer_surfaces.len() && slot < 2),
            !r ==> *final(self) == *old(self),
            r ==> {
                let ls = final(self).layer_surfaces[surface as int];
                let old_ls = old(self).layer_surfaces[surface as int];
                &&& *final(self) == (AppState {
                    layer_surfaces: final(self).layer_surfaces,
                    ..*old(self)
                })
                &&& final(self).layer_surfaces@.len() == old(self).layer_surfaces@.len()
                &&& forall|j: int|
                    0 <= j < final(self).layer_surfaces.len() && j != surface ==> #[trigger] final(self).layer_surfaces[j]
                        == old(self).layer_surfaces[j]
                &&& ls.buffers@ == old_ls.buffers@.update(slot as int, Some(buffer))
                &&& ls == (LayerSurface { buffers: ls.buffers, ..old_ls })
            },
    {
        if surface >= self.layer_surfaces.len() || slot >= 2 {
            return false;
        }
        self.layer_surfaces[surface].set_buffer(slot, buffer);
        proof {
            assert forall|j: int| 0 <= j < self.layer_surfaces.len() implies (
            #[trigger] self.layer_surfaces[j]).wf() by {
                assert(old(self).layer_surfaces[j].wf());
            }
        }
        true
    }

    /// Submits the available buffer of surface `surface`, if the surface is
    /// configured (see `LayerSurface::send_frame`); an unconfigured or unknown
    /// surface is left alone.
    pub fn submit_frame(&mut self, surface: usize) -> (r: Option<usize>)
        requires
            old(self).wf(),
        ensures
            final(self).wf(),
            !(surface < old(self).layer_surfaces.len() && old(self).layer_surfaces[surface as int].configured)
                ==> r is None && *final(self) == *old(self),
            surface < old(self).layer_surfaces.len() && old(self).layer_surfaces[surface as int].configured
                ==> {
                &&& *final(self) == (AppState {
                    layer_surfaces: final(self).layer_surfaces,
                    ..*old(self)
                })
                &&& final(self).layer_surfaces@.len() == old(self).layer_surfaces@.len()
                &&& forall|j: int|
                    0 <= j < final(self).layer_surfaces.len() && j != surface ==> #[trigger] final(self).layer_surfaces[j]
                        == old(self).layer_surfaces[j]
                &&& old(self).layer_surfaces[surface as int].frame_sent(
                    &final(self).layer_surfaces[surface as int],
                    r,
                )
            },
    {
        if surface >= self.layer_surfaces.len() || !self.layer_surfaces[surface].configured {
            return None;
        }
        let r = self.layer_surfaces[surface].send_frame();
        proof {
            assert forall|j: int| 0 <= j < self.layer_surfaces.len() implies (
            #[trigger] self.layer_surfaces[j]).wf() by {
                assert(old(self).layer_surfaces[j].wf());
            }
        }
        r
    }

    /// Startup is over: the remembered enter event, if any, seeds the active
    /// monitor and the position; the position stays unconfirmed.
    pub fn complete_initialization(&mut self)
        requires
            old(self).wf(),
        ensures
            final(self).wf(),
            *final(self) == match old(self).first_enter_during_init {
                Some(seed) => AppState {
                    initialization_complete: true,
                    active_monitor: Some(seed.0),
                    magnifier_position: seed.1,
                    ..*old(self)
                },
                None => AppState { initialization_complete: true, ..*old(self) },
            },
    {
        self.initialization_complete = true;
        match self.first_enter_during_init {
            Some(seed) => {
                self.active_monitor = Some(seed.0);
                self.magnifier_position = seed.1;
            },
            None => {},
        }
    }

    /// The capture buffer of monitor `monitor` was allocated and the copy
    /// requested. Returns whether the monitor exists.
    pub fn on_capture_buffer(&mut self, monitor: usize, buffer: PoolBuffer, format: u32) -> (r: bool)
        requires
            old(self).wf(),
        ensures
            final(self).wf(),
            r == (monitor < old(self).monitors.len()),
            !r ==> *final(self) == *old(self),
            r ==> *final(self) == (AppState { monitors: final(self).monitors, ..*old(self) })
                && final(self).monitors@ == old(self).monitors@.update(
                monitor as int,
                Monitor {
                    screen_buffer: Some(buffer),
                    screen_buffer_format: format,
                    ..old(self).monitors[monitor as int]
                },
            ),
    {
        if monitor >= self.monitors.len() {
            return false;
        }
        self.monitors[monitor].set_screen_buffer(buffer, format);
        proof {
            assert forall|j: int| 0 <= j < self.monitors.len() implies (#[trigger] self.monitors[j]).wf() by {
                assert(old(self).monitors[j].wf());
            }
        }
        true
    }

    /// The capture of monitor `monitor` is complete: render it once.
    pub fn on_capture_ready(&self, monitor: usize) -> (r: Action)
        ensures
            monitor < self.monitors.len() ==> r == Action::Render(monitor),
            monitor >= self.monitors.len() ==> r == Action::Nothing,
    {
        if monitor < self.monitors.len() {
            Action::Render(monitor)
        } else {
            Action::Nothing
        }
    }

    /// The compositor released the buffer in `slot` of `surface`.
    pub fn on_buffer_release(&mut self, surface: usize, slot: usize)
        requires
            old(self).wf(),
        ensures
            final(self).wf(),
            !(surface < old(self).layer_surfaces.len() && slot < 2) ==> *final(self) == *old(self),
            surface < old(self).layer_surfaces.len() && slot < 2 ==> {
                let old_ls = old(self).layer_surfaces[surface as int];
                &&& *final(self) == (AppState {
                    layer_surfaces: final(self).layer_surfaces,
                    ..*old(self)
                })
                &&& final(self).layer_surfaces@.len() == old(self).layer_surfaces@.len()
                &&& forall|j: int|
                    0 <= j < final(self).layer_surfaces.len() && j != surface ==> #[trigger] final(self).layer_surfaces[j]
                        == old(self).layer_surfaces[j]
                &&& final(self).layer_surfaces[surface as int] == (LayerSurface {
                    buffers: final(self).layer_surfaces[surface as int].buffers,
                    ..old_ls
                })
                &&& final(self).layer_surfaces[surface as int].buffers@ == old_ls.buffers@.update(
                    slot as int,
                    match old_ls.buffers[slot as int] {
                        Some(b) => Some(PoolBuffer { busy: false, ..b }),
                        None => None,
                    },
                )
            },
    {
        if surface >= self.layer_surfaces.len() || slot >= 2 {
            return ;
        }
        self.layer_surfaces[surface].release_buffer(slot);
        proof {
            assert forall|j: int| 0 <= j < self.layer_surfaces.len() implies (
            #[trigger] self.layer_surfaces[j]).wf() by {
                assert(old(self).layer_surfaces[j].wf());
            }
        }
    }

    /// The frame callback of `surface` fired.
    pub fn on_frame_done(&mut self, surface: usize)
        requires
            old(self).wf(),
        ensures
            final(self).wf(),
            surface >= old(self).layer_surfaces.len() ==> *final(self) == *old(self),
            surface < old(self).layer_surfaces.len() ==> *final(self) == (AppState {
                layer_surfaces: final(self).layer_surfaces,
                ..*old(self)
            }) && final(self).layer_surfaces@ == old(self).layer_surfaces@.update(
                surface as int,
                LayerSurface { frame_pending: false, ..old(self).layer_surfaces[surface as int] },
            ),
    {
        if surface >= self.layer_surfaces.len() {
            return ;
        }
        self.layer_surfaces[surface].frame_done();
        proof {
            assert forall|j: int| 0 <= j < self.layer_surfaces.len() implies (
            #[trigger] self.layer_surfaces[j]).wf() by {
                assert(old(self).layer_surfaces[j].wf());
            }
            assert(self.layer_surfaces@ =~= old(self).layer_surfaces@.update(
                surface as int,
                LayerSurface { frame_pending: false, ..old(self).layer_surfaces[surface as int] },
            ));
        }
    }

    /// Monitor `m`'s size, or the fallback size.
    fn monitor_size(&self, m: usize) -> (r: Vector2D)
        requires
            self.wf(),
        ensures
            r == self.size_of(m as int),
            -MONITOR_DIM_LIMIT <= r.x <= MONITOR_DIM_LIMIT,
            -MONITOR_DIM_LIMIT <= r.y <= MONITOR_DIM_LIMIT,
    {
        if m < self.monitors.len() {
            assert(self.monitors[m as int].wf());
            self.monitors[m].size
        } else {
            Vector2D::new(FALLBACK_WIDTH_PX * FIXED_ONE, FALLBACK_HEIGHT_PX * FIXED_ONE)
        }
    }

    /// Monitor `m` exists and has its screen capture.
    pub open spec fn has_capture(&self, m: int) -> bool {
        0 <= m < self.monitors.len() && self.monitors[m].screen_buffer is Some
    }

    fn capture_ready(&self, m: usize) -> (r: bool)
        ensures
            r == self.has_capture(m as int),
    {
        m < self.monitors.len() && self.monitors[m].screen_buffer.is_some()
    }

    /// The pointer entered surface `surface` at (`surface_x`, `surface_y`),
    /// in sub-pixel steps. During startup only the first enter event whose
    /// normalized position lies on its monitor is remembered; afterwards the
    /// monitor becomes active at that position, and is rendered if its
    /// capture has arrived. The position is not confirmed by this event.
    pub fn on_pointer_enter(&mut self, surface: usize, surface_x: i32, surface_y: i32) -> (r: Action)
        requires
            old(self).wf(),
        ensures
            final(self).wf(),
            surface >= old(self).layer_surfaces.len() ==> *final(self) == *old(self) && r
                == Action::Nothing,
            !old(self).initialization_complete ==> *final(self) == old(self).seeded(
                surface,
                raw_position(surface_x, surface_y),
            ) && r == Action::Nothing,
            old(self).initialization_complete && surface < old(self).layer_surfaces.len() ==> {
                let m = old(self).layer_surfaces[surface as int].monitor_idx;
                &&& *final(self) == (AppState {
                    active_monitor: Some(m),
                    magnifier_position: normalized_position(
                        raw_position(surface_x, surface_y),
                        old(self).size_of(m as int),
                    ),
                    ..*old(self)
                })
                &&& r == if old(self).has_capture(m as int) {
                    Action::Render(m)
                } else {
                    Action::Nothing
                }
            },
    {
        if surface >= self.layer_surfaces.len() {
            return Action::Nothing;
        }
        let m = self.layer_surfaces[surface].monitor_idx;
        let size = self.monitor_size(m);
        let local = normalize_position(Vector2D::new(surface_x as i64, surface_y as i64), size);
        if !self.initialization_complete {
            if is_within(local, size) && self.first_enter_during_init.is_none() {
                self.first_enter_during_init = Some((m, local));
            }
            return Action::Nothing;
        }
        self.active_monitor = Some(m);
        self.magnifier_position = local;
        if self.capture_ready(m) {
            Action::Render(m)
        } else {
            Action::Nothing
        }
    }

    /// The pointer left a surface: the active monitor is cleared first, then
    /// the monitor it left is rendered (inactive, so transparent).
    pub fn on_pointer_leave(&mut self) -> (r: Action)
        requires
            old(self).wf(),
        ensures
            final(self).wf(),
            *final(self) == (AppState { active_monitor: None, ..*old(self) }),
            r == match old(self).active_monitor {
                Some(m) => Action::Render(m),
                None => Action::Nothing,
            },
    {
        let previous = self.active_monitor;
        self.active_monitor = None;
        match previous {
            Some(m) => Action::Render(m),
            None => Action::Nothing,
        }
    }

    /// The pointer moved to (`surface_x`, `surface_y`). Motion is the only
    /// source trusted to carry the right position: once startup is over, it
    /// confirms it (a motion during startup confirms nothing). The active
    /// monitor is rendered if its capture has arrived.
    pub fn on_pointer_motion(&mut self, surface_x: i32, surface_y: i32) -> (r: Action)
        requires
            old(self).wf(),
        ensures
            final(self).wf(),
            *final(self) == (AppState {
                pointer_position_confirmed: old(self).pointer_position_confirmed || old(
                    self,
                ).initialization_complete,
                magnifier_position: match old(self).active_monitor {
                    Some(m) => normalized_position(
                        raw_position(surface_x, surface_y),
                        old(self).size_of(m as int),
                    ),
                    None => Vector2D {
                        x: if surface_x < 0 {
                            -surface_x
                        } else {
                            surface_x as int
                        } as i64,
                        y: if surface_y < 0 {
                            -surface_y
                        } else {
                            surface_y as int
                        } as i64,
                    },
                },
                ..*old(self)
            }),
            r == match old(self).active_monitor {
                Some(m) => if old(self).has_capture(m as int) {
                    Action::Render(m)
                } else {
                    Action::Nothing
                },
                None => Action::Nothing,
            },
    {
        if self.initialization_complete {
            self.pointer_position_confirmed = true;
        }
        match self.active_monitor {
            Some(m) => {
                let size = self.monitor_size(m);
                self.magnifier_position = normalize_position(
                    Vector2D::new(surface_x as i64, surface_y as i64),
                    size,
                );
                if self.capture_ready(m) {
                    Action::Render(m)
                } else {
                    Action::Nothing
                }
            },
            None => {
                let x: i64 = if surface_x < 0 {
                    -(surface_x as i64)
                } else {
                    surface_x as i64
                };
                let y: i64 = if surface_y < 0 {
                    -(surface_y as i64)
                } else {
                    surface_y as i64
                };
                self.magnifier_position = Vector2D::new(x, y);
                Action::Nothing
            },
        }
    }

    /// A key event: Escape (evdev code 1, keymap code 9) stops the session
    /// when pressed; releases and other keys change nothing.
    pub fn on_key(&mut self, key: u32, pressed: bool) -> (r: Action)
        ensures
            pressed && key + KEYCODE_OFFSET == ESCAPE_KEYCODE ==> *final(self) == (AppState {
                running: false,
                ..*old(self)
            }) && r == Action::Stop,
            !(pressed && key + KEYCODE_OFFSET == ESCAPE_KEYCODE) ==> *final(self) == *old(self) && r
                == Action::Nothing,
    {
        if pressed && key as u64 + KEYCODE_OFFSET == ESCAPE_KEYCODE {
            self.running = false;
            Action::Stop
        } else {
            Action::Nothing
        }
    }

    /// Submits every configured surface that has a buffer to draw into
    /// (the caller clears it to transparent). Returns, per surface, the slot
    /// submitted.
    fn clear_all_surfaces(&mut self) -> (cleared: Vec<Option<usize>>)
        requires
            old(self).wf(),
        ensures
            final(self).wf(),
            *final(self) == (AppState { layer_surfaces: final(self).layer_surfaces, ..*old(self) }),
            final(self).layer_surfaces.len() == old(self).layer_surfaces.len(),
            cleared@.len() == old(self).layer_surfaces.len(),
            forall|i: int|
                0 <= i < cleared@.len() ==> exit_cleared(
                    old(self).layer_surfaces[i],
                    final(self).layer_surfaces[i],
                    #[trigger] cleared@[i],
                ),
    {
        let mut cleared: Vec<Option<usize>> = Vec::new();
        let n = self.layer_surfaces.len();
        let mut i: usize = 0;
        while i < n
            invariant
                n == self.layer_surfaces.len() == old(self).layer_surfaces.len(),
                i <= n,
                cleared@.len() == i,
                self.wf(),
                *self == (AppState { layer_surfaces: self.layer_surfaces, ..*old(self) }),
                forall|j: int|
                    0 <= j < i ==> exit_cleared(
                        old(self).layer_surfaces[j],
                        self.layer_surfaces[j],
                        #[trigger] cleared@[j],
                    ),
                forall|j: int| i <= j < n ==> #[trigger] self.layer_surfaces[j] == old(self).layer_surfaces[j],
            decreases n - i,
        {
            let slot = if self.layer_surfaces[i].configured && self.layer_surfaces[i].get_available_buffer().is_some() {
                self.submit_frame(i)
            } else {
                None
            };
            cleared.push(slot);
            i = i + 1;
        }
        cleared
    }

    /// A scroll event. A vertical scroll by `value` sub-pixel steps changes
    /// the zoom by minus its notches times the zoom speed, clamped to
    /// [0.01, 1.0]. Reaching 1.0 ends the session: every surface that can be
    /// is cleared and submitted, and the caller waits the exit delay and
    /// stops. Otherwise the active monitor is rendered again.
    pub fn on_axis(&mut self, vertical: bool, value: i32) -> (r: Action)
        requires
            old(self).wf(),
        ensures
            final(self).wf(),
            !vertical ==> *final(self) == *old(self) && r == Action::Nothing,
            vertical ==> {
                let zoom = clamp_zoom(old(self).zoom + scroll_delta(value, old(self).zoom_speed));
                &&& final(self).zoom == zoom
                &&& final(self).renderer.zoom == zoom
                &&& zoom < RATIO_ONE ==> *final(self) == (AppState {
                    zoom: final(self).zoom,
                    renderer: final(self).renderer,
                    ..*old(self)
                }) && r == match old(self).active_monitor {
                    Some(m) => Action::Render(m),
                    None => Action::Nothing,
                }
                &&& zoom == RATIO_ONE ==> {
                    &&& *final(self) == (AppState {
                        zoom: final(self).zoom,
                        renderer: final(self).renderer,
                        running: false,
                        layer_surfaces: final(self).layer_surfaces,
                        ..*old(self)
                    })
                    &&& final(self).layer_surfaces.len() == old(self).layer_surfaces.len()
                    &&& r matches Action::Exit { cleared, delay_ms } && delay_ms == old(
                        self,
                    ).exit_delay_ms && cleared@.len() == old(self).layer_surfaces.len() && (forall|
                        i: int,
                    |
                        0 <= i < cleared@.len() ==> exit_cleared(
                            old(self).layer_surfaces[i],
                            final(self).layer_surfaces[i],
                            #[trigger] cleared@[i],
                        ))
                }
            },
    {
        if !vertical {
            return Action::Nothing;
        }
        assert(-0x8000_0000 * RATIO_ONE <= (-value) * self.zoom_speed <= 0x8000_0000 * RATIO_ONE)
            by (nonlinear_arith)
            requires
                -0x8000_0000 <= value <= 0x7fff_ffff,
                ZOOM_SPEED_MIN <= self.zoom_speed <= RATIO_ONE,
        ;
        let product: i64 = -(value as i64) * self.zoom_speed;
        let delta = product.checked_div_euclid(SCROLL_NOTCH_FIXED).unwrap();
        self.renderer.adjust_zoom(delta);
        self.zoom = self.renderer.zoom;
        if self.zoom >= RATIO_ONE {
            let cleared = self.clear_all_surfaces();
            self.running = false;
            return Action::Exit { cleared, delay_ms: self.exit_delay_ms };
        }
        match self.active_monitor {
            Some(m) => Action::Render(m),
            None => Action::Nothing,
        }
    }

    /// The overlay surface of monitor `m`: the first surface linked to it.
    fn find_surface(&self, m: usize) -> (r: Option<usize>)
        ensures
            r matches Some(j) ==> j < self.layer_surfaces.len() && self.layer_surfaces[j as int].monitor_idx
                == m && forall|k: int| 0 <= k < j ==> #[trigger] self.layer_surfaces[k].monitor_idx != m,
            r is None ==> forall|k: int|
                0 <= k < self.layer_surfaces.len() ==> #[trigger] self.layer_surfaces[k].monitor_idx != m,
    {
        let mut i: usize = 0;
        while i < self.layer_surfaces.len()
            invariant
                i <= self.layer_surfaces.len(),
                forall|k: int| 0 <= k < i ==> #[trigger] self.layer_surfaces[k].monitor_idx != m,
            decreases self.layer_surfaces.len() - i,
        {
            if self.layer_surfaces[i].monitor_idx == m {
                return Some(i);
            }
            i = i + 1;
        }
        None
    }

    /// Surface `j` is the first overlay surface linked to monitor `m`.
    pub open spec fn is_first_surface(&self, j: int, m: usize) -> bool {
        &&& 0 <= j < self.layer_surfaces.len()
        &&& self.layer_surfaces[j].monitor_idx == m
        &&& forall|k: int| 0 <= k < j ==> #[trigger] self.layer_surfaces[k].monitor_idx != m
    }

    /// The magnifier is shown on monitor `m`: the pointer is on it and its
    /// position has been confirmed by a motion event.
    pub open spec fn shows_magnifier(&self, m: usize) -> bool {
        self.pointer_position_confirmed && self.active_monitor == Some(m)
    }

    /// Pixel size of the buffer in the available slot of surface `j`.
    pub open spec fn output_px(&self, j: int) -> Vector2D {
        let ls = self.layer_surfaces[j];
        ls.buffers[ls.available_slot()]->Some_0.pixel_size
    }

    /// Pixel size of monitor `m`'s screen capture.
    pub open spec fn capture_px(&self, m: int) -> Vector2D {
        self.monitors[m].screen_buffer->Some_0.pixel_size
    }

    /// Renders monitor `monitor` into the slot of its overlay surface that
    /// was not submitted last, and submits that slot. The magnifier (stages
    /// of `Renderer::render_surface`) is drawn only where it is shown; any
    /// other monitor is cleared to transparent. Nothing is drawn on a surface
    /// that is not configured; where the slot holds no buffer, the caller is
    /// asked to allocate. A frame whose mapping into the capture does not fit
    /// in 64 bits is not drawn.
    pub fn render_monitor(&mut self, monitor: usize) -> (r: Result<RenderOutcome, RenderError>)
        requires
            old(self).wf(),
        ensures
            final(self).wf(),
            r is Err ==> *final(self) == *old(self),
            monitor >= old(self).monitors.len() ==> r == Err::<RenderOutcome, RenderError>(
                RenderError::InvalidMonitor,
            ),
            monitor < old(self).monitors.len() && old(self).monitors[monitor as int].screen_buffer is None
                ==> r == Err::<RenderOutcome, RenderError>(RenderError::NoScreenBuffer),
            old(self).has_capture(monitor as int) && (forall|k: int|
                0 <= k < old(self).layer_surfaces.len() ==> #[trigger] old(self).layer_surfaces[k].monitor_idx
                    != monitor) ==> r == Err::<RenderOutcome, RenderError>(RenderError::NoLayerSurface),
            forall|j: int|
                #![trigger old(self).is_first_surface(j, monitor)]
                old(self).has_capture(monitor as int) && old(self).is_first_surface(j, monitor) ==> {
                    let ls = old(self).layer_surfaces[j];
                    if !ls.configured {
                        *final(self) == *old(self) && r matches Ok(RenderOutcome::Skipped)
                    } else if ls.available() is None {
                        &&& *final(self) == *old(self)
                        &&& r matches Ok(RenderOutcome::NeedBuffers { surface, missing, shape })
                        &&& surface == j
                        &&& missing == (ls.buffers[0] is None, ls.buffers[1] is None)
                        &&& shape == surface_buffer(ls.monitor_size)
                    } else if old(self).shows_magnifier(monitor) && !mapping_in_range(
                        anchor_of(old(self).magnifier_position),
                        old(self).output_px(j),
                        old(self).capture_px(monitor as int),
                    ) {
                        r == Err::<RenderOutcome, RenderError>(RenderError::OutOfRange)
                    } else {
                        &&& r matches Ok(RenderOutcome::Drawn { surface, slot, plan })
                        &&& surface == j
                        &&& Some(slot) == ls.available()
                        &&& plan == if old(self).shows_magnifier(monitor) {
                            Some(
                                plan_spec(
                                    old(self).zoom,
                                    old(self).magnifier_position,
                                    old(self).magnifier_size,
                                    old(self).output_px(j),
                                    old(self).capture_px(monitor as int),
                                    false,
                                    false,
                                ),
                            )
                        } else {
                            None
                        }
                        &&& ls.frame_sent(&final(self).layer_surfaces[j], Some(slot))
                        &&& *final(self) == (AppState {
                            layer_surfaces: final(self).layer_surfaces,
                            ..*old(self)
                        })
                        &&& final(self).layer_surfaces.len() == old(self).layer_surfaces.len()
                        &&& forall|k: int|
                            0 <= k < final(self).layer_surfaces.len() && k != j ==> #[trigger] final(self).layer_surfaces[k]
                                == old(self).layer_surfaces[k]
                    }
                },
    {
        if monitor >= self.monitors.len() {
            return Err(RenderError::InvalidMonitor);
        }
        if self.monitors[monitor].screen_buffer.is_none() {
            return Err(RenderError::NoScreenBuffer);
        }
        let j = match self.find_surface(monitor) {
            None => {
                return Err(RenderError::NoLayerSurface);
            },
            Some(j) => j,
        };
        proof {
            assert forall|k: int| #[trigger] self.is_first_surface(k, monitor) implies k == j by {
                if k < j {
                    assert(self.layer_surfaces[k].monitor_idx != monitor);
                } else if j < k {
                    assert(self.layer_surfaces[j as int].monitor_idx != monitor);
                }
            }
            assert(self.layer_surfaces[j as int].wf());
        }
        if !self.layer_surfaces[j].configured {
            return Ok(RenderOutcome::Skipped);
        }
        match self.layer_surfaces[j].get_available_buffer() {
            None => {
                let missing = (
                    self.layer_surfaces[j].buffers[0].is_none(),
                    self.layer_surfaces[j].buffers[1].is_none(),
                );
                let shape = PoolBuffer::for_surface(self.layer_surfaces[j].monitor_size);
                Ok(RenderOutcome::NeedBuffers { surface: j, missing, shape })
            },
            Some(slot) => {
                let shown = self.pointer_position_confirmed && match self.active_monitor {
                    Some(a) => a == monitor,
                    None => false,
                };
                let out_px = match self.layer_surfaces[j].buffers[slot] {
                    Some(b) => b.pixel_size,
                    None => Vector2D::new(0, 0),
                };
                let cap_px = match self.monitors[monitor].screen_buffer {
                    Some(b) => b.pixel_size,
                    None => Vector2D::new(0, 0),
                };
                if shown && !mapping_fits(self.magnifier_position.floor(), out_px, cap_px) {
                    return Err(RenderError::OutOfRange);
                }
                let plan = if shown {
                    Some(
                        self.renderer.render_surface(
                            self.magnifier_position,
                            self.magnifier_size,
                            out_px,
                            cap_px,
                            false,
                            false,
                        ),
                    )
                } else {
                    None
                };
                self.submit_frame(j);
                Ok(RenderOutcome::Drawn { surface: j, slot, plan })
            },
        }
    }

    /// The seat's capabilities: whether to request a pointer and a keyboard.
    pub fn on_seat_capabilities(&self, capabilities: u32) -> (r: (bool, bool))
        ensures
            r == ((capabilities & SEAT_POINTER) != 0, (capabilities & SEAT_KEYBOARD) != 0),
    {
        ((capabilities & SEAT_POINTER) != 0, (capabilities & SEAT_KEYBOARD) != 0)
    }
}

/// During startup, however many enter events arrive, only the first one
/// whose normalized position lies on its monitor is kept as the seed; all
/// others change nothing, and the position stays unconfirmed.
pub proof fn lemma_startup_enter_seed(states: Seq<AppState>, events: Seq<(usize, Vector2D)>)
    requires
        states.len() == events.len() + 1,
        !states[0].initialization_complete,
        states[0].first_enter_during_init is None,
        forall|i: int|
            0 <= i < events.len() ==> #[trigger] states[i + 1] == states[i].seeded(
                events[i].0,
                events[i].1,
            ),
    ensures
        states.last() == (AppState {
            first_enter_during_init: first_valid_enter(states[0], events),
            ..states[0]
        }),
        states.last().pointer_position_confirmed == states[0].pointer_position_confirmed,
        !states.last().initialization_complete,
    decreases events.len(),
{
    if events.len() > 0 {
        let n = events.len() - 1;
        let prev_states = states.take(n + 1);
        let prev_events = events.take(n);
        assert forall|i: int| 0 <= i < prev_events.len() implies #[trigger] prev_states[i + 1]
            == prev_states[i].seeded(prev_events[i].0, prev_events[i].1) by {
            assert(states[i + 1] == states[i].seeded(events[i].0, events[i].1));
        }
        lemma_startup_enter_seed(prev_states, prev_events);
        assert(prev_events =~= events.drop_last());
        assert(states[n + 1] == states[n].seeded(events[n].0, events[n].1));
        assert(prev_states.last() == states[n]);
    }
}

/// When the zoom reaches 1.0 with every overlay surface configured and
/// holding a buffer in its free slot, the exit sequence submits that buffer
/// on every surface (the caller clears each to transparent first).
pub proof fn lemma_exit_clears_every_surface(
    old_surfaces: Seq<LayerSurface>,
    new_surfaces: Seq<LayerSurface>,
    cleared: Seq<Option<usize>>,
)
    requires
        old_surfaces.len() == new_surfaces.len() == cleared.len(),
        forall|i: int|
            0 <= i < cleared.len() ==> exit_cleared(
                old_surfaces[i],
                new_surfaces[i],
                #[trigger] cleared[i],
            ),
        forall|i: int|
            0 <= i < old_surfaces.len() ==> (#[trigger] old_surfaces[i]).configured
                && old_surfaces[i].available() is Some,
    ensures
        forall|i: int|
            0 <= i < cleared.len() ==> {
                &&& #[trigger] cleared[i] == old_surfaces[i].available()
                &&& cleared[i] is Some
                &&& old_surfaces[i].frame_sent(&new_surfaces[i], cleared[i])
            },
{
    assert forall|i: int| 0 <= i < cleared.len() implies {
        &&& #[trigger] cleared[i] == old_surfaces[i].available()
        &&& cleared[i] is Some
        &&& old_surfaces[i].frame_sent(&new_surfaces[i], cleared[i])
    } by {
        assert(old_surfaces[i].configured);
        assert(exit_cleared(old_surfaces[i], new_surfaces[i], cleared[i]));
    }
}

/// What the event loop does with the result of polling the connection.
pub fn poll_outcome(poll_result: i32) -> (r: PollOutcome)
    ensures
        poll_result > 0 ==> r == PollOutcome::Read,
        poll_result == 0 ==> r == PollOutcome::Cancel,
        poll_result < 0 ==> r == PollOutcome::Fail,
{
    if poll_result > 0 {
        PollOutcome::Read
    } else if poll_result < 0 {
        PollOutcome::Fail
    } else {
        PollOutcome::Cancel
    }
}

} // verus!
