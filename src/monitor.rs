//! What is known of one physical output, accumulated from its events.
use crate::config::RATIO_ONE;
use crate::pool_buffer::PoolBuffer;
use crate::vector::{Vector2D, FIXED_ONE};
use vstd::prelude::*;

verus! {

/// Largest magnitude of a monitor dimension, in sub-pixel steps
/// (an `i32` pixel count).
pub const MONITOR_DIM_LIMIT: i64 = 0x80_0000_0000;

pub struct Monitor {
    pub name: String,
    /// Position in the order in which outputs were announced.
    pub wayland_name: u32,
    /// Physical size in pixels (as sub-pixel steps).
    pub size: Vector2D,
    /// Integer scale reported by the output.
    pub scale: i32,
    /// Effective scale in millionths: the override if there is one, else
    /// the integer scale.
    pub fractional_scale: i64,
    /// Fractional scale that replaces the integer scale, in millionths.
    pub scale_override: Option<i64>,
    /// All initial properties have arrived.
    pub ready: bool,
    /// The single screen capture of this output, once it has been taken.
    pub screen_buffer: Option<PoolBuffer>,
    pub screen_buffer_format: u32,
    pub screen_flags: u32,
    /// Index of this monitor's overlay surface.
    pub layer_surface_idx: Option<usize>,
}

impl Monitor {
    /// Sizes stay within what an output can report.
    pub open spec fn wf(&self) -> bool {
        -MONITOR_DIM_LIMIT <= self.size.x <= MONITOR_DIM_LIMIT && -MONITOR_DIM_LIMIT <= self.size.y
            <= MONITOR_DIM_LIMIT
    }

    /// The scale that layout uses: the override when one was given, else
    /// the integer scale (in millionths).
    pub open spec fn effective_scale(&self) -> i64 {
        match self.scale_override {
            Some(f) => f,
            None => self.fractional_scale,
        }
    }

    /// Physical size divided by the effective scale.
    pub open spec fn logical_size(&self) -> Vector2D {
        Vector2D {
            x: ((self.size.x * RATIO_ONE) / (self.effective_scale() as int)) as i64,
            y: ((self.size.y * RATIO_ONE) / (self.effective_scale() as int)) as i64,
        }
    }

    pub fn new(wayland_name: u32) -> (r: Self)
        ensures
            r.wf(),
            r.name@.len() == 0,
            r.wayland_name == wayland_name,
            r.size == (Vector2D { x: 0, y: 0 }),
            r.scale == 1,
            r.fractional_scale == RATIO_ONE,
            r.scale_override is None,
            !r.ready,
            r.screen_buffer is None,
            r.screen_buffer_format == 0,
            r.screen_flags == 0,
            r.layer_surface_idx is None,
    {
        Monitor {
            name: String::new(),
            wayland_name,
            size: Vector2D::new(0, 0),
            scale: 1,
            fractional_scale: RATIO_ONE,
            scale_override: None,
            ready: false,
            screen_buffer: None,
            screen_buffer_format: 0,
            screen_flags: 0,
            layer_surface_idx: None,
        }
    }

    /// The size in logical pixels, rounded down to a sub-pixel step.
    pub fn get_logical_size(&self) -> (r: Vector2D)
        requires
            self.wf(),
            self.effective_scale() > 0,
        ensures
            r == self.logical_size(),
    {
        proof {
            lemma_div_bounded(self.size.x as int, self.effective_scale() as int);
            lemma_div_bounded(self.size.y as int, self.effective_scale() as int);
        }
        let scale = match self.scale_override {
            Some(f) => f,
            None => self.fractional_scale,
        };
        let fs = scale as i128;
        let x = (self.size.x as i128 * RATIO_ONE as i128).checked_div_euclid(fs).unwrap();
        let y = (self.size.y as i128 * RATIO_ONE as i128).checked_div_euclid(fs).unwrap();
        Vector2D::new(x as i64, y as i64)
    }

    /// The output's position in the global space; it changes nothing here.
    pub fn set_geometry(&mut self, x: i32, y: i32, width: i32, height: i32)
        ensures
            *final(self) == *old(self),
    {
    }

    /// The current mode: its size becomes the monitor's physical size.
    pub fn set_mode(&mut self, width: i32, height: i32, refresh: i32)
        ensures
            final(self).wf(),
            *final(self) == (Monitor {
                size: Vector2D { x: (width * 256) as i64, y: (height * 256) as i64 },
                ..*old(self)
            }),
    {
        self.size = Vector2D::new(width as i64 * FIXED_ONE, height as i64 * FIXED_ONE);
    }

    /// The integer scale; it becomes the effective scale unless an override
    /// was given, which stays in force.
    pub fn set_scale(&mut self, scale: i32)
        ensures
            *final(self) == (Monitor {
                scale,
                fractional_scale: match old(self).scale_override {
                    Some(f) => f,
                    None => (scale * RATIO_ONE) as i64,
                },
                ..*old(self)
            }),
    {
        self.scale = scale;
        self.fractional_scale = match self.scale_override {
            Some(f) => f,
            None => scale as i64 * RATIO_ONE,
        };
    }

    /// Overrides the effective scale (in millionths), now and after any
    /// later integer scale.
    pub fn set_fractional_scale(&mut self, fractional_scale: i64)
        ensures
            *final(self) == (Monitor {
                fractional_scale,
                scale_override: Some(fractional_scale),
                ..*old(self)
            }),
    {
        self.fractional_scale = fractional_scale;
        self.scale_override = Some(fractional_scale);
    }

    pub fn set_name(&mut self, name: String)
        ensures
            *final(self) == (Monitor { name, ..*old(self) }),
    {
        self.name = name;
    }

    /// Stores the screen capture of this output.
    pub fn set_screen_buffer(&mut self, buffer: PoolBuffer, format: u32)
        ensures
            *final(self) == (Monitor {
                screen_buffer: Some(buffer),
                screen_buffer_format: format,
                ..*old(self)
            }),
    {
        self.screen_buffer = Some(buffer);
        self.screen_buffer_format = format;
    }

    /// Links the monitor to its overlay surface.
    pub fn set_layer_surface(&mut self, idx: usize)
        ensures
            *final(self) == (Monitor { layer_surface_idx: Some(idx), ..*old(self) }),
    {
        self.layer_surface_idx = Some(idx);
    }

    /// The output has sent all its properties: the monitor is ready.
    pub fn set_done(&mut self)
        ensures
            *final(self) == (Monitor { ready: true, ..*old(self) }),
    {
        self.ready = true;
    }
}

proof fn lemma_div_bounded(v: int, fs: int)
    requires
        -MONITOR_DIM_LIMIT <= v <= MONITOR_DIM_LIMIT,
        fs > 0,
    ensures
        -MONITOR_DIM_LIMIT * RATIO_ONE <= (v * RATIO_ONE) / fs <= MONITOR_DIM_LIMIT * RATIO_ONE,
{
    assert(-MONITOR_DIM_LIMIT * RATIO_ONE <= v * RATIO_ONE <= MONITOR_DIM_LIMIT * RATIO_ONE)
        by (nonlinear_arith)
        requires
            -MONITOR_DIM_LIMIT <= v <= MONITOR_DIM_LIMIT,
    ;
    let p = v * RATIO_ONE;
    if p >= 0 {
        assert(0 <= p / fs <= p) by (nonlinear_arith)
            requires
                p >= 0,
                fs > 0,
        ;
    } else {
        assert(p <= p / fs < 0) by (nonlinear_arith)
            requires
                p < 0,
                fs > 0,
        ;
    }
}

} // verus!
