//! Settings of a magnifier session and the validation that produces them.
//!
//! Ratios (zoom speed, monitor scale) are fixed-point numbers in millionths:
//! `RATIO_ONE` stands for 1.0.
use crate::vector::{size_in_range, Vector2D, COORD_LIMIT, FIXED_ONE};
use vstd::prelude::*;
use vstd::string::StrSliceExecFns;

verus! {

/// The fixed-point representation of 1.0 for ratios.
pub const RATIO_ONE: i64 = 1_000_000;

/// Smallest accepted zoom speed (0.001).
pub const ZOOM_SPEED_MIN: i64 = 1_000;

/// Default zoom speed (0.05 per scroll notch).
pub const ZOOM_SPEED_DEFAULT: i64 = 50_000;

/// Largest accepted exit delay, in milliseconds.
pub const EXIT_DELAY_MAX_MS: u64 = 5000;

/// Default exit delay, in milliseconds.
pub const EXIT_DELAY_DEFAULT_MS: u64 = 200;

/// Largest accepted scale override (10.0).
pub const SCALE_MAX: i64 = 10_000_000;

/// Largest width or height, in pixels, that a size string may give.
pub const SIZE_PART_MAX: i64 = 0x7fff_ffff;

/// Default magnifier width and height, in pixels.
pub const DEFAULT_WIDTH_PX: i64 = 300;

pub const DEFAULT_HEIGHT_PX: i64 = 150;

/// How the magnifying frame follows the cursor.
#[derive(Clone, Copy, Debug, PartialEq, Eq, Structural)]
pub enum MoveType {
    /// The frame moves relative to cursor movement.
    Corner,
    /// The frame follows the cursor position.
    Cursor,
}

impl Default for MoveType {
    fn default() -> (r: Self)
        ensures
            r == MoveType::Cursor,
    {
        MoveType::Cursor
    }
}

/// Verbosity of the diagnostics.
#[derive(Clone, Copy, Debug, PartialEq, Eq, Structural)]
pub enum LogLevel {
    Error,
    Info,
    Trace,
}

/// Why a size string was rejected.
#[derive(Clone, Copy, Debug, PartialEq, Eq, Structural)]
pub enum SizeError {
    /// Not of the form WIDTHxHEIGHT (no `x`, or more than one).
    Format,
    /// The width is not a number.
    Width,
    /// The height is not a number.
    Height,
    /// A dimension is zero or negative.
    NotPositive,
}

/// Validated settings of a session.
#[derive(Clone, Copy, Debug)]
pub struct Config {
    pub move_type: MoveType,
    /// Size of the magnifying frame.
    pub size: Vector2D,
    pub render_inactive: bool,
    pub continuous_capture: bool,
    /// Zoom change per scroll notch, in millionths.
    pub zoom_speed: i64,
    pub exit_delay_ms: u64,
    pub hide_cursor: bool,
    /// Scale override in millionths; `None` keeps the monitor's integer scale.
    pub scale: Option<i64>,
}

/// Command-line settings as given, before validation.
#[derive(Clone, Copy, Debug)]
pub struct Cli {
    pub move_type: MoveType,
    pub size: Option<Vector2D>,
    pub render_inactive: bool,
    pub continuous: bool,
    /// In millionths.
    pub zoom_speed: i64,
    pub exit_delay: u64,
    pub quiet: bool,
    pub verbose: bool,
    pub show_cursor: bool,
    /// In millionths.
    pub scale: Option<i64>,
}

pub open spec fn default_size() -> Vector2D {
    Vector2D { x: 76800, y: 38400 }
}

pub open spec fn clamp(v: int, lo: int, hi: int) -> int {
    if v < lo {
        lo
    } else if v > hi {
        hi
    } else {
        v
    }
}

/// A scale override that is not positive is dropped; one above the maximum
/// is lowered to it.
pub open spec fn valid_scale(scale: Option<i64>) -> Option<i64> {
    match scale {
        Some(s) => if s <= 0 {
            None
        } else if s > SCALE_MAX {
            Some(SCALE_MAX)
        } else {
            Some(s)
        },
        None => None,
    }
}

pub open spec fn is_digit(c: char) -> bool {
    '0' <= c && c <= '9'
}

pub open spec fn digits_value(s: Seq<char>) -> int
    decreases s.len(),
{
    if s.len() == 0 {
        0
    } else {
        digits_value(s.drop_last()) * 10 + (s.last() as int - '0' as int)
    }
}

pub open spec fn all_digits(s: Seq<char>) -> bool {
    forall|i: int| 0 <= i < s.len() ==> is_digit(#[trigger] s[i])
}

/// A fraction given by its decimal digits (`s` = "25" for .25), in
/// sub-pixel steps, rounded down.
pub open spec fn frac_steps(s: Seq<char>) -> int
    decreases s.len(),
{
    if s.len() == 0 {
        0
    } else {
        ((s[0] as int - '0' as int) * 256 + frac_steps(s.drop_first())) / 10
    }
}

pub open spec fn count_char(s: Seq<char>, c: char) -> nat
    decreases s.len(),
{
    if s.len() == 0 {
        0
    } else {
        count_char(s.drop_last(), c) + if s.last() == c {
            1nat
        } else {
            0nat
        }
    }
}

/// Position of the last `c`, or -1.
pub open spec fn last_char(s: Seq<char>, c: char) -> int
    decreases s.len(),
{
    if s.len() == 0 {
        -1
    } else if s.last() == c {
        s.len() - 1
    } else {
        last_char(s.drop_last(), c)
    }
}

/// A decimal magnitude in sub-pixel steps: whole digits, optionally a `.`
/// and fraction digits (at least one digit in all), the whole part no larger
/// than `SIZE_PART_MAX`; the fraction is rounded down to a step.
pub open spec fn parse_magnitude(s: Seq<char>) -> Option<int> {
    let n = count_char(s, '.');
    let p = if n == 0 {
        s.len() as int
    } else {
        last_char(s, '.')
    };
    let whole = s.subrange(0, p);
    let frac = if n == 0 {
        Seq::<char>::empty()
    } else {
        s.subrange(p + 1, s.len() as int)
    };
    if n <= 1 && s.len() > n && all_digits(whole) && all_digits(frac) && digits_value(whole)
        <= SIZE_PART_MAX {
        Some(digits_value(whole) * 256 + frac_steps(frac))
    } else {
        None
    }
}

/// A magnitude, optionally preceded by `+` or `-`.
pub open spec fn parse_number(s: Seq<char>) -> Option<int> {
    if s.len() > 0 && s[0] == '-' {
        match parse_magnitude(s.subrange(1, s.len() as int)) {
            Some(v) => Some(-v),
            None => None,
        }
    } else if s.len() > 0 && s[0] == '+' {
        parse_magnitude(s.subrange(1, s.len() as int))
    } else {
        parse_magnitude(s)
    }
}

/// `WIDTHxHEIGHT`: width and height in sub-pixel steps.
pub open spec fn parse_size_spec(s: Seq<char>) -> Result<(int, int), SizeError> {
    if count_char(s, 'x') != 1 {
        Err(SizeError::Format)
    } else {
        let p = last_char(s, 'x');
        match parse_number(s.subrange(0, p)) {
            None => Err(SizeError::Width),
            Some(w) => match parse_number(s.subrange(p + 1, s.len() as int)) {
                None => Err(SizeError::Height),
                Some(h) => if w <= 0 || h <= 0 {
                    Err(SizeError::NotPositive)
                } else {
                    Ok((w, h))
                },
            },
        }
    }
}

proof fn lemma_digits_nonneg(s: Seq<char>)
    requires
        all_digits(s),
    ensures
        digits_value(s) >= 0,
    decreases s.len(),
{
    if s.len() > 0 {
        assert(is_digit(s[s.len() - 1]));
        assert forall|i: int| 0 <= i < s.drop_last().len() implies is_digit(#[trigger] s.drop_last()[i]) by {
            assert(s.drop_last()[i] == s[i]);
        }
        lemma_digits_nonneg(s.drop_last());
    }
}

proof fn lemma_last_char_bounds(s: Seq<char>, c: char)
    ensures
        -1 <= last_char(s, c) < s.len(),
        count_char(s, c) > 0 ==> 0 <= last_char(s, c),
        count_char(s, c) <= s.len(),
    decreases s.len(),
{
    if s.len() > 0 {
        lemma_last_char_bounds(s.drop_last(), c);
    }
}

/// Counts `c` in `s@[from..to]`; also returns the position of the last one
/// relative to `from`.
fn count_char_exec(s: &str, from: usize, to: usize, c: char) -> (r: (usize, usize))
    requires
        from <= to <= s@.len(),
    ensures
        r.0 == count_char(s@.subrange(from as int, to as int), c),
        r.0 > 0 ==> r.1 == last_char(s@.subrange(from as int, to as int), c),
{
    let mut count: usize = 0;
    let mut pos: usize = 0;
    let mut i = from;
    while i < to
        invariant
            from <= i <= to <= s@.len(),
            count == count_char(s@.subrange(from as int, i as int), c),
            count <= i - from,
            count > 0 ==> pos == last_char(s@.subrange(from as int, i as int), c),
        decreases to - i,
    {
        let ghost prev = s@.subrange(from as int, i as int);
        let ghost next = s@.subrange(from as int, i + 1);
        assert(next.drop_last() =~= prev);
        if s.get_char(i) == c {
            count = count + 1;
            pos = i - from;
        }
        i = i + 1;
    }
    (count, pos)
}

/// The digits of `s@[from..to]` as a number, saturated just above
/// `SIZE_PART_MAX`; `None` if a character is not a digit.
fn digits_exec(s: &str, from: usize, to: usize) -> (r: Option<i64>)
    requires
        from <= to <= s@.len(),
    ensures
        r is Some <==> all_digits(s@.subrange(from as int, to as int)),
        r is Some ==> r->Some_0 == clamp(
            digits_value(s@.subrange(from as int, to as int)),
            0,
            SIZE_PART_MAX + 1,
        ),
{
    let ghost part = s@.subrange(from as int, to as int);
    let mut val: i64 = 0;
    let mut i = from;
    while i < to
        invariant
            from <= i <= to <= s@.len(),
            part == s@.subrange(from as int, to as int),
            all_digits(s@.subrange(from as int, i as int)),
            val == clamp(digits_value(s@.subrange(from as int, i as int)), 0, SIZE_PART_MAX + 1),
            digits_value(s@.subrange(from as int, i as int)) >= 0,
        decreases to - i,
    {
        let c = s.get_char(i);
        if c < '0' || c > '9' {
            assert(part[i - from] == c);
            return None;
        }
        let ghost prev = s@.subrange(from as int, i as int);
        let ghost next = s@.subrange(from as int, i + 1);
        assert(next.drop_last() =~= prev);
        assert(next.last() == c);
        let d = (c as u32 - '0' as u32) as i64;
        let grown = val * 10 + d;
        val = if grown > SIZE_PART_MAX + 1 {
            SIZE_PART_MAX + 1
        } else {
            grown
        };
        assert forall|k: int| 0 <= k < next.len() implies is_digit(#[trigger] next[k]) by {
            if k < prev.len() {
                assert(next[k] == prev[k]);
            }
        }
        i = i + 1;
    }
    assert(s@.subrange(from as int, i as int) =~= part);
    Some(val)
}

/// The fraction digits `s@[from..to]` in sub-pixel steps; `None` if a
/// character is not a digit.
fn frac_exec(s: &str, from: usize, to: usize) -> (r: Option<i64>)
    requires
        from <= to <= s@.len(),
    ensures
        r is Some <==> all_digits(s@.subrange(from as int, to as int)),
        r is Some ==> r->Some_0 == frac_steps(s@.subrange(from as int, to as int)) && 0 <= r->Some_0
            < 256,
{
    let ghost part = s@.subrange(from as int, to as int);
    let mut v: i64 = 0;
    let mut i = to;
    while i > from
        invariant
            from <= i <= to <= s@.len(),
            part == s@.subrange(from as int, to as int),
            all_digits(s@.subrange(i as int, to as int)),
            v == frac_steps(s@.subrange(i as int, to as int)),
            0 <= v < 256,
        decreases i - from,
    {
        let c = s.get_char(i - 1);
        if c < '0' || c > '9' {
            assert(part[i - 1 - from] == c);
            return None;
        }
        let ghost prev = s@.subrange(i as int, to as int);
        let ghost next = s@.subrange(i - 1, to as int);
        assert(next.drop_first() =~= prev);
        assert(next[0] == c);
        let d = (c as u32 - '0' as u32) as i64;
        v = (d * 256 + v) / 10;
        assert forall|k: int| 0 <= k < next.len() implies is_digit(#[trigger] next[k]) by {
            if k > 0 {
                assert(next[k] == prev[k - 1]);
            }
        }
        i = i - 1;
    }
    assert(s@.subrange(i as int, to as int) =~= part);
    Some(v)
}

/// Parses the magnitude `s@[from..to]` in sub-pixel steps.
fn parse_magnitude_exec(s: &str, from: usize, to: usize) -> (r: Option<i64>)
    requires
        from <= to <= s@.len(),
    ensures
        match parse_magnitude(s@.subrange(from as int, to as int)) {
            Some(v) => r == Some(v as i64),
            None => r is None,
        },
        r is Some ==> 0 <= r->Some_0 <= SIZE_PART_MAX * 256 + 255,
        parse_magnitude(s@.subrange(from as int, to as int)) is Some ==> 0 <= parse_magnitude(
            s@.subrange(from as int, to as int),
        )->Some_0 <= SIZE_PART_MAX * 256 + 255,
{
    let ghost part = s@.subrange(from as int, to as int);
    let (n, p) = count_char_exec(s, from, to, '.');
    proof {
        lemma_last_char_bounds(part, '.');
    }
    if n > 1 || to - from <= n {
        return None;
    }
    let wend = if n == 0 {
        to
    } else {
        from + p
    };
    assert(part.subrange(0, wend - from) =~= s@.subrange(from as int, wend as int));
    let whole = digits_exec(s, from, wend);
    let frac = if n == 0 {
        assert(s@.subrange(to as int, to as int) =~= Seq::<char>::empty());
        frac_exec(s, to, to)
    } else {
        assert(part.subrange(p + 1, part.len() as int) =~= s@.subrange(from + p + 1, to as int));
        frac_exec(s, from + p + 1, to)
    };
    proof {
        if whole is Some {
            lemma_digits_nonneg(s@.subrange(from as int, wend as int));
        }
    }
    match whole {
        None => None,
        Some(w) => match frac {
            None => None,
            Some(f) => {
                if w > SIZE_PART_MAX {
                    None
                } else {
                    Some(w * 256 + f)
                }
            },
        },
    }
}

/// Parses an optionally signed magnitude from `s@[from..to]`.
fn parse_number_exec(s: &str, from: usize, to: usize) -> (r: Option<i64>)
    requires
        from <= to <= s@.len(),
    ensures
        match parse_number(s@.subrange(from as int, to as int)) {
            Some(v) => r == Some(v as i64),
            None => r is None,
        },
        r is Some ==> -(SIZE_PART_MAX * 256 + 255) <= r->Some_0 <= SIZE_PART_MAX * 256 + 255,
        parse_number(s@.subrange(from as int, to as int)) is Some ==> -(SIZE_PART_MAX * 256 + 255)
            <= parse_number(s@.subrange(from as int, to as int))->Some_0 <= SIZE_PART_MAX * 256 + 255,
{
    let ghost part = s@.subrange(from as int, to as int);
    if from < to {
        let c = s.get_char(from);
        assert(part[0] == c);
        assert(part.subrange(1, part.len() as int) =~= s@.subrange(from + 1, to as int));
        if c == '-' {
            return match parse_magnitude_exec(s, from + 1, to) {
                Some(v) => Some(-v),
                None => None,
            };
        } else if c == '+' {
            return parse_magnitude_exec(s, from + 1, to);
        }
    }
    parse_magnitude_exec(s, from, to)
}

/// Parses a size given as `WIDTHxHEIGHT` in pixels, each a decimal number
/// that may have a fractional part (kept to a sub-pixel step).
pub fn parse_size(s: &str) -> (r: Result<Vector2D, SizeError>)
    ensures
        match parse_size_spec(s@) {
            Ok(wh) => r == Ok::<Vector2D, SizeError>(Vector2D { x: wh.0 as i64, y: wh.1 as i64 }),
            Err(e) => r == Err::<Vector2D, SizeError>(e),
        },
{
    let n = s.unicode_len();
    let (count, pos) = count_char_exec(s, 0, n, 'x');
    assert(s@.subrange(0, n as int) =~= s@);
    if count != 1 {
        return Err(SizeError::Format);
    }
    proof {
        lemma_last_char_bounds(s@, 'x');
    }
    let w = parse_number_exec(s, 0, pos);
    let h = parse_number_exec(s, pos + 1, n);
    match w {
        None => Err(SizeError::Width),
        Some(w) => match h {
            None => Err(SizeError::Height),
            Some(h) => {
                if w <= 0 || h <= 0 {
                    Err(SizeError::NotPositive)
                } else {
                    Ok(Vector2D::new(w, h))
                }
            },
        },
    }
}

/// Checks a scale override: one that is not positive is dropped, one above
/// 10.0 is lowered to 10.0, any other is kept as given.
pub fn validate_scale(scale: Option<i64>) -> (r: Option<i64>)
    ensures
        r == valid_scale(scale),
{
    match scale {
        Some(s) => if s <= 0 {
            None
        } else if s > SCALE_MAX {
            Some(SCALE_MAX)
        } else {
            Some(s)
        },
        None => None,
    }
}

impl Default for Config {
    fn default() -> (r: Self)
        ensures
            r.move_type == MoveType::Cursor,
            r.size == default_size(),
            !r.render_inactive,
            r.continuous_capture,
            r.zoom_speed == ZOOM_SPEED_DEFAULT,
            r.exit_delay_ms == EXIT_DELAY_DEFAULT_MS,
            r.hide_cursor,
            r.scale is None,
            r.wf(),
    {
        Config {
            move_type: MoveType::Cursor,
            size: Vector2D::new(DEFAULT_WIDTH_PX * FIXED_ONE, DEFAULT_HEIGHT_PX * FIXED_ONE),
            render_inactive: false,
            continuous_capture: true,
            zoom_speed: ZOOM_SPEED_DEFAULT,
            exit_delay_ms: EXIT_DELAY_DEFAULT_MS,
            hide_cursor: true,
            scale: None,
        }
    }
}

impl Config {
    /// The ranges that validation guarantees.
    pub open spec fn wf(&self) -> bool {
        &&& ZOOM_SPEED_MIN <= self.zoom_speed <= RATIO_ONE
        &&& self.exit_delay_ms <= EXIT_DELAY_MAX_MS
        &&& size_in_range(self.size)
        &&& (self.scale matches Some(s) ==> 0 < s <= SCALE_MAX)
    }

    /// Validates command-line settings: the zoom speed is clamped to
    /// [0.001, 1.0], the exit delay to at most 5000 ms, the scale override
    /// checked by `validate_scale`; a missing size takes the default.
    pub fn from_cli(cli: Cli) -> (c: Config)
        ensures
            c.move_type == cli.move_type,
            c.size == (match cli.size {
                Some(v) => v,
                None => default_size(),
            }),
            c.render_inactive == cli.render_inactive,
            c.continuous_capture == cli.continuous,
            c.zoom_speed == clamp(cli.zoom_speed as int, ZOOM_SPEED_MIN as int, RATIO_ONE as int),
            c.exit_delay_ms == if cli.exit_delay > EXIT_DELAY_MAX_MS {
                EXIT_DELAY_MAX_MS
            } else {
                cli.exit_delay
            },
            c.hide_cursor == !cli.show_cursor,
            c.scale == valid_scale(cli.scale),
            (cli.size matches Some(v) ==> size_in_range(v)) ==> c.wf(),
    {
        let size = match cli.size {
            Some(v) => v,
            None => Config::default().size,
        };
        let zoom_speed = if cli.zoom_speed < ZOOM_SPEED_MIN {
            ZOOM_SPEED_MIN
        } else if cli.zoom_speed > RATIO_ONE {
            RATIO_ONE
        } else {
            cli.zoom_speed
        };
        let exit_delay_ms = if cli.exit_delay > EXIT_DELAY_MAX_MS {
            EXIT_DELAY_MAX_MS
        } else {
            cli.exit_delay
        };
        Config {
            move_type: cli.move_type,
            size,
            render_inactive: cli.render_inactive,
            continuous_capture: cli.continuous,
            zoom_speed,
            exit_delay_ms,
            hide_cursor: !cli.show_cursor,
            scale: validate_scale(cli.scale),
        }
    }

    /// Whether the settings lie in the ranges that validation guarantees.
    pub fn is_valid(&self) -> (r: bool)
        ensures
            r == self.wf(),
    {
        let scale_ok = match self.scale {
            Some(s) => 0 < s && s <= SCALE_MAX,
            None => true,
        };
        ZOOM_SPEED_MIN <= self.zoom_speed && self.zoom_speed <= RATIO_ONE && self.exit_delay_ms
            <= EXIT_DELAY_MAX_MS && 0 <= self.size.x && self.size.x <= COORD_LIMIT && 0 <= self.size.y
            && self.size.y <= COORD_LIMIT && scale_ok
    }

    /// Quiet wins over verbose; neither gives the informational level.
    pub fn log_level(&self, cli: &Cli) -> (r: LogLevel)
        ensures
            r == if cli.quiet {
                LogLevel::Error
            } else if cli.verbose {
                LogLevel::Trace
            } else {
                LogLevel::Info
            },
    {
        if cli.quiet {
            LogLevel::Error
        } else if cli.verbose {
            LogLevel::Trace
        } else {
            LogLevel::Info
        }
    }
}

} // verus!
