//! Backlight control.
//!
//! The backlight has three drive lines, one per brightness level, each active
//! low: driving a line low lights the backlight at that line's level. The
//! controller decides the levels of the three lines; whoever owns the pins
//! drives them to `pin_levels()` after each call.
use vstd::prelude::*;

verus! {

/// Brightness levels for the backlight.
#[derive(Clone, Copy, Debug, PartialEq, Eq, Structural)]
pub enum BrightnessLevel {
    /// Low brightness
    Low,
    /// Medium brightness
    Medium,
    /// High brightness
    High,
}

impl Default for BrightnessLevel {
    /// The default brightness is `Low`.
    fn default() -> (r: Self)
        ensures
            r == BrightnessLevel::Low,
    {
        BrightnessLevel::Low
    }
}

/// The level a drive line is held at.
#[derive(Clone, Copy, Debug, PartialEq, Eq, Structural)]
pub enum Level {
    Low,
    High,
}

/// Levels of the (low, medium, high) drive lines that light the backlight at
/// `level`: that level's line low, the other two high.
pub open spec fn lit_pins(level: BrightnessLevel) -> (Level, Level, Level) {
    match level {
        BrightnessLevel::Low => (Level::Low, Level::High, Level::High),
        BrightnessLevel::Medium => (Level::High, Level::Low, Level::High),
        BrightnessLevel::High => (Level::High, Level::High, Level::Low),
    }
}

/// Levels of the drive lines with the backlight off: all three high.
pub open spec fn dark_pins() -> (Level, Level, Level) {
    (Level::High, Level::High, Level::High)
}

/// Backlight controller
pub struct BacklightController {
    low: Level,
    medium: Level,
    high: Level,
    brightness_level: BrightnessLevel,
}

impl BacklightController {
    /// Levels of the (low, medium, high) drive lines.
    pub closed spec fn pins(self) -> (Level, Level, Level) {
        (self.low, self.medium, self.high)
    }

    /// The brightness level the controller is set to.
    pub closed spec fn level(self) -> BrightnessLevel {
        self.brightness_level
    }

    /// The backlight is either off or lit at exactly the current brightness:
    /// at most one line is driven low, and it is the current level's line.
    pub open spec fn wf(self) -> bool {
        self.pins() == dark_pins() || self.pins() == lit_pins(self.level())
    }

    /// Create a new backlight controller instance: all lines high (backlight
    /// off), brightness at its default.
    pub fn new() -> (r: Self)
        ensures
            r.pins() == dark_pins(),
            r.pins() == (Level::High, Level::High, Level::High),
            r.level() == BrightnessLevel::Low,
            r.wf(),
    {
        BacklightController {
            low: Level::High,
            medium: Level::High,
            high: Level::High,
            brightness_level: BrightnessLevel::default(),
        }
    }

    /// Levels the (low, medium, high) drive lines must be held at.
    pub fn pin_levels(&self) -> (r: (Level, Level, Level))
        ensures
            r == self.pins(),
    {
        (self.low, self.medium, self.high)
    }

    /// Get the current brightness level
    pub fn brightness(&self) -> (r: BrightnessLevel)
        ensures
            r == self.level(),
    {
        self.brightness_level
    }

    /// Set the brightness level, and light the backlight at it.
    pub fn set_brightness(&mut self, level: BrightnessLevel)
        ensures
            set_from(*final(self), *old(self), level),
            final(self).wf(),
            final(self).level() == level,
            level == BrightnessLevel::Low ==> final(self).pins() == (Level::Low, Level::High, Level::High),
            level == BrightnessLevel::Medium ==> final(self).pins() == (Level::High, Level::Low, Level::High),
            level == BrightnessLevel::High ==> final(self).pins() == (Level::High, Level::High, Level::Low),
    {
        self.low = Level::High;
        self.medium = Level::High;
        self.high = Level::High;
        self.brightness_level = level;
        match level {
            BrightnessLevel::Low => self.low = Level::Low,
            BrightnessLevel::Medium => self.medium = Level::Low,
            BrightnessLevel::High => self.high = Level::Low,
        }
    }

    /// Enable the backlight at the current brightness level
    pub fn enable(&mut self)
        ensures
            enabled_from(*final(self), *old(self)),
            final(self).wf(),
            final(self).level() == old(self).level(),
            old(self).level() == BrightnessLevel::Low ==> final(self).pins() == (Level::Low, Level::High, Level::High),
            old(self).level() == BrightnessLevel::Medium ==> final(self).pins() == (Level::High, Level::Low, Level::High),
            old(self).level() == BrightnessLevel::High ==> final(self).pins() == (Level::High, Level::High, Level::Low),
    {
        let level = self.brightness_level;
        self.set_brightness(level);
    }

    /// Disable the backlight, keeping its brightness level.
    pub fn disable(&mut self)
        ensures
            disabled_from(*final(self), *old(self)),
            final(self).wf(),
            final(self).pins() == (Level::High, Level::High, Level::High),
            final(self).level() == old(self).level(),
    {
        self.low = Level::High;
        self.medium = Level::High;
        self.high = Level::High;
    }
}

/// `after` is `before` set to brightness `level`: that level, lit.
pub open spec fn set_from(after: BacklightController, before: BacklightController, level: BrightnessLevel) -> bool {
    &&& after.level() == level
    &&& after.pins() == lit_pins(level)
}

/// `after` is `before` enabled: same level, lit at it.
pub open spec fn enabled_from(after: BacklightController, before: BacklightController) -> bool {
    set_from(after, before, before.level())
}

/// `after` is `before` disabled: same level, all lines high.
pub open spec fn disabled_from(after: BacklightController, before: BacklightController) -> bool {
    &&& after.level() == before.level()
    &&& after.pins() == dark_pins()
}

/// Disabling and then enabling the backlight restores the state that the last
/// `set_brightness` left: same brightness, lit at it.
pub proof fn lemma_enable_after_disable_restores(
    s0: BacklightController,
    s1: BacklightController,
    s2: BacklightController,
    s3: BacklightController,
    level: BrightnessLevel,
)
    requires
        set_from(s1, s0, level),
        disabled_from(s2, s1),
        enabled_from(s3, s2),
    ensures
        s3.pins() == s1.pins(),
        s3.level() == s1.level(),
{
}

/// Enabling an enabled backlight changes nothing, and so does disabling a
/// disabled one.
pub proof fn lemma_enable_disable_idempotent(
    s0: BacklightController,
    s1: BacklightController,
    s2: BacklightController,
)
    ensures
        enabled_from(s1, s0) && enabled_from(s2, s1) ==> s2.pins() == s1.pins() && s2.level()
            == s1.level(),
        disabled_from(s1, s0) && disabled_from(s2, s1) ==> s2.pins() == s1.pins() && s2.level()
            == s1.level(),
{
}

/// Exactly one line is low when the backlight is lit, and lines for distinct
/// levels differ: each brightness lights its own line.
pub proof fn lemma_one_line_per_level(a: BrightnessLevel, b: BrightnessLevel)
    ensures
        a != b ==> lit_pins(a) != lit_pins(b),
        lit_pins(a) != dark_pins(),
{
}

} // verus!
