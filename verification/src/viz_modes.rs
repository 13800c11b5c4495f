//! The discrete settings of the audio visualizer, with the numbers the
//! shaders receive for them and the names the settings screen shows.
use vstd::prelude::*;
verus! {
/// Gradient color-cycling mode, shared by the Lines and Scope visualizers.
#[derive(Debug, Clone, Copy, PartialEq, Eq, Hash, Structural)]
pub enum GradientMode {
    /// Time-based cycling through the full gradient palette.
    Breathing,
    /// Uses the first gradient color only.
    Static,
    /// Color by horizontal position / angle around the ring.
    Position,
    /// Color by amplitude (quiet to loud).
    Height,
    /// Position/angle and amplitude blend.
    Gradient,
}

/// The shader number of each `GradientMode`: its position in the declaration.
pub open spec fn gradient_mode_code(m: GradientMode) -> u32 {
    match m {
        GradientMode::Breathing => 0,
        GradientMode::Static => 1,
        GradientMode::Position => 2,
        GradientMode::Height => 3,
        GradientMode::Gradient => 4,
    }
}

/// The name of each `GradientMode` in the settings screen.
pub open spec fn gradient_mode_label(m: GradientMode) -> Seq<char> {
    match m {
        GradientMode::Breathing => "Breathing"@,
        GradientMode::Static => "Static"@,
        GradientMode::Position => "Position"@,
        GradientMode::Height => "Height"@,
        GradientMode::Gradient => "Gradient"@,
    }
}

impl GradientMode {
    /// Every mode, in declaration order.
    pub const ALL: [Self; 5] = [Self::Breathing, Self::Static, Self::Position, Self::Height, Self::Gradient];

    /// The number the shaders receive for this mode.
    pub fn as_u32(self) -> (r: u32)
        ensures
            r == gradient_mode_code(self),
    {
        match self {
            GradientMode::Breathing => 0,
            GradientMode::Static => 1,
            GradientMode::Position => 2,
            GradientMode::Height => 3,
            GradientMode::Gradient => 4,
        }
    }

    /// The name the settings screen shows for this mode.
    pub fn label(self) -> (r: &'static str)
        ensures
            r@ == gradient_mode_label(self),
    {
        match self {
            GradientMode::Breathing => "Breathing",
            GradientMode::Static => "Static",
            GradientMode::Position => "Position",
            GradientMode::Height => "Height",
            GradientMode::Gradient => "Gradient",
        }
    }
}

/// Distinct modes get distinct shader numbers, and every number below 5
/// is some mode's.
pub proof fn law_gradient_mode_code_bijective(a: GradientMode, b: GradientMode, n: u32)
    ensures
        gradient_mode_code(a) == gradient_mode_code(b) ==> a == b,
        gradient_mode_code(a) < 5,
        n < 5 ==> exists|m: GradientMode| #[trigger] gradient_mode_code(m) == n,
{
    if n == 0 { assert(gradient_mode_code(GradientMode::Breathing) == n); }
    if n == 1 { assert(gradient_mode_code(GradientMode::Static) == n); }
    if n == 2 { assert(gradient_mode_code(GradientMode::Position) == n); }
    if n == 3 { assert(gradient_mode_code(GradientMode::Height) == n); }
    if n == 4 { assert(gradient_mode_code(GradientMode::Gradient) == n); }
}

/// Interpolation between waveform points, shared by Lines and Scope.
#[derive(Debug, Clone, Copy, PartialEq, Eq, Hash, Structural)]
pub enum LineStyle {
    /// Catmull-Rom spline.
    Smooth,
    /// Straight line segments.
    Angular,
}

/// The shader number of each `LineStyle`: its position in the declaration.
pub open spec fn line_style_code(m: LineStyle) -> u32 {
    match m {
        LineStyle::Smooth => 0,
        LineStyle::Angular => 1,
    }
}

/// The name of each `LineStyle` in the settings screen.
pub open spec fn line_style_label(m: LineStyle) -> Seq<char> {
    match m {
        LineStyle::Smooth => "Smooth"@,
        LineStyle::Angular => "Angular"@,
    }
}

impl LineStyle {
    /// Every mode, in declaration order.
    pub const ALL: [Self; 2] = [Self::Smooth, Self::Angular];

    /// The number the shaders receive for this mode.
    pub fn as_u32(self) -> (r: u32)
        ensures
            r == line_style_code(self),
    {
        match self {
            LineStyle::Smooth => 0,
            LineStyle::Angular => 1,
        }
    }

    /// The name the settings screen shows for this mode.
    pub fn label(self) -> (r: &'static str)
        ensures
            r@ == line_style_label(self),
    {
        match self {
            LineStyle::Smooth => "Smooth",
            LineStyle::Angular => "Angular",
        }
    }
}

/// Distinct modes get distinct shader numbers, and every number below 2
/// is some mode's.
pub proof fn law_line_style_code_bijective(a: LineStyle, b: LineStyle, n: u32)
    ensures
        line_style_code(a) == line_style_code(b) ==> a == b,
        line_style_code(a) < 2,
        n < 2 ==> exists|m: LineStyle| #[trigger] line_style_code(m) == n,
{
    if n == 0 { assert(line_style_code(LineStyle::Smooth) == n); }
    if n == 1 { assert(line_style_code(LineStyle::Angular) == n); }
}

/// Bars gradient mode: height-based gradient or wave stretching.
#[derive(Debug, Clone, Copy, PartialEq, Eq, Hash, Structural)]
pub enum BarsGradientMode {
    /// Height-based gradient (bottom to top).
    Static,
    /// Gradient stretching (taller bars show more bottom colors).
    Wave,
}

/// The shader number of each `BarsGradientMode`: its position in the declaration.
pub open spec fn bars_gradient_mode_code(m: BarsGradientMode) -> u32 {
    match m {
        BarsGradientMode::Static => 0,
        BarsGradientMode::Wave => 1,
    }
}

/// The name of each `BarsGradientMode` in the settings screen.
pub open spec fn bars_gradient_mode_label(m: BarsGradientMode) -> Seq<char> {
    match m {
        BarsGradientMode::Static => "Static"@,
        BarsGradientMode::Wave => "Wave"@,
    }
}

impl BarsGradientMode {
    /// Every mode, in declaration order.
    pub const ALL: [Self; 2] = [Self::Static, Self::Wave];

    /// The number the shaders receive for this mode.
    pub fn as_u32(self) -> (r: u32)
        ensures
            r == bars_gradient_mode_code(self),
    {
        match self {
            BarsGradientMode::Static => 0,
            BarsGradientMode::Wave => 1,
        }
    }

    /// The name the settings screen shows for this mode.
    pub fn label(self) -> (r: &'static str)
        ensures
            r@ == bars_gradient_mode_label(self),
    {
        match self {
            BarsGradientMode::Static => "Static",
            BarsGradientMode::Wave => "Wave",
        }
    }
}

/// Distinct modes get distinct shader numbers, and every number below 2
/// is some mode's.
pub proof fn law_bars_gradient_mode_code_bijective(a: BarsGradientMode, b: BarsGradientMode, n: u32)
    ensures
        bars_gradient_mode_code(a) == bars_gradient_mode_code(b) ==> a == b,
        bars_gradient_mode_code(a) < 2,
        n < 2 ==> exists|m: BarsGradientMode| #[trigger] bars_gradient_mode_code(m) == n,
{
    if n == 0 { assert(bars_gradient_mode_code(BarsGradientMode::Static) == n); }
    if n == 1 { assert(bars_gradient_mode_code(BarsGradientMode::Wave) == n); }
}

/// Axis along which the bar gradient colors are mapped.
#[derive(Debug, Clone, Copy, PartialEq, Eq, Hash, Structural)]
pub enum BarsGradientOrientation {
    /// Colors map bottom-to-top within each bar.
    Vertical,
    /// Colors map left-to-right across bars.
    Horizontal,
}

/// The shader number of each `BarsGradientOrientation`: its position in the declaration.
pub open spec fn bars_gradient_orientation_code(m: BarsGradientOrientation) -> u32 {
    match m {
        BarsGradientOrientation::Vertical => 0,
        BarsGradientOrientation::Horizontal => 1,
    }
}

/// The name of each `BarsGradientOrientation` in the settings screen.
pub open spec fn bars_gradient_orientation_label(m: BarsGradientOrientation) -> Seq<char> {
    match m {
        BarsGradientOrientation::Vertical => "Vertical"@,
        BarsGradientOrientation::Horizontal => "Horizontal"@,
    }
}

impl BarsGradientOrientation {
    /// Every mode, in declaration order.
    pub const ALL: [Self; 2] = [Self::Vertical, Self::Horizontal];

    /// The number the shaders receive for this mode.
    pub fn as_u32(self) -> (r: u32)
        ensures
            r == bars_gradient_orientation_code(self),
    {
        match self {
            BarsGradientOrientation::Vertical => 0,
            BarsGradientOrientation::Horizontal => 1,
        }
    }

    /// The name the settings screen shows for this mode.
    pub fn label(self) -> (r: &'static str)
        ensures
            r@ == bars_gradient_orientation_label(self),
    {
        match self {
            BarsGradientOrientation::Vertical => "Vertical",
            BarsGradientOrientation::Horizontal => "Horizontal",
        }
    }
}

/// Distinct modes get distinct shader numbers, and every number below 2
/// is some mode's.
pub proof fn law_bars_gradient_orientation_code_bijective(a: BarsGradientOrientation, b: BarsGradientOrientation, n: u32)
    ensures
        bars_gradient_orientation_code(a) == bars_gradient_orientation_code(b) ==> a == b,
        bars_gradient_orientation_code(a) < 2,
        n < 2 ==> exists|m: BarsGradientOrientation| #[trigger] bars_gradient_orientation_code(m) == n,
{
    if n == 0 { assert(bars_gradient_orientation_code(BarsGradientOrientation::Vertical) == n); }
    if n == 1 { assert(bars_gradient_orientation_code(BarsGradientOrientation::Horizontal) == n); }
}

/// Color mode of the peak indicators.
#[derive(Debug, Clone, Copy, PartialEq, Eq, Hash, Structural)]
pub enum BarsPeakGradientMode {
    /// The first color of the peak gradient only.
    Static,
    /// Time-based cycling through all peak colors.
    Cycle,
    /// Color by peak height.
    Height,
    /// The bar gradient's color at that height.
    Match,
}

/// The shader number of each `BarsPeakGradientMode`: its position in the declaration.
pub open spec fn bars_peak_gradient_mode_code(m: BarsPeakGradientMode) -> u32 {
    match m {
        BarsPeakGradientMode::Static => 0,
        BarsPeakGradientMode::Cycle => 1,
        BarsPeakGradientMode::Height => 2,
        BarsPeakGradientMode::Match => 3,
    }
}

/// The name of each `BarsPeakGradientMode` in the settings screen.
pub open spec fn bars_peak_gradient_mode_label(m: BarsPeakGradientMode) -> Seq<char> {
    match m {
        BarsPeakGradientMode::Static => "Static"@,
        BarsPeakGradientMode::Cycle => "Cycle"@,
        BarsPeakGradientMode::Height => "Height"@,
        BarsPeakGradientMode::Match => "Match"@,
    }
}

impl BarsPeakGradientMode {
    /// Every mode, in declaration order.
    pub const ALL: [Self; 4] = [Self::Static, Self::Cycle, Self::Height, Self::Match];

    /// The number the shaders receive for this mode.
    pub fn as_u32(self) -> (r: u32)
        ensures
            r == bars_peak_gradient_mode_code(self),
    {
        match self {
            BarsPeakGradientMode::Static => 0,
            BarsPeakGradientMode::Cycle => 1,
            BarsPeakGradientMode::Height => 2,
            BarsPeakGradientMode::Match => 3,
        }
    }

    /// The name the settings screen shows for this mode.
    pub fn label(self) -> (r: &'static str)
        ensures
            r@ == bars_peak_gradient_mode_label(self),
    {
        match self {
            BarsPeakGradientMode::Static => "Static",
            BarsPeakGradientMode::Cycle => "Cycle",
            BarsPeakGradientMode::Height => "Height",
            BarsPeakGradientMode::Match => "Match",
        }
    }
}

/// Distinct modes get distinct shader numbers, and every number below 4
/// is some mode's.
pub proof fn law_bars_peak_gradient_mode_code_bijective(a: BarsPeakGradientMode, b: BarsPeakGradientMode, n: u32)
    ensures
        bars_peak_gradient_mode_code(a) == bars_peak_gradient_mode_code(b) ==> a == b,
        bars_peak_gradient_mode_code(a) < 4,
        n < 4 ==> exists|m: BarsPeakGradientMode| #[trigger] bars_peak_gradient_mode_code(m) == n,
{
    if n == 0 { assert(bars_peak_gradient_mode_code(BarsPeakGradientMode::Static) == n); }
    if n == 1 { assert(bars_peak_gradient_mode_code(BarsPeakGradientMode::Cycle) == n); }
    if n == 2 { assert(bars_peak_gradient_mode_code(BarsPeakGradientMode::Height) == n); }
    if n == 3 { assert(bars_peak_gradient_mode_code(BarsPeakGradientMode::Match) == n); }
}

/// Falloff of the peak indicators.
#[derive(Debug, Clone, Copy, PartialEq, Eq, Hash, Structural)]
pub enum BarsPeakMode {
    /// Peak bars disabled.
    Off,
    /// Hold, then fade out in place.
    Fade,
    /// Hold, then fall at constant speed.
    Fall,
    /// Hold, then fall with gravity acceleration.
    FallAccel,
    /// Hold, then fall at constant speed while fading out.
    FallFade,
}

/// The shader number of each `BarsPeakMode`: its position in the declaration.
pub open spec fn bars_peak_mode_code(m: BarsPeakMode) -> u32 {
    match m {
        BarsPeakMode::Off => 0,
        BarsPeakMode::Fade => 1,
        BarsPeakMode::Fall => 2,
        BarsPeakMode::FallAccel => 3,
        BarsPeakMode::FallFade => 4,
    }
}

/// The name of each `BarsPeakMode` in the settings screen.
pub open spec fn bars_peak_mode_label(m: BarsPeakMode) -> Seq<char> {
    match m {
        BarsPeakMode::Off => "None"@,
        BarsPeakMode::Fade => "Fade"@,
        BarsPeakMode::Fall => "Fall"@,
        BarsPeakMode::FallAccel => "Fall (accelerate)"@,
        BarsPeakMode::FallFade => "Fall + fade"@,
    }
}

impl BarsPeakMode {
    /// Every mode, in declaration order.
    pub const ALL: [Self; 5] = [Self::Off, Self::Fade, Self::Fall, Self::FallAccel, Self::FallFade];

    /// The number the shaders receive for this mode.
    pub fn as_u32(self) -> (r: u32)
        ensures
            r == bars_peak_mode_code(self),
    {
        match self {
            BarsPeakMode::Off => 0,
            BarsPeakMode::Fade => 1,
            BarsPeakMode::Fall => 2,
            BarsPeakMode::FallAccel => 3,
            BarsPeakMode::FallFade => 4,
        }
    }

    /// The name the settings screen shows for this mode.
    pub fn label(self) -> (r: &'static str)
        ensures
            r@ == bars_peak_mode_label(self),
    {
        match self {
            BarsPeakMode::Off => "None",
            BarsPeakMode::Fade => "Fade",
            BarsPeakMode::Fall => "Fall",
            BarsPeakMode::FallAccel => "Fall (accelerate)",
            BarsPeakMode::FallFade => "Fall + fade",
        }
    }
}

/// Distinct modes get distinct shader numbers, and every number below 5
/// is some mode's.
pub proof fn law_bars_peak_mode_code_bijective(a: BarsPeakMode, b: BarsPeakMode, n: u32)
    ensures
        bars_peak_mode_code(a) == bars_peak_mode_code(b) ==> a == b,
        bars_peak_mode_code(a) < 5,
        n < 5 ==> exists|m: BarsPeakMode| #[trigger] bars_peak_mode_code(m) == n,
{
    if n == 0 { assert(bars_peak_mode_code(BarsPeakMode::Off) == n); }
    if n == 1 { assert(bars_peak_mode_code(BarsPeakMode::Fade) == n); }
    if n == 2 { assert(bars_peak_mode_code(BarsPeakMode::Fall) == n); }
    if n == 3 { assert(bars_peak_mode_code(BarsPeakMode::FallAccel) == n); }
    if n == 4 { assert(bars_peak_mode_code(BarsPeakMode::FallFade) == n); }
}

/// The shader number and the settings name of every `GradientMode`, as the
/// shaders and the settings screen expect them.
pub proof fn law_gradient_mode_table()
    ensures
        gradient_mode_code(GradientMode::Breathing) == 0,
        gradient_mode_label(GradientMode::Breathing) == "Breathing"@,
        gradient_mode_code(GradientMode::Static) == 1,
        gradient_mode_label(GradientMode::Static) == "Static"@,
        gradient_mode_code(GradientMode::Position) == 2,
        gradient_mode_label(GradientMode::Position) == "Position"@,
        gradient_mode_code(GradientMode::Height) == 3,
        gradient_mode_label(GradientMode::Height) == "Height"@,
        gradient_mode_code(GradientMode::Gradient) == 4,
        gradient_mode_label(GradientMode::Gradient) == "Gradient"@,
{
}

/// The shader number and the settings name of every `LineStyle`, as the
/// shaders and the settings screen expect them.
pub proof fn law_line_style_table()
    ensures
        line_style_code(LineStyle::Smooth) == 0,
        line_style_label(LineStyle::Smooth) == "Smooth"@,
        line_style_code(LineStyle::Angular) == 1,
        line_style_label(LineStyle::Angular) == "Angular"@,
{
}

/// The shader number and the settings name of every `BarsGradientMode`, as the
/// shaders and the settings screen expect them.
pub proof fn law_bars_gradient_mode_table()
    ensures
        bars_gradient_mode_code(BarsGradientMode::Static) == 0,
        bars_gradient_mode_label(BarsGradientMode::Static) == "Static"@,
        bars_gradient_mode_code(BarsGradientMode::Wave) == 1,
        bars_gradient_mode_label(BarsGradientMode::Wave) == "Wave"@,
{
}

/// The shader number and the settings name of every `BarsGradientOrientation`, as the
/// shaders and the settings screen expect them.
pub proof fn law_bars_gradient_orientation_table()
    ensures
        bars_gradient_orientation_code(BarsGradientOrientation::Vertical) == 0,
        bars_gradient_orientation_label(BarsGradientOrientation::Vertical) == "Vertical"@,
        bars_gradient_orientation_code(BarsGradientOrientation::Horizontal) == 1,
        bars_gradient_orientation_label(BarsGradientOrientation::Horizontal) == "Horizontal"@,
{
}

/// The shader number and the settings name of every `BarsPeakGradientMode`, as the
/// shaders and the settings screen expect them.
pub proof fn law_bars_peak_gradient_mode_table()
    ensures
        bars_peak_gradient_mode_code(BarsPeakGradientMode::Static) == 0,
        bars_peak_gradient_mode_label(BarsPeakGradientMode::Static) == "Static"@,
        bars_peak_gradient_mode_code(BarsPeakGradientMode::Cycle) == 1,
        bars_peak_gradient_mode_label(BarsPeakGradientMode::Cycle) == "Cycle"@,
        bars_peak_gradient_mode_code(BarsPeakGradientMode::Height) == 2,
        bars_peak_gradient_mode_label(BarsPeakGradientMode::Height) == "Height"@,
        bars_peak_gradient_mode_code(BarsPeakGradientMode::Match) == 3,
        bars_peak_gradient_mode_label(BarsPeakGradientMode::Match) == "Match"@,
{
}

/// The shader number and the settings name of every `BarsPeakMode`, as the
/// shaders and the settings screen expect them.
pub proof fn law_bars_peak_mode_table()
    ensures
        bars_peak_mode_code(BarsPeakMode::Off) == 0,
        bars_peak_mode_label(BarsPeakMode::Off) == "None"@,
        bars_peak_mode_code(BarsPeakMode::Fade) == 1,
        bars_peak_mode_label(BarsPeakMode::Fade) == "Fade"@,
        bars_peak_mode_code(BarsPeakMode::Fall) == 2,
        bars_peak_mode_label(BarsPeakMode::Fall) == "Fall"@,
        bars_peak_mode_code(BarsPeakMode::FallAccel) == 3,
        bars_peak_mode_label(BarsPeakMode::FallAccel) == "Fall (accelerate)"@,
        bars_peak_mode_code(BarsPeakMode::FallFade) == 4,
        bars_peak_mode_label(BarsPeakMode::FallFade) == "Fall + fade"@,
{
}

} // verus!
