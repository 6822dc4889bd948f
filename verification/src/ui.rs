//! The arithmetic of the screen layout: how much room each panel gets, how
//! far a list scrolls to keep its focus in view, and where a popup sits.

use vstd::prelude::*;

verus! {

/// Width of the sidebar.
pub const SIDEBAR_WIDTH: u16 = 22;

/// Width of the panel that the states view shows beside the canvas.
pub const STATES_PANEL_WIDTH: u16 = 48;

/// Number of lines that the help text is allowed to scroll over.
pub const HELP_CONTENT_LINES: u16 = 73;

/// Number of lines of the controls box.
pub const CONTROLS_CONTENT_LINES: u16 = 30;

/// Number of lines of the parameters box.
pub const PARAMS_CONTENT_LINES: u16 = 24;

/// Height of the status box.
pub const STATUS_HEIGHT: u16 = 5;

/// Height of the navigation box.
pub const NAV_HEIGHT: u16 = 4;

/// Fewest lines of the controls box that stay in view.
pub const MIN_CONTROLS_VISIBLE: u16 = 4;

/// Lines that the border of a box takes.
pub const BORDERS: u16 = 2;

/// How the screen is divided.
#[derive(Clone, Copy, Debug, PartialEq, Eq, Structural)]
pub enum ViewMode {
    /// Sidebar and canvas.
    Default,
    /// A wide panel of parameters and a smaller canvas.
    States,
    /// The canvas alone.
    Fullscreen,
}

impl ViewMode {
    pub open spec fn spec_next(&self) -> ViewMode {
        match self {
            ViewMode::Default => ViewMode::States,
            ViewMode::States => ViewMode::Fullscreen,
            ViewMode::Fullscreen => ViewMode::Default,
        }
    }

    /// The view that follows this one.
    pub fn next(&self) -> (v: ViewMode)
        ensures
            v == self.spec_next(),
    {
        match self {
            ViewMode::Default => ViewMode::States,
            ViewMode::States => ViewMode::Fullscreen,
            ViewMode::Fullscreen => ViewMode::Default,
        }
    }
}

/// Number of lines of the parameter list: four headings and the
/// parameters under them.
pub const PARAM_LIST_LINES: u16 = 31;

/// Number of lines of the left column of the parameter list in two
/// columns: movement and sticking.
pub const LEFT_COLUMN_LINES: u16 = 15;

/// Number of lines of the right column: release and display.
pub const RIGHT_COLUMN_LINES: u16 = 16;

/// What the keyboard acts on: the list of controls, or one parameter.
#[derive(Clone, Copy, Debug, PartialEq, Eq, Structural)]
pub enum Focus {
    /// The list of controls.
    Controls,
    /// Adaptive steps.
    AdaptiveStep,
    /// The adaptive step factor.
    AdaptiveFactor,
    /// The direction of the walk bias.
    Direction,
    /// The strength of the walk bias.
    Force,
    /// The lattice walk.
    LatticeWalk,
    /// The radial bias.
    RadialBias,
    /// The length of a walk step.
    WalkStep,
    /// The number of contacts that sticking asks for.
    MultiContact,
    /// The stickiness gradient.
    StickyGradient,
    /// The neighbourhood.
    Neighborhood,
    /// The base stickiness.
    Stickiness,
    /// The stickiness at a side.
    SideSticky,
    /// The stickiness at a tip.
    TipSticky,
    /// The behaviour at the edge.
    Boundary,
    /// The escape multiplier.
    EscapeMult,
    /// The number of walk steps per particle.
    MaxIterations,
    /// The smallest release radius.
    MinRadius,
    /// The release mode.
    Spawn,
    /// The release offset.
    SpawnOffset,
    /// Colouring by age.
    Age,
    /// The colour scheme.
    ColorScheme,
    /// The number of recent particles shown in white.
    Highlight,
    /// Inverted colours.
    Invert,
    /// The colour mode.
    Mode,
    /// The target number of particles.
    Particles,
    /// The seed pattern.
    Seed,
    /// The number of steps per frame.
    Speed,
}

impl Focus {
    /// Whether the focus is on a parameter.
    pub open spec fn spec_is_param(&self) -> bool {
        *self != Focus::Controls
    }

    /// The line of the parameter list that shows what has the focus. The
    /// list holds the headings of its four groups at the lines 0, 8, 15 and
    /// 22 and the parameters of each group under its heading.
    pub open spec fn spec_line_index(&self) -> int {
        match self {
            Focus::Controls => 0,
            Focus::AdaptiveStep => 1,
            Focus::AdaptiveFactor => 2,
            Focus::Direction => 3,
            Focus::Force => 4,
            Focus::LatticeWalk => 5,
            Focus::RadialBias => 6,
            Focus::WalkStep => 7,
            Focus::MultiContact => 9,
            Focus::StickyGradient => 10,
            Focus::Neighborhood => 11,
            Focus::Stickiness => 12,
            Focus::SideSticky => 13,
            Focus::TipSticky => 14,
            Focus::Boundary => 16,
            Focus::EscapeMult => 17,
            Focus::MaxIterations => 18,
            Focus::MinRadius => 19,
            Focus::Spawn => 20,
            Focus::SpawnOffset => 21,
            Focus::Age => 23,
            Focus::ColorScheme => 24,
            Focus::Highlight => 25,
            Focus::Invert => 26,
            Focus::Mode => 27,
            Focus::Particles => 28,
            Focus::Seed => 29,
            Focus::Speed => 30,
        }
    }

    /// The line of the left column that shows what has the focus, where the
    /// list is laid out in two columns: the groups of movement and sticking
    /// stand left.
    pub open spec fn spec_left_line(&self) -> Option<int> {
        if 1 <= self.spec_line_index() <= 14 {
            Some(self.spec_line_index())
        } else {
            None
        }
    }

    /// The line of the right column that shows what has the focus: the
    /// groups of release and display stand right, fifteen lines up from
    /// where they stand in the single list.
    pub open spec fn spec_right_line(&self) -> Option<int> {
        if self.spec_line_index() >= 16 {
            Some(self.spec_line_index() - 15)
        } else {
            None
        }
    }

    /// Whether the focus is on a parameter.
    pub fn is_param(&self) -> (b: bool)
        ensures
            b == self.spec_is_param(),
    {
        match self {
            Focus::Controls => false,
            _ => true,
        }
    }

    /// The line of the parameter list that shows what has the focus.
    pub fn line_index(&self) -> (line: u16)
        ensures
            line == self.spec_line_index(),
            line < PARAM_LIST_LINES,
            self.spec_is_param() ==> line != 0 && line != 8 && line != 15 && line != 22,
    {
        match self {
            Focus::Controls => 0,
            Focus::AdaptiveStep => 1,
            Focus::AdaptiveFactor => 2,
            Focus::Direction => 3,
            Focus::Force => 4,
            Focus::LatticeWalk => 5,
            Focus::RadialBias => 6,
            Focus::WalkStep => 7,
            Focus::MultiContact => 9,
            Focus::StickyGradient => 10,
            Focus::Neighborhood => 11,
            Focus::Stickiness => 12,
            Focus::SideSticky => 13,
            Focus::TipSticky => 14,
            Focus::Boundary => 16,
            Focus::EscapeMult => 17,
            Focus::MaxIterations => 18,
            Focus::MinRadius => 19,
            Focus::Spawn => 20,
            Focus::SpawnOffset => 21,
            Focus::Age => 23,
            Focus::ColorScheme => 24,
            Focus::Highlight => 25,
            Focus::Invert => 26,
            Focus::Mode => 27,
            Focus::Particles => 28,
            Focus::Seed => 29,
            Focus::Speed => 30,
        }
    }

    /// The line of the left column that shows what has the focus.
    pub fn left_line(&self) -> (line: Option<u16>)
        ensures
            line.is_some() == self.spec_left_line().is_some(),
            line.is_some() ==> line.unwrap() == self.spec_left_line().unwrap(),
            line.is_some() ==> line.unwrap() < LEFT_COLUMN_LINES,
    {
        let i: u16 = self.line_index();
        if 1 <= i && i <= 14 {
            Some(i)
        } else {
            None
        }
    }

    /// The line of the right column that shows what has the focus.
    pub fn right_line(&self) -> (line: Option<u16>)
        ensures
            line.is_some() == self.spec_right_line().is_some(),
            line.is_some() ==> line.unwrap() == self.spec_right_line().unwrap(),
            line.is_some() ==> line.unwrap() < RIGHT_COLUMN_LINES,
    {
        let i: u16 = self.line_index();
        if i >= 16 {
            Some(i - 15)
        } else {
            None
        }
    }
}

/// Every parameter stands in exactly one of the two columns, and the list
/// of controls in neither.
pub proof fn lemma_focus_columns(focus: Focus)
    ensures
        focus.spec_is_param() == (focus.spec_left_line().is_some()
            != focus.spec_right_line().is_some()),
        !focus.spec_is_param() ==> focus.spec_left_line().is_none()
            && focus.spec_right_line().is_none(),
{
}

/// A rectangle of the screen, in character cells.
#[derive(Clone, Copy, Debug, PartialEq, Eq, Structural)]
pub struct Area {
    pub x: u16,
    pub y: u16,
    pub width: u16,
    pub height: u16,
}

/// `a - b`, or nothing where `b` is the larger.
pub open spec fn spec_minus(a: int, b: int) -> int {
    if a > b {
        a - b
    } else {
        0
    }
}

/// The smaller of two numbers.
pub open spec fn spec_least(a: int, b: int) -> int {
    if a < b {
        a
    } else {
        b
    }
}

/// The larger of two numbers.
pub open spec fn spec_most(a: int, b: int) -> int {
    if a > b {
        a
    } else {
        b
    }
}

/// Width and height of the canvas inside its border, for a frame of the
/// given size.
pub open spec fn spec_canvas_size(frame: Area, view_mode: ViewMode) -> (int, int) {
    let beside = match view_mode {
        ViewMode::Fullscreen => 0int,
        ViewMode::Default => SIDEBAR_WIDTH as int,
        ViewMode::States => STATES_PANEL_WIDTH as int,
    };
    (spec_minus(frame.width as int, beside + 2), spec_minus(frame.height as int, 2))
}

/// Lines of the help text in view on a terminal of the given height.
pub open spec fn spec_help_visible_lines(terminal_height: int) -> int {
    spec_minus(spec_least(spec_minus(terminal_height, 4), 40), 2)
}

/// Heights of the parameters box and of the controls box in a sidebar of
/// the given height. The status and navigation boxes come first. Where the
/// rest does not hold the parameters in full beside the smallest controls
/// box, the controls box gets its smallest height or what there is, and
/// the parameters box the rest but at least four lines. Else the controls
/// box grows to its full height before the parameters box gets more.
pub open spec fn spec_sidebar_heights(height: int) -> (int, int) {
    let available = spec_minus(height, (STATUS_HEIGHT + NAV_HEIGHT) as int);
    let params_ideal = (PARAMS_CONTENT_LINES + BORDERS) as int;
    let controls_min = (MIN_CONTROLS_VISIBLE + BORDERS) as int;
    let controls_max = (CONTROLS_CONTENT_LINES + BORDERS) as int;
    if available < params_ideal + controls_min {
        let controls = spec_least(controls_min, available);
        (spec_most(spec_minus(available, controls), 4), controls)
    } else {
        let extra = available - params_ideal - controls_min;
        let controls_extra = spec_least(extra, controls_max - controls_min);
        (params_ideal + extra - controls_extra, controls_min + controls_extra)
    }
}

/// Lines of the controls box in view on a terminal of the given height.
pub open spec fn spec_controls_visible_lines(terminal_height: int) -> int {
    spec_minus(spec_sidebar_heights(terminal_height).1, BORDERS as int)
}

/// How far a list scrolls so that its focused line is the last one in view:
/// not at all where everything fits or the line is in view from the top.
pub open spec fn spec_focus_scroll(focus_line: int, visible: int, content: int) -> int {
    if visible == 0 || visible >= content || focus_line < visible {
        0
    } else {
        focus_line - (visible - 1)
    }
}

/// A box of the given size centred in `area`, no larger than its size
/// allows.
pub open spec fn spec_centered(area: Area, width: int, height: int) -> Area {
    Area {
        x: (area.x + spec_minus(area.width as int, width) / 2) as u16,
        y: (area.y + spec_minus(area.height as int, height) / 2) as u16,
        width: width as u16,
        height: height as u16,
    }
}

/// Width and height of a list popup with `count` entries, the longest of
/// them `longest` characters: wide enough for the longest entry and its
/// margin but at least twenty, high enough for every entry and the border
/// but at least three, and each no more than the area less four, where that
/// is more than the least.
pub open spec fn spec_list_popup_size(area: Area, longest: int, count: int) -> (int, int) {
    (
        spec_most(spec_least(longest + 6, spec_minus(area.width as int, 4)), 20),
        spec_most(spec_least(count + 2, spec_minus(area.height as int, 4)), 3),
    )
}

/// Filled and empty cells of a progress bar `width` wide at `progress`
/// thousandths.
pub open spec fn spec_progress_bar(progress: int, width: int) -> (int, int) {
    let filled = progress * width / 1000;
    (filled, spec_minus(width, filled))
}

/// `a - b`, or nothing where `b` is the larger.
pub fn minus(a: u16, b: u16) -> (r: u16)
    ensures
        r == spec_minus(a as int, b as int),
{
    if a > b {
        a - b
    } else {
        0
    }
}

/// The smaller of two numbers.
pub fn least(a: u16, b: u16) -> (r: u16)
    ensures
        r == spec_least(a as int, b as int),
{
    if a < b {
        a
    } else {
        b
    }
}

/// The larger of two numbers.
pub fn most(a: u16, b: u16) -> (r: u16)
    ensures
        r == spec_most(a as int, b as int),
{
    if a > b {
        a
    } else {
        b
    }
}

/// Width and height of the canvas inside its border.
pub fn get_canvas_size(frame_area: Area, view_mode: ViewMode) -> (size: (u16, u16))
    ensures
        (size.0 as int, size.1 as int) == spec_canvas_size(frame_area, view_mode),
{
    match view_mode {
        ViewMode::Fullscreen => (minus(frame_area.width, 2), minus(frame_area.height, 2)),
        ViewMode::Default => (
            minus(frame_area.width, SIDEBAR_WIDTH + 2),
            minus(frame_area.height, 2),
        ),
        ViewMode::States => (
            minus(frame_area.width, STATES_PANEL_WIDTH + 2),
            minus(frame_area.height, 2),
        ),
    }
}

/// Lines of the help text in view on a terminal of the given height.
pub fn get_help_visible_lines(terminal_height: u16) -> (lines: u16)
    ensures
        lines == spec_help_visible_lines(terminal_height as int),
        lines <= 38,
{
    let help_height: u16 = least(minus(terminal_height, 4), 40);
    minus(help_height, 2)
}

/// Heights of the parameters box and of the controls box in a sidebar of
/// the given height.
pub fn sidebar_heights(height: u16) -> (heights: (u16, u16))
    ensures
        (heights.0 as int, heights.1 as int) == spec_sidebar_heights(height as int),
        heights.1 <= CONTROLS_CONTENT_LINES + BORDERS,
{
    let available: u16 = minus(height, STATUS_HEIGHT + NAV_HEIGHT);
    let params_ideal: u16 = PARAMS_CONTENT_LINES + BORDERS;
    let controls_min: u16 = MIN_CONTROLS_VISIBLE + BORDERS;
    let controls_max: u16 = CONTROLS_CONTENT_LINES + BORDERS;
    if available < params_ideal + controls_min {
        let controls: u16 = least(controls_min, available);
        (most(minus(available, controls), 4), controls)
    } else {
        let extra: u16 = available - params_ideal - controls_min;
        let controls_extra: u16 = least(extra, controls_max - controls_min);
        (params_ideal + minus(extra, controls_extra), controls_min + controls_extra)
    }
}

/// Lines of the controls box in view on a terminal of the given height.
pub fn get_controls_visible_lines(terminal_height: u16) -> (lines: u16)
    ensures
        lines == spec_controls_visible_lines(terminal_height as int),
        lines <= CONTROLS_CONTENT_LINES,
{
    let heights: (u16, u16) = sidebar_heights(terminal_height);
    minus(heights.1, BORDERS)
}

/// How far a list scrolls so that its focused line stays in view.
pub fn focus_scroll(focus_line: u16, visible: u16, content: u16) -> (scroll: u16)
    ensures
        scroll == spec_focus_scroll(focus_line as int, visible as int, content as int),
        scroll <= focus_line,
{
    if visible == 0 || visible >= content || focus_line < visible {
        0
    } else {
        focus_line - (visible - 1)
    }
}

/// A box of the given size centred in `area`.
pub fn centered(area: Area, width: u16, height: u16) -> (r: Area)
    requires
        area.x + area.width <= u16::MAX,
        area.y + area.height <= u16::MAX,
    ensures
        r == spec_centered(area, width as int, height as int),
{
    Area {
        x: area.x + minus(area.width, width) / 2,
        y: area.y + minus(area.height, height) / 2,
        width,
        height,
    }
}

/// Width and height of a list popup.
pub fn list_popup_size(area: Area, longest: u16, count: u16) -> (size: (u16, u16))
    ensures
        (size.0 as int, size.1 as int) == spec_list_popup_size(
            area,
            longest as int,
            count as int,
        ),
{
    let room_x: u16 = minus(area.width, 4);
    let room_y: u16 = minus(area.height, 4);
    let wide: u16 = if longest as u32 + 6 > room_x as u32 {
        room_x
    } else {
        longest + 6
    };
    let high: u16 = if count as u32 + 2 > room_y as u32 {
        room_y
    } else {
        count + 2
    };
    (most(wide, 20), most(high, 3))
}

/// Filled and empty cells of a progress bar.
pub fn progress_bar(progress: u64, width: u16) -> (cells: (u64, u64))
    requires
        progress <= 0xFFFF_FFFF_FFFF,
    ensures
        (cells.0 as int, cells.1 as int) == spec_progress_bar(progress as int, width as int),
{
    assert(progress * width <= 0xFFFF_FFFF_FFFF * 0xFFFF) by (nonlinear_arith)
        requires
            progress <= 0xFFFF_FFFF_FFFF,
            width <= 0xFFFF,
    ;
    let filled: u64 = progress * (width as u64) / 1000;
    let empty: u64 = if (width as u64) > filled {
        width as u64 - filled
    } else {
        0
    };
    (filled, empty)
}

} // verus!
