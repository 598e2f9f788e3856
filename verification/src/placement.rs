//! Flyout placement modes: the primary side a requested mode resolves to under a text
//! direction, the edge alignment it asks for, and the order in which the sides are tried.

use vstd::prelude::*;

verus! {

/// Reading direction of the surrounding layout.
#[derive(Clone, Copy, Debug, PartialEq, Eq, Structural)]
pub enum TextDirection {
    Ltr,
    Rtl,
}

/// Preferred side and edge alignment relative to the opening target.
#[derive(Clone, Copy, Debug, PartialEq, Eq, Structural)]
pub enum FlyoutPlacementMode {
    /// Centered above the target; the default.
    Top,
    /// Centered below the target.
    Bottom,
    /// Centered on the target's left side in left-to-right layout.
    Left,
    /// Centered on the target's right side in left-to-right layout.
    Right,
    /// Centered in the available window area, filling up to the maximum size.
    Full,
    /// Above with left edges aligned.
    TopEdgeAlignedLeft,
    /// Above with right edges aligned.
    TopEdgeAlignedRight,
    /// Below with left edges aligned.
    BottomEdgeAlignedLeft,
    /// Below with right edges aligned.
    BottomEdgeAlignedRight,
    /// Left with top edges aligned.
    LeftEdgeAlignedTop,
    /// Left with bottom edges aligned.
    LeftEdgeAlignedBottom,
    /// Right with top edges aligned.
    RightEdgeAlignedTop,
    /// Right with bottom edges aligned.
    RightEdgeAlignedBottom,
}

impl Default for FlyoutPlacementMode {
    fn default() -> (r: FlyoutPlacementMode)
        ensures
            r == FlyoutPlacementMode::Top,
    {
        FlyoutPlacementMode::Top
    }
}

/// Primary direction after flow-direction adjustment.
#[derive(Clone, Copy, Debug, PartialEq, Eq, Structural)]
pub enum MajorPlacementMode {
    Top,
    Bottom,
    Left,
    Right,
    Full,
}

/// Alignment along the secondary axis; Top/Left and Bottom/Right share their branches.
#[derive(Clone, Copy, Debug, PartialEq, Eq, Structural)]
pub enum PreferredJustification {
    Center,
    Start,
    End,
}

/// The side a mode names, before the text direction is applied.
pub open spec fn spec_side(mode: FlyoutPlacementMode) -> MajorPlacementMode {
    match mode {
        FlyoutPlacementMode::Top
        | FlyoutPlacementMode::TopEdgeAlignedLeft
        | FlyoutPlacementMode::TopEdgeAlignedRight => MajorPlacementMode::Top,
        FlyoutPlacementMode::Bottom
        | FlyoutPlacementMode::BottomEdgeAlignedLeft
        | FlyoutPlacementMode::BottomEdgeAlignedRight => MajorPlacementMode::Bottom,
        FlyoutPlacementMode::Left
        | FlyoutPlacementMode::LeftEdgeAlignedTop
        | FlyoutPlacementMode::LeftEdgeAlignedBottom => MajorPlacementMode::Left,
        FlyoutPlacementMode::Right
        | FlyoutPlacementMode::RightEdgeAlignedTop
        | FlyoutPlacementMode::RightEdgeAlignedBottom => MajorPlacementMode::Right,
        FlyoutPlacementMode::Full => MajorPlacementMode::Full,
    }
}

/// Exchanges the horizontal sides and keeps every other side.
pub open spec fn spec_mirror(side: MajorPlacementMode) -> MajorPlacementMode {
    match side {
        MajorPlacementMode::Left => MajorPlacementMode::Right,
        MajorPlacementMode::Right => MajorPlacementMode::Left,
        _ => side,
    }
}

/// The primary side of `mode` in a layout running in `direction`.
pub open spec fn spec_major(mode: FlyoutPlacementMode, direction: TextDirection) -> MajorPlacementMode {
    if direction == TextDirection::Rtl {
        spec_mirror(spec_side(mode))
    } else {
        spec_side(mode)
    }
}

/// The edge alignment a mode asks for along the secondary axis.
pub open spec fn spec_justification(mode: FlyoutPlacementMode) -> PreferredJustification {
    match mode {
        FlyoutPlacementMode::TopEdgeAlignedLeft
        | FlyoutPlacementMode::BottomEdgeAlignedLeft
        | FlyoutPlacementMode::LeftEdgeAlignedTop
        | FlyoutPlacementMode::RightEdgeAlignedTop => PreferredJustification::Start,
        FlyoutPlacementMode::TopEdgeAlignedRight
        | FlyoutPlacementMode::BottomEdgeAlignedRight
        | FlyoutPlacementMode::LeftEdgeAlignedBottom
        | FlyoutPlacementMode::RightEdgeAlignedBottom => PreferredJustification::End,
        _ => PreferredJustification::Center,
    }
}

/// Whether a side lies on the vertical axis.
pub open spec fn spec_vertical(side: MajorPlacementMode) -> bool {
    side == MajorPlacementMode::Top || side == MajorPlacementMode::Bottom
}

/// The side across the target on the same axis.
pub open spec fn spec_opposite(side: MajorPlacementMode) -> MajorPlacementMode {
    match side {
        MajorPlacementMode::Top => MajorPlacementMode::Bottom,
        MajorPlacementMode::Bottom => MajorPlacementMode::Top,
        MajorPlacementMode::Left => MajorPlacementMode::Right,
        MajorPlacementMode::Right => MajorPlacementMode::Left,
        MajorPlacementMode::Full => MajorPlacementMode::Full,
    }
}

/// The order in which the sides are tried: the requested side, its opposite, then the other axis.
pub open spec fn spec_fallbacks(side: MajorPlacementMode) -> Seq<MajorPlacementMode> {
    match side {
        MajorPlacementMode::Top => seq![
            MajorPlacementMode::Top,
            MajorPlacementMode::Bottom,
            MajorPlacementMode::Left,
            MajorPlacementMode::Right,
        ],
        MajorPlacementMode::Bottom => seq![
            MajorPlacementMode::Bottom,
            MajorPlacementMode::Top,
            MajorPlacementMode::Left,
            MajorPlacementMode::Right,
        ],
        MajorPlacementMode::Left => seq![
            MajorPlacementMode::Left,
            MajorPlacementMode::Right,
            MajorPlacementMode::Top,
            MajorPlacementMode::Bottom,
        ],
        _ => seq![
            MajorPlacementMode::Right,
            MajorPlacementMode::Left,
            MajorPlacementMode::Top,
            MajorPlacementMode::Bottom,
        ],
    }
}

impl MajorPlacementMode {
    /// Whether the primary axis is vertical.
    pub fn vertical(self) -> (r: bool)
        ensures
            r == spec_vertical(self),
    {
        match self {
            MajorPlacementMode::Top | MajorPlacementMode::Bottom => true,
            _ => false,
        }
    }

    /// The fallback order, retaining the requested axis first. Full placement has no sides to try.
    pub fn fallbacks(self) -> (r: [MajorPlacementMode; 4])
        requires
            self != MajorPlacementMode::Full,
        ensures
            r@ == spec_fallbacks(self),
    {
        let r = match self {
            MajorPlacementMode::Top => [
                MajorPlacementMode::Top,
                MajorPlacementMode::Bottom,
                MajorPlacementMode::Left,
                MajorPlacementMode::Right,
            ],
            MajorPlacementMode::Bottom => [
                MajorPlacementMode::Bottom,
                MajorPlacementMode::Top,
                MajorPlacementMode::Left,
                MajorPlacementMode::Right,
            ],
            MajorPlacementMode::Left => [
                MajorPlacementMode::Left,
                MajorPlacementMode::Right,
                MajorPlacementMode::Top,
                MajorPlacementMode::Bottom,
            ],
            _ => [
                MajorPlacementMode::Right,
                MajorPlacementMode::Left,
                MajorPlacementMode::Top,
                MajorPlacementMode::Bottom,
            ],
        };
        assert(r@ =~= spec_fallbacks(self));
        r
    }
}

impl FlyoutPlacementMode {
    /// The primary side after the text direction exchanges left and right.
    pub fn major(self, direction: TextDirection) -> (r: MajorPlacementMode)
        ensures
            r == spec_major(self, direction),
    {
        let side = match self {
            FlyoutPlacementMode::Top
            | FlyoutPlacementMode::TopEdgeAlignedLeft
            | FlyoutPlacementMode::TopEdgeAlignedRight => MajorPlacementMode::Top,
            FlyoutPlacementMode::Bottom
            | FlyoutPlacementMode::BottomEdgeAlignedLeft
            | FlyoutPlacementMode::BottomEdgeAlignedRight => MajorPlacementMode::Bottom,
            FlyoutPlacementMode::Left
            | FlyoutPlacementMode::LeftEdgeAlignedTop
            | FlyoutPlacementMode::LeftEdgeAlignedBottom => MajorPlacementMode::Left,
            FlyoutPlacementMode::Right
            | FlyoutPlacementMode::RightEdgeAlignedTop
            | FlyoutPlacementMode::RightEdgeAlignedBottom => MajorPlacementMode::Right,
            FlyoutPlacementMode::Full => MajorPlacementMode::Full,
        };
        if direction == TextDirection::Rtl {
            match side {
                MajorPlacementMode::Left => MajorPlacementMode::Right,
                MajorPlacementMode::Right => MajorPlacementMode::Left,
                _ => side,
            }
        } else {
            side
        }
    }

    /// The requested edge alignment; the text direction only changes the primary side.
    pub fn justification(self) -> (r: PreferredJustification)
        ensures
            r == spec_justification(self),
    {
        match self {
            FlyoutPlacementMode::TopEdgeAlignedLeft
            | FlyoutPlacementMode::BottomEdgeAlignedLeft
            | FlyoutPlacementMode::LeftEdgeAlignedTop
            | FlyoutPlacementMode::RightEdgeAlignedTop => PreferredJustification::Start,
            FlyoutPlacementMode::TopEdgeAlignedRight
            | FlyoutPlacementMode::BottomEdgeAlignedRight
            | FlyoutPlacementMode::LeftEdgeAlignedBottom
            | FlyoutPlacementMode::RightEdgeAlignedBottom => PreferredJustification::End,
            _ => PreferredJustification::Center,
        }
    }
}


/// Point placement differs for ordinary flyouts and menus opened by touch.
#[derive(Clone, Copy, Debug, PartialEq, Eq, Structural)]
pub enum PointPlacementKind {
    /// Ordinary flyouts align their chosen side around the point.
    Flyout,
    /// Menus start at the point without the ordinary flyout alignment offset.
    Menu,
    /// Touch menus prefer above the point, then fall back below when necessary.
    TouchMenu,
}

impl Default for PointPlacementKind {
    fn default() -> (r: PointPlacementKind)
        ensures
            r == PointPlacementKind::Flyout,
    {
        PointPlacementKind::Flyout
    }
}

/// How much of the popup's extent is taken away from a point coordinate.
#[derive(Clone, Copy, Debug, PartialEq, Eq, Structural)]
pub enum ExtentShift {
    Zero,
    Half,
    Whole,
}

/// The horizontal and vertical shift of a point-placed popup before any fitting.
pub open spec fn spec_point_alignment(placement: FlyoutPlacementMode, kind: PointPlacementKind) -> (
    ExtentShift,
    ExtentShift,
) {
    if kind == PointPlacementKind::TouchMenu {
        (ExtentShift::Zero, ExtentShift::Whole)
    } else if kind == PointPlacementKind::Menu {
        (ExtentShift::Zero, ExtentShift::Zero)
    } else {
        match placement {
            FlyoutPlacementMode::Top => (ExtentShift::Half, ExtentShift::Whole),
            FlyoutPlacementMode::Bottom => (ExtentShift::Half, ExtentShift::Zero),
            FlyoutPlacementMode::Left => (ExtentShift::Whole, ExtentShift::Half),
            FlyoutPlacementMode::Right => (ExtentShift::Zero, ExtentShift::Half),
            FlyoutPlacementMode::TopEdgeAlignedLeft
            | FlyoutPlacementMode::RightEdgeAlignedBottom => (ExtentShift::Zero, ExtentShift::Whole),
            FlyoutPlacementMode::TopEdgeAlignedRight
            | FlyoutPlacementMode::LeftEdgeAlignedBottom => (ExtentShift::Whole, ExtentShift::Whole),
            FlyoutPlacementMode::BottomEdgeAlignedLeft
            | FlyoutPlacementMode::RightEdgeAlignedTop
            | FlyoutPlacementMode::Full => (ExtentShift::Zero, ExtentShift::Zero),
            FlyoutPlacementMode::BottomEdgeAlignedRight
            | FlyoutPlacementMode::LeftEdgeAlignedTop => (ExtentShift::Whole, ExtentShift::Zero),
        }
    }
}

/// The shift a point-placed popup starts from: ordinary flyouts align their side around the
/// point, menus start at it, and touch menus start above it.
pub fn point_alignment(placement: FlyoutPlacementMode, kind: PointPlacementKind) -> (r: (
    ExtentShift,
    ExtentShift,
))
    ensures
        r == spec_point_alignment(placement, kind),
{
    match kind {
        PointPlacementKind::TouchMenu => (ExtentShift::Zero, ExtentShift::Whole),
        PointPlacementKind::Menu => (ExtentShift::Zero, ExtentShift::Zero),
        PointPlacementKind::Flyout => match placement {
            FlyoutPlacementMode::Top => (ExtentShift::Half, ExtentShift::Whole),
            FlyoutPlacementMode::Bottom => (ExtentShift::Half, ExtentShift::Zero),
            FlyoutPlacementMode::Left => (ExtentShift::Whole, ExtentShift::Half),
            FlyoutPlacementMode::Right => (ExtentShift::Zero, ExtentShift::Half),
            FlyoutPlacementMode::TopEdgeAlignedLeft
            | FlyoutPlacementMode::RightEdgeAlignedBottom => (ExtentShift::Zero, ExtentShift::Whole),
            FlyoutPlacementMode::TopEdgeAlignedRight
            | FlyoutPlacementMode::LeftEdgeAlignedBottom => (ExtentShift::Whole, ExtentShift::Whole),
            FlyoutPlacementMode::BottomEdgeAlignedLeft
            | FlyoutPlacementMode::RightEdgeAlignedTop
            | FlyoutPlacementMode::Full => (ExtentShift::Zero, ExtentShift::Zero),
            FlyoutPlacementMode::BottomEdgeAlignedRight
            | FlyoutPlacementMode::LeftEdgeAlignedTop => (ExtentShift::Whole, ExtentShift::Zero),
        },
    }
}

/// The side a point-placed popup is first positioned on: touch menus always prefer above.
pub fn point_initial_side(
    placement: FlyoutPlacementMode,
    direction: TextDirection,
    kind: PointPlacementKind,
) -> (r: MajorPlacementMode)
    ensures
        r == (if kind == PointPlacementKind::TouchMenu {
            MajorPlacementMode::Top
        } else {
            spec_major(placement, direction)
        }),
{
    if kind == PointPlacementKind::TouchMenu {
        MajorPlacementMode::Top
    } else {
        placement.major(direction)
    }
}

/// The unit direction in which the flyout margin moves a placed popup: away from the target
/// along the chosen side, and not at all along the other axis.
pub fn margin_direction(side: MajorPlacementMode) -> (r: (i8, i8))
    requires
        side != MajorPlacementMode::Full,
    ensures
        r == (match side {
            MajorPlacementMode::Top => (0i8, -1i8),
            MajorPlacementMode::Bottom => (0i8, 1i8),
            MajorPlacementMode::Left => (-1i8, 0i8),
            _ => (1i8, 0i8),
        }),
{
    match side {
        MajorPlacementMode::Top => (0, -1),
        MajorPlacementMode::Bottom => (0, 1),
        MajorPlacementMode::Left => (-1, 0),
        _ => (1, 0),
    }
}

/// Where a tooltip opens relative to its owner.
#[derive(Clone, Copy, Debug, PartialEq, Eq, Structural)]
pub enum PlacementMode {
    Top,
    Bottom,
    Left,
    Right,
    /// At the pointer; in-window relative placement treats it as Top.
    Mouse,
}

impl Default for PlacementMode {
    fn default() -> (r: PlacementMode)
        ensures
            r == PlacementMode::Top,
    {
        PlacementMode::Top
    }
}

/// The order in which a tooltip tries the sides of its target: the preferred side, its
/// opposite, then the other axis with Right before Left and Top before Bottom.
pub open spec fn spec_tool_tip_sides(preferred: PlacementMode) -> Seq<PlacementMode> {
    match preferred {
        PlacementMode::Bottom => seq![
            PlacementMode::Bottom,
            PlacementMode::Top,
            PlacementMode::Right,
            PlacementMode::Left,
        ],
        PlacementMode::Left => seq![
            PlacementMode::Left,
            PlacementMode::Right,
            PlacementMode::Top,
            PlacementMode::Bottom,
        ],
        PlacementMode::Right => seq![
            PlacementMode::Right,
            PlacementMode::Left,
            PlacementMode::Top,
            PlacementMode::Bottom,
        ],
        _ => seq![
            PlacementMode::Top,
            PlacementMode::Bottom,
            PlacementMode::Right,
            PlacementMode::Left,
        ],
    }
}

/// The side order tried by in-window tooltip placement.
pub fn tool_tip_sides(preferred: PlacementMode) -> (r: [PlacementMode; 4])
    ensures
        r@ == spec_tool_tip_sides(preferred),
{
    let r = match preferred {
        PlacementMode::Bottom => [
            PlacementMode::Bottom,
            PlacementMode::Top,
            PlacementMode::Right,
            PlacementMode::Left,
        ],
        PlacementMode::Left => [
            PlacementMode::Left,
            PlacementMode::Right,
            PlacementMode::Top,
            PlacementMode::Bottom,
        ],
        PlacementMode::Right => [
            PlacementMode::Right,
            PlacementMode::Left,
            PlacementMode::Top,
            PlacementMode::Bottom,
        ],
        _ => [
            PlacementMode::Top,
            PlacementMode::Bottom,
            PlacementMode::Right,
            PlacementMode::Left,
        ],
    };
    assert(r@ =~= spec_tool_tip_sides(preferred));
    r
}

/// The four sides of the fallback order are the requested side, its opposite on the same axis,
/// and the two sides of the other axis, each exactly once.
pub proof fn lemma_fallbacks_try_each_side_once(side: MajorPlacementMode)
    requires
        side != MajorPlacementMode::Full,
    ensures
        spec_fallbacks(side).len() == 4,
        spec_fallbacks(side)[0] == side,
        spec_fallbacks(side)[1] == spec_opposite(side),
        spec_vertical(spec_fallbacks(side)[1]) == spec_vertical(side),
        spec_vertical(spec_fallbacks(side)[2]) != spec_vertical(side),
        spec_vertical(spec_fallbacks(side)[3]) != spec_vertical(side),
        forall|i: int, j: int|
            0 <= i < j < 4 ==> spec_fallbacks(side)[i] != spec_fallbacks(side)[j],
        forall|i: int| 0 <= i < 4 ==> spec_fallbacks(side)[i] != MajorPlacementMode::Full,
{
}

/// A right-to-left layout mirrors the primary side horizontally, leaves vertical sides and
/// full placement alone, and never changes the edge alignment.
pub proof fn lemma_rtl_mirrors_horizontal_sides(mode: FlyoutPlacementMode)
    ensures
        spec_major(mode, TextDirection::Rtl) == spec_mirror(spec_major(mode, TextDirection::Ltr)),
        spec_vertical(spec_major(mode, TextDirection::Rtl)) == spec_vertical(
            spec_major(mode, TextDirection::Ltr),
        ),
        spec_vertical(spec_major(mode, TextDirection::Ltr)) ==> spec_major(
            mode,
            TextDirection::Rtl,
        ) == spec_major(mode, TextDirection::Ltr),
        (spec_major(mode, TextDirection::Ltr) == MajorPlacementMode::Full) == (spec_major(
            mode,
            TextDirection::Rtl,
        ) == MajorPlacementMode::Full),
        spec_mirror(spec_mirror(spec_major(mode, TextDirection::Ltr))) == spec_major(
            mode,
            TextDirection::Ltr,
        ),
{
}


/// A flyout placed at a point opens on the side its mode names: above the point for a top side
/// (shifted by its whole height), below it for a bottom side (no vertical shift), left of it
/// for a left side (shifted by its whole width) and right of it for a right side (no horizontal
/// shift). Across that side it is centred on the point for a centred mode, starts at the point
/// for a start-aligned mode and ends at it for an end-aligned mode. Menus start at the point,
/// and touch menus open above it.
pub proof fn lemma_point_alignment_follows_side_and_justification(mode: FlyoutPlacementMode)
    ensures
        ({
            let (sx, sy) = spec_point_alignment(mode, PointPlacementKind::Flyout);
            let side = spec_major(mode, TextDirection::Ltr);
            let j = spec_justification(mode);
            let cross = if spec_vertical(side) {
                sx
            } else {
                sy
            };
            &&& side == MajorPlacementMode::Top ==> sy == ExtentShift::Whole
            &&& side == MajorPlacementMode::Bottom ==> sy == ExtentShift::Zero
            &&& side == MajorPlacementMode::Left ==> sx == ExtentShift::Whole
            &&& side == MajorPlacementMode::Right ==> sx == ExtentShift::Zero
            &&& side != MajorPlacementMode::Full ==> {
                &&& j == PreferredJustification::Center ==> cross == ExtentShift::Half
                &&& j == PreferredJustification::Start ==> cross == ExtentShift::Zero
                &&& j == PreferredJustification::End ==> cross == ExtentShift::Whole
            }
            &&& side == MajorPlacementMode::Full ==> sx == ExtentShift::Zero && sy == ExtentShift::Zero
        }),
        spec_point_alignment(mode, PointPlacementKind::Menu) == (ExtentShift::Zero, ExtentShift::Zero),
        spec_point_alignment(mode, PointPlacementKind::TouchMenu) == (
            ExtentShift::Zero,
            ExtentShift::Whole,
        ),
{
}

/// The side across the target from a tooltip side.
pub open spec fn spec_opposite_placement(p: PlacementMode) -> PlacementMode {
    match p {
        PlacementMode::Top => PlacementMode::Bottom,
        PlacementMode::Bottom => PlacementMode::Top,
        PlacementMode::Left => PlacementMode::Right,
        PlacementMode::Right => PlacementMode::Left,
        PlacementMode::Mouse => PlacementMode::Bottom,
    }
}

/// Whether a tooltip side lies on the vertical axis; pointer placement counts as above.
pub open spec fn spec_vertical_placement(p: PlacementMode) -> bool {
    p == PlacementMode::Top || p == PlacementMode::Bottom || p == PlacementMode::Mouse
}

/// A tooltip tries its preferred side first (pointer placement as above), then the opposite
/// side, then the two sides of the other axis; each of the four sides is tried exactly once,
/// and pointer placement is never one of them.
pub proof fn lemma_tool_tip_sides_start_with_preferred(p: PlacementMode)
    ensures
        spec_tool_tip_sides(p).len() == 4,
        p != PlacementMode::Mouse ==> spec_tool_tip_sides(p)[0] == p,
        p == PlacementMode::Mouse ==> spec_tool_tip_sides(p)[0] == PlacementMode::Top,
        spec_tool_tip_sides(p)[1] == spec_opposite_placement(spec_tool_tip_sides(p)[0]),
        spec_vertical_placement(spec_tool_tip_sides(p)[2]) != spec_vertical_placement(
            spec_tool_tip_sides(p)[0],
        ),
        spec_vertical_placement(spec_tool_tip_sides(p)[3]) != spec_vertical_placement(
            spec_tool_tip_sides(p)[0],
        ),
        forall|i: int, j: int| 0 <= i < j < 4 ==> spec_tool_tip_sides(p)[i] != spec_tool_tip_sides(p)[j],
        forall|i: int| 0 <= i < 4 ==> spec_tool_tip_sides(p)[i] != PlacementMode::Mouse,
{
}

} // verus!
