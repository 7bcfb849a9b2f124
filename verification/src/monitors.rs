//! Monitors: their layout, its validation and the desktop that they span.
use vstd::prelude::*;

use crate::text;

verus! {

/// Default desktop width.
pub const DEFAULT_WIDTH: u16 = 1920;

/// Default desktop height.
pub const DEFAULT_HEIGHT: u16 = 1080;

/// A monitor, as it is reported when a connection is made.
#[derive(Debug, Clone, Copy, PartialEq, Eq, Structural)]
pub struct RdpMonitorInfo {
    /// Left edge on the virtual desktop.
    pub x: i32,
    /// Top edge on the virtual desktop.
    pub y: i32,
    /// Width in pixels.
    pub width: u32,
    /// Height in pixels.
    pub height: u32,
    /// The monitor is the primary one.
    pub is_primary: bool,
    /// Scale in percent, from 100 to 500.
    pub scale_percent: u32,
    /// Physical width in millimetres.
    pub physical_width_mm: Option<u32>,
    /// Physical height in millimetres.
    pub physical_height_mm: Option<u32>,
}

/// The nearest number from 100 to 500.
pub open spec fn clamped_scale(percent: u32) -> u32 {
    if percent < 100 {
        100
    } else if percent > 500 {
        500
    } else {
        percent
    }
}

impl RdpMonitorInfo {
    /// A monitor at normal scale whose physical size is not known.
    pub fn new(x: i32, y: i32, width: u32, height: u32, is_primary: bool) -> (m: RdpMonitorInfo)
        ensures
            m == (RdpMonitorInfo {
                x,
                y,
                width,
                height,
                is_primary,
                scale_percent: 100,
                physical_width_mm: None,
                physical_height_mm: None,
            }),
    {
        RdpMonitorInfo {
            x,
            y,
            width,
            height,
            is_primary,
            scale_percent: 100,
            physical_width_mm: None,
            physical_height_mm: None,
        }
    }

    /// The monitor with another scale, kept within 100 to 500 percent.
    pub fn with_scale(self, scale_percent: u32) -> (m: RdpMonitorInfo)
        ensures
            m == (RdpMonitorInfo { scale_percent: clamped_scale(scale_percent), ..self }),
    {
        let mut m = self;
        m.scale_percent = if scale_percent < 100 {
            100
        } else if scale_percent > 500 {
            500
        } else {
            scale_percent
        };
        m
    }

    /// The monitor with a physical size.
    pub fn with_physical_size(self, width_mm: u32, height_mm: u32) -> (m: RdpMonitorInfo)
        ensures
            m == (RdpMonitorInfo {
                physical_width_mm: Some(width_mm),
                physical_height_mm: Some(height_mm),
                ..self
            }),
    {
        let mut m = self;
        m.physical_width_mm = Some(width_mm);
        m.physical_height_mm = Some(height_mm);
        m
    }

    /// The monitor may stand where it does: the primary one only at the origin.
    pub open spec fn well_placed(self) -> bool {
        self.is_primary ==> self.x == 0 && self.y == 0
    }

    /// Tests whether the monitor may stand where it does.
    pub fn is_position_valid(&self) -> (b: bool)
        ensures
            b == self.well_placed(),
    {
        !self.is_primary || (self.x == 0 && self.y == 0)
    }

    /// The monitor has an area.
    pub open spec fn has_area(self) -> bool {
        self.width != 0 && self.height != 0
    }
}

/// How many monitors are primary.
pub open spec fn primary_count(monitors: Seq<RdpMonitorInfo>) -> nat
    decreases monitors.len(),
{
    if monitors.len() == 0 {
        0
    } else {
        primary_count(monitors.drop_last()) + if monitors.last().is_primary {
            1nat
        } else {
            0
        }
    }
}

/// The place of the first primary monitor from `from` on.
pub open spec fn primary_from(monitors: Seq<RdpMonitorInfo>, from: int) -> int
    decreases monitors.len() - from,
{
    if from < 0 || from >= monitors.len() || monitors[from].is_primary {
        from
    } else {
        primary_from(monitors, from + 1)
    }
}

/// The place of the first monitor without an area from `from` on.
pub open spec fn flat_from(monitors: Seq<RdpMonitorInfo>, from: int) -> int
    decreases monitors.len() - from,
{
    if from < 0 || from >= monitors.len() || !monitors[from].has_area() {
        from
    } else {
        flat_from(monitors, from + 1)
    }
}

/// What is wrong with a layout.
pub open spec fn layout_fault(monitors: Seq<RdpMonitorInfo>) -> Option<Seq<char>> {
    if monitors.len() == 0 {
        Some("Monitor layout cannot be empty"@)
    } else if primary_count(monitors) == 0 {
        Some("Monitor layout must have exactly one primary monitor (found none)"@)
    } else if primary_count(monitors) > 1 {
        Some(
            "Monitor layout must have exactly one primary monitor (found "@ + text::decimal(
                primary_count(monitors),
            ) + ")"@,
        )
    } else {
        let primary = monitors[primary_from(monitors, 0)];
        let flat = flat_from(monitors, 0);
        if !primary.well_placed() {
            Some(
                "Primary monitor must be at position (0, 0), found ("@ + text::signed_decimal(
                    primary.x as int,
                ) + ", "@ + text::signed_decimal(primary.y as int) + ")"@,
            )
        } else if flat < monitors.len() {
            Some(
                "Monitor "@ + text::decimal(flat as nat) + " has invalid dimensions: "@
                    + text::decimal(monitors[flat].width as nat) + "x"@ + text::decimal(
                    monitors[flat].height as nat,
                ),
            )
        } else {
            None
        }
    }
}

/// Counts the primary monitors.
fn count_primaries(monitors: &[RdpMonitorInfo]) -> (n: usize)
    ensures
        n == primary_count(monitors@),
{
    let mut n: usize = 0;
    let mut i: usize = 0;
    assert(monitors@.take(0) == Seq::<RdpMonitorInfo>::empty());
    while i < monitors.len()
        invariant
            n <= i <= monitors@.len(),
            n == primary_count(monitors@.take(i as int)),
        decreases monitors@.len() - i,
    {
        proof {
            let longer = monitors@.take(i + 1);
            assert(longer.drop_last() == monitors@.take(i as int));
            assert(longer.last() == monitors@[i as int]);
        }
        if monitors[i].is_primary {
            n = n + 1;
        }
        i = i + 1;
    }
    assert(monitors@.take(monitors@.len() as int) == monitors@);
    n
}

/// The first primary monitor is one, where some monitor is primary.
proof fn lemma_primary_found(monitors: Seq<RdpMonitorInfo>, from: int)
    requires
        0 <= from <= monitors.len(),
    ensures
        from <= primary_from(monitors, from) <= monitors.len(),
        primary_from(monitors, from) < monitors.len() ==> monitors[primary_from(
            monitors,
            from,
        )].is_primary,
        forall|i: int|
            from <= i < primary_from(monitors, from) ==> !(#[trigger] monitors[i]).is_primary,
    decreases monitors.len() - from,
{
    if from < monitors.len() && !monitors[from].is_primary {
        lemma_primary_found(monitors, from + 1);
    }
}

/// A layout whose primary monitors are counted to none has none, and conversely.
proof fn lemma_no_primary(monitors: Seq<RdpMonitorInfo>)
    ensures
        primary_count(monitors) == 0 <==> forall|i: int|
            0 <= i < monitors.len() ==> !(#[trigger] monitors[i]).is_primary,
    decreases monitors.len(),
{
    if monitors.len() > 0 {
        let fewer = monitors.drop_last();
        lemma_no_primary(fewer);
        if primary_count(monitors) == 0 {
            assert forall|i: int| 0 <= i < monitors.len() implies !(
            #[trigger] monitors[i]).is_primary by {
                if i < fewer.len() {
                    assert(fewer[i] == monitors[i]);
                }
            }
        }
        if forall|i: int| 0 <= i < monitors.len() ==> !(#[trigger] monitors[i]).is_primary {
            assert forall|i: int| 0 <= i < fewer.len() implies !(#[trigger] fewer[i]).is_primary by {
                assert(fewer[i] == monitors[i]);
            }
            assert(!monitors[monitors.len() - 1].is_primary);
        }
    }
}

/// The first monitor without an area is one, and the ones before it are none.
proof fn lemma_flat_found(monitors: Seq<RdpMonitorInfo>, from: int)
    requires
        0 <= from <= monitors.len(),
    ensures
        from <= flat_from(monitors, from) <= monitors.len(),
        flat_from(monitors, from) < monitors.len() ==> !monitors[flat_from(
            monitors,
            from,
        )].has_area(),
        forall|i: int| from <= i < flat_from(monitors, from) ==> (#[trigger] monitors[i]).has_area(),
    decreases monitors.len() - from,
{
    if from < monitors.len() && monitors[from].has_area() {
        lemma_flat_found(monitors, from + 1);
    }
}

/// Tests whether a layout may be reported, and says what is wrong with it where it
/// may not.
pub fn validate_monitor_layout(monitors: &[RdpMonitorInfo]) -> (r: Result<(), String>)
    ensures
        match r {
            Ok(_) => layout_fault(monitors@) is None,
            Err(s) => layout_fault(monitors@) == Some(s@),
        },
{
    if monitors.len() == 0 {
        return Err("Monitor layout cannot be empty".to_owned());
    }
    let primaries = count_primaries(monitors);
    if primaries == 0 {
        return Err("Monitor layout must have exactly one primary monitor (found none)".to_owned());
    }
    if primaries > 1 {
        let mut s = String::new();
        s.push_str("Monitor layout must have exactly one primary monitor (found ");
        text::push_decimal(&mut s, primaries as u64);
        s.push_str(")");
        return Err(s);
    }
    proof {
        lemma_primary_found(monitors@, 0);
        lemma_no_primary(monitors@);
    }
    let mut p: usize = 0;
    while !monitors[p].is_primary
        invariant
            p < monitors@.len(),
            primary_from(monitors@, p as int) == primary_from(monitors@, 0),
            primary_from(monitors@, 0) < monitors@.len(),
        decreases monitors@.len() - p,
    {
        proof {
            lemma_primary_found(monitors@, p + 1);
        }
        p = p + 1;
    }
    if !monitors[p].is_position_valid() {
        let mut s = String::new();
        s.push_str("Primary monitor must be at position (0, 0), found (");
        text::push_signed(&mut s, monitors[p].x);
        s.push_str(", ");
        text::push_signed(&mut s, monitors[p].y);
        s.push_str(")");
        return Err(s);
    }
    let mut i: usize = 0;
    while i < monitors.len()
        invariant
            i <= monitors@.len(),
            monitors@.len() > 0,
            primary_count(monitors@) == 1,
            monitors@[primary_from(monitors@, 0)].well_placed(),
            flat_from(monitors@, i as int) == flat_from(monitors@, 0),
        decreases monitors@.len() - i,
    {
        if monitors[i].width == 0 || monitors[i].height == 0 {
            let mut s = String::new();
            s.push_str("Monitor ");
            text::push_decimal(&mut s, i as u64);
            s.push_str(" has invalid dimensions: ");
            text::push_decimal(&mut s, monitors[i].width as u64);
            s.push_str("x");
            text::push_decimal(&mut s, monitors[i].height as u64);
            return Err(s);
        }
        i = i + 1;
    }
    Ok(())
}

/// Exactly the monitor at `p` is primary.
pub open spec fn only_primary(monitors: Seq<RdpMonitorInfo>, p: int) -> bool {
    &&& 0 <= p < monitors.len()
    &&& monitors[p].is_primary
    &&& forall|i: int|
        0 <= i < monitors.len() && i != p ==> !(#[trigger] monitors[i]).is_primary
}

/// One primary monitor is counted exactly where one monitor alone is primary.
proof fn lemma_one_primary(monitors: Seq<RdpMonitorInfo>)
    ensures
        primary_count(monitors) == 1 <==> exists|p: int| #[trigger] only_primary(monitors, p),
    decreases monitors.len(),
{
    if monitors.len() > 0 {
        let fewer = monitors.drop_last();
        let end = monitors.len() - 1;
        lemma_one_primary(fewer);
        lemma_no_primary(fewer);
        if primary_count(monitors) == 1 {
            if monitors.last().is_primary {
                assert forall|i: int| 0 <= i < monitors.len() && i != end implies !(
                #[trigger] monitors[i]).is_primary by {
                    assert(fewer[i] == monitors[i]);
                }
                assert(only_primary(monitors, end));
            } else {
                let p = choose|p: int| only_primary(fewer, p);
                assert forall|i: int| 0 <= i < monitors.len() && i != p implies !(
                #[trigger] monitors[i]).is_primary by {
                    if i < fewer.len() {
                        assert(fewer[i] == monitors[i]);
                    }
                }
                assert(only_primary(monitors, p));
            }
        }
        if exists|p: int| #[trigger] only_primary(monitors, p) {
            let p = choose|p: int| only_primary(monitors, p);
            if p == end {
                assert forall|i: int| 0 <= i < fewer.len() implies !(
                #[trigger] fewer[i]).is_primary by {
                    assert(fewer[i] == monitors[i]);
                }
            } else {
                assert(!monitors[end].is_primary);
                assert forall|i: int| 0 <= i < fewer.len() && i != p implies !(
                #[trigger] fewer[i]).is_primary by {
                    assert(fewer[i] == monitors[i]);
                }
                assert(fewer[p] == monitors[p]);
                assert(only_primary(fewer, p));
            }
        }
    }
}

/// A layout is accepted exactly where one monitor alone is primary, that one
/// stands at the origin, and every monitor has an area.
pub proof fn law_valid_layout(monitors: Seq<RdpMonitorInfo>)
    ensures
        layout_fault(monitors) is None <==> (exists|p: int|
            #[trigger] only_primary(monitors, p) && monitors[p].x == 0 && monitors[p].y == 0)
            && forall|i: int| 0 <= i < monitors.len() ==> (#[trigger] monitors[i]).has_area(),
{
    lemma_one_primary(monitors);
    lemma_no_primary(monitors);
    lemma_primary_found(monitors, 0);
    lemma_flat_found(monitors, 0);
    if primary_count(monitors) == 1 {
        let p = choose|p: int| only_primary(monitors, p);
        assert(primary_from(monitors, 0) == p);
    }
}

/// A monitor, as it is reported when the layout changes.
#[derive(Debug, Clone, Copy, PartialEq, Eq, Structural)]
pub struct RdpMonitorLayout {
    /// The number of the monitor.
    pub id: u32,
    /// Width in pixels.
    pub width: u32,
    /// Height in pixels.
    pub height: u32,
    /// Left edge on the combined desktop.
    pub x: i32,
    /// Top edge on the combined desktop.
    pub y: i32,
    /// The monitor is the primary one.
    pub is_primary: bool,
}

/// The size of a desktop.
#[derive(Debug, Clone, Copy, PartialEq, Eq, Structural)]
pub struct DesktopSize {
    /// Width in pixels.
    pub width: u16,
    /// Height in pixels.
    pub height: u16,
}

impl DesktopSize {
    /// The size with the given sides.
    pub fn new(width: u16, height: u16) -> (s: DesktopSize)
        ensures
            s == (DesktopSize { width, height }),
    {
        DesktopSize { width, height }
    }
}

/// Left, top, right and bottom edge of an area; right and bottom lie outside.
pub struct Bounds {
    /// Left edge.
    pub left: int,
    /// Top edge.
    pub top: int,
    /// Right edge.
    pub right: int,
    /// Bottom edge.
    pub bottom: int,
}

/// The area of a monitor.
pub open spec fn area(m: RdpMonitorInfo) -> Bounds {
    Bounds { left: m.x as int, top: m.y as int, right: m.x + m.width, bottom: m.y + m.height }
}

/// The smaller of two integers.
pub open spec fn least(a: int, b: int) -> int {
    if a <= b {
        a
    } else {
        b
    }
}

/// The larger of two integers.
pub open spec fn greatest(a: int, b: int) -> int {
    if a >= b {
        a
    } else {
        b
    }
}

/// The smallest area that holds two areas.
pub open spec fn hull(a: Bounds, b: Bounds) -> Bounds {
    Bounds {
        left: least(a.left, b.left),
        top: least(a.top, b.top),
        right: greatest(a.right, b.right),
        bottom: greatest(a.bottom, b.bottom),
    }
}

/// The smallest area that holds all monitors, of which there is at least one.
pub open spec fn bounding_box(monitors: Seq<RdpMonitorInfo>) -> Bounds
    decreases monitors.len(),
{
    if monitors.len() <= 1 {
        area(monitors[0])
    } else {
        hull(bounding_box(monitors.drop_last()), area(monitors.last()))
    }
}

/// A side as the protocol has it, no longer than 65535 pixels.
pub open spec fn clamped_side(n: int) -> u16 {
    if n > u16::MAX {
        u16::MAX
    } else {
        n as u16
    }
}

/// The desktop that the monitors span: the default one where there is none.
pub open spec fn spanned_desktop(monitors: Seq<RdpMonitorInfo>) -> DesktopSize {
    if monitors.len() == 0 {
        DesktopSize { width: 1920, height: 1080 }
    } else {
        let b = bounding_box(monitors);
        DesktopSize {
            width: clamped_side(b.right - b.left),
            height: clamped_side(b.bottom - b.top),
        }
    }
}

/// The right and bottom edges and the sides of the desktop can be counted in 32
/// bits with sign.
pub open spec fn countable(monitors: Seq<RdpMonitorInfo>) -> bool {
    &&& forall|i: int|
        0 <= i < monitors.len() ==> (#[trigger] monitors[i]).x + monitors[i].width <= i32::MAX
            && monitors[i].y + monitors[i].height <= i32::MAX
    &&& monitors.len() > 0 ==> bounding_box(monitors).right - bounding_box(monitors).left
        <= i32::MAX
    &&& monitors.len() > 0 ==> bounding_box(monitors).bottom - bounding_box(monitors).top
        <= i32::MAX
}

/// Left, top, right and bottom edge of the smallest area that holds all monitors.
fn edges(monitors: &[RdpMonitorInfo]) -> (e: (i64, i64, i64, i64))
    requires
        monitors@.len() > 0,
    ensures
        bounding_box(monitors@) == (Bounds {
            left: e.0 as int,
            top: e.1 as int,
            right: e.2 as int,
            bottom: e.3 as int,
        }),
        i32::MIN <= e.0 <= i32::MAX,
        i32::MIN <= e.1 <= i32::MAX,
        i32::MIN <= e.2 <= 0x2_0000_0000,
        i32::MIN <= e.3 <= 0x2_0000_0000,
{
    let mut left: i64 = monitors[0].x as i64;
    let mut top: i64 = monitors[0].y as i64;
    let mut right: i64 = monitors[0].x as i64 + monitors[0].width as i64;
    let mut bottom: i64 = monitors[0].y as i64 + monitors[0].height as i64;
    let mut i: usize = 1;
    while i < monitors.len()
        invariant
            1 <= i <= monitors@.len(),
            bounding_box(monitors@.take(i as int)) == (Bounds {
                left: left as int,
                top: top as int,
                right: right as int,
                bottom: bottom as int,
            }),
            i32::MIN <= left <= i32::MAX,
            i32::MIN <= top <= i32::MAX,
            i32::MIN <= right <= 0x2_0000_0000,
            i32::MIN <= bottom <= 0x2_0000_0000,
        decreases monitors@.len() - i,
    {
        proof {
            let longer = monitors@.take(i + 1);
            assert(longer.drop_last() == monitors@.take(i as int));
            assert(longer.last() == monitors@[i as int]);
        }
        let m = &monitors[i];
        let m_right: i64 = m.x as i64 + m.width as i64;
        let m_bottom: i64 = m.y as i64 + m.height as i64;
        if (m.x as i64) < left {
            left = m.x as i64;
        }
        if (m.y as i64) < top {
            top = m.y as i64;
        }
        if m_right > right {
            right = m_right;
        }
        if m_bottom > bottom {
            bottom = m_bottom;
        }
        i = i + 1;
    }
    assert(monitors@.take(monitors@.len() as int) == monitors@);
    (left, top, right, bottom)
}

/// Tests whether the desktop of a layout can be counted in 32 bits with sign.
pub fn layout_is_countable(monitors: &[RdpMonitorInfo]) -> (b: bool)
    ensures
        b == countable(monitors@),
{
    let mut i: usize = 0;
    while i < monitors.len()
        invariant
            i <= monitors@.len(),
            forall|j: int|
                0 <= j < i ==> (#[trigger] monitors@[j]).x + monitors@[j].width <= i32::MAX
                    && monitors@[j].y + monitors@[j].height <= i32::MAX,
        decreases monitors@.len() - i,
    {
        if monitors[i].x as i64 + monitors[i].width as i64 > i32::MAX as i64
            || monitors[i].y as i64 + monitors[i].height as i64 > i32::MAX as i64 {
            assert(!(monitors@[i as int].x + monitors@[i as int].width <= i32::MAX
                && monitors@[i as int].y + monitors@[i as int].height <= i32::MAX));
            return false;
        }
        i = i + 1;
    }
    if monitors.len() == 0 {
        return true;
    }
    let (left, top, right, bottom) = edges(monitors);
    right - left <= i32::MAX as i64 && bottom - top <= i32::MAX as i64
}

/// The desktop that the monitors span.
pub fn calculate_combined_desktop_size(monitors: &[RdpMonitorInfo]) -> (s: DesktopSize)
    requires
        countable(monitors@),
    ensures
        s == spanned_desktop(monitors@),
{
    if monitors.len() == 0 {
        return DesktopSize::new(DEFAULT_WIDTH, DEFAULT_HEIGHT);
    }
    proof {
        lemma_box_holds(monitors@, 0);
    }
    let (left, top, right, bottom) = edges(monitors);
    let width: u16 = if right - left > u16::MAX as i64 {
        u16::MAX
    } else {
        (right - left) as u16
    };
    let height: u16 = if bottom - top > u16::MAX as i64 {
        u16::MAX
    } else {
        (bottom - top) as u16
    };
    DesktopSize::new(width, height)
}

/// The smallest area holds each monitor.
proof fn lemma_box_holds(monitors: Seq<RdpMonitorInfo>, i: int)
    requires
        0 <= i < monitors.len(),
    ensures
        bounding_box(monitors).left <= monitors[i].x,
        bounding_box(monitors).top <= monitors[i].y,
        monitors[i].x + monitors[i].width <= bounding_box(monitors).right,
        monitors[i].y + monitors[i].height <= bounding_box(monitors).bottom,
    decreases monitors.len(),
{
    if monitors.len() > 1 {
        let fewer = monitors.drop_last();
        if i < fewer.len() {
            lemma_box_holds(fewer, i);
            assert(fewer[i] == monitors[i]);
        }
    }
}

/// Every monitor lies on the spanned desktop, counted from its upper left corner,
/// where the desktop is not cut at the longest side.
pub proof fn law_desktop_holds_monitors(monitors: Seq<RdpMonitorInfo>, i: int)
    requires
        0 <= i < monitors.len(),
        bounding_box(monitors).right - bounding_box(monitors).left <= u16::MAX,
        bounding_box(monitors).bottom - bounding_box(monitors).top <= u16::MAX,
    ensures
        0 <= monitors[i].x - bounding_box(monitors).left,
        monitors[i].x - bounding_box(monitors).left + monitors[i].width <= spanned_desktop(
            monitors,
        ).width,
        0 <= monitors[i].y - bounding_box(monitors).top,
        monitors[i].y - bounding_box(monitors).top + monitors[i].height <= spanned_desktop(
            monitors,
        ).height,
{
    lemma_box_holds(monitors, i);
}

/// An area holds a monitor.
pub open spec fn holds(b: Bounds, m: RdpMonitorInfo) -> bool {
    b.left <= m.x && b.top <= m.y && m.x + m.width <= b.right && m.y + m.height <= b.bottom
}

/// No smaller area holds all monitors.
pub proof fn law_bounding_box_is_least(monitors: Seq<RdpMonitorInfo>, b: Bounds)
    requires
        monitors.len() > 0,
        forall|i: int| 0 <= i < monitors.len() ==> holds(b, #[trigger] monitors[i]),
    ensures
        b.left <= bounding_box(monitors).left,
        b.top <= bounding_box(monitors).top,
        bounding_box(monitors).right <= b.right,
        bounding_box(monitors).bottom <= b.bottom,
    decreases monitors.len(),
{
    assert(holds(b, monitors[0]));
    if monitors.len() > 1 {
        let fewer = monitors.drop_last();
        assert forall|i: int| 0 <= i < fewer.len() implies holds(b, #[trigger] fewer[i]) by {
            assert(fewer[i] == monitors[i]);
        }
        law_bounding_box_is_least(fewer, b);
        assert(holds(b, monitors[monitors.len() - 1]));
    }
}

/// Whatever scale is asked for, the scale of a monitor stays within 100 to 500
/// percent, and a scale in that range is kept.
pub proof fn law_scale_in_range(percent: u32)
    ensures
        100 <= clamped_scale(percent) <= 500,
        100 <= percent <= 500 ==> clamped_scale(percent) == percent,
{
}

/// Without monitors the desktop has 1920 by 1080 pixels; with monitors it has the sides
/// of their bounding box, or 65535 where that is larger.
pub proof fn law_desktop_is_bounding_box(monitors: Seq<RdpMonitorInfo>)
    ensures
        monitors.len() == 0 ==> spanned_desktop(monitors) == (DesktopSize {
            width: 1920,
            height: 1080,
        }),
        monitors.len() > 0 ==> {
            let b = bounding_box(monitors);
            let s = spanned_desktop(monitors);
            &&& 0 <= b.right - b.left <= 65535 ==> s.width == b.right - b.left
            &&& b.right - b.left > 65535 ==> s.width == 65535
            &&& 0 <= b.bottom - b.top <= 65535 ==> s.height == b.bottom - b.top
            &&& b.bottom - b.top > 65535 ==> s.height == 65535
        },
{
}

/// A single monitor is its own desktop, wherever it lies.
pub proof fn law_single_monitor_is_desktop(m: RdpMonitorInfo)
    requires
        m.width <= 65535,
        m.height <= 65535,
    ensures
        spanned_desktop(seq![m]) == (DesktopSize {
            width: m.width as u16,
            height: m.height as u16,
        }),
{
}

/// What is wrong with a layout is said of the first thing that is: that it is empty,
/// the number of its primary monitors, the place of the primary one, the sides of one
/// without area.
pub proof fn law_faults_are_told_apart(monitors: Seq<RdpMonitorInfo>)
    ensures
        monitors.len() == 0 ==> layout_fault(monitors) == Some("Monitor layout cannot be empty"@),
        monitors.len() > 0 && primary_count(monitors) != 1 ==> layout_fault(monitors) is Some
            && "Monitor layout must have exactly one primary monitor (found "@.is_prefix_of(
            layout_fault(monitors)->0,
        ),
        primary_count(monitors) > 1 ==> layout_fault(monitors) is Some && text::occurs(
            layout_fault(monitors)->0,
            text::decimal(primary_count(monitors)),
        ),
{
    reveal_strlit("Monitor layout must have exactly one primary monitor (found ");
    reveal_strlit("Monitor layout must have exactly one primary monitor (found none)");
    let begin = "Monitor layout must have exactly one primary monitor (found "@;
    if monitors.len() > 0 && primary_count(monitors) != 1 {
        let s = layout_fault(monitors)->0;
        assert(s.subrange(0, begin.len() as int) =~= begin);
        if primary_count(monitors) > 1 {
            text::law_part_occurs(begin, text::decimal(primary_count(monitors)), ")"@);
        }
    }
}

/// The number of primary monitors is one exactly where one and no other is primary.
pub proof fn law_primaries_are_counted(monitors: Seq<RdpMonitorInfo>, m: RdpMonitorInfo)
    ensures
        primary_count(Seq::empty()) == 0,
        m.is_primary ==> primary_count(monitors.push(m)) == primary_count(monitors) + 1,
        !m.is_primary ==> primary_count(monitors.push(m)) == primary_count(monitors),
{
    assert(monitors.push(m).drop_last() =~= monitors);
}

} // verus!
