//! Telling the server of the monitors (DISPLAYCONTROL).
use vstd::prelude::*;

use ironrdp::displaycontrol::pdu::{
    DisplayControlMonitorLayout, MonitorLayoutEntry, MonitorOrientation,
};

use crate::messages::{FromNetwork, NewsView};
use crate::monitors;
use crate::monitors::RdpMonitorInfo;
use crate::views;

verus! {

/// `MonitorLayoutEntry`: one monitor as the server is told of it.
#[verifier::external_type_specification]
#[verifier::external_body]
pub struct ExMonitorLayoutEntry(MonitorLayoutEntry);

/// `DisplayControlMonitorLayout`: the message that tells the server of the
/// monitors.
#[verifier::external_type_specification]
#[verifier::external_body]
pub struct ExDisplayControlMonitorLayout(DisplayControlMonitorLayout);

/// The fields of a `MonitorLayoutEntry`.
pub struct EntryView {
    /// The monitor is the primary one.
    pub is_primary: bool,
    /// Left edge.
    pub left: int,
    /// Top edge.
    pub top: int,
    /// Width in pixels.
    pub width: int,
    /// Height in pixels.
    pub height: int,
    /// Physical width in millimetres, or 0.
    pub physical_width: int,
    /// Physical height in millimetres, or 0.
    pub physical_height: int,
    /// Angle of the orientation.
    pub orientation: int,
    /// Scale in percent, or 0.
    pub desktop_scale_factor: int,
}

/// The fields of an entry.
pub uninterp spec fn entry_fields(e: MonitorLayoutEntry) -> EntryView;

/// The fields of the entries of a layout.
pub uninterp spec fn layout_fields(l: DisplayControlMonitorLayout) -> Seq<EntryView>;

/// The next lower even number, or the number itself.
pub open spec fn made_even(n: u32) -> int {
    n - n % 2
}

/// A size that the protocol can tell.
pub open spec fn tellable_size(width: u32, height: u32) -> bool {
    200 <= made_even(width) <= 8192 && 200 <= height <= 8192
}

/// A physical size that the protocol can tell.
pub open spec fn tellable_physical_size(width: u32, height: u32) -> bool {
    10 <= width <= 10000 && 10 <= height <= 10000
}

/// The entry of a monitor at the origin, of which only the size is known.
pub open spec fn bare_entry(width: u32, height: u32, is_primary: bool) -> EntryView {
    EntryView {
        is_primary,
        left: 0,
        top: 0,
        width: made_even(width),
        height: height as int,
        physical_width: 0,
        physical_height: 0,
        orientation: 0,
        desktop_scale_factor: 0,
    }
}

/// `MonitorLayoutEntry::new_primary` makes an entry where width and height lie
/// within 200 to 8192; an odd width is lowered by one first.
#[verifier::external_body]
fn primary_entry(width: u32, height: u32) -> (e: Option<MonitorLayoutEntry>)
    ensures
        e is Some <==> tellable_size(width, height),
        e is Some ==> entry_fields(e->0) == bare_entry(width, height, true),
{
    MonitorLayoutEntry::new_primary(width, height).ok()
}

/// `MonitorLayoutEntry::new_secondary` makes an entry where width and height lie
/// within 200 to 8192; an odd width is lowered by one first.
#[verifier::external_body]
fn secondary_entry(width: u32, height: u32) -> (e: Option<MonitorLayoutEntry>)
    ensures
        e is Some <==> tellable_size(width, height),
        e is Some ==> entry_fields(e->0) == bare_entry(width, height, false),
{
    MonitorLayoutEntry::new_secondary(width, height).ok()
}

/// `MonitorLayoutEntry::with_position` moves an entry; a primary one stays at the
/// origin.
#[verifier::external_body]
fn placed_entry(entry: MonitorLayoutEntry, left: i32, top: i32) -> (e: Option<MonitorLayoutEntry>)
    ensures
        e is Some <==> (entry_fields(entry).is_primary ==> left == 0 && top == 0),
        e is Some ==> entry_fields(e->0) == (EntryView {
            left: left as int,
            top: top as int,
            ..entry_fields(entry)
        }),
{
    entry.with_position(left, top).ok()
}

/// `MonitorLayoutEntry::with_desktop_scale_factor` sets a scale from 100 to 500
/// percent.
#[verifier::external_body]
fn scaled_entry(entry: MonitorLayoutEntry, percent: u32) -> (e: Option<MonitorLayoutEntry>)
    ensures
        e is Some <==> 100 <= percent <= 500,
        e is Some ==> entry_fields(e->0) == (EntryView {
            desktop_scale_factor: percent as int,
            ..entry_fields(entry)
        }),
{
    entry.with_desktop_scale_factor(percent).ok()
}

/// `MonitorLayoutEntry::with_orientation` with `MonitorOrientation::Landscape`,
/// whose angle is 0.
#[verifier::external_body]
fn landscape_entry(entry: MonitorLayoutEntry) -> (e: MonitorLayoutEntry)
    ensures
        entry_fields(e) == (EntryView { orientation: 0, ..entry_fields(entry) }),
{
    entry.with_orientation(MonitorOrientation::Landscape)
}

/// `MonitorLayoutEntry::with_physical_dimensions` sets sides from 10 to 10000
/// millimetres.
#[verifier::external_body]
fn measured_entry(entry: MonitorLayoutEntry, width_mm: u32, height_mm: u32) -> (e: Option<
    MonitorLayoutEntry,
>)
    ensures
        e is Some <==> tellable_physical_size(width_mm, height_mm),
        e is Some ==> entry_fields(e->0) == (EntryView {
            physical_width: width_mm as int,
            physical_height: height_mm as int,
            ..entry_fields(entry)
        }),
{
    entry.with_physical_dimensions(width_mm, height_mm).ok()
}

/// The fields of entries.
pub open spec fn all_fields(entries: Seq<MonitorLayoutEntry>) -> Seq<EntryView> {
    Seq::new(entries.len(), |i: int| entry_fields(entries[i]))
}

/// How many entries are primary.
pub open spec fn primary_entries(entries: Seq<EntryView>) -> nat
    decreases entries.len(),
{
    if entries.len() == 0 {
        0
    } else {
        primary_entries(entries.drop_last()) + if entries.last().is_primary {
            1nat
        } else {
            0
        }
    }
}

/// Entries that fit in one message: up to 1024, exactly one of them primary.
pub open spec fn fitting_entries(entries: Seq<EntryView>) -> bool {
    entries.len() <= 1024 && primary_entries(entries) == 1
}

/// `DisplayControlMonitorLayout::new` takes up to 1024 entries, exactly one of
/// them primary, and keeps them as they are.
#[verifier::external_body]
fn layout_message(entries: &[MonitorLayoutEntry]) -> (layout: Option<DisplayControlMonitorLayout>)
    ensures
        layout is Some <==> fitting_entries(all_fields(entries@)),
        layout is Some ==> layout_fields(layout->0) == all_fields(entries@),
{
    DisplayControlMonitorLayout::new(entries).ok()
}

/// The monitor can be told to the server.
pub open spec fn tellable(m: RdpMonitorInfo) -> bool {
    &&& tellable_size(m.width, m.height)
    &&& 100 <= m.scale_percent <= 500
    &&& m.physical_width_mm is Some && m.physical_height_mm is Some ==> tellable_physical_size(
        m.physical_width_mm->0,
        m.physical_height_mm->0,
    )
}

/// What the server is told of a monitor. A primary monitor is at the origin; the
/// physical size is told where both sides are known.
pub open spec fn told(m: RdpMonitorInfo) -> EntryView {
    let measured = m.physical_width_mm is Some && m.physical_height_mm is Some;
    EntryView {
        is_primary: m.is_primary,
        left: if m.is_primary {
            0
        } else {
            m.x as int
        },
        top: if m.is_primary {
            0
        } else {
            m.y as int
        },
        width: made_even(m.width),
        height: m.height as int,
        physical_width: if measured {
            m.physical_width_mm->0 as int
        } else {
            0
        },
        physical_height: if measured {
            m.physical_height_mm->0 as int
        } else {
            0
        },
        orientation: 0,
        desktop_scale_factor: m.scale_percent as int,
    }
}

/// What the server is told of monitors.
pub open spec fn told_all(monitors: Seq<RdpMonitorInfo>) -> Seq<EntryView> {
    Seq::new(monitors.len(), |i: int| told(monitors[i]))
}

/// All monitors can be told to the server.
pub open spec fn all_tellable(monitors: Seq<RdpMonitorInfo>) -> bool {
    forall|i: int| 0 <= i < monitors.len() ==> tellable(#[trigger] monitors[i])
}

/// Why the server cannot be told of the monitors.
#[derive(Debug)]
pub enum LayoutError {
    /// The layout is not a valid one.
    Invalid(String),
    /// The protocol cannot tell the layout.
    NotTellable,
    /// The channel is not there, or not open.
    Channel(&'static str),
}

/// The view of `LayoutError`.
pub enum LayoutErrorView {
    /// The layout is not a valid one.
    Invalid(Seq<char>),
    /// The protocol cannot tell the layout.
    NotTellable,
    /// The channel is not there, or not open.
    Channel(Seq<char>),
}

impl View for LayoutError {
    type V = LayoutErrorView;

    open spec fn view(&self) -> LayoutErrorView {
        match *self {
            LayoutError::Invalid(s) => LayoutErrorView::Invalid(s@),
            LayoutError::NotTellable => LayoutErrorView::NotTellable,
            LayoutError::Channel(s) => LayoutErrorView::Channel(s@),
        }
    }
}

/// The message that tells the server of the monitors, by its fields.
pub open spec fn told_layout(monitors: Seq<RdpMonitorInfo>) -> Result<
    Seq<EntryView>,
    LayoutErrorView,
> {
    match monitors::layout_fault(monitors) {
        Some(fault) => Err(LayoutErrorView::Invalid(fault)),
        None => if all_tellable(monitors) && monitors.len() <= 1024 {
            Ok(told_all(monitors))
        } else {
            Err(LayoutErrorView::NotTellable)
        },
    }
}

/// The entry of a monitor.
fn monitor_entry(m: &RdpMonitorInfo) -> (e: Option<MonitorLayoutEntry>)
    ensures
        e is Some <==> tellable(*m),
        e is Some ==> entry_fields(e->0) == told(*m),
{
    let bare = if m.is_primary {
        primary_entry(m.width, m.height)
    } else {
        secondary_entry(m.width, m.height)
    };
    let placed = match bare {
        Some(e) => if m.is_primary {
            Some(e)
        } else {
            placed_entry(e, m.x, m.y)
        },
        None => None,
    };
    let scaled = match placed {
        Some(e) => scaled_entry(e, m.scale_percent),
        None => None,
    };
    match scaled {
        Some(e) => {
            let turned = landscape_entry(e);
            match (m.physical_width_mm, m.physical_height_mm) {
                (Some(w), Some(h)) => measured_entry(turned, w, h),
                _ => Some(turned),
            }
        },
        None => None,
    }
}

/// As many entries are primary as monitors are.
proof fn lemma_primaries_told(monitors: Seq<RdpMonitorInfo>)
    ensures
        primary_entries(told_all(monitors)) == monitors::primary_count(monitors),
    decreases monitors.len(),
{
    if monitors.len() > 0 {
        lemma_primaries_told(monitors.drop_last());
        assert(told_all(monitors).drop_last() == told_all(monitors.drop_last()));
    }
}

/// The message that tells the server of the monitors.
pub fn build_monitor_layout(monitors: &[RdpMonitorInfo]) -> (r: Result<
    DisplayControlMonitorLayout,
    LayoutError,
>)
    ensures
        match r {
            Ok(l) => told_layout(monitors@) == Ok::<Seq<EntryView>, LayoutErrorView>(
                layout_fields(l),
            ),
            Err(e) => told_layout(monitors@) == Err::<Seq<EntryView>, LayoutErrorView>(e@),
        },
{
    if let Err(fault) = monitors::validate_monitor_layout(monitors) {
        return Err(LayoutError::Invalid(fault));
    }
    let mut entries: Vec<MonitorLayoutEntry> = Vec::new();
    let mut i: usize = 0;
    while i < monitors.len()
        invariant
            i <= monitors@.len(),
            monitors::layout_fault(monitors@) is None,
            entries@.len() == i,
            forall|j: int| 0 <= j < i ==> tellable(#[trigger] monitors@[j]),
            forall|j: int| 0 <= j < i ==> #[trigger] entry_fields(entries@[j]) == told(monitors@[j]),
        decreases monitors@.len() - i,
    {
        match monitor_entry(&monitors[i]) {
            Some(entry) => {
                entries.push(entry);
            },
            None => {
                assert(!tellable(monitors@[i as int]));
                return Err(LayoutError::NotTellable);
            },
        }
        i = i + 1;
    }
    proof {
        lemma_primaries_told(monitors@);
        assert(all_fields(entries@) == told_all(monitors@));
    }
    match layout_message(entries.as_slice()) {
        Some(layout) => Ok(layout),
        None => Err(LayoutError::NotTellable),
    }
}

/// The number of the channel to tell the layout on, from whether the session has
/// the channel, whether it is open, and its number.
pub fn layout_channel(found: bool, open: bool, channel_id: Option<u32>) -> (r: Result<
    u32,
    LayoutError,
>)
    ensures
        r is Ok <==> found && open && channel_id is Some,
        r matches Ok(id) ==> channel_id == Some(id),
        r matches Err(e) ==> e@ == LayoutErrorView::Channel(
            if !found {
                "DisplayControlClient not found in session"@
            } else if !open {
                "DISPLAYCONTROL channel not open (server may not support it)"@
            } else {
                "DISPLAYCONTROL channel has no ID"@
            },
        ),
{
    if !found {
        return Err(LayoutError::Channel("DisplayControlClient not found in session"));
    }
    if !open {
        return Err(
            LayoutError::Channel("DISPLAYCONTROL channel not open (server may not support it)"),
        );
    }
    match channel_id {
        Some(id) => Ok(id),
        None => Err(LayoutError::Channel("DISPLAYCONTROL channel has no ID")),
    }
}

/// What came of telling the server of the monitors.
#[derive(Debug, Clone, Copy, PartialEq, Eq, Structural)]
pub enum LayoutOutcome {
    /// The message could not be made.
    NotEncoded,
    /// There was nothing to send.
    NothingToSend,
    /// The message could not be sent.
    NotSent,
    /// The message was sent.
    Sent,
}

/// What the main thread is told of it: the spanned desktop where the message was
/// sent.
pub open spec fn layout_news(monitors: Seq<RdpMonitorInfo>, outcome: LayoutOutcome) -> Option<
    NewsView,
> {
    match outcome {
        LayoutOutcome::NothingToSend => None,
        LayoutOutcome::Sent => Some(
            NewsView::MonitorLayoutAccepted { desktop_size: monitors::spanned_desktop(monitors) },
        ),
        _ => Some(NewsView::MultiMonitorNotSupported),
    }
}

/// What the main thread is told of it: the spanned desktop where the message was
/// sent.
pub fn layout_report(monitors: &[RdpMonitorInfo], outcome: LayoutOutcome) -> (r: Option<FromNetwork>)
    requires
        outcome == LayoutOutcome::Sent ==> monitors::countable(monitors@),
    ensures
        match outcome {
            LayoutOutcome::NothingToSend => r is None,
            LayoutOutcome::Sent => r == Some(
                FromNetwork::MonitorLayoutAccepted {
                    desktop_size: monitors::spanned_desktop(monitors@),
                },
            ),
            _ => r == Some(FromNetwork::MultiMonitorNotSupported),
        },
        views::option_view(r) == layout_news(monitors@, outcome),
{
    match outcome {
        LayoutOutcome::NothingToSend => None,
        LayoutOutcome::Sent => Some(
            FromNetwork::MonitorLayoutAccepted {
                desktop_size: monitors::calculate_combined_desktop_size(monitors),
            },
        ),
        _ => Some(FromNetwork::MultiMonitorNotSupported),
    }
}

/// The server is told of every monitor, in the same order, and of exactly one
/// primary monitor, which is at the origin.
pub proof fn law_told_layout_has_one_primary(monitors: Seq<RdpMonitorInfo>)
    requires
        told_layout(monitors) is Ok,
    ensures
        told_layout(monitors)->Ok_0.len() == monitors.len(),
        primary_entries(told_layout(monitors)->Ok_0) == 1,
        forall|i: int|
            0 <= i < monitors.len() ==> (#[trigger] told_layout(monitors)->Ok_0[i]).is_primary
                == monitors[i].is_primary && (monitors[i].is_primary ==> told_layout(
                monitors,
            )->Ok_0[i].left == 0 && told_layout(monitors)->Ok_0[i].top == 0),
{
    lemma_primaries_told(monitors);
}

} // verus!
