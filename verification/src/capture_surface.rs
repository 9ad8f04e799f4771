//! The surfaces that cover the displays while a capture is shown and edited.

use std::collections::HashMap;
use vstd::prelude::*;

use crate::scale::{
    equal_numbers, finite_and_positive, is_finite_and_positive, numbers_equal,
};
use crate::text::{concat, decimal, push_decimal};

verus! {

broadcast use vstd::std_specs::hash::group_hash_axioms;

/// How often the displays are looked at, in nanoseconds.
pub const DISPLAY_REFRESH_INTERVAL: u128 = 1_000_000_000;

/// How far the wall clock has to have moved for hidden surfaces to be made anew, in
/// nanoseconds.
pub const COLD_REFRESH_WALL_CLOCK_GAP: i128 = 5_000_000_000;

/// What is known of a display: its number, its place in points (left, top, width, height)
/// and the bits of its scale factor.
#[derive(Clone, Copy)]
pub struct DisplaySnapshot {
    pub display_id: u32,
    pub bounds_global: [i32; 4],
    pub scale_factor: u32,
}

/// Why a surface cannot be shown.
pub enum CaptureSurfaceError {
    Monitor(String),
    InvalidDisplay(String),
    DisplayUnavailable(u32),
    Busy(u32),
    Native(String),
}

impl CaptureSurfaceError {
    /// The message shown to the user.
    pub open spec fn message(&self) -> Seq<char> {
        match self {
            CaptureSurfaceError::Monitor(reason) => "display discovery failed: "@ + reason@,
            CaptureSurfaceError::InvalidDisplay(reason) => "invalid display metadata: "@ + reason@,
            CaptureSurfaceError::DisplayUnavailable(id) => "display "@ + decimal(*id as nat)
                + " is no longer available"@,
            CaptureSurfaceError::Busy(id) => "capture surface for display "@ + decimal(*id as nat)
                + " is already active"@,
            CaptureSurfaceError::Native(reason) => "native capture surface failed: "@ + reason@,
        }
    }

    /// The message shown to the user.
    pub fn to_message(&self) -> (message: String)
        ensures
            message@ == self.message(),
    {
        match self {
            CaptureSurfaceError::Monitor(reason) =>
                concat("display discovery failed: ", reason.as_str()),
            CaptureSurfaceError::InvalidDisplay(reason) =>
                concat("invalid display metadata: ", reason.as_str()),
            CaptureSurfaceError::DisplayUnavailable(id) => {
                let mut message = "display ".to_owned();
                push_decimal(&mut message, *id as u64);
                message.append(" is no longer available");
                message
            },
            CaptureSurfaceError::Busy(id) => {
                let mut message = "capture surface for display ".to_owned();
                push_decimal(&mut message, *id as u64);
                message.append(" is already active");
                message
            },
            CaptureSurfaceError::Native(reason) =>
                concat("native capture surface failed: ", reason.as_str()),
        }
    }
}

/// Whether `result` says that a display cannot be used, for the reason `reason`.
pub open spec fn invalid_display<T>(
    result: Result<T, CaptureSurfaceError>,
    reason: Seq<char>,
) -> bool {
    &&& result matches Err(error)
    &&& error matches CaptureSurfaceError::InvalidDisplay(text)
    &&& text@ == reason
}

/// What a monitor says of itself; each answer may fail.
pub struct MonitorReading {
    pub display_id: Result<u32, String>,
    pub x: Result<i32, String>,
    pub y: Result<i32, String>,
    pub width: Result<u32, String>,
    pub height: Result<u32, String>,
    pub scale_factor: Result<u32, String>,
}

impl MonitorReading {
    /// The first answer that failed, in the order in which they are asked for.
    pub open spec fn first_failure(&self) -> Option<Seq<char>> {
        match (self.display_id, self.x, self.y, self.scale_factor) {
            (Err(error), _, _, _) => Some(error@),
            (_, Err(error), _, _) => Some(error@),
            (_, _, Err(error), _) => Some(error@),
            (_, _, _, Err(error)) => Some(error@),
            _ => None,
        }
    }
}

/// Whether `result` says that a monitor could not be asked.
pub open spec fn monitor_failed<T>(
    result: Result<T, CaptureSurfaceError>,
    reason: Seq<char>,
) -> bool {
    &&& result matches Err(error)
    &&& error matches CaptureSurfaceError::Monitor(text)
    &&& text@ == reason
}

/// Whether `snapshot` is what a monitor says of itself, or the first fault of that.
pub open spec fn snapshot_of(
    reading: MonitorReading,
    snapshot: Result<DisplaySnapshot, CaptureSurfaceError>,
) -> bool {
    match (reading.width, reading.height) {
        (Err(error), _) => monitor_failed(snapshot, error@),
        (_, Err(error)) => monitor_failed(snapshot, error@),
        (Ok(width), Ok(height)) => if width > i32::MAX {
            invalid_display(snapshot, "display width is too large"@)
        } else if height > i32::MAX {
            invalid_display(snapshot, "display height is too large"@)
        } else {
            match reading.first_failure() {
                Some(error) => monitor_failed(snapshot, error),
                None => if width == 0 || height == 0 {
                    invalid_display(snapshot, "display bounds must have positive dimensions"@)
                } else if !finite_and_positive(reading.scale_factor->Ok_0) {
                    invalid_display(
                        snapshot,
                        "display scale factor must be finite and positive"@,
                    )
                } else {
                    &&& snapshot matches Ok(display)
                    &&& display.display_id == reading.display_id->Ok_0
                    &&& display.bounds_global@ == seq![
                        reading.x->Ok_0,
                        reading.y->Ok_0,
                        width as i32,
                        height as i32,
                    ]
                    &&& display.scale_factor == reading.scale_factor->Ok_0
                },
            }
        },
    }
}

/// Whether a monitor says all that is needed of itself.
pub open spec fn readable(reading: MonitorReading) -> bool {
    exists|display: DisplaySnapshot| #[trigger] snapshot_of(reading, Ok(display))
}

/// Whether a monitor is the first that does not, and with which fault.
pub open spec fn failed_at(
    readings: Seq<MonitorReading>,
    error: CaptureSurfaceError,
    at: int,
) -> bool {
    &&& 0 <= at < readings.len()
    &&& snapshot_of(readings[at], Err(error))
    &&& forall|j: int| 0 <= j < at ==> readable(#[trigger] readings[j])
}

/// The displays that there are, from what the monitors say of themselves: the first fault
/// counts.
pub fn available_displays(readings: Result<Vec<MonitorReading>, String>) -> (displays: Result<
    Vec<DisplaySnapshot>,
    CaptureSurfaceError,
>)
    ensures
        match readings {
            Err(error) => displays == Err::<Vec<DisplaySnapshot>, CaptureSurfaceError>(
                CaptureSurfaceError::Monitor(error),
            ),
            Ok(list) => match displays {
                Ok(displays) => {
                    &&& displays@.len() == list@.len()
                    &&& forall|i: int|
                        0 <= i < list@.len() ==> snapshot_of(
                            list@[i],
                            Ok(#[trigger] displays@[i]),
                        )
                },
                Err(error) => exists|i: int| #[trigger] failed_at(list@, error, i),
            },
        },
{
    let list = match readings {
        Ok(list) => list,
        Err(error) => {
            return Err(CaptureSurfaceError::Monitor(error));
        },
    };
    let ghost all = list@;
    let mut rest = list;
    let mut displays: Vec<DisplaySnapshot> = Vec::new();
    let n: usize = rest.len();
    let mut i: usize = 0;
    assert(rest@ =~= all.skip(0));
    while i < n
        invariant
            i <= n == all.len(),
            readings == Ok::<Vec<MonitorReading>, String>(list),
            all == list@,
            rest@ == all.skip(i as int),
            displays@.len() == i,
            forall|j: int| 0 <= j < i ==> snapshot_of(all[j], Ok(#[trigger] displays@[j])),
            forall|j: int| 0 <= j < i ==> readable(#[trigger] all[j]),
        decreases n - i,
    {
        let reading = rest.remove(0);
        assert(reading == all[i as int]);
        assert(rest@ =~= all.skip(i + 1));
        match DisplaySnapshot::from_monitor(reading) {
            Ok(display) => {
                assert(snapshot_of(all[i as int], Ok(display)));
                displays.push(display);
            },
            Err(error) => {
                assert(failed_at(readings->Ok_0@, error, i as int));
                return Err(error);
            },
        }
        i = i + 1;
    }
    Ok(displays)
}

/// What marks the windows that cover a display.
pub open spec fn overlay_title(display_id: u32) -> Seq<char> {
    "RS Board Capture Overlay ["@ + decimal(display_id as nat) + "]"@
}

/// What marks the window that covers a display.
pub fn capture_overlay_title(display_id: u32) -> (title: String)
    ensures
        title@ == overlay_title(display_id),
{
    let mut title = "RS Board Capture Overlay [".to_owned();
    push_decimal(&mut title, display_id as u64);
    title.append("]");
    title
}

/// The sum of two coordinates, held to what they can be.
pub open spec fn clamped_sum(left: i32, right: i32) -> i32 {
    if left + right > i32::MAX {
        i32::MAX
    } else if left + right < i32::MIN {
        i32::MIN
    } else {
        (left + right) as i32
    }
}

fn add_clamped(left: i32, right: i32) -> (sum: i32)
    ensures
        sum == clamped_sum(left, right),
{
    let sum: i64 = left as i64 + right as i64;
    if sum > i32::MAX as i64 {
        i32::MAX
    } else if sum < i32::MIN as i64 {
        i32::MIN
    } else {
        sum as i32
    }
}

impl DisplaySnapshot {
    /// Whether two snapshots say the same.
    pub open spec fn same(self, other: DisplaySnapshot) -> bool {
        &&& self.display_id == other.display_id
        &&& self.bounds_global@ == other.bounds_global@
        &&& equal_numbers(self.scale_factor, other.scale_factor)
    }

    /// Whether two snapshots say the same.
    pub fn equals(self, other: DisplaySnapshot) -> (equal: bool)
        ensures
            equal == self.same(other),
    {
        self.display_id == other.display_id && bounds_equal(
            self.bounds_global,
            other.bounds_global,
        ) && numbers_equal(self.scale_factor, other.scale_factor)
    }

    /// Checks that the display has an extent and a scale factor that is a finite number
    /// above zero.
    pub fn validate(self) -> (checked: Result<(), CaptureSurfaceError>)
        ensures
            if self.bounds_global@[2] <= 0 || self.bounds_global@[3] <= 0 {
                invalid_display(checked, "display bounds must have positive dimensions"@)
            } else if !finite_and_positive(self.scale_factor) {
                invalid_display(checked, "display scale factor must be finite and positive"@)
            } else {
                checked is Ok
            },
    {
        if self.bounds_global[2] <= 0 || self.bounds_global[3] <= 0 {
            return Err(
                CaptureSurfaceError::InvalidDisplay(
                    "display bounds must have positive dimensions".to_owned(),
                ),
            );
        }
        if !is_finite_and_positive(self.scale_factor) {
            return Err(
                CaptureSurfaceError::InvalidDisplay(
                    "display scale factor must be finite and positive".to_owned(),
                ),
            );
        }
        Ok(())
    }

    /// What a monitor says of itself.
    pub fn from_monitor(reading: MonitorReading) -> (snapshot: Result<Self, CaptureSurfaceError>)
        ensures
            snapshot_of(reading, snapshot),
    {
        let width: u32 = match reading.width {
            Ok(width) => width,
            Err(error) => {
                return Err(CaptureSurfaceError::Monitor(error));
            },
        };
        let height: u32 = match reading.height {
            Ok(height) => height,
            Err(error) => {
                return Err(CaptureSurfaceError::Monitor(error));
            },
        };
        if width > i32::MAX as u32 {
            return Err(
                CaptureSurfaceError::InvalidDisplay("display width is too large".to_owned()),
            );
        }
        if height > i32::MAX as u32 {
            return Err(
                CaptureSurfaceError::InvalidDisplay("display height is too large".to_owned()),
            );
        }
        let display_id: u32 = match reading.display_id {
            Ok(display_id) => display_id,
            Err(error) => {
                return Err(CaptureSurfaceError::Monitor(error));
            },
        };
        let x: i32 = match reading.x {
            Ok(x) => x,
            Err(error) => {
                return Err(CaptureSurfaceError::Monitor(error));
            },
        };
        let y: i32 = match reading.y {
            Ok(y) => y,
            Err(error) => {
                return Err(CaptureSurfaceError::Monitor(error));
            },
        };
        let scale_factor: u32 = match reading.scale_factor {
            Ok(scale_factor) => scale_factor,
            Err(error) => {
                return Err(CaptureSurfaceError::Monitor(error));
            },
        };
        let bounds_global: [i32; 4] = [x, y, width as i32, height as i32];
        assert(bounds_global@ =~= seq![x, y, width as i32, height as i32]);
        let snapshot = DisplaySnapshot { display_id, bounds_global, scale_factor };
        match snapshot.validate() {
            Ok(()) => Ok(snapshot),
            Err(error) => Err(error),
        }
    }

    /// Whether a point lies on the display.
    pub open spec fn covers(self, point: Seq<i32>) -> bool {
        let bounds = self.bounds_global@;
        &&& bounds[0] <= point[0] < clamped_sum(bounds[0], bounds[2])
        &&& bounds[1] <= point[1] < clamped_sum(bounds[1], bounds[3])
    }

    /// Whether a point lies on the display.
    pub fn contains(self, point: [i32; 2]) -> (yes: bool)
        ensures
            yes == self.covers(point@),
    {
        let bounds = self.bounds_global;
        point[0] >= bounds[0] && point[0] < add_clamped(bounds[0], bounds[2]) && point[1]
            >= bounds[1] && point[1] < add_clamped(bounds[1], bounds[3])
    }
}

/// Whether two places are the same.
fn bounds_equal(left: [i32; 4], right: [i32; 4]) -> (equal: bool)
    ensures
        equal == (left@ == right@),
{
    let equal = left[0] == right[0] && left[1] == right[1] && left[2] == right[2] && left[3]
        == right[3];
    assert(equal ==> left@ =~= right@);
    equal
}

/// What a surface is used for.
#[derive(Clone, Copy, PartialEq, Eq, Structural)]
pub enum SurfaceLifecycle {
    Hidden,
    Presenting { request_id: u128 },
    Editing { session_id: u128 },
}

/// How the window that covers a display is set up.
pub struct ViewportSettings {
    pub title: String,
    pub position: [i32; 2],
    pub size: [i32; 2],
    pub mouse_passthrough: bool,
    pub active: bool,
    pub visible: bool,
}

/// A surface and how its window is set up.
pub struct SurfaceViewport {
    pub display: DisplaySnapshot,
    pub lifecycle: SurfaceLifecycle,
    pub settings: ViewportSettings,
}

impl SurfaceViewport {
    /// Whether the surface is used.
    pub fn is_active(&self) -> (active: bool)
        ensures
            active == !(self.lifecycle is Hidden),
    {
        self.lifecycle != SurfaceLifecycle::Hidden
    }
}

/// The surface of a display. While it is used it keeps the display as it was; what changed
/// since waits.
#[derive(Clone, Copy)]
pub struct DisplayCaptureSurface {
    pub display: DisplaySnapshot,
    pub lifecycle: SurfaceLifecycle,
    pub pending_display: Option<DisplaySnapshot>,
}

/// A surface that was never used.
pub open spec fn fresh(display: DisplaySnapshot) -> DisplayCaptureSurface {
    DisplayCaptureSurface { display, lifecycle: SurfaceLifecycle::Hidden, pending_display: None }
}

/// A surface after its display was looked at again.
pub open spec fn updated(
    surface: DisplayCaptureSurface,
    display: DisplaySnapshot,
) -> DisplayCaptureSurface {
    if surface.lifecycle is Hidden {
        DisplayCaptureSurface { display, ..surface }
    } else if !surface.display.same(display) {
        DisplayCaptureSurface { pending_display: Some(display), ..surface }
    } else {
        surface
    }
}

/// A surface that is no longer used: it takes on what changed meanwhile.
pub open spec fn hidden(surface: DisplayCaptureSurface) -> DisplayCaptureSurface {
    DisplayCaptureSurface {
        lifecycle: SurfaceLifecycle::Hidden,
        display: match surface.pending_display {
            Some(display) => display,
            None => surface.display,
        },
        pending_display: None,
    }
}

impl DisplayCaptureSurface {
    /// A surface that was never used.
    pub fn new(display: DisplaySnapshot) -> (surface: Self)
        ensures
            surface == fresh(display),
    {
        DisplayCaptureSurface {
            display,
            lifecycle: SurfaceLifecycle::Hidden,
            pending_display: None,
        }
    }

    /// The surface after its display was looked at again.
    pub fn update_display(self, display: DisplaySnapshot) -> (surface: Self)
        ensures
            surface == updated(self, display),
    {
        if self.lifecycle == SurfaceLifecycle::Hidden {
            DisplayCaptureSurface { display, ..self }
        } else if !self.display.equals(display) {
            DisplayCaptureSurface { pending_display: Some(display), ..self }
        } else {
            self
        }
    }

    /// The surface once it is no longer used.
    pub fn put_away(self) -> (surface: Self)
        ensures
            surface == hidden(self),
    {
        DisplayCaptureSurface {
            lifecycle: SurfaceLifecycle::Hidden,
            display: match self.pending_display {
                Some(display) => display,
                None => self.display,
            },
            pending_display: None,
        }
    }

    /// Whether `viewport` shows this surface, in a window that is seen and takes the mouse
    /// only while the surface is used.
    pub open spec fn shown_in(&self, viewport: SurfaceViewport) -> bool {
        let visible = !(self.lifecycle is Hidden);
        let bounds = self.display.bounds_global@;
        &&& viewport.display == self.display
        &&& viewport.lifecycle == self.lifecycle
        &&& viewport.settings.title@ == overlay_title(self.display.display_id)
        &&& viewport.settings.position@ == seq![bounds[0], bounds[1]]
        &&& viewport.settings.size@ == seq![bounds[2], bounds[3]]
        &&& viewport.settings.visible == visible
        &&& viewport.settings.active == visible
        &&& viewport.settings.mouse_passthrough == !visible
    }

    /// Whether `viewport` keeps this surface's window, seen but let through by the mouse.
    pub open spec fn kept_in(&self, viewport: SurfaceViewport) -> bool {
        let bounds = self.display.bounds_global@;
        &&& viewport.display == self.display
        &&& viewport.lifecycle == self.lifecycle
        &&& viewport.settings.title@ == overlay_title(self.display.display_id)
        &&& viewport.settings.position@ == seq![bounds[0], bounds[1]]
        &&& viewport.settings.size@ == seq![bounds[2], bounds[3]]
        &&& viewport.settings.visible
        &&& viewport.settings.active
        &&& viewport.settings.mouse_passthrough
    }

    /// The window of this surface.
    pub fn surface_viewport(&self) -> (viewport: SurfaceViewport)
        ensures
            self.shown_in(viewport),
    {
        let visible = self.lifecycle != SurfaceLifecycle::Hidden;
        let bounds = self.display.bounds_global;
        let position: [i32; 2] = [bounds[0], bounds[1]];
        let size: [i32; 2] = [bounds[2], bounds[3]];
        assert(position@ =~= seq![bounds@[0], bounds@[1]]);
        assert(size@ =~= seq![bounds@[2], bounds@[3]]);
        SurfaceViewport {
            display: self.display,
            lifecycle: self.lifecycle,
            settings: ViewportSettings {
                title: capture_overlay_title(self.display.display_id),
                position,
                size,
                mouse_passthrough: !visible,
                active: visible,
                visible,
            },
        }
    }

    /// The window of this surface once it is no longer used.
    pub fn retained_surface_viewport(&self) -> (viewport: SurfaceViewport)
        ensures
            self.kept_in(viewport),
    {
        let mut viewport = self.surface_viewport();
        viewport.settings.visible = true;
        viewport.settings.active = true;
        viewport.settings.mouse_passthrough = true;
        viewport
    }
}

/// What came of looking at the displays.
#[derive(Clone, Copy, PartialEq, Eq, Structural)]
pub enum DisplayRefreshOutcome {
    Unchanged,
    DisplaysChanged,
    ActiveDisplayRemoved(u32),
}

/// The surfaces of all displays.
pub struct CaptureSurfaceCoordinator {
    pub surfaces: HashMap<u32, DisplayCaptureSurface>,
    pub active_display_id: Option<u32>,
    pub retained_display_id: Option<u32>,
    /// The moment the displays were last looked at, in nanoseconds.
    pub last_refresh: u128,
    /// The same moment on the wall clock, in nanoseconds from the Unix epoch.
    pub last_refresh_wall_clock: i128,
}

/// Whether a display is among `displays`.
pub open spec fn available(displays: Seq<DisplaySnapshot>, id: u32) -> bool {
    exists|i: int| 0 <= i < displays.len() && (#[trigger] displays[i]).display_id == id
}

/// The surfaces after each display was looked at again: a display without a surface gets
/// one.
pub open spec fn with_displays(
    surfaces: Map<u32, DisplayCaptureSurface>,
    displays: Seq<DisplaySnapshot>,
) -> Map<u32, DisplayCaptureSurface>
    decreases displays.len(),
{
    if displays.len() == 0 {
        surfaces
    } else {
        let before = with_displays(surfaces, displays.drop_last());
        let display = displays.last();
        before.insert(
            display.display_id,
            if before.contains_key(display.display_id) {
                updated(before[display.display_id], display)
            } else {
                fresh(display)
            },
        )
    }
}

/// Whether the displays are others than the surfaces know.
pub open spec fn displays_differ(
    surfaces: Map<u32, DisplayCaptureSurface>,
    displays: Seq<DisplaySnapshot>,
) -> bool {
    displays.len() != surfaces.len() || exists|i: int|
        0 <= i < displays.len() && !known_as_is(surfaces, #[trigger] displays[i])
}

/// Whether a display has a surface that knows it as it is.
pub open spec fn known_as_is(
    surfaces: Map<u32, DisplayCaptureSurface>,
    display: DisplaySnapshot,
) -> bool {
    surfaces.contains_key(display.display_id) && surfaces[display.display_id].display.same(display)
}

/// The surfaces that stay: those of displays that are there, and those that are used or
/// were used last.
pub open spec fn stays(
    surface: DisplayCaptureSurface,
    id: u32,
    displays: Seq<DisplaySnapshot>,
    active: Option<u32>,
    retained: Option<u32>,
) -> bool {
    available(displays, id) || active == Some(id) || retained == Some(id) || !(surface.lifecycle
        is Hidden)
}

/// What came of looking at the displays.
pub open spec fn refresh_outcome(
    coordinator: CaptureSurfaceCoordinator,
    displays: Seq<DisplaySnapshot>,
) -> DisplayRefreshOutcome {
    match coordinator.active_display_id {
        Some(active) if !available(displays, active) =>
            DisplayRefreshOutcome::ActiveDisplayRemoved(active),
        _ => if displays_differ(coordinator.surfaces@, displays) {
            DisplayRefreshOutcome::DisplaysChanged
        } else {
            DisplayRefreshOutcome::Unchanged
        },
    }
}

/// The surfaces after the displays were looked at.
pub open spec fn refreshed_surfaces(
    coordinator: CaptureSurfaceCoordinator,
    displays: Seq<DisplaySnapshot>,
) -> Map<u32, DisplayCaptureSurface> {
    let touched = with_displays(coordinator.surfaces@, displays);
    Map::new(
        |id: u32|
            touched.contains_key(id) && stays(
                touched[id],
                id,
                displays,
                coordinator.active_display_id,
                coordinator.retained_display_id,
            ),
        |id: u32| touched[id],
    )
}

/// Whether the wall clock has moved so far that hidden surfaces are made anew.
pub open spec fn cold(then: i128, now: i128) -> bool {
    now - then >= COLD_REFRESH_WALL_CLOCK_GAP
}

/// The surfaces with every hidden one made anew.
pub open spec fn cold_surfaces(surfaces: Map<u32, DisplayCaptureSurface>) -> Map<
    u32,
    DisplayCaptureSurface,
> {
    surfaces.map_values(
        |surface: DisplayCaptureSurface|
            if surface.lifecycle is Hidden {
                fresh(surface.display)
            } else {
                surface
            },
    )
}

/// The displays that have surfaces, each once.
fn surface_ids(surfaces: &HashMap<u32, DisplayCaptureSurface>) -> (ids: Vec<u32>)
    ensures
        ids@.no_duplicates(),
        forall|id: u32| #[trigger] ids@.contains(id) <==> surfaces@.contains_key(id),
{
    let mut ids: Vec<u32> = Vec::new();
    for id in iter: surfaces.keys()
        invariant
            iter.seq() == vstd::std_specs::iter::IteratorSpec::remaining(
                &vstd::std_specs::hash::spec_keys_iter(surfaces),
            ),
            ids@.len() == iter.index(),
            forall|j: int| 0 <= j < ids@.len() ==> #[trigger] ids@[j] == *iter.seq()[j],
    {
        ids.push(*id);
    }
    proof {
        let keys = vstd::std_specs::iter::IteratorSpec::remaining(
            &vstd::std_specs::hash::spec_keys_iter(surfaces),
        );
        assert(ids@ =~= keys.unref());
        assert(ids@.to_set() == surfaces@.dom());
        assert forall|id: u32| #[trigger] ids@.contains(id) <==> surfaces@.contains_key(id) by {
            assert(ids@.to_set().contains(id) <==> ids@.contains(id));
        }
    }
    ids
}

/// The displays that have surfaces, by rising number.
fn sorted_surface_ids(surfaces: &HashMap<u32, DisplayCaptureSurface>) -> (ids: Vec<u32>)
    ensures
        forall|i: int, j: int| 0 <= i < j < ids@.len() ==> ids@[i] < ids@[j],
        forall|id: u32| #[trigger] ids@.contains(id) <==> surfaces@.contains_key(id),
{
    let unsorted = surface_ids(surfaces);
    let mut ids: Vec<u32> = Vec::new();
    for n in 0..unsorted.len()
        invariant
            unsorted@.no_duplicates(),
            forall|id: u32| #[trigger] unsorted@.contains(id) <==> surfaces@.contains_key(id),
            forall|i: int, j: int| 0 <= i < j < ids@.len() ==> ids@[i] < ids@[j],
            forall|id: u32| #[trigger]
                ids@.contains(id) <==> exists|k: int| 0 <= k < n && #[trigger] unsorted@[k] == id,
    {
        let id: u32 = unsorted[n];
        let ghost earlier = ids@;
        assert(!earlier.contains(id));
        let mut at: usize = 0;
        while at < ids.len() && ids[at] < id
            invariant
                at <= ids@.len(),
                forall|i: int| 0 <= i < at ==> #[trigger] ids@[i] < id,
            decreases ids@.len() - at,
        {
            at = at + 1;
        }
        assert forall|i: int| at <= i < earlier.len() implies id < #[trigger] earlier[i] by {
            assert(earlier.contains(earlier[i]));
            if at < i {
                assert(earlier[at as int] < earlier[i]);
            }
            assert(earlier.contains(earlier[at as int]));
        }
        ids.insert(at, id);
        assert forall|x: u32| #[trigger] ids@.contains(x) <==> exists|k: int|
            0 <= k < n + 1 && #[trigger] unsorted@[k] == x by {
            if ids@.contains(x) {
                let i = choose|i: int| 0 <= i < ids@.len() && ids@[i] == x;
                if i < at {
                    assert(earlier[i] == x);
                    assert(earlier.contains(x));
                } else if i > at {
                    assert(earlier[i - 1] == x);
                    assert(earlier.contains(x));
                } else {
                    assert(unsorted@[n as int] == x);
                }
            }
            if exists|k: int| 0 <= k < n + 1 && #[trigger] unsorted@[k] == x {
                let k = choose|k: int| 0 <= k < n + 1 && #[trigger] unsorted@[k] == x;
                if k == n {
                    assert(ids@[at as int] == x);
                } else {
                    assert(earlier.contains(x));
                    let i = choose|i: int| 0 <= i < earlier.len() && earlier[i] == x;
                    if i < at {
                        assert(ids@[i] == x);
                    } else {
                        assert(ids@[i + 1] == x);
                    }
                }
            }
        }
    }
    assert forall|id: u32| #[trigger] ids@.contains(id) <==> surfaces@.contains_key(id) by {
        if unsorted@.contains(id) {
            let k = choose|k: int| 0 <= k < unsorted@.len() && unsorted@[k] == id;
            assert(unsorted@[k] == id);
        }
        if ids@.contains(id) {
            let k = choose|k: int| 0 <= k < unsorted@.len() && #[trigger] unsorted@[k] == id;
            assert(unsorted@.contains(id));
        }
    }
    ids
}

impl CaptureSurfaceCoordinator {
    /// Every surface is that of its own display; the active one is used and no other is;
    /// the one used last has a surface and is not the active one.
    pub open spec fn well_formed(&self) -> bool {
        &&& forall|id: u32| #[trigger]
            self.surfaces@.contains_key(id) ==> {
                &&& self.surfaces@[id].display.display_id == id
                &&& self.surfaces@[id].pending_display matches Some(display)
                    ==> display.display_id == id
                &&& self.surfaces@[id].lifecycle is Hidden <==> self.active_display_id != Some(id)
            }
        &&& self.active_display_id matches Some(id) ==> self.surfaces@.contains_key(id)
        &&& self.retained_display_id matches Some(id) ==> self.surfaces@.contains_key(id)
            && self.active_display_id != Some(id)
    }

    /// The coordinator before any display was looked at.
    pub fn new(now: u128, wall_clock: i128) -> (coordinator: Self)
        ensures
            coordinator.well_formed(),
            coordinator.surfaces@ == Map::<u32, DisplayCaptureSurface>::empty(),
            coordinator.active_display_id is None,
            coordinator.retained_display_id is None,
            coordinator.last_refresh == now,
            coordinator.last_refresh_wall_clock == wall_clock,
    {
        CaptureSurfaceCoordinator {
            surfaces: HashMap::new(),
            active_display_id: None,
            retained_display_id: None,
            last_refresh: now,
            last_refresh_wall_clock: wall_clock,
        }
    }

    /// Whether the displays have to be looked at again.
    pub fn should_refresh(&self, now: u128, wall_clock: i128) -> (due: bool)
        ensures
            due == (now >= self.last_refresh + DISPLAY_REFRESH_INTERVAL || cold(
                self.last_refresh_wall_clock,
                wall_clock,
            )),
    {
        let passed: u128 = if now > self.last_refresh {
            now - self.last_refresh
        } else {
            0
        };
        passed >= DISPLAY_REFRESH_INTERVAL || is_cold(self.last_refresh_wall_clock, wall_clock)
    }

    /// Takes in the displays that there are.
    pub fn refresh(&mut self, displays: &Vec<DisplaySnapshot>) -> (outcome: DisplayRefreshOutcome)
        requires
            old(self).well_formed(),
        ensures
            final(self).well_formed(),
            outcome == refresh_outcome(*old(self), displays@),
            final(self).surfaces@ == refreshed_surfaces(*old(self), displays@),
            *final(self) == (CaptureSurfaceCoordinator {
                surfaces: final(self).surfaces,
                ..*old(self)
            }),
    {
        let changed = self.differs(displays);
        let removed_active: Option<u32> = match self.active_display_id {
            Some(active) => {
                if is_available(displays, active) {
                    None
                } else {
                    Some(active)
                }
            },
            None => None,
        };
        let ghost before = self.surfaces@;
        for i in 0..displays.len()
            invariant
                self.surfaces@ == with_displays(before, displays@.take(i as int)),
                *self == (CaptureSurfaceCoordinator { surfaces: self.surfaces, ..*old(self) }),
        {
            let display: DisplaySnapshot = displays[i];
            proof {
                assert(displays@.take(i + 1).drop_last() =~= displays@.take(i as int));
                assert(displays@.take(i + 1).last() == display);
            }
            let surface = match self.surfaces.get(&display.display_id) {
                Some(surface) => surface.update_display(display),
                None => DisplayCaptureSurface::new(display),
            };
            self.surfaces.insert(display.display_id, surface);
        }
        assert(displays@.take(displays@.len() as int) =~= displays@);
        let ghost touched = self.surfaces@;
        let ids = surface_ids(&self.surfaces);
        for n in 0..ids.len()
            invariant
                touched == with_displays(before, displays@),
                *self == (CaptureSurfaceCoordinator { surfaces: self.surfaces, ..*old(self) }),
                forall|id: u32| #[trigger] ids@.contains(id) <==> touched.contains_key(id),
                forall|id: u32| #[trigger]
                    self.surfaces@.contains_key(id) <==> touched.contains_key(id) && (stays(
                        touched[id],
                        id,
                        displays@,
                        old(self).active_display_id,
                        old(self).retained_display_id,
                    ) || !(exists|k: int| 0 <= k < n && #[trigger] ids@[k] == id)),
                forall|id: u32| #[trigger]
                    self.surfaces@.contains_key(id) ==> self.surfaces@[id] == touched[id],
        {
            let id: u32 = ids[n];
            assert(ids@.contains(ids@[n as int]));
            let is_active = match self.active_display_id {
                Some(active) => active == id,
                None => false,
            };
            let is_retained = match self.retained_display_id {
                Some(retained) => retained == id,
                None => false,
            };
            let is_used = match self.surfaces.get(&id) {
                Some(surface) => surface.lifecycle != SurfaceLifecycle::Hidden,
                None => false,
            };
            let keep = is_available(displays, id) || is_active || is_retained || is_used;
            if !keep {
                self.surfaces.remove(&id);
            }
            assert(ids@[n as int] == id);
        }
        proof {
            assert forall|id: u32| #[trigger] self.surfaces@.contains_key(id) <==> refreshed_surfaces(
                *old(self),
                displays@,
            ).contains_key(id) by {
                if touched.contains_key(id) {
                    assert(ids@.contains(id));
                    let k = choose|k: int| 0 <= k < ids@.len() && ids@[k] == id;
                    assert(ids@[k] == id);
                }
            }
            assert(self.surfaces@ =~= refreshed_surfaces(*old(self), displays@));
            lemma_refreshed(*old(self), displays@);
        }
        match removed_active {
            Some(display_id) => DisplayRefreshOutcome::ActiveDisplayRemoved(display_id),
            None => {
                if changed {
                    DisplayRefreshOutcome::DisplaysChanged
                } else {
                    DisplayRefreshOutcome::Unchanged
                }
            },
        }
    }

    /// Whether the displays are others than the surfaces know.
    fn differs(&self, displays: &Vec<DisplaySnapshot>) -> (differ: bool)
        ensures
            differ == displays_differ(self.surfaces@, displays@),
    {
        if displays.len() != self.surfaces.len() {
            return true;
        }
        for i in 0..displays.len()
            invariant
                forall|j: int|
                    0 <= j < i ==> known_as_is(self.surfaces@, #[trigger] displays@[j]),
        {
            let known = match self.surfaces.get(&displays[i].display_id) {
                Some(surface) => surface.display.equals(displays[i]),
                None => false,
            };
            if !known {
                assert(!known_as_is(self.surfaces@, displays@[i as int]));
                return true;
            }
        }
        false
    }

    /// Takes in what came of listing the displays at a moment. The moment counts as that of
    /// the last look even where the displays could not be listed; nothing else changes then.
    pub fn refresh_available_displays(
        &mut self,
        displays: Result<Vec<DisplaySnapshot>, CaptureSurfaceError>,
        now: u128,
        wall_clock: i128,
    ) -> (outcome: Result<DisplayRefreshOutcome, CaptureSurfaceError>)
        requires
            old(self).well_formed(),
        ensures
            final(self).well_formed(),
            match displays {
                Err(error) => {
                    &&& outcome == Err::<DisplayRefreshOutcome, CaptureSurfaceError>(error)
                    &&& *final(self) == (CaptureSurfaceCoordinator {
                        last_refresh: now,
                        ..*old(self)
                    })
                },
                Ok(displays) => {
                    let warm = refresh_outcome(*old(self), displays@);
                    let surfaces = refreshed_surfaces(*old(self), displays@);
                    let gap = cold(old(self).last_refresh_wall_clock, wall_clock);
                    &&& outcome == Ok::<DisplayRefreshOutcome, CaptureSurfaceError>(
                        if gap && !(warm is ActiveDisplayRemoved) {
                            DisplayRefreshOutcome::DisplaysChanged
                        } else {
                            warm
                        },
                    )
                    &&& final(self).surfaces@ == if gap {
                        cold_surfaces(surfaces)
                    } else {
                        surfaces
                    }
                    &&& *final(self) == (CaptureSurfaceCoordinator {
                        surfaces: final(self).surfaces,
                        last_refresh: now,
                        last_refresh_wall_clock: wall_clock,
                        ..*old(self)
                    })
                },
            },
    {
        self.last_refresh = now;
        match displays {
            Err(error) => Err(error),
            Ok(displays) => Ok(self.refresh_after_wall_clock_gap(&displays, wall_clock)),
        }
    }

    /// Takes in the displays that there are at a moment of the wall clock: after a long gap
    /// hidden surfaces are made anew, and the displays count as changed.
    pub fn refresh_after_wall_clock_gap(
        &mut self,
        displays: &Vec<DisplaySnapshot>,
        now: i128,
    ) -> (outcome: DisplayRefreshOutcome)
        requires
            old(self).well_formed(),
        ensures
            final(self).well_formed(),
            ({
                let warm = refresh_outcome(*old(self), displays@);
                let surfaces = refreshed_surfaces(*old(self), displays@);
                if cold(old(self).last_refresh_wall_clock, now) {
                    &&& outcome == if warm is ActiveDisplayRemoved {
                        warm
                    } else {
                        DisplayRefreshOutcome::DisplaysChanged
                    }
                    &&& final(self).surfaces@ == cold_surfaces(surfaces)
                } else {
                    &&& outcome == warm
                    &&& final(self).surfaces@ == surfaces
                }
            }),
            *final(self) == (CaptureSurfaceCoordinator {
                surfaces: final(self).surfaces,
                last_refresh_wall_clock: now,
                ..*old(self)
            }),
    {
        let cold_refresh = is_cold(self.last_refresh_wall_clock, now);
        self.last_refresh_wall_clock = now;
        let outcome = self.refresh(displays);
        if !cold_refresh {
            return outcome;
        }
        self.make_hidden_anew();
        match outcome {
            DisplayRefreshOutcome::ActiveDisplayRemoved(_) => outcome,
            _ => DisplayRefreshOutcome::DisplaysChanged,
        }
    }

    fn make_hidden_anew(&mut self)
        requires
            old(self).well_formed(),
        ensures
            final(self).well_formed(),
            final(self).surfaces@ == cold_surfaces(old(self).surfaces@),
            *final(self) == (CaptureSurfaceCoordinator {
                surfaces: final(self).surfaces,
                ..*old(self)
            }),
    {
        let ghost before = self.surfaces@;
        let ids = surface_ids(&self.surfaces);
        for n in 0..ids.len()
            invariant
                *self == (CaptureSurfaceCoordinator { surfaces: self.surfaces, ..*old(self) }),
                forall|id: u32| #[trigger] ids@.contains(id) <==> before.contains_key(id),
                forall|id: u32| #[trigger]
                    self.surfaces@.contains_key(id) <==> before.contains_key(id),
                forall|id: u32| #[trigger]
                    before.contains_key(id) ==> self.surfaces@[id] == if exists|k: int|
                        0 <= k < n && #[trigger] ids@[k] == id {
                        cold_surfaces(before)[id]
                    } else {
                        before[id]
                    },
        {
            let id: u32 = ids[n];
            assert(ids@.contains(ids@[n as int]));
            let ghost earlier = self.surfaces@;
            if let Some(surface) = self.surfaces.get(&id) {
                let kept: DisplayCaptureSurface = *surface;
                let replaced = if kept.lifecycle == SurfaceLifecycle::Hidden {
                    DisplayCaptureSurface::new(kept.display)
                } else {
                    kept
                };
                self.surfaces.insert(id, replaced);
                assert forall|x: u32| #[trigger] before.contains_key(x) implies self.surfaces@[x]
                    == if exists|k: int| 0 <= k < n + 1 && #[trigger] ids@[k] == x {
                    cold_surfaces(before)[x]
                } else {
                    before[x]
                } by {
                    assert(ids@[n as int] == id);
                    if x == id {
                        assert(earlier[x] == before[x] || earlier[x] == cold_surfaces(before)[x]);
                    }
                }
            }
        }
        assert forall|id: u32| #[trigger] before.contains_key(id) implies self.surfaces@[id]
            == cold_surfaces(before)[id] by {
            assert(ids@.contains(id));
            let k = choose|k: int| 0 <= k < ids@.len() && ids@[k] == id;
            assert(ids@[k] == id);
        }
        assert(self.surfaces@ =~= cold_surfaces(before));
    }

    /// Uses the surface of a display to show a capture. One that is used already stays in
    /// use.
    pub fn present(&mut self, display_id: u32, request_id: u128) -> (presented: Result<
        (),
        CaptureSurfaceError,
    >)
        requires
            old(self).well_formed(),
        ensures
            final(self).well_formed(),
            match old(self).active_display_id {
                Some(active) if active != display_id => {
                    &&& presented == Err::<(), CaptureSurfaceError>(
                        CaptureSurfaceError::Busy(active),
                    )
                    &&& *final(self) == *old(self)
                },
                _ => if old(self).surfaces@.contains_key(display_id) {
                    &&& presented is Ok
                    &&& final(self).surfaces@ == old(self).surfaces@.insert(
                        display_id,
                        DisplayCaptureSurface {
                            lifecycle: SurfaceLifecycle::Presenting { request_id },
                            ..old(self).surfaces@[display_id]
                        },
                    )
                    &&& *final(self) == (CaptureSurfaceCoordinator {
                        surfaces: final(self).surfaces,
                        active_display_id: Some(display_id),
                        retained_display_id: if old(self).retained_display_id == Some(display_id) {
                            None
                        } else {
                            old(self).retained_display_id
                        },
                        ..*old(self)
                    })
                } else {
                    &&& presented == Err::<(), CaptureSurfaceError>(
                        CaptureSurfaceError::DisplayUnavailable(display_id),
                    )
                    &&& *final(self) == *old(self)
                },
            },
    {
        if let Some(active) = self.active_display_id {
            if active != display_id {
                return Err(CaptureSurfaceError::Busy(active));
            }
        }
        let surface: DisplayCaptureSurface = match self.surfaces.get(&display_id) {
            Some(surface) => *surface,
            None => {
                return Err(CaptureSurfaceError::DisplayUnavailable(display_id));
            },
        };
        self.surfaces.insert(
            display_id,
            DisplayCaptureSurface {
                lifecycle: SurfaceLifecycle::Presenting { request_id },
                ..surface
            },
        );
        if let Some(retained) = self.retained_display_id {
            if retained == display_id {
                self.retained_display_id = None;
            }
        }
        self.active_display_id = Some(display_id);
        Ok(())
    }

    /// Uses the active surface to edit what it shows.
    pub fn begin_editing(&mut self, display_id: u32, session_id: u128) -> (begun: Result<
        (),
        CaptureSurfaceError,
    >)
        requires
            old(self).well_formed(),
        ensures
            final(self).well_formed(),
            if old(self).active_display_id == Some(display_id) {
                &&& begun is Ok
                &&& final(self).surfaces@ == old(self).surfaces@.insert(
                    display_id,
                    DisplayCaptureSurface {
                        lifecycle: SurfaceLifecycle::Editing { session_id },
                        ..old(self).surfaces@[display_id]
                    },
                )
                &&& *final(self) == (CaptureSurfaceCoordinator {
                    surfaces: final(self).surfaces,
                    ..*old(self)
                })
            } else {
                &&& begun == Err::<(), CaptureSurfaceError>(
                    CaptureSurfaceError::DisplayUnavailable(display_id),
                )
                &&& *final(self) == *old(self)
            },
    {
        let is_active = match self.active_display_id {
            Some(active) => active == display_id,
            None => false,
        };
        if !is_active {
            return Err(CaptureSurfaceError::DisplayUnavailable(display_id));
        }
        let surface: DisplayCaptureSurface = match self.surfaces.get(&display_id) {
            Some(surface) => *surface,
            None => {
                return Err(CaptureSurfaceError::DisplayUnavailable(display_id));
            },
        };
        self.surfaces.insert(
            display_id,
            DisplayCaptureSurface {
                lifecycle: SurfaceLifecycle::Editing { session_id },
                ..surface
            },
        );
        Ok(())
    }

    /// Whether the picture of a capture can be put on a display's surface.
    pub fn set_frozen_image(&self, display_id: u32) -> (accepted: Result<(), CaptureSurfaceError>)
        ensures
            if self.surfaces@.contains_key(display_id) {
                accepted is Ok
            } else {
                accepted == Err::<(), CaptureSurfaceError>(
                    CaptureSurfaceError::DisplayUnavailable(display_id),
                )
            },
    {
        if self.surfaces.contains_key(&display_id) {
            Ok(())
        } else {
            Err(CaptureSurfaceError::DisplayUnavailable(display_id))
        }
    }

    /// A display with exactly this place, where there is one.
    pub fn display_for_bounds(&self, bounds: [i32; 4]) -> (found: Option<u32>)
        requires
            self.well_formed(),
        ensures
            match found {
                Some(id) => self.surfaces@.contains_key(id)
                    && self.surfaces@[id].display.bounds_global@ == bounds@,
                None => forall|id: u32| #[trigger]
                    self.surfaces@.contains_key(id)
                        ==> self.surfaces@[id].display.bounds_global@ != bounds@,
            },
    {
        let ids = surface_ids(&self.surfaces);
        for n in 0..ids.len()
            invariant
                forall|id: u32| #[trigger] ids@.contains(id) <==> self.surfaces@.contains_key(id),
                forall|k: int|
                    0 <= k < n ==> self.surfaces@[#[trigger] ids@[k]].display.bounds_global@
                        != bounds@,
        {
            assert(ids@.contains(ids@[n as int]));
            if let Some(surface) = self.surfaces.get(&ids[n]) {
                if bounds_equal(surface.display.bounds_global, bounds) {
                    return Some(ids[n]);
                }
            }
        }
        assert forall|id: u32| #[trigger] self.surfaces@.contains_key(id) implies self.surfaces@[id].display.bounds_global@
            != bounds@ by {
            assert(ids@.contains(id));
            let k = choose|k: int| 0 <= k < ids@.len() && ids@[k] == id;
            assert(ids@[k] == id);
        }
        None
    }

    /// A display on which a point lies, where there is one.
    pub fn display_for_point(&self, point: [i32; 2]) -> (found: Option<u32>)
        requires
            self.well_formed(),
        ensures
            match found {
                Some(id) => self.surfaces@.contains_key(id) && self.surfaces@[id].display.covers(
                    point@,
                ),
                None => forall|id: u32| #[trigger]
                    self.surfaces@.contains_key(id) ==> !self.surfaces@[id].display.covers(point@),
            },
    {
        let ids = surface_ids(&self.surfaces);
        for n in 0..ids.len()
            invariant
                forall|id: u32| #[trigger] ids@.contains(id) <==> self.surfaces@.contains_key(id),
                forall|k: int|
                    0 <= k < n ==> !self.surfaces@[#[trigger] ids@[k]].display.covers(point@),
        {
            assert(ids@.contains(ids@[n as int]));
            if let Some(surface) = self.surfaces.get(&ids[n]) {
                if surface.display.contains(point) {
                    return Some(ids[n]);
                }
            }
        }
        assert forall|id: u32| #[trigger] self.surfaces@.contains_key(id) implies !self.surfaces@[id].display.covers(
        point@) by {
            assert(ids@.contains(id));
            let k = choose|k: int| 0 <= k < ids@.len() && ids@[k] == id;
            assert(ids@[k] == id);
        }
        None
    }

    /// The display of the smallest number.
    pub fn fallback_display(&self) -> (found: Option<u32>)
        ensures
            match found {
                Some(least) => self.surfaces@.contains_key(least) && forall|id: u32| #[trigger]
                    self.surfaces@.contains_key(id) ==> least <= id,
                None => forall|id: u32| !#[trigger] self.surfaces@.contains_key(id),
            },
    {
        let ids = sorted_surface_ids(&self.surfaces);
        if ids.len() == 0 {
            assert forall|id: u32| !#[trigger] self.surfaces@.contains_key(id) by {
                assert(!ids@.contains(id));
            }
            return None;
        }
        assert(ids@.contains(ids@[0]));
        assert forall|id: u32| #[trigger] self.surfaces@.contains_key(id) implies ids@[0] <= id by {
            assert(ids@.contains(id));
            let k = choose|k: int| 0 <= k < ids@.len() && ids@[k] == id;
            if k > 0 {
                assert(ids@[0] < ids@[k]);
            }
        }
        Some(ids[0])
    }

    /// The display whose surface is used.
    pub fn active_display_id(&self) -> (active: Option<u32>)
        ensures
            active == self.active_display_id,
    {
        self.active_display_id
    }

    /// Ends the use of the active surface, which is kept for a while.
    pub fn hide_active(&mut self)
        requires
            old(self).well_formed(),
        ensures
            final(self).well_formed(),
            match old(self).active_display_id {
                Some(id) => {
                    &&& final(self).surfaces@ == old(self).surfaces@.insert(
                        id,
                        hidden(old(self).surfaces@[id]),
                    )
                    &&& *final(self) == (CaptureSurfaceCoordinator {
                        surfaces: final(self).surfaces,
                        active_display_id: None,
                        retained_display_id: Some(id),
                        ..*old(self)
                    })
                },
                None => *final(self) == *old(self),
            },
    {
        if let Some(id) = self.active_display_id {
            let surface: Option<DisplayCaptureSurface> = match self.surfaces.get(&id) {
                Some(surface) => Some(*surface),
                None => None,
            };
            if let Some(surface) = surface {
                self.surfaces.insert(id, surface.put_away());
                self.active_display_id = None;
                self.retained_display_id = Some(id);
            }
        }
    }

    /// The windows of all surfaces, by rising number of their displays.
    pub fn viewport_specs(&self) -> (viewports: Vec<SurfaceViewport>)
        requires
            self.well_formed(),
        ensures
            forall|i: int, j: int|
                0 <= i < j < viewports@.len() ==> viewports@[i].display.display_id
                    < viewports@[j].display.display_id,
            forall|i: int|
                0 <= i < viewports@.len() ==> self.surfaces@.contains_key(
                    (#[trigger] viewports@[i]).display.display_id,
                ) && self.surfaces@[viewports@[i].display.display_id].shown_in(viewports@[i]),
            forall|id: u32| #[trigger]
                self.surfaces@.contains_key(id) ==> exists|i: int|
                    0 <= i < viewports@.len() && (#[trigger] viewports@[i]).display.display_id
                        == id,
    {
        let ids = sorted_surface_ids(&self.surfaces);
        let mut viewports: Vec<SurfaceViewport> = Vec::new();
        for n in 0..ids.len()
            invariant
                self.well_formed(),
                forall|i: int, j: int| 0 <= i < j < ids@.len() ==> ids@[i] < ids@[j],
                forall|id: u32| #[trigger] ids@.contains(id) <==> self.surfaces@.contains_key(id),
                viewports@.len() == n,
                forall|i: int|
                    0 <= i < n ==> (#[trigger] viewports@[i]).display.display_id == ids@[i]
                        && self.surfaces@[ids@[i]].shown_in(viewports@[i]),
        {
            assert(ids@.contains(ids@[n as int]));
            if let Some(surface) = self.surfaces.get(&ids[n]) {
                viewports.push(surface.surface_viewport());
            }
        }
        assert forall|i: int| 0 <= i < viewports@.len() implies self.surfaces@.contains_key(
            (#[trigger] viewports@[i]).display.display_id,
        ) by {
            assert(ids@.contains(ids@[i]));
        }
        assert forall|id: u32| #[trigger] self.surfaces@.contains_key(id) implies exists|i: int|
            0 <= i < viewports@.len() && (#[trigger] viewports@[i]).display.display_id == id by {
            assert(ids@.contains(id));
            let k = choose|k: int| 0 <= k < ids@.len() && ids@[k] == id;
            assert(viewports@[k].display.display_id == id);
        }
        viewports
    }

    /// The windows to be kept in this frame: that of the surface used last, and after it
    /// that of the active surface.
    pub fn viewport_specs_for_frame(&self) -> (viewports: Vec<SurfaceViewport>)
        requires
            self.well_formed(),
        ensures
            ({
                let kept = if self.retained_display_id is Some {
                    1int
                } else {
                    0int
                };
                let used = if self.active_display_id is Some {
                    1int
                } else {
                    0int
                };
                &&& viewports@.len() == kept + used
                &&& self.retained_display_id matches Some(id) ==> self.surfaces@[id].kept_in(
                    viewports@[0],
                )
                &&& self.active_display_id matches Some(id) ==> self.surfaces@[id].shown_in(
                    viewports@[kept],
                )
            }),
    {
        let mut viewports: Vec<SurfaceViewport> = Vec::new();
        if let Some(id) = self.retained_display_id {
            let is_active = match self.active_display_id {
                Some(active) => active == id,
                None => false,
            };
            if !is_active {
                if let Some(surface) = self.surfaces.get(&id) {
                    viewports.push(surface.retained_surface_viewport());
                }
            }
        }
        if let Some(id) = self.active_display_id {
            if let Some(surface) = self.surfaces.get(&id) {
                if surface.lifecycle != SurfaceLifecycle::Hidden {
                    viewports.push(surface.surface_viewport());
                }
            }
        }
        viewports
    }
}

/// Whether the wall clock has moved so far that hidden surfaces are made anew.
fn is_cold(then: i128, now: i128) -> (yes: bool)
    ensures
        yes == cold(then, now),
{
    if now < then {
        return false;
    }
    if then >= 0 || now < 0 {
        now - then >= COLD_REFRESH_WALL_CLOCK_GAP
    } else if now >= COLD_REFRESH_WALL_CLOCK_GAP {
        true
    } else {
        then <= now - COLD_REFRESH_WALL_CLOCK_GAP
    }
}

/// Whether a display is among `displays`.
fn is_available(displays: &Vec<DisplaySnapshot>, id: u32) -> (yes: bool)
    ensures
        yes == available(displays@, id),
{
    for i in 0..displays.len()
        invariant
            forall|j: int| 0 <= j < i ==> (#[trigger] displays@[j]).display_id != id,
    {
        if displays[i].display_id == id {
            assert(displays@[i as int].display_id == id);
            return true;
        }
    }
    false
}

/// Looking at displays changes no use of a surface, and gives a surface to each display.
proof fn lemma_with_displays(
    surfaces: Map<u32, DisplayCaptureSurface>,
    displays: Seq<DisplaySnapshot>,
    id: u32,
)
    requires
        forall|x: u32| #[trigger]
            surfaces.contains_key(x) ==> surfaces[x].display.display_id == x && (
            surfaces[x].pending_display matches Some(display) ==> display.display_id == x),
    ensures
        with_displays(surfaces, displays).contains_key(id) <==> surfaces.contains_key(id)
            || available(displays, id),
        with_displays(surfaces, displays).contains_key(id) ==> {
            let surface = with_displays(surfaces, displays)[id];
            &&& surface.display.display_id == id
            &&& surface.pending_display matches Some(display) ==> display.display_id == id
            &&& if surfaces.contains_key(id) {
                surface.lifecycle == surfaces[id].lifecycle
            } else {
                surface.lifecycle is Hidden
            }
        },
    decreases displays.len(),
{
    if displays.len() > 0 {
        let rest = displays.drop_last();
        let last = displays.len() - 1;
        lemma_with_displays(surfaces, rest, id);
        assert(displays[last].display_id == displays.last().display_id);
        if available(rest, id) {
            let i = choose|i: int| 0 <= i < rest.len() && (#[trigger] rest[i]).display_id == id;
            assert(displays[i].display_id == id);
        }
        if available(displays, id) && displays.last().display_id != id {
            let i = choose|i: int|
                0 <= i < displays.len() && (#[trigger] displays[i]).display_id == id;
            assert(rest[i].display_id == id);
        }
    }
}

proof fn lemma_refreshed(coordinator: CaptureSurfaceCoordinator, displays: Seq<DisplaySnapshot>)
    requires
        coordinator.well_formed(),
    ensures
        forall|id: u32| #[trigger]
            refreshed_surfaces(coordinator, displays).contains_key(id) ==> {
                let surface = refreshed_surfaces(coordinator, displays)[id];
                &&& surface.display.display_id == id
                &&& surface.pending_display matches Some(display) ==> display.display_id == id
                &&& surface.lifecycle is Hidden <==> coordinator.active_display_id != Some(id)
            },
        coordinator.active_display_id matches Some(id) ==> refreshed_surfaces(
            coordinator,
            displays,
        ).contains_key(id),
        coordinator.retained_display_id matches Some(id) ==> refreshed_surfaces(
            coordinator,
            displays,
        ).contains_key(id),
{
    let after = refreshed_surfaces(coordinator, displays);
    assert forall|id: u32| #[trigger] after.contains_key(id) implies ({
        let surface = after[id];
        &&& surface.display.display_id == id
        &&& surface.pending_display matches Some(display) ==> display.display_id == id
        &&& surface.lifecycle is Hidden <==> coordinator.active_display_id != Some(id)
    }) by {
        lemma_with_displays(coordinator.surfaces@, displays, id);
    }
    if let Some(id) = coordinator.active_display_id {
        lemma_with_displays(coordinator.surfaces@, displays, id);
    }
    if let Some(id) = coordinator.retained_display_id {
        lemma_with_displays(coordinator.surfaces@, displays, id);
    }
}

/// A surface that is used keeps its display as it was, whatever displays there are now.
pub proof fn law_a_used_surface_keeps_its_display(
    surfaces: Map<u32, DisplayCaptureSurface>,
    displays: Seq<DisplaySnapshot>,
    id: u32,
)
    requires
        surfaces.contains_key(id),
        !(surfaces[id].lifecycle is Hidden),
    ensures
        with_displays(surfaces, displays).contains_key(id),
        with_displays(surfaces, displays)[id].display == surfaces[id].display,
        with_displays(surfaces, displays)[id].lifecycle == surfaces[id].lifecycle,
    decreases displays.len(),
{
    if displays.len() > 0 {
        law_a_used_surface_keeps_its_display(surfaces, displays.drop_last(), id);
    }
}

/// Once a surface is no longer used, it takes on the display as it has become.
pub proof fn law_a_hidden_surface_takes_on_what_changed(
    surface: DisplayCaptureSurface,
    display: DisplaySnapshot,
)
    requires
        !surface.display.same(display),
    ensures
        hidden(updated(surface, display)).display == display || surface.lifecycle is Hidden,
        surface.lifecycle is Hidden && surface.pending_display is None ==> hidden(
            updated(surface, display),
        ).display == display,
{
}

/// Neither the surface that is used nor the one that was used last is dropped, though its
/// display is gone.
pub proof fn law_used_surfaces_are_not_dropped(
    coordinator: CaptureSurfaceCoordinator,
    displays: Seq<DisplaySnapshot>,
)
    requires
        coordinator.well_formed(),
    ensures
        coordinator.active_display_id matches Some(id) ==> refreshed_surfaces(
            coordinator,
            displays,
        ).contains_key(id),
        coordinator.retained_display_id matches Some(id) ==> refreshed_surfaces(
            coordinator,
            displays,
        ).contains_key(id),
{
    lemma_refreshed(coordinator, displays);
}

/// At most one surface is used at a time.
pub proof fn law_at_most_one_surface_is_used(
    coordinator: CaptureSurfaceCoordinator,
    first: u32,
    second: u32,
)
    requires
        coordinator.well_formed(),
        coordinator.surfaces@.contains_key(first),
        coordinator.surfaces@.contains_key(second),
        !(coordinator.surfaces@[first].lifecycle is Hidden),
        !(coordinator.surfaces@[second].lifecycle is Hidden),
    ensures
        first == second,
{
}

/// The windows of different displays have different titles.
pub proof fn law_titles_tell_displays_apart(first: u32, second: u32)
    requires
        overlay_title(first) == overlay_title(second),
    ensures
        first == second,
{
    let prefix = "RS Board Capture Overlay ["@;
    let left = decimal(first as nat);
    let right = decimal(second as nat);
    assert(overlay_title(first).len() == prefix.len() + left.len() + "]"@.len());
    assert(overlay_title(second).len() == prefix.len() + right.len() + "]"@.len());
    assert(left =~= overlay_title(first).subrange(
        prefix.len() as int,
        (prefix.len() + left.len()) as int,
    ));
    assert(right =~= overlay_title(second).subrange(
        prefix.len() as int,
        (prefix.len() + right.len()) as int,
    ));
    crate::text::lemma_decimal_injective(first as nat, second as nat);
}

} // verus!
