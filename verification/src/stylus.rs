//! The strokes of a pen: which events of a pen count, and the points of the stroke that they
//! make. Coordinates and pressures are given by the bits of their single-precision form.

use vstd::prelude::*;

use crate::input::{events_of, InputEvent, InputEventView, TouchPhase};
use crate::scale::{
    below, equal_numbers, finite, is_below, is_finite, is_no_number, not_a_number, numbers_equal,
};

verus! {

/// The bits of zero.
pub const ZERO: u32 = 0;

/// The bits of one.
pub const ONE: u32 = 0x3f80_0000;

/// A point of a document.
#[derive(Clone, Copy, PartialEq, Eq, Structural)]
pub struct Point {
    pub x: u32,
    pub y: u32,
}

impl Point {
    /// Whether two points are the same.
    pub open spec fn same(self, other: Point) -> bool {
        equal_numbers(self.x, other.x) && equal_numbers(self.y, other.y)
    }

    /// Whether two points are the same.
    pub fn is_same(self, other: Point) -> (yes: bool)
        ensures
            yes == self.same(other),
    {
        numbers_equal(self.x, other.x) && numbers_equal(self.y, other.y)
    }
}

/// A point of a stroke.
#[derive(Clone, Copy, PartialEq, Eq, Structural)]
pub struct StrokePoint {
    pub point: Point,
    pub pressure: u32,
}

/// Whether a pressure is a number from zero to one.
pub open spec fn normal(pressure: u32) -> bool {
    &&& !not_a_number(pressure)
    &&& !below(pressure, ZERO)
    &&& !below(ONE, pressure)
}

/// A pen, by the device and the touch.
#[derive(Clone, Copy, PartialEq, Eq, Structural)]
pub struct StylusId {
    pub device: u64,
    pub touch: u64,
}

/// Something that happened with a pen.
#[derive(Clone, Copy)]
pub struct StylusEvent {
    pub id: StylusId,
    pub phase: TouchPhase,
    pub position: (u32, u32),
    pub pressure: u32,
}

/// A place and a pressure of a pen on the document.
#[derive(Clone, Copy, PartialEq, Eq, Structural)]
pub struct StylusSample {
    pub phase: TouchPhase,
    pub point: Point,
    pub pressure: u32,
}

/// The pressure that the force of a touch gives: none once the pen is lifted, and full
/// pressure where the force is no finite number.
pub open spec fn pressure_of(phase: TouchPhase, force: u32) -> u32 {
    if phase == TouchPhase::End || phase == TouchPhase::Cancel {
        ZERO
    } else if !finite(force) {
        ONE
    } else if below(force, ZERO) {
        ZERO
    } else if below(ONE, force) {
        ONE
    } else {
        force
    }
}

fn normalize(phase: TouchPhase, force: u32) -> (pressure: u32)
    ensures
        pressure == pressure_of(phase, force),
{
    match phase {
        TouchPhase::End | TouchPhase::Cancel => ZERO,
        TouchPhase::Start | TouchPhase::Move => {
            if !is_finite(force) {
                ONE
            } else if is_below(force, ZERO) {
                ZERO
            } else if is_below(ONE, force) {
                ONE
            } else {
                force
            }
        },
    }
}

/// Whatever the force of a touch, its pressure is a number from zero to one.
pub proof fn law_pressure_is_normal(phase: TouchPhase, force: u32)
    ensures
        normal(pressure_of(phase, force)),
{
    assert(!not_a_number(ZERO) && !not_a_number(ONE));
}

/// What an event says of a pen. A touch counts as that of a pen where its force is known.
pub open spec fn pen_event(event: InputEventView) -> Option<StylusEvent> {
    match event {
        InputEventView::Touch { device, touch, phase, position, force: Some(force) } => Some(
            StylusEvent {
                id: StylusId { device, touch },
                phase,
                position,
                pressure: pressure_of(phase, force),
            },
        ),
        _ => None,
    }
}

/// What an event says of a pen.
pub fn stylus_event(event: &InputEvent) -> (pen: Option<StylusEvent>)
    ensures
        pen == pen_event(event@),
{
    match event {
        InputEvent::Touch { device, touch, phase, position, force: Some(force) } => Some(
            StylusEvent {
                id: StylusId { device: *device, touch: *touch },
                phase: *phase,
                position: *position,
                pressure: normalize(*phase, *force),
            },
        ),
        _ => None,
    }
}

/// The events that are not those of a pen.
pub open spec fn without_pen(events: Seq<InputEventView>) -> Seq<InputEventView> {
    events.filter(|event: InputEventView| pen_event(event) is None)
}

/// The events of a pen.
pub open spec fn pen_events(events: Seq<InputEventView>) -> Seq<StylusEvent>
    decreases events.len(),
{
    if events.len() == 0 {
        Seq::empty()
    } else {
        let before = pen_events(events.drop_last());
        match pen_event(events.last()) {
            Some(event) => before.push(event),
            None => before,
        }
    }
}

/// Whether the window lost the focus.
pub open spec fn focus_lost(events: Seq<InputEventView>) -> bool {
    exists|i: int|
        0 <= i < events.len() && #[trigger] events[i] == InputEventView::WindowFocused(false)
}

/// The points of a stroke with one more: at the place of the last point, only its pressure
/// changes.
pub open spec fn with_point(points: Seq<StrokePoint>, point: StrokePoint) -> Seq<StrokePoint> {
    if points.len() > 0 && points.last().point.same(point.point) {
        points.update(
            points.len() - 1,
            StrokePoint { pressure: point.pressure, ..points.last() },
        )
    } else {
        points.push(point)
    }
}

/// Adds a point to a stroke.
pub fn append_stroke_point(points: &mut Vec<StrokePoint>, point: StrokePoint)
    ensures
        final(points)@ == with_point(old(points)@, point),
{
    let n: usize = points.len();
    if n > 0 && points[n - 1].point.is_same(point.point) {
        let last = points[n - 1];
        points.set(n - 1, StrokePoint { pressure: point.pressure, ..last });
    } else {
        points.push(point);
    }
}

/// The points of a stroke with a sample of the pen: a pen that is lifted where it was set
/// down leaves its only point as it is.
pub open spec fn with_sample(points: Seq<StrokePoint>, sample: StylusSample) -> Seq<StrokePoint> {
    match sample.phase {
        TouchPhase::Cancel => points,
        TouchPhase::End => if points.len() == 1 && points[0].point.same(sample.point) {
            points
        } else {
            with_point(points, StrokePoint { point: sample.point, pressure: ZERO })
        },
        TouchPhase::Start | TouchPhase::Move => with_point(
            points,
            StrokePoint { point: sample.point, pressure: sample.pressure },
        ),
    }
}

/// Adds a sample of the pen to a stroke.
pub fn append_stylus_sample(points: &mut Vec<StrokePoint>, sample: StylusSample)
    ensures
        final(points)@ == with_sample(old(points)@, sample),
{
    match sample.phase {
        TouchPhase::Cancel => {},
        TouchPhase::End => {
            if points.len() == 1 && points[0].point.is_same(sample.point) {
                return ;
            }
            append_stroke_point(points, StrokePoint { point: sample.point, pressure: ZERO });
        },
        TouchPhase::Start | TouchPhase::Move => {
            append_stroke_point(
                points,
                StrokePoint { point: sample.point, pressure: sample.pressure },
            );
        },
    }
}

/// The lesser of a pressure and its cap; a pressure that is no number gives way to the cap.
pub open spec fn lesser(pressure: u32, cap: u32) -> u32 {
    if not_a_number(pressure) || below(cap, pressure) {
        cap
    } else {
        pressure
    }
}

/// The points of a stroke once the pen was lifted: each pressure before the tip is at most
/// its cap, and a point without a cap keeps its own. The tip stays as it is.
pub open spec fn tapered(points: Seq<StrokePoint>, caps: Seq<u32>) -> Seq<StrokePoint> {
    Seq::new(
        points.len(),
        |i: int|
            if i < points.len() - 1 && i < caps.len() {
                StrokePoint { pressure: lesser(points[i].pressure, caps[i]), ..points[i] }
            } else {
                points[i]
            },
    )
}

/// Lowers the pressures of a stroke towards its tip.
pub fn apply_release_taper(points: &mut Vec<StrokePoint>, caps: &Vec<u32>)
    ensures
        final(points)@ == tapered(old(points)@, caps@),
{
    let n: usize = points.len();
    let mut i: usize = 0;
    while i < n
        invariant
            i <= n == points@.len(),
            n == old(points)@.len(),
            forall|j: int|
                0 <= j < i ==> #[trigger] points@[j] == tapered(old(points)@, caps@)[j],
            forall|j: int| i <= j < n ==> #[trigger] points@[j] == old(points)@[j],
        decreases n - i,
    {
        if i < n - 1 && i < caps.len() {
            let point = points[i];
            if is_no_number(point.pressure) || is_below(caps[i], point.pressure) {
                points.set(i, StrokePoint { pressure: caps[i], ..point });
            }
        }
        i = i + 1;
    }
    assert(points@ =~= tapered(old(points)@, caps@));
}

/// Lifting the pen moves no point of a stroke, adds no pressure anywhere, and leaves the tip
/// as it is; with caps from zero to one all pressures stay from zero to one.
pub proof fn law_lifting_the_pen_only_takes_pressure(
    points: Seq<StrokePoint>,
    caps: Seq<u32>,
    i: int,
)
    requires
        0 <= i < points.len(),
        normal(points[i].pressure),
    ensures
        tapered(points, caps).len() == points.len(),
        tapered(points, caps)[i].point == points[i].point,
        !below(points[i].pressure, tapered(points, caps)[i].pressure),
        i == points.len() - 1 ==> tapered(points, caps)[i] == points[i],
        i < caps.len() && normal(caps[i]) ==> normal(tapered(points, caps)[i].pressure),
        i < caps.len() && normal(caps[i]) && i < points.len() - 1 ==> !below(
            caps[i],
            tapered(points, caps)[i].pressure,
        ),
{
}

/// The points of a stroke with samples of the pen.
pub open spec fn with_samples(points: Seq<StrokePoint>, samples: Seq<StylusSample>) -> Seq<
    StrokePoint,
>
    decreases samples.len(),
{
    if samples.len() == 0 {
        points
    } else {
        with_sample(with_samples(points, samples.drop_last()), samples.last())
    }
}

/// Adds samples of the pen to a stroke.
pub fn append_stylus_samples(points: &mut Vec<StrokePoint>, samples: &Vec<StylusSample>)
    ensures
        final(points)@ == with_samples(old(points)@, samples@),
{
    for i in 0..samples.len()
        invariant
            points@ == with_samples(old(points)@, samples@.take(i as int)),
    {
        append_stylus_sample(points, samples[i]);
        assert(samples@.take(i + 1).drop_last() =~= samples@.take(i as int));
    }
    assert(samples@.take(samples@.len() as int) =~= samples@);
}

/// Whether no two neighbours of a stroke are at the same place.
pub open spec fn neighbours_differ(points: Seq<StrokePoint>) -> bool {
    forall|i: int|
        #![trigger points[i]]
        0 <= i < points.len() - 1 ==> !points[i].point.same(points[i + 1].point)
}

/// However a pen moves, no two neighbours of its stroke are at the same place.
pub proof fn law_neighbours_of_a_stroke_differ(
    points: Seq<StrokePoint>,
    samples: Seq<StylusSample>,
)
    requires
        neighbours_differ(points),
    ensures
        neighbours_differ(with_samples(points, samples)),
    decreases samples.len(),
{
    if samples.len() > 0 {
        law_neighbours_of_a_stroke_differ(points, samples.drop_last());
        let before = with_samples(points, samples.drop_last());
        let after = with_samples(points, samples);
        assert forall|i: int| 0 <= i < after.len() - 1 implies !(
        #[trigger] after[i]).point.same(after[i + 1].point) by {
            if i < before.len() {
                assert(after[i].point == before[i].point);
            }
            if i + 1 < before.len() {
                assert(after[i + 1].point == before[i + 1].point);
            }
        }
    }
}

/// A pen that is lifted where it was set down leaves a dot with the pressure that it had.
pub proof fn law_tap_keeps_its_pressure(point: Point, pressure: u32, at: Point)
    requires
        point.same(at),
    ensures
        with_samples(
            Seq::empty(),
            seq![
                StylusSample { phase: TouchPhase::Start, point, pressure },
                StylusSample { phase: TouchPhase::End, point: at, pressure: ZERO },
            ],
        ) == seq![StrokePoint { point, pressure }],
{
    let samples = seq![
        StylusSample { phase: TouchPhase::Start, point, pressure },
        StylusSample { phase: TouchPhase::End, point: at, pressure: ZERO },
    ];
    reveal_with_fuel(with_samples, 3);
    assert(samples.drop_last().drop_last() =~= Seq::<StylusSample>::empty());
    assert(Seq::<StrokePoint>::empty().push(StrokePoint { point, pressure }) =~= seq![
        StrokePoint { point, pressure },
    ]);
}

/// What the pen did in a frame.
pub struct StylusFrame {
    pub samples: Vec<StylusSample>,
    pub ended: bool,
    pub cancelled: bool,
}

/// What the pen did in a frame, and the pen that is in use.
pub struct PenFrame {
    pub active: Option<StylusId>,
    pub samples: Seq<StylusSample>,
    pub ended: bool,
    pub cancelled: bool,
    /// The last place of the pen on the document.
    pub last_point: Option<Point>,
}

/// A frame before its first event.
pub open spec fn frame_start(active: Option<StylusId>, last_point: Option<Point>) -> PenFrame {
    PenFrame { active, samples: Seq::empty(), ended: false, cancelled: false, last_point }
}

impl PenFrame {
    /// The pen that is in use once an event came: a pen is taken into use where it is set
    /// down on the document, or is moved on it with pressure.
    pub open spec fn pen_after(self, event: StylusEvent, point: Option<Point>) -> Option<StylusId> {
        if self.active is None && point is Some && (event.phase == TouchPhase::Start || (event.phase
            == TouchPhase::Move && below(ZERO, event.pressure))) {
            Some(event.id)
        } else {
            self.active
        }
    }

    /// The frame with one more event, and its place where that is on the document. Only the
    /// pen in use counts. A pen that is lifted off the document ends at its last place on it.
    pub open spec fn after(self, event: StylusEvent, point: Option<Point>) -> PenFrame {
        let active = self.pen_after(event, point);
        if active != Some(event.id) {
            PenFrame { active, ..self }
        } else {
            match event.phase {
                TouchPhase::End => PenFrame {
                    active: None,
                    ended: true,
                    samples: match (point, self.last_point) {
                        (Some(at), _) => self.samples.push(
                            StylusSample { phase: event.phase, point: at, pressure: event.pressure },
                        ),
                        (None, Some(at)) => self.samples.push(
                            StylusSample { phase: event.phase, point: at, pressure: event.pressure },
                        ),
                        (None, None) => self.samples,
                    },
                    ..self
                },
                TouchPhase::Cancel => PenFrame { active: None, cancelled: true, ..self },
                TouchPhase::Start | TouchPhase::Move => match point {
                    Some(at) => PenFrame {
                        active,
                        samples: self.samples.push(
                            StylusSample { phase: event.phase, point: at, pressure: event.pressure },
                        ),
                        last_point: Some(at),
                        ..self
                    },
                    None => PenFrame { active, ..self },
                },
            }
        }
    }

    /// The frame with all of its events.
    pub open spec fn after_all(self, events: Seq<StylusEvent>, points: Seq<Option<Point>>) -> PenFrame
        decreases events.len(),
    {
        if events.len() == 0 {
            self
        } else {
            self.after_all(events.drop_last(), points.drop_last()).after(
                events.last(),
                points.last(),
            )
        }
    }
}

/// What is known of the pen between two frames.
pub struct StylusInput {
    pub queued: Vec<StylusEvent>,
    pub active: Option<StylusId>,
    /// The points of a stroke that the pointer has not begun to draw yet.
    pub pending: Vec<StrokePoint>,
}

/// Whether a pressure is one of a list that no other exceeds. What is no number counts only
/// where nothing else is there.
pub open spec fn strongest(points: Seq<StrokePoint>, pressure: u32) -> bool {
    &&& exists|i: int| 0 <= i < points.len() && #[trigger] points[i].pressure == pressure
    &&& forall|i: int|
        0 <= i < points.len() ==> {
            &&& !below(pressure, #[trigger] points[i].pressure)
            &&& not_a_number(pressure) ==> not_a_number(points[i].pressure)
        }
}

impl StylusInput {
    /// Nothing is known of a pen.
    pub fn new() -> (input: Self)
        ensures
            input.queued@.len() == 0,
            input.active is None,
            input.pending@.len() == 0,
    {
        StylusInput { queued: Vec::new(), active: None, pending: Vec::new() }
    }

    /// Forgets all that is known of a pen.
    pub fn reset_stylus_input(&mut self)
        ensures
            final(self).queued@.len() == 0,
            final(self).active is None,
            final(self).pending@.len() == 0,
    {
        self.queued.clear();
        self.active = None;
        self.pending.clear();
    }

    /// Takes the events of a pen out of the events of a frame. Where the window lost the
    /// focus, they are thrown away, with all that is known of a pen. Says what is left, and
    /// whether the focus was lost.
    pub fn capture_stylus_events(&mut self, events: Vec<InputEvent>) -> (left: (Vec<InputEvent>, bool))
        ensures
            events_of(left.0@) == without_pen(events_of(events@)),
            left.1 == focus_lost(events_of(events@)),
            if left.1 {
                &&& final(self).queued@.len() == 0
                &&& final(self).active is None
                &&& final(self).pending@.len() == 0
            } else {
                &&& final(self).queued@ == old(self).queued@ + pen_events(events_of(events@))
                &&& final(self).active == old(self).active
                &&& final(self).pending == old(self).pending
            },
    {
        let ghost all = events_of(events@);
        let mut lost = false;
        for i in 0..events.len()
            invariant
                all == events_of(events@),
                lost == focus_lost(all.take(i as int)),
        {
            let now = match &events[i] {
                InputEvent::WindowFocused(focused) => !*focused,
                _ => false,
            };
            proof {
                let before = all.take(i as int);
                let after = all.take(i + 1);
                assert(all[i as int] == events@[i as int]@);
                assert(now == (all[i as int] == InputEventView::WindowFocused(false)));
                if focus_lost(before) {
                    let k = choose|k: int|
                        0 <= k < before.len() && #[trigger] before[k]
                            == InputEventView::WindowFocused(false);
                    assert(after[k] == InputEventView::WindowFocused(false));
                }
                if now {
                    assert(after[i as int] == InputEventView::WindowFocused(false));
                }
                if focus_lost(after) && !now {
                    let k = choose|k: int|
                        0 <= k < after.len() && #[trigger] after[k]
                            == InputEventView::WindowFocused(false);
                    assert(before[k] == InputEventView::WindowFocused(false));
                }
            }
            lost = lost || now;
        }
        assert(all.take(all.len() as int) =~= all);
        if lost {
            self.reset_stylus_input();
        }
        let mut kept: Vec<InputEvent> = Vec::new();
        let mut found: Vec<StylusEvent> = Vec::new();
        let mut rest = events;
        let n: usize = rest.len();
        let mut i: usize = 0;
        proof {
            reveal(Seq::filter);
            assert(all.take(0) =~= Seq::<InputEventView>::empty());
            assert(events_of(kept@) =~= without_pen(all.take(0)));
            assert(rest@.skip(0) =~= rest@);
        }
        while i < n
            invariant
                i <= n == all.len(),
                rest@.len() == n - i,
                events_of(rest@) == all.skip(i as int),
                events_of(kept@) == without_pen(all.take(i as int)),
                found@ == pen_events(all.take(i as int)),
            decreases n - i,
        {
            let ghost waiting = rest@;
            let event = rest.remove(0);
            let pen = stylus_event(&event);
            let ghost before = kept@;
            proof {
                assert(all.skip(i as int)[0] == all[i as int]);
                assert(event@ == all[i as int]);
                assert(all.take(i + 1).drop_last() =~= all.take(i as int));
                assert forall|j: int| 0 <= j < rest@.len() implies events_of(rest@)[j] == all.skip(
                    i + 1,
                )[j] by {
                    assert(rest@[j] == waiting[j + 1]);
                    assert(events_of(waiting)[j + 1] == all.skip(i as int)[j + 1]);
                }
                assert(events_of(rest@) =~= all.skip(i + 1));
                crate::seqs::lemma_filter_step(
                    all,
                    i as int,
                    |event: InputEventView| pen_event(event) is None,
                );
            }
            match pen {
                Some(pen) => found.push(pen),
                None => {
                    kept.push(event);
                    assert(events_of(kept@) =~= events_of(before).push(event@));
                },
            }
            i = i + 1;
        }
        assert(all.take(n as int) =~= all);
        if !lost {
            self.queued.append(&mut found);
        }
        (kept, lost)
    }

    /// Takes what the pen did since the last frame, given where each of its events is on the
    /// document and the last place of the pen on it.
    pub fn take_stylus_frame(
        &mut self,
        points: &Vec<Option<Point>>,
        last_point: Option<Point>,
    ) -> (frame: StylusFrame)
        requires
            points@.len() == old(self).queued@.len(),
        ensures
            ({
                let end = frame_start(old(self).active, last_point).after_all(
                    old(self).queued@,
                    points@,
                );
                &&& frame.samples@ == end.samples
                &&& frame.ended == end.ended
                &&& frame.cancelled == end.cancelled
                &&& final(self).active == end.active
            }),
            final(self).queued@.len() == 0,
            final(self).pending == old(self).pending,
    {
        let ghost events = self.queued@;
        let ghost start = frame_start(self.active, last_point);
        let mut frame = StylusFrame { samples: Vec::new(), ended: false, cancelled: false };
        let mut last_point = last_point;
        let n: usize = self.queued.len();
        proof {
            assert(events.take(0) =~= Seq::<StylusEvent>::empty());
            assert(frame.samples@ =~= start.samples);
        }
        for i in 0..n
            invariant
                n == events.len() == points@.len(),
                self.queued@ == events,
                self.pending == old(self).pending,
                ({
                    let now = start.after_all(events.take(i as int), points@.take(i as int));
                    &&& frame.samples@ == now.samples
                    &&& frame.ended == now.ended
                    &&& frame.cancelled == now.cancelled
                    &&& self.active == now.active
                    &&& last_point == now.last_point
                }),
        {
            let event = self.queued[i];
            let point = points[i];
            proof {
                assert(events.take(i + 1).drop_last() =~= events.take(i as int));
                assert(points@.take(i + 1).drop_last() =~= points@.take(i as int));
            }
            if self.active.is_none() && (event.phase == TouchPhase::Start || (event.phase
                == TouchPhase::Move && is_below(ZERO, event.pressure))) && point.is_some() {
                self.active = Some(event.id);
            }
            let in_use = match self.active {
                Some(id) => id == event.id,
                None => false,
            };
            if in_use {
                match event.phase {
                    TouchPhase::End => {
                        let at = if point.is_some() {
                            point
                        } else {
                            last_point
                        };
                        if let Some(at) = at {
                            frame.samples.push(
                                StylusSample {
                                    phase: event.phase,
                                    point: at,
                                    pressure: event.pressure,
                                },
                            );
                        }
                        frame.ended = true;
                        self.active = None;
                    },
                    TouchPhase::Cancel => {
                        frame.cancelled = true;
                        self.active = None;
                    },
                    TouchPhase::Start | TouchPhase::Move => {
                        if let Some(at) = point {
                            frame.samples.push(
                                StylusSample {
                                    phase: event.phase,
                                    point: at,
                                    pressure: event.pressure,
                                },
                            );
                            last_point = Some(at);
                        }
                    },
                }
            }
        }
        proof {
            assert(events.take(n as int) =~= events);
            assert(points@.take(n as int) =~= points@);
        }
        self.queued.clear();
        frame
    }

    /// The pressure of a dot: the strongest of the points that are pending, or full pressure
    /// where none is.
    pub fn dot_pressure(&self) -> (pressure: u32)
        ensures
            if self.pending@.len() == 0 {
                pressure == ONE
            } else {
                strongest(self.pending@, pressure)
            },
    {
        if self.pending.len() == 0 {
            return ONE;
        }
        let mut pressure: u32 = self.pending[0].pressure;
        assert(self.pending@.take(1)[0].pressure == pressure);
        for i in 1..self.pending.len()
            invariant
                self.pending@.len() > 0,
                strongest(self.pending@.take(i as int), pressure),
        {
            let next: u32 = self.pending[i].pressure;
            let taken = is_no_number(pressure) || is_below(pressure, next);
            proof {
                let before = self.pending@.take(i as int);
                let after = self.pending@.take(i + 1);
                let k = choose|k: int|
                    0 <= k < before.len() && #[trigger] before[k].pressure == pressure;
                assert(after[k].pressure == pressure);
                assert(after[i as int].pressure == next);
                let best = if taken {
                    next
                } else {
                    pressure
                };
                assert forall|j: int| 0 <= j < after.len() implies {
                    &&& !below(best, #[trigger] after[j].pressure)
                    &&& not_a_number(best) ==> not_a_number(after[j].pressure)
                } by {
                    if j < i {
                        assert(before[j].pressure == after[j].pressure);
                    }
                }
            }
            if taken {
                pressure = next;
            }
        }
        assert(self.pending@.take(self.pending@.len() as int) =~= self.pending@);
        pressure
    }

    /// Takes the points that are pending for a stroke that the pointer begins at a point.
    pub fn begin_stroke(&mut self, start: Point) -> (points: Vec<StrokePoint>)
        ensures
            points@ == stroke_from(old(self).pending@, start),
            final(self).pending@.len() == 0,
            final(self).queued == old(self).queued,
            final(self).active == old(self).active,
    {
        let mut points: Vec<StrokePoint> = Vec::new();
        let n: usize = self.pending.len();
        if n == 0 || !self.pending[0].point.is_same(start) {
            let pressure: u32 = if n == 0 {
                ONE
            } else {
                self.pending[0].pressure
            };
            points.push(StrokePoint { point: start, pressure });
        }
        points.append(&mut self.pending);
        assert(points@ =~= stroke_from(old(self).pending@, start));
        points
    }
}

/// The points of a stroke that the pointer begins at a point: the points that are pending,
/// with that point before them unless they begin there.
pub open spec fn stroke_from(pending: Seq<StrokePoint>, start: Point) -> Seq<StrokePoint> {
    if pending.len() == 0 {
        seq![StrokePoint { point: start, pressure: ONE }]
    } else if !pending[0].point.same(start) {
        seq![StrokePoint { point: start, pressure: pending[0].pressure }] + pending
    } else {
        pending
    }
}

/// What another pen does while one is in use changes nothing.
pub proof fn law_one_pen_at_a_time(frame: PenFrame, id: StylusId, event: StylusEvent, point: Option<Point>)
    requires
        frame.active == Some(id),
        event.id != id,
    ensures
        frame.after(event, point) == frame,
{
}

/// Every sample of a frame is at a place on the document, or at the last place of the pen on
/// it.
pub proof fn law_samples_are_on_the_document(
    active: Option<StylusId>,
    last_point: Option<Point>,
    events: Seq<StylusEvent>,
    points: Seq<Option<Point>>,
    i: int,
)
    requires
        points.len() == events.len(),
        0 <= i < frame_start(active, last_point).after_all(events, points).samples.len(),
    ensures
        ({
            let at = frame_start(active, last_point).after_all(events, points).samples[i].point;
            points.contains(Some(at)) || last_point == Some(at)
        }),
    decreases events.len(),
{
    lemma_frame_points(active, last_point, events, points);
}

proof fn lemma_frame_points(
    active: Option<StylusId>,
    last_point: Option<Point>,
    events: Seq<StylusEvent>,
    points: Seq<Option<Point>>,
)
    requires
        points.len() == events.len(),
    ensures
        ({
            let end = frame_start(active, last_point).after_all(events, points);
            &&& forall|i: int|
                0 <= i < end.samples.len() ==> points.contains(
                    Some((#[trigger] end.samples[i]).point),
                ) || last_point == Some(end.samples[i].point)
            &&& end.last_point matches Some(at) ==> points.contains(Some(at)) || last_point == Some(
                at,
            )
        }),
    decreases events.len(),
{
    if events.len() > 0 {
        let fewer = points.drop_last();
        lemma_frame_points(active, last_point, events.drop_last(), fewer);
        let before = frame_start(active, last_point).after_all(events.drop_last(), fewer);
        let end = before.after(events.last(), points.last());
        assert forall|at: Point| fewer.contains(Some(at)) implies points.contains(Some(at)) by {
            let k = choose|k: int| 0 <= k < fewer.len() && fewer[k] == Some(at);
            assert(points[k] == Some(at));
        }
        assert(points.contains(points.last())) by {
            assert(points[points.len() - 1] == points.last());
        }
        assert forall|i: int| 0 <= i < end.samples.len() implies points.contains(
            Some((#[trigger] end.samples[i]).point),
        ) || last_point == Some(end.samples[i].point) by {
            if i < before.samples.len() {
                assert(end.samples[i] == before.samples[i]);
            }
        }
    }
}

} // verus!
