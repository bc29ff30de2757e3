//! The set of fingers that are down, and what is reported for their samples.

use super::finger::TrackedFinger;
use super::Swipe;
use super::Trigger;
use super::SWIPE_DIRECTION_COMPLETED_MIN_CHUNK_COUNT;
use crate::geometry::Position;
use crate::input::MultitouchEvent;
use crate::id_map;
use fxhash::FxHashMap;
use vstd::prelude::*;

verus! {

/// The index of the first swipe at or after index `from` of `conditions` that
/// is reported for `finger`.
pub open spec fn first_fired_from(
    conditions: Seq<Swipe>,
    finger: TrackedFinger,
    lifted: bool,
    from: int,
) -> Option<int>
    decreases conditions.len() - from,
{
    if from < 0 || from >= conditions.len() {
        None
    } else if finger.fires(conditions[from], lifted) {
        Some(from)
    } else {
        first_fired_from(conditions, finger, lifted, from + 1)
    }
}

/// The index of the first swipe in `conditions` that is reported for
/// `finger`.
pub open spec fn first_fired(conditions: Seq<Swipe>, finger: TrackedFinger, lifted: bool) -> Option<
    int,
> {
    first_fired_from(conditions, finger, lifted, 0)
}

/// The swipe at index `index` of `conditions`, if there is an index.
pub open spec fn swipe_at(conditions: Seq<Swipe>, index: Option<int>) -> Option<Swipe> {
    match index {
        Some(i) => Some(conditions[i]),
        None => None,
    }
}

/// The swipe that a report refers to.
pub open spec fn reported(fired: Option<&Swipe>) -> Option<Swipe> {
    match fired {
        Some(swipe) => Some(*swipe),
        None => None,
    }
}

/// The fingers that are down after a finger has touched down at `pos` under
/// `tracking_id`.
pub open spec fn after_press(
    fingers: Map<i32, TrackedFinger>,
    tracking_id: i32,
    pos: Position,
) -> Map<i32, TrackedFinger> {
    fingers.insert(tracking_id, TrackedFinger::fresh(pos))
}

/// The index of the swipe in `conditions` that is reported when the finger
/// `tracking_id` moves to `pos`.
pub open spec fn move_report(
    fingers: Map<i32, TrackedFinger>,
    tracking_id: i32,
    pos: Position,
    conditions: Seq<Swipe>,
) -> Option<int> {
    if fingers.contains_key(tracking_id) {
        first_fired(conditions, fingers[tracking_id].updated(pos), false)
    } else {
        None
    }
}

/// The fingers that are down after the finger `tracking_id` has moved to
/// `pos`. A finger for which a swipe is reported starts over at its anchor.
pub open spec fn after_move(
    fingers: Map<i32, TrackedFinger>,
    tracking_id: i32,
    pos: Position,
    conditions: Seq<Swipe>,
) -> Map<i32, TrackedFinger> {
    if fingers.contains_key(tracking_id) {
        let finger = fingers[tracking_id].updated(pos);
        if first_fired(conditions, finger, false) is Some {
            fingers.insert(tracking_id, TrackedFinger::fresh(finger.last_pos))
        } else {
            fingers.insert(tracking_id, finger)
        }
    } else {
        fingers
    }
}

/// The index of the swipe in `conditions` that is reported when the finger
/// `tracking_id` lifts.
pub open spec fn release_report(
    fingers: Map<i32, TrackedFinger>,
    tracking_id: i32,
    conditions: Seq<Swipe>,
) -> Option<int> {
    if fingers.contains_key(tracking_id) {
        first_fired(conditions, fingers[tracking_id], true)
    } else {
        None
    }
}

/// The fingers that are down after the sample `event`.
pub open spec fn after_event(
    fingers: Map<i32, TrackedFinger>,
    event: MultitouchEvent,
    conditions: Seq<Swipe>,
) -> Map<i32, TrackedFinger> {
    match event {
        MultitouchEvent::Press { finger } => after_press(fingers, finger.tracking_id, finger.pos),
        MultitouchEvent::Move { finger } => after_move(
            fingers,
            finger.tracking_id,
            finger.pos,
            conditions,
        ),
        MultitouchEvent::Release { finger } => fingers.remove(finger.tracking_id),
        MultitouchEvent::Unknown => fingers,
    }
}

/// The index of the swipe in `conditions` that is reported for the sample
/// `event`.
pub open spec fn event_report(
    fingers: Map<i32, TrackedFinger>,
    event: MultitouchEvent,
    conditions: Seq<Swipe>,
) -> Option<int> {
    match event {
        MultitouchEvent::Press { finger } => None,
        MultitouchEvent::Move { finger } => move_report(
            fingers,
            finger.tracking_id,
            finger.pos,
            conditions,
        ),
        MultitouchEvent::Release { finger } => release_report(fingers, finger.tracking_id, conditions),
        MultitouchEvent::Unknown => None,
    }
}

/// The first of `conditions`, in list order, that is reported for `finger`.
pub fn find_fired<'a>(conditions: &'a [Swipe], finger: &TrackedFinger, lifted: bool) -> (fired:
    Option<&'a Swipe>)
    ensures
        reported(fired) == swipe_at(conditions@, first_fired(conditions@, *finger, lifted)),
{
    let mut i: usize = 0;
    while i < conditions.len()
        invariant
            i <= conditions.len(),
            first_fired(conditions@, *finger, lifted) == first_fired_from(
                conditions@,
                *finger,
                lifted,
                i as int,
            ),
        decreases conditions.len() - i,
    {
        if finger.is_fired(&conditions[i], lifted) {
            return Some(&conditions[i]);
        }
        i = i + 1;
    }
    None
}

/// What `first_fired_from` finds is the first index at or after `from` whose
/// swipe fires, and it finds nothing only where no swipe from `from` on fires.
pub proof fn lemma_first_fired_from(
    conditions: Seq<Swipe>,
    finger: TrackedFinger,
    lifted: bool,
    from: int,
)
    requires
        0 <= from <= conditions.len(),
    ensures
        match first_fired_from(conditions, finger, lifted, from) {
            Some(i) => {
                &&& from <= i < conditions.len()
                &&& finger.fires(conditions[i], lifted)
                &&& forall|j: int| from <= j < i ==> !finger.fires(#[trigger] conditions[j], lifted)
            },
            None => forall|j: int|
                from <= j < conditions.len() ==> !finger.fires(#[trigger] conditions[j], lifted),
        },
    decreases conditions.len() - from,
{
    if from < conditions.len() && !finger.fires(conditions[from], lifted) {
        lemma_first_fired_from(conditions, finger, lifted, from + 1);
    }
}

/// The swipe that is reported is one that fires, and no swipe before it in
/// the list fires. Nothing is reported only where no swipe in the list fires.
pub proof fn lemma_first_fired_is_first(conditions: Seq<Swipe>, finger: TrackedFinger, lifted: bool)
    ensures
        match first_fired(conditions, finger, lifted) {
            Some(i) => {
                &&& 0 <= i < conditions.len()
                &&& finger.fires(conditions[i], lifted)
                &&& forall|j: int| 0 <= j < i ==> !finger.fires(#[trigger] conditions[j], lifted)
            },
            None => forall|j: int|
                0 <= j < conditions.len() ==> !finger.fires(#[trigger] conditions[j], lifted),
        },
{
    lemma_first_fired_from(conditions, finger, lifted, 0);
}

/// Where two swipes in the list both fire, whatever their triggers, the one
/// that stands later is not reported: the report is the swipe at `earlier` or
/// one before it, and it is the one at `earlier` if none before it fires.
pub proof fn lemma_first_in_list_wins(
    conditions: Seq<Swipe>,
    finger: TrackedFinger,
    lifted: bool,
    earlier: int,
    later: int,
)
    requires
        0 <= earlier < later < conditions.len(),
        finger.fires(conditions[earlier], lifted),
        finger.fires(conditions[later], lifted),
    ensures
        first_fired(conditions, finger, lifted) is Some,
        first_fired(conditions, finger, lifted)->0 <= earlier,
        first_fired(conditions, finger, lifted) != Some(later),
        (forall|j: int| 0 <= j < earlier ==> !finger.fires(#[trigger] conditions[j], lifted))
            ==> first_fired(conditions, finger, lifted) == Some(earlier),
{
    lemma_first_fired_is_first(conditions, finger, lifted);
}

/// A finger that lifts with fewer counted chunks than a completed swipe
/// needs, or without a direction, has nothing reported, whatever the list.
pub proof fn lemma_completed_needs_chunks(conditions: Seq<Swipe>, finger: TrackedFinger)
    requires
        finger.swipe_chunk_count < SWIPE_DIRECTION_COMPLETED_MIN_CHUNK_COUNT
            || finger.direction is None,
    ensures
        first_fired(conditions, finger, true) is None,
{
    lemma_first_fired_is_first(conditions, finger, true);
}

/// A finger that lifts with a direction and with at least the counted chunks
/// that a completed swipe needs has the completed swipe in its direction
/// reported, if the list holds one.
pub proof fn lemma_completed_is_reported(conditions: Seq<Swipe>, finger: TrackedFinger, at: int)
    requires
        finger.swipe_chunk_count >= SWIPE_DIRECTION_COMPLETED_MIN_CHUNK_COUNT,
        finger.direction is Some,
        0 <= at < conditions.len(),
        conditions[at] == (Swipe {
            direction: finger.direction->0,
            trigger: Trigger::Completed,
        }),
    ensures
        swipe_at(conditions, first_fired(conditions, finger, true)) == Some(conditions[at]),
{
    lemma_first_fired_is_first(conditions, finger, true);
}

/// While a finger is down only swipes with a minimum distance are reported,
/// and when it lifts only completed swipes are. Either way the reported swipe
/// has the finger's direction.
pub proof fn lemma_report_fits_the_moment(
    conditions: Seq<Swipe>,
    finger: TrackedFinger,
    lifted: bool,
)
    ensures
        match swipe_at(conditions, first_fired(conditions, finger, lifted)) {
            Some(swipe) => {
                &&& finger.direction == Some(swipe.direction)
                &&& lifted <==> swipe.trigger is Completed
                &&& !lifted <==> swipe.trigger is MinDistance
            },
            None => true,
        },
{
    lemma_first_fired_is_first(conditions, finger, lifted);
}

/// A finger for which a swipe is reported while it is down starts over: it
/// is then in the state of a finger that has just touched down at the
/// finger's anchor, so that the same swipe can be reported again without the
/// finger being lifted. Where the move was at least a chunk long, the anchor
/// is the place that the finger moved to.
pub proof fn lemma_report_starts_over(
    fingers: Map<i32, TrackedFinger>,
    tracking_id: i32,
    pos: Position,
    conditions: Seq<Swipe>,
)
    requires
        move_report(fingers, tracking_id, pos, conditions) is Some,
    ensures
        fingers.contains_key(tracking_id),
        after_move(fingers, tracking_id, pos, conditions)[tracking_id] == TrackedFinger::fresh(
            fingers[tracking_id].updated(pos).last_pos,
        ),
        fingers[tracking_id].crosses_chunk(pos) ==> after_move(
            fingers,
            tracking_id,
            pos,
            conditions,
        )[tracking_id] == TrackedFinger::fresh(pos),
        after_move(fingers, tracking_id, pos, conditions).dom() == fingers.dom(),
{
    lemma_first_fired_is_first(conditions, fingers[tracking_id].updated(pos), false);
    assert(after_move(fingers, tracking_id, pos, conditions).dom() =~= fingers.dom());
}

/// Samples of one finger leave the other fingers as they are, and a sample
/// of a finger that is not down, other than a press, changes nothing.
pub proof fn lemma_fingers_are_independent(
    fingers: Map<i32, TrackedFinger>,
    event: MultitouchEvent,
    conditions: Seq<Swipe>,
    other: i32,
)
    ensures
        match event {
            MultitouchEvent::Press { finger } => other != finger.tracking_id ==> {
                &&& after_event(fingers, event, conditions).contains_key(other)
                    == fingers.contains_key(other)
                &&& after_event(fingers, event, conditions)[other] == fingers[other]
            },
            MultitouchEvent::Move { finger } => {
                &&& other != finger.tracking_id ==> {
                    &&& after_event(fingers, event, conditions).contains_key(other)
                        == fingers.contains_key(other)
                    &&& after_event(fingers, event, conditions)[other] == fingers[other]
                }
                &&& !fingers.contains_key(finger.tracking_id) ==> {
                    &&& after_event(fingers, event, conditions) == fingers
                    &&& event_report(fingers, event, conditions) is None
                }
            },
            MultitouchEvent::Release { finger } => {
                &&& other != finger.tracking_id ==> {
                    &&& after_event(fingers, event, conditions).contains_key(other)
                        == fingers.contains_key(other)
                    &&& after_event(fingers, event, conditions)[other] == fingers[other]
                }
                &&& !after_event(fingers, event, conditions).contains_key(finger.tracking_id)
                &&& !fingers.contains_key(finger.tracking_id) ==> {
                    &&& after_event(fingers, event, conditions) == fingers
                    &&& event_report(fingers, event, conditions) is None
                }
            },
            MultitouchEvent::Unknown => {
                &&& after_event(fingers, event, conditions) == fingers
                &&& event_report(fingers, event, conditions) is None
            },
        },
{
    match event {
        MultitouchEvent::Release { finger } => {
            if !fingers.contains_key(finger.tracking_id) {
                assert(fingers.remove(finger.tracking_id) =~= fingers);
            }
        },
        _ => {},
    }
}

/// Tracks every finger that is down and reports the swipes they make.
pub struct SwipeTracker {
    trackings: FxHashMap<i32, TrackedFinger>,
}

impl View for SwipeTracker {
    type V = Map<i32, TrackedFinger>;

    /// The fingers that are down, by tracking id.
    closed spec fn view(&self) -> Map<i32, TrackedFinger> {
        self.trackings@
    }
}

impl SwipeTracker {
    /// A tracker with no finger down.
    pub fn new() -> (tracker: Self)
        ensures
            (tracker@ == Map::<i32, TrackedFinger>::empty()),
    {
        Self { trackings: FxHashMap::default() }
    }

    /// The state of the finger `tracking_id`, if it is down.
    pub fn finger(&self, tracking_id: i32) -> (finger: Option<TrackedFinger>)
        ensures
            finger == if self@.contains_key(tracking_id) {
                Some(self@[tracking_id])
            } else {
                None
            },
    {
        match id_map::get(&self.trackings, tracking_id) {
            Some(finger) => Some(*finger),
            None => None,
        }
    }

    /// A finger has touched down at `pos`. Whatever was known of a finger
    /// with the same id is forgotten.
    pub fn on_press(&mut self, tracking_id: i32, pos: Position)
        ensures
            final(self)@ == after_press(old(self)@, tracking_id, pos),
    {
        id_map::insert(&mut self.trackings, tracking_id, TrackedFinger::new(pos));
    }

    /// The finger `tracking_id` has moved to `pos`. Reports the first of
    /// `conditions` whose minimum distance the finger has now travelled in
    /// the swipe's direction; the finger then starts over at its anchor. A
    /// finger that is not tracked is ignored.
    pub fn on_move<'a>(&mut self, tracking_id: i32, pos: Position, conditions: &'a [Swipe]) -> (fired:
        Option<&'a Swipe>)
        ensures
            final(self)@ == after_move(old(self)@, tracking_id, pos, conditions@),
            reported(fired) == swipe_at(conditions@, move_report(old(self)@, tracking_id, pos, conditions@)),
    {
        let mut tracked_finger = match id_map::get(&self.trackings, tracking_id) {
            Some(tracked_finger) => *tracked_finger,
            None => {
                return None;
            },
        };
        tracked_finger.update(pos);
        let fired = find_fired(conditions, &tracked_finger, false);
        if fired.is_some() {
            tracked_finger = TrackedFinger::new(tracked_finger.last_pos);
        }
        id_map::insert(&mut self.trackings, tracking_id, tracked_finger);
        fired
    }

    /// The finger `tracking_id` has lifted and is no longer tracked. Reports
    /// the first of `conditions` that is a completed swipe in the finger's
    /// direction, if the finger has counted enough chunks. A finger that is
    /// not tracked is ignored.
    pub fn on_release<'a>(&mut self, tracking_id: i32, conditions: &'a [Swipe]) -> (fired: Option<
        &'a Swipe,
    >)
        ensures
            final(self)@ == old(self)@.remove(tracking_id),
            reported(fired) == swipe_at(conditions@, release_report(old(self)@, tracking_id, conditions@)),
    {
        match id_map::remove(&mut self.trackings, tracking_id) {
            Some(tracked_finger) => find_fired(conditions, &tracked_finger, true),
            None => None,
        }
    }

    /// Takes in one sample from the touchscreen and reports the swipe of
    /// `conditions` that it completes, if any.
    pub fn detect<'a>(&mut self, event: MultitouchEvent, conditions: &'a [Swipe]) -> (fired: Option<
        &'a Swipe,
    >)
        ensures
            final(self)@ == after_event(old(self)@, event, conditions@),
            reported(fired) == swipe_at(conditions@, event_report(old(self)@, event, conditions@)),
    {
        match event {
            MultitouchEvent::Press { finger } => {
                self.on_press(finger.tracking_id, finger.pos);
                None
            },
            MultitouchEvent::Move { finger } => self.on_move(finger.tracking_id, finger.pos, conditions),
            MultitouchEvent::Release { finger } => self.on_release(finger.tracking_id, conditions),
            MultitouchEvent::Unknown => None,
        }
    }
}

} // verus!
