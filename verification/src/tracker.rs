//! The hit latch: one recorded hit per uninterrupted run of detections.

use vstd::prelude::*;
use crate::centroid::{centroid, mean_point};
use crate::geometry::Point;

verus! {

/// What a tracker holds, as mathematical values.
pub struct TrackerState {
    /// Whether the latest processed frame had a centroid.
    pub trigger: bool,
    /// The recorded hits, oldest first.
    pub hits: Seq<Point>,
}

impl TrackerState {
    /// The state of a tracker that has seen nothing yet.
    pub open spec fn initial() -> TrackerState {
        TrackerState { trigger: false, hits: Seq::empty() }
    }

    /// The state after a frame with the given centroid.
    ///
    /// A centroid seen while the trigger is clear is recorded and sets the
    /// trigger; one seen while the trigger is set changes nothing; a frame
    /// without a centroid clears the trigger and keeps the hits.
    pub open spec fn after(self, centroid: Option<Point>) -> TrackerState {
        match centroid {
            Some(c) => if self.trigger {
                self
            } else {
                TrackerState { trigger: true, hits: self.hits.push(c) }
            },
            None => TrackerState { trigger: false, hits: self.hits },
        }
    }

    /// The state after the reset command: no hits, the trigger as it was.
    pub open spec fn cleared(self) -> TrackerState {
        TrackerState { trigger: self.trigger, hits: Seq::empty() }
    }

    /// The state after a sequence of frames with the given centroids.
    pub open spec fn after_all(self, centroids: Seq<Option<Point>>) -> TrackerState
        decreases centroids.len(),
    {
        if centroids.len() == 0 {
            self
        } else {
            self.after_all(centroids.drop_last()).after(centroids.last())
        }
    }
}

/// Whether frame `i` opens a run of detections: it has a centroid and the
/// frame before it has none. The first frame opens a run if it has a centroid
/// and the trigger was clear before it.
///
/// Every maximal run of frames with a centroid has exactly one such frame, its
/// first, so the opening frames count the runs: `lemma_runs_match_openings`.
pub open spec fn opens_run(trigger: bool, centroids: Seq<Option<Point>>, i: int) -> bool {
    &&& 0 <= i < centroids.len()
    &&& centroids[i] is Some
    &&& if i == 0 {
        !trigger
    } else {
        centroids[i - 1] is None
    }
}

/// Whether the frames from `start` up to, not including, `end` are a maximal
/// run of detections that begins within the sequence: each of them has a
/// centroid, the frame before `start` has none, and so has the frame at
/// `end`, if there is one. A run that reaches back before the first frame, as
/// the set trigger shows, began earlier and is not among these.
pub open spec fn is_maximal_run(
    trigger: bool,
    centroids: Seq<Option<Point>>,
    start: int,
    end: int,
) -> bool {
    &&& 0 <= start < end <= centroids.len()
    &&& forall|k: int| start <= k < end ==> (#[trigger] centroids[k]) is Some
    &&& if start == 0 {
        !trigger
    } else {
        centroids[start - 1] is None
    }
    &&& end < centroids.len() ==> centroids[end] is None
}

/// The first frame from `i` on that has no centroid, or the number of frames
/// if there is none.
pub open spec fn run_end(centroids: Seq<Option<Point>>, i: int) -> int
    decreases centroids.len() - i,
{
    if 0 <= i < centroids.len() && centroids[i] is Some {
        run_end(centroids, i + 1)
    } else {
        i
    }
}

/// All frames from `i` up to `run_end` have a centroid, and the frame at
/// `run_end`, if there is one, has none.
proof fn lemma_run_end(centroids: Seq<Option<Point>>, i: int)
    requires
        0 <= i <= centroids.len(),
    ensures
        i <= run_end(centroids, i) <= centroids.len(),
        forall|k: int| i <= k < run_end(centroids, i) ==> (#[trigger] centroids[k]) is Some,
        run_end(centroids, i) < centroids.len() ==> centroids[run_end(centroids, i)] is None,
        i < centroids.len() && centroids[i] is Some ==> i < run_end(centroids, i),
    decreases centroids.len() - i,
{
    if i < centroids.len() && centroids[i] is Some {
        lemma_run_end(centroids, i + 1);
    }
}

/// The maximal runs of detections and the frames that open a run match one
/// to one: every run begins with a frame that opens it and holds no other
/// such frame, and every frame that opens a run begins exactly one run.
pub proof fn lemma_runs_match_openings(trigger: bool, centroids: Seq<Option<Point>>)
    ensures
        forall|start: int, end: int| #[trigger]
            is_maximal_run(trigger, centroids, start, end) ==> opens_run(
                trigger,
                centroids,
                start,
            ) && end == run_end(centroids, start),
        forall|start: int, end: int, k: int|
            #![trigger
                is_maximal_run(trigger, centroids, start, end),
                opens_run(trigger, centroids, k)
            ]
            is_maximal_run(trigger, centroids, start, end) && start < k < end ==> !opens_run(
                trigger,
                centroids,
                k,
            ),
        forall|i: int| #[trigger]
            opens_run(trigger, centroids, i) ==> is_maximal_run(
                trigger,
                centroids,
                i,
                run_end(centroids, i),
            ),
{
    assert forall|start: int, end: int| #[trigger]
        is_maximal_run(trigger, centroids, start, end) implies opens_run(
        trigger,
        centroids,
        start,
    ) && end == run_end(centroids, start) by {
        assert(centroids[start] is Some);
        lemma_run_end(centroids, start);
        let other = run_end(centroids, start);
        if other < end {
            assert(centroids[other] is Some);
        }
        if end < other {
            assert(centroids[end] is Some);
        }
    }
    assert forall|start: int, end: int, k: int|
        #![trigger
            is_maximal_run(trigger, centroids, start, end),
            opens_run(trigger, centroids, k)
        ]
        is_maximal_run(trigger, centroids, start, end) && start < k < end implies !opens_run(
        trigger,
        centroids,
        k,
    ) by {
        assert(centroids[k - 1] is Some);
    }
    assert forall|i: int| #[trigger] opens_run(trigger, centroids, i) implies is_maximal_run(
        trigger,
        centroids,
        i,
        run_end(centroids, i),
    ) by {
        lemma_run_end(centroids, i);
    }
}

/// The indices of the frames that open a run of detections.
pub open spec fn run_openings(trigger: bool, centroids: Seq<Option<Point>>) -> Set<int> {
    Set::new(|i: int| opens_run(trigger, centroids, i))
}

/// The centroids of the frames that open a run of detections, in frame order.
pub open spec fn first_detections(trigger: bool, centroids: Seq<Option<Point>>) -> Seq<Point>
    decreases centroids.len(),
{
    if centroids.len() == 0 {
        Seq::empty()
    } else {
        let earlier = first_detections(trigger, centroids.drop_last());
        if opens_run(trigger, centroids, centroids.len() - 1) {
            earlier.push(centroids.last()->0)
        } else {
            earlier
        }
    }
}

/// After any sequence of frames the trigger says whether the last frame had a
/// centroid; with no frames it is as it was.
pub proof fn lemma_trigger_follows_last_frame(state: TrackerState, centroids: Seq<Option<Point>>)
    ensures
        state.after_all(centroids).trigger == if centroids.len() == 0 {
            state.trigger
        } else {
            centroids.last() is Some
        },
{
}

/// A sequence of frames appends to the hits the first centroid of each run of
/// detections, in frame order, and nothing else.
pub proof fn lemma_hits_are_first_detections(state: TrackerState, centroids: Seq<Option<Point>>)
    ensures
        state.after_all(centroids).hits == state.hits + first_detections(
            state.trigger,
            centroids,
        ),
    decreases centroids.len(),
{
    if centroids.len() > 0 {
        let earlier = centroids.drop_last();
        lemma_hits_are_first_detections(state, earlier);
        lemma_trigger_follows_last_frame(state, earlier);
    }
}

/// There is one first detection for each frame that opens a run.
pub proof fn lemma_first_detections_count(trigger: bool, centroids: Seq<Option<Point>>)
    ensures
        run_openings(trigger, centroids).finite(),
        first_detections(trigger, centroids).len() == run_openings(trigger, centroids).len(),
        forall|i: int| run_openings(trigger, centroids).contains(i) ==> 0 <= i < centroids.len(),
    decreases centroids.len(),
{
    let openings = run_openings(trigger, centroids);
    if centroids.len() == 0 {
        assert(openings =~= Set::<int>::empty());
    } else {
        let earlier = centroids.drop_last();
        let n = centroids.len() - 1;
        lemma_first_detections_count(trigger, earlier);
        let before = run_openings(trigger, earlier);
        assert(forall|i: int|
            0 <= i < n ==> opens_run(trigger, earlier, i) == opens_run(trigger, centroids, i));
        if opens_run(trigger, centroids, n) {
            assert(openings =~= before.insert(n));
        } else {
            assert(openings =~= before);
        }
    }
}

/// A sequence of frames adds exactly one hit for each maximal run of frames
/// with a centroid. A run that was under way before the first frame, as the
/// set trigger shows, adds none.
pub proof fn lemma_one_hit_per_run(state: TrackerState, centroids: Seq<Option<Point>>)
    ensures
        run_openings(state.trigger, centroids).finite(),
        state.after_all(centroids).hits.len() == state.hits.len() + run_openings(
            state.trigger,
            centroids,
        ).len(),
        state.hits.is_prefix_of(state.after_all(centroids).hits),
{
    lemma_hits_are_first_detections(state, centroids);
    lemma_first_detections_count(state.trigger, centroids);
}

/// What one frame did to a tracker.
#[derive(Clone, Copy, Debug, PartialEq, Eq, Structural)]
pub struct Detection {
    /// The centroid of the frame's bright pixels, if it had any.
    pub centroid: Option<Point>,
    /// Whether the centroid was recorded as a new hit.
    pub recorded: bool,
}

/// The trigger and the history of hits of one acquisition session.
#[derive(Debug)]
pub struct HitTracker {
    trigger: bool,
    hits: Vec<Point>,
}

impl View for HitTracker {
    type V = TrackerState;

    closed spec fn view(&self) -> TrackerState {
        TrackerState { trigger: self.trigger, hits: self.hits@ }
    }
}

impl HitTracker {
    /// A tracker with a clear trigger and no hits.
    pub fn new() -> (tracker: HitTracker)
        ensures
            tracker@ == TrackerState::initial(),
    {
        HitTracker { trigger: false, hits: Vec::new() }
    }

    /// Whether the latest processed frame had a centroid.
    pub fn trigger(&self) -> (trigger: bool)
        ensures
            trigger == self@.trigger,
    {
        self.trigger
    }

    /// The recorded hits, oldest first.
    pub fn hits(&self) -> (hits: &Vec<Point>)
        ensures
            hits@ == self@.hits,
    {
        &self.hits
    }

    /// Takes in the centroid of one frame and says whether it was recorded.
    ///
    /// Only the first centroid of an uninterrupted run of detections is
    /// recorded; a frame without a centroid ends the run.
    pub fn observe(&mut self, centroid: Option<Point>) -> (recorded: bool)
        ensures
            final(self)@ == old(self)@.after(centroid),
            recorded == (centroid is Some && !old(self)@.trigger),
            centroid is None ==> !final(self)@.trigger && final(self)@.hits == old(self)@.hits,
    {
        match centroid {
            Some(c) => {
                if self.trigger {
                    false
                } else {
                    self.hits.push(c);
                    self.trigger = true;
                    true
                }
            },
            None => {
                self.trigger = false;
                false
            },
        }
    }

    /// Averages the bright pixels of one frame and takes in their centroid.
    ///
    /// With no bright pixels there is no centroid, the trigger is cleared and
    /// the hits stay as they are.
    pub fn track(&mut self, points: Vec<Point>) -> (detection: Detection)
        ensures
            detection.centroid == centroid(points@),
            detection.recorded == (points@.len() > 0 && !old(self)@.trigger),
            final(self)@ == old(self)@.after(centroid(points@)),
            points@.len() == 0 ==> detection.centroid is None && !final(self)@.trigger
                && final(self)@.hits == old(self)@.hits,
    {
        let centroid: Option<Point> = mean_point(points);
        let recorded: bool = self.observe(centroid);
        Detection { centroid, recorded }
    }

    /// Forgets every recorded hit. The trigger is left as it is, so a run of
    /// detections that is under way is not recorded again.
    pub fn reset(&mut self)
        ensures
            final(self)@ == old(self)@.cleared(),
            final(self)@.hits == Seq::<Point>::empty(),
            final(self)@.trigger == old(self)@.trigger,
    {
        self.hits = Vec::new();
    }
}

} // verus!
