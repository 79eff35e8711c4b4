//! Ghost resolution: seeing through pass-through platforms.
//!
//! A [`SensingPass`] is one sensor's work in one tick. It asks for a cast,
//! takes the answer, and either concludes or asks again from where the last
//! ghost platform was met. The caller performs the casts; every decision is
//! taken here, by [`PassState::after`].

use crate::candidate::{Candidate, CastFilter, OwnerCollider, Screening};
use crate::entity::{EntityId, EntitySet};
use crate::groups::InteractionGroups;
use crate::scalar::{raw_product, scaled_product, Scalar};
use crate::sensor::{admissible_direction, Observation, SensorConfig, SensorOutput};
use crate::toggle::Toggle;
use crate::transform::held;
use crate::vector::Vector3;
use vstd::prelude::*;

verus! {

/// What the backend is to send along the cast direction.
#[derive(Clone, Copy, Debug, PartialEq, Eq, Structural)]
pub enum CastMethod {
    /// A ray.
    Ray,
    /// The shape that the sensor is given in place of a ray.
    Shape,
}

/// A cast that a pass asks the backend for.
#[derive(Clone, Copy, Debug, PartialEq, Eq, Structural)]
pub struct CastRequest {
    /// What is cast.
    pub method: CastMethod,
    /// How far along the cast direction, from the cast origin, the cast starts.
    pub skip: Scalar,
    /// How far the cast may travel from there.
    pub max_distance: Scalar,
}

/// The state of a pass, as the contracts speak of it.
pub struct PassState {
    /// By what candidates are screened.
    pub screening: Screening,
    /// What the backend leaves out of each cast.
    pub filter: CastFilter,
    /// What is cast.
    pub method: CastMethod,
    /// The cast origin of the sensor.
    pub origin: Vector3,
    /// The cast range of the sensor.
    pub range: Scalar,
    /// How far from the cast origin the next cast starts.
    pub skip: Scalar,
    /// The ghost platforms gone through so far.
    pub visited: Set<EntityId>,
    /// The ghost platforms reported so far, nearest first, where the sensor
    /// reports them.
    pub ghost_hits: Option<Seq<SensorOutput>>,
    /// `None` while a cast is wanted; afterwards what the pass concluded.
    pub outcome: Option<Option<SensorOutput>>,
}

impl PassState {
    /// The state a pass starts in.
    ///
    /// With a range of zero there is nothing to cast: the pass has concluded
    /// at once that nothing is hit.
    pub open spec fn initial(
        config: SensorConfig,
        owner: EntityId,
        owner_collider: Option<OwnerCollider>,
        reports_ghosts: bool,
        casts_shape: bool,
    ) -> PassState {
        PassState {
            screening: Screening {
                owner,
                owner_solver_groups: match owner_collider {
                    Some(collider) => collider.solver_groups,
                    None => InteractionGroups::everything(),
                },
                cutoff: config.intersection_match_prevention_cutoff(),
                direction: config.cast_direction(),
            },
            filter: Screening::cast_filter_of(owner, owner_collider),
            method: if casts_shape {
                CastMethod::Shape
            } else {
                CastMethod::Ray
            },
            origin: config.cast_origin(),
            range: config.cast_range(),
            skip: 0,
            visited: Set::empty(),
            ghost_hits: if reports_ghosts {
                Some(Seq::empty())
            } else {
                None
            },
            outcome: if config.cast_range() <= 0 {
                Some(None)
            } else {
                None
            },
        }
    }

    /// What holds of every state a pass goes through.
    ///
    /// In particular no entity is reported twice as a ghost platform, the
    /// reports are in ascending order of distance, and a concluded hit is not
    /// one of the platforms gone through.
    pub open spec fn wf(self) -> bool {
        &&& admissible_direction(self.screening.direction)
        &&& 0 <= self.skip <= self.range
        &&& self.visited.finite()
        &&& match self.ghost_hits {
            Some(hits) => {
                &&& forall|i: int|
                    0 <= i < hits.len() ==> self.visited.contains((#[trigger] hits[i]).entity) && 0
                        <= hits[i].proximity <= self.skip
                &&& forall|i: int, j: int|
                    0 <= i < j < hits.len() ==> (#[trigger] hits[i]).entity != (
                    #[trigger] hits[j]).entity && hits[i].proximity <= hits[j].proximity
            },
            None => true,
        }
        &&& match self.outcome {
            Some(Some(found)) => !self.visited.contains(found.entity) && self.skip
                <= found.proximity <= self.range,
            _ => true,
        }
    }

    /// Whether the pass still wants a cast.
    pub open spec fn pending(self) -> bool {
        self.outcome is None
    }

    /// The cast the pass wants next, if it wants one: from the current skip,
    /// over what is left of the range.
    pub open spec fn request(self) -> Option<CastRequest> {
        if self.pending() {
            Some(
                CastRequest {
                    method: self.method,
                    skip: self.skip,
                    max_distance: (self.range - self.skip) as i64,
                },
            )
        } else {
            None
        }
    }

    /// Where the next cast starts: the cast origin, moved by the current skip
    /// along the cast direction. `None` where that point cannot be
    /// represented.
    pub open spec fn cast_start(self) -> Option<Vector3> {
        held(
            (
                self.origin.x + scaled_product(self.skip as int, self.screening.direction.x as int),
                self.origin.y + scaled_product(self.skip as int, self.screening.direction.y as int),
                self.origin.z + scaled_product(self.skip as int, self.screening.direction.z as int),
            ),
        )
    }

    /// What the pass has concluded: the hit it found, or `None` where it
    /// found none or has not concluded yet.
    pub open spec fn output(self) -> Option<SensorOutput> {
        match self.outcome {
            Some(found) => found,
            None => None,
        }
    }

    /// Whether a hit lies within the cast that was asked for.
    pub open spec fn within_span(self, time_of_impact: Scalar) -> bool {
        0 <= time_of_impact <= self.range - self.skip
    }

    /// This state, concluded.
    pub open spec fn concluded(self, found: Option<SensorOutput>) -> PassState {
        PassState { outcome: Some(found), ..self }
    }

    /// This state after a ghost platform was met: the platform is visited and
    /// reported, and the next cast starts where it was met.
    pub open spec fn past_ghost(self, seen: Observation) -> PassState {
        PassState {
            skip: (self.skip + seen.hit.time_of_impact) as i64,
            visited: self.visited.insert(seen.hit.entity),
            ghost_hits: match self.ghost_hits {
                Some(hits) => Some(hits.push(seen.output_at(self.skip, self.screening.direction))),
                None => None,
            },
            ..self
        }
    }

    /// The state after the backend's answer to the cast that was asked for.
    ///
    /// - No hit, a hit outside the span that was asked for, or a hit on a
    ///   platform already gone through: the pass concludes that nothing is
    ///   hit.
    /// - A hit on a ghost platform: the pass goes past it and asks again.
    /// - Any other hit: the pass concludes with it.
    ///
    /// A pass that has concluded stays as it is.
    pub open spec fn after(self, answer: Option<Observation>) -> PassState {
        if !self.pending() {
            self
        } else {
            match answer {
                None => self.concluded(None),
                Some(seen) => if !self.within_span(seen.hit.time_of_impact)
                    || self.visited.contains(seen.hit.entity) {
                    self.concluded(None)
                } else if seen.is_ghost {
                    self.past_ghost(seen)
                } else {
                    self.concluded(Some(seen.output_at(self.skip, self.screening.direction)))
                },
            }
        }
    }

    /// Whether this is the state of a pass that has not cast yet.
    pub open spec fn fresh(self) -> bool {
        &&& self.skip == 0
        &&& self.visited == Set::<EntityId>::empty()
        &&& self.ghost_hits matches Some(hits) ==> hits.len() == 0
        &&& self.outcome == if self.range <= 0 {
            Some(None::<SensorOutput>)
        } else {
            None
        }
    }

    /// The state after a sequence of answers, each to the cast asked for in
    /// the state before it. Answers that come after the pass has concluded
    /// are not read.
    pub open spec fn replay(self, answers: Seq<Option<Observation>>) -> PassState
        decreases answers.len(),
    {
        if answers.len() == 0 {
            self
        } else {
            self.after(answers[0]).replay(answers.skip(1))
        }
    }
}

/// What a pass leaves behind.
#[derive(Debug)]
pub struct PassOutcome {
    /// The hit the pass concluded with, if any.
    pub output: Option<SensorOutput>,
    /// The ghost platforms gone through, nearest first, where the sensor
    /// reports them.
    pub ghost_hits: Option<Vec<SensorOutput>>,
}

/// One sensor's work in one tick.
pub struct SensingPass {
    screening: Screening,
    filter: CastFilter,
    method: CastMethod,
    origin: Vector3,
    range: Scalar,
    skip: Scalar,
    visited: EntitySet,
    ghost_hits: Option<Vec<SensorOutput>>,
    outcome: Option<Option<SensorOutput>>,
}

impl View for SensingPass {
    type V = PassState;

    closed spec fn view(&self) -> PassState {
        PassState {
            screening: self.screening,
            filter: self.filter,
            method: self.method,
            origin: self.origin,
            range: self.range,
            skip: self.skip,
            visited: self.visited@,
            ghost_hits: match self.ghost_hits {
                Some(hits) => Some(hits@),
                None => None,
            },
            outcome: self.outcome,
        }
    }
}

impl SensingPass {
    #[verifier::type_invariant]
    spec fn well_formed(self) -> bool {
        self@.wf()
    }

    /// Starts the pass of a sensor for this tick.
    ///
    /// A disabled entity gets no pass: no cast is made for it, and its sensor
    /// keeps the output of the last tick in which it was not disabled.
    pub fn begin(
        config: &SensorConfig,
        toggle: Toggle,
        owner: EntityId,
        owner_collider: Option<OwnerCollider>,
        reports_ghosts: bool,
        casts_shape: bool,
    ) -> (pass: Option<SensingPass>)
        ensures
            pass is None <==> toggle == Toggle::Disabled,
            pass matches Some(started) ==> started@ == PassState::initial(
                *config,
                owner,
                owner_collider,
                reports_ghosts,
                casts_shape,
            ) && started@.wf() && started@.fresh(),
    {
        if !toggle.runs_sensors() {
            return None;
        }
        let direction = config.cast_direction();
        let range = config.cast_range();
        let started = SensingPass {
            screening: Screening {
                owner,
                owner_solver_groups: match owner_collider {
                    Some(collider) => collider.solver_groups,
                    None => InteractionGroups::all(),
                },
                cutoff: config.intersection_match_prevention_cutoff(),
                direction,
            },
            filter: Screening::cast_filter(owner, owner_collider),
            method: if casts_shape {
                CastMethod::Shape
            } else {
                CastMethod::Ray
            },
            origin: config.cast_origin(),
            range,
            skip: 0,
            visited: EntitySet::empty(),
            ghost_hits: if reports_ghosts {
                Some(Vec::new())
            } else {
                None
            },
            outcome: if range <= 0 {
                Some(None)
            } else {
                None
            },
        };
        Some(started)
    }

    /// The cast the pass wants next, or `None` once it has concluded.
    pub fn pending_cast(&self) -> (request: Option<CastRequest>)
        ensures
            request == self@.request(),
    {
        proof {
            use_type_invariant(self);
        }
        match self.outcome {
            None => Some(
                CastRequest {
                    method: self.method,
                    skip: self.skip,
                    max_distance: self.range - self.skip,
                },
            ),
            Some(_) => None,
        }
    }

    /// Where the next cast starts: the cast origin, moved by the current skip
    /// along the cast direction. `None` where that point cannot be
    /// represented.
    pub fn cast_origin(&self) -> (start: Option<Vector3>)
        ensures
            start == self@.cast_start(),
    {
        let direction = self.screening.direction;
        let x: i128 = self.origin.x as i128 + raw_product(self.skip, direction.x) / 65536;
        let y: i128 = self.origin.y as i128 + raw_product(self.skip, direction.y) / 65536;
        let z: i128 = self.origin.z as i128 + raw_product(self.skip, direction.z) / 65536;
        let low: i128 = i64::MIN as i128;
        let high: i128 = i64::MAX as i128;
        if x < low || x > high || y < low || y > high || z < low || z > high {
            None
        } else {
            Some(Vector3 { x: x as i64, y: y as i64, z: z as i64 })
        }
    }

    /// The direction of every cast of this pass.
    pub fn cast_direction(&self) -> (direction: Vector3)
        ensures
            direction == self@.screening.direction,
            admissible_direction(direction),
    {
        proof {
            use_type_invariant(self);
        }
        self.screening.direction
    }

    /// What the backend is to leave out of each cast of this pass.
    pub fn cast_filter(&self) -> (filter: CastFilter)
        ensures
            filter == self@.filter,
    {
        self.filter
    }

    /// Whether the cast that is wanted may stop at the candidate.
    pub fn accepts(&self, candidate: &Candidate) -> (accepted: bool)
        ensures
            accepted == self@.screening.admits(self@.visited, *candidate),
    {
        self.screening.admits_candidate(&self.visited, candidate)
    }

    /// Takes the backend's answer to the cast that was asked for, and gives
    /// the pass as it stands after it.
    pub fn record(self, answer: Option<Observation>) -> (next: SensingPass)
        ensures
            next@ == self@.after(answer),
            next@.wf(),
    {
        proof {
            use_type_invariant(&self);
        }
        let SensingPass {
            screening,
            filter,
            method,
            origin,
            range,
            skip,
            visited,
            ghost_hits,
            outcome,
        } = self;
        let mut visited = visited;
        let mut ghost_hits = ghost_hits;
        let mut skip = skip;
        let mut outcome = outcome;
        if outcome.is_none() {
            match answer {
                None => {
                    outcome = Some(None);
                },
                Some(seen) => {
                    let toi = seen.hit.time_of_impact;
                    if toi < 0 || toi > range - skip || visited.contains(seen.hit.entity) {
                        outcome = Some(None);
                    } else {
                        let output = seen.normalise(skip, screening.direction);
                        if seen.is_ghost {
                            skip = skip + toi;
                            visited.insert(seen.hit.entity);
                            match &mut ghost_hits {
                                Some(hits) => {
                                    hits.push(output);
                                },
                                None => {},
                            }
                        } else {
                            outcome = Some(Some(output));
                        }
                    }
                },
            }
        }
        SensingPass { screening, filter, method, origin, range, skip, visited, ghost_hits, outcome }
    }

    /// Takes a whole sequence of answers, each to the cast asked for after
    /// the one before it. Answers that come after the pass has concluded are
    /// not read.
    pub fn replay(self, answers: &Vec<Option<Observation>>) -> (next: SensingPass)
        ensures
            next@ == self@.replay(answers@),
            next@.wf(),
    {
        proof {
            use_type_invariant(&self);
        }
        let ghost start = self@;
        let mut pass = self;
        let mut i: usize = 0;
        assert(answers@.subrange(0, answers@.len() as int) =~= answers@);
        while i < answers.len()
            invariant
                0 <= i <= answers@.len(),
                pass@.wf(),
                pass@.replay(answers@.subrange(i as int, answers@.len() as int)) == start.replay(
                    answers@,
                ),
            decreases answers@.len() - i,
        {
            let ghost rest = answers@.subrange(i as int, answers@.len() as int);
            assert(rest[0] == answers@[i as int]);
            assert(rest.skip(1) =~= answers@.subrange(i + 1, answers@.len() as int));
            pass = pass.record(answers[i]);
            i += 1;
        }
        assert(answers@.subrange(i as int, answers@.len() as int).len() == 0);
        pass
    }

    /// Ends the pass and hands out what it found.
    ///
    /// A pass that is ended before it has concluded has found nothing.
    pub fn finish(self) -> (outcome: PassOutcome)
        ensures
            outcome.output == self@.output(),
            outcome.ghost_hits is Some == self@.ghost_hits is Some,
            outcome.ghost_hits matches Some(hits) ==> self@.ghost_hits == Some(hits@),
    {
        let output = match self.outcome {
            Some(found) => found,
            None => None,
        };
        PassOutcome { output, ghost_hits: self.ghost_hits }
    }
}

/// The distance from the cast origin at which the pass stands after it has
/// gone through the first `count` of the platforms in `ghosts`, having
/// started `from` away.
pub open spec fn distance_past(from: Scalar, ghosts: Seq<Observation>, count: int) -> int
    decreases count,
{
    if count <= 0 {
        from as int
    } else {
        distance_past(from, ghosts, count - 1) + ghosts[count - 1].hit.time_of_impact
    }
}

/// The reports of the platforms in `ghosts`, met one after the other by a
/// pass that started `from` away.
pub open spec fn reports_of(from: Scalar, direction: Vector3, ghosts: Seq<Observation>) -> Seq<
    SensorOutput,
> {
    Seq::new(
        ghosts.len(),
        |i: int| ghosts[i].output_at(distance_past(from, ghosts, i) as i64, direction),
    )
}

/// The answers of a backend that meets the platforms in `ghosts` one after
/// the other and then answers `last`.
pub open spec fn answers_through(ghosts: Seq<Observation>, last: Option<Observation>) -> Seq<
    Option<Observation>,
> {
    Seq::new(
        ghosts.len() + 1,
        |i: int|
            if i < ghosts.len() {
                Some(ghosts[i])
            } else {
                last
            },
    )
}

/// Whether `ghosts` are ghost platforms that a pass in `start` goes through
/// one after the other: each is a ghost platform not met before, none lies
/// behind the one before it, and the last lies within the range.
pub open spec fn crossed_in_turn(start: PassState, ghosts: Seq<Observation>) -> bool {
    &&& forall|i: int|
        0 <= i < ghosts.len() ==> {
            &&& (#[trigger] ghosts[i]).is_ghost
            &&& ghosts[i].hit.time_of_impact >= 0
            &&& !start.visited.contains(ghosts[i].hit.entity)
        }
    &&& forall|i: int, j: int|
        0 <= i < j < ghosts.len() ==> (#[trigger] ghosts[i]).hit.entity != (
        #[trigger] ghosts[j]).hit.entity
    &&& distance_past(start.skip, ghosts, ghosts.len() as int) <= start.range
}

/// Every state a pass reaches from a well-formed one is well-formed.
pub proof fn lemma_after_preserves_wf(state: PassState, answer: Option<Observation>)
    requires
        state.wf(),
    ensures
        state.after(answer).wf(),
{
    if state.pending() {
        if let Some(seen) = answer {
            if state.within_span(seen.hit.time_of_impact) && !state.visited.contains(
                seen.hit.entity,
            ) && seen.is_ghost {
                let next = state.past_ghost(seen);
                let report = seen.output_at(state.skip, state.screening.direction);
                if let Some(hits) = state.ghost_hits {
                    let grown = hits.push(report);
                    assert forall|i: int| 0 <= i < grown.len() implies next.visited.contains(
                        (#[trigger] grown[i]).entity,
                    ) && 0 <= grown[i].proximity <= next.skip by {
                        if i < hits.len() {
                            assert(grown[i] == hits[i]);
                        }
                    }
                    assert forall|i: int, j: int| 0 <= i < j < grown.len() implies (
                    #[trigger] grown[i]).entity != (#[trigger] grown[j]).entity
                        && grown[i].proximity <= grown[j].proximity by {
                        assert(grown[i] == hits[i]);
                        if j < hits.len() {
                            assert(grown[j] == hits[j]);
                        }
                    }
                }
            }
        }
    }
}

/// Every state a pass reaches from a well-formed one, over any answers, is
/// well-formed. So no entity is ever reported twice as a ghost platform in
/// one pass, and the reports never come out of order.
pub proof fn lemma_no_platform_met_twice(start: PassState, answers: Seq<Option<Observation>>)
    requires
        start.wf(),
    ensures
        start.replay(answers).wf(),
        start.replay(answers).ghost_hits matches Some(hits) ==> forall|i: int, j: int|
            0 <= i < j < hits.len() ==> (#[trigger] hits[i]).entity != (#[trigger] hits[j]).entity
                && hits[i].proximity <= hits[j].proximity,
    decreases answers.len(),
{
    if answers.len() > 0 {
        lemma_after_preserves_wf(start, answers[0]);
        lemma_no_platform_met_twice(start.after(answers[0]), answers.skip(1));
    }
}

/// A pass asks again only after it has gone through a platform it had not
/// met before.
pub proof fn lemma_each_retry_meets_a_new_platform(state: PassState, answer: Option<Observation>)
    requires
        state.wf(),
        state.pending(),
        state.after(answer).pending(),
    ensures
        answer is Some,
        !state.visited.contains(answer->Some_0.hit.entity),
        state.after(answer).visited == state.visited.insert(answer->Some_0.hit.entity),
        state.after(answer).visited.len() == state.visited.len() + 1,
{
}

/// A pass that still asks for a cast after it has read `answers` has gone
/// through one new platform for each of them: the casts of a pass are bounded
/// by the number of distinct platforms it meets.
pub proof fn lemma_casts_bounded_by_platforms(start: PassState, answers: Seq<Option<Observation>>)
    requires
        start.wf(),
        start.replay(answers).pending(),
    ensures
        start.replay(answers).visited.len() == start.visited.len() + answers.len(),
    decreases answers.len(),
{
    if answers.len() > 0 {
        let next = start.after(answers[0]);
        if !next.pending() {
            lemma_concluded_stays(next, answers.skip(1));
        }
        lemma_after_preserves_wf(start, answers[0]);
        lemma_each_retry_meets_a_new_platform(start, answers[0]);
        lemma_casts_bounded_by_platforms(next, answers.skip(1));
    }
}

/// A pass that has concluded reads no further answer.
pub proof fn lemma_concluded_stays(state: PassState, answers: Seq<Option<Observation>>)
    requires
        !state.pending(),
    ensures
        state.replay(answers) == state,
    decreases answers.len(),
{
    if answers.len() > 0 {
        lemma_concluded_stays(state, answers.skip(1));
    }
}

/// Where the first cast of a pass meets no ghost platform, the pass
/// concludes with what the sensor reads off that single cast, whatever the
/// backend would answer afterwards, and reports no ghost platform.
pub proof fn lemma_without_ghosts_one_cast_decides(
    start: PassState,
    answers: Seq<Option<Observation>>,
)
    requires
        start.wf(),
        start.fresh(),
        answers.len() > 0,
        answers[0] matches Some(seen) ==> !seen.is_ghost,
    ensures
        start.replay(answers).output() == crate::sensor::direct_reading(
            start.range,
            start.screening.direction,
            answers[0],
        ),
        start.replay(answers).ghost_hits == start.ghost_hits,
        start.replay(answers) == start.after(answers[0]),
{
    lemma_concluded_stays(start.after(answers[0]), answers.skip(1));
}

proof fn lemma_distance_past_shift(from: Scalar, ghosts: Seq<Observation>, count: int)
    requires
        ghosts.len() > 0,
        0 <= count < ghosts.len(),
        crate::scalar::representable(from + ghosts[0].hit.time_of_impact),
    ensures
        distance_past((from + ghosts[0].hit.time_of_impact) as i64, ghosts.skip(1), count)
            == distance_past(from, ghosts, count + 1),
    decreases count,
{
    if count > 0 {
        lemma_distance_past_shift(from, ghosts, count - 1);
        assert(ghosts.skip(1)[count - 1] == ghosts[count]);
    } else {
        assert(distance_past(from, ghosts, 1) == distance_past(from, ghosts, 0)
            + ghosts[0].hit.time_of_impact);
    }
}

proof fn lemma_distance_past_grows(from: Scalar, ghosts: Seq<Observation>, low: int, high: int)
    requires
        0 <= low <= high <= ghosts.len(),
        forall|i: int| 0 <= i < ghosts.len() ==> (#[trigger] ghosts[i]).hit.time_of_impact >= 0,
    ensures
        distance_past(from, ghosts, low) <= distance_past(from, ghosts, high),
    decreases high - low,
{
    if low < high {
        lemma_distance_past_grows(from, ghosts, low, high - 1);
    }
}

/// Where a pass goes through ghost platforms one after the other and is then
/// answered `last`, it reports exactly those platforms, in the order it met
/// them and each at the distance it was met at, and concludes with what the
/// pass past the last platform makes of `last`.
pub proof fn lemma_ghosts_reported_in_order(
    start: PassState,
    ghosts: Seq<Observation>,
    last: Option<Observation>,
)
    requires
        start.wf(),
        start.pending(),
        crossed_in_turn(start, ghosts),
        last matches Some(seen) ==> !seen.is_ghost,
    ensures
        ({
            let end = start.replay(answers_through(ghosts, last));
            let reach = distance_past(start.skip, ghosts, ghosts.len() as int);
            &&& end.wf()
            &&& end.skip == reach
            &&& end.ghost_hits == match start.ghost_hits {
                Some(hits) => Some(
                    hits + reports_of(start.skip, start.screening.direction, ghosts),
                ),
                None => None,
            }
            &&& end.outcome == Some(
                match last {
                    Some(seen) => if 0 <= seen.hit.time_of_impact <= start.range - reach
                        && !start.visited.contains(seen.hit.entity) && forall|i: int|
                        0 <= i < ghosts.len() ==> (#[trigger] ghosts[i]).hit.entity
                            != seen.hit.entity {
                        Some(seen.output_at(reach as i64, start.screening.direction))
                    } else {
                        None
                    },
                    None => None,
                },
            )
        }),
    decreases ghosts.len(),
{
    let answers = answers_through(ghosts, last);
    let direction = start.screening.direction;
    if ghosts.len() == 0 {
        assert(answers[0] == last);
        lemma_after_preserves_wf(start, last);
        lemma_concluded_stays(start.after(last), answers.skip(1));
        assert(start.replay(answers) == start.after(last));
        if let Some(hits) = start.ghost_hits {
            assert(hits + reports_of(start.skip, direction, ghosts) =~= hits);
        }
    } else {
        let first = ghosts[0];
        let rest = ghosts.skip(1);
        assert(answers[0] == Some(first));
        lemma_distance_past_grows(start.skip, ghosts, 1, ghosts.len() as int);
        lemma_distance_past_grows(start.skip, ghosts, 0, 1);
        assert(distance_past(start.skip, ghosts, 1) == start.skip + first.hit.time_of_impact);
        assert(start.within_span(first.hit.time_of_impact));
        let next = start.after(Some(first));
        assert(next == start.past_ghost(first));
        lemma_after_preserves_wf(start, Some(first));
        assert(answers.skip(1) =~= answers_through(rest, last));
        assert forall|i: int| 0 <= i < rest.len() implies {
            &&& (#[trigger] rest[i]).is_ghost
            &&& rest[i].hit.time_of_impact >= 0
            &&& !next.visited.contains(rest[i].hit.entity)
        } by {
            assert(rest[i] == ghosts[i + 1]);
        }
        assert forall|i: int, j: int| 0 <= i < j < rest.len() implies (#[trigger] rest[i]).hit.entity
            != (#[trigger] rest[j]).hit.entity by {
            assert(rest[i] == ghosts[i + 1]);
            assert(rest[j] == ghosts[j + 1]);
        }
        assert forall|k: int| 0 <= k <= rest.len() implies #[trigger] distance_past(
            next.skip,
            rest,
            k,
        ) == distance_past(start.skip, ghosts, k + 1) by {
            if k < ghosts.len() {
                lemma_distance_past_shift(start.skip, ghosts, k);
            }
        }
        assert(distance_past(next.skip, rest, rest.len() as int) == distance_past(
            start.skip,
            ghosts,
            ghosts.len() as int,
        ));
        lemma_ghosts_reported_in_order(next, rest, last);
        let reach = distance_past(start.skip, ghosts, ghosts.len() as int);
        if let Some(hits) = start.ghost_hits {
            let report = first.output_at(start.skip, direction);
            assert(reports_of(start.skip, direction, ghosts)[0] == report);
            assert forall|i: int| 0 <= i < rest.len() implies reports_of(
                next.skip,
                direction,
                rest,
            )[i] == reports_of(start.skip, direction, ghosts)[i + 1] by {
                assert(rest[i] == ghosts[i + 1]);
            }
            assert(hits.push(report) + reports_of(next.skip, direction, rest) =~= hits
                + reports_of(start.skip, direction, ghosts));
        }
        if let Some(seen) = last {
            let clear_of_rest = forall|i: int|
                0 <= i < rest.len() ==> (#[trigger] rest[i]).hit.entity != seen.hit.entity;
            let clear_of_all = forall|i: int|
                0 <= i < ghosts.len() ==> (#[trigger] ghosts[i]).hit.entity != seen.hit.entity;
            if clear_of_all && first.hit.entity != seen.hit.entity {
                assert forall|i: int| 0 <= i < rest.len() implies (#[trigger] rest[i]).hit.entity
                    != seen.hit.entity by {
                    assert(rest[i] == ghosts[i + 1]);
                }
            }
            if clear_of_rest && first.hit.entity != seen.hit.entity {
                assert forall|i: int| 0 <= i < ghosts.len() implies (
                #[trigger] ghosts[i]).hit.entity != seen.hit.entity by {
                    if i > 0 {
                        assert(ghosts[i] == rest[i - 1]);
                    }
                }
            }
        }
    }
}

proof fn lemma_reports_strictly_ascend(from: Scalar, direction: Vector3, ghosts: Seq<Observation>, range: Scalar)
    requires
        from >= 0,
        forall|i: int| 0 <= i < ghosts.len() ==> (#[trigger] ghosts[i]).hit.time_of_impact >= 0,
        forall|i: int| 1 <= i < ghosts.len() ==> (#[trigger] ghosts[i]).hit.time_of_impact > 0,
        distance_past(from, ghosts, ghosts.len() as int) <= range,
    ensures
        forall|i: int|
            0 <= i < ghosts.len() ==> (#[trigger] reports_of(from, direction, ghosts)[i]).proximity
                == distance_past(from, ghosts, i + 1),
        forall|i: int, j: int|
            0 <= i < j < ghosts.len() ==> (#[trigger] reports_of(
                from,
                direction,
                ghosts,
            )[i]).proximity < (#[trigger] reports_of(from, direction, ghosts)[j]).proximity,
{
    let reports = reports_of(from, direction, ghosts);
    assert forall|i: int| 0 <= i < ghosts.len() implies (#[trigger] reports[i]).proximity
        == distance_past(from, ghosts, i + 1) by {
        lemma_distance_past_grows(from, ghosts, 0, i);
        lemma_distance_past_grows(from, ghosts, i + 1, ghosts.len() as int);
    }
    assert forall|i: int, j: int| 0 <= i < j < ghosts.len() implies (#[trigger] reports[i]).proximity
        < (#[trigger] reports[j]).proximity by {
        lemma_distance_past_grows(from, ghosts, i + 1, j);
        assert(ghosts[j].hit.time_of_impact > 0);
    }
}

/// Where a fresh pass crosses ghost platforms at strictly ascending distances
/// within its range and is then answered `last`, it reports exactly those
/// platforms, each at its distance and so in strictly ascending order, and
/// it concludes with `last`: the first surface beyond the last platform that
/// is no ghost, at its distance from the cast origin, or nothing.
pub proof fn lemma_ghosts_at_ascending_distances(
    start: PassState,
    ghosts: Seq<Observation>,
    last: Option<Observation>,
)
    requires
        start.wf(),
        start.fresh(),
        start.pending(),
        crossed_in_turn(start, ghosts),
        forall|i: int| 1 <= i < ghosts.len() ==> (#[trigger] ghosts[i]).hit.time_of_impact > 0,
        last matches Some(seen) ==> {
            &&& !seen.is_ghost
            &&& seen.hit.time_of_impact >= 0
            &&& distance_past(0, ghosts, ghosts.len() as int) + seen.hit.time_of_impact
                <= start.range
            &&& forall|i: int|
                0 <= i < ghosts.len() ==> (#[trigger] ghosts[i]).hit.entity != seen.hit.entity
        },
    ensures
        ({
            let end = start.replay(answers_through(ghosts, last));
            let reach = distance_past(0, ghosts, ghosts.len() as int);
            &&& !end.pending()
            &&& end.ghost_hits is Some == start.ghost_hits is Some
            &&& end.ghost_hits matches Some(hits) ==> {
                &&& hits.len() == ghosts.len()
                &&& forall|i: int|
                    0 <= i < hits.len() ==> (#[trigger] hits[i]).entity == ghosts[i].hit.entity
                        && hits[i].proximity == distance_past(0, ghosts, i + 1)
                &&& forall|i: int, j: int|
                    0 <= i < j < hits.len() ==> (#[trigger] hits[i]).proximity < (
                    #[trigger] hits[j]).proximity
            }
            &&& match last {
                Some(seen) => {
                    &&& end.output() == Some(
                        seen.output_at(reach as i64, start.screening.direction),
                    )
                    &&& end.output()->Some_0.entity == seen.hit.entity
                    &&& end.output()->Some_0.proximity == reach + seen.hit.time_of_impact
                },
                None => end.output() is None,
            }
        }),
{
    let direction = start.screening.direction;
    lemma_ghosts_reported_in_order(start, ghosts, last);
    lemma_reports_strictly_ascend(0, direction, ghosts, start.range);
    lemma_distance_past_grows(0, ghosts, 0, ghosts.len() as int);
    if let Some(hits) = start.ghost_hits {
        assert(hits + reports_of(0, direction, ghosts) =~= reports_of(0, direction, ghosts));
    }
}

} // verus!
