//! The animating-state tracker: turning a stream of states into the moments
//! at which the state changes its kind.
//!
//! Each tick the caller reports a state together with the discriminant of its
//! kind. Only discriminants are compared: a payload that changes within one
//! kind never counts as a change.

use vstd::prelude::*;

verus! {

/// What the caller is to do with the state it has just reported.
pub enum Directive<'a, S> {
    /// The state is of the same kind as the last one: carry on, with the new
    /// payload.
    Maintain {
        /// The state just reported.
        state: &'a S,
    },
    /// The state is of another kind than the last one, or the first ever.
    Alter {
        /// The state reported before, if any.
        old_state: Option<S>,
        /// The state just reported.
        state: &'a S,
    },
}

/// Whether a report with this discriminant is a change: nothing was held, or
/// what was held has another discriminant.
pub open spec fn alters<S>(held: Option<(u64, S)>, discriminant: u64) -> bool {
    match held {
        Some(before) => before.0 != discriminant,
        None => true,
    }
}

/// The state that was held, without its discriminant.
pub open spec fn payload_of<S>(held: Option<(u64, S)>) -> Option<S> {
    match held {
        Some(before) => Some(before.1),
        None => None,
    }
}

/// What is held after a sequence of reports, each a discriminant with its
/// state: the last of them, or what was held before where there is none.
pub open spec fn held_after<S>(held: Option<(u64, S)>, reports: Seq<(u64, S)>) -> Option<(u64, S)>
    decreases reports.len(),
{
    if reports.len() == 0 {
        held
    } else {
        held_after(Some(reports[0]), reports.skip(1))
    }
}

/// Remembers the last state reported and its discriminant.
pub struct AnimatingState<S> {
    current: Option<(u64, S)>,
}

impl<S> AnimatingState<S> {
    /// The discriminant and the state last reported, if any.
    pub closed spec fn current(&self) -> Option<(u64, S)> {
        self.current
    }

    /// A tracker to which nothing has been reported yet.
    pub fn new() -> (tracker: AnimatingState<S>)
        ensures
            tracker.current() is None,
    {
        AnimatingState { current: None }
    }

    /// The state last reported, if any.
    pub fn get(&self) -> (state: Option<&S>)
        ensures
            state is Some == self.current() is Some,
            state matches Some(held) ==> Some(*held) == payload_of(self.current()),
    {
        match &self.current {
            Some(held) => Some(&held.1),
            None => None,
        }
    }

    /// Reports the state of this tick, with the discriminant of its kind.
    ///
    /// The tracker then holds this state. The directive is `Alter`, with the
    /// state held before, exactly where nothing was held or what was held has
    /// another discriminant; it is `Maintain` otherwise. Either way it hands
    /// back the state just reported.
    pub fn update_by_discriminant(&mut self, discriminant: u64, state: S) -> (directive: Directive<
        '_,
        S,
    >)
        ensures
            final(self).current() == Some((discriminant, state)),
            directive is Alter <==> alters(old(self).current(), discriminant),
            match directive {
                Directive::Maintain { state: kept } => *kept == state,
                Directive::Alter { old_state, state: entered } => {
                    &&& old_state == payload_of(old(self).current())
                    &&& *entered == state
                },
            },
    {
        let same = match &self.current {
            Some(held) => held.0 == discriminant,
            None => false,
        };
        let previous = self.current.take();
        self.current = Some((discriminant, state));
        let held = match &self.current {
            Some(held) => &held.1,
            None => unreached(),
        };
        if same {
            Directive::Maintain { state: held }
        } else {
            Directive::Alter {
                old_state: match previous {
                    Some(before) => Some(before.1),
                    None => None,
                },
                state: held,
            }
        }
    }
}

/// After any reports, the last one is what is held.
pub proof fn lemma_last_report_is_held<S>(held: Option<(u64, S)>, reports: Seq<(u64, S)>)
    requires
        reports.len() > 0,
    ensures
        held_after(held, reports) == Some(reports.last()),
    decreases reports.len(),
{
    if reports.len() > 1 {
        let rest = reports.skip(1);
        assert(rest.last() == reports.last());
        lemma_last_report_is_held(Some(reports[0]), rest);
    } else {
        assert(held_after(Some(reports[0]), reports.skip(1)) == Some(reports[0]));
    }
}

/// A tracker alters once per change of kind.
///
/// The first report to a fresh tracker alters. Of a run of reports with one
/// discriminant, none after the first alters, whatever their payloads. A
/// report with another discriminant after such a run alters, and what was
/// held before it is the last payload of the run; a further report with that
/// new discriminant does not alter again.
pub proof fn lemma_alters_once_per_change<S>(
    held: Option<(u64, S)>,
    run: Seq<(u64, S)>,
    discriminant: u64,
    change: (u64, S),
    further: S,
)
    requires
        run.len() > 0,
        forall|i: int| 0 <= i < run.len() ==> (#[trigger] run[i]).0 == discriminant,
        change.0 != discriminant,
    ensures
        alters(None::<(u64, S)>, discriminant),
        forall|i: int|
            1 <= i < run.len() ==> !alters(
                held_after(held, #[trigger] run.take(i)),
                discriminant,
            ),
        alters(held_after(held, run), change.0),
        payload_of(held_after(held, run)) == Some(run.last().1),
        held_after(held, run.push(change)) == Some(change),
        !alters(held_after(held, run.push(change)), change.0),
        held_after(held, run.push(change).push((change.0, further))) == Some((change.0, further)),
{
    assert forall|i: int| 1 <= i < run.len() implies !alters(
        held_after(held, #[trigger] run.take(i)),
        discriminant,
    ) by {
        lemma_last_report_is_held(held, run.take(i));
        assert(run.take(i).last() == run[i - 1]);
    }
    lemma_last_report_is_held(held, run);
    lemma_last_report_is_held(held, run.push(change));
    lemma_last_report_is_held(held, run.push(change).push((change.0, further)));
}

} // verus!
