//! Sequential dispatch of registered callbacks over one record.
//!
//! A callback invocation's observable result is modeled as a
//! [`CallbackOutcome`]; folding a sequence of outcomes over a record is the
//! mathematical meaning of one dispatch run. The engine's dispatch loop and
//! the laws about ordering, failure and the no-callback case all speak in
//! terms of this fold.

use vstd::prelude::*;

use crate::errors::MarshalError;
use crate::errors::ScriptError;
use crate::errors::ScriptErrorView;
use crate::marshal::ScriptRecord;
use crate::marshal::ScriptRecordView;
use crate::marshal::unmarshal;
use crate::marshal::unmarshal_view;
use crate::trackdata::TrackData;
use crate::trackdata::TrackDataView;

verus! {

/// What one callback invocation was observed to do.
#[derive(Debug)]
pub enum CallbackOutcome {
    /// The callback returned nothing (or an explicitly false value).
    NoOutput,
    /// The callback returned a record-shaped value.
    Replacement(ScriptRecord),
    /// The callback returned a value that cannot stand for a record.
    Invalid(MarshalError),
    /// The callback raised inside the scripting runtime.
    Raised(String),
}

/// Mathematical shape of a [`CallbackOutcome`].
#[verifier::ext_equal]
pub enum CallbackOutcomeView {
    NoOutput,
    Replacement(ScriptRecordView),
    Invalid(MarshalError),
    Raised(Seq<char>),
}

impl View for CallbackOutcome {
    type V = CallbackOutcomeView;

    open spec fn view(&self) -> CallbackOutcomeView {
        match self {
            CallbackOutcome::NoOutput => CallbackOutcomeView::NoOutput,
            CallbackOutcome::Replacement(sr) => CallbackOutcomeView::Replacement(sr@),
            CallbackOutcome::Invalid(m) => CallbackOutcomeView::Invalid(*m),
            CallbackOutcome::Raised(msg) => CallbackOutcomeView::Raised(msg@),
        }
    }
}

impl Clone for CallbackOutcome {
    fn clone(&self) -> (r: Self)
        ensures
            r@ == self@,
    {
        match self {
            CallbackOutcome::NoOutput => CallbackOutcome::NoOutput,
            CallbackOutcome::Replacement(sr) => CallbackOutcome::Replacement(sr.clone()),
            CallbackOutcome::Invalid(m) => CallbackOutcome::Invalid(*m),
            CallbackOutcome::Raised(msg) => CallbackOutcome::Raised(msg.clone()),
        }
    }
}

/// The shapes of a sequence of outcomes.
pub open spec fn outcomes_view(s: Seq<CallbackOutcome>) -> Seq<CallbackOutcomeView> {
    s.map_values(|o: CallbackOutcome| o@)
}

/// How the outcome of the callback at position `index` transforms the
/// current candidate: no output keeps it, a replacement is marshaled back
/// in (its marshal error, if any, aborts the run), a raise aborts the run
/// carrying the position.
pub open spec fn outcome_step(cur: TrackDataView, index: int, o: CallbackOutcomeView) -> Result<
    (TrackDataView, bool),
    ScriptErrorView,
> {
    match o {
        CallbackOutcomeView::NoOutput => Ok((cur, false)),
        CallbackOutcomeView::Replacement(sr) => match unmarshal_view(sr) {
            Ok(t) => Ok((t, true)),
            Err(m) => Err(ScriptErrorView::Marshal(m)),
        },
        CallbackOutcomeView::Invalid(m) => Err(ScriptErrorView::Marshal(m)),
        CallbackOutcomeView::Raised(msg) => Err(
            ScriptErrorView::CallbackFailed { index, message: msg },
        ),
    }
}

/// Whether an outcome lets the run continue.
pub open spec fn outcome_ok(o: CallbackOutcomeView) -> bool {
    match o {
        CallbackOutcomeView::NoOutput => true,
        CallbackOutcomeView::Replacement(sr) => unmarshal_view(sr) is Ok,
        CallbackOutcomeView::Invalid(_) => false,
        CallbackOutcomeView::Raised(_) => false,
    }
}

/// Folds the outcomes of the callbacks at positions `base`, `base + 1`, ...
/// over the candidate `cur`; `changed` records whether some earlier
/// callback already produced a replacement.
pub open spec fn dispatch_from(
    cur: TrackDataView,
    changed: bool,
    base: int,
    outs: Seq<CallbackOutcomeView>,
) -> Result<Option<TrackDataView>, ScriptErrorView>
    decreases outs.len(),
{
    if outs.len() == 0 {
        Ok(
            if changed {
                Some(cur)
            } else {
                None
            },
        )
    } else {
        match outcome_step(cur, base, outs[0]) {
            Ok((t, rep)) => dispatch_from(t, changed || rep, base + 1, outs.drop_first()),
            Err(e) => Err(e),
        }
    }
}

/// The meaning of one whole dispatch run: fold every outcome, in order,
/// starting from the unchanged record.
pub open spec fn dispatch_view(t: TrackDataView, outs: Seq<CallbackOutcomeView>) -> Result<
    Option<TrackDataView>,
    ScriptErrorView,
> {
    dispatch_from(t, false, 0, outs)
}

/// With no callbacks registered, a dispatch run returns "no change",
/// whatever the record.
pub proof fn lemma_no_callbacks(t: TrackDataView)
    ensures
        dispatch_view(t, Seq::<CallbackOutcomeView>::empty()) == Ok::<
            Option<TrackDataView>,
            ScriptErrorView,
        >(None::<TrackDataView>),
{
}

/// Applies one callback's outcome to the current candidate, exactly as
/// [`outcome_step`] describes.
pub fn apply_outcome(cur: TrackData, index: usize, out: CallbackOutcome) -> (r: Result<
    (TrackData, bool),
    ScriptError,
>)
    ensures
        match r {
            Ok((t, rep)) => outcome_step(cur@, index as int, out@) == Ok::<
                (TrackDataView, bool),
                ScriptErrorView,
            >((t@, rep)),
            Err(e) => outcome_step(cur@, index as int, out@) == Err::<
                (TrackDataView, bool),
                ScriptErrorView,
            >(e@),
        },
{
    match out {
        CallbackOutcome::NoOutput => Ok((cur, false)),
        CallbackOutcome::Replacement(sr) => match unmarshal(sr) {
            Ok(t) => Ok((t, true)),
            Err(m) => Err(ScriptError::Marshal(m)),
        },
        CallbackOutcome::Invalid(m) => Err(ScriptError::Marshal(m)),
        CallbackOutcome::Raised(msg) => Err(ScriptError::CallbackFailed { index, message: msg }),
    }
}

/// Folds a whole sequence of recorded outcomes over a record, exactly as
/// [`dispatch_view`] describes.
pub fn dispatch_outcomes(data: &TrackData, outs: &Vec<CallbackOutcome>) -> (r: Result<
    Option<TrackData>,
    ScriptError,
>)
    ensures
        match r {
            Ok(opt) => dispatch_view(data@, outcomes_view(outs@)) == Ok::<
                Option<TrackDataView>,
                ScriptErrorView,
            >(
                match opt {
                    Some(t) => Some(t@),
                    None => None,
                },
            ),
            Err(e) => dispatch_view(data@, outcomes_view(outs@)) == Err::<
                Option<TrackDataView>,
                ScriptErrorView,
            >(e@),
        },
{
    let mut cur = data.clone();
    let mut changed = false;
    let mut i: usize = 0;
    proof {
        assert(outcomes_view(outs@).skip(0) =~= outcomes_view(outs@));
    }
    while i < outs.len()
        invariant
            i <= outs.len(),
            dispatch_view(data@, outcomes_view(outs@)) == dispatch_from(
                cur@,
                changed,
                i as int,
                outcomes_view(outs@).skip(i as int),
            ),
        decreases outs.len() - i,
    {
        let ghost rest = outcomes_view(outs@).skip(i as int);
        let o = outs[i].clone();
        proof {
            assert(rest[0] == outcomes_view(outs@)[i as int]);
            assert(rest[0] == o@);
            assert(rest.drop_first() =~= outcomes_view(outs@).skip(i as int + 1));
        }
        let ghost cur_shape = cur@;
        match apply_outcome(cur, i, o) {
            Ok((t, rep)) => {
                proof {
                    assert(dispatch_from(cur_shape, changed, i as int, rest) == dispatch_from(
                        t@,
                        changed || rep,
                        i as int + 1,
                        rest.drop_first(),
                    ));
                }
                cur = t;
                changed = changed || rep;
            },
            Err(e) => {
                proof {
                    assert(dispatch_from(cur_shape, changed, i as int, rest) == Err::<
                        Option<TrackDataView>,
                        ScriptErrorView,
                    >(e@));
                }
                return Err(e);
            },
        }
        i = i + 1;
    }
    proof {
        assert(outcomes_view(outs@).skip(i as int) =~= Seq::<CallbackOutcomeView>::empty());
    }
    if changed {
        Ok(Some(cur))
    } else {
        Ok(None)
    }
}

/// Once some callback has produced a replacement, a run can no longer end
/// in "no change".
pub proof fn lemma_changed_never_none(
    cur: TrackDataView,
    base: int,
    outs: Seq<CallbackOutcomeView>,
)
    ensures
        dispatch_from(cur, true, base, outs) != Ok::<Option<TrackDataView>, ScriptErrorView>(
            None::<TrackDataView>,
        ),
    decreases outs.len(),
{
    if outs.len() == 0 {
    } else {
        match outcome_step(cur, base, outs[0]) {
            Ok((t, rep)) => {
                lemma_changed_never_none(t, base + 1, outs.drop_first());
            },
            Err(_) => {},
        }
    }
}

/// Dispatch is compositional: running the callbacks of `s1` and then those
/// of `s2` is running `s2` from whatever candidate `s1` left behind. This
/// is the ordering law — a later callback always works on the output of the
/// earlier ones, never on the original record.
pub proof fn lemma_dispatch_append(
    cur: TrackDataView,
    changed: bool,
    base: int,
    s1: Seq<CallbackOutcomeView>,
    s2: Seq<CallbackOutcomeView>,
)
    ensures
        dispatch_from(cur, changed, base, s1 + s2) == (match dispatch_from(cur, changed, base, s1) {
            Ok(Some(m)) => dispatch_from(m, true, base + s1.len(), s2),
            Ok(None) => dispatch_from(cur, false, base + s1.len(), s2),
            Err(e) => Err(e),
        }),
    decreases s1.len(),
{
    if s1.len() == 0 {
        assert(s1 + s2 =~= s2);
        if changed {
            assert(dispatch_from(cur, changed, base, s1) == Ok::<
                Option<TrackDataView>,
                ScriptErrorView,
            >(Some(cur)));
        } else {
            assert(dispatch_from(cur, changed, base, s1) == Ok::<
                Option<TrackDataView>,
                ScriptErrorView,
            >(None::<TrackDataView>));
        }
    } else {
        assert((s1 + s2)[0] == s1[0]);
        match outcome_step(cur, base, s1[0]) {
            Ok((t, rep)) => {
                assert((s1 + s2).drop_first() =~= s1.drop_first() + s2);
                assert(dispatch_from(cur, changed, base, s1 + s2) == dispatch_from(
                    t,
                    changed || rep,
                    base + 1,
                    s1.drop_first() + s2,
                ));
                assert(dispatch_from(cur, changed, base, s1) == dispatch_from(
                    t,
                    changed || rep,
                    base + 1,
                    s1.drop_first(),
                ));
                lemma_dispatch_append(t, changed || rep, base + 1, s1.drop_first(), s2);
                assert(base + 1 + s1.drop_first().len() == base + s1.len());
                if rep || changed {
                    lemma_changed_never_none(t, base + 1, s1.drop_first());
                } else {
                    assert(s1[0] is NoOutput);
                    assert(t == cur);
                }
            },
            Err(e) => {
                assert(dispatch_from(cur, changed, base, s1 + s2) == Err::<
                    Option<TrackDataView>,
                    ScriptErrorView,
                >(e));
                assert(dispatch_from(cur, changed, base, s1) == Err::<
                    Option<TrackDataView>,
                    ScriptErrorView,
                >(e));
            },
        }
    }
}

/// Of two callbacks that both produce well-formed replacements, the later
/// one's replacement is the run's result.
pub proof fn lemma_last_replacement_wins(
    t: TrackDataView,
    ra: ScriptRecordView,
    rb: ScriptRecordView,
    ta: TrackDataView,
    tb: TrackDataView,
)
    requires
        unmarshal_view(ra) == Ok::<TrackDataView, MarshalError>(ta),
        unmarshal_view(rb) == Ok::<TrackDataView, MarshalError>(tb),
    ensures
        dispatch_view(
            t,
            seq![
                CallbackOutcomeView::Replacement(ra),
                CallbackOutcomeView::Replacement(rb),
            ],
        ) == Ok::<Option<TrackDataView>, ScriptErrorView>(Some(tb)),
{
    let outs = seq![CallbackOutcomeView::Replacement(ra), CallbackOutcomeView::Replacement(rb)];
    assert(outs.drop_first() =~= seq![CallbackOutcomeView::Replacement(rb)]);
    assert(outs.drop_first().drop_first() =~= Seq::<CallbackOutcomeView>::empty());
    assert(outcome_step(t, 0, outs[0]) == Ok::<(TrackDataView, bool), ScriptErrorView>((ta, true)));
    assert(dispatch_from(t, false, 0, outs) == dispatch_from(ta, true, 1, outs.drop_first()));
    assert(outs.drop_first()[0] == CallbackOutcomeView::Replacement(rb));
    assert(dispatch_from(ta, true, 1, outs.drop_first()) == dispatch_from(
        tb,
        true,
        2,
        outs.drop_first().drop_first(),
    ));
    assert(dispatch_from(tb, true, 2, outs.drop_first().drop_first()) == Ok::<
        Option<TrackDataView>,
        ScriptErrorView,
    >(Some(tb)));
}

/// A raising callback aborts the run with an error naming its position,
/// whatever the callbacks after it would have done: the outcomes past the
/// failing one do not enter the result at all.
pub proof fn lemma_failure_isolation(
    cur: TrackDataView,
    changed: bool,
    base: int,
    outs: Seq<CallbackOutcomeView>,
    i: int,
    msg: Seq<char>,
)
    requires
        0 <= i < outs.len(),
        outs[i] == CallbackOutcomeView::Raised(msg),
        forall|j: int| 0 <= j < i ==> outcome_ok(#[trigger] outs[j]),
    ensures
        dispatch_from(cur, changed, base, outs) == Err::<Option<TrackDataView>, ScriptErrorView>(
            ScriptErrorView::CallbackFailed { index: base + i, message: msg },
        ),
    decreases i,
{
    if i == 0 {
    } else {
        assert(outcome_ok(outs[0]));
        match outcome_step(cur, base, outs[0]) {
            Ok((t, rep)) => {
                assert(outs.drop_first()[i - 1] == outs[i]);
                assert(forall|j: int|
                    0 <= j < i - 1 ==> outcome_ok(#[trigger] outs.drop_first()[j]));
                lemma_failure_isolation(t, changed || rep, base + 1, outs.drop_first(), i - 1, msg);
            },
            Err(_) => {
                assert(false);
            },
        }
    }
}

} // verus!
