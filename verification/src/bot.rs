//! One dispatch cycle's pure core: run every algorithm over a snapshot,
//! pick which results a subscriber gets, and compose the delivered text.

use vstd::prelude::*;

use crate::fixed::{spec_digits, u64_to_string};
use crate::predictor::{spec_algorithm_best, spec_display_line, Algorithm};
use crate::state::State;

verus! {

/// A produced line for one algorithm: its newline-terminated result text
/// when the algorithm succeeded, nothing when it failed.
pub open spec fn line_matches(s: State, a: Algorithm, line: Option<String>) -> bool {
    match line {
        Some(text) => spec_algorithm_best(s, a.strategy) is Ok && text@ == spec_display_line(
            s,
            spec_algorithm_best(s, a.strategy).unwrap(),
            a.name@,
            a.forbidden,
            a.printed_stats@,
        ) + "\n"@,
        None => spec_algorithm_best(s, a.strategy) is Err,
    }
}

/// Run every given algorithm over the snapshot: one slot per algorithm,
/// in order, holding its result line or nothing. One algorithm's failure
/// leaves every other slot intact.
pub fn best_lines(state: &State, algorithms: &Vec<Algorithm>) -> (r: Vec<Option<String>>)
    requires
        state.wf(),
    ensures
        r@.len() == algorithms@.len(),
        forall|i: int| 0 <= i < r@.len() ==> line_matches(*state, algorithms@[i], #[trigger] r@[i]),
{
    let mut r: Vec<Option<String>> = Vec::new();
    let n = algorithms.len();
    for i in 0..n
        invariant
            n == algorithms@.len(),
            state.wf(),
            r@.len() == i,
            forall|j: int| 0 <= j < i ==> line_matches(*state, algorithms@[j], #[trigger] r@[j]),
    {
        let mut text = String::new();
        let line = match algorithms[i].write_best_to(state, &mut text) {
            Ok(()) => Some(text),
            Err(_) => None,
        };
        r.push(line);
    }
    r
}

/// A sequence of algorithm identifiers contains the given one.
pub open spec fn seq_contains_i64(s: Seq<i64>, x: i64) -> bool {
    exists|i: int| 0 <= i < s.len() && s[i] == x
}

/// Linear membership test over algorithm identifiers.
fn contains_i64(v: &Vec<i64>, x: i64) -> (r: bool)
    ensures
        r == seq_contains_i64(v@, x),
{
    let n = v.len();
    for i in 0..n
        invariant
            n == v@.len(),
            forall|j: int| 0 <= j < i ==> v@[j] != x,
    {
        if v[i] == x {
            return true;
        }
    }
    false
}

/// The default identifiers with those claimed by the other track removed,
/// order kept.
pub open spec fn spec_filter_not_in(defaults: Seq<i64>, excluded: Seq<i64>) -> Seq<i64>
    decreases defaults.len(),
{
    if defaults.len() == 0 {
        Seq::empty()
    } else {
        let prefix = spec_filter_not_in(defaults.drop_last(), excluded);
        if seq_contains_i64(excluded, defaults.last()) {
            prefix
        } else {
            prefix.push(defaults.last())
        }
    }
}

/// Which algorithms one subscriber gets on a track: their configured
/// selection when they have one (a configured empty selection counts as
/// none); otherwise the track's default list, minus any identifiers the
/// subscriber explicitly configured on the other track.
pub fn select_algorithms(
    configured: &Vec<i64>,
    other_configured: &Vec<i64>,
    defaults: &Vec<i64>,
) -> (r: Vec<i64>)
    ensures
        configured@.len() > 0 ==> r@ == configured@,
        configured@.len() == 0 && other_configured@.len() == 0 ==> r@ == defaults@,
        configured@.len() == 0 && other_configured@.len() > 0 ==> r@ == spec_filter_not_in(
            defaults@,
            other_configured@,
        ),
{
    if configured.len() > 0 {
        return configured.clone();
    }
    if other_configured.len() == 0 {
        return defaults.clone();
    }
    let mut r: Vec<i64> = Vec::new();
    let n = defaults.len();
    for i in 0..n
        invariant
            n == defaults@.len(),
            r@ == spec_filter_not_in(defaults@.take(i as int), other_configured@),
    {
        proof {
            assert(defaults@.take(i + 1).drop_last() =~= defaults@.take(i as int));
            assert(defaults@.take(i + 1).last() == defaults@[i as int]);
        }
        if !contains_i64(other_configured, defaults[i]) {
            r.push(defaults[i]);
        }
    }
    proof {
        assert(defaults@.take(n as int) =~= defaults@);
    }
    r
}

/// The text a selected identifier contributes: the algorithm's line when
/// the identifier is in range and its algorithm produced one, nothing
/// otherwise.
pub open spec fn spec_line_at(best: Seq<Option<String>>, id: i64) -> Seq<char> {
    if 0 <= id < best.len() && best[id as int] is Some {
        best[id as int].unwrap()@
    } else {
        Seq::empty()
    }
}

/// The concatenated lines of a selection of identifiers, in order.
pub open spec fn spec_selected_lines(best: Seq<Option<String>>, ids: Seq<i64>) -> Seq<char>
    decreases ids.len(),
{
    if ids.len() == 0 {
        Seq::empty()
    } else {
        spec_selected_lines(best, ids.drop_last()) + spec_line_at(best, ids.last())
    }
}

/// The identifiers of a joke selection whose algorithms produced a line.
pub open spec fn spec_available(best: Seq<Option<String>>, ids: Seq<i64>) -> Seq<i64>
    decreases ids.len(),
{
    if ids.len() == 0 {
        Seq::empty()
    } else {
        let prefix = spec_available(best, ids.drop_last());
        let id = ids.last();
        if 0 <= id < best.len() && best[id as int] is Some {
            prefix.push(id)
        } else {
            prefix
        }
    }
}

/// The joke identifiers that actually produced a line, order kept.
pub fn available_jokes(best: &Vec<Option<String>>, ids: &Vec<i64>) -> (r: Vec<i64>)
    ensures
        r@ == spec_available(best@, ids@),
{
    let mut r: Vec<i64> = Vec::new();
    let n = ids.len();
    for i in 0..n
        invariant
            n == ids@.len(),
            r@ == spec_available(best@, ids@.take(i as int)),
    {
        proof {
            assert(ids@.take(i + 1).drop_last() =~= ids@.take(i as int));
            assert(ids@.take(i + 1).last() == ids@[i as int]);
        }
        let id = ids[i];
        if id >= 0 && (id as u64) < (best.len() as u64) {
            if best[id as usize].is_some() {
                r.push(id);
            }
        }
    }
    proof {
        assert(ids@.take(n as int) =~= ids@);
    }
    r
}

/// The day header of one delivered message: the feed stamps days from
/// zero and the schedule is tomorrow's, so the printed day is two ahead.
pub open spec fn spec_header(day: u64) -> Seq<char>
    recommends
        day + 2 <= u64::MAX,
{
    "**Day "@ + spec_digits(day + 2) + "**\n"@
}

/// One delivered message: the day header, the lines of the subscriber's
/// selected algorithms in order, then the line of the joke identifier that
/// `pick` selects among those that produced one.
pub open spec fn spec_compose(
    day: u64,
    best: Seq<Option<String>>,
    ids: Seq<i64>,
    joke_ids: Seq<i64>,
    pick: int,
) -> Seq<char> {
    let avail = spec_available(best, joke_ids);
    spec_header(day) + spec_selected_lines(best, ids) + if avail.len() == 0 {
        Seq::empty()
    } else {
        spec_line_at(best, avail[pick % avail.len() as int])
    }
}

/// Compose one message deterministically, with the joke chosen by `pick`
/// (reduced modulo the number of available jokes).
pub fn compose_message(
    day: u64,
    best: &Vec<Option<String>>,
    ids: &Vec<i64>,
    joke_ids: &Vec<i64>,
    pick: usize,
) -> (r: String)
    requires
        day <= u64::MAX - 2,
    ensures
        r@ == spec_compose(day, best@, ids@, joke_ids@, pick as int),
{
    let mut text = String::new();
    text.append("**Day ");
    let day_text = u64_to_string(day + 2);
    text.append(day_text.as_str());
    text.append("**\n");
    proof {
        assert(text@ =~= spec_header(day));
    }
    let ghost header = text@;
    let n = ids.len();
    for i in 0..n
        invariant
            n == ids@.len(),
            text@ == header + spec_selected_lines(best@, ids@.take(i as int)),
    {
        proof {
            assert(ids@.take(i + 1).drop_last() =~= ids@.take(i as int));
            assert(ids@.take(i + 1).last() == ids@[i as int]);
        }
        let id = ids[i];
        if id >= 0 && (id as u64) < (best.len() as u64) {
            match &best[id as usize] {
                Some(line) => text.append(line.as_str()),
                None => {},
            }
        }
        proof {
            assert(text@ =~= header + spec_selected_lines(best@, ids@.take(i + 1)));
        }
    }
    proof {
        assert(ids@.take(n as int) =~= ids@);
    }
    let avail = available_jokes(best, joke_ids);
    if avail.len() > 0 {
        let chosen = avail[pick % avail.len()];
        if chosen >= 0 && (chosen as u64) < (best.len() as u64) {
            match &best[chosen as usize] {
                Some(line) => text.append(line.as_str()),
                None => {},
            }
        }
    }
    text
}

/// Relies on `rand::random_range` over `0..n`: the result is uniformly
/// drawn from the range. The call panics on an empty range, so `n` must
/// be positive; nothing beyond membership in the range is assumed of the
/// outcome.
#[verifier::external_body]
fn random_below(n: usize) -> (r: usize)
    requires
        n > 0,
    ensures
        r < n,
{
    rand::random_range(0..n)
}

/// Compose one message with the joke chosen at random among those that
/// produced a line, as delivery does: the result is one of the
/// deterministic compositions.
pub fn compose_message_with_random_joke(
    day: u64,
    best: &Vec<Option<String>>,
    ids: &Vec<i64>,
    joke_ids: &Vec<i64>,
) -> (r: String)
    requires
        day <= u64::MAX - 2,
    ensures
        exists|pick: int|
            0 <= pick && r@ == spec_compose(day, best@, ids@, joke_ids@, pick),
{
    let avail = available_jokes(best, joke_ids);
    let pick: usize = if avail.len() > 0 {
        random_below(avail.len())
    } else {
        0
    };
    let r = compose_message(day, best, ids, joke_ids, pick);
    proof {
        assert(r@ == spec_compose(day, best@, ids@, joke_ids@, pick as int));
    }
    r
}

} // verus!
