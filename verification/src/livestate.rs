//! The live game state: which runner stands on which base. Movements of
//! one play are first simplified — all movements by the same runner
//! collapse into one — then validated against the occupancy and the
//! pinch-runner roster, and finally applied.

use vstd::prelude::*;
use vstd::string::*;

use crate::content::{mviews, Movement, MovementV};
use crate::ontology::{Base, Inning, TopBottom};

verus! {

/// The four base slots, each empty or bound to a runner name.
#[derive(Clone, Debug)]
pub struct RunnerPositions {
    pub home: Option<String>,
    pub first: Option<String>,
    pub second: Option<String>,
    pub third: Option<String>,
}

/// The mathematical image of the occupancy.
pub ghost struct RunnerPositionsV {
    pub home: Option<Seq<char>>,
    pub first: Option<Seq<char>>,
    pub second: Option<Seq<char>>,
    pub third: Option<Seq<char>>,
}

/// The view of one slot.
pub open spec fn slot_view(s: Option<String>) -> Option<Seq<char>> {
    match s {
        None => None,
        Some(x) => Some(x@),
    }
}

impl View for RunnerPositions {
    type V = RunnerPositionsV;

    open spec fn view(&self) -> RunnerPositionsV {
        RunnerPositionsV {
            home: slot_view(self.home),
            first: slot_view(self.first),
            second: slot_view(self.second),
            third: slot_view(self.third),
        }
    }
}

/// The earlier of two starting bases: home starts every advance.
pub open spec fn min_from(a: Base, b: Base) -> Base {
    if a.from_rank() <= b.from_rank() {
        a
    } else {
        b
    }
}

/// The later of two ending bases: home ends every advance.
pub open spec fn max_to(a: Base, b: Base) -> Base {
    if a.to_rank() >= b.to_rank() {
        a
    } else {
        b
    }
}

/// Whether some movement in `ms` is by runner `r`.
pub open spec fn has_runner(ms: Seq<MovementV>, r: Seq<char>) -> bool
    decreases ms.len(),
{
    if ms.len() == 0 {
        false
    } else {
        ms[0].runner == r || has_runner(ms.drop_first(), r)
    }
}

/// Fold the movements by runner `r` into the accumulated earliest start,
/// latest end and out flag.
pub open spec fn fold_group(
    ms: Seq<MovementV>,
    r: Seq<char>,
    acc_from: Base,
    acc_to: Base,
    acc_out: bool,
) -> (Base, Base, bool)
    decreases ms.len(),
{
    if ms.len() == 0 {
        (acc_from, acc_to, acc_out)
    } else if ms[0].runner == r {
        fold_group(
            ms.drop_first(),
            r,
            min_from(acc_from, ms[0].from),
            max_to(acc_to, ms[0].to),
            acc_out || ms[0].out,
        )
    } else {
        fold_group(ms.drop_first(), r, acc_from, acc_to, acc_out)
    }
}

/// The single movement that summarizes everything runner `r` did in
/// `ms`: earliest starting base, latest ending base, out iff any part
/// was out.
pub open spec fn group_of(ms: Seq<MovementV>, r: Seq<char>) -> MovementV
    recommends
        has_runner(ms, r),
{
    let (f, t, o) = fold_group(ms, r, Base::Third, Base::First, false);
    MovementV { runner: r, from: f, to: t, out: o }
}

/// `ms` without the movements by runner `r`.
pub open spec fn remove_runner(ms: Seq<MovementV>, r: Seq<char>) -> Seq<MovementV>
    decreases ms.len(),
{
    if ms.len() == 0 {
        Seq::empty()
    } else if ms[0].runner == r {
        remove_runner(ms.drop_first(), r)
    } else {
        seq![ms[0]] + remove_runner(ms.drop_first(), r)
    }
}

/// Removing a runner never lengthens the list.
pub proof fn lemma_remove_runner_len(ms: Seq<MovementV>, r: Seq<char>)
    ensures
        remove_runner(ms, r).len() <= ms.len(),
    decreases ms.len(),
{
    if ms.len() > 0 {
        lemma_remove_runner_len(ms.drop_first(), r);
    }
}

/// The simplified movement list: one summary movement per distinct
/// runner, in order of each runner's first appearance.
pub open spec fn spec_simplify(ms: Seq<MovementV>) -> Seq<MovementV>
    decreases ms.len(),
    via spec_simplify_decreases
{
    if ms.len() == 0 {
        Seq::empty()
    } else {
        seq![group_of(ms, ms[0].runner)] + spec_simplify(
            remove_runner(ms.drop_first(), ms[0].runner),
        )
    }
}

#[via_fn]
proof fn spec_simplify_decreases(ms: Seq<MovementV>) {
    if ms.len() > 0 {
        lemma_remove_runner_len(ms.drop_first(), ms[0].runner);
    }
}

/// No two movements of `xs` are by the same runner.
pub open spec fn distinct_runners(xs: Seq<MovementV>) -> bool {
    forall|i: int, j: int| 0 <= i < j < xs.len() ==> xs[i].runner != xs[j].runner
}

/// Every runner named in a simplified list appears in the list it
/// came from.
proof fn lemma_simplify_runners(ms: Seq<MovementV>)
    ensures
        forall|i: int|
            0 <= i < spec_simplify(ms).len() ==> #[trigger] has_runner(
                ms,
                spec_simplify(ms)[i].runner,
            ),
    decreases ms.len(),
{
    if ms.len() > 0 {
        let r0 = ms[0].runner;
        let rest = remove_runner(ms.drop_first(), r0);
        lemma_remove_runner_len(ms.drop_first(), r0);
        lemma_simplify_runners(rest);
        assert forall|i: int| 0 <= i < spec_simplify(ms).len() implies #[trigger] has_runner(
            ms,
            spec_simplify(ms)[i].runner,
        ) by {
            if i == 0 {
                assert(has_runner(ms, r0));
            } else {
                let r = spec_simplify(ms)[i].runner;
                assert(has_runner(rest, r));
                lemma_remove_runner_has(ms.drop_first(), r0, r);
                assert(has_runner(ms.drop_first(), r));
            }
        }
    }
}

/// Removing one runner keeps every other runner's presence unchanged,
/// and removes the named runner entirely.
proof fn lemma_remove_runner_has(ms: Seq<MovementV>, r: Seq<char>, q: Seq<char>)
    ensures
        r != q ==> has_runner(remove_runner(ms, r), q) == has_runner(ms, q),
        !has_runner(remove_runner(ms, r), r),
    decreases ms.len(),
{
    if ms.len() > 0 {
        lemma_remove_runner_has(ms.drop_first(), r, q);
        if ms[0].runner != r {
            let rec = remove_runner(ms.drop_first(), r);
            assert((seq![ms[0]] + rec).drop_first() =~= rec);
        }
    }
}

/// A simplified list names each runner once.
proof fn lemma_simplify_distinct(ms: Seq<MovementV>)
    ensures
        distinct_runners(spec_simplify(ms)),
    decreases ms.len(),
{
    if ms.len() > 0 {
        let r0 = ms[0].runner;
        let rest = remove_runner(ms.drop_first(), r0);
        lemma_remove_runner_len(ms.drop_first(), r0);
        lemma_simplify_distinct(rest);
        lemma_simplify_runners(rest);
        lemma_remove_runner_has(ms.drop_first(), r0, r0);
        let out = spec_simplify(ms);
        assert forall|i: int, j: int| 0 <= i < j < out.len() implies out[i].runner
            != out[j].runner by {
            if i == 0 {
                assert(has_runner(rest, out[j].runner));
                assert(!has_runner(rest, r0));
            } else {
                assert(spec_simplify(rest)[i - 1].runner != spec_simplify(rest)[j - 1].runner);
            }
        }
    }
}

/// Summarizing a list in which only its head names runner `r` gives the
/// head back.
proof fn lemma_group_single(xs: Seq<MovementV>)
    requires
        xs.len() > 0,
        !has_runner(xs.drop_first(), xs[0].runner),
    ensures
        group_of(xs, xs[0].runner) == xs[0],
{
    let r = xs[0].runner;
    lemma_fold_absent(
        xs.drop_first(),
        r,
        min_from(Base::Third, xs[0].from),
        max_to(Base::First, xs[0].to),
        false || xs[0].out,
    );
}

/// Folding a list without the runner leaves the accumulator unchanged.
proof fn lemma_fold_absent(ms: Seq<MovementV>, r: Seq<char>, f: Base, t: Base, o: bool)
    requires
        !has_runner(ms, r),
    ensures
        fold_group(ms, r, f, t, o) == (f, t, o),
    decreases ms.len(),
{
    if ms.len() > 0 {
        lemma_fold_absent(ms.drop_first(), r, f, t, o);
    }
}

/// Simplifying a list whose runners are already distinct changes
/// nothing.
proof fn lemma_simplify_distinct_id(xs: Seq<MovementV>)
    requires
        distinct_runners(xs),
    ensures
        spec_simplify(xs) == xs,
    decreases xs.len(),
{
    if xs.len() > 0 {
        let r0 = xs[0].runner;
        assert(!has_runner(xs.drop_first(), r0)) by {
            lemma_has_runner_index(xs.drop_first(), r0);
        }
        lemma_group_single(xs);
        assert(remove_runner(xs.drop_first(), r0) =~= xs.drop_first()) by {
            lemma_remove_runner_absent(xs.drop_first(), r0);
        }
        lemma_simplify_distinct_id(xs.drop_first());
        assert(spec_simplify(xs) =~= xs);
    }
}

/// A runner present in a list stands at some index of it.
proof fn lemma_has_runner_index(ms: Seq<MovementV>, r: Seq<char>)
    ensures
        has_runner(ms, r) <==> exists|i: int| 0 <= i < ms.len() && ms[i].runner == r,
    decreases ms.len(),
{
    if ms.len() > 0 {
        lemma_has_runner_index(ms.drop_first(), r);
        if ms[0].runner == r {
            assert(ms[0].runner == r && 0 <= 0 < ms.len());
        } else if exists|i: int| 0 <= i < ms.drop_first().len() && ms.drop_first()[i].runner == r {
            let i = choose|i: int| 0 <= i < ms.drop_first().len() && ms.drop_first()[i].runner == r;
            assert(ms[i + 1].runner == r);
        } else if exists|i: int| 0 <= i < ms.len() && ms[i].runner == r {
            let i = choose|i: int| 0 <= i < ms.len() && ms[i].runner == r;
            assert(ms.drop_first()[i - 1].runner == r);
        }
    }
}

/// Removing an absent runner changes nothing.
proof fn lemma_remove_runner_absent(ms: Seq<MovementV>, r: Seq<char>)
    requires
        !has_runner(ms, r),
    ensures
        remove_runner(ms, r) =~= ms,
    decreases ms.len(),
{
    if ms.len() > 0 {
        lemma_remove_runner_absent(ms.drop_first(), r);
        assert((seq![ms[0]] + remove_runner(ms.drop_first(), r)) =~= ms);
    }
}

/// Movement simplification is idempotent: simplifying a simplified list
/// gives it back unchanged.
pub proof fn lemma_simplify_idempotent(ms: Seq<MovementV>)
    ensures
        spec_simplify(spec_simplify(ms)) == spec_simplify(ms),
{
    lemma_simplify_distinct(ms);
    lemma_simplify_distinct_id(spec_simplify(ms));
}

/// Whether one simplified movement is admissible: no backward advance,
/// and a runner leaving first, second or third must be the slot's
/// occupant or a rostered pinch runner.
pub open spec fn movement_ok(m: MovementV, pos: RunnerPositionsV, prs: Seq<Seq<char>>) -> bool {
    &&& !(m.from == Base::Third && m.to == Base::Second)
    &&& !(m.from == Base::Third && m.to == Base::First)
    &&& !(m.from == Base::Second && m.to == Base::First)
    &&& match m.from {
        Base::First => pos.first matches Some(occ) && (m.runner == occ || prs.contains(m.runner)),
        Base::Second => pos.second matches Some(occ) && (m.runner == occ || prs.contains(m.runner)),
        Base::Third => pos.third matches Some(occ) && (m.runner == occ || prs.contains(m.runner)),
        Base::Home => true,
    }
}

/// Every movement of `ms` is admissible against `pos`.
pub open spec fn all_ok(ms: Seq<MovementV>, pos: RunnerPositionsV, prs: Seq<Seq<char>>) -> bool {
    forall|i: int| 0 <= i < ms.len() ==> #[trigger] movement_ok(ms[i], pos, prs)
}

/// The reason the given inadmissible movement is rejected: the first
/// check that fails, direction before occupancy.
pub open spec fn violation_message(
    m: MovementV,
    pos: RunnerPositionsV,
    prs: Seq<Seq<char>>,
) -> Seq<char> {
    if m.from == Base::Third && m.to == Base::Second {
        "Cannot move runner from third to second"@
    } else if m.from == Base::Third && m.to == Base::First {
        "Cannot move runner from third to first"@
    } else if m.from == Base::Second && m.to == Base::First {
        "Cannot move runner from second to first"@
    } else {
        match m.from {
            Base::First => match pos.first {
                Some(occ) => "Runner "@ + m.runner
                    + " is not on first base and is not a pinch runner"@,
                None => "No runner is on first base"@,
            },
            Base::Second => match pos.second {
                Some(occ) => "Runner "@ + m.runner
                    + " is not on second base and is not a pinch runner"@,
                None => "No runner is on second base"@,
            },
            Base::Third => match pos.third {
                Some(occ) => "Runner "@ + m.runner
                    + " is not on third base and is not a pinch runner"@,
                None => "No runner is on third base"@,
            },
            Base::Home => Seq::empty(),
        }
    }
}

/// `msg` reports the first inadmissible movement of `ms`.
pub open spec fn violation_report(
    ms: Seq<MovementV>,
    pos: RunnerPositionsV,
    prs: Seq<Seq<char>>,
    msg: Seq<char>,
) -> bool {
    exists|i: int|
        {
            &&& 0 <= i < ms.len()
            &&& !(#[trigger] movement_ok(ms[i], pos, prs))
            &&& (forall|q: int| 0 <= q < i ==> movement_ok(ms[q], pos, prs))
            &&& msg == violation_message(ms[i], pos, prs)
        }
}

/// The occupancy after one movement: a runner who is not out takes the
/// slot of the base reached; an out changes nothing; no slot is cleared.
pub open spec fn apply_one(m: MovementV, pos: RunnerPositionsV) -> RunnerPositionsV {
    if m.out {
        pos
    } else {
        match m.to {
            Base::First => RunnerPositionsV { first: Some(m.runner), ..pos },
            Base::Second => RunnerPositionsV { second: Some(m.runner), ..pos },
            Base::Third => RunnerPositionsV { third: Some(m.runner), ..pos },
            Base::Home => RunnerPositionsV { home: Some(m.runner), ..pos },
        }
    }
}

/// The occupancy after all movements of `ms`, applied in order.
pub open spec fn apply_all(ms: Seq<MovementV>, pos: RunnerPositionsV) -> RunnerPositionsV
    decreases ms.len(),
{
    if ms.len() == 0 {
        pos
    } else {
        apply_all(ms.drop_first(), apply_one(ms[0], pos))
    }
}

impl RunnerPositions {
    /// All four base slots empty.
    pub fn empty() -> (r: Self)
        ensures
            r@.home is None,
            r@.first is None,
            r@.second is None,
            r@.third is None,
    {
        Self { home: None, first: None, second: None, third: None }
    }

    /// Group any chains of movements by the same runner into a single
    /// movement per runner, in order of first appearance.
    pub fn simplify_movements(&self, movements: &Vec<Movement>) -> (r: Vec<Movement>)
        ensures
            mviews(r@) == spec_simplify(mviews(movements@)),
        decreases movements@.len(),
    {
        let ghost ms = mviews(movements@);
        if movements.len() == 0 {
            let r: Vec<Movement> = Vec::new();
            assert(mviews(r@) =~= spec_simplify(ms));
            return r;
        }
        let r0 = movements[0].runner.clone();
        // Fold the whole list into this runner's summary movement.
        let mut acc_from = Base::Third;
        let mut acc_to = Base::First;
        let mut acc_out = false;
        let mut j: usize = 0;
        proof {
            assert(ms.skip(0) =~= ms);
        }
        while j < movements.len()
            invariant
                0 <= j <= movements@.len(),
                ms == mviews(movements@),
                r0@ == ms[0].runner,
                fold_group(ms, ms[0].runner, Base::Third, Base::First, false) == fold_group(
                    ms.skip(j as int),
                    ms[0].runner,
                    acc_from,
                    acc_to,
                    acc_out,
                ),
            decreases movements@.len() - j,
        {
            proof {
                lemma_seq_skip_step(ms, j as int);
            }
            if movements[j].runner == r0 {
                let mf = movements[j].from;
                let mt = movements[j].to;
                acc_from = if base_from_rank(&acc_from) <= base_from_rank(&mf) {
                    acc_from
                } else {
                    mf
                };
                acc_to = if base_to_rank(&acc_to) >= base_to_rank(&mt) {
                    acc_to
                } else {
                    mt
                };
                acc_out = acc_out || movements[j].out;
            }
            j += 1;
        }
        proof {
            assert(ms.skip(movements@.len() as int) =~= Seq::<MovementV>::empty());
        }
        let head = Movement { runner: r0.clone(), from: acc_from, to: acc_to, out: acc_out };
        assert(head@ == group_of(ms, ms[0].runner));
        // The rest: every later movement by a different runner.
        let mut rest: Vec<Movement> = Vec::new();
        let mut i: usize = 1;
        proof {
            assert(ms.skip(1) =~= ms.drop_first());
        }
        while i < movements.len()
            invariant
                1 <= i <= movements@.len(),
                ms == mviews(movements@),
                movements@.len() > 0,
                r0@ == ms[0].runner,
                mviews(rest@) + remove_runner(ms.skip(i as int), ms[0].runner) == remove_runner(
                    ms.drop_first(),
                    ms[0].runner,
                ),
                rest@.len() < i,
            decreases movements@.len() - i,
        {
            proof {
                lemma_seq_skip_step(ms, i as int);
            }
            if !(movements[i].runner == r0) {
                let m = Movement {
                    runner: movements[i].runner.clone(),
                    from: movements[i].from,
                    to: movements[i].to,
                    out: movements[i].out,
                };
                rest.push(m);
                assert(mviews(rest@) =~= mviews(rest@.drop_last().push(m)).drop_last().push(m@));
            }
            proof {
                assert(mviews(rest@) + remove_runner(ms.skip(i + 1), ms[0].runner) =~= remove_runner(
                    ms.drop_first(),
                    ms[0].runner,
                ));
            }
            i += 1;
        }
        proof {
            assert(ms.skip(movements@.len() as int) =~= Seq::<MovementV>::empty());
            assert(mviews(rest@) + Seq::<MovementV>::empty() =~= mviews(rest@));
            assert(mviews(rest@) == remove_runner(ms.drop_first(), ms[0].runner));
        }
        let tail = self.simplify_movements(&rest);
        let mut out: Vec<Movement> = Vec::new();
        out.push(head);
        let mut t: usize = 0;
        while t < tail.len()
            invariant
                0 <= t <= tail@.len(),
                out@.len() == t + 1,
                out@[0] == head,
                forall|q: int| 0 <= q < t ==> out@[q + 1] == tail@[q],
            decreases tail@.len() - t,
        {
            let m = Movement {
                runner: tail[t].runner.clone(),
                from: tail[t].from,
                to: tail[t].to,
                out: tail[t].out,
            };
            out.push(m);
            t += 1;
        }
        assert(mviews(out@) =~= seq![group_of(ms, ms[0].runner)] + spec_simplify(
            remove_runner(ms.drop_first(), ms[0].runner),
        ));
        out
    }
}

/// A sequence stepped past an element: basic facts about `skip`.
proof fn lemma_seq_skip_step<T>(s: Seq<T>, i: int)
    requires
        0 <= i < s.len(),
    ensures
        s.skip(i).drop_first() =~= s.skip(i + 1),
        s.skip(i)[0] == s[i],
        s.skip(i).len() == s.len() - i,
{
}

/// The starting rank of a base, as executable code.
pub fn base_from_rank(b: &Base) -> (r: u8)
    ensures
        r == b.from_rank(),
{
    match b {
        Base::Home => 0,
        Base::First => 1,
        Base::Second => 2,
        Base::Third => 3,
    }
}

/// The ending rank of a base, as executable code.
pub fn base_to_rank(b: &Base) -> (r: u8)
    ensures
        r == b.to_rank(),
{
    match b {
        Base::First => 1,
        Base::Second => 2,
        Base::Third => 3,
        Base::Home => 4,
    }
}


/// Copy one base slot.
fn clone_slot(s: &Option<String>) -> (r: Option<String>)
    ensures
        r == *s,
{
    match s {
        None => None,
        Some(x) => Some(x.clone()),
    }
}

/// Whether the roster contains the given name.
fn contains_name(v: &Vec<String>, s: &String) -> (b: bool)
    ensures
        b == v.deep_view().contains(s@),
{
    let mut i: usize = 0;
    while i < v.len()
        invariant
            0 <= i <= v@.len(),
            forall|j: int| 0 <= j < i ==> v.deep_view()[j] != s@,
        decreases v@.len() - i,
    {
        if v[i].eq(s) {
            assert(v.deep_view()[i as int] == s@);
            return true;
        }
        i += 1;
    }
    assert(!v.deep_view().contains(s@));
    false
}

impl RunnerPositions {
    /// Simplify the play's movements, validate each against the current
    /// occupancy and the pinch-runner roster, and, when all are
    /// admissible, apply them in order. A violation leaves the occupancy
    /// unchanged and reports the first offending movement.
    #[verifier::loop_isolation(false)]
    pub fn process_movements(&mut self, movements: &Vec<Movement>, pinch_runners: &Vec<String>) -> (r:
        Result<(), String>)
        ensures
            r is Ok ==> all_ok(
                spec_simplify(mviews(movements@)),
                old(self)@,
                pinch_runners.deep_view(),
            ),
            r is Err ==> !all_ok(
                spec_simplify(mviews(movements@)),
                old(self)@,
                pinch_runners.deep_view(),
            ),
            r matches Err(e) ==> violation_report(
                spec_simplify(mviews(movements@)),
                old(self)@,
                pinch_runners.deep_view(),
                e@,
            ),
            r is Ok ==> final(self)@ == apply_all(spec_simplify(mviews(movements@)), old(self)@),
            r is Err ==> *final(self) == *old(self),
    {
        let ghost ss = spec_simplify(mviews(movements@));
        let ghost prs = pinch_runners.deep_view();
        let simplified = self.simplify_movements(movements);
        let mut new_pos = RunnerPositions {
            home: clone_slot(&self.home),
            first: clone_slot(&self.first),
            second: clone_slot(&self.second),
            third: clone_slot(&self.third),
        };
        let mut i: usize = 0;
        proof {
            assert(ss.skip(0) =~= ss);
        }
        while i < simplified.len()
            invariant
                0 <= i <= simplified@.len(),
                mviews(simplified@) == ss,
                forall|q: int| 0 <= q < i ==> #[trigger] movement_ok(ss[q], self@, prs),
                apply_all(ss, old(self)@) == apply_all(ss.skip(i as int), new_pos@),
                *self == *old(self),
                prs == pinch_runners.deep_view(),
            decreases simplified@.len() - i,
        {
            proof {
                lemma_seq_skip_step(ss, i as int);
            }
            let m = &simplified[i];
            assert(m@ == ss[i as int]);
            match (m.from, m.to) {
                (Base::Third, Base::Second) => {
                    assert(!movement_ok(ss[i as int], old(self)@, prs));
                    assert(!all_ok(ss, old(self)@, prs));
                    let msg = String::from_str("Cannot move runner from third to second");
                    assert(msg@ == violation_message(ss[i as int], old(self)@, prs));
                    assert(violation_report(ss, old(self)@, prs, msg@));
                    return Err(msg);
                },
                (Base::Third, Base::First) => {
                    assert(!movement_ok(ss[i as int], old(self)@, prs));
                    assert(!all_ok(ss, old(self)@, prs));
                    let msg = String::from_str("Cannot move runner from third to first");
                    assert(msg@ == violation_message(ss[i as int], old(self)@, prs));
                    assert(violation_report(ss, old(self)@, prs, msg@));
                    return Err(msg);
                },
                (Base::Second, Base::First) => {
                    assert(!movement_ok(ss[i as int], old(self)@, prs));
                    assert(!all_ok(ss, old(self)@, prs));
                    let msg = String::from_str("Cannot move runner from second to first");
                    assert(msg@ == violation_message(ss[i as int], old(self)@, prs));
                    assert(violation_report(ss, old(self)@, prs, msg@));
                    return Err(msg);
                },
                _ => (),
            }
            match m.from {
                Base::First => {
                    match &self.first {
                        Some(runner) => {
                            if !m.runner.eq(runner) && !contains_name(pinch_runners, &m.runner) {
                                assert(!movement_ok(ss[i as int], old(self)@, prs));
                                assert(!all_ok(ss, old(self)@, prs));
                                let mut msg = String::from_str("Runner ");
                                msg.append(m.runner.as_str());
                                msg.append(" is not on first base and is not a pinch runner");
                                assert(msg@ == violation_message(ss[i as int], old(self)@, prs));
                                assert(violation_report(ss, old(self)@, prs, msg@));
                                return Err(msg);
                            }
                        },
                        None => {
                            assert(!movement_ok(ss[i as int], old(self)@, prs));
                            assert(!all_ok(ss, old(self)@, prs));
                            let msg = String::from_str("No runner is on first base");
                            assert(msg@ == violation_message(ss[i as int], old(self)@, prs));
                            assert(violation_report(ss, old(self)@, prs, msg@));
                            return Err(msg);
                        },
                    }
                },
                Base::Second => {
                    match &self.second {
                        Some(runner) => {
                            if !m.runner.eq(runner) && !contains_name(pinch_runners, &m.runner) {
                                assert(!movement_ok(ss[i as int], old(self)@, prs));
                                assert(!all_ok(ss, old(self)@, prs));
                                let mut msg = String::from_str("Runner ");
                                msg.append(m.runner.as_str());
                                msg.append(" is not on second base and is not a pinch runner");
                                assert(msg@ == violation_message(ss[i as int], old(self)@, prs));
                                assert(violation_report(ss, old(self)@, prs, msg@));
                                return Err(msg);
                            }
                        },
                        None => {
                            assert(!movement_ok(ss[i as int], old(self)@, prs));
                            assert(!all_ok(ss, old(self)@, prs));
                            let msg = String::from_str("No runner is on second base");
                            assert(msg@ == violation_message(ss[i as int], old(self)@, prs));
                            assert(violation_report(ss, old(self)@, prs, msg@));
                            return Err(msg);
                        },
                    }
                },
                Base::Third => {
                    match &self.third {
                        Some(runner) => {
                            if !m.runner.eq(runner) && !contains_name(pinch_runners, &m.runner) {
                                assert(!movement_ok(ss[i as int], old(self)@, prs));
                                assert(!all_ok(ss, old(self)@, prs));
                                let mut msg = String::from_str("Runner ");
                                msg.append(m.runner.as_str());
                                msg.append(" is not on third base and is not a pinch runner");
                                assert(msg@ == violation_message(ss[i as int], old(self)@, prs));
                                assert(violation_report(ss, old(self)@, prs, msg@));
                                return Err(msg);
                            }
                        },
                        None => {
                            assert(!movement_ok(ss[i as int], old(self)@, prs));
                            assert(!all_ok(ss, old(self)@, prs));
                            let msg = String::from_str("No runner is on third base");
                            assert(msg@ == violation_message(ss[i as int], old(self)@, prs));
                            assert(violation_report(ss, old(self)@, prs, msg@));
                            return Err(msg);
                        },
                    }
                },
                Base::Home => (),
            }
            assert(movement_ok(ss[i as int], self@, prs));
            let ghost prev = new_pos@;
            if !m.out {
                match m.to {
                    Base::First => {
                        new_pos.first = Some(m.runner.clone());
                    },
                    Base::Second => {
                        new_pos.second = Some(m.runner.clone());
                    },
                    Base::Third => {
                        new_pos.third = Some(m.runner.clone());
                    },
                    Base::Home => {
                        new_pos.home = Some(m.runner.clone());
                    },
                }
            }
            assert(new_pos@ == apply_one(ss[i as int], prev));
            i += 1;
        }
        proof {
            assert(ss.skip(simplified@.len() as int) =~= Seq::<MovementV>::empty());
        }
        *self = new_pos;
        Ok(())
    }
}

/// The live scoreboard state: occupancy, current inning, and scores.
pub struct LiveGameState {
    pub runner_positions: RunnerPositions,
    pub inning: Inning,
    pub home_team_score: u64,
    pub away_team_score: u64,
}

impl LiveGameState {
    /// The state before any input: empty bases, top of the first inning.
    pub fn new() -> (r: Self)
        ensures
            r.runner_positions@.home is None,
            r.runner_positions@.first is None,
            r.runner_positions@.second is None,
            r.runner_positions@.third is None,
            r.inning == (Inning { number: 1, top_bottom: TopBottom::Top }),
            r.home_team_score == 0,
            r.away_team_score == 0,
    {
        Self {
            runner_positions: RunnerPositions::empty(),
            inning: Inning { number: 1, top_bottom: TopBottom::Top },
            home_team_score: 0,
            away_team_score: 0,
        }
    }
}

} // verus!
