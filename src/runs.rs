use vstd::prelude::*;
use crate::pipeline::{
    identity_matches, is_real, is_unset, lemma_mount_only_on_match, lemma_release_once_per_mount,
    lemma_unset_target_never_matches, never_mounted, same_settings, transition, Action, Event,
    Outcome, Phase, Pipeline,
};
use crate::config::opt_view;

verus! {

/// `ss`, `evs` and `rs` are a run from a fresh pipeline: state `i + 1` and
/// action `i` are what event `i` made of state `i`.
pub open spec fn is_run(ss: Seq<Pipeline>, evs: Seq<Event>, rs: Seq<Action>) -> bool {
    &&& ss.len() == evs.len() + 1
    &&& rs.len() == evs.len()
    &&& ss[0].wf()
    &&& ss[0].phase == Phase::Scanning
    &&& ss[0].mounts == 0
    &&& ss[0].releases == 0
    &&& forall|i: int|
        0 <= i < evs.len() ==> ss[i].spec_accepts(#[trigger] evs[i]) && transition(
            ss[i],
            evs[i],
            ss[i + 1],
            rs[i],
        )
}

/// How many times `a` occurs in `rs`.
pub open spec fn count_action(rs: Seq<Action>, a: Action) -> nat
    decreases rs.len(),
{
    if rs.len() == 0 {
        0
    } else {
        count_action(rs.drop_last(), a) + if rs.last() == a {
            1nat
        } else {
            0nat
        }
    }
}

/// How many `Mounted` events occur in `evs`.
pub open spec fn count_mounted(evs: Seq<Event>) -> nat
    decreases evs.len(),
{
    if evs.len() == 0 {
        0
    } else {
        count_mounted(evs.drop_last()) + if evs.last() is Mounted {
            1nat
        } else {
            0nat
        }
    }
}

/// What holds of every state of a run: it is well formed, keeps the
/// settings, and its counters count the mounts and the releases so far.
proof fn lemma_run_state(ss: Seq<Pipeline>, evs: Seq<Event>, rs: Seq<Action>, k: int)
    requires
        is_run(ss, evs, rs),
        0 <= k <= evs.len(),
    ensures
        ss[k].wf(),
        same_settings(ss[0], ss[k]),
        ss[k].releases == count_action(rs.take(k), Action::Release),
        ss[k].mounts == count_mounted(evs.take(k)),
    decreases k,
{
    if k == 0 {
        assert(rs.take(0).len() == 0);
        assert(evs.take(0).len() == 0);
    } else {
        let j = k - 1;
        lemma_run_state(ss, evs, rs, j);
        assert(ss[j].spec_accepts(evs[j]));
        lemma_release_once_per_mount(ss[j], evs[j], ss[k], rs[j]);
        assert(rs.take(k).drop_last() =~= rs.take(j));
        assert(evs.take(k).drop_last() =~= evs.take(j));
    }
}

/// Over a whole run, a release is asked for exactly as often as a device
/// was mounted, at most once, by the time the run is finished.
pub proof fn lemma_run_releases_every_mount(ss: Seq<Pipeline>, evs: Seq<Event>, rs: Seq<Action>)
    requires
        is_run(ss, evs, rs),
        ss.last().phase == Phase::Finished,
    ensures
        count_action(rs, Action::Release) == count_mounted(evs),
        count_mounted(evs) <= 1,
{
    let n = evs.len() as int;
    lemma_run_state(ss, evs, rs, n);
    assert(rs.take(n) =~= rs);
    assert(evs.take(n) =~= evs);
}

/// Over a whole run, a mount is asked for exactly at the steps where the
/// candidate being probed shows the configured identifier; it is a mount of
/// that candidate, and the next step asks for no other mount.
pub proof fn lemma_run_mounts_only_matches(
    ss: Seq<Pipeline>,
    evs: Seq<Event>,
    rs: Seq<Action>,
    i: int,
)
    requires
        is_run(ss, evs, rs),
        0 <= i < evs.len(),
    ensures
        rs[i] == Action::Mount <==> (ss[i].phase == Phase::Probing && match evs[i] {
            Event::Identity(id) => identity_matches(opt_view(id), ss[0].target@),
            _ => false,
        }),
        rs[i] == Action::Mount ==> ss[i + 1].device@ == ss[i].device@,
        rs[i] == Action::Mount && i + 1 < evs.len() ==> rs[i + 1] != Action::Mount,
{
    lemma_run_state(ss, evs, rs, i);
    assert(ss[i].spec_accepts(evs[i]));
    lemma_mount_only_on_match(ss[i], evs[i], ss[i + 1], rs[i]);
    if i + 1 < evs.len() {
        lemma_run_state(ss, evs, rs, i + 1);
        assert(ss[i + 1].spec_accepts(evs[i + 1]));
        lemma_mount_only_on_match(ss[i + 1], evs[i + 1], ss[i + 2], rs[i + 1]);
    }
}

/// Nothing is mounted up to state `k` of a run whose target is unset and
/// whose events are those of real devices.
proof fn lemma_unset_run_prefix(ss: Seq<Pipeline>, evs: Seq<Event>, rs: Seq<Action>, k: int)
    requires
        is_run(ss, evs, rs),
        is_unset(ss[0].target@),
        forall|i: int| 0 <= i < evs.len() ==> is_real(#[trigger] evs[i]),
        0 <= k <= evs.len(),
    ensures
        never_mounted(ss[k]),
    decreases k,
{
    if k > 0 {
        let j = k - 1;
        lemma_unset_run_prefix(ss, evs, rs, j);
        lemma_run_state(ss, evs, rs, j);
        assert(ss[j].spec_accepts(evs[j]));
        assert(is_real(evs[j]));
        lemma_unset_target_never_matches(ss[j], evs[j], ss[k], rs[j]);
    }
}

/// A run whose target identifier is unset, among real devices, never asks
/// for a mount, and ends with no match when the candidates run out.
pub proof fn lemma_unset_run_never_matches(
    ss: Seq<Pipeline>,
    evs: Seq<Event>,
    rs: Seq<Action>,
    i: int,
)
    requires
        is_run(ss, evs, rs),
        is_unset(ss[0].target@),
        forall|j: int| 0 <= j < evs.len() ==> is_real(#[trigger] evs[j]),
        0 <= i < evs.len(),
    ensures
        rs[i] != Action::Mount,
        evs[i] is Exhausted ==> ss[i + 1].outcome == Outcome::NoMatch,
{
    lemma_unset_run_prefix(ss, evs, rs, i);
    lemma_run_state(ss, evs, rs, i);
    assert(ss[i].spec_accepts(evs[i]));
    assert(is_real(evs[i]));
    lemma_unset_target_never_matches(ss[i], evs[i], ss[i + 1], rs[i]);
}

/// How many events of `evs` are probes that show `target`.
pub open spec fn count_matching(evs: Seq<Event>, target: Seq<char>) -> nat
    decreases evs.len(),
{
    if evs.len() == 0 {
        0
    } else {
        count_matching(evs.drop_last(), target) + match evs.last() {
            Event::Identity(id) => if identity_matches(opt_view(id), target) {
                1nat
            } else {
                0nat
            },
            _ => 0nat,
        }
    }
}

/// Up to step `k` of a run, as many mounts were asked for as probes showed
/// the target.
proof fn lemma_run_mount_count_prefix(ss: Seq<Pipeline>, evs: Seq<Event>, rs: Seq<Action>, k: int)
    requires
        is_run(ss, evs, rs),
        0 <= k <= evs.len(),
    ensures
        count_action(rs.take(k), Action::Mount) == count_matching(evs.take(k), ss[0].target@),
    decreases k,
{
    if k == 0 {
        assert(rs.take(0).len() == 0);
        assert(evs.take(0).len() == 0);
    } else {
        let j = k - 1;
        lemma_run_mount_count_prefix(ss, evs, rs, j);
        lemma_run_mounts_only_matches(ss, evs, rs, j);
        lemma_run_state(ss, evs, rs, j);
        assert(ss[j].spec_accepts(evs[j]));
        assert(rs.take(k).drop_last() =~= rs.take(j));
        assert(evs.take(k).drop_last() =~= evs.take(j));
        assert(rs.take(k).last() == rs[j]);
        assert(evs.take(k).last() == evs[j]);
    }
}

/// Over a whole run, the number of mounts asked for is the number of probes
/// that showed the configured identifier, whatever order the candidates came
/// in.  So when exactly one candidate matches, exactly one mount is asked
/// for, and by the per-step law it is a mount of that candidate.
pub proof fn lemma_run_mount_count(ss: Seq<Pipeline>, evs: Seq<Event>, rs: Seq<Action>)
    requires
        is_run(ss, evs, rs),
    ensures
        count_action(rs, Action::Mount) == count_matching(evs, ss[0].target@),
        count_matching(evs, ss[0].target@) == 1 ==> count_action(rs, Action::Mount) == 1,
{
    let n = evs.len() as int;
    lemma_run_mount_count_prefix(ss, evs, rs, n);
    assert(rs.take(n) =~= rs);
    assert(evs.take(n) =~= evs);
}

} // verus!
