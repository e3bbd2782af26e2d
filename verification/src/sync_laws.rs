//! What holds of whole runs of the synchronization engine.
//!
//! The proof functions here are the engine's laws, stated over the model in
//! `sync_model`.  Since the executable machine is proved to follow that
//! model step by step, each law holds of any driver that performs the
//! pending actions and reports their outcomes faithfully.

use vstd::prelude::*;

use crate::sync_model::{
    action_of, base_of, event_matches, events_ok, lemma_run_append, lemma_run_cons, next_phase,
    phase_after, run_actions, run_phase, run_trace, ActionV, EventV, PhaseV, Stage, StepKind,
};

verus! {

/// The outcomes of the steps that bring one branch to the point of its
/// rebase: checkout succeeds, the remote query answers `remote_exists`, and
/// the pull that a positive answer causes succeeds.
pub open spec fn branch_refresh_events(remote_exists: bool) -> Seq<EventV> {
    if remote_exists {
        seq![
            EventV::Success,
            EventV::RemoteExists { exists: true },
            EventV::Success,
        ]
    } else {
        seq![EventV::Success, EventV::RemoteExists { exists: false }]
    }
}

/// The actions those steps perform: checkout, remote query, and a pull
/// exactly when the branch exists on the remote.
pub open spec fn branch_refresh_actions(
    chain: Seq<Seq<char>>,
    index: int,
    remote_exists: bool,
) -> Seq<ActionV> {
    if remote_exists {
        seq![
            ActionV::Checkout { target: chain[index] },
            ActionV::QueryRemote { branch: chain[index] },
            ActionV::Pull,
        ]
    } else {
        seq![
            ActionV::Checkout { target: chain[index] },
            ActionV::QueryRemote { branch: chain[index] },
        ]
    }
}

/// The outcomes of the steps that publish one rebased branch: rebase and
/// force-push succeed, the pull-request search answers `pr_found`, and the
/// creation that a negative answer causes succeeds.
pub open spec fn branch_publish_events(pr_found: bool) -> Seq<EventV> {
    if pr_found {
        seq![
            EventV::Success,
            EventV::Success,
            EventV::PullRequestFound { found: true },
        ]
    } else {
        seq![
            EventV::Success,
            EventV::Success,
            EventV::PullRequestFound { found: false },
            EventV::Success,
        ]
    }
}

/// The actions those steps perform: rebase onto the branch's base,
/// force-push, search for the pull request, and create it exactly when the
/// search found none.
pub open spec fn branch_publish_actions(
    trunk: Seq<char>,
    chain: Seq<Seq<char>>,
    index: int,
    pr_found: bool,
) -> Seq<ActionV> {
    let base = base_of(trunk, chain, index);
    if pr_found {
        seq![
            ActionV::Rebase { base },
            ActionV::ForcePush { branch: chain[index] },
            ActionV::FindPullRequest { base, head: chain[index] },
        ]
    } else {
        seq![
            ActionV::Rebase { base },
            ActionV::ForcePush { branch: chain[index] },
            ActionV::FindPullRequest { base, head: chain[index] },
            ActionV::CreatePullRequest { base, head: chain[index] },
        ]
    }
}

/// The outcomes of one branch's whole pipeline on a successful run.
pub open spec fn branch_events(remote_exists: bool, pr_found: bool) -> Seq<EventV> {
    branch_refresh_events(remote_exists) + branch_publish_events(pr_found)
}

/// The actions of one branch's whole pipeline on a successful run.
pub open spec fn branch_actions(
    trunk: Seq<char>,
    chain: Seq<Seq<char>>,
    index: int,
    remote_exists: bool,
    pr_found: bool,
) -> Seq<ActionV> {
    branch_refresh_actions(chain, index, remote_exists) + branch_publish_actions(
        trunk,
        chain,
        index,
        pr_found,
    )
}

/// The outcomes of the branches from `flags`' first entry on, one entry
/// `(remote_exists, pr_found)` per branch.
pub open spec fn chain_events(flags: Seq<(bool, bool)>) -> Seq<EventV>
    decreases flags.len(),
{
    if flags.len() == 0 {
        Seq::empty()
    } else {
        branch_events(flags[0].0, flags[0].1) + chain_events(flags.drop_first())
    }
}

/// The actions of the branches from `index` on, one `flags` entry per
/// branch.
pub open spec fn chain_actions(
    trunk: Seq<char>,
    chain: Seq<Seq<char>>,
    index: int,
    flags: Seq<(bool, bool)>,
) -> Seq<ActionV>
    decreases flags.len(),
{
    if flags.len() == 0 {
        Seq::empty()
    } else {
        branch_actions(trunk, chain, index, flags[0].0, flags[0].1) + chain_actions(
            trunk,
            chain,
            index + 1,
            flags.drop_first(),
        )
    }
}

/// The outcomes of a whole successful run: the trunk checkout and pull
/// succeed, then every branch's pipeline runs with its `flags` entry.
pub open spec fn full_sync_events(flags: Seq<(bool, bool)>) -> Seq<EventV> {
    seq![EventV::Success, EventV::Success] + chain_events(flags)
}

/// The actions of a whole successful run, in the order they are performed.
pub open spec fn full_sync_actions(
    trunk: Seq<char>,
    chain: Seq<Seq<char>>,
    flags: Seq<(bool, bool)>,
) -> Seq<ActionV> {
    seq![ActionV::Checkout { target: trunk }, ActionV::Pull] + chain_actions(trunk, chain, 0, flags)
}

/// A branch's pipeline up to its rebase: from the branch's checkout the run
/// reaches the rebase stage, checking out the branch, querying the remote,
/// and pulling exactly when the query answered that the branch exists.
proof fn lemma_branch_refresh(
    trunk: Seq<char>,
    chain: Seq<Seq<char>>,
    index: int,
    remote_exists: bool,
)
    requires
        0 <= index < chain.len(),
    ensures
        events_ok(
            trunk,
            chain,
            PhaseV::Branch { index, stage: Stage::Checkout },
            branch_refresh_events(remote_exists),
        ),
        run_phase(
            trunk,
            chain,
            PhaseV::Branch { index, stage: Stage::Checkout },
            branch_refresh_events(remote_exists),
        ) == (PhaseV::Branch { index, stage: Stage::Rebase }),
        run_actions(
            trunk,
            chain,
            PhaseV::Branch { index, stage: Stage::Checkout },
            branch_refresh_events(remote_exists),
        ) == branch_refresh_actions(chain, index, remote_exists),
{
    let at_checkout = PhaseV::Branch { index, stage: Stage::Checkout };
    let at_query = PhaseV::Branch { index, stage: Stage::QueryRemote };
    let at_pull = PhaseV::Branch { index, stage: Stage::Pull };
    let at_rebase = PhaseV::Branch { index, stage: Stage::Rebase };
    let evs = branch_refresh_events(remote_exists);
    if remote_exists {
        let tail1 = seq![EventV::RemoteExists { exists: true }, EventV::Success];
        let tail2 = seq![EventV::Success];
        assert(evs =~= seq![EventV::Success] + tail1);
        lemma_run_cons(trunk, chain, at_checkout, EventV::Success, tail1);
        assert(tail1 =~= seq![EventV::RemoteExists { exists: true }] + tail2);
        lemma_run_cons(trunk, chain, at_query, EventV::RemoteExists { exists: true }, tail2);
        assert(tail2 =~= seq![EventV::Success] + Seq::<EventV>::empty());
        lemma_run_cons(trunk, chain, at_pull, EventV::Success, Seq::empty());
        assert(run_actions(trunk, chain, at_checkout, evs) =~= branch_refresh_actions(
            chain,
            index,
            remote_exists,
        ));
    } else {
        let tail1 = seq![EventV::RemoteExists { exists: false }];
        assert(evs =~= seq![EventV::Success] + tail1);
        lemma_run_cons(trunk, chain, at_checkout, EventV::Success, tail1);
        assert(tail1 =~= seq![EventV::RemoteExists { exists: false }] + Seq::<EventV>::empty());
        lemma_run_cons(trunk, chain, at_query, EventV::RemoteExists { exists: false }, Seq::empty());
        assert(run_phase(trunk, chain, at_checkout, evs) == at_rebase);
        assert(run_actions(trunk, chain, at_checkout, evs) =~= branch_refresh_actions(
            chain,
            index,
            remote_exists,
        ));
    }
}

/// A branch's pipeline from its rebase on: the run rebases, force-pushes,
/// searches for the pull request, creates one exactly when none was found,
/// and moves past the branch.
proof fn lemma_branch_publish(trunk: Seq<char>, chain: Seq<Seq<char>>, index: int, pr_found: bool)
    requires
        0 <= index < chain.len(),
    ensures
        events_ok(
            trunk,
            chain,
            PhaseV::Branch { index, stage: Stage::Rebase },
            branch_publish_events(pr_found),
        ),
        run_phase(
            trunk,
            chain,
            PhaseV::Branch { index, stage: Stage::Rebase },
            branch_publish_events(pr_found),
        ) == phase_after(chain.len() as int, index),
        run_actions(
            trunk,
            chain,
            PhaseV::Branch { index, stage: Stage::Rebase },
            branch_publish_events(pr_found),
        ) == branch_publish_actions(trunk, chain, index, pr_found),
{
    let at_rebase = PhaseV::Branch { index, stage: Stage::Rebase };
    let at_push = PhaseV::Branch { index, stage: Stage::Push };
    let at_find = PhaseV::Branch { index, stage: Stage::FindPullRequest };
    let at_create = PhaseV::Branch { index, stage: Stage::CreatePullRequest };
    let evs = branch_publish_events(pr_found);
    if pr_found {
        let tail1 = seq![EventV::Success, EventV::PullRequestFound { found: true }];
        let tail2 = seq![EventV::PullRequestFound { found: true }];
        assert(evs =~= seq![EventV::Success] + tail1);
        lemma_run_cons(trunk, chain, at_rebase, EventV::Success, tail1);
        assert(tail1 =~= seq![EventV::Success] + tail2);
        lemma_run_cons(trunk, chain, at_push, EventV::Success, tail2);
        assert(tail2 =~= seq![EventV::PullRequestFound { found: true }] + Seq::<EventV>::empty());
        lemma_run_cons(
            trunk,
            chain,
            at_find,
            EventV::PullRequestFound { found: true },
            Seq::empty(),
        );
        assert(run_actions(trunk, chain, at_rebase, evs) =~= branch_publish_actions(
            trunk,
            chain,
            index,
            pr_found,
        ));
    } else {
        let tail1 = seq![
            EventV::Success,
            EventV::PullRequestFound { found: false },
            EventV::Success,
        ];
        let tail2 = seq![EventV::PullRequestFound { found: false }, EventV::Success];
        let tail3 = seq![EventV::Success];
        assert(evs =~= seq![EventV::Success] + tail1);
        lemma_run_cons(trunk, chain, at_rebase, EventV::Success, tail1);
        assert(tail1 =~= seq![EventV::Success] + tail2);
        lemma_run_cons(trunk, chain, at_push, EventV::Success, tail2);
        assert(tail2 =~= seq![EventV::PullRequestFound { found: false }] + tail3);
        lemma_run_cons(trunk, chain, at_find, EventV::PullRequestFound { found: false }, tail3);
        assert(tail3 =~= seq![EventV::Success] + Seq::<EventV>::empty());
        lemma_run_cons(trunk, chain, at_create, EventV::Success, Seq::empty());
        assert(run_actions(trunk, chain, at_rebase, evs) =~= branch_publish_actions(
            trunk,
            chain,
            index,
            pr_found,
        ));
    }
}

/// One branch's whole pipeline: from the branch's checkout, the events of
/// `branch_events` perform exactly `branch_actions` and move past the
/// branch.
proof fn lemma_branch_run(
    trunk: Seq<char>,
    chain: Seq<Seq<char>>,
    index: int,
    remote_exists: bool,
    pr_found: bool,
)
    requires
        0 <= index < chain.len(),
    ensures
        events_ok(
            trunk,
            chain,
            PhaseV::Branch { index, stage: Stage::Checkout },
            branch_events(remote_exists, pr_found),
        ),
        run_phase(
            trunk,
            chain,
            PhaseV::Branch { index, stage: Stage::Checkout },
            branch_events(remote_exists, pr_found),
        ) == phase_after(chain.len() as int, index),
        run_actions(
            trunk,
            chain,
            PhaseV::Branch { index, stage: Stage::Checkout },
            branch_events(remote_exists, pr_found),
        ) == branch_actions(trunk, chain, index, remote_exists, pr_found),
{
    let at_checkout = PhaseV::Branch { index, stage: Stage::Checkout };
    lemma_branch_refresh(trunk, chain, index, remote_exists);
    lemma_branch_publish(trunk, chain, index, pr_found);
    lemma_run_append(
        trunk,
        chain,
        at_checkout,
        branch_refresh_events(remote_exists),
        branch_publish_events(pr_found),
    );
}

/// The pipelines of the branches from `index` on: with one `flags` entry
/// per remaining branch, the run finishes the chain and performs exactly
/// `chain_actions`.
proof fn lemma_chain_run(
    trunk: Seq<char>,
    chain: Seq<Seq<char>>,
    index: int,
    flags: Seq<(bool, bool)>,
)
    requires
        0 <= index < chain.len(),
        flags.len() == chain.len() - index,
    ensures
        events_ok(
            trunk,
            chain,
            PhaseV::Branch { index, stage: Stage::Checkout },
            chain_events(flags),
        ),
        run_phase(
            trunk,
            chain,
            PhaseV::Branch { index, stage: Stage::Checkout },
            chain_events(flags),
        ) == PhaseV::Done,
        run_actions(
            trunk,
            chain,
            PhaseV::Branch { index, stage: Stage::Checkout },
            chain_events(flags),
        ) == chain_actions(trunk, chain, index, flags),
    decreases flags.len(),
{
    let at_checkout = PhaseV::Branch { index, stage: Stage::Checkout };
    let first = branch_events(flags[0].0, flags[0].1);
    let rest = chain_events(flags.drop_first());
    lemma_branch_run(trunk, chain, index, flags[0].0, flags[0].1);
    lemma_run_append(trunk, chain, at_checkout, first, rest);
    if index + 1 == chain.len() {
        assert(flags.drop_first().len() == 0);
        assert(run_actions(trunk, chain, PhaseV::Done, rest) =~= Seq::<ActionV>::empty());
        assert(chain_actions(trunk, chain, index + 1, flags.drop_first())
            =~= Seq::<ActionV>::empty());
    } else {
        lemma_chain_run(trunk, chain, index + 1, flags.drop_first());
    }
}

/// A successful run performs exactly the expected actions, in chain order.
///
/// With one `(remote_exists, pr_found)` entry per branch, the run refreshes
/// the trunk and then, branch by branch in chain order: checks the branch
/// out, queries the remote and pulls exactly when the branch exists there,
/// rebases onto the trunk for the first branch and onto the previous branch
/// for every later one, force-pushes, and reconciles one pull request per
/// branch against that same base — searching first and creating only when
/// nothing was found.  The full action sequence is `full_sync_actions`, and
/// the run ends in `Done`.
pub proof fn lemma_successful_run(trunk: Seq<char>, chain: Seq<Seq<char>>, flags: Seq<(bool, bool)>)
    requires
        flags.len() == chain.len(),
    ensures
        events_ok(trunk, chain, PhaseV::TrunkCheckout, full_sync_events(flags)),
        run_phase(trunk, chain, PhaseV::TrunkCheckout, full_sync_events(flags)) == PhaseV::Done,
        run_actions(trunk, chain, PhaseV::TrunkCheckout, full_sync_events(flags))
            == full_sync_actions(trunk, chain, flags),
{
    let evs = full_sync_events(flags);
    let rest = chain_events(flags);
    let tail1 = seq![EventV::Success] + rest;
    assert(evs =~= seq![EventV::Success] + tail1);
    lemma_run_cons(trunk, chain, PhaseV::TrunkCheckout, EventV::Success, tail1);
    lemma_run_cons(trunk, chain, PhaseV::TrunkPull, EventV::Success, rest);
    if chain.len() == 0 {
        assert(rest =~= Seq::<EventV>::empty());
        assert(run_actions(trunk, chain, PhaseV::Done, rest) =~= Seq::<ActionV>::empty());
        assert(chain_actions(trunk, chain, 0, flags) =~= Seq::<ActionV>::empty());
    } else {
        lemma_chain_run(trunk, chain, 0, flags);
    }
    assert(run_actions(trunk, chain, PhaseV::TrunkCheckout, evs) =~= full_sync_actions(
        trunk,
        chain,
        flags,
    ));
}

/// An empty chain still refreshes the trunk: the run checks the trunk out
/// and pulls it, performs nothing else, and succeeds.
pub proof fn lemma_empty_chain_run(trunk: Seq<char>, chain: Seq<Seq<char>>)
    requires
        chain.len() == 0,
    ensures
        events_ok(
            trunk,
            chain,
            PhaseV::TrunkCheckout,
            seq![EventV::Success, EventV::Success],
        ),
        run_phase(trunk, chain, PhaseV::TrunkCheckout, seq![EventV::Success, EventV::Success])
            == PhaseV::Done,
        run_actions(trunk, chain, PhaseV::TrunkCheckout, seq![EventV::Success, EventV::Success])
            == seq![ActionV::Checkout { target: trunk }, ActionV::Pull],
{
    let flags = Seq::<(bool, bool)>::empty();
    lemma_successful_run(trunk, chain, flags);
    assert(full_sync_events(flags) =~= seq![EventV::Success, EventV::Success]);
    assert(chain_actions(trunk, chain, 0, flags) =~= Seq::<ActionV>::empty());
    assert(full_sync_actions(trunk, chain, flags) =~= seq![
        ActionV::Checkout { target: trunk },
        ActionV::Pull,
    ]);
}

/// A branch is pulled exactly when its remote-existence query answers that
/// the branch exists, and the pull stands between the branch's checkout and
/// its rebase: a negative answer leads straight to the rebase stage, a
/// positive answer leads to the pull stage, whose one action is the pull,
/// and whose success leads to the rebase stage.
pub proof fn lemma_pull_exactly_when_remote_exists(
    trunk: Seq<char>,
    chain: Seq<Seq<char>>,
    index: int,
)
    requires
        0 <= index < chain.len(),
    ensures
        next_phase(
            trunk,
            chain,
            PhaseV::Branch { index, stage: Stage::QueryRemote },
            EventV::RemoteExists { exists: false },
        ) == (PhaseV::Branch { index, stage: Stage::Rebase }),
        next_phase(
            trunk,
            chain,
            PhaseV::Branch { index, stage: Stage::QueryRemote },
            EventV::RemoteExists { exists: true },
        ) == (PhaseV::Branch { index, stage: Stage::Pull }),
        action_of(trunk, chain, PhaseV::Branch { index, stage: Stage::Pull }) == Some(
            ActionV::Pull,
        ),
        next_phase(
            trunk,
            chain,
            PhaseV::Branch { index, stage: Stage::Pull },
            EventV::Success,
        ) == (PhaseV::Branch { index, stage: Stage::Rebase }),
{
}

/// Pull-request reconciliation is find-then-conditionally-create: when the
/// search finds an open pull request the run moves past the branch without
/// a creation step, and when it finds none the one next action is creating
/// a pull request for exactly the searched (base, head) pair.
pub proof fn lemma_reconcile_find_then_create(
    trunk: Seq<char>,
    chain: Seq<Seq<char>>,
    index: int,
)
    requires
        0 <= index < chain.len(),
    ensures
        next_phase(
            trunk,
            chain,
            PhaseV::Branch { index, stage: Stage::FindPullRequest },
            EventV::PullRequestFound { found: true },
        ) == phase_after(chain.len() as int, index),
        next_phase(
            trunk,
            chain,
            PhaseV::Branch { index, stage: Stage::FindPullRequest },
            EventV::PullRequestFound { found: false },
        ) == (PhaseV::Branch { index, stage: Stage::CreatePullRequest }),
        action_of(trunk, chain, PhaseV::Branch { index, stage: Stage::CreatePullRequest }) == Some(
            ActionV::CreatePullRequest {
                base: base_of(trunk, chain, index),
                head: chain[index],
            },
        ),
        !(action_of(trunk, chain, phase_after(chain.len() as int, index)) matches Some(
            a,
        ) && a is CreatePullRequest),
{
}

/// A rebase failure at branch `index` ends the run at a failure phase that
/// identifies the branch, the rebase step, and the captured diagnostic.
pub proof fn lemma_rebase_failure_identity(
    trunk: Seq<char>,
    chain: Seq<Seq<char>>,
    index: int,
    diagnostic: Seq<char>,
)
    requires
        0 <= index < chain.len(),
    ensures
        next_phase(
            trunk,
            chain,
            PhaseV::Branch { index, stage: Stage::Rebase },
            EventV::Failure { diagnostic },
        ) matches PhaseV::Failed { failure } && failure.step == StepKind::Rebase
            && failure.index == Some(index) && failure.reference == chain[index]
            && failure.diagnostic == diagnostic,
{
}

/// How far along the chain a phase is: the trunk phases come before every
/// branch, a failure sits at the branch it happened at (or before the
/// chain, for a trunk failure), and `Done` comes after every branch.
pub open spec fn phase_progress(chain_len: int, phase: PhaseV) -> int {
    match phase {
        PhaseV::TrunkCheckout => -1,
        PhaseV::TrunkPull => -1,
        PhaseV::Branch { index, stage } => index,
        PhaseV::Done => chain_len,
        PhaseV::Failed { failure } => match failure.index {
            Some(i) => i,
            None => -1,
        },
    }
}

/// No step of the engine moves backwards along the chain.
proof fn lemma_step_progress(trunk: Seq<char>, chain: Seq<Seq<char>>, phase: PhaseV, ev: EventV)
    ensures
        phase_progress(chain.len() as int, next_phase(trunk, chain, phase, ev))
            >= phase_progress(chain.len() as int, phase),
{
}

/// No run of the engine moves backwards along the chain.
proof fn lemma_run_progress(
    trunk: Seq<char>,
    chain: Seq<Seq<char>>,
    phase: PhaseV,
    evs: Seq<EventV>,
)
    ensures
        phase_progress(chain.len() as int, run_phase(trunk, chain, phase, evs))
            >= phase_progress(chain.len() as int, phase),
    decreases evs.len(),
{
    if evs.len() != 0 {
        lemma_step_progress(trunk, chain, phase, evs[0]);
        lemma_run_progress(trunk, chain, next_phase(trunk, chain, phase, evs[0]), evs.drop_first());
    }
}

/// Every phase a run steps at is at most as far along the chain as the
/// phase the run ends at.
proof fn lemma_trace_within(
    trunk: Seq<char>,
    chain: Seq<Seq<char>>,
    phase: PhaseV,
    evs: Seq<EventV>,
)
    ensures
        forall|i: int|
            0 <= i < run_trace(trunk, chain, phase, evs).len() ==> phase_progress(
                chain.len() as int,
                #[trigger] run_trace(trunk, chain, phase, evs)[i],
            ) <= phase_progress(chain.len() as int, run_phase(trunk, chain, phase, evs)),
    decreases evs.len(),
{
    if evs.len() != 0 {
        let stepped = next_phase(trunk, chain, phase, evs[0]);
        let rest = run_trace(trunk, chain, stepped, evs.drop_first());
        let whole = run_trace(trunk, chain, phase, evs);
        let len = chain.len() as int;
        lemma_trace_within(trunk, chain, stepped, evs.drop_first());
        lemma_run_progress(trunk, chain, stepped, evs.drop_first());
        lemma_step_progress(trunk, chain, phase, evs[0]);
        assert forall|i: int| 0 <= i < whole.len() implies phase_progress(len, whole[i])
            <= phase_progress(len, run_phase(trunk, chain, phase, evs)) by {
            if event_matches(phase, evs[0]) {
                assert(whole == seq![phase] + rest);
                if i > 0 {
                    assert(whole[i] == rest[i - 1]);
                }
            } else {
                assert(whole[i] == rest[i]);
            }
        }
    }
}

/// Each action a run performs is the pending action of the phase the run
/// stepped at, in order: the trace explains the actions one for one.
pub proof fn lemma_actions_match_trace(
    trunk: Seq<char>,
    chain: Seq<Seq<char>>,
    phase: PhaseV,
    evs: Seq<EventV>,
)
    ensures
        run_actions(trunk, chain, phase, evs).len() == run_trace(trunk, chain, phase, evs).len(),
        forall|i: int|
            0 <= i < run_trace(trunk, chain, phase, evs).len() ==> Some(
                #[trigger] run_actions(trunk, chain, phase, evs)[i],
            ) == action_of(trunk, chain, run_trace(trunk, chain, phase, evs)[i]),
    decreases evs.len(),
{
    if evs.len() != 0 {
        let stepped = next_phase(trunk, chain, phase, evs[0]);
        lemma_actions_match_trace(trunk, chain, stepped, evs.drop_first());
    }
}

/// Fail-fast: a run from the start that ends in a failure at branch `k`
/// never went past `k`.  Every phase it stepped at lies at branch index at
/// most `k` (the trunk phases counting before every branch), and every
/// action it performed is the pending action of such a phase — so no
/// checkout, rebase, push or pull-request step was taken for any branch
/// after the one that failed, and the failure record names that branch.
pub proof fn lemma_fail_fast(trunk: Seq<char>, chain: Seq<Seq<char>>, evs: Seq<EventV>, k: int)
    requires
        run_phase(trunk, chain, PhaseV::TrunkCheckout, evs) matches PhaseV::Failed { failure }
            && failure.index == Some(k),
    ensures
        forall|i: int|
            0 <= i < run_trace(trunk, chain, PhaseV::TrunkCheckout, evs).len() ==> phase_progress(
                chain.len() as int,
                #[trigger] run_trace(trunk, chain, PhaseV::TrunkCheckout, evs)[i],
            ) <= k,
        run_actions(trunk, chain, PhaseV::TrunkCheckout, evs).len() == run_trace(
            trunk,
            chain,
            PhaseV::TrunkCheckout,
            evs,
        ).len(),
        forall|i: int|
            0 <= i < run_trace(trunk, chain, PhaseV::TrunkCheckout, evs).len() ==> Some(
                #[trigger] run_actions(trunk, chain, PhaseV::TrunkCheckout, evs)[i],
            ) == action_of(trunk, chain, run_trace(trunk, chain, PhaseV::TrunkCheckout, evs)[i]),
{
    lemma_trace_within(trunk, chain, PhaseV::TrunkCheckout, evs);
    lemma_actions_match_trace(trunk, chain, PhaseV::TrunkCheckout, evs);
}

/// One `(remote_exists, pr_found: true)` entry per branch: the flags of a
/// run whose every pull-request search finds the request already open.
pub open spec fn all_found_flags(remote: Seq<bool>) -> Seq<(bool, bool)> {
    remote.map_values(|re: bool| (re, true))
}

/// No creation action stands in the actions of the branches from `index`
/// on when every branch's pull-request search finds an open pull request.
proof fn lemma_no_create_in_chain(
    trunk: Seq<char>,
    chain: Seq<Seq<char>>,
    index: int,
    flags: Seq<(bool, bool)>,
)
    requires
        forall|j: int| 0 <= j < flags.len() ==> (#[trigger] flags[j]).1,
    ensures
        forall|i: int|
            0 <= i < chain_actions(trunk, chain, index, flags).len() ==> !(
            #[trigger] chain_actions(trunk, chain, index, flags)[i] is CreatePullRequest),
    decreases flags.len(),
{
    if flags.len() != 0 {
        assert(flags[0].1);
        lemma_no_create_in_chain(trunk, chain, index + 1, flags.drop_first());
    }
}

/// Re-running a synchronization that already put every pull request in
/// place creates nothing new: when every pull-request search answers that
/// an open pull request exists — as it does after a successful run, which
/// leaves one open pull request per branch — the second run succeeds and
/// performs no creation action at all.  (That the second run's rebases and
/// pulls succeed on an unchanged working copy is a property of the
/// version-control system itself, outside this model; it enters here as
/// the success events the run is given.)
pub proof fn lemma_rerun_creates_no_pull_requests(
    trunk: Seq<char>,
    chain: Seq<Seq<char>>,
    remote: Seq<bool>,
)
    requires
        remote.len() == chain.len(),
    ensures
        run_phase(trunk, chain, PhaseV::TrunkCheckout, full_sync_events(all_found_flags(remote)))
            == PhaseV::Done,
        forall|i: int|
            0 <= i < run_actions(
                trunk,
                chain,
                PhaseV::TrunkCheckout,
                full_sync_events(all_found_flags(remote)),
            ).len() ==> !(#[trigger] run_actions(
                trunk,
                chain,
                PhaseV::TrunkCheckout,
                full_sync_events(all_found_flags(remote)),
            )[i] is CreatePullRequest),
{
    let flags = all_found_flags(remote);
    lemma_successful_run(trunk, chain, flags);
    lemma_no_create_in_chain(trunk, chain, 0, flags);
    assert(forall|i: int|
        0 <= i < full_sync_actions(trunk, chain, flags).len() ==> !(#[trigger] full_sync_actions(
            trunk,
            chain,
            flags,
        )[i] is CreatePullRequest));
}

} // verus!
