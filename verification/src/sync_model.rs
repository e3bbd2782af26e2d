//! The mathematical model of the synchronization engine.
//!
//! A run of the engine is a walk over phases.  Each non-terminal phase
//! demands one action against the working copy or the remote; the outcome of
//! that action is an event, and the event decides the next phase.  The model
//! is given by `action_of` (what a phase demands), `event_matches` (which
//! events can answer a phase) and `next_phase` (where an event leads), plus
//! the recursive `run_*` functions that describe whole runs.  The executable
//! machine is proved to follow `next_phase` step by step, so everything
//! proved here about runs carries over to it.

use vstd::prelude::*;

verus! {

/// The stage of the per-branch pipeline a run is at.  The stages happen in
/// the order they are declared in; `Pull` is skipped when the branch does
/// not exist on the remote, and `CreatePullRequest` when an open pull
/// request for the branch already exists.
#[derive(Clone, Copy, PartialEq, Eq, Structural, Debug)]
pub enum Stage {
    Checkout,
    QueryRemote,
    Pull,
    Rebase,
    Push,
    FindPullRequest,
    CreatePullRequest,
}

/// The kind of step a failure happened at, one per error of the taxonomy
/// that can abort a running synchronization.  (A missing credential is a
/// configuration error, reported by the run's setup before any step is
/// taken.)
#[derive(Clone, Copy, PartialEq, Eq, Structural, Debug)]
pub enum StepKind {
    Checkout,
    Pull,
    Rebase,
    Push,
    PullRequestQuery,
    PullRequestCreate,
}

/// An action the engine asks its driver to perform.
pub enum ActionV {
    /// Switch the working copy to the named reference.
    Checkout { target: Seq<char> },
    /// Update the currently checked-out branch from its remote counterpart.
    Pull,
    /// Ask whether the named branch exists on the remote.
    QueryRemote { branch: Seq<char> },
    /// Rebase the currently checked-out branch onto `base`.
    Rebase { base: Seq<char> },
    /// Force-update the remote branch to the local history.
    ForcePush { branch: Seq<char> },
    /// Search for an open pull request from `head` into `base`.
    FindPullRequest { base: Seq<char>, head: Seq<char> },
    /// Open a new pull request from `head` into `base`.
    CreatePullRequest { base: Seq<char>, head: Seq<char> },
}

/// The outcome of one action, reported back to the engine.
pub enum EventV {
    /// The action succeeded.
    Success,
    /// The action failed; the diagnostic is the captured output.
    Failure { diagnostic: Seq<char> },
    /// The answer to `QueryRemote`.  A transport error is reported as
    /// `exists: false`: skipping a pull is safe, failing the run is not.
    RemoteExists { exists: bool },
    /// The answer to `FindPullRequest`.  A transport error is reported as a
    /// `Failure` instead: creating a duplicate pull request is not safe.
    PullRequestFound { found: bool },
}

/// The identity of the first failure of a run: the step that failed, the
/// index of the branch it failed at (`None` for the trunk steps), the
/// reference being worked on, and the captured diagnostic.
pub struct FailureV {
    pub step: StepKind,
    pub index: Option<int>,
    pub reference: Seq<char>,
    pub diagnostic: Seq<char>,
}

/// Where a run is.  The two trunk phases come first, then the per-branch
/// pipeline in chain order; `Done` and `Failed` are terminal.
pub enum PhaseV {
    TrunkCheckout,
    TrunkPull,
    Branch { index: int, stage: Stage },
    Done,
    Failed { failure: FailureV },
}

/// The base the branch at `index` is rebased onto: the trunk for the first
/// branch, the previous branch for every later one.
pub open spec fn base_of(trunk: Seq<char>, chain: Seq<Seq<char>>, index: int) -> Seq<char> {
    if index == 0 {
        trunk
    } else {
        chain[index - 1]
    }
}

/// Indices of branches stay in bounds, and a recorded failure identifies a
/// branch of the chain when it carries an index at all.
pub open spec fn phase_wf(chain_len: int, phase: PhaseV) -> bool {
    match phase {
        PhaseV::Branch { index, stage } => 0 <= index < chain_len,
        PhaseV::Failed { failure } => failure.index matches Some(i) ==> 0 <= i < chain_len,
        _ => true,
    }
}

/// The action a phase demands; `None` exactly at the terminal phases.
pub open spec fn action_of(trunk: Seq<char>, chain: Seq<Seq<char>>, phase: PhaseV) -> Option<
    ActionV,
> {
    match phase {
        PhaseV::TrunkCheckout => Some(ActionV::Checkout { target: trunk }),
        PhaseV::TrunkPull => Some(ActionV::Pull),
        PhaseV::Branch { index, stage } => Some(
            match stage {
                Stage::Checkout => ActionV::Checkout { target: chain[index] },
                Stage::QueryRemote => ActionV::QueryRemote { branch: chain[index] },
                Stage::Pull => ActionV::Pull,
                Stage::Rebase => ActionV::Rebase { base: base_of(trunk, chain, index) },
                Stage::Push => ActionV::ForcePush { branch: chain[index] },
                Stage::FindPullRequest => ActionV::FindPullRequest {
                    base: base_of(trunk, chain, index),
                    head: chain[index],
                },
                Stage::CreatePullRequest => ActionV::CreatePullRequest {
                    base: base_of(trunk, chain, index),
                    head: chain[index],
                },
            },
        ),
        PhaseV::Done => None,
        PhaseV::Failed { .. } => None,
    }
}

/// Whether an event is an answer the phase's action can have.  Terminal
/// phases take no event.
pub open spec fn event_matches(phase: PhaseV, ev: EventV) -> bool {
    match phase {
        PhaseV::TrunkCheckout => ev is Success || ev is Failure,
        PhaseV::TrunkPull => ev is Success || ev is Failure,
        PhaseV::Branch { index, stage } => match stage {
            Stage::QueryRemote => ev is RemoteExists,
            Stage::FindPullRequest => ev is PullRequestFound || ev is Failure,
            _ => ev is Success || ev is Failure,
        },
        PhaseV::Done => false,
        PhaseV::Failed { .. } => false,
    }
}

/// The phase after the branch at `index` is fully synchronized: the next
/// branch's pipeline, or `Done` past the end of the chain.  With
/// `index == -1` it is the phase after the trunk is refreshed.
pub open spec fn phase_after(chain_len: int, index: int) -> PhaseV {
    if index + 1 == chain_len {
        PhaseV::Done
    } else {
        PhaseV::Branch { index: index + 1, stage: Stage::Checkout }
    }
}

/// A terminal phase recording the first failure.
pub open spec fn failed_at(
    step: StepKind,
    index: Option<int>,
    reference: Seq<char>,
    diagnostic: Seq<char>,
) -> PhaseV {
    PhaseV::Failed { failure: FailureV { step, index, reference, diagnostic } }
}

/// The transition of the engine: where the given event leads from the given
/// phase.  Every failure is terminal (fail-fast, no rollback); an event that
/// is no answer to the phase's action changes nothing.
pub open spec fn next_phase(
    trunk: Seq<char>,
    chain: Seq<Seq<char>>,
    phase: PhaseV,
    ev: EventV,
) -> PhaseV {
    if !event_matches(phase, ev) {
        phase
    } else {
        match phase {
            PhaseV::TrunkCheckout => match ev {
                EventV::Success => PhaseV::TrunkPull,
                EventV::Failure { diagnostic } => failed_at(
                    StepKind::Checkout,
                    None,
                    trunk,
                    diagnostic,
                ),
                _ => phase,
            },
            PhaseV::TrunkPull => match ev {
                EventV::Success => phase_after(chain.len() as int, -1),
                EventV::Failure { diagnostic } => failed_at(StepKind::Pull, None, trunk, diagnostic),
                _ => phase,
            },
            PhaseV::Branch { index, stage } => match stage {
                Stage::Checkout => match ev {
                    EventV::Success => PhaseV::Branch { index, stage: Stage::QueryRemote },
                    EventV::Failure { diagnostic } => failed_at(
                        StepKind::Checkout,
                        Some(index),
                        chain[index],
                        diagnostic,
                    ),
                    _ => phase,
                },
                Stage::QueryRemote => match ev {
                    EventV::RemoteExists { exists } => if exists {
                        PhaseV::Branch { index, stage: Stage::Pull }
                    } else {
                        PhaseV::Branch { index, stage: Stage::Rebase }
                    },
                    _ => phase,
                },
                Stage::Pull => match ev {
                    EventV::Success => PhaseV::Branch { index, stage: Stage::Rebase },
                    EventV::Failure { diagnostic } => failed_at(
                        StepKind::Pull,
                        Some(index),
                        chain[index],
                        diagnostic,
                    ),
                    _ => phase,
                },
                Stage::Rebase => match ev {
                    EventV::Success => PhaseV::Branch { index, stage: Stage::Push },
                    EventV::Failure { diagnostic } => failed_at(
                        StepKind::Rebase,
                        Some(index),
                        chain[index],
                        diagnostic,
                    ),
                    _ => phase,
                },
                Stage::Push => match ev {
                    EventV::Success => PhaseV::Branch { index, stage: Stage::FindPullRequest },
                    EventV::Failure { diagnostic } => failed_at(
                        StepKind::Push,
                        Some(index),
                        chain[index],
                        diagnostic,
                    ),
                    _ => phase,
                },
                Stage::FindPullRequest => match ev {
                    EventV::PullRequestFound { found } => if found {
                        phase_after(chain.len() as int, index)
                    } else {
                        PhaseV::Branch { index, stage: Stage::CreatePullRequest }
                    },
                    EventV::Failure { diagnostic } => failed_at(
                        StepKind::PullRequestQuery,
                        Some(index),
                        chain[index],
                        diagnostic,
                    ),
                    _ => phase,
                },
                Stage::CreatePullRequest => match ev {
                    EventV::Success => phase_after(chain.len() as int, index),
                    EventV::Failure { diagnostic } => failed_at(
                        StepKind::PullRequestCreate,
                        Some(index),
                        chain[index],
                        diagnostic,
                    ),
                    _ => phase,
                },
            },
            PhaseV::Done => phase,
            PhaseV::Failed { .. } => phase,
        }
    }
}

/// The phase a run of events leads to.
pub open spec fn run_phase(
    trunk: Seq<char>,
    chain: Seq<Seq<char>>,
    phase: PhaseV,
    evs: Seq<EventV>,
) -> PhaseV
    decreases evs.len(),
{
    if evs.len() == 0 {
        phase
    } else {
        run_phase(trunk, chain, next_phase(trunk, chain, phase, evs[0]), evs.drop_first())
    }
}

/// The phases a run of events takes a step at, in order: one per event that
/// answers the phase it arrives at.
pub open spec fn run_trace(
    trunk: Seq<char>,
    chain: Seq<Seq<char>>,
    phase: PhaseV,
    evs: Seq<EventV>,
) -> Seq<PhaseV>
    decreases evs.len(),
{
    if evs.len() == 0 {
        Seq::empty()
    } else {
        let rest = run_trace(
            trunk,
            chain,
            next_phase(trunk, chain, phase, evs[0]),
            evs.drop_first(),
        );
        if event_matches(phase, evs[0]) {
            seq![phase] + rest
        } else {
            rest
        }
    }
}

/// The actions a run of events performs, in order.  An action counts as
/// performed when its outcome arrives: each consumed event answers the
/// pending action of the phase it arrives at.
pub open spec fn run_actions(
    trunk: Seq<char>,
    chain: Seq<Seq<char>>,
    phase: PhaseV,
    evs: Seq<EventV>,
) -> Seq<ActionV>
    decreases evs.len(),
{
    if evs.len() == 0 {
        Seq::empty()
    } else {
        let rest = run_actions(
            trunk,
            chain,
            next_phase(trunk, chain, phase, evs[0]),
            evs.drop_first(),
        );
        if event_matches(phase, evs[0]) {
            seq![action_of(trunk, chain, phase).unwrap()] + rest
        } else {
            rest
        }
    }
}

/// Every event of the sequence answers the phase it arrives at: the
/// sequence describes an actual run, with no event ignored.
pub open spec fn events_ok(
    trunk: Seq<char>,
    chain: Seq<Seq<char>>,
    phase: PhaseV,
    evs: Seq<EventV>,
) -> bool
    decreases evs.len(),
{
    evs.len() == 0 || (event_matches(phase, evs[0]) && events_ok(
        trunk,
        chain,
        next_phase(trunk, chain, phase, evs[0]),
        evs.drop_first(),
    ))
}

/// A run over a sequence that starts with `ev` first steps by `ev`, then
/// runs over the rest.
pub proof fn lemma_run_cons(
    trunk: Seq<char>,
    chain: Seq<Seq<char>>,
    phase: PhaseV,
    ev: EventV,
    rest: Seq<EventV>,
)
    ensures
        run_phase(trunk, chain, phase, seq![ev] + rest) == run_phase(
            trunk,
            chain,
            next_phase(trunk, chain, phase, ev),
            rest,
        ),
        run_actions(trunk, chain, phase, seq![ev] + rest) == (if event_matches(phase, ev) {
            seq![action_of(trunk, chain, phase).unwrap()]
        } else {
            Seq::<ActionV>::empty()
        }) + run_actions(trunk, chain, next_phase(trunk, chain, phase, ev), rest),
        run_trace(trunk, chain, phase, seq![ev] + rest) == (if event_matches(phase, ev) {
            seq![phase]
        } else {
            Seq::<PhaseV>::empty()
        }) + run_trace(trunk, chain, next_phase(trunk, chain, phase, ev), rest),
        events_ok(trunk, chain, phase, seq![ev] + rest) <==> event_matches(phase, ev) && events_ok(
            trunk,
            chain,
            next_phase(trunk, chain, phase, ev),
            rest,
        ),
{
    let evs = seq![ev] + rest;
    let stepped = next_phase(trunk, chain, phase, ev);
    assert(evs[0] == ev);
    assert(evs.drop_first() =~= rest);
    if event_matches(phase, ev) {
        assert(run_actions(trunk, chain, phase, evs) =~= seq![
            action_of(trunk, chain, phase).unwrap(),
        ] + run_actions(trunk, chain, stepped, rest));
        assert(run_trace(trunk, chain, phase, evs) =~= seq![phase] + run_trace(
            trunk,
            chain,
            stepped,
            rest,
        ));
    } else {
        assert(run_actions(trunk, chain, phase, evs) =~= Seq::<ActionV>::empty() + run_actions(
            trunk,
            chain,
            stepped,
            rest,
        ));
        assert(run_trace(trunk, chain, phase, evs) =~= Seq::<PhaseV>::empty() + run_trace(
            trunk,
            chain,
            stepped,
            rest,
        ));
    }
}

/// A run over a concatenation is the run over the first part, then the run
/// over the second from where the first ended; what it performs is the
/// concatenation of what the parts perform.
pub proof fn lemma_run_append(
    trunk: Seq<char>,
    chain: Seq<Seq<char>>,
    phase: PhaseV,
    first: Seq<EventV>,
    second: Seq<EventV>,
)
    ensures
        run_phase(trunk, chain, phase, first + second) == run_phase(
            trunk,
            chain,
            run_phase(trunk, chain, phase, first),
            second,
        ),
        run_actions(trunk, chain, phase, first + second) == run_actions(trunk, chain, phase, first)
            + run_actions(trunk, chain, run_phase(trunk, chain, phase, first), second),
        run_trace(trunk, chain, phase, first + second) == run_trace(trunk, chain, phase, first)
            + run_trace(trunk, chain, run_phase(trunk, chain, phase, first), second),
        events_ok(trunk, chain, phase, first + second) <==> events_ok(trunk, chain, phase, first)
            && events_ok(trunk, chain, run_phase(trunk, chain, phase, first), second),
    decreases first.len(),
{
    if first.len() == 0 {
        assert(first + second =~= second);
        assert(run_actions(trunk, chain, phase, first) =~= Seq::<ActionV>::empty());
        assert(run_trace(trunk, chain, phase, first) =~= Seq::<PhaseV>::empty());
        assert(run_actions(trunk, chain, phase, second) =~= Seq::<ActionV>::empty() + run_actions(
            trunk,
            chain,
            phase,
            second,
        ));
        assert(run_trace(trunk, chain, phase, second) =~= Seq::<PhaseV>::empty() + run_trace(
            trunk,
            chain,
            phase,
            second,
        ));
    } else {
        let stepped = next_phase(trunk, chain, phase, first[0]);
        assert((first + second)[0] == first[0]);
        assert((first + second).drop_first() =~= first.drop_first() + second);
        lemma_run_append(trunk, chain, stepped, first.drop_first(), second);
        if event_matches(phase, first[0]) {
            assert(run_actions(trunk, chain, phase, first + second) =~= seq![
                action_of(trunk, chain, phase).unwrap(),
            ] + (run_actions(trunk, chain, stepped, first.drop_first()) + run_actions(
                trunk,
                chain,
                run_phase(trunk, chain, stepped, first.drop_first()),
                second,
            )));
            assert(run_actions(trunk, chain, phase, first) =~= seq![
                action_of(trunk, chain, phase).unwrap(),
            ] + run_actions(trunk, chain, stepped, first.drop_first()));
            assert(run_actions(trunk, chain, phase, first + second) =~= run_actions(
                trunk,
                chain,
                phase,
                first,
            ) + run_actions(trunk, chain, run_phase(trunk, chain, phase, first), second));
            assert(run_trace(trunk, chain, phase, first + second) =~= run_trace(
                trunk,
                chain,
                phase,
                first,
            ) + run_trace(trunk, chain, run_phase(trunk, chain, phase, first), second));
        } else {
            assert(run_actions(trunk, chain, phase, first + second) =~= run_actions(
                trunk,
                chain,
                phase,
                first,
            ) + run_actions(trunk, chain, run_phase(trunk, chain, phase, first), second));
            assert(run_trace(trunk, chain, phase, first + second) =~= run_trace(
                trunk,
                chain,
                phase,
                first,
            ) + run_trace(trunk, chain, run_phase(trunk, chain, phase, first), second));
        }
    }
}

/// Appending one more event to a run takes the run one more step: the final
/// phase steps by `next_phase`, and the trace and the performed actions grow
/// by the stepped-at phase and its action when the event answers it.
pub proof fn lemma_run_snoc(
    trunk: Seq<char>,
    chain: Seq<Seq<char>>,
    phase: PhaseV,
    evs: Seq<EventV>,
    ev: EventV,
)
    ensures
        run_phase(trunk, chain, phase, evs.push(ev)) == next_phase(
            trunk,
            chain,
            run_phase(trunk, chain, phase, evs),
            ev,
        ),
        run_actions(trunk, chain, phase, evs.push(ev)) == run_actions(trunk, chain, phase, evs)
            + (if event_matches(run_phase(trunk, chain, phase, evs), ev) {
            seq![action_of(trunk, chain, run_phase(trunk, chain, phase, evs)).unwrap()]
        } else {
            Seq::<ActionV>::empty()
        }),
        run_trace(trunk, chain, phase, evs.push(ev)) == run_trace(trunk, chain, phase, evs) + (
        if event_matches(run_phase(trunk, chain, phase, evs), ev) {
            seq![run_phase(trunk, chain, phase, evs)]
        } else {
            Seq::<PhaseV>::empty()
        }),
    decreases evs.len(),
{
    if evs.len() == 0 {
        let stepped = next_phase(trunk, chain, phase, ev);
        assert(evs.push(ev)[0] == ev);
        assert(evs.push(ev).drop_first() =~= Seq::<EventV>::empty());
        assert(run_phase(trunk, chain, stepped, Seq::<EventV>::empty()) == stepped);
        assert(run_actions(trunk, chain, stepped, Seq::<EventV>::empty())
            =~= Seq::<ActionV>::empty());
        assert(run_trace(trunk, chain, stepped, Seq::<EventV>::empty()) =~= Seq::<PhaseV>::empty());
        assert(run_actions(trunk, chain, phase, evs) =~= Seq::<ActionV>::empty());
        assert(run_trace(trunk, chain, phase, evs) =~= Seq::<PhaseV>::empty());
        if event_matches(phase, ev) {
            assert(run_actions(trunk, chain, phase, evs.push(ev)) =~= seq![
                action_of(trunk, chain, phase).unwrap(),
            ]);
            assert(run_trace(trunk, chain, phase, evs.push(ev)) =~= seq![phase]);
        } else {
            assert(run_actions(trunk, chain, phase, evs.push(ev)) =~= Seq::<ActionV>::empty());
            assert(run_trace(trunk, chain, phase, evs.push(ev)) =~= Seq::<PhaseV>::empty());
        }
    } else {
        let stepped = next_phase(trunk, chain, phase, evs[0]);
        assert(evs.push(ev)[0] == evs[0]);
        assert(evs.push(ev).drop_first() =~= evs.drop_first().push(ev));
        lemma_run_snoc(trunk, chain, stepped, evs.drop_first(), ev);
        assert(run_phase(trunk, chain, phase, evs) == run_phase(
            trunk,
            chain,
            stepped,
            evs.drop_first(),
        ));
    }
}

} // verus!
