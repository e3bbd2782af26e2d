//! The executable synchronization engine.
//!
//! `SyncMachine` walks an ordered branch chain: it hands out the next
//! version-control or pull-request action, consumes the action's outcome,
//! and moves on, failing fast on the first error.  It performs no I/O
//! itself; a driver performs each pending action and reports the outcome
//! back through `step`.  Every transition is proved to follow the model in
//! `sync_model`, so the run-level facts proved there hold of this machine.

use vstd::prelude::*;

use crate::sync_model::{
    action_of, base_of, event_matches, lemma_run_snoc, next_phase, phase_after, phase_wf,
    run_actions, run_phase, ActionV, EventV, FailureV, PhaseV, Stage, StepKind,
};
use crate::types::{names_of, Branch};

verus! {

/// An action the engine asks its driver to perform.
#[derive(Clone, PartialEq, Eq, Debug)]
pub enum SyncAction {
    /// Switch the working copy to the named reference.
    Checkout { target: String },
    /// Update the currently checked-out branch from its remote counterpart.
    Pull,
    /// Ask whether the named branch exists on the remote.
    QueryRemote { branch: String },
    /// Rebase the currently checked-out branch onto `base`.
    Rebase { base: String },
    /// Force-update the remote branch to the local history.
    ForcePush { branch: String },
    /// Search for an open pull request from `head` into `base`.
    FindPullRequest { base: String, head: String },
    /// Open a new pull request from `head` into `base`.
    CreatePullRequest { base: String, head: String },
}

impl View for SyncAction {
    type V = ActionV;

    open spec fn view(&self) -> ActionV {
        match self {
            SyncAction::Checkout { target } => ActionV::Checkout { target: target@ },
            SyncAction::Pull => ActionV::Pull,
            SyncAction::QueryRemote { branch } => ActionV::QueryRemote { branch: branch@ },
            SyncAction::Rebase { base } => ActionV::Rebase { base: base@ },
            SyncAction::ForcePush { branch } => ActionV::ForcePush { branch: branch@ },
            SyncAction::FindPullRequest { base, head } => ActionV::FindPullRequest {
                base: base@,
                head: head@,
            },
            SyncAction::CreatePullRequest { base, head } => ActionV::CreatePullRequest {
                base: base@,
                head: head@,
            },
        }
    }
}

/// The outcome of one action, reported back to the engine.
#[derive(Clone, PartialEq, Eq, Debug)]
pub enum SyncEvent {
    /// The action succeeded.
    Success,
    /// The action failed; the diagnostic is the captured output.
    Failure { diagnostic: String },
    /// The answer to `QueryRemote`.  The driver reports a transport error as
    /// `exists: false`: skipping a pull is safe, failing the run is not.
    RemoteExists { exists: bool },
    /// The answer to `FindPullRequest`.  The driver reports a transport
    /// error as a `Failure` instead: creating a duplicate is not safe.
    PullRequestFound { found: bool },
}

impl View for SyncEvent {
    type V = EventV;

    open spec fn view(&self) -> EventV {
        match self {
            SyncEvent::Success => EventV::Success,
            SyncEvent::Failure { diagnostic } => EventV::Failure { diagnostic: diagnostic@ },
            SyncEvent::RemoteExists { exists } => EventV::RemoteExists { exists: *exists },
            SyncEvent::PullRequestFound { found } => EventV::PullRequestFound { found: *found },
        }
    }
}

/// The views of a sequence of events, in order.
pub open spec fn events_view(evs: Seq<SyncEvent>) -> Seq<EventV> {
    evs.map_values(|e: SyncEvent| e@)
}

/// The views of a sequence of actions, in order.
pub open spec fn actions_view(acts: Seq<SyncAction>) -> Seq<ActionV> {
    acts.map_values(|a: SyncAction| a@)
}

/// The identity of the first failure of a run: the step that failed, the
/// index of the branch it failed at (`None` for the trunk steps), the
/// reference being worked on, and the captured diagnostic.
#[derive(Clone, PartialEq, Eq, Debug)]
pub struct SyncFailure {
    pub step: StepKind,
    pub index: Option<usize>,
    pub reference: String,
    pub diagnostic: String,
}

impl View for SyncFailure {
    type V = FailureV;

    open spec fn view(&self) -> FailureV {
        FailureV {
            step: self.step,
            index: match self.index {
                Some(i) => Some(i as int),
                None => None,
            },
            reference: self.reference@,
            diagnostic: self.diagnostic@,
        }
    }
}

/// Where a run is; mirrors `PhaseV`.
pub enum SyncPhase {
    TrunkCheckout,
    TrunkPull,
    Branch { index: usize, stage: Stage },
    Done,
    Failed { failure: SyncFailure },
}

impl View for SyncPhase {
    type V = PhaseV;

    open spec fn view(&self) -> PhaseV {
        match self {
            SyncPhase::TrunkCheckout => PhaseV::TrunkCheckout,
            SyncPhase::TrunkPull => PhaseV::TrunkPull,
            SyncPhase::Branch { index, stage } => PhaseV::Branch {
                index: *index as int,
                stage: *stage,
            },
            SyncPhase::Done => PhaseV::Done,
            SyncPhase::Failed { failure } => PhaseV::Failed { failure: failure@ },
        }
    }
}

/// The mathematical value of a `SyncMachine`: the trunk name, the branch
/// names of the chain in dependency order, and the phase the run is at.
pub struct MachineV {
    pub trunk: Seq<char>,
    pub chain: Seq<Seq<char>>,
    pub phase: PhaseV,
}

/// The synchronization engine for one run over one chain.
pub struct SyncMachine {
    trunk: String,
    chain: Vec<Branch>,
    phase: SyncPhase,
}

impl View for SyncMachine {
    type V = MachineV;

    closed spec fn view(&self) -> MachineV {
        MachineV { trunk: self.trunk@, chain: names_of(self.chain@), phase: self.phase@ }
    }
}

/// The base the branch at `index` is rebased onto: the trunk for the first
/// branch of the chain, the name of the previous branch for every later
/// one.
pub fn rebase_base(trunk: &String, chain: &Vec<Branch>, index: usize) -> (r: String)
    requires
        index < chain@.len(),
    ensures
        r@ == base_of(trunk@, names_of(chain@), index as int),
        index == 0 ==> r@ == trunk@,
        index > 0 ==> r@ == chain@[index - 1].name@,
{
    if index == 0 {
        trunk.clone()
    } else {
        chain[index - 1].name.clone()
    }
}

/// Whether `ev` is an answer the pending action of `phase` can have.
fn phase_answers(phase: &SyncPhase, ev: &SyncEvent) -> (r: bool)
    ensures
        r == event_matches(phase@, ev@),
{
    match phase {
        SyncPhase::TrunkCheckout | SyncPhase::TrunkPull => match ev {
            SyncEvent::Success | SyncEvent::Failure { .. } => true,
            _ => false,
        },
        SyncPhase::Branch { index: _, stage } => match stage {
            Stage::QueryRemote => match ev {
                SyncEvent::RemoteExists { .. } => true,
                _ => false,
            },
            Stage::FindPullRequest => match ev {
                SyncEvent::PullRequestFound { .. } | SyncEvent::Failure { .. } => true,
                _ => false,
            },
            _ => match ev {
                SyncEvent::Success | SyncEvent::Failure { .. } => true,
                _ => false,
            },
        },
        SyncPhase::Done | SyncPhase::Failed { .. } => false,
    }
}

impl SyncMachine {
    /// The machine's phase indices stay inside the chain.
    pub open spec fn wf(&self) -> bool {
        phase_wf(self@.chain.len() as int, self@.phase) && self@.trunk.len() > 0
    }

    /// A fresh run: trunk and chain as given, everything still to do.
    pub fn new(trunk: String, chain: Vec<Branch>) -> (m: SyncMachine)
        requires
            trunk@.len() > 0,
        ensures
            m@.trunk == trunk@,
            m@.chain == names_of(chain@),
            m@.phase == PhaseV::TrunkCheckout,
            m.wf(),
    {
        SyncMachine { trunk, chain, phase: SyncPhase::TrunkCheckout }
    }

    /// The action the run asks its driver to perform next, `None` once the
    /// run is over.
    pub fn pending_action(&self) -> (r: Option<SyncAction>)
        requires
            self.wf(),
        ensures
            r matches Some(a) ==> action_of(self@.trunk, self@.chain, self@.phase) == Some(a@),
            r is None <==> action_of(self@.trunk, self@.chain, self@.phase) is None,
    {
        match &self.phase {
            SyncPhase::TrunkCheckout => Some(
                SyncAction::Checkout { target: self.trunk.clone() },
            ),
            SyncPhase::TrunkPull => Some(SyncAction::Pull),
            SyncPhase::Branch { index, stage } => {
                let i = *index;
                match stage {
                    Stage::Checkout => Some(
                        SyncAction::Checkout { target: self.chain[i].name.clone() },
                    ),
                    Stage::QueryRemote => Some(
                        SyncAction::QueryRemote { branch: self.chain[i].name.clone() },
                    ),
                    Stage::Pull => Some(SyncAction::Pull),
                    Stage::Rebase => Some(
                        SyncAction::Rebase { base: rebase_base(&self.trunk, &self.chain, i) },
                    ),
                    Stage::Push => Some(
                        SyncAction::ForcePush { branch: self.chain[i].name.clone() },
                    ),
                    Stage::FindPullRequest => Some(
                        SyncAction::FindPullRequest {
                            base: rebase_base(&self.trunk, &self.chain, i),
                            head: self.chain[i].name.clone(),
                        },
                    ),
                    Stage::CreatePullRequest => Some(
                        SyncAction::CreatePullRequest {
                            base: rebase_base(&self.trunk, &self.chain, i),
                            head: self.chain[i].name.clone(),
                        },
                    ),
                }
            },
            SyncPhase::Done => None,
            SyncPhase::Failed { .. } => None,
        }
    }

    /// Whether `ev` is an answer the pending action can have.
    pub fn answers(&self, ev: &SyncEvent) -> (r: bool)
        ensures
            r == event_matches(self@.phase, ev@),
    {
        phase_answers(&self.phase, ev)
    }

    /// The run is over with every branch of the chain synchronized.
    pub fn is_done(&self) -> (r: bool)
        ensures
            r == (self@.phase is Done),
    {
        match &self.phase {
            SyncPhase::Done => true,
            _ => false,
        }
    }

    /// The identity of the first failure, once the run has failed.
    pub fn failure(&self) -> (r: Option<&SyncFailure>)
        ensures
            match r {
                Some(f) => self@.phase == (PhaseV::Failed { failure: f@ }),
                None => !(self@.phase is Failed),
            },
    {
        match &self.phase {
            SyncPhase::Failed { failure } => Some(failure),
            _ => None,
        }
    }

    /// Consume the outcome of the pending action and move to the next
    /// phase, exactly as the model's `next_phase` says.  An event that the
    /// pending action cannot have as its outcome changes nothing.
    pub fn step(&mut self, event: &SyncEvent)
        requires
            old(self).wf(),
        ensures
            final(self).wf(),
            final(self)@.trunk == old(self)@.trunk,
            final(self)@.chain == old(self)@.chain,
            final(self)@.phase == next_phase(
                old(self)@.trunk,
                old(self)@.chain,
                old(self)@.phase,
                event@,
            ),
    {
        if !phase_answers(&self.phase, event) {
            return;
        }
        let next = match (&self.phase, event) {
            (SyncPhase::TrunkCheckout, SyncEvent::Success) => SyncPhase::TrunkPull,
            (SyncPhase::TrunkCheckout, SyncEvent::Failure { diagnostic }) => SyncPhase::Failed {
                failure: SyncFailure {
                    step: StepKind::Checkout,
                    index: None,
                    reference: self.trunk.clone(),
                    diagnostic: diagnostic.clone(),
                },
            },
            (SyncPhase::TrunkPull, SyncEvent::Success) => {
                if self.chain.len() == 0 {
                    SyncPhase::Done
                } else {
                    SyncPhase::Branch { index: 0, stage: Stage::Checkout }
                }
            },
            (SyncPhase::TrunkPull, SyncEvent::Failure { diagnostic }) => SyncPhase::Failed {
                failure: SyncFailure {
                    step: StepKind::Pull,
                    index: None,
                    reference: self.trunk.clone(),
                    diagnostic: diagnostic.clone(),
                },
            },
            (SyncPhase::Branch { index, stage }, ev) => {
                let i = *index;
                match (stage, ev) {
                    (Stage::Checkout, SyncEvent::Success) => SyncPhase::Branch {
                        index: i,
                        stage: Stage::QueryRemote,
                    },
                    (Stage::Checkout, SyncEvent::Failure { diagnostic }) => Self::fail_at(
                        StepKind::Checkout,
                        i,
                        &self.chain,
                        diagnostic,
                    ),
                    (Stage::QueryRemote, SyncEvent::RemoteExists { exists }) => {
                        if *exists {
                            SyncPhase::Branch { index: i, stage: Stage::Pull }
                        } else {
                            SyncPhase::Branch { index: i, stage: Stage::Rebase }
                        }
                    },
                    (Stage::Pull, SyncEvent::Success) => SyncPhase::Branch {
                        index: i,
                        stage: Stage::Rebase,
                    },
                    (Stage::Pull, SyncEvent::Failure { diagnostic }) => Self::fail_at(
                        StepKind::Pull,
                        i,
                        &self.chain,
                        diagnostic,
                    ),
                    (Stage::Rebase, SyncEvent::Success) => SyncPhase::Branch {
                        index: i,
                        stage: Stage::Push,
                    },
                    (Stage::Rebase, SyncEvent::Failure { diagnostic }) => Self::fail_at(
                        StepKind::Rebase,
                        i,
                        &self.chain,
                        diagnostic,
                    ),
                    (Stage::Push, SyncEvent::Success) => SyncPhase::Branch {
                        index: i,
                        stage: Stage::FindPullRequest,
                    },
                    (Stage::Push, SyncEvent::Failure { diagnostic }) => Self::fail_at(
                        StepKind::Push,
                        i,
                        &self.chain,
                        diagnostic,
                    ),
                    (Stage::FindPullRequest, SyncEvent::PullRequestFound { found }) => {
                        if *found {
                            Self::advance(i, self.chain.len())
                        } else {
                            SyncPhase::Branch { index: i, stage: Stage::CreatePullRequest }
                        }
                    },
                    (Stage::FindPullRequest, SyncEvent::Failure { diagnostic }) => Self::fail_at(
                        StepKind::PullRequestQuery,
                        i,
                        &self.chain,
                        diagnostic,
                    ),
                    (Stage::CreatePullRequest, SyncEvent::Success) => Self::advance(
                        i,
                        self.chain.len(),
                    ),
                    (Stage::CreatePullRequest, SyncEvent::Failure { diagnostic }) => Self::fail_at(
                        StepKind::PullRequestCreate,
                        i,
                        &self.chain,
                        diagnostic,
                    ),
                    // never reached: the answer check above has already
                    // returned for every other pairing
                    _ => SyncPhase::Branch { index: i, stage: *stage },
                }
            },
            // never reached: terminal phases answer no event
            _ => SyncPhase::Done,
        };
        self.phase = next;
    }

    /// The failure phase for the given step at branch `index`.
    fn fail_at(step: StepKind, index: usize, chain: &Vec<Branch>, diagnostic: &String) -> (r: SyncPhase)
        requires
            index < chain@.len(),
        ensures
            r@ == (PhaseV::Failed {
                failure: FailureV {
                    step,
                    index: Some(index as int),
                    reference: names_of(chain@)[index as int],
                    diagnostic: diagnostic@,
                },
            }),
    {
        SyncPhase::Failed {
            failure: SyncFailure {
                step,
                index: Some(index),
                reference: chain[index].name.clone(),
                diagnostic: diagnostic.clone(),
            },
        }
    }

    /// Drive the run over a scripted sequence of outcomes, one `step` per
    /// event, and collect the actions that were performed, in order.  With
    /// scripted outcomes in place of real ones the whole engine runs without
    /// touching a working copy, exactly as the model's `run_phase` and
    /// `run_actions` say.
    pub fn run_scripted(&mut self, events: &Vec<SyncEvent>) -> (actions: Vec<SyncAction>)
        requires
            old(self).wf(),
        ensures
            final(self).wf(),
            final(self)@.trunk == old(self)@.trunk,
            final(self)@.chain == old(self)@.chain,
            final(self)@.phase == run_phase(
                old(self)@.trunk,
                old(self)@.chain,
                old(self)@.phase,
                events_view(events@),
            ),
            actions_view(actions@) == run_actions(
                old(self)@.trunk,
                old(self)@.chain,
                old(self)@.phase,
                events_view(events@),
            ),
    {
        let ghost trunk = old(self)@.trunk;
        let ghost chain = old(self)@.chain;
        let ghost start = old(self)@.phase;
        let mut actions: Vec<SyncAction> = Vec::new();
        let mut i: usize = 0;
        while i < events.len()
            invariant
                i <= events@.len(),
                self.wf(),
                self@.trunk == trunk,
                self@.chain == chain,
                self@.phase == run_phase(
                    trunk,
                    chain,
                    start,
                    events_view(events@.subrange(0, i as int)),
                ),
                actions_view(actions@) == run_actions(
                    trunk,
                    chain,
                    start,
                    events_view(events@.subrange(0, i as int)),
                ),
            decreases events@.len() - i,
        {
            let ghost consumed = events_view(events@.subrange(0, i as int));
            proof {
                assert(events@.subrange(0, i as int + 1) =~= events@.subrange(0, i as int).push(
                    events@[i as int],
                ));
                assert(events_view(events@.subrange(0, i as int + 1)) =~= consumed.push(
                    events@[i as int]@,
                ));
                lemma_run_snoc(trunk, chain, start, consumed, events@[i as int]@);
            }
            let ev = &events[i];
            if self.answers(ev) {
                let a = self.pending_action();
                let issued = a.unwrap();
                proof {
                    assert(actions_view(actions@.push(issued)) =~= actions_view(actions@).push(
                        issued@,
                    ));
                }
                actions.push(issued);
            }
            self.step(ev);
            i = i + 1;
        }
        proof {
            assert(events@.subrange(0, events@.len() as int) =~= events@);
        }
        actions
    }

    /// The phase after branch `index` is fully synchronized.
    fn advance(index: usize, chain_len: usize) -> (r: SyncPhase)
        requires
            index < chain_len,
        ensures
            r@ == phase_after(chain_len as int, index as int),
    {
        if index + 1 == chain_len {
            SyncPhase::Done
        } else {
            SyncPhase::Branch { index: index + 1, stage: Stage::Checkout }
        }
    }
}

} // verus!
