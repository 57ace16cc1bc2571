use vstd::prelude::*;
use crate::error::GitHydraError;

verus! {

/// Progress of one account registration. Steps run strictly in this order;
/// `Done` and `Failed` are terminal, and nothing already done is rolled back
/// on a failure.
pub enum Stage {
    Init,
    ToolsVerified,
    ConfigResolved,
    ScriptEnsured,
    LookupEnsured,
    SshConfigWritten,
    WorkspaceCreated,
    Done,
    Failed { error: GitHydraError },
}

/// The step to perform next.
#[derive(Clone, Copy, Debug, PartialEq, Eq, Structural)]
pub enum Action {
    VerifyTools,
    ResolveConfig,
    EnsureTemplateScript,
    EnsureLookupStore,
    AppendSshEntry,
    CreateWorkspace,
    Finish,
}

/// Position of a stage in the sequence, from 0 (`Init`) to 7 (`Done`);
/// `Failed` is -1.
pub open spec fn rank(stage: Stage) -> int {
    match stage {
        Stage::Init => 0,
        Stage::ToolsVerified => 1,
        Stage::ConfigResolved => 2,
        Stage::ScriptEnsured => 3,
        Stage::LookupEnsured => 4,
        Stage::SshConfigWritten => 5,
        Stage::WorkspaceCreated => 6,
        Stage::Done => 7,
        Stage::Failed { .. } => -1,
    }
}

/// Whether no step follows `stage`.
pub open spec fn is_terminal(stage: Stage) -> bool {
    stage is Done || stage is Failed
}

/// The step run from a stage of rank `k`, which it leaves for rank `k + 1`.
pub open spec fn action_at(k: int) -> Action {
    if k == 0 {
        Action::VerifyTools
    } else if k == 1 {
        Action::ResolveConfig
    } else if k == 2 {
        Action::EnsureTemplateScript
    } else if k == 3 {
        Action::EnsureLookupStore
    } else if k == 4 {
        Action::AppendSshEntry
    } else if k == 5 {
        Action::CreateWorkspace
    } else {
        Action::Finish
    }
}

impl Stage {
    /// Whether the registration has ended.
    pub fn is_finished(&self) -> (r: bool)
        ensures
            r == is_terminal(*self),
    {
        match self {
            Stage::Done | Stage::Failed { .. } => true,
            _ => false,
        }
    }

    /// The step to run from this stage, or `None` once it has ended.
    pub fn next_action(&self) -> (r: Option<Action>)
        ensures
            is_terminal(*self) <==> r is None,
            !is_terminal(*self) ==> r == Some(action_at(rank(*self))),
    {
        match self {
            Stage::Init => Some(Action::VerifyTools),
            Stage::ToolsVerified => Some(Action::ResolveConfig),
            Stage::ConfigResolved => Some(Action::EnsureTemplateScript),
            Stage::ScriptEnsured => Some(Action::EnsureLookupStore),
            Stage::LookupEnsured => Some(Action::AppendSshEntry),
            Stage::SshConfigWritten => Some(Action::CreateWorkspace),
            Stage::WorkspaceCreated => Some(Action::Finish),
            Stage::Done | Stage::Failed { .. } => None,
        }
    }

    /// The stage after the step of `self` ended with `outcome`: the next one
    /// on success, `Failed` with the step's error otherwise. A finished
    /// registration stays as it is.
    pub fn advance(self, outcome: Result<(), GitHydraError>) -> (r: Stage)
        ensures
            is_terminal(self) ==> r == self,
            !is_terminal(self) && outcome is Ok ==> r == stage_of_rank(rank(self) + 1),
            !is_terminal(self) && outcome is Err ==> r == (Stage::Failed {
                error: outcome->Err_0,
            }),
    {
        if self.is_finished() {
            return self;
        }
        match outcome {
            Err(error) => Stage::Failed { error },
            Ok(()) => match self {
                Stage::Init => Stage::ToolsVerified,
                Stage::ToolsVerified => Stage::ConfigResolved,
                Stage::ConfigResolved => Stage::ScriptEnsured,
                Stage::ScriptEnsured => Stage::LookupEnsured,
                Stage::LookupEnsured => Stage::SshConfigWritten,
                Stage::SshConfigWritten => Stage::WorkspaceCreated,
                _ => Stage::Done,
            },
        }
    }

    /// The result of the whole registration once it has ended.
    pub fn into_result(self) -> (r: Result<(), GitHydraError>)
        requires
            is_terminal(self),
        ensures
            self is Done <==> r is Ok,
            self is Failed ==> r == Err::<(), GitHydraError>(self->Failed_error),
    {
        match self {
            Stage::Failed { error } => Err(error),
            _ => Ok(()),
        }
    }
}

/// The stage reached from `Init` when the steps end with `outcomes`, in order.
pub open spec fn run(outcomes: Seq<Result<(), GitHydraError>>) -> Stage
    decreases outcomes.len(),
{
    if outcomes.len() == 0 {
        Stage::Init
    } else {
        let prev = run(outcomes.drop_last());
        if is_terminal(prev) {
            prev
        } else {
            match outcomes.last() {
                Err(error) => Stage::Failed { error },
                Ok(()) => stage_of_rank(rank(prev) + 1),
            }
        }
    }
}

/// The non-failed stage of rank `k`.
pub open spec fn stage_of_rank(k: int) -> Stage {
    if k == 0 {
        Stage::Init
    } else if k == 1 {
        Stage::ToolsVerified
    } else if k == 2 {
        Stage::ConfigResolved
    } else if k == 3 {
        Stage::ScriptEnsured
    } else if k == 4 {
        Stage::LookupEnsured
    } else if k == 5 {
        Stage::SshConfigWritten
    } else if k == 6 {
        Stage::WorkspaceCreated
    } else {
        Stage::Done
    }
}

/// A registration whose steps have all succeeded, at most seven of them, is
/// at the stage of that rank (`Done` after seven); one whose step `j` (of the
/// seven) is the first to fail ends `Failed` with that step's error, whatever
/// the later outcomes are: no step runs once another has failed.
pub proof fn lemma_run_stops_at_first_failure(outcomes: Seq<Result<(), GitHydraError>>)
    ensures
        outcomes.len() <= 7 && (forall|i: int| 0 <= i < outcomes.len() ==> outcomes[i] is Ok)
            ==> run(outcomes) == stage_of_rank(outcomes.len() as int),
        forall|j: int|
            0 <= j < outcomes.len() && j < 7 && outcomes[j] is Err && (forall|i: int|
                0 <= i < j ==> outcomes[i] is Ok) ==> run(outcomes) == (Stage::Failed {
                error: outcomes[j]->Err_0,
            }),
    decreases outcomes.len(),
{
    if outcomes.len() > 0 {
        let prefix = outcomes.drop_last();
        lemma_run_stops_at_first_failure(prefix);
        assert forall|j: int|
            0 <= j < outcomes.len() && j < 7 && outcomes[j] is Err && (forall|i: int|
                0 <= i < j ==> outcomes[i] is Ok) implies run(outcomes) == (Stage::Failed {
            error: outcomes[j]->Err_0,
        }) by {
            if j < outcomes.len() - 1 {
                assert(prefix[j] == outcomes[j]);
                assert forall|i: int| 0 <= i < j implies prefix[i] is Ok by {
                    assert(prefix[i] == outcomes[i]);
                }
            } else {
                assert forall|i: int| 0 <= i < prefix.len() implies prefix[i] is Ok by {
                    assert(prefix[i] == outcomes[i]);
                }
            }
        }
        if outcomes.len() <= 7 && (forall|i: int| 0 <= i < outcomes.len() ==> outcomes[i] is Ok) {
            assert forall|i: int| 0 <= i < prefix.len() implies prefix[i] is Ok by {
                assert(prefix[i] == outcomes[i]);
            }
        }
    }
}

} // verus!
