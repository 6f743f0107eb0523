//! Agent loop control: the turn limit a run resolves, the per-turn budget and
//! cancellation check, and the session and retry specifications a loop
//! request carries.

use tokio_util::sync::CancellationToken;
use vstd::prelude::*;

use crate::prompt_policy::PromptPolicy;
use crate::provider_retry::ProviderRetryPolicy;
use crate::tool_types::ToolRuntimePolicy;

verus! {

#[verifier::external_type_specification]
#[verifier::external_body]
pub struct ExCancellationToken(tokio_util::sync::CancellationToken);

/// `<CancellationToken as Clone>::clone`: a handle on the same token. Nothing
/// is stated of it.
pub assume_specification[ <tokio_util::sync::CancellationToken as Clone>::clone ](
    token: &CancellationToken,
) -> CancellationToken;

pub const DEFAULT_AGENT_LOOP_MAX_TURNS: u32 = 1000;

/// The turn limit of a run: an explicit limit wins over a configured one,
/// which wins over the default.
#[derive(Clone, Copy, Debug, PartialEq, Eq, Structural)]
pub struct AgentLoopTurnLimit {
    explicit_max_turns: Option<u32>,
    configured_max_turns: Option<u32>,
    default_max_turns: u32,
}

impl AgentLoopTurnLimit {
    pub closed spec fn explicit(&self) -> Option<u32> {
        self.explicit_max_turns
    }

    pub closed spec fn configured(&self) -> Option<u32> {
        self.configured_max_turns
    }

    pub closed spec fn fallback(&self) -> u32 {
        self.default_max_turns
    }

    /// The limit that applies: the explicit one, else the configured one,
    /// else the default.
    pub open spec fn resolved(&self) -> u32 {
        match self.explicit() {
            Some(n) => n,
            None => match self.configured() {
                Some(n) => n,
                None => self.fallback(),
            },
        }
    }
}

impl Default for AgentLoopTurnLimit {
    fn default() -> (l: Self)
        ensures
            l.explicit() is None,
            l.configured() is None,
            l.fallback() == DEFAULT_AGENT_LOOP_MAX_TURNS,
    {
        AgentLoopTurnLimit {
            explicit_max_turns: None,
            configured_max_turns: None,
            default_max_turns: DEFAULT_AGENT_LOOP_MAX_TURNS,
        }
    }
}

impl AgentLoopTurnLimit {
    pub fn new(explicit_max_turns: Option<u32>) -> (l: Self)
        ensures
            l.explicit() == explicit_max_turns,
            l.configured() is None,
            l.fallback() == DEFAULT_AGENT_LOOP_MAX_TURNS,
    {
        AgentLoopTurnLimit {
            explicit_max_turns,
            configured_max_turns: None,
            default_max_turns: DEFAULT_AGENT_LOOP_MAX_TURNS,
        }
    }

    pub fn with_configured_max_turns(self, configured_max_turns: Option<u32>) -> (l: Self)
        ensures
            l.explicit() == self.explicit(),
            l.configured() == configured_max_turns,
            l.fallback() == self.fallback(),
    {
        let mut l = self;
        l.configured_max_turns = configured_max_turns;
        l
    }

    pub fn with_default_max_turns(self, default_max_turns: u32) -> (l: Self)
        ensures
            l.explicit() == self.explicit(),
            l.configured() == self.configured(),
            l.fallback() == default_max_turns,
    {
        let mut l = self;
        l.default_max_turns = default_max_turns;
        l
    }

    pub fn resolve(self) -> (n: u32)
        ensures
            n == self.resolved(),
    {
        match self.explicit_max_turns {
            Some(n) => n,
            None => match self.configured_max_turns {
                Some(n) => n,
                None => self.default_max_turns,
            },
        }
    }
}

/// What the loop should do at the start of a turn.
#[derive(Clone, Copy, Debug, PartialEq, Eq, Structural)]
pub enum AgentLoopControlDecision {
    Continue,
    Cancelled,
    MaxTurnsReached,
}

/// The decision and the new count of turns taken when a turn begins: a
/// cancelled run stops before counting; otherwise the turn is counted
/// (saturating) when asked, and the run stops once the count exceeds the
/// limit.
pub open spec fn turn_step(max_turns: u32, turns_taken: u32, cancelled: bool, count_turn: bool) -> (
    AgentLoopControlDecision,
    u32,
) {
    if cancelled {
        (AgentLoopControlDecision::Cancelled, turns_taken)
    } else {
        let taken = if count_turn {
            if turns_taken + 1 > u32::MAX {
                u32::MAX
            } else {
                (turns_taken + 1) as u32
            }
        } else {
            turns_taken
        };
        if taken > max_turns {
            (AgentLoopControlDecision::MaxTurnsReached, taken)
        } else {
            (AgentLoopControlDecision::Continue, taken)
        }
    }
}

/// `CancellationToken::is_cancelled`: whether the token has been cancelled.
/// Another task may cancel it at any time, so nothing is stated of the result.
#[verifier::external_body]
fn token_is_cancelled(token: &CancellationToken) -> bool {
    token.is_cancelled()
}

/// The per-run turn budget and the optional cancellation token.
#[derive(Clone, Debug)]
pub struct AgentLoopControl {
    max_turns: u32,
    turns_taken: u32,
    cancellation_token: Option<CancellationToken>,
}

impl AgentLoopControl {
    pub closed spec fn limit(&self) -> u32 {
        self.max_turns
    }

    pub closed spec fn taken(&self) -> u32 {
        self.turns_taken
    }

    pub closed spec fn has_token(&self) -> bool {
        self.cancellation_token is Some
    }

    pub fn new(max_turns: u32, cancellation_token: Option<CancellationToken>) -> (c: Self)
        ensures
            c.limit() == max_turns,
            c.taken() == 0,
            c.has_token() == (cancellation_token is Some),
    {
        AgentLoopControl { max_turns, turns_taken: 0, cancellation_token }
    }

    pub fn max_turns(&self) -> (n: u32)
        ensures
            n == self.limit(),
    {
        self.max_turns
    }

    pub fn turns_taken(&self) -> (n: u32)
        ensures
            n == self.taken(),
    {
        self.turns_taken
    }

    /// Whether the run's token has been cancelled; never without a token.
    pub fn is_cancelled(&self) -> (r: bool)
        ensures
            !self.has_token() ==> !r,
    {
        match &self.cancellation_token {
            Some(token) => token_is_cancelled(token),
            None => false,
        }
    }

    /// Begins a turn given whether the run has been observed as cancelled.
    pub fn begin_turn_observing(&mut self, cancelled: bool, count_turn: bool) -> (d:
        AgentLoopControlDecision)
        ensures
            (d, final(self).taken()) == turn_step(
                old(self).limit(),
                old(self).taken(),
                cancelled,
                count_turn,
            ),
            final(self).limit() == old(self).limit(),
            final(self).has_token() == old(self).has_token(),
    {
        if cancelled {
            return AgentLoopControlDecision::Cancelled;
        }
        if count_turn {
            self.turns_taken = self.turns_taken.saturating_add(1);
        }
        if self.turns_taken > self.max_turns {
            AgentLoopControlDecision::MaxTurnsReached
        } else {
            AgentLoopControlDecision::Continue
        }
    }

    /// Begins a turn: reports cancellation first, without counting the turn;
    /// otherwise counts the turn when asked and stops once the limit is
    /// exceeded. Without a token the run is never cancelled.
    pub fn begin_turn(&mut self, count_turn: bool) -> (d: AgentLoopControlDecision)
        ensures
            (d, final(self).taken()) == turn_step(
                old(self).limit(),
                old(self).taken(),
                d == AgentLoopControlDecision::Cancelled,
                count_turn,
            ),
            !old(self).has_token() ==> d != AgentLoopControlDecision::Cancelled,
            final(self).limit() == old(self).limit(),
            final(self).has_token() == old(self).has_token(),
    {
        let cancelled = self.is_cancelled();
        self.begin_turn_observing(cancelled, count_turn)
    }
}

/// The number of turns taken after `n` counted, uncancelled turns from none.
pub open spec fn turns_after(n: nat) -> u32 {
    if n > 0xffff_ffff {
        0xffff_ffffu32
    } else {
        n as u32
    }
}

/// A run that counts every turn continues for exactly `max_turns` turns: the
/// `n`-th counted turn (from one) continues when `n <= max_turns` and reaches
/// the limit otherwise, and the count after it is `n`. The count saturates at
/// `u32::MAX`, so the law is stated for turn numbers that fit in a `u32`.
pub proof fn law_turn_budget(max_turns: u32, n: nat)
    requires
        1 <= n <= 0xffff_ffff,
    ensures
        turn_step(max_turns, turns_after((n - 1) as nat), false, true) == (
            if n <= max_turns {
                AgentLoopControlDecision::Continue
            } else {
                AgentLoopControlDecision::MaxTurnsReached
            },
            turns_after(n),
        ),
{
}

/// A turn that is not counted never changes the count, and continues exactly
/// when the count is within the limit.
pub proof fn law_uncounted_turn(max_turns: u32, taken: u32)
    ensures
        turn_step(max_turns, taken, false, false) == (
            if taken <= max_turns {
                AgentLoopControlDecision::Continue
            } else {
                AgentLoopControlDecision::MaxTurnsReached
            },
            taken,
        ),
{
}

/// A cancelled run is reported as cancelled and its count stays the same.
pub proof fn law_cancellation_counts_nothing(max_turns: u32, taken: u32, count_turn: bool)
    ensures
        turn_step(max_turns, taken, true, count_turn) == (
            AgentLoopControlDecision::Cancelled,
            taken,
        ),
{
}

/// How a provider call may be retried within a loop session.
#[derive(Clone, Debug, PartialEq, Eq, Structural)]
pub struct AgentLoopRetrySpec {
    pub max_retries: u32,
    pub timeout_seconds: Option<u64>,
}

/// The retry specification a provider retry policy implies: none when
/// transient failures are not retried or only one attempt is allowed, else
/// one retry fewer than attempts, with the policy's timeout.
pub open spec fn retry_spec_for(policy: ProviderRetryPolicy) -> Option<AgentLoopRetrySpec> {
    if !policy.retry_transient_errors || policy.max_attempts <= 1 {
        None
    } else {
        Some(
            AgentLoopRetrySpec {
                max_retries: (policy.max_attempts - 1) as u32,
                timeout_seconds: policy.timeout_seconds,
            },
        )
    }
}

impl AgentLoopRetrySpec {
    pub fn from_provider_retry_policy(policy: &ProviderRetryPolicy) -> (r: Option<Self>)
        ensures
            r == retry_spec_for(*policy),
    {
        if !policy.retry_transient_errors || policy.max_attempts <= 1 {
            return None;
        }
        let retries = policy.max_attempts.saturating_sub(1);
        Some(
            AgentLoopRetrySpec {
                max_retries: if retries > 1 { retries } else { 1 },
                timeout_seconds: policy.timeout_seconds,
            },
        )
    }
}

/// What a loop session is run with.
#[derive(Clone, Debug, PartialEq, Eq)]
pub struct AgentLoopSessionSpec {
    pub runtime_session_id: String,
    pub max_turns: Option<u32>,
    pub retry: Option<AgentLoopRetrySpec>,
}

/// The options of a loop request.
#[derive(Clone, Debug)]
pub struct AgentLoopOptions {
    pub max_turns: Option<u32>,
    pub retry: ProviderRetryPolicy,
}

impl Default for AgentLoopOptions {
    /// Twelve turns and the default retry policy.
    fn default() -> (o: Self)
        ensures
            o.max_turns == Some(12u32),
            o.retry == (ProviderRetryPolicy {
                max_attempts: 1,
                retry_transient_errors: true,
                timeout_seconds: None,
            }),
    {
        AgentLoopOptions { max_turns: Some(12), retry: ProviderRetryPolicy::default() }
    }
}

impl AgentLoopOptions {
    /// The session specification for a run of these options.
    pub fn session_spec(&self, runtime_session_id: &str) -> (s: AgentLoopSessionSpec)
        ensures
            s.runtime_session_id@ == runtime_session_id@,
            s.max_turns == self.max_turns,
            s.retry == retry_spec_for(self.retry),
    {
        AgentLoopSessionSpec {
            runtime_session_id: runtime_session_id.to_owned(),
            max_turns: self.max_turns,
            retry: AgentLoopRetrySpec::from_provider_retry_policy(&self.retry),
        }
    }
}

/// A request to run the agent loop on one user message.
pub struct AgentLoopRequest<UserMessage> {
    pub user_message: UserMessage,
    pub runtime_session_id: String,
    pub options: AgentLoopOptions,
    pub prompt_policy: PromptPolicy,
    pub tool_policy: Option<ToolRuntimePolicy>,
    pub cancellation_token: Option<CancellationToken>,
}

/// Where a run of the agent loop through a source runtime stands: the
/// prompt policy is applied first, then the tool policy enforced, then the
/// source loop run.
#[derive(Clone, Copy, Debug, PartialEq, Eq, Structural)]
pub enum LoopRunnerStage {
    NotStarted,
    ApplyingPromptPolicy,
    EnforcingToolPolicy,
    RunningSourceLoop,
    Finished,
    Failed,
}

/// What the host does next for a run.
#[derive(Debug)]
pub enum LoopRunnerAction {
    ApplyPromptPolicy,
    EnforceToolPolicy,
    RunSourceLoop(AgentLoopSessionSpec),
    Finish,
    Fail,
    Nothing,
}

/// An action without its session specification.
#[derive(PartialEq, Eq, Structural)]
pub enum LoopRunnerActionView {
    ApplyPromptPolicy,
    EnforceToolPolicy,
    RunSourceLoop,
    Finish,
    Fail,
    Nothing,
}

impl View for LoopRunnerAction {
    type V = LoopRunnerActionView;

    open spec fn view(&self) -> LoopRunnerActionView {
        match self {
            LoopRunnerAction::ApplyPromptPolicy => LoopRunnerActionView::ApplyPromptPolicy,
            LoopRunnerAction::EnforceToolPolicy => LoopRunnerActionView::EnforceToolPolicy,
            LoopRunnerAction::RunSourceLoop(_) => LoopRunnerActionView::RunSourceLoop,
            LoopRunnerAction::Finish => LoopRunnerActionView::Finish,
            LoopRunnerAction::Fail => LoopRunnerActionView::Fail,
            LoopRunnerAction::Nothing => LoopRunnerActionView::Nothing,
        }
    }
}

/// One step of a run, given whether the host's last action succeeded: start
/// by applying the prompt policy; after it, enforce the tool policy; after
/// that, run the source loop; after that, finish. Any failure fails the run,
/// and a finished or failed run does nothing more.
pub open spec fn runner_next(stage: LoopRunnerStage, succeeded: bool) -> (
    LoopRunnerStage,
    LoopRunnerActionView,
) {
    match stage {
        LoopRunnerStage::NotStarted => (
            LoopRunnerStage::ApplyingPromptPolicy,
            LoopRunnerActionView::ApplyPromptPolicy,
        ),
        LoopRunnerStage::ApplyingPromptPolicy => if succeeded {
            (LoopRunnerStage::EnforcingToolPolicy, LoopRunnerActionView::EnforceToolPolicy)
        } else {
            (LoopRunnerStage::Failed, LoopRunnerActionView::Fail)
        },
        LoopRunnerStage::EnforcingToolPolicy => if succeeded {
            (LoopRunnerStage::RunningSourceLoop, LoopRunnerActionView::RunSourceLoop)
        } else {
            (LoopRunnerStage::Failed, LoopRunnerActionView::Fail)
        },
        LoopRunnerStage::RunningSourceLoop => if succeeded {
            (LoopRunnerStage::Finished, LoopRunnerActionView::Finish)
        } else {
            (LoopRunnerStage::Failed, LoopRunnerActionView::Fail)
        },
        _ => (stage, LoopRunnerActionView::Nothing),
    }
}

/// The stage after a sequence of outcomes, and the actions they produce.
pub open spec fn runner_run(stage: LoopRunnerStage, outcomes: Seq<bool>) -> (
    LoopRunnerStage,
    Seq<LoopRunnerActionView>,
)
    decreases outcomes.len(),
{
    if outcomes.len() == 0 {
        (stage, Seq::empty())
    } else {
        let (before, actions) = runner_run(stage, outcomes.drop_last());
        let (after, action) = runner_next(before, outcomes.last());
        (after, actions.push(action))
    }
}

/// The stage of a run from its start after `k` outcomes.
pub open spec fn stage_after(outcomes: Seq<bool>, k: int) -> LoopRunnerStage {
    if k == 0 {
        LoopRunnerStage::NotStarted
    } else if k == 1 {
        LoopRunnerStage::ApplyingPromptPolicy
    } else if !outcomes[1] {
        LoopRunnerStage::Failed
    } else if k == 2 {
        LoopRunnerStage::EnforcingToolPolicy
    } else if !outcomes[2] {
        LoopRunnerStage::Failed
    } else if k == 3 {
        LoopRunnerStage::RunningSourceLoop
    } else if !outcomes[3] {
        LoopRunnerStage::Failed
    } else {
        LoopRunnerStage::Finished
    }
}

proof fn lemma_runner_run(outcomes: Seq<bool>)
    ensures
        runner_run(LoopRunnerStage::NotStarted, outcomes).0 == stage_after(
            outcomes,
            outcomes.len() as int,
        ),
        runner_run(LoopRunnerStage::NotStarted, outcomes).1.len() == outcomes.len(),
        forall|k: int|
            0 <= k < outcomes.len() ==> #[trigger] runner_run(LoopRunnerStage::NotStarted, outcomes).1[k]
                == runner_next(stage_after(outcomes, k), outcomes[k]).1,
    decreases outcomes.len(),
{
    if outcomes.len() > 0 {
        let prev = outcomes.drop_last();
        lemma_runner_run(prev);
        let n = outcomes.len() - 1;
        assert forall|k: int| 0 <= k <= n implies stage_after(prev, k) == stage_after(outcomes, k) by {
            if k > 1 {
                assert(prev[1] == outcomes[1]);
            }
            if k > 2 {
                assert(prev[2] == outcomes[2]);
            }
            if k > 3 {
                assert(prev[3] == outcomes[3]);
            }
        }
        let run = runner_run(LoopRunnerStage::NotStarted, outcomes).1;
        assert forall|k: int| 0 <= k < outcomes.len() implies #[trigger] run[k] == runner_next(
            stage_after(outcomes, k),
            outcomes[k],
        ).1 by {
            if k < n {
                assert(run[k] == runner_run(LoopRunnerStage::NotStarted, prev).1[k]);
                assert(prev[k] == outcomes[k]);
            }
        }
    }
}

/// A run whose every action succeeds applies the prompt policy, enforces the
/// tool policy, runs the source loop and finishes, in this order.
pub proof fn law_runner_order(first: bool)
    ensures
        runner_run(LoopRunnerStage::NotStarted, seq![first, true, true, true]) == (
            LoopRunnerStage::Finished,
            seq![
                LoopRunnerActionView::ApplyPromptPolicy,
                LoopRunnerActionView::EnforceToolPolicy,
                LoopRunnerActionView::RunSourceLoop,
                LoopRunnerActionView::Finish,
            ],
        ),
{
    let o = seq![first, true, true, true];
    lemma_runner_run(o);
    let run = runner_run(LoopRunnerStage::NotStarted, o).1;
    assert(run[0] == LoopRunnerActionView::ApplyPromptPolicy);
    assert(run[1] == LoopRunnerActionView::EnforceToolPolicy);
    assert(run[2] == LoopRunnerActionView::RunSourceLoop);
    assert(run[3] == LoopRunnerActionView::Finish);
    assert(run =~= seq![
        LoopRunnerActionView::ApplyPromptPolicy,
        LoopRunnerActionView::EnforceToolPolicy,
        LoopRunnerActionView::RunSourceLoop,
        LoopRunnerActionView::Finish,
    ]);
}

/// The tool policy is enforced only once the prompt policy has been applied,
/// and the source loop runs only once both policies succeeded; after a
/// failure the run fails and then does nothing more.
pub proof fn law_runner_stops_at_first_failure(outcomes: Seq<bool>)
    ensures
        forall|k: int|
            0 <= k < outcomes.len() && #[trigger] runner_run(
                LoopRunnerStage::NotStarted,
                outcomes,
            ).1[k] == LoopRunnerActionView::EnforceToolPolicy ==> k == 1 && outcomes[1],
        forall|k: int|
            0 <= k < outcomes.len() && #[trigger] runner_run(
                LoopRunnerStage::NotStarted,
                outcomes,
            ).1[k] == LoopRunnerActionView::RunSourceLoop ==> k == 2 && outcomes[1]
                && outcomes[2],
        forall|j: int, k: int|
            0 <= j < k < outcomes.len() && #[trigger] runner_run(
                LoopRunnerStage::NotStarted,
                outcomes,
            ).1[j] == LoopRunnerActionView::Fail ==> #[trigger] runner_run(
                LoopRunnerStage::NotStarted,
                outcomes,
            ).1[k] == LoopRunnerActionView::Nothing,
{
    lemma_runner_run(outcomes);
}

/// A run of the agent loop through a source runtime: the host performs each
/// action it is given and reports whether it succeeded.
pub struct AgentLoopRunner {
    runtime_session_id: String,
    options: AgentLoopOptions,
    stage: LoopRunnerStage,
}

impl AgentLoopRunner {
    pub closed spec fn current_stage(&self) -> LoopRunnerStage {
        self.stage
    }

    pub closed spec fn session_id(&self) -> Seq<char> {
        self.runtime_session_id@
    }

    pub closed spec fn run_options(&self) -> AgentLoopOptions {
        self.options
    }

    /// A run that has not started yet.
    pub fn new(runtime_session_id: String, options: AgentLoopOptions) -> (r: Self)
        ensures
            r.current_stage() == LoopRunnerStage::NotStarted,
            r.session_id() == runtime_session_id@,
            r.run_options() == options,
    {
        AgentLoopRunner { runtime_session_id, options, stage: LoopRunnerStage::NotStarted }
    }

    /// The next action, given whether the last one succeeded; the source
    /// loop is run under the session specification of the run's options.
    pub fn step(&mut self, succeeded: bool) -> (action: LoopRunnerAction)
        ensures
            (final(self).current_stage(), action@) == runner_next(
                old(self).current_stage(),
                succeeded,
            ),
            final(self).session_id() == old(self).session_id(),
            final(self).run_options() == old(self).run_options(),
            action matches LoopRunnerAction::RunSourceLoop(spec) ==> {
                &&& spec.runtime_session_id@ == old(self).session_id()
                &&& spec.max_turns == old(self).run_options().max_turns
                &&& spec.retry == retry_spec_for(old(self).run_options().retry)
            },
    {
        match self.stage {
            LoopRunnerStage::NotStarted => {
                self.stage = LoopRunnerStage::ApplyingPromptPolicy;
                LoopRunnerAction::ApplyPromptPolicy
            },
            LoopRunnerStage::ApplyingPromptPolicy => if succeeded {
                self.stage = LoopRunnerStage::EnforcingToolPolicy;
                LoopRunnerAction::EnforceToolPolicy
            } else {
                self.stage = LoopRunnerStage::Failed;
                LoopRunnerAction::Fail
            },
            LoopRunnerStage::EnforcingToolPolicy => if succeeded {
                self.stage = LoopRunnerStage::RunningSourceLoop;
                LoopRunnerAction::RunSourceLoop(
                    self.options.session_spec(self.runtime_session_id.as_str()),
                )
            } else {
                self.stage = LoopRunnerStage::Failed;
                LoopRunnerAction::Fail
            },
            LoopRunnerStage::RunningSourceLoop => if succeeded {
                self.stage = LoopRunnerStage::Finished;
                LoopRunnerAction::Finish
            } else {
                self.stage = LoopRunnerStage::Failed;
                LoopRunnerAction::Fail
            },
            _ => LoopRunnerAction::Nothing,
        }
    }
}

} // verus!
