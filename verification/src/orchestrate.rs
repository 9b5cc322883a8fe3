//! The environment-orchestration state machine: a fixed three-step lifecycle
//! sequence (bring shared services up, initialize the environment, bring the
//! environment up), each step a separate external-process invocation judged
//! solely on its exit status. The sequence halts at the first failing step;
//! no later step is ever attempted after a failure, and no rollback is
//! issued. The surrounding binary spawns the processes and feeds each exit
//! status back into `advance`.

use vstd::prelude::*;

verus! {

/// The three lifecycle steps, in the order they run.
#[derive(Clone, Copy, PartialEq, Eq, Structural, Debug)]
pub enum StepKind {
    /// Start the shared backing services (global scope).
    ServicesUp,
    /// Initialize the environment definition inside the target directory;
    /// answers the tool's confirmation prompt programmatically.
    Initialized,
    /// Bring the environment itself online inside the target directory.
    Up,
}

/// The orchestrator's state: one state per completed step, plus the two
/// terminal states (`Up` on full success, `Failed` from any state).
#[derive(Clone, Copy, PartialEq, Eq, Structural, Debug)]
pub enum OrchestrationState {
    NotStarted,
    ServicesUp,
    Initialized,
    Up,
    Failed { at: StepKind, exit_status: i32 },
}

/// The outcome of one executed step.
#[derive(Clone, Copy, PartialEq, Eq, Structural, Debug)]
pub enum OrchestrationResult {
    Succeeded,
    Failed { exit_status: i32 },
}

/// The step that must run next from a given state, if any.
pub open spec fn pending_step(s: OrchestrationState) -> Option<StepKind> {
    match s {
        OrchestrationState::NotStarted => Some(StepKind::ServicesUp),
        OrchestrationState::ServicesUp => Some(StepKind::Initialized),
        OrchestrationState::Initialized => Some(StepKind::Up),
        OrchestrationState::Up => None,
        OrchestrationState::Failed { .. } => None,
    }
}

/// The state reached when a step completes successfully.
pub open spec fn completed_state(k: StepKind) -> OrchestrationState {
    match k {
        StepKind::ServicesUp => OrchestrationState::ServicesUp,
        StepKind::Initialized => OrchestrationState::Initialized,
        StepKind::Up => OrchestrationState::Up,
    }
}

/// One transition of the machine: the pending step exits with `code`.
/// A terminal state absorbs every further code.
pub open spec fn advance_model(s: OrchestrationState, code: i32) -> OrchestrationState {
    match pending_step(s) {
        Some(k) => if code == 0 {
            completed_state(k)
        } else {
            OrchestrationState::Failed { at: k, exit_status: code }
        },
        None => s,
    }
}

/// The state after feeding a whole sequence of exit codes to the machine.
pub open spec fn run_model(s: OrchestrationState, codes: Seq<i32>) -> OrchestrationState
    decreases codes.len(),
{
    if codes.len() == 0 {
        s
    } else {
        run_model(advance_model(s, codes[0]), codes.drop_first())
    }
}

/// How many steps actually run when the codes are fed in: the machine stops
/// consuming codes once it reaches a terminal state.
pub open spec fn steps_attempted(s: OrchestrationState, codes: Seq<i32>) -> int
    decreases codes.len(),
{
    if codes.len() == 0 || pending_step(s) is None {
        0
    } else {
        1 + steps_attempted(advance_model(s, codes[0]), codes.drop_first())
    }
}

impl OrchestrationState {
    /// The step that must run next, if the machine is not in a terminal state.
    pub fn next_step(&self) -> (r: Option<StepKind>)
        ensures
            r == pending_step(*self),
    {
        match self {
            OrchestrationState::NotStarted => Some(StepKind::ServicesUp),
            OrchestrationState::ServicesUp => Some(StepKind::Initialized),
            OrchestrationState::Initialized => Some(StepKind::Up),
            OrchestrationState::Up => None,
            OrchestrationState::Failed { .. } => None,
        }
    }

    /// Feed the exit status of the pending step into the machine.
    pub fn advance(self, exit_status: i32) -> (r: OrchestrationState)
        ensures
            r == advance_model(self, exit_status),
    {
        match self.next_step() {
            Some(k) => {
                if exit_status == 0 {
                    match k {
                        StepKind::ServicesUp => OrchestrationState::ServicesUp,
                        StepKind::Initialized => OrchestrationState::Initialized,
                        StepKind::Up => OrchestrationState::Up,
                    }
                } else {
                    OrchestrationState::Failed { at: k, exit_status }
                }
            },
            None => self,
        }
    }
}

/// Run the whole lifecycle sequence against a given sequence of exit codes
/// (code `i` is what the `i`-th attempted step's process would exit with).
/// Returns the per-step outcomes, in execution order, and the final state.
/// Steps past the first failure are never attempted, so no outcome is
/// recorded for them.
pub fn run_lifecycle(codes: &Vec<i32>) -> (r: (Vec<OrchestrationResult>, OrchestrationState))
    ensures
        r.1 == run_model(OrchestrationState::NotStarted, codes@),
        r.0@.len() == steps_attempted(OrchestrationState::NotStarted, codes@),
        forall|i: int| 0 <= i < r.0@.len() ==> r.0@[i] == (if codes@[i] == 0 {
            OrchestrationResult::Succeeded
        } else {
            OrchestrationResult::Failed { exit_status: codes@[i] }
        }),
{
    let mut state = OrchestrationState::NotStarted;
    let mut results: Vec<OrchestrationResult> = Vec::new();
    let mut i: usize = 0;
    proof {
        assert(codes@.subrange(0, codes@.len() as int) =~= codes@);
    }
    while i < codes.len() && state.next_step().is_some()
        invariant
            i <= codes@.len(),
            results@.len() == i,
            run_model(OrchestrationState::NotStarted, codes@) == run_model(
                state,
                codes@.subrange(i as int, codes@.len() as int),
            ),
            steps_attempted(OrchestrationState::NotStarted, codes@) == i + steps_attempted(
                state,
                codes@.subrange(i as int, codes@.len() as int),
            ),
            forall|j: int| 0 <= j < i ==> results@[j] == (if codes@[j] == 0 {
                OrchestrationResult::Succeeded
            } else {
                OrchestrationResult::Failed { exit_status: codes@[j] }
            }),
        decreases codes@.len() - i,
    {
        let code = codes[i];
        let ghost rest = codes@.subrange(i as int, codes@.len() as int);
        if code == 0 {
            results.push(OrchestrationResult::Succeeded);
        } else {
            results.push(OrchestrationResult::Failed { exit_status: code });
        }
        state = state.advance(code);
        i += 1;
        proof {
            assert(rest[0] == codes@[i - 1]);
            assert(rest.drop_first() =~= codes@.subrange(i as int, codes@.len() as int));
        }
    }
    proof {
        let rest = codes@.subrange(i as int, codes@.len() as int);
        if i == codes@.len() {
            assert(rest.len() == 0);
        } else {
            lemma_terminal_state_absorbs(state, rest);
        }
    }
    (results, state)
}

/// A terminal state (`Up` or `Failed`) absorbs every further exit code:
/// the state never changes again and no further step runs.
pub proof fn lemma_terminal_state_absorbs(s: OrchestrationState, codes: Seq<i32>)
    requires
        pending_step(s) is None,
    ensures
        run_model(s, codes) == s,
        steps_attempted(s, codes) == 0,
    decreases codes.len(),
{
    if codes.len() > 0 {
        lemma_terminal_state_absorbs(s, codes.drop_first());
    }
}

impl StepKind {
    /// The step's name, as reported in failure messages.
    pub fn name(&self) -> (r: &'static str)
        ensures
            *self is ServicesUp ==> r@ == "ServicesUp"@,
            *self is Initialized ==> r@ == "Initialized"@,
            *self is Up ==> r@ == "Up"@,
    {
        match self {
            StepKind::ServicesUp => "ServicesUp",
            StepKind::Initialized => "Initialized",
            StepKind::Up => "Up",
        }
    }
}

/// One external invocation of the lifecycle sequence: the program, its
/// arguments, the directory it runs in (none for the global services step),
/// and whether its interactive prompt must be answered programmatically.
pub struct OrchestrationStep {
    pub step: StepKind,
    pub program: String,
    pub args: Vec<String>,
    pub working_directory: Option<String>,
    pub requires_prompt_answer: bool,
}

/// The line written to the initialization step's input channel immediately
/// after launch, so that its confirmation prompt never blocks on a human.
pub fn prompt_answer() -> (r: &'static str)
    ensures
        r@ == "y\n"@,
{
    "y\n"
}

/// The fixed three-step lifecycle sequence, resolved against the target
/// directory and its base name: `warden svc up` (global), `warden env-init
/// <name> magento2` inside the target directory with an auto-answered
/// prompt, then `warden env up` inside the target directory.
pub fn lifecycle_steps(target_directory: &str, directory_name: &str) -> (v: Vec<OrchestrationStep>)
    ensures
        v@.len() == 3,
        v@[0].step is ServicesUp,
        v@[0].program@ == "warden"@,
        v@[0].args@.len() == 2,
        v@[0].args@[0]@ == "svc"@,
        v@[0].args@[1]@ == "up"@,
        v@[0].working_directory is None,
        !v@[0].requires_prompt_answer,
        v@[1].step is Initialized,
        v@[1].program@ == "warden"@,
        v@[1].args@.len() == 3,
        v@[1].args@[0]@ == "env-init"@,
        v@[1].args@[1]@ == directory_name@,
        v@[1].args@[2]@ == "magento2"@,
        (v@[1].working_directory matches Some(d) && d@ == target_directory@),
        v@[1].requires_prompt_answer,
        v@[2].step is Up,
        v@[2].program@ == "warden"@,
        v@[2].args@.len() == 2,
        v@[2].args@[0]@ == "env"@,
        v@[2].args@[1]@ == "up"@,
        (v@[2].working_directory matches Some(d) && d@ == target_directory@),
        !v@[2].requires_prompt_answer,
{
    let mut services_args: Vec<String> = Vec::new();
    services_args.push(String::from_str("svc"));
    services_args.push(String::from_str("up"));
    let services = OrchestrationStep {
        step: StepKind::ServicesUp,
        program: String::from_str("warden"),
        args: services_args,
        working_directory: None,
        requires_prompt_answer: false,
    };
    let mut init_args: Vec<String> = Vec::new();
    init_args.push(String::from_str("env-init"));
    init_args.push(String::from_str(directory_name));
    init_args.push(String::from_str("magento2"));
    let init = OrchestrationStep {
        step: StepKind::Initialized,
        program: String::from_str("warden"),
        args: init_args,
        working_directory: Some(String::from_str(target_directory)),
        requires_prompt_answer: true,
    };
    let mut up_args: Vec<String> = Vec::new();
    up_args.push(String::from_str("env"));
    up_args.push(String::from_str("up"));
    let up = OrchestrationStep {
        step: StepKind::Up,
        program: String::from_str("warden"),
        args: up_args,
        working_directory: Some(String::from_str(target_directory)),
        requires_prompt_answer: false,
    };
    let mut v: Vec<OrchestrationStep> = Vec::new();
    v.push(services);
    v.push(init);
    v.push(up);
    v
}

/// Short-circuit law: if the services start cleanly but the initialization
/// step's process exits non-zero, the machine ends in `Failed` at
/// `Initialized` and only two steps run, so the final `Up` step is never
/// invoked.
pub proof fn lemma_short_circuit_on_init_failure(codes: Seq<i32>)
    requires
        codes.len() >= 2,
        codes[0] == 0,
        codes[1] != 0,
    ensures
        run_model(OrchestrationState::NotStarted, codes) == (OrchestrationState::Failed {
            at: StepKind::Initialized,
            exit_status: codes[1],
        }),
        steps_attempted(OrchestrationState::NotStarted, codes) == 2,
{
    let after_services = advance_model(OrchestrationState::NotStarted, codes[0]);
    assert(after_services == OrchestrationState::ServicesUp);
    let rest1 = codes.drop_first();
    assert(rest1[0] == codes[1]);
    let failed = OrchestrationState::Failed { at: StepKind::Initialized, exit_status: codes[1] };
    assert(advance_model(after_services, rest1[0]) == failed);
    assert(run_model(OrchestrationState::NotStarted, codes) == run_model(after_services, rest1));
    assert(run_model(after_services, rest1) == run_model(failed, rest1.drop_first()));
    assert(steps_attempted(OrchestrationState::NotStarted, codes) == 1 + steps_attempted(
        after_services,
        rest1,
    ));
    assert(steps_attempted(after_services, rest1) == 1 + steps_attempted(
        failed,
        rest1.drop_first(),
    ));
    lemma_terminal_state_absorbs(failed, rest1.drop_first());
}

} // verus!
