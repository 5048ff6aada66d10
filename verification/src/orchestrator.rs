//! The startup sequence of the four roles, as a state machine: the caller does
//! the outside work of each step and reports how it went, the orchestrator
//! decides what comes next, registers the tasks and records a failure.

use crate::error::Error;
use crate::registry::{DownstreamState, DownstreamType, ProxyState};
use crate::supervisor::{AggregateAbortHandle, RoleKind, TaskHandle, TaskSupervisor};
use vstd::prelude::*;

verus! {

/// How many solutions may wait between the downstream and the template
/// receiver before the downstream is held back.
pub const SOLUTION_CHANNEL_CAPACITY: usize = 10;

/// The step of the startup sequence that is under way, or how the sequence
/// ended.
#[derive(Clone, Copy, Debug, PartialEq, Eq, Structural)]
pub enum StartupStage {
    /// The upstream role is being constructed.
    ConstructUpstream,
    /// The template provider's address, the pool's address and the operator's
    /// key are being resolved.
    ResolveConfiguration,
    /// The job declarator is being constructed; its task is expected.
    ConstructJobDeclarator,
    /// The downstream is being started; its task is expected.
    StartDownstream,
    /// The downstream is being attached to the upstream.
    AttachDownstream,
    /// The upstream's message processing is being started; its task is
    /// expected.
    StartUpstream,
    /// The template receiver is being connected; its task is expected.
    ConnectTemplateReceiver,
    /// All four roles run.
    Running,
    /// A step failed; no further role is launched.
    Failed,
}

/// How the step under way went.
#[derive(Clone, Debug, PartialEq, Eq)]
pub enum StepOutcome {
    /// The step is done and started no task.
    Completed,
    /// The step is done and started the task with this number.
    Spawned(u64),
    /// The step failed.
    Failed(Error),
}

impl StartupStage {
    /// Whether the sequence has ended.
    pub open spec fn is_terminal(self) -> bool {
        self == StartupStage::Running || self == StartupStage::Failed
    }

    /// The role whose task a step starts, for the steps that start one.
    pub open spec fn spawned_role(self) -> Option<RoleKind> {
        match self {
            StartupStage::ConstructJobDeclarator => Some(RoleKind::JobDeclarator),
            StartupStage::StartDownstream => Some(RoleKind::Downstream),
            StartupStage::StartUpstream => Some(RoleKind::Upstream),
            StartupStage::ConnectTemplateReceiver => Some(RoleKind::TemplateReceiver),
            _ => None,
        }
    }

    /// The step that follows a step that went well.
    pub open spec fn following(self) -> StartupStage {
        match self {
            StartupStage::ConstructUpstream => StartupStage::ResolveConfiguration,
            StartupStage::ResolveConfiguration => StartupStage::ConstructJobDeclarator,
            StartupStage::ConstructJobDeclarator => StartupStage::StartDownstream,
            StartupStage::StartDownstream => StartupStage::AttachDownstream,
            StartupStage::AttachDownstream => StartupStage::StartUpstream,
            StartupStage::StartUpstream => StartupStage::ConnectTemplateReceiver,
            StartupStage::ConnectTemplateReceiver => StartupStage::Running,
            StartupStage::Running => StartupStage::Running,
            StartupStage::Failed => StartupStage::Failed,
        }
    }

    /// The role whose task this step starts, if it starts one.
    pub fn role(self) -> (r: Option<RoleKind>)
        ensures
            r == self.spawned_role(),
    {
        match self {
            StartupStage::ConstructJobDeclarator => Some(RoleKind::JobDeclarator),
            StartupStage::StartDownstream => Some(RoleKind::Downstream),
            StartupStage::StartUpstream => Some(RoleKind::Upstream),
            StartupStage::ConnectTemplateReceiver => Some(RoleKind::TemplateReceiver),
            _ => None,
        }
    }

    /// The step that follows this one when it went well.
    pub fn next(self) -> (s: StartupStage)
        ensures
            s == self.following(),
    {
        match self {
            StartupStage::ConstructUpstream => StartupStage::ResolveConfiguration,
            StartupStage::ResolveConfiguration => StartupStage::ConstructJobDeclarator,
            StartupStage::ConstructJobDeclarator => StartupStage::StartDownstream,
            StartupStage::StartDownstream => StartupStage::AttachDownstream,
            StartupStage::AttachDownstream => StartupStage::StartUpstream,
            StartupStage::StartUpstream => StartupStage::ConnectTemplateReceiver,
            StartupStage::ConnectTemplateReceiver => StartupStage::Running,
            StartupStage::Running => StartupStage::Running,
            StartupStage::Failed => StartupStage::Failed,
        }
    }
}

/// The startup as a mathematical value: the step under way, the tasks
/// registered so far, whether they were told to stop, and the health record.
pub struct StartupModel {
    pub stage: StartupStage,
    pub registered: Seq<TaskHandle>,
    pub torn_down: bool,
    pub proxy: ProxyState,
}

/// The startup before its first step.
pub open spec fn initial_model() -> StartupModel {
    StartupModel {
        stage: StartupStage::ConstructUpstream,
        registered: Seq::empty(),
        torn_down: false,
        proxy: ProxyState::all_up(),
    }
}

/// The startup after the aggregate handle was used: the same, torn down.
pub open spec fn after_cancel(m: StartupModel) -> StartupModel {
    StartupModel { torn_down: true, ..m }
}

/// Whether `task` has been told to stop: it is registered and the aggregate
/// handle was used.
pub open spec fn told_to_stop(m: StartupModel, task: TaskHandle) -> bool {
    m.torn_down && m.registered.contains(task)
}

/// The failed startup that `m` becomes; where it is the downstream that failed
/// to start, the health record says so.
pub open spec fn failed(m: StartupModel, downstream_down: bool) -> StartupModel {
    StartupModel {
        stage: StartupStage::Failed,
        proxy: if downstream_down {
            m.proxy.with_downstream(DownstreamState::Down(DownstreamType::JdClientMiningDownstream))
        } else {
            m.proxy
        },
        ..m
    }
}

/// One transition of the startup. A startup that has ended stays as it is.
/// A failed step ends it. A step that went well is followed by the next one,
/// its task, if it started one, registered under the role of the step; the
/// registration fails where the supervisor was torn down meanwhile. An outcome
/// of the wrong kind for the step (a task where none is started, or none where
/// one is) ends the startup too.
pub open spec fn step(m: StartupModel, o: StepOutcome) -> StartupModel {
    if m.stage.is_terminal() {
        m
    } else {
        match o {
            StepOutcome::Failed(_) => failed(m, m.stage == StartupStage::StartDownstream),
            StepOutcome::Spawned(id) => match m.stage.spawned_role() {
                Some(role) if !m.torn_down => StartupModel {
                    stage: m.stage.following(),
                    registered: m.registered.push(TaskHandle { id, role }),
                    ..m
                },
                _ => failed(m, false),
            },
            StepOutcome::Completed => match m.stage.spawned_role() {
                None => StartupModel { stage: m.stage.following(), ..m },
                Some(_) => failed(m, false),
            },
        }
    }
}

/// The error with which a step that is under way ends the startup, if it does.
pub open spec fn step_error(m: StartupModel, o: StepOutcome) -> Option<Error> {
    if m.stage.is_terminal() {
        None
    } else {
        match o {
            StepOutcome::Failed(e) => if m.stage == StartupStage::StartDownstream {
                Some(Error::Unrecoverable)
            } else {
                Some(e)
            },
            StepOutcome::Spawned(_) => match m.stage.spawned_role() {
                Some(_) => if m.torn_down {
                    Some(Error::SupervisionFailed)
                } else {
                    None
                },
                None => Some(Error::Unrecoverable),
            },
            StepOutcome::Completed => match m.stage.spawned_role() {
                None => None,
                Some(_) => Some(Error::Unrecoverable),
            },
        }
    }
}

/// What the orchestrator answers to the outcome of a step: the error that
/// ends the startup, or else the step to perform next. A startup that had
/// failed before has nothing left to perform.
pub open spec fn answer(m: StartupModel, o: StepOutcome) -> Result<StartupStage, Error> {
    if m.stage == StartupStage::Failed {
        Err(Error::Unrecoverable)
    } else {
        match step_error(m, o) {
            Some(e) => Err(e),
            None => Ok(step(m, o).stage),
        }
    }
}

/// The startup after the outcomes of its steps, taken in order. Outcomes that
/// come after the end are not looked at.
pub open spec fn run(m: StartupModel, outcomes: Seq<StepOutcome>) -> StartupModel
    decreases outcomes.len(),
{
    if outcomes.len() == 0 {
        m
    } else {
        run(step(m, outcomes[0]), outcomes.skip(1))
    }
}

/// The error that ends the startup under the given outcomes, if one does: that
/// of the first step that fails.
pub open spec fn run_error(m: StartupModel, outcomes: Seq<StepOutcome>) -> Option<Error>
    decreases outcomes.len(),
{
    if outcomes.len() == 0 {
        None
    } else {
        match step_error(m, outcomes[0]) {
            Some(e) => Some(e),
            None => run_error(step(m, outcomes[0]), outcomes.skip(1)),
        }
    }
}

/// The startup routine: launches the four roles one after the other and keeps
/// their tasks under one supervisor.
pub struct RoleOrchestrator {
    stage: StartupStage,
    supervisor: TaskSupervisor,
    proxy: ProxyState,
}

impl View for RoleOrchestrator {
    type V = StartupModel;

    closed spec fn view(&self) -> StartupModel {
        StartupModel {
            stage: self.stage,
            registered: self.supervisor.registered(),
            torn_down: self.supervisor.torn_down(),
            proxy: self.proxy,
        }
    }
}

impl RoleOrchestrator {
    /// The supervisor's own invariant holds.
    pub closed spec fn well_formed(&self) -> bool {
        self.supervisor.well_formed()
    }

    /// Whether `task` has been told to stop.
    pub open spec fn observes_cancellation(&self, task: TaskHandle) -> bool {
        told_to_stop(self@, task)
    }

    /// Sets up the supervisor and hands out, before any role is launched, the
    /// handle that cancels whatever will be registered.
    pub fn begin() -> (r: (RoleOrchestrator, AggregateAbortHandle))
        ensures
            r.0.well_formed(),
            r.0@ == initial_model(),
    {
        let supervisor = TaskSupervisor::initialize();
        let aborter = supervisor.get_aborter().unwrap();
        let orchestrator = RoleOrchestrator {
            stage: StartupStage::ConstructUpstream,
            supervisor,
            proxy: ProxyState::new(),
        };
        (orchestrator, aborter)
    }

    /// The step under way.
    pub fn stage(&self) -> (s: StartupStage)
        ensures
            s == self@.stage,
    {
        self.stage
    }

    /// The health record.
    pub fn proxy_state(&self) -> (p: ProxyState)
        ensures
            p == self@.proxy,
    {
        self.proxy
    }

    /// How many tasks are registered.
    pub fn task_count(&self) -> (n: usize)
        ensures
            n == self@.registered.len(),
    {
        self.supervisor.task_count()
    }

    /// The task registered in place `i`, if there is one.
    pub fn task_at(&self, i: usize) -> (t: Option<TaskHandle>)
        ensures
            t == (if i < self@.registered.len() {
                Some(self@.registered[i as int])
            } else {
                None
            }),
    {
        self.supervisor.task_at(i)
    }

    /// Whether `task` has been told to stop.
    pub fn is_cancelled(&self, task: TaskHandle) -> (b: bool)
        requires
            self.well_formed(),
        ensures
            b == self.observes_cancellation(task),
    {
        self.supervisor.is_cancelled(task)
    }

    /// Uses up the aggregate handle: every registered task is told to stop.
    /// Nothing else changes.
    pub fn cancel(&mut self, handle: AggregateAbortHandle)
        requires
            old(self).well_formed(),
        ensures
            final(self).well_formed(),
            final(self)@ == after_cancel(old(self)@),
    {
        self.supervisor.abort_all(handle);
    }

    /// Ends the startup as failed.
    fn fail(&mut self, downstream_down: bool)
        requires
            old(self).well_formed(),
        ensures
            final(self).well_formed(),
            final(self)@ == failed(old(self)@, downstream_down),
    {
        if downstream_down {
            self.proxy.update_downstream_state(
                DownstreamState::Down(DownstreamType::JdClientMiningDownstream),
            );
        }
        self.stage = StartupStage::Failed;
    }

    /// Takes the outcome of the step under way and moves on. The answer is
    /// the step to perform next (`Running` when there is none left), or the
    /// error that ended the startup. A startup that had ended before the call
    /// stays as it was.
    pub fn advance(&mut self, outcome: StepOutcome) -> (r: Result<StartupStage, Error>)
        requires
            old(self).well_formed(),
        ensures
            final(self).well_formed(),
            final(self)@ == step(old(self)@, outcome),
            r == answer(old(self)@, outcome),
            r is Ok ==> r == Ok::<StartupStage, Error>(final(self)@.stage) && final(self)@.stage
                != StartupStage::Failed,
            r is Err ==> final(self)@.stage == StartupStage::Failed,
    {
        match self.stage {
            StartupStage::Running => {
                return Ok(StartupStage::Running);
            },
            StartupStage::Failed => {
                return Err(Error::Unrecoverable);
            },
            _ => {},
        }
        let downstream_starting = self.stage == StartupStage::StartDownstream;
        match outcome {
            StepOutcome::Failed(e) => {
                self.fail(downstream_starting);
                if downstream_starting {
                    Err(Error::Unrecoverable)
                } else {
                    Err(e)
                }
            },
            StepOutcome::Spawned(id) => match self.stage.role() {
                Some(role) => match self.supervisor.register(TaskHandle { id, role }) {
                    Ok(_) => {
                        self.stage = self.stage.next();
                        Ok(self.stage)
                    },
                    Err(e) => {
                        self.fail(false);
                        Err(e)
                    },
                },
                None => {
                    self.fail(false);
                    Err(Error::Unrecoverable)
                },
            },
            StepOutcome::Completed => match self.stage.role() {
                None => {
                    self.stage = self.stage.next();
                    Ok(self.stage)
                },
                Some(_) => {
                    self.fail(false);
                    Err(Error::Unrecoverable)
                },
            },
        }
    }
}

/// What a whole startup leaves: the orchestrator with the tasks that were
/// registered, the handle that cancels them, and how the sequence went.
pub struct Startup {
    pub orchestrator: RoleOrchestrator,
    pub aborter: AggregateAbortHandle,
    pub result: Result<StartupStage, Error>,
}

/// Starts the client on the outcomes of the steps of its startup, in order:
/// see `initialize_jd`.
pub fn start(outcomes: Vec<StepOutcome>) -> (s: Startup)
    ensures
        s.orchestrator.well_formed(),
        s.orchestrator@ == run(initial_model(), outcomes@),
        s.result == (match run_error(initial_model(), outcomes@) {
            Some(e) => Err::<StartupStage, Error>(e),
            None => Ok::<StartupStage, Error>(s.orchestrator@.stage),
        }),
{
    initialize_jd(outcomes)
}

/// Runs the startup sequence on the outcomes of its steps, in order, and stops
/// at the first step that fails. The result is the error of that step, or else
/// the stage that was reached: `Running` where the outcomes cover all steps.
/// Whatever the result, the tasks registered before a failure stay registered
/// and the handle that cancels them is handed out.
pub fn initialize_jd(outcomes: Vec<StepOutcome>) -> (s: Startup)
    ensures
        s.orchestrator.well_formed(),
        s.orchestrator@ == run(initial_model(), outcomes@),
        s.result == (match run_error(initial_model(), outcomes@) {
            Some(e) => Err::<StartupStage, Error>(e),
            None => Ok::<StartupStage, Error>(s.orchestrator@.stage),
        }),
{
    let (mut orchestrator, aborter) = RoleOrchestrator::begin();
    let mut rest = outcomes;
    let mut result: Result<StartupStage, Error> = Ok(orchestrator.stage());
    while rest.len() > 0
        invariant
            orchestrator.well_formed(),
            orchestrator@.stage != StartupStage::Failed,
            result == Ok::<StartupStage, Error>(orchestrator@.stage),
            run(orchestrator@, rest@) == run(initial_model(), outcomes@),
            run_error(orchestrator@, rest@) == run_error(initial_model(), outcomes@),
        decreases rest.len(),
    {
        let ghost before = orchestrator@;
        let ghost pending = rest@;
        let outcome = rest.remove(0);
        proof {
            assert(rest@ =~= pending.skip(1));
            assert(outcome == pending[0]);
        }
        result = orchestrator.advance(outcome);
        if result.is_err() {
            proof {
                lemma_failed_is_final(orchestrator@, rest@);
            }
            return Startup { orchestrator, aborter, result };
        }
    }
    Startup { orchestrator, aborter, result }
}

/// A startup that has ended is not changed by further outcomes, and they add
/// no error.
pub proof fn lemma_failed_is_final(m: StartupModel, outcomes: Seq<StepOutcome>)
    requires
        m.stage.is_terminal(),
    ensures
        run(m, outcomes) == m,
        run_error(m, outcomes) == None::<Error>,
    decreases outcomes.len(),
{
    if outcomes.len() > 0 {
        lemma_failed_is_final(m, outcomes.skip(1));
    }
}

/// Running on two runs of outcomes, one after the other, is running on both
/// together.
pub proof fn lemma_run_concat(m: StartupModel, first: Seq<StepOutcome>, second: Seq<StepOutcome>)
    ensures
        run(m, first + second) == run(run(m, first), second),
    decreases first.len(),
{
    if first.len() == 0 {
        assert(first + second =~= second);
    } else {
        assert((first + second).skip(1) =~= first.skip(1) + second);
        assert((first + second)[0] == first[0]);
        lemma_run_concat(step(m, first[0]), first.skip(1), second);
    }
}

/// No step takes a task away or tells one to stop: the tasks registered
/// before a step are the first of those registered after it, and a step that
/// fails registers none.
pub proof fn lemma_step_keeps_tasks(m: StartupModel, o: StepOutcome)
    ensures
        m.registered.is_prefix_of(step(m, o).registered),
        step(m, o).torn_down == m.torn_down,
        step_error(m, o) is Some ==> step(m, o).registered == m.registered && step(m, o).stage
            == StartupStage::Failed,
        step_error(m, o) is None && !m.stage.is_terminal() ==> step(m, o).stage
            == m.stage.following(),
{
}

/// The same of a whole run.
pub proof fn lemma_run_keeps_tasks(m: StartupModel, outcomes: Seq<StepOutcome>)
    ensures
        m.registered.is_prefix_of(run(m, outcomes).registered),
        run(m, outcomes).torn_down == m.torn_down,
    decreases outcomes.len(),
{
    if outcomes.len() > 0 {
        lemma_step_keeps_tasks(m, outcomes[0]);
        lemma_run_keeps_tasks(step(m, outcomes[0]), outcomes.skip(1));
    }
}

/// A failure is contained. Where the steps `good` went well and the next step
/// fails, the startup ends as failed with that step's error, whatever is
/// reported later; the tasks that the good steps registered are all still
/// registered, none of them was told to stop, and once the aggregate handle
/// is used every one of them is.
pub proof fn lemma_failure_keeps_earlier_roles(
    good: Seq<StepOutcome>,
    bad: StepOutcome,
    later: Seq<StepOutcome>,
)
    requires
        run_error(initial_model(), good) is None,
        step_error(run(initial_model(), good), bad) is Some,
    ensures
        run(initial_model(), good.push(bad) + later).stage == StartupStage::Failed,
        run(initial_model(), good.push(bad) + later).registered == run(
            initial_model(),
            good,
        ).registered,
        !run(initial_model(), good.push(bad) + later).torn_down,
        run_error(initial_model(), good.push(bad) + later) == step_error(
            run(initial_model(), good),
            bad,
        ),
        forall|i: int|
            0 <= i < run(initial_model(), good).registered.len() ==> {
                let task = #[trigger] run(initial_model(), good).registered[i];
                &&& !told_to_stop(run(initial_model(), good.push(bad) + later), task)
                &&& told_to_stop(after_cancel(run(initial_model(), good.push(bad) + later)), task)
            },
{
    let m = initial_model();
    let reached = run(m, good);
    let all = good.push(bad) + later;
    assert(all =~= good + (seq![bad] + later));
    lemma_run_concat(m, good, seq![bad] + later);
    assert((seq![bad] + later).skip(1) =~= later);
    assert((seq![bad] + later)[0] == bad);
    lemma_step_keeps_tasks(reached, bad);
    lemma_failed_is_final(step(reached, bad), later);
    lemma_run_keeps_tasks(m, good);
    lemma_run_error_concat(m, good, seq![bad] + later);
}

/// The error of two runs of outcomes taken together is that of the first,
/// or, where the first has none, that of the second.
pub proof fn lemma_run_error_concat(
    m: StartupModel,
    first: Seq<StepOutcome>,
    second: Seq<StepOutcome>,
)
    ensures
        run_error(m, first + second) == (match run_error(m, first) {
            Some(e) => Some(e),
            None => run_error(run(m, first), second),
        }),
    decreases first.len(),
{
    if first.len() == 0 {
        assert(first + second =~= second);
    } else {
        assert((first + second).skip(1) =~= first.skip(1) + second);
        assert((first + second)[0] == first[0]);
        lemma_run_error_concat(step(m, first[0]), first.skip(1), second);
    }
}

/// The health record changes in one way only: a downstream that fails to
/// start is recorded as down, under its own kind. No step changes the record
/// of another role, and no other outcome changes the record at all.
pub proof fn lemma_step_health_record(m: StartupModel, o: StepOutcome)
    ensures
        step(m, o).proxy.upstream == m.proxy.upstream,
        step(m, o).proxy.job_declarator == m.proxy.job_declarator,
        step(m, o).proxy.template_receiver == m.proxy.template_receiver,
        m.stage == StartupStage::StartDownstream && o is Failed ==> step(m, o).proxy.downstream
            == DownstreamState::Down(DownstreamType::JdClientMiningDownstream),
        !(m.stage == StartupStage::StartDownstream && o is Failed) ==> step(m, o).proxy == m.proxy,
{
}

/// The same of a whole run: the records of the other roles are those of the
/// beginning, and the downstream's is that of the beginning or says that the
/// client's downstream is down.
pub proof fn lemma_run_health_record(m: StartupModel, outcomes: Seq<StepOutcome>)
    ensures
        run(m, outcomes).proxy.upstream == m.proxy.upstream,
        run(m, outcomes).proxy.job_declarator == m.proxy.job_declarator,
        run(m, outcomes).proxy.template_receiver == m.proxy.template_receiver,
        run(m, outcomes).proxy.downstream == m.proxy.downstream || run(m, outcomes).proxy.downstream
            == DownstreamState::Down(DownstreamType::JdClientMiningDownstream),
    decreases outcomes.len(),
{
    if outcomes.len() > 0 {
        lemma_step_health_record(m, outcomes[0]);
        lemma_run_health_record(step(m, outcomes[0]), outcomes.skip(1));
    }
}

/// A startup fails exactly when one of its steps ends it with an error.
pub proof fn lemma_error_iff_failed(m: StartupModel, outcomes: Seq<StepOutcome>)
    requires
        m.stage != StartupStage::Failed,
    ensures
        run_error(m, outcomes) is Some <==> run(m, outcomes).stage == StartupStage::Failed,
    decreases outcomes.len(),
{
    if outcomes.len() > 0 {
        let next = step(m, outcomes[0]);
        if step_error(m, outcomes[0]) is Some {
            lemma_failed_is_final(next, outcomes.skip(1));
        } else {
            lemma_error_iff_failed(next, outcomes.skip(1));
        }
    }
}

/// The outcomes of a startup in which every step goes well, the four tasks
/// numbered as given.
pub open spec fn all_steps_well(
    job_declarator: u64,
    downstream: u64,
    upstream: u64,
    template_receiver: u64,
) -> Seq<StepOutcome> {
    seq![
        StepOutcome::Completed,
        StepOutcome::Completed,
        StepOutcome::Spawned(job_declarator),
        StepOutcome::Spawned(downstream),
        StepOutcome::Completed,
        StepOutcome::Spawned(upstream),
        StepOutcome::Spawned(template_receiver),
    ]
}

/// Where every step goes well the client runs: there is no error, the four
/// tasks are registered in the order in which their roles were launched (job
/// declarator, downstream, upstream, template receiver), and every role is
/// recorded as up.
pub proof fn lemma_startup_that_goes_well(
    job_declarator: u64,
    downstream: u64,
    upstream: u64,
    template_receiver: u64,
)
    ensures
        ({
            let outcomes = all_steps_well(job_declarator, downstream, upstream, template_receiver);
            let end = run(initial_model(), outcomes);
            &&& end.stage == StartupStage::Running
            &&& run_error(initial_model(), outcomes) is None
            &&& end.registered == seq![
                TaskHandle { id: job_declarator, role: RoleKind::JobDeclarator },
                TaskHandle { id: downstream, role: RoleKind::Downstream },
                TaskHandle { id: upstream, role: RoleKind::Upstream },
                TaskHandle { id: template_receiver, role: RoleKind::TemplateReceiver },
            ]
            &&& !end.torn_down
            &&& end.proxy == ProxyState::all_up()
        }),
{
    let o0 = all_steps_well(job_declarator, downstream, upstream, template_receiver);
    let o1 = o0.skip(1);
    let o2 = o1.skip(1);
    let o3 = o2.skip(1);
    let o4 = o3.skip(1);
    let o5 = o4.skip(1);
    let o6 = o5.skip(1);
    let o7 = o6.skip(1);
    let m0 = initial_model();
    let m1 = step(m0, o0[0]);
    let m2 = step(m1, o1[0]);
    let m3 = step(m2, o2[0]);
    let m4 = step(m3, o3[0]);
    let m5 = step(m4, o4[0]);
    let m6 = step(m5, o5[0]);
    let m7 = step(m6, o6[0]);
    assert(o7.len() == 0);
    assert(run(m7, o7) == m7);
    assert(run(m6, o6) == m7);
    assert(run(m5, o5) == m7);
    assert(run(m4, o4) == m7);
    assert(run(m3, o3) == m7);
    assert(run(m2, o2) == m7);
    assert(run(m1, o1) == m7);
    assert(run(m0, o0) == m7);
    assert(m7.registered =~= seq![
        TaskHandle { id: job_declarator, role: RoleKind::JobDeclarator },
        TaskHandle { id: downstream, role: RoleKind::Downstream },
        TaskHandle { id: upstream, role: RoleKind::Upstream },
        TaskHandle { id: template_receiver, role: RoleKind::TemplateReceiver },
    ]);
    lemma_error_iff_failed(m0, o0);
}

} // verus!
