//! Health supervision: per-task health flags and the soft countdown that
//! escalates to a hardware reset.
//!
//! Every task reports the outcome of each of its iterations. On every health
//! check the supervisor recomputes whether all tasks are healthy and manages
//! a countdown deadline: the deadline is re-armed while everything is
//! healthy, armed once when the system first turns unhealthy, and never
//! touched while it stays unhealthy. When the deadline has passed in an
//! unhealthy system, the supervisor asks for the hardware reset.
//!
//! Times are milliseconds since boot.

use vstd::prelude::*;

verus! {

/// How long the countdown runs before a reset is asked for.
pub const COUNTDOWN_TIMEOUT_MS: u64 = 520_000;

/// How often task health is checked.
pub const HEALTH_CHECK_INTERVAL_MS: u64 = 60_000;

/// Timeout of the hardware watchdog that performs the actual reset.
pub const HARDWARE_WATCHDOG_TIMEOUT_MS: u64 = 8_000;

/// Number of supervised tasks.
pub const TASK_COUNT: usize = 5;

/// Identifies a supervised task.
#[derive(Debug, Clone, Copy, PartialEq, Eq, Structural)]
pub enum TaskId {
    /// Sensor acquisition.
    Sensor,
    /// Display.
    Display,
    /// Supply-voltage measurement.
    Vsys,
    /// Event orchestration.
    Orchestrator,
    /// Display-mode switching.
    ModeSwitch,
}

impl TaskId {
    /// Position of the task in the health table.
    pub open spec fn index_spec(self) -> int {
        match self {
            TaskId::Sensor => 0,
            TaskId::Display => 1,
            TaskId::Vsys => 2,
            TaskId::Orchestrator => 3,
            TaskId::ModeSwitch => 4,
        }
    }

    /// Position of the task in the health table.
    pub fn index(self) -> (i: usize)
        ensures
            i == self.index_spec(),
            i < TASK_COUNT,
    {
        match self {
            TaskId::Sensor => 0,
            TaskId::Display => 1,
            TaskId::Vsys => 2,
            TaskId::Orchestrator => 3,
            TaskId::ModeSwitch => 4,
        }
    }
}

/// Health flag of one supervised task.
#[derive(Clone, Copy, Debug)]
pub struct TaskHealth {
    /// Whether the task's last iteration succeeded.
    pub is_healthy: bool,
}

impl TaskHealth {
    /// A task starts out unhealthy until it reports its first success.
    pub fn new() -> (health: Self)
        ensures
            !health.is_healthy,
    {
        TaskHealth { is_healthy: false }
    }
}

/// The deadline armed at time `now`: the countdown timeout later.
pub open spec fn deadline_after(now: int) -> int {
    now + COUNTDOWN_TIMEOUT_MS
}

/// The mathematical state of the supervisor.
pub struct HealthState {
    /// Per task, in table order, whether its last iteration succeeded.
    pub tasks: Seq<bool>,
    /// Whether all tasks were healthy at the last check.
    pub all_healthy: bool,
    /// When the countdown expires, once armed.
    pub countdown_deadline: Option<int>,
}

impl HealthState {
    /// The state at start-up: every task unhealthy, no countdown armed.
    pub open spec fn initial() -> Self {
        HealthState {
            tasks: Seq::new(TASK_COUNT as nat, |i: int| false),
            all_healthy: false,
            countdown_deadline: None,
        }
    }

    /// The table has one flag per task.
    pub open spec fn wf(self) -> bool {
        self.tasks.len() == TASK_COUNT
    }

    /// Whether every task's flag is set.
    pub open spec fn every_task_healthy(self) -> bool {
        forall|i: int| 0 <= i < self.tasks.len() ==> self.tasks[i]
    }

    /// The state after `task` has reported `healthy`.
    pub open spec fn report(self, task: TaskId, healthy: bool) -> Self {
        HealthState { tasks: self.tasks.update(task.index_spec(), healthy), ..self }
    }

    /// The state after the overall health has been recomputed at time `now`:
    /// the countdown is armed when the system has just become fully healthy,
    /// and when it is unhealthy with no countdown armed yet.
    pub open spec fn update_overall_health(self, now: int) -> Self {
        let healthy = self.every_task_healthy();
        HealthState {
            all_healthy: healthy,
            countdown_deadline: if (healthy && !self.all_healthy) || (!healthy
                && self.countdown_deadline is None) {
                Some(deadline_after(now))
            } else {
                self.countdown_deadline
            },
            ..self
        }
    }

    /// The state after the countdown has been fed at time `now`: a fully
    /// healthy system gets a fresh deadline, any other keeps what it has.
    pub open spec fn reset_countdown(self, now: int) -> Self {
        if self.all_healthy {
            HealthState { countdown_deadline: Some(deadline_after(now)), ..self }
        } else {
            self
        }
    }

    /// Whether the countdown has expired at time `now`.
    pub open spec fn should_trigger_reset(self, now: int) -> bool {
        self.countdown_deadline matches Some(deadline) && now >= deadline
    }

    /// The state after one health check at time `now`.
    pub open spec fn check(self, now: int) -> Self {
        self.update_overall_health(now).reset_countdown(now)
    }

    /// Whether a health check at time `now` asks for the hardware reset: the
    /// system is not fully healthy and its countdown has expired.
    pub open spec fn escalates(self, now: int) -> bool {
        !self.check(now).all_healthy && self.check(now).should_trigger_reset(now)
    }
}

/// The state after health checks at each of `times`, in order, with no report
/// arriving in between.
pub open spec fn after_checks(state: HealthState, times: Seq<int>) -> HealthState
    decreases times.len(),
{
    if times.len() == 0 {
        state
    } else {
        after_checks(state, times.drop_last()).check(times.last())
    }
}

/// `embassy_time::Instant::now`, read as milliseconds since boot through
/// `Instant::as_millis`. Nothing is promised of the value.
#[verifier::external_body]
fn clock_millis() -> (now: u64) {
    embassy_time::Instant::now().as_millis()
}

/// The supervisor's record: one health flag per task, the aggregate, and the
/// countdown deadline. The deadline is kept in a type wide enough for the
/// timeout added to any time, so that it is never cut short.
pub struct SystemHealth {
    tasks: [TaskHealth; 5],
    all_healthy: bool,
    countdown_deadline: Option<u128>,
}

impl SystemHealth {
    /// The mathematical state of this record.
    pub closed spec fn view(&self) -> HealthState {
        HealthState {
            tasks: Seq::new(TASK_COUNT as nat, |i: int| self.tasks[i].is_healthy),
            all_healthy: self.all_healthy,
            countdown_deadline: match self.countdown_deadline {
                Some(deadline) => Some(deadline as int),
                None => None,
            },
        }
    }

    /// A record with every task unhealthy and no countdown armed.
    pub fn new() -> (health: Self)
        ensures
            health@ == HealthState::initial(),
            health@.wf(),
    {
        let health = SystemHealth {
            tasks: [TaskHealth::new();5],
            all_healthy: false,
            countdown_deadline: None,
        };
        assert(health@.tasks =~= HealthState::initial().tasks);
        health
    }

    /// Every view has one flag per task.
    pub proof fn lemma_view_wf(&self)
        ensures
            self@.wf(),
    {
    }

    /// Records that `task_id` succeeded.
    pub fn set_task_succeeded(&mut self, task_id: TaskId)
        ensures
            final(self)@ == old(self)@.report(task_id, true),
    {
        let index = task_id.index();
        self.tasks[index] = TaskHealth { is_healthy: true };
        assert(self@.tasks =~= old(self)@.report(task_id, true).tasks);
    }

    /// Records that `task_id` failed.
    pub fn set_task_failed(&mut self, task_id: TaskId)
        ensures
            final(self)@ == old(self)@.report(task_id, false),
    {
        let index = task_id.index();
        self.tasks[index] = TaskHealth { is_healthy: false };
        assert(self@.tasks =~= old(self)@.report(task_id, false).tasks);
    }

    /// Whether every task's flag is set.
    fn every_task_healthy(&self) -> (healthy: bool)
        ensures
            healthy == self@.every_task_healthy(),
    {
        let mut healthy = true;
        let mut i: usize = 0;
        while i < TASK_COUNT
            invariant
                i <= TASK_COUNT,
                healthy == (forall|j: int| 0 <= j < i ==> self@.tasks[j]),
            decreases TASK_COUNT - i,
        {
            assert(self@.tasks[i as int] == self.tasks[i as int].is_healthy);
            if !self.tasks[i].is_healthy {
                healthy = false;
            }
            i = i + 1;
        }
        healthy
    }

    /// The deadline armed at `now`.
    fn deadline_from(now: u64) -> (deadline: u128)
        ensures
            deadline == deadline_after(now as int),
    {
        now as u128 + COUNTDOWN_TIMEOUT_MS as u128
    }

    /// Recomputes the overall health at time `now` and arms the countdown
    /// where that is due.
    pub fn update_overall_health_at(&mut self, now: u64)
        ensures
            final(self)@ == old(self)@.update_overall_health(now as int),
    {
        let was_all_healthy = self.all_healthy;
        self.all_healthy = self.every_task_healthy();
        if self.all_healthy && !was_all_healthy {
            self.countdown_deadline = Some(Self::deadline_from(now));
        } else if !self.all_healthy && self.countdown_deadline.is_none() {
            self.countdown_deadline = Some(Self::deadline_from(now));
        }
        assert(self@.tasks =~= old(self)@.tasks);
    }

    /// Recomputes the overall health at the current time.
    pub fn update_overall_health(&mut self)
        ensures
            exists|now: u64| final(self)@ == old(self)@.update_overall_health(now as int),
    {
        let now = clock_millis();
        self.update_overall_health_at(now);
    }

    /// Feeds the countdown at time `now`: re-arms it if all tasks are healthy.
    pub fn reset_countdown_at(&mut self, now: u64)
        ensures
            final(self)@ == old(self)@.reset_countdown(now as int),
    {
        if self.all_healthy {
            self.countdown_deadline = Some(Self::deadline_from(now));
        }
        assert(self@.tasks =~= old(self)@.tasks);
    }

    /// Feeds the countdown at the current time.
    pub fn reset_countdown(&mut self)
        ensures
            exists|now: u64| final(self)@ == old(self)@.reset_countdown(now as int),
    {
        let now = clock_millis();
        self.reset_countdown_at(now);
    }

    /// Whether the countdown has expired at time `now`.
    pub fn should_trigger_reset_at(&self, now: u64) -> (expired: bool)
        ensures
            expired == self@.should_trigger_reset(now as int),
    {
        match self.countdown_deadline {
            Some(deadline) => now as u128 >= deadline,
            None => false,
        }
    }

    /// Whether the countdown has expired at the current time.
    pub fn should_trigger_reset(&self) -> (expired: bool)
        ensures
            exists|now: u64| expired == self@.should_trigger_reset(now as int),
    {
        let now = clock_millis();
        self.should_trigger_reset_at(now)
    }

    /// Whether all tasks were healthy at the last check.
    pub fn all_healthy(&self) -> (healthy: bool)
        ensures
            healthy == self@.all_healthy,
    {
        self.all_healthy
    }

    /// One health check at time `now`: recomputes the overall health, feeds
    /// the countdown if all is well, and returns whether the hardware reset
    /// is to be started.
    pub fn check_at(&mut self, now: u64) -> (escalate: bool)
        ensures
            final(self)@ == old(self)@.check(now as int),
            escalate == old(self)@.escalates(now as int),
    {
        self.update_overall_health_at(now);
        if self.all_healthy {
            self.reset_countdown_at(now);
        }
        !self.all_healthy && self.should_trigger_reset_at(now)
    }

    /// One health check at the current time.
    pub fn check(&mut self) -> (escalate: bool)
        ensures
            exists|now: u64|
                final(self)@ == old(self)@.check(now as int) && escalate == old(self)@.escalates(
                    now as int,
                ),
    {
        let now = clock_millis();
        self.check_at(now)
    }
}

/// Records a successful iteration of `task_id` in `health`.
pub fn report_task_success(health: &mut SystemHealth, task_id: TaskId)
    ensures
        final(health)@ == old(health)@.report(task_id, true),
{
    health.set_task_succeeded(task_id);
}

/// Records a failed iteration of `task_id` in `health`.
pub fn report_task_failure(health: &mut SystemHealth, task_id: TaskId)
    ensures
        final(health)@ == old(health)@.report(task_id, false),
{
    health.set_task_failed(task_id);
}

/// Reporting is idempotent, touches no other task's flag and leaves the
/// countdown alone.
pub proof fn lemma_report_idempotent(state: HealthState, task: TaskId, healthy: bool)
    requires
        state.wf(),
    ensures
        state.report(task, healthy).report(task, healthy) == state.report(task, healthy),
        state.report(task, healthy).wf(),
        state.report(task, healthy).tasks[task.index_spec()] == healthy,
        forall|i: int|
            0 <= i < TASK_COUNT && i != task.index_spec() ==> state.report(task, healthy).tasks[i]
                == state.tasks[i],
        state.report(task, healthy).countdown_deadline == state.countdown_deadline,
        state.report(task, healthy).all_healthy == state.all_healthy,
{
    assert(state.report(task, healthy).report(task, healthy).tasks =~= state.report(
        task,
        healthy,
    ).tasks);
}

/// While some task stays unhealthy, a health check arms the countdown if none
/// is armed and otherwise leaves the deadline exactly where it is; it asks
/// for the reset exactly when the deadline has passed.
pub proof fn lemma_unhealthy_check_keeps_deadline(state: HealthState, now: int)
    requires
        state.wf(),
        !state.every_task_healthy(),
    ensures
        !state.check(now).all_healthy,
        state.check(now).tasks == state.tasks,
        state.countdown_deadline is Some ==> state.check(now).countdown_deadline
            == state.countdown_deadline,
        state.countdown_deadline is None ==> state.check(now).countdown_deadline == Some(
            deadline_after(now),
        ),
        state.escalates(now) <==> state.check(now).should_trigger_reset(now),
{
}

/// With the task flags held constant and some task unhealthy, the countdown
/// deadline, once armed, is never re-armed: after any further health checks,
/// whenever they happen, it is still the same deadline. Every check at or
/// after the deadline asks for the reset, and none before it does.
pub proof fn lemma_unhealthy_deadline_never_rearmed(state: HealthState, times: Seq<int>, now: int)
    requires
        state.wf(),
        !state.every_task_healthy(),
        state.countdown_deadline is Some,
    ensures
        after_checks(state, times).countdown_deadline == state.countdown_deadline,
        after_checks(state, times).tasks == state.tasks,
        !after_checks(state, times).every_task_healthy(),
        after_checks(state, times).escalates(now) <==> now >= state.countdown_deadline->Some_0,
    decreases times.len(),
{
    if times.len() > 0 {
        lemma_unhealthy_deadline_never_rearmed(state, times.drop_last(), now);
        lemma_unhealthy_check_keeps_deadline(
            after_checks(state, times.drop_last()),
            times.last(),
        );
    }
    lemma_unhealthy_check_keeps_deadline(after_checks(state, times), now);
}

/// An expired countdown stays expired as time goes on.
pub proof fn lemma_expired_stays_expired(state: HealthState, now: int, later: int)
    requires
        state.should_trigger_reset(now),
        now <= later,
    ensures
        state.should_trigger_reset(later),
{
}

/// A health check that finds every task healthy re-arms the countdown a full
/// timeout ahead, so the countdown has not expired at the time of the check
/// nor at any time before the new deadline, and no reset is asked for.
pub proof fn lemma_healthy_check_never_resets(state: HealthState, now: int)
    requires
        state.wf(),
        state.every_task_healthy(),
    ensures
        state.check(now).all_healthy,
        state.check(now).countdown_deadline == Some(deadline_after(now)),
        !state.check(now).should_trigger_reset(now),
        forall|t: int| t < deadline_after(now) ==> !state.check(now).should_trigger_reset(t),
        !state.escalates(now),
        state.check(now).every_task_healthy(),
{
}

/// Whatever the time, a check that finds every task healthy does not ask for
/// the hardware reset.
pub proof fn lemma_healthy_never_escalates(state: HealthState, now: int)
    requires
        state.every_task_healthy(),
    ensures
        !state.escalates(now),
{
}

/// Health checks change no task's flag.
pub proof fn lemma_checks_keep_flags(state: HealthState, times: Seq<int>)
    ensures
        after_checks(state, times).tasks == state.tasks,
        after_checks(state, times).every_task_healthy() == state.every_task_healthy(),
        state.wf() ==> after_checks(state, times).wf(),
    decreases times.len(),
{
    if times.len() > 0 {
        lemma_checks_keep_flags(state, times.drop_last());
    }
}

/// While every task stays healthy, health checks at whatever times, however
/// many, keep feeding the countdown: after each check the deadline lies a
/// full timeout after that check, the countdown has not expired at the time
/// of the check, and the check does not ask for the reset.
pub proof fn lemma_healthy_checks_never_reset(state: HealthState, times: Seq<int>)
    requires
        state.wf(),
        state.every_task_healthy(),
        times.len() > 0,
    ensures
        after_checks(state, times).all_healthy,
        after_checks(state, times).countdown_deadline == Some(
            times.last() + COUNTDOWN_TIMEOUT_MS,
        ),
        !after_checks(state, times).should_trigger_reset(times.last()),
        !after_checks(state, times.drop_last()).escalates(times.last()),
{
    lemma_checks_keep_flags(state, times.drop_last());
    lemma_healthy_check_never_resets(after_checks(state, times.drop_last()), times.last());
}

} // verus!
