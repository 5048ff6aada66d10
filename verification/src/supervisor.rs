//! The supervisor of the running role tasks and the handle that cancels all
//! of them.

use crate::error::Error;
use vstd::prelude::*;

verus! {

/// The four roles that the client keeps alive.
#[derive(Clone, Copy, Debug, PartialEq, Eq, Structural)]
pub enum RoleKind {
    Upstream,
    Downstream,
    JobDeclarator,
    TemplateReceiver,
}

/// Names one running unit of work: the role it belongs to and the number its
/// spawner gave it.
#[derive(Clone, Copy, Debug, PartialEq, Eq, Structural)]
pub struct TaskHandle {
    pub id: u64,
    pub role: RoleKind,
}

/// A registered task and whether its cancellation was requested.
struct ManagedTask {
    handle: TaskHandle,
    cancelled: bool,
}

/// The right to cancel every task of the supervisor that issued it.
#[derive(Debug)]
pub struct AggregateAbortHandle {
    issued: (),
}

/// Owns the running role tasks and cancels all of them at once.
pub struct TaskSupervisor {
    tasks: Vec<ManagedTask>,
    torn_down: bool,
}

/// A supervisor as a mathematical value: the tasks in the order of their
/// registration, and whether the aggregate handle was used.
pub struct SupervisorModel {
    pub registered: Seq<TaskHandle>,
    pub torn_down: bool,
}

/// What can be done to a supervisor.
pub enum SupervisorOp {
    /// A role hands over a task.
    Register(TaskHandle),
    /// The aggregate handle is used (or dropped).
    AbortAll,
}

impl SupervisorModel {
    /// The supervisor without tasks.
    pub open spec fn empty() -> SupervisorModel {
        SupervisorModel { registered: Seq::empty(), torn_down: false }
    }

    /// The supervisor after one operation. A supervisor that was torn down
    /// takes no further task.
    pub open spec fn apply(self, op: SupervisorOp) -> SupervisorModel {
        match op {
            SupervisorOp::Register(task) => if self.torn_down {
                self
            } else {
                SupervisorModel { registered: self.registered.push(task), ..self }
            },
            SupervisorOp::AbortAll => SupervisorModel { torn_down: true, ..self },
        }
    }

    /// The supervisor after a run of operations, in order.
    pub open spec fn apply_all(self, ops: Seq<SupervisorOp>) -> SupervisorModel
        decreases ops.len(),
    {
        if ops.len() == 0 {
            self
        } else {
            self.apply_all(ops.drop_last()).apply(ops.last())
        }
    }

    /// Whether `task` has been told to stop: it is registered and the
    /// supervisor is torn down.
    pub open spec fn observes_cancellation(self, task: TaskHandle) -> bool {
        self.torn_down && self.registered.contains(task)
    }
}

impl View for TaskSupervisor {
    type V = SupervisorModel;

    open spec fn view(&self) -> SupervisorModel {
        SupervisorModel { registered: self.registered(), torn_down: self.torn_down() }
    }
}

impl TaskSupervisor {
    /// The tasks registered so far, in the order of registration.
    pub closed spec fn registered(&self) -> Seq<TaskHandle> {
        Seq::new(self.tasks@.len(), |i: int| self.tasks@[i].handle)
    }

    /// Whether the aggregate handle was used.
    pub closed spec fn torn_down(&self) -> bool {
        self.torn_down
    }

    /// Whether cancellation was requested of the task in the given place.
    pub closed spec fn cancelled_at(&self, i: int) -> bool
        recommends
            0 <= i < self.registered().len(),
    {
        self.tasks@[i].cancelled
    }

    /// A task is told to stop exactly when the supervisor is torn down.
    pub open spec fn well_formed(&self) -> bool {
        forall|i: int|
            0 <= i < self.registered().len() ==> #[trigger] self.cancelled_at(i)
                == self.torn_down()
    }

    /// Whether `task` has been told to stop: it is registered and the
    /// supervisor is torn down.
    pub open spec fn observes_cancellation(&self, task: TaskHandle) -> bool {
        self@.observes_cancellation(task)
    }

    /// A supervisor without tasks.
    pub fn initialize() -> (s: Self)
        ensures
            s.well_formed(),
            s.registered() == Seq::<TaskHandle>::empty(),
            !s.torn_down(),
            s@ == SupervisorModel::empty(),
    {
        let s = TaskSupervisor { tasks: Vec::new(), torn_down: false };
        proof {
            assert(s.registered() =~= Seq::<TaskHandle>::empty());
        }
        s
    }

    /// Adds a task to the managed set. A supervisor that was torn down can no
    /// longer be reached: it refuses the task and stays as it was.
    pub fn register(&mut self, task: TaskHandle) -> (r: Result<(), Error>)
        requires
            old(self).well_formed(),
        ensures
            final(self).well_formed(),
            final(self)@ == old(self)@.apply(SupervisorOp::Register(task)),
            final(self).torn_down() == old(self).torn_down(),
            old(self).torn_down() ==> r == Err::<(), Error>(Error::SupervisionFailed)
                && final(self).registered() == old(self).registered(),
            !old(self).torn_down() ==> r == Ok::<(), Error>(()) && final(self).registered() == old(self).registered().push(task),
    {
        if self.torn_down {
            return Err(Error::SupervisionFailed);
        }
        self.tasks.push(ManagedTask { handle: task, cancelled: false });
        proof {
            assert(final(self).registered() =~= old(self).registered().push(task));
            assert forall|i: int| 0 <= i < final(self).registered().len() implies #[trigger] final(self).cancelled_at(i) == final(self).torn_down() by {
                if i < old(self).registered().len() {
                    assert(old(self).cancelled_at(i) == old(self).torn_down());
                }
            }
        }
        Ok(())
    }

    /// The handle that cancels every registered task, those registered after
    /// this call included. A supervisor that was torn down has none to give.
    pub fn get_aborter(&self) -> (r: Result<AggregateAbortHandle, Error>)
        ensures
            self.torn_down() ==> r matches Err(Error::SupervisionFailed),
            !self.torn_down() ==> r is Ok,
    {
        if self.torn_down {
            Err(Error::SupervisionFailed)
        } else {
            Ok(AggregateAbortHandle { issued: () })
        }
    }

    /// Uses up the aggregate handle: every registered task is told to stop, and
    /// the set of tasks stays as it is.
    pub fn abort_all(&mut self, handle: AggregateAbortHandle)
        requires
            old(self).well_formed(),
        ensures
            final(self).well_formed(),
            final(self)@ == old(self)@.apply(SupervisorOp::AbortAll),
            final(self).torn_down(),
            final(self).registered() == old(self).registered(),
            forall|i: int| 0 <= i < final(self).registered().len() ==> final(self).cancelled_at(i),
    {
        let n = self.tasks.len();
        let mut i: usize = 0;
        while i < n
            invariant
                i <= n,
                n == self.tasks@.len(),
                self.registered() == old(self).registered(),
                self.torn_down == old(self).torn_down,
                forall|j: int| 0 <= j < i ==> self.tasks@[j].cancelled,
            decreases n - i,
        {
            let task = self.tasks[i].handle;
            self.tasks.set(i, ManagedTask { handle: task, cancelled: true });
            i = i + 1;
            proof {
                assert(self.registered() =~= old(self).registered());
            }
        }
        self.torn_down = true;
    }

    /// Whether the aggregate handle was used.
    pub fn is_torn_down(&self) -> (b: bool)
        ensures
            b == self.torn_down(),
    {
        self.torn_down
    }

    /// How many tasks are registered.
    pub fn task_count(&self) -> (n: usize)
        ensures
            n == self.registered().len(),
    {
        self.tasks.len()
    }

    /// The task registered in place `i`, if there is one.
    pub fn task_at(&self, i: usize) -> (t: Option<TaskHandle>)
        ensures
            t == (if i < self.registered().len() {
                Some(self.registered()[i as int])
            } else {
                None
            }),
    {
        if i < self.tasks.len() {
            Some(self.tasks[i].handle)
        } else {
            None
        }
    }

    /// Whether `task` has been told to stop.
    pub fn is_cancelled(&self, task: TaskHandle) -> (b: bool)
        requires
            self.well_formed(),
        ensures
            b == self.observes_cancellation(task),
    {
        let mut i: usize = 0;
        while i < self.tasks.len()
            invariant
                i <= self.tasks@.len(),
                self.well_formed(),
                self.registered().len() == self.tasks@.len(),
                forall|j: int| 0 <= j < i ==> self.registered()[j] != task,
            decreases self.tasks@.len() - i,
        {
            let t = &self.tasks[i];
            if t.handle == task {
                proof {
                    assert(self.registered()[i as int] == task);
                    assert(self.cancelled_at(i as int) == self.torn_down());
                }
                return t.cancelled;
            }
            i = i + 1;
        }
        false
    }
}

/// No task is told to stop before the aggregate handle is used: after any
/// run of registrations, on a supervisor that is not torn down, the
/// supervisor is not torn down, every task of the run is registered, and none
/// observes a cancellation.
pub proof fn lemma_no_cancellation_before_abort(
    m: SupervisorModel,
    ops: Seq<SupervisorOp>,
    task: TaskHandle,
)
    requires
        !m.torn_down,
        forall|i: int| 0 <= i < ops.len() ==> ops[i] is Register,
    ensures
        !m.apply_all(ops).torn_down,
        !m.apply_all(ops).observes_cancellation(task),
        m.apply_all(ops).registered.len() == m.registered.len() + ops.len(),
        forall|i: int|
            0 <= i < ops.len() ==> m.apply_all(ops).registered[m.registered.len() + i]
                == (#[trigger] ops[i])->Register_0,
        forall|i: int|
            0 <= i < m.registered.len() ==> m.apply_all(ops).registered[i] == m.registered[i],
    decreases ops.len(),
{
    if ops.len() > 0 {
        let earlier = ops.drop_last();
        lemma_no_cancellation_before_abort(m, earlier, task);
        assert forall|i: int| 0 <= i < ops.len() implies m.apply_all(ops).registered[m.registered.len()
            + i] == (#[trigger] ops[i])->Register_0 by {
            if i < earlier.len() {
                assert(earlier[i] == ops[i]);
            }
        }
    }
}

/// Once the supervisor is torn down it stays so, and its tasks stay what they
/// were, whatever is done to it afterwards.
pub proof fn lemma_torn_down_is_final(m: SupervisorModel, ops: Seq<SupervisorOp>)
    requires
        m.torn_down,
    ensures
        m.apply_all(ops) == m,
    decreases ops.len(),
{
    if ops.len() > 0 {
        lemma_torn_down_is_final(m, ops.drop_last());
    }
}

/// Doing two runs of operations one after the other is doing both together.
pub proof fn lemma_apply_all_concat(
    m: SupervisorModel,
    first: Seq<SupervisorOp>,
    second: Seq<SupervisorOp>,
)
    ensures
        m.apply_all(first + second) == m.apply_all(first).apply_all(second),
    decreases second.len(),
{
    if second.len() == 0 {
        assert(first + second =~= first);
    } else {
        assert((first + second).drop_last() =~= first + second.drop_last());
        assert((first + second).last() == second.last());
        lemma_apply_all_concat(m, first, second.drop_last());
    }
}

/// Cancellation reaches every task that was registered when the aggregate
/// handle is used, whenever the handle was taken: after any run of operations
/// `before`, the use of the handle, and any run `after`, each task that was
/// registered by `before` observes the cancellation, and the registered tasks
/// are exactly those.
pub proof fn lemma_cancellation_propagates(
    before: Seq<SupervisorOp>,
    after: Seq<SupervisorOp>,
    task: TaskHandle,
)
    ensures
        ({
            let at_abort = SupervisorModel::empty().apply_all(before);
            let end = SupervisorModel::empty().apply_all(before.push(SupervisorOp::AbortAll) + after);
            &&& end.torn_down
            &&& end.registered == at_abort.registered
            &&& end.observes_cancellation(task) == at_abort.registered.contains(task)
        }),
{
    let at_abort = SupervisorModel::empty().apply_all(before);
    let ops = before.push(SupervisorOp::AbortAll);
    assert(ops.drop_last() =~= before);
    lemma_apply_all_concat(SupervisorModel::empty(), ops, after);
    lemma_torn_down_is_final(at_abort.apply(SupervisorOp::AbortAll), after);
}

} // verus!
