//! Host-mode scheduler model for tasks, priorities, budgets, and yielding.
//!
//! Scheduling is cooperative and deterministic: every round the runnable task
//! with the highest score runs, and the ready tasks that were passed over age.
//! State transitions are reported through return values so callers can bridge
//! them to audit and trace systems.
use vstd::prelude::*;

use crate::capability::{CapabilitySet, TaskId};
use crate::error::{KernelError, KernelResult};
use crate::slots::Slot;

verus! {

/// Maximum task slots in the host-mode scheduler.
pub const MAX_TASKS: usize = 64;

/// Default priority used when a caller does not specify one.
pub const DEFAULT_PRIORITY: u8 = 32;

/// Task lifecycle states.
#[derive(Clone, Copy, Debug, Eq, PartialEq, Structural)]
pub enum TaskState {
    /// Task is allocated but not yet runnable.
    New,
    /// Task is runnable and waiting in the run queue.
    Ready,
    /// Task is currently executing.
    Running,
    /// Task is blocked on an explicit wait queue.
    Blocked,
    /// Task is sleeping until a wake tick.
    Sleeping,
    /// Task is administratively suspended.
    Suspended,
    /// Task is exiting and releasing resources.
    Exiting,
    /// Task is terminal and waiting to be joined.
    Zombie,
}

/// Scheduling classes defined by the kernel architecture.
#[derive(Clone, Copy, Debug, Eq, PartialEq, Structural)]
pub enum SchedulerClass {
    /// Kernel-owned work.
    Kernel,
    /// Runtime services.
    Runtime,
    /// Interactive user-facing work.
    Interactive,
    /// Cognitive model, memory, or planning work.
    Cognitive,
    /// Low-priority background work.
    Background,
    /// Audit and security evidence flushing.
    Audit,
}

impl SchedulerClass {
    /// The score each class starts from.
    pub open spec fn spec_boost(self) -> u32 {
        match self {
            SchedulerClass::Audit => 96,
            SchedulerClass::Kernel => 80,
            SchedulerClass::Runtime => 48,
            SchedulerClass::Interactive => 32,
            SchedulerClass::Cognitive => 16,
            SchedulerClass::Background => 0,
        }
    }

    /// Class boost used by the deterministic host-mode scheduler.
    pub fn boost(self) -> (boost: u32)
        ensures
            boost == self.spec_boost(),
    {
        match self {
            Self::Audit => 96,
            Self::Kernel => 80,
            Self::Runtime => 48,
            Self::Interactive => 32,
            Self::Cognitive => 16,
            Self::Background => 0,
        }
    }
}

/// Budget associated with CPU or cognitive work.
#[derive(Clone, Copy, Debug, Eq, PartialEq, Structural)]
pub struct BudgetAccount {
    /// Maximum ticks this budget may consume.
    pub max_ticks: u64,
    /// Remaining ticks before the budget is exhausted.
    pub remaining_ticks: u64,
    /// Absolute scheduler tick deadline, or zero when none is set.
    pub deadline_tick: u64,
}

impl BudgetAccount {
    /// The budget without ceiling or deadline.
    pub open spec fn spec_unlimited() -> BudgetAccount {
        BudgetAccount { max_ticks: 0, remaining_ticks: 0, deadline_tick: 0 }
    }

    /// Whether a deadline is set and `now` has reached it.
    pub open spec fn expired_at(self, now: u64) -> bool {
        self.deadline_tick != 0 && now >= self.deadline_tick
    }

    /// Whether a tick ceiling is set and used up.
    pub open spec fn exhausted(self) -> bool {
        self.max_ticks != 0 && self.remaining_ticks == 0
    }

    /// The budget after one tick that it can afford.
    pub open spec fn consumed(self) -> BudgetAccount {
        if self.max_ticks == 0 {
            self
        } else {
            BudgetAccount { remaining_ticks: (self.remaining_ticks - 1) as u64, ..self }
        }
    }

    /// Unbounded budget for non-cognitive or bootstrap work.
    pub fn unlimited() -> (budget: Self)
        ensures
            budget == Self::spec_unlimited(),
    {
        Self { max_ticks: 0, remaining_ticks: 0, deadline_tick: 0 }
    }

    /// Creates a bounded budget.
    pub fn bounded(max_ticks: u64, deadline_tick: u64) -> (result: KernelResult<Self>)
        ensures
            max_ticks == 0 && deadline_tick == 0 ==> result == Err::<Self, KernelError>(
                KernelError::InvalidArgument,
            ),
            max_ticks != 0 || deadline_tick != 0 ==> result == Ok::<Self, KernelError>(
                BudgetAccount { max_ticks, remaining_ticks: max_ticks, deadline_tick },
            ),
    {
        if max_ticks == 0 && deadline_tick == 0 {
            return Err(KernelError::InvalidArgument);
        }
        Ok(Self { max_ticks, remaining_ticks: max_ticks, deadline_tick })
    }

    /// Returns `true` when the budget has no ceiling or deadline.
    pub fn is_unbounded(self) -> (unbounded: bool)
        ensures
            unbounded == (self.max_ticks == 0 && self.deadline_tick == 0),
    {
        self.max_ticks == 0 && self.deadline_tick == 0
    }

    /// Returns `true` when the deadline has passed.
    pub fn deadline_expired(self, now: u64) -> (expired: bool)
        ensures
            expired == self.expired_at(now),
    {
        self.deadline_tick != 0 && now >= self.deadline_tick
    }

    /// Consumes one scheduler tick if the budget is bounded.
    pub fn consume_tick(&mut self) -> (result: KernelResult<()>)
        ensures
            old(self).exhausted() ==> {
                &&& result == Err::<(), KernelError>(KernelError::DeadlineExceeded)
                &&& *final(self) == *old(self)
            },
            !old(self).exhausted() ==> {
                &&& result == Ok::<(), KernelError>(())
                &&& *final(self) == old(self).consumed()
            },
    {
        if self.max_ticks == 0 {
            return Ok(());
        }
        if self.remaining_ticks == 0 {
            return Err(KernelError::DeadlineExceeded);
        }
        self.remaining_ticks -= 1;
        Ok(())
    }
}

/// The priority that aging gives a task: one step above its base for every
/// four rounds of age. The bonus is kept in eight bits, and the sum stops at
/// the highest priority.
pub open spec fn aged_priority(base: u8, age: u16) -> u8 {
    let bonus = (age / 4) % 256;
    if base + bonus > 255 {
        255
    } else {
        (base + bonus) as u8
    }
}

/// Task control block tracked by the scheduler.
#[derive(Clone, Copy, Debug, Eq, PartialEq, Structural)]
pub struct TaskControlBlock {
    /// Stable task identifier.
    pub id: TaskId,
    /// Parent task identifier, or zero when absent.
    pub parent_id: TaskId,
    /// Current task lifecycle state.
    pub state: TaskState,
    /// Scheduling class.
    pub class: SchedulerClass,
    /// Base priority assigned by the creator.
    pub base_priority: u8,
    /// Dynamic priority after aging.
    pub dynamic_priority: u8,
    /// Relative weight for round-robin simulation.
    pub weight: u16,
    /// Number of scheduling rounds spent ready without running.
    pub age: u16,
    /// CPU or cognitive budget.
    pub budget: BudgetAccount,
    /// Capabilities attached to the task.
    pub capabilities: CapabilitySet,
    /// Number of times the task was selected.
    pub context_switches: u64,
}

impl TaskControlBlock {
    /// A freshly spawned, ready task.
    pub open spec fn spec_new(
        id: TaskId,
        parent_id: TaskId,
        class: SchedulerClass,
        priority: u8,
        capabilities: CapabilitySet,
        budget: BudgetAccount,
    ) -> TaskControlBlock {
        TaskControlBlock {
            id,
            parent_id,
            state: TaskState::Ready,
            class,
            base_priority: priority,
            dynamic_priority: priority,
            weight: 1,
            age: 0,
            budget,
            capabilities,
            context_switches: 0,
        }
    }

    /// Whether the task may be selected.
    pub open spec fn runnable(self) -> bool {
        self.state == TaskState::Ready || self.state == TaskState::Running
    }

    /// What the task scores in the round of a tick.
    pub open spec fn score_at(self, tick: u64) -> int {
        self.dynamic_priority + self.weight + self.class.spec_boost() + self.age + if self.budget.expired_at(tick) {
            128int
        } else {
            0int
        }
    }

    /// The task after it was selected to run.
    pub open spec fn selected(self) -> TaskControlBlock {
        TaskControlBlock {
            state: TaskState::Running,
            age: 0,
            dynamic_priority: self.base_priority,
            context_switches: (self.context_switches + 1) as u64,
            ..self
        }
    }

    /// The task after another one was selected: if it was running it is ready
    /// again, if it was ready it ages, else it stays as it is.
    pub open spec fn passed_over(self) -> TaskControlBlock {
        if self.state == TaskState::Running {
            TaskControlBlock { state: TaskState::Ready, ..self }
        } else if self.state == TaskState::Ready {
            let age = if self.age == u16::MAX {
                u16::MAX
            } else {
                (self.age + 1) as u16
            };
            TaskControlBlock { age, dynamic_priority: aged_priority(self.base_priority, age), ..self }
        } else {
            self
        }
    }

    /// The task after a round in which the task `selected_id` was selected.
    pub open spec fn after_round(self, selected_id: TaskId) -> TaskControlBlock {
        if self.id == selected_id {
            self.selected()
        } else {
            self.passed_over()
        }
    }

    /// The task after it gave up the processor: one tick of its budget is
    /// spent, and it is ready if it was running.
    pub open spec fn yielded(self) -> TaskControlBlock {
        TaskControlBlock {
            budget: self.budget.consumed(),
            state: if self.state == TaskState::Running {
                TaskState::Ready
            } else {
                self.state
            },
            ..self
        }
    }

    /// The task with another state.
    pub open spec fn in_state(self, state: TaskState) -> TaskControlBlock {
        TaskControlBlock { state, ..self }
    }

    /// Empty sentinel used to initialize task slots.
    pub fn empty() -> (task: Self)
        ensures
            task.id == 0,
            task.parent_id == 0,
            task.state == TaskState::Zombie,
            task.class == SchedulerClass::Background,
            task.base_priority == 0,
            task.dynamic_priority == 0,
            task.weight == 0,
            task.age == 0,
            task.budget == BudgetAccount::spec_unlimited(),
            task.capabilities == CapabilitySet::spec_empty(),
            task.context_switches == 0,
    {
        Self {
            id: 0,
            parent_id: 0,
            state: TaskState::Zombie,
            class: SchedulerClass::Background,
            base_priority: 0,
            dynamic_priority: 0,
            weight: 0,
            age: 0,
            budget: BudgetAccount::unlimited(),
            capabilities: CapabilitySet::empty(),
            context_switches: 0,
        }
    }

    /// Creates a runnable task control block.
    pub fn new(
        id: TaskId,
        parent_id: TaskId,
        class: SchedulerClass,
        priority: u8,
        capabilities: CapabilitySet,
        budget: BudgetAccount,
    ) -> (task: Self)
        ensures
            task == Self::spec_new(id, parent_id, class, priority, capabilities, budget),
    {
        Self {
            id,
            parent_id,
            state: TaskState::Ready,
            class,
            base_priority: priority,
            dynamic_priority: priority,
            weight: 1,
            age: 0,
            budget,
            capabilities,
            context_switches: 0,
        }
    }

    /// Returns `true` when the task is eligible to run now.
    pub fn is_runnable(self) -> (runnable: bool)
        ensures
            runnable == self.runnable(),
    {
        matches!(self.state, TaskState::Ready | TaskState::Running)
    }
}

#[derive(Clone, Copy, Debug, Eq, PartialEq, Structural)]
struct TaskSlot {
    occupied: bool,
    task: TaskControlBlock,
}

/// State transition record suitable for audit handoff.
#[derive(Clone, Copy, Debug, Eq, PartialEq, Structural)]
pub struct TaskStateTransition {
    /// Task whose state changed.
    pub task_id: TaskId,
    /// Previous state.
    pub from: TaskState,
    /// New state.
    pub to: TaskState,
}

/// Whether the task at `i` is the first with an identifier.
pub open spec fn is_first_task(tasks: Seq<TaskControlBlock>, task_id: TaskId, i: int) -> bool {
    &&& 0 <= i < tasks.len()
    &&& tasks[i].id == task_id
    &&& forall|j: int| 0 <= j < i ==> (#[trigger] tasks[j]).id != task_id
}

/// Index of the first task with an identifier, if there is one.
pub open spec fn first_task(tasks: Seq<TaskControlBlock>, task_id: TaskId) -> Option<int> {
    if exists|i: int| is_first_task(tasks, task_id, i) {
        Some(choose|i: int| is_first_task(tasks, task_id, i))
    } else {
        None
    }
}

/// An identifier is found exactly when some task has it, and at its first
/// occurrence.
pub proof fn lemma_first_task(tasks: Seq<TaskControlBlock>, task_id: TaskId)
    ensures
        match first_task(tasks, task_id) {
            Some(i) => is_first_task(tasks, task_id, i),
            None => forall|i: int| 0 <= i < tasks.len() ==> (#[trigger] tasks[i]).id != task_id,
        },
        forall|i: int| #[trigger]
            is_first_task(tasks, task_id, i) ==> first_task(tasks, task_id) == Some(i),
    decreases tasks.len(),
{
    if tasks.len() > 0 {
        let rest = tasks.drop_last();
        lemma_first_task(rest, task_id);
        match first_task(rest, task_id) {
            Some(i) => {
                assert(forall|j: int| 0 <= j <= i ==> rest[j] == tasks[j]);
                assert(is_first_task(tasks, task_id, i));
            },
            None => {
                assert(forall|j: int| 0 <= j < rest.len() ==> rest[j] == tasks[j]);
                if tasks.last().id == task_id {
                    assert(is_first_task(tasks, task_id, tasks.len() - 1));
                }
            },
        }
    }
}

/// Why a task cannot be inserted among others, if it cannot.
pub open spec fn insert_error(
    tasks: Seq<TaskControlBlock>,
    task: TaskControlBlock,
) -> Option<KernelError> {
    if task.id == 0 {
        Some(KernelError::InvalidArgument)
    } else if first_task(tasks, task.id) is Some {
        Some(KernelError::Duplicate)
    } else if tasks.len() >= MAX_TASKS {
        Some(KernelError::CapacityExceeded)
    } else {
        None
    }
}

impl Slot for TaskSlot {
    closed spec fn in_use(self) -> bool {
        self.occupied
    }
}

spec fn slot_tasks(slots: Seq<TaskSlot>) -> Seq<TaskControlBlock> {
    Seq::new(crate::slots::filled_len(slots), |i: int| slots[i].task)
}

proof fn lemma_slot_tasks(slots: Seq<TaskSlot>, n: nat)
    requires
        crate::slots::filled(slots, n),
    ensures
        crate::slots::filled_len(slots) == n,
        slot_tasks(slots).len() == n,
        forall|i: int| 0 <= i < n ==> #[trigger] slot_tasks(slots)[i] == slots[i].task,
{
    crate::slots::lemma_filled_len(slots, n);
}

/// Replacing the task of an occupied slot replaces that task in the view.
proof fn lemma_task_update(slots: Seq<TaskSlot>, slot: int, task: TaskControlBlock)
    requires
        crate::slots::filled(slots, crate::slots::filled_len(slots)),
        0 <= slot < crate::slots::filled_len(slots),
    ensures
        crate::slots::filled(
            slots.update(slot, TaskSlot { task, ..slots[slot] }),
            crate::slots::filled_len(slots),
        ),
        slot_tasks(slots.update(slot, TaskSlot { task, ..slots[slot] })) == slot_tasks(
            slots,
        ).update(slot, task),
{
    let n = crate::slots::filled_len(slots);
    let updated = slots.update(slot, TaskSlot { task, ..slots[slot] });
    lemma_slot_tasks(slots, n);
    lemma_slot_tasks(updated, n);
    assert(slot_tasks(updated) =~= slot_tasks(slots).update(slot, task));
}

/// Bounded task run queue.
///
/// The view is the tasks in the order of their insertion.
#[derive(Clone, Debug, Eq, PartialEq)]
pub struct RunQueue {
    slots: [TaskSlot; MAX_TASKS],
}

impl View for RunQueue {
    type V = Seq<TaskControlBlock>;

    closed spec fn view(&self) -> Seq<TaskControlBlock> {
        slot_tasks(self.slots@)
    }
}

impl RunQueue {
    /// Occupied slots come before free ones.
    pub closed spec fn repr_ok(&self) -> bool {
        crate::slots::filled(self.slots@, crate::slots::filled_len(self.slots@))
    }

    /// The queue is in a state its operations can produce.
    pub open spec fn wf(&self) -> bool {
        self.repr_ok() && self@.len() <= MAX_TASKS
    }

    /// Creates an empty run queue.
    pub fn new() -> (queue: Self)
        ensures
            queue.wf(),
            queue@ == Seq::<TaskControlBlock>::empty(),
    {
        let queue = Self {
            slots: [TaskSlot { occupied: false, task: TaskControlBlock::empty() }; MAX_TASKS],
        };
        proof {
            lemma_slot_tasks(queue.slots@, 0);
        }
        queue
    }

    /// Index of the first occupied slot with an identifier, or the capacity
    /// when there is none.
    fn slot_of(&self, task_id: TaskId) -> (slot: usize)
        requires
            self.wf(),
        ensures
            slot <= MAX_TASKS,
            first_task(self@, task_id) == if slot < MAX_TASKS {
                Some(slot as int)
            } else {
                None
            },
            slot < MAX_TASKS ==> slot < crate::slots::filled_len(self.slots@),
    {
        let ghost n = crate::slots::filled_len(self.slots@);
        proof {
            lemma_slot_tasks(self.slots@, n);
            lemma_first_task(self@, task_id);
        }
        let mut slot: usize = 0;
        while slot < MAX_TASKS
            invariant
                slot <= MAX_TASKS,
                crate::slots::filled(self.slots@, n),
                n == self@.len(),
                forall|i: int| 0 <= i < n ==> #[trigger] self@[i] == self.slots@[i].task,
                forall|i: int|
                    0 <= i < slot && i < n ==> (#[trigger] self@[i]).id != task_id,
                forall|i: int| #[trigger]
                    is_first_task(self@, task_id, i) ==> first_task(self@, task_id) == Some(i),
                n == crate::slots::filled_len(self.slots@),
            decreases MAX_TASKS - slot,
        {
            if self.slots[slot].occupied && self.slots[slot].task.id == task_id {
                assert(self@[slot as int].id == task_id);
                assert(is_first_task(self@, task_id, slot as int));
                return slot;
            }
            slot += 1;
        }
        slot
    }

    /// Inserts a task.
    pub fn insert(&mut self, task: TaskControlBlock) -> (result: KernelResult<()>)
        requires
            old(self).wf(),
        ensures
            final(self).wf(),
            match insert_error(old(self)@, task) {
                Some(error) => {
                    &&& result == Err::<(), KernelError>(error)
                    &&& final(self)@ == old(self)@
                },
                None => {
                    &&& result == Ok::<(), KernelError>(())
                    &&& final(self)@ == old(self)@.push(task)
                },
            },
    {
        if task.id == 0 {
            return Err(KernelError::InvalidArgument);
        }
        if self.get(task.id).is_some() {
            return Err(KernelError::Duplicate);
        }
        let ghost n = crate::slots::filled_len(self.slots@);
        proof {
            lemma_slot_tasks(self.slots@, n);
        }
        let mut slot: usize = 0;
        while slot < MAX_TASKS && self.slots[slot].occupied
            invariant
                slot <= MAX_TASKS,
                crate::slots::filled(self.slots@, n),
                slot <= n,
            decreases MAX_TASKS - slot,
        {
            slot += 1;
        }
        if slot == MAX_TASKS {
            return Err(KernelError::CapacityExceeded);
        }
        assert(slot == n);
        self.slots[slot] = TaskSlot { occupied: true, task };
        proof {
            lemma_slot_tasks(self.slots@, n + 1);
            assert(self@ =~= old(self)@.push(task));
        }
        Ok(())
    }

    /// Immutable task lookup.
    pub fn get(&self, task_id: TaskId) -> (found: Option<&TaskControlBlock>)
        requires
            self.wf(),
        ensures
            match first_task(self@, task_id) {
                Some(i) => found == Some(&self@[i]),
                None => found is None,
            },
    {
        let slot: usize = self.slot_of(task_id);
        proof {
            lemma_slot_tasks(self.slots@, crate::slots::filled_len(self.slots@));
        }
        if slot < MAX_TASKS {
            Some(&self.slots[slot].task)
        } else {
            None
        }
    }

    /// Mutable task lookup.
    pub fn get_mut(&mut self, task_id: TaskId) -> (found: Option<&mut TaskControlBlock>)
        requires
            old(self).wf(),
        ensures
            final(self).wf(),
            match first_task(old(self)@, task_id) {
                Some(i) => {
                    &&& found matches Some(task)
                    &&& *task == old(self)@[i]
                    &&& final(self)@ == old(self)@.update(i, *final(task))
                },
                None => found is None && final(self)@ == old(self)@,
            },
    {
        let slot: usize = self.slot_of(task_id);
        let ghost before = self.slots@;
        if slot < MAX_TASKS {
            let task = &mut self.slots[slot].task;
            proof {
                lemma_task_update(before, slot as int, *final(task));
            }
            Some(task)
        } else {
            None
        }
    }

    /// Number of occupied task slots.
    pub fn len(&self) -> (len: usize)
        requires
            self.wf(),
        ensures
            len == self@.len(),
    {
        let ghost n = crate::slots::filled_len(self.slots@);
        proof {
            lemma_slot_tasks(self.slots@, n);
        }
        let mut len: usize = 0;
        let mut slot: usize = 0;
        while slot < MAX_TASKS
            invariant
                slot <= MAX_TASKS,
                crate::slots::filled(self.slots@, n),
                len == if slot < n {
                    slot as int
                } else {
                    n as int
                },
            decreases MAX_TASKS - slot,
        {
            if self.slots[slot].occupied {
                len += 1;
            }
            slot += 1;
        }
        len
    }

    /// Returns `true` when no task slots are occupied.
    pub fn is_empty(&self) -> (empty: bool)
        requires
            self.wf(),
        ensures
            empty == (self@.len() == 0),
    {
        self.len() == 0
    }

    /// Returns references to the tasks, in the order of their insertion.
    pub fn tasks(&self) -> (tasks: Vec<&TaskControlBlock>)
        requires
            self.wf(),
        ensures
            tasks@.len() == self@.len(),
            forall|i: int| 0 <= i < self@.len() ==> *(#[trigger] tasks@[i]) == self@[i],
    {
        let ghost n = crate::slots::filled_len(self.slots@);
        proof {
            lemma_slot_tasks(self.slots@, n);
        }
        let mut tasks: Vec<&TaskControlBlock> = Vec::new();
        let mut slot: usize = 0;
        while slot < MAX_TASKS
            invariant
                slot <= MAX_TASKS,
                crate::slots::filled(self.slots@, n),
                n == self@.len(),
                forall|i: int| 0 <= i < n ==> #[trigger] self@[i] == self.slots@[i].task,
                tasks@.len() == if slot < n {
                    slot as int
                } else {
                    n as int
                },
                forall|i: int| 0 <= i < tasks@.len() ==> *(#[trigger] tasks@[i]) == self@[i],
            decreases MAX_TASKS - slot,
        {
            if self.slots[slot].occupied {
                tasks.push(&self.slots[slot].task);
            }
            slot += 1;
        }
        tasks
    }
}

impl Default for RunQueue {
    fn default() -> (queue: Self)
        ensures
            queue.wf(),
            queue@ == Seq::<TaskControlBlock>::empty(),
    {
        Self::new()
    }
}

/// Whether a task may go from one lifecycle state to another. Any state may
/// end in `Zombie`, and a zombie stays one.
pub open spec fn transition_allowed(from: TaskState, to: TaskState) -> bool {
    match to {
        TaskState::New => false,
        TaskState::Ready => from == TaskState::New || from == TaskState::Running || from
            == TaskState::Suspended || from == TaskState::Blocked || from == TaskState::Sleeping,
        TaskState::Running => from == TaskState::Ready,
        TaskState::Blocked => from == TaskState::Running,
        TaskState::Sleeping => from == TaskState::Running,
        TaskState::Suspended => from == TaskState::Ready,
        TaskState::Exiting => from == TaskState::Running,
        TaskState::Zombie => true,
    }
}

/// Whether `i` is the task to run in the round of `tick`, among the first
/// `bound` tasks: it is runnable, no runnable task scores higher, and those
/// that score the same come after it.
pub open spec fn is_best_among(
    tasks: Seq<TaskControlBlock>,
    tick: u64,
    i: int,
    bound: int,
) -> bool {
    &&& 0 <= i < bound
    &&& tasks[i].runnable()
    &&& forall|j: int|
        0 <= j < bound && (#[trigger] tasks[j]).runnable() ==> {
            &&& tasks[j].score_at(tick) <= tasks[i].score_at(tick)
            &&& j < i ==> tasks[j].score_at(tick) < tasks[i].score_at(tick)
        }
}

/// Whether `i` is the task to run in the round of `tick`.
pub open spec fn is_best(tasks: Seq<TaskControlBlock>, tick: u64, i: int) -> bool {
    is_best_among(tasks, tick, i, tasks.len() as int)
}

/// Index of the task to run in the round of `tick`, if any is runnable.
pub open spec fn best_task(tasks: Seq<TaskControlBlock>, tick: u64) -> Option<int> {
    if exists|i: int| is_best(tasks, tick, i) {
        Some(choose|i: int| is_best(tasks, tick, i))
    } else {
        None
    }
}

/// There is a task to run exactly when some task is runnable, and only one.
pub proof fn lemma_best_task(tasks: Seq<TaskControlBlock>, tick: u64)
    ensures
        match best_task(tasks, tick) {
            Some(i) => is_best(tasks, tick, i),
            None => forall|i: int| 0 <= i < tasks.len() ==> !(#[trigger] tasks[i]).runnable(),
        },
        forall|i: int| #[trigger]
            is_best(tasks, tick, i) ==> best_task(tasks, tick) == Some(i),
    decreases tasks.len(),
{
    if tasks.len() > 0 {
        let rest = tasks.drop_last();
        let last = tasks.len() - 1;
        lemma_best_task(rest, tick);
        assert(forall|j: int| 0 <= j < rest.len() ==> rest[j] == tasks[j]);
        match best_task(rest, tick) {
            Some(i) => {
                if tasks[last].runnable() && tasks[last].score_at(tick) > tasks[i].score_at(
                    tick,
                ) {
                    assert forall|j: int|
                        0 <= j < tasks.len() && (#[trigger] tasks[j]).runnable() implies {
                        &&& tasks[j].score_at(tick) <= tasks[last].score_at(tick)
                        &&& j < last ==> tasks[j].score_at(tick) < tasks[last].score_at(tick)
                    } by {
                        if j < last {
                            assert(rest[j].runnable());
                        }
                    }
                    assert(is_best(tasks, tick, last));
                } else {
                    assert forall|j: int|
                        0 <= j < tasks.len() && (#[trigger] tasks[j]).runnable() implies {
                        &&& tasks[j].score_at(tick) <= tasks[i].score_at(tick)
                        &&& j < i ==> tasks[j].score_at(tick) < tasks[i].score_at(tick)
                    } by {
                        if j < last {
                            assert(rest[j].runnable());
                        }
                    }
                    assert(is_best(tasks, tick, i));
                }
            },
            None => {
                assert forall|j: int| 0 <= j < last implies !(#[trigger] tasks[j]).runnable() by {
                    assert(!rest[j].runnable());
                }
                if tasks[last].runnable() {
                    assert(is_best(tasks, tick, last));
                }
            },
        }
    }
}

/// What a scheduler holds: its tasks in the order they were spawned, the
/// current one, and the counters.
#[verifier::ext_equal]
pub struct SchedulerState {
    pub tasks: Seq<TaskControlBlock>,
    pub current: Option<TaskId>,
    pub next_task_id: u64,
    pub tick: u64,
}

impl SchedulerState {
    /// What every scheduler keeps: identifiers grow in the order of spawning
    /// and stay below the next one, no task was selected more often than there
    /// were rounds, dynamic priorities are those that aging gives, and the
    /// current task exists and is runnable.
    pub open spec fn valid(self) -> bool {
        &&& self.tasks.len() <= MAX_TASKS
        &&& 1 <= self.next_task_id
        &&& forall|i: int|
            0 <= i < self.tasks.len() ==> self.valid_task(#[trigger] self.tasks[i])
        &&& forall|i: int, j: int|
            0 <= i < j < self.tasks.len() ==> (#[trigger] self.tasks[i]).id < (
            #[trigger] self.tasks[j]).id
        &&& self.current matches Some(id) ==> exists|i: int|
            0 <= i < self.tasks.len() && (#[trigger] self.tasks[i]).id == id
                && self.tasks[i].runnable()
    }

    /// What every task of a scheduler keeps.
    pub open spec fn valid_task(self, task: TaskControlBlock) -> bool {
        &&& 1 <= task.id < self.next_task_id
        &&& task.weight == 1
        &&& task.context_switches <= self.tick
        &&& task.dynamic_priority == aged_priority(task.base_priority, task.age)
    }

    /// The scheduler with one task replaced.
    pub open spec fn with_task(self, i: int, task: TaskControlBlock) -> SchedulerState {
        SchedulerState { tasks: self.tasks.update(i, task), ..self }
    }

    /// The current task once `task_id` is in state `to`.
    pub open spec fn current_after(self, task_id: TaskId, to: TaskState) -> Option<TaskId> {
        if to == TaskState::Running {
            Some(task_id)
        } else if self.current == Some(task_id) {
            None
        } else {
            self.current
        }
    }

    /// Why a task cannot be spawned now, if it cannot.
    pub open spec fn spawn_error(self) -> Option<KernelError> {
        if self.next_task_id == u64::MAX {
            Some(KernelError::Internal)
        } else if self.tasks.len() >= MAX_TASKS {
            Some(KernelError::CapacityExceeded)
        } else {
            None
        }
    }

    /// The scheduler after a spawn was attempted. A spawn that finds no room
    /// still uses up its identifier.
    pub open spec fn spawned(
        self,
        parent_id: TaskId,
        class: SchedulerClass,
        priority: u8,
        capabilities: CapabilitySet,
        budget: BudgetAccount,
    ) -> SchedulerState {
        if self.next_task_id == u64::MAX {
            self
        } else if self.tasks.len() >= MAX_TASKS {
            SchedulerState { next_task_id: (self.next_task_id + 1) as u64, ..self }
        } else {
            SchedulerState {
                next_task_id: (self.next_task_id + 1) as u64,
                tasks: self.tasks.push(
                    TaskControlBlock::spec_new(
                        self.next_task_id,
                        parent_id,
                        class,
                        priority,
                        capabilities,
                        budget,
                    ),
                ),
                ..self
            }
        }
    }

    /// What spawning returns.
    pub open spec fn spawn_result(self) -> KernelResult<TaskId> {
        match self.spawn_error() {
            Some(error) => Err(error),
            None => Ok(self.next_task_id),
        }
    }

    /// What moving a task to another state returns.
    pub open spec fn transition_result(self, task_id: TaskId, to: TaskState) -> KernelResult<
        TaskStateTransition,
    > {
        match first_task(self.tasks, task_id) {
            None => Err(KernelError::NotFound),
            Some(i) => if transition_allowed(self.tasks[i].state, to) {
                Ok(TaskStateTransition { task_id, from: self.tasks[i].state, to })
            } else {
                Err(KernelError::InvalidState)
            },
        }
    }

    /// The scheduler after a task was asked to move to another state.
    pub open spec fn transitioned(self, task_id: TaskId, to: TaskState) -> SchedulerState {
        match self.transition_result(task_id, to) {
            Err(_) => self,
            Ok(_) => {
                let i = first_task(self.tasks, task_id).unwrap();
                SchedulerState {
                    tasks: self.tasks.update(i, self.tasks[i].in_state(to)),
                    current: self.current_after(task_id, to),
                    ..self
                }
            },
        }
    }

    /// What cancelling a task returns. A task that is exiting or gone cannot be
    /// cancelled.
    pub open spec fn cancel_result(self, task_id: TaskId) -> KernelResult<TaskStateTransition> {
        match first_task(self.tasks, task_id) {
            None => Err(KernelError::NotFound),
            Some(i) => if self.tasks[i].state == TaskState::Zombie || self.tasks[i].state
                == TaskState::Exiting {
                Err(KernelError::InvalidState)
            } else {
                Ok(
                    TaskStateTransition {
                        task_id,
                        from: self.tasks[i].state,
                        to: TaskState::Zombie,
                    },
                )
            },
        }
    }

    /// The scheduler after a task was asked to be cancelled.
    pub open spec fn cancelled(self, task_id: TaskId) -> SchedulerState {
        match self.cancel_result(task_id) {
            Err(_) => self,
            Ok(_) => self.transitioned(task_id, TaskState::Zombie),
        }
    }

    /// What a scheduling round returns: the task selected, if any was runnable.
    pub open spec fn schedule_result(self) -> KernelResult<Option<TaskId>> {
        if self.tick == u64::MAX {
            Err(KernelError::Internal)
        } else {
            match best_task(self.tasks, (self.tick + 1) as u64) {
                Some(i) => Ok(Some(self.tasks[i].id)),
                None => Ok(None),
            }
        }
    }

    /// The scheduler after a scheduling round.
    pub open spec fn scheduled(self) -> SchedulerState {
        match self.schedule_result() {
            Err(_) => self,
            Ok(None) => SchedulerState { tick: (self.tick + 1) as u64, current: None, ..self },
            Ok(Some(id)) => SchedulerState {
                tasks: Seq::new(self.tasks.len(), |i: int| self.tasks[i].after_round(id)),
                current: Some(id),
                tick: (self.tick + 1) as u64,
                ..self
            },
        }
    }

    /// Whether the current task may yield: there is none, or its budget has
    /// a tick left.
    pub open spec fn may_yield(self) -> bool {
        self.current matches Some(id) ==> {
            let i = first_task(self.tasks, id).unwrap();
            !self.tasks[i].budget.exhausted()
        }
    }

    /// The scheduler after the current task gave up the processor, before the
    /// next round.
    pub open spec fn relinquished(self) -> SchedulerState {
        match self.current {
            Some(id) => {
                let i = first_task(self.tasks, id).unwrap();
                self.with_task(i, self.tasks[i].yielded())
            },
            None => self,
        }
    }

    /// What yielding returns.
    pub open spec fn yield_result(self) -> KernelResult<Option<TaskId>> {
        if self.may_yield() {
            self.relinquished().schedule_result()
        } else {
            Err(KernelError::DeadlineExceeded)
        }
    }

    /// The scheduler after a yield.
    pub open spec fn yielded(self) -> SchedulerState {
        if self.may_yield() {
            self.relinquished().scheduled()
        } else {
            self
        }
    }
}

/// In a valid scheduler an identifier names one task.
proof fn lemma_task_position(state: SchedulerState, i: int)
    requires
        state.valid(),
        0 <= i < state.tasks.len(),
    ensures
        first_task(state.tasks, state.tasks[i].id) == Some(i),
{
    lemma_first_task(state.tasks, state.tasks[i].id);
    assert(is_first_task(state.tasks, state.tasks[i].id, i));
}

proof fn lemma_current_task(state: SchedulerState)
    requires
        state.valid(),
    ensures
        state.current matches Some(id) ==> {
            &&& first_task(state.tasks, id) matches Some(i)
            &&& 0 <= i < state.tasks.len()
            &&& state.tasks[i].id == id
            &&& state.tasks[i].runnable()
        },
{
    if let Some(id) = state.current {
        let i = choose|i: int|
            0 <= i < state.tasks.len() && (#[trigger] state.tasks[i]).id == id
                && state.tasks[i].runnable();
        lemma_task_position(state, i);
    }
}

proof fn lemma_spawned_valid(
    state: SchedulerState,
    parent_id: TaskId,
    class: SchedulerClass,
    priority: u8,
    capabilities: CapabilitySet,
    budget: BudgetAccount,
)
    requires
        state.valid(),
    ensures
        state.spawned(parent_id, class, priority, capabilities, budget).valid(),
{
    let after = state.spawned(parent_id, class, priority, capabilities, budget);
    assert forall|i: int| 0 <= i < after.tasks.len() implies after.valid_task(
        #[trigger] after.tasks[i],
    ) by {
        if i < state.tasks.len() {
            assert(after.tasks[i] == state.tasks[i]);
            assert(state.valid_task(state.tasks[i]));
        }
    }
    assert forall|i: int, j: int| 0 <= i < j < after.tasks.len() implies (
    #[trigger] after.tasks[i]).id < (#[trigger] after.tasks[j]).id by {
        assert(after.tasks[i] == state.tasks[i]);
        assert(state.valid_task(state.tasks[i]));
        if j < state.tasks.len() {
            assert(after.tasks[j] == state.tasks[j]);
        }
    }
    if let Some(id) = after.current {
        lemma_current_task(state);
        let i = first_task(state.tasks, id).unwrap();
        assert(after.tasks[i] == state.tasks[i]);
    }
}

proof fn lemma_transitioned_valid(state: SchedulerState, task_id: TaskId, to: TaskState)
    requires
        state.valid(),
    ensures
        state.transitioned(task_id, to).valid(),
{
    lemma_first_task(state.tasks, task_id);
    let after = state.transitioned(task_id, to);
    if state.transition_result(task_id, to) is Ok {
        let k = first_task(state.tasks, task_id).unwrap();
        assert forall|i: int| 0 <= i < after.tasks.len() implies after.valid_task(
            #[trigger] after.tasks[i],
        ) by {
            assert(state.valid_task(state.tasks[i]));
        }
        if let Some(id) = after.current {
            if to == TaskState::Running {
                assert(after.tasks[k].id == id && after.tasks[k].runnable());
            } else {
                lemma_current_task(state);
                let i = first_task(state.tasks, id).unwrap();
                assert(after.tasks[i].id == id && after.tasks[i].runnable());
            }
        }
    }
}

proof fn lemma_relinquished_valid(state: SchedulerState)
    requires
        state.valid(),
    ensures
        state.relinquished().valid(),
{
    lemma_current_task(state);
    let after = state.relinquished();
    if let Some(id) = state.current {
        let k = first_task(state.tasks, id).unwrap();
        assert forall|i: int| 0 <= i < after.tasks.len() implies after.valid_task(
            #[trigger] after.tasks[i],
        ) by {
            assert(state.valid_task(state.tasks[i]));
        }
        assert(after.tasks[k].id == id && after.tasks[k].runnable());
    }
}

proof fn lemma_scheduled_valid(state: SchedulerState)
    requires
        state.valid(),
    ensures
        state.scheduled().valid(),
{
    let after = state.scheduled();
    if state.tick < u64::MAX {
        let tick = (state.tick + 1) as u64;
        lemma_best_task(state.tasks, tick);
        if let Some(k) = best_task(state.tasks, tick) {
            assert(state.valid_task(state.tasks[k]));
            assert forall|i: int| 0 <= i < after.tasks.len() implies after.valid_task(
                #[trigger] after.tasks[i],
            ) by {
                assert(state.valid_task(state.tasks[i]));
            }
            assert(after.tasks[k].id == state.tasks[k].id && after.tasks[k].runnable());
        } else {
            assert forall|i: int| 0 <= i < after.tasks.len() implies after.valid_task(
                #[trigger] after.tasks[i],
            ) by {
                assert(state.valid_task(state.tasks[i]));
            }
        }
    }
}

/// Deterministic cooperative scheduler.
#[derive(Clone, Debug, Eq, PartialEq)]
pub struct Scheduler {
    run_queue: RunQueue,
    current_task: Option<TaskId>,
    next_task_id: TaskId,
    tick: u64,
}

impl View for Scheduler {
    type V = SchedulerState;

    closed spec fn view(&self) -> SchedulerState {
        SchedulerState {
            tasks: self.run_queue@,
            current: self.current_task,
            next_task_id: self.next_task_id,
            tick: self.tick,
        }
    }
}

impl Scheduler {
    /// The run queue is well formed.
    pub closed spec fn repr_ok(&self) -> bool {
        self.run_queue.wf()
    }

    /// The scheduler is in a state its operations can produce.
    pub open spec fn wf(&self) -> bool {
        self.repr_ok() && self@.valid()
    }

    /// The state of a fresh scheduler.
    pub open spec fn spec_new() -> SchedulerState {
        SchedulerState { tasks: Seq::empty(), current: None, next_task_id: 1, tick: 0 }
    }

    /// Creates an empty scheduler.
    pub fn new() -> (scheduler: Self)
        ensures
            scheduler.wf(),
            scheduler@ == Self::spec_new(),
    {
        Self { run_queue: RunQueue::new(), current_task: None, next_task_id: 1, tick: 0 }
    }

    /// Current monotonic scheduler tick.
    pub fn tick(&self) -> (tick: u64)
        ensures
            tick == self@.tick,
    {
        self.tick
    }

    /// Current task identifier, if one is running.
    pub fn current_task(&self) -> (current: Option<TaskId>)
        ensures
            current == self@.current,
    {
        self.current_task
    }

    /// Immutable run queue access for diagnostics and tests.
    pub fn run_queue(&self) -> (queue: &RunQueue)
        requires
            self.wf(),
        ensures
            queue.wf(),
            queue@ == self@.tasks,
    {
        &self.run_queue
    }

    /// Spawns a ready task and returns its identifier.
    pub fn spawn(
        &mut self,
        parent_id: TaskId,
        class: SchedulerClass,
        priority: u8,
        capabilities: CapabilitySet,
        budget: BudgetAccount,
    ) -> (result: KernelResult<TaskId>)
        requires
            old(self).wf(),
        ensures
            final(self).wf(),
            result == old(self)@.spawn_result(),
            final(self)@ == old(self)@.spawned(parent_id, class, priority, capabilities, budget),
    {
        let task_id: TaskId = self.next_task_id;
        let next_task_id: TaskId = match self.next_task_id.checked_add(1) {
            Some(next_task_id) => next_task_id,
            None => {
                return Err(KernelError::Internal);
            },
        };
        proof {
            lemma_spawned_valid(self@, parent_id, class, priority, capabilities, budget);
            lemma_first_task(self@.tasks, task_id);
            assert forall|i: int| 0 <= i < self@.tasks.len() implies (
            #[trigger] self@.tasks[i]).id != task_id by {
                assert(self@.valid_task(self@.tasks[i]));
            }
        }
        self.next_task_id = next_task_id;
        let task = TaskControlBlock::new(
            task_id,
            parent_id,
            class,
            priority,
            capabilities,
            budget,
        );
        match self.run_queue.insert(task) {
            Ok(()) => Ok(task_id),
            Err(error) => Err(error),
        }
    }

    /// Transitions a task to a new state.
    pub fn transition(&mut self, task_id: TaskId, to: TaskState) -> (result: KernelResult<
        TaskStateTransition,
    >)
        requires
            old(self).wf(),
        ensures
            final(self).wf(),
            result == old(self)@.transition_result(task_id, to),
            final(self)@ == old(self)@.transitioned(task_id, to),
    {
        proof {
            lemma_first_task(self@.tasks, task_id);
            lemma_transitioned_valid(self@, task_id, to);
        }
        let task = match self.run_queue.get_mut(task_id) {
            Some(task) => task,
            None => {
                return Err(KernelError::NotFound);
            },
        };
        let from = task.state;
        if !Self::valid_transition(from, to) {
            proof {
                let tasks = old(self)@.tasks;
                let i = first_task(tasks, task_id).unwrap();
                assert(tasks.update(i, tasks[i]) =~= tasks);
            }
            return Err(KernelError::InvalidState);
        }
        task.state = to;
        if matches!(to, TaskState::Running) {
            self.current_task = Some(task_id);
        } else if self.current_task == Some(task_id) {
            self.current_task = None;
        }
        Ok(TaskStateTransition { task_id, from, to })
    }

    /// Cooperative yield from the current task.
    pub fn yield_current(&mut self) -> (result: KernelResult<Option<TaskId>>)
        requires
            old(self).wf(),
        ensures
            final(self).wf(),
            result == old(self)@.yield_result(),
            final(self)@ == old(self)@.yielded(),
    {
        proof {
            lemma_current_task(self@);
            lemma_relinquished_valid(self@);
        }
        if let Some(current) = self.current_task {
            let task = match self.run_queue.get_mut(current) {
                Some(task) => task,
                None => {
                    return Err(KernelError::NotFound);
                },
            };
            match task.budget.consume_tick() {
                Ok(()) => {},
                Err(error) => {
                    proof {
                        let tasks = old(self)@.tasks;
                        let i = first_task(tasks, current).unwrap();
                        assert(tasks.update(i, tasks[i]) =~= tasks);
                    }
                    return Err(error);
                },
            }
            if task.state == TaskState::Running {
                task.state = TaskState::Ready;
            }
        }
        assert(self@ == old(self)@.relinquished());
        self.schedule_next()
    }

    /// Selects the next runnable task using deterministic weighted scoring.
    pub fn schedule_next(&mut self) -> (result: KernelResult<Option<TaskId>>)
        requires
            old(self).wf(),
        ensures
            final(self).wf(),
            result == old(self)@.schedule_result(),
            final(self)@ == old(self)@.scheduled(),
    {
        proof {
            lemma_scheduled_valid(self@);
        }
        self.tick = match self.tick.checked_add(1) {
            Some(tick) => tick,
            None => {
                return Err(KernelError::Internal);
            },
        };
        let ghost tasks = self.run_queue@;
        let ghost n = crate::slots::filled_len(self.run_queue.slots@);
        proof {
            lemma_slot_tasks(self.run_queue.slots@, n);
            lemma_best_task(tasks, self.tick);
        }
        let mut best_index: Option<usize> = None;
        let mut best_score: u32 = 0;
        let mut index: usize = 0;
        while index < MAX_TASKS
            invariant
                index <= MAX_TASKS,
                crate::slots::filled(self.run_queue.slots@, n),
                n == tasks.len(),
                forall|i: int|
                    0 <= i < n ==> #[trigger] tasks[i] == self.run_queue.slots@[i].task,
                match best_index {
                    Some(best) => {
                        &&& best < n
                        &&& is_best_among(
                            tasks,
                            self.tick,
                            best as int,
                            if index < n {
                                index as int
                            } else {
                                n as int
                            },
                        )
                        &&& best_score == tasks[best as int].score_at(self.tick)
                    },
                    None => forall|i: int|
                        0 <= i < index && i < n ==> !(#[trigger] tasks[i]).runnable(),
                },
            decreases MAX_TASKS - index,
        {
            let slot = self.run_queue.slots[index];
            if slot.occupied && slot.task.is_runnable() {
                assert(slot.task == tasks[index as int]);
                let score: u32 = self.score(slot.task);
                if best_index.is_none() || score > best_score {
                    best_index = Some(index);
                    best_score = score;
                }
            }
            index += 1;
        }
        let selected_index: usize = match best_index {
            Some(selected_index) => selected_index,
            None => {
                self.current_task = None;
                return Ok(None);
            },
        };
        assert(is_best(tasks, self.tick, selected_index as int));
        let selected_id: TaskId = self.run_queue.slots[selected_index].task.id;
        let ghost before = self.run_queue.slots@;
        let ghost tick = self.tick;
        let mut index: usize = 0;
        while index < MAX_TASKS
            invariant
                index <= MAX_TASKS,
                crate::slots::filled(before, n),
                n == tasks.len(),
                before.len() == MAX_TASKS,
                self.tick == tick,
                self.current_task == old(self).current_task,
                self.next_task_id == old(self).next_task_id,
                forall|i: int| 0 <= i < n ==> #[trigger] tasks[i] == before[i].task,
                forall|i: int|
                    0 <= i < n ==> (#[trigger] tasks[i]).context_switches < tick,
                forall|i: int|
                    0 <= i < MAX_TASKS ==> {
                        let slot = #[trigger] self.run_queue.slots@[i];
                        &&& slot.occupied == before[i].occupied
                        &&& slot.task == if i < index && i < n {
                            before[i].task.after_round(selected_id)
                        } else {
                            before[i].task
                        }
                    },
            decreases MAX_TASKS - index,
        {
            let slot = self.run_queue.slots[index];
            if slot.occupied {
                assert(tasks[index as int] == before[index as int].task);
                let mut task = slot.task;
                if task.id == selected_id {
                    task.state = TaskState::Running;
                    task.age = 0;
                    task.dynamic_priority = task.base_priority;
                    task.context_switches = match task.context_switches.checked_add(1) {
                        Some(context_switches) => context_switches,
                        None => {
                            return Err(KernelError::Internal);
                        },
                    };
                } else if task.state == TaskState::Running {
                    task.state = TaskState::Ready;
                } else if task.state == TaskState::Ready {
                    task.age = task.age.saturating_add(1);
                    let bonus: u16 = task.age / 4;
                    assert((bonus as u8) as u16 == bonus % 256) by (bit_vector);
                    task.dynamic_priority = task.base_priority.saturating_add(
                        #[verifier::truncate] (bonus as u8),
                    );
                }
                self.run_queue.slots[index].task = task;
            }
            index += 1;
        }
        self.current_task = Some(selected_id);
        proof {
            lemma_slot_tasks(self.run_queue.slots@, n);
            assert(self@ =~= old(self)@.scheduled());
        }
        Ok(Some(selected_id))
    }

    /// Cancels a task and transitions it to `Zombie`.
    pub fn cancel(&mut self, task_id: TaskId) -> (result: KernelResult<TaskStateTransition>)
        requires
            old(self).wf(),
        ensures
            final(self).wf(),
            result == old(self)@.cancel_result(task_id),
            final(self)@ == old(self)@.cancelled(task_id),
    {
        proof {
            lemma_first_task(self@.tasks, task_id);
            lemma_transitioned_valid(self@, task_id, TaskState::Zombie);
        }
        let task = match self.run_queue.get_mut(task_id) {
            Some(task) => task,
            None => {
                return Err(KernelError::NotFound);
            },
        };
        let from = task.state;
        if matches!(from, TaskState::Zombie | TaskState::Exiting) {
            proof {
                let tasks = old(self)@.tasks;
                let i = first_task(tasks, task_id).unwrap();
                assert(tasks.update(i, tasks[i]) =~= tasks);
            }
            return Err(KernelError::InvalidState);
        }
        task.state = TaskState::Zombie;
        if self.current_task == Some(task_id) {
            self.current_task = None;
        }
        Ok(TaskStateTransition { task_id, from, to: TaskState::Zombie })
    }

    fn score(&self, task: TaskControlBlock) -> (score: u32)
        ensures
            score == task.score_at(self@.tick),
    {
        let deadline_boost: u32 = if task.budget.deadline_expired(self.tick) {
            128
        } else {
            0
        };
        u32::from(task.dynamic_priority) + u32::from(task.weight) + task.class.boost() + u32::from(
            task.age,
        ) + deadline_boost
    }

    fn valid_transition(from: TaskState, to: TaskState) -> (valid: bool)
        ensures
            valid == transition_allowed(from, to),
    {
        matches!(
            (from, to),
            (TaskState::New, TaskState::Ready)
                | (TaskState::Ready, TaskState::Running)
                | (TaskState::Running, TaskState::Ready)
                | (TaskState::Running, TaskState::Blocked)
                | (TaskState::Running, TaskState::Sleeping)
                | (TaskState::Ready, TaskState::Suspended)
                | (TaskState::Suspended, TaskState::Ready)
                | (TaskState::Blocked, TaskState::Ready)
                | (TaskState::Sleeping, TaskState::Ready)
                | (TaskState::Running, TaskState::Exiting)
                | (TaskState::Exiting, TaskState::Zombie)
                | (_, TaskState::Zombie)
        )
    }
}

impl Default for Scheduler {
    fn default() -> (scheduler: Self)
        ensures
            scheduler.wf(),
            scheduler@ == Self::spec_new(),
    {
        Self::new()
    }
}

/// A round selects a best task if any task is runnable, and fails only when
/// the tick counter is used up.
pub proof fn law_round_selects_best_task(state: SchedulerState)
    requires
        state.valid(),
    ensures
        match state.schedule_result() {
            Ok(Some(id)) => exists|i: int|
                #![trigger state.tasks[i]]
                is_best(state.tasks, (state.tick + 1) as u64, i) && state.tasks[i].id == id,
            Ok(None) => forall|i: int|
                0 <= i < state.tasks.len() ==> !(#[trigger] state.tasks[i]).runnable(),
            Err(error) => error == KernelError::Internal && state.tick == u64::MAX,
        },
        state.tick < u64::MAX ==> state.scheduled().tick == state.tick + 1,
{
    if state.tick < u64::MAX {
        let tick = (state.tick + 1) as u64;
        lemma_best_task(state.tasks, tick);
        if let Some(i) = best_task(state.tasks, tick) {
            assert(is_best(state.tasks, tick, i) && state.tasks[i].id == state.tasks[i].id);
        }
    }
}

/// After a round that selected a task, that task is the only one running and
/// is the current one.
pub proof fn law_one_task_runs_after_a_round(state: SchedulerState, i: int)
    requires
        state.valid(),
        state.schedule_result() matches Ok(Some(_)),
        0 <= i < state.tasks.len(),
    ensures
        state.scheduled().tasks[i].state == TaskState::Running <==> state.scheduled().current
            == Some(state.scheduled().tasks[i].id),
        state.schedule_result() == Ok::<Option<TaskId>, KernelError>(state.scheduled().current),
{
}

/// A ready task that a round passes over gets one round older, and its score
/// rises, save where the age is at its limit or the eight-bit aging bonus
/// starts over below the highest base priority.
pub proof fn law_passed_over_tasks_age(task: TaskControlBlock, tick: u64)
    requires
        task.state == TaskState::Ready,
        task.dynamic_priority == aged_priority(task.base_priority, task.age),
        task.age < u16::MAX,
        task.age % 1024 != 1023 || task.base_priority == u8::MAX,
    ensures
        task.passed_over().age == task.age + 1,
        task.passed_over().dynamic_priority >= task.dynamic_priority,
        task.passed_over().score_at(tick) > task.score_at(tick),
{
}

/// Audit work is preferred: a task of another class is not selected while an
/// audit task that is no worse in priority, age, weight and deadline is
/// runnable.
pub proof fn law_audit_work_is_preferred(
    tasks: Seq<TaskControlBlock>,
    tick: u64,
    audit: int,
    other: int,
)
    requires
        0 <= audit < tasks.len(),
        0 <= other < tasks.len(),
        tasks[audit].runnable(),
        tasks[audit].class == SchedulerClass::Audit,
        tasks[other].class != SchedulerClass::Audit,
        tasks[audit].dynamic_priority >= tasks[other].dynamic_priority,
        tasks[audit].age >= tasks[other].age,
        tasks[audit].weight >= tasks[other].weight,
        tasks[other].budget.expired_at(tick) ==> tasks[audit].budget.expired_at(tick),
    ensures
        tasks[audit].score_at(tick) > tasks[other].score_at(tick),
        best_task(tasks, tick) != Some(other),
{
    lemma_best_task(tasks, tick);
}

/// A tick budget lasts: a budget of `n` remaining ticks affords `n` ticks and
/// not one more.
pub proof fn law_budget_affords_its_ticks(budget: BudgetAccount)
    requires
        budget.max_ticks != 0,
    ensures
        budget.exhausted() <==> budget.remaining_ticks == 0,
        !budget.exhausted() ==> {
            &&& budget.consumed().remaining_ticks == budget.remaining_ticks - 1
            &&& budget.consumed().max_ticks == budget.max_ticks
            &&& budget.consumed().deadline_tick == budget.deadline_tick
        },
        forall|n: nat|
            n <= budget.remaining_ticks ==> (#[trigger] budget.after_ticks(n)).remaining_ticks
                == budget.remaining_ticks - n,
        budget.after_ticks(budget.remaining_ticks as nat).exhausted(),
{
    assert forall|n: nat| n <= budget.remaining_ticks implies (#[trigger] budget.after_ticks(
        n,
    )).remaining_ticks == budget.remaining_ticks - n by {
        lemma_after_ticks(budget, n);
    }
    lemma_after_ticks(budget, budget.remaining_ticks as nat);
}

impl BudgetAccount {
    /// The budget after `n` ticks.
    pub open spec fn after_ticks(self, n: nat) -> BudgetAccount
        decreases n,
    {
        if n == 0 {
            self
        } else {
            self.after_ticks((n - 1) as nat).consumed()
        }
    }
}

proof fn lemma_after_ticks(budget: BudgetAccount, n: nat)
    requires
        budget.max_ticks != 0,
        n <= budget.remaining_ticks,
    ensures
        budget.after_ticks(n) == (BudgetAccount {
            remaining_ticks: (budget.remaining_ticks - n) as u64,
            ..budget
        }),
    decreases n,
{
    if n > 0 {
        lemma_after_ticks(budget, (n - 1) as nat);
    }
}

/// A yield that succeeds charges the current task one tick and charges nobody
/// else.
pub proof fn law_yield_charges_the_current_task(state: SchedulerState, i: int)
    requires
        state.valid(),
        state.may_yield(),
        0 <= i < state.tasks.len(),
    ensures
        state.yielded().tasks[i].budget == if state.current == Some(state.tasks[i].id) {
            state.tasks[i].budget.consumed()
        } else {
            state.tasks[i].budget
        },
{
    lemma_current_task(state);
    lemma_task_position(state, i);
}

/// A call that changes a scheduler.
pub enum SchedulerCall {
    Spawn {
        parent_id: TaskId,
        class: SchedulerClass,
        priority: u8,
        capabilities: CapabilitySet,
        budget: BudgetAccount,
    },
    Transition { task_id: TaskId, to: TaskState },
    Cancel { task_id: TaskId },
    Yield,
    Schedule,
}

impl SchedulerState {
    /// The scheduler after one call, whether or not the call succeeded.
    pub open spec fn after(self, call: SchedulerCall) -> SchedulerState {
        match call {
            SchedulerCall::Spawn {
                parent_id,
                class,
                priority,
                capabilities,
                budget,
            } => self.spawned(parent_id, class, priority, capabilities, budget),
            SchedulerCall::Transition { task_id, to } => self.transitioned(task_id, to),
            SchedulerCall::Cancel { task_id } => self.cancelled(task_id),
            SchedulerCall::Yield => self.yielded(),
            SchedulerCall::Schedule => self.scheduled(),
        }
    }

    /// The scheduler after a sequence of calls.
    pub open spec fn after_all(self, calls: Seq<SchedulerCall>) -> SchedulerState
        decreases calls.len(),
    {
        if calls.len() == 0 {
            self
        } else {
            self.after_all(calls.drop_last()).after(calls.last())
        }
    }

    /// Whether `later` still holds every task of this scheduler at its place,
    /// with its identity, parent, class, base priority and authority, and
    /// still gone if it was gone.
    pub open spec fn kept_in(self, later: SchedulerState) -> bool {
        &&& self.tasks.len() <= later.tasks.len()
        &&& self.next_task_id <= later.next_task_id
        &&& self.tick <= later.tick
        &&& forall|i: int|
            0 <= i < self.tasks.len() ==> same_task(#[trigger] self.tasks[i], later.tasks[i])
    }
}

/// Whether `later` is the same task at a later time.
pub open spec fn same_task(task: TaskControlBlock, later: TaskControlBlock) -> bool {
    &&& later.id == task.id
    &&& later.parent_id == task.parent_id
    &&& later.class == task.class
    &&& later.base_priority == task.base_priority
    &&& later.weight == task.weight
    &&& later.capabilities == task.capabilities
    &&& later.budget.max_ticks == task.budget.max_ticks
    &&& later.budget.deadline_tick == task.budget.deadline_tick
    &&& later.context_switches >= task.context_switches
    &&& task.state == TaskState::Zombie ==> later.state == TaskState::Zombie
}

proof fn lemma_scheduled_keeps(state: SchedulerState)
    requires
        state.valid(),
    ensures
        state.kept_in(state.scheduled()),
{
    if state.tick < u64::MAX {
        let tick = (state.tick + 1) as u64;
        let after = state.scheduled();
        lemma_best_task(state.tasks, tick);
        if let Some(k) = best_task(state.tasks, tick) {
            assert forall|i: int| 0 <= i < state.tasks.len() implies same_task(
                #[trigger] state.tasks[i],
                after.tasks[i],
            ) by {
                assert(state.valid_task(state.tasks[i]));
                if state.tasks[i].id == state.tasks[k].id {
                    lemma_task_position(state, i);
                    lemma_task_position(state, k);
                }
            }
        }
    }
}

/// One call keeps a scheduler valid and loses none of its tasks; only a spawn
/// adds any.
pub proof fn lemma_scheduler_step(state: SchedulerState, call: SchedulerCall)
    requires
        state.valid(),
    ensures
        state.after(call).valid(),
        state.kept_in(state.after(call)),
        !(call is Spawn) ==> state.after(call).tasks.len() == state.tasks.len(),
{
    match call {
        SchedulerCall::Spawn { parent_id, class, priority, capabilities, budget } => {
            lemma_spawned_valid(state, parent_id, class, priority, capabilities, budget);
        },
        SchedulerCall::Transition { task_id, to } => {
            lemma_first_task(state.tasks, task_id);
            lemma_transitioned_valid(state, task_id, to);
        },
        SchedulerCall::Cancel { task_id } => {
            lemma_first_task(state.tasks, task_id);
            lemma_transitioned_valid(state, task_id, TaskState::Zombie);
        },
        SchedulerCall::Yield => {
            if state.may_yield() {
                let middle = state.relinquished();
                lemma_current_task(state);
                lemma_relinquished_valid(state);
                lemma_scheduled_valid(middle);
                lemma_scheduled_keeps(middle);
                assert forall|i: int| 0 <= i < state.tasks.len() implies same_task(
                    #[trigger] state.tasks[i],
                    state.after(call).tasks[i],
                ) by {
                    assert(same_task(middle.tasks[i], state.after(call).tasks[i]));
                }
            }
        },
        SchedulerCall::Schedule => {
            lemma_scheduled_valid(state);
            lemma_scheduled_keeps(state);
        },
    }
}

/// Whatever calls are made, the scheduler stays valid; tasks are never lost
/// and keep their identity, class, base priority and authority; and a zombie
/// never comes back.
pub proof fn law_tasks_are_kept(state: SchedulerState, calls: Seq<SchedulerCall>)
    requires
        state.valid(),
    ensures
        state.after_all(calls).valid(),
        state.kept_in(state.after_all(calls)),
    decreases calls.len(),
{
    if calls.len() > 0 {
        let before = state.after_all(calls.drop_last());
        law_tasks_are_kept(state, calls.drop_last());
        lemma_scheduler_step(before, calls.last());
        assert forall|i: int| 0 <= i < state.tasks.len() implies same_task(
            #[trigger] state.tasks[i],
            state.after_all(calls).tasks[i],
        ) by {
            assert(same_task(before.tasks[i], state.after_all(calls).tasks[i]));
        }
    }
}

/// An inserted task is found at the end of the queue under its identifier, and
/// lookups of other identifiers give what they gave before.
pub proof fn law_inserted_task_is_found(
    tasks: Seq<TaskControlBlock>,
    task: TaskControlBlock,
    other: TaskId,
)
    requires
        insert_error(tasks, task) is None,
        other != task.id,
    ensures
        first_task(tasks.push(task), task.id) == Some(tasks.len() as int),
        first_task(tasks.push(task), other) == first_task(tasks, other),
{
    let after = tasks.push(task);
    lemma_first_task(tasks, task.id);
    lemma_first_task(after, task.id);
    lemma_first_task(tasks, other);
    lemma_first_task(after, other);
    assert(is_first_task(after, task.id, tasks.len() as int));
    if let Some(i) = first_task(tasks, other) {
        assert(is_first_task(after, other, i));
    } else if let Some(i) = first_task(after, other) {
        assert(tasks[i].id == other);
    }
}

/// A task that is neither ready nor running is not selected, whatever it
/// scores.
pub proof fn law_only_runnable_tasks_are_selected(state: SchedulerState, i: int)
    requires
        state.valid(),
        0 <= i < state.tasks.len(),
        !state.tasks[i].runnable(),
    ensures
        state.schedule_result() != Ok::<Option<TaskId>, KernelError>(Some(state.tasks[i].id)),
        state.tasks[i].state == state.scheduled().tasks[i].state,
{
    if state.tick < u64::MAX {
        let tick = (state.tick + 1) as u64;
        lemma_best_task(state.tasks, tick);
        lemma_task_position(state, i);
        if let Some(k) = best_task(state.tasks, tick) {
            lemma_task_position(state, k);
        }
    }
}

/// Spawned tasks get identifiers that grow and start with the authority given
/// to them and nothing else.
pub proof fn law_spawned_task_is_fresh(
    state: SchedulerState,
    parent_id: TaskId,
    class: SchedulerClass,
    priority: u8,
    capabilities: CapabilitySet,
    budget: BudgetAccount,
)
    requires
        state.valid(),
        state.spawn_error() is None,
    ensures
        first_task(state.tasks, state.next_task_id) is None,
        ({
            let after = state.spawned(parent_id, class, priority, capabilities, budget);
            &&& after.tasks.drop_last() == state.tasks
            &&& after.tasks.last().id == state.next_task_id
            &&& after.tasks.last().state == TaskState::Ready
            &&& after.tasks.last().capabilities == capabilities
            &&& after.current == state.current
        }),
{
    lemma_first_task(state.tasks, state.next_task_id);
    assert forall|i: int| 0 <= i < state.tasks.len() implies (#[trigger] state.tasks[i]).id
        != state.next_task_id by {
        assert(state.valid_task(state.tasks[i]));
    }
    let after = state.spawned(parent_id, class, priority, capabilities, budget);
    assert(after.tasks.drop_last() =~= state.tasks);
}

/// Each part of a score counts point for point, and a passed deadline counts
/// 128 points: two tasks that differ in one part alone are that far apart.
pub proof fn law_each_part_of_a_score_counts(
    task: TaskControlBlock,
    dynamic_priority: u8,
    weight: u16,
    age: u16,
    budget: BudgetAccount,
    tick: u64,
)
    ensures
        ({
            let score = task.score_at(tick);
            let reprioritized = TaskControlBlock { dynamic_priority, ..task };
            let reweighted = TaskControlBlock { weight, ..task };
            let aged = TaskControlBlock { age, ..task };
            let rebudgeted = TaskControlBlock { budget, ..task };
            let expired = task.budget.expired_at(tick);
            &&& reprioritized.score_at(tick) - score == dynamic_priority - task.dynamic_priority
            &&& reweighted.score_at(tick) - score == weight - task.weight
            &&& aged.score_at(tick) - score == age - task.age
            &&& budget.expired_at(tick) == expired ==> rebudgeted.score_at(tick) == score
            &&& budget.expired_at(tick) && !expired ==> rebudgeted.score_at(tick) == score + 128
        }),
{
}

/// The classes are ranked: between tasks that differ in their class alone,
/// audit work is 16 points ahead of kernel work, 48 ahead of runtime services,
/// 64 ahead of interactive, 80 ahead of cognitive and 96 ahead of background
/// work.
pub proof fn law_classes_are_ranked(task: TaskControlBlock, tick: u64)
    ensures
        ({
            let audit = TaskControlBlock { class: SchedulerClass::Audit, ..task }.score_at(tick);
            &&& TaskControlBlock { class: SchedulerClass::Kernel, ..task }.score_at(tick) == audit
                - 16
            &&& TaskControlBlock { class: SchedulerClass::Runtime, ..task }.score_at(tick) == audit
                - 48
            &&& TaskControlBlock { class: SchedulerClass::Interactive, ..task }.score_at(tick)
                == audit - 64
            &&& TaskControlBlock { class: SchedulerClass::Cognitive, ..task }.score_at(tick)
                == audit - 80
            &&& TaskControlBlock { class: SchedulerClass::Background, ..task }.score_at(tick)
                == audit - 96
        }),
{
}

/// A deadline passes at its tick and stays passed; a budget without one never
/// expires.
pub proof fn law_deadlines_pass_once(budget: BudgetAccount, now: u64)
    ensures
        budget.deadline_tick == 0 ==> !budget.expired_at(now),
        budget.deadline_tick != 0 ==> budget.expired_at(budget.deadline_tick),
        now < budget.deadline_tick ==> !budget.expired_at(now),
        budget.expired_at(now) && now < u64::MAX ==> budget.expired_at((now + 1) as u64),
{
}

/// Whenever a task is ready or running, a round selects a task that is ready or
/// running and scores at least as much; of equal scores the one spawned first
/// wins.
pub proof fn law_nobody_outscores_the_selected_task(state: SchedulerState, i: int)
    requires
        state.valid(),
        state.tick < u64::MAX,
        0 <= i < state.tasks.len(),
        state.tasks[i].state == TaskState::Ready || state.tasks[i].state == TaskState::Running,
    ensures
        exists|k: int|
            {
                let tick = (state.tick + 1) as u64;
                &&& 0 <= k < state.tasks.len()
                &&& state.schedule_result() == Ok::<Option<TaskId>, KernelError>(
                    Some((#[trigger] state.tasks[k]).id),
                )
                &&& state.tasks[k].state == TaskState::Ready || state.tasks[k].state
                    == TaskState::Running
                &&& state.tasks[k].score_at(tick) >= state.tasks[i].score_at(tick)
                &&& state.tasks[k].score_at(tick) == state.tasks[i].score_at(tick) ==> k <= i
            },
{
    let tick = (state.tick + 1) as u64;
    lemma_best_task(state.tasks, tick);
    let k = best_task(state.tasks, tick).unwrap();
    assert(is_best(state.tasks, tick, k));
    assert(state.tasks[k].runnable());
}

/// Priority decides between equals: of two tasks alike in class, weight, age
/// and deadline, the one with the higher dynamic priority scores higher, and
/// a round does not select the lower one while the higher one is ready or
/// running.
pub proof fn law_higher_priority_is_preferred(state: SchedulerState, high: int, low: int)
    requires
        state.valid(),
        0 <= high < state.tasks.len(),
        0 <= low < state.tasks.len(),
        state.tasks[high].state == TaskState::Ready || state.tasks[high].state
            == TaskState::Running,
        state.tasks[high].dynamic_priority > state.tasks[low].dynamic_priority,
        state.tasks[high].class == state.tasks[low].class,
        state.tasks[high].weight == state.tasks[low].weight,
        state.tasks[high].age == state.tasks[low].age,
        state.tasks[high].budget.deadline_tick == state.tasks[low].budget.deadline_tick,
    ensures
        forall|tick: u64| #[trigger]
            state.tasks[high].score_at(tick) > state.tasks[low].score_at(tick),
        state.schedule_result() != Ok::<Option<TaskId>, KernelError>(Some(state.tasks[low].id)),
{
    if state.tick < u64::MAX {
        let tick = (state.tick + 1) as u64;
        law_nobody_outscores_the_selected_task(state, high);
        lemma_task_position(state, low);
        let k = best_task(state.tasks, tick).unwrap();
        lemma_best_task(state.tasks, tick);
        lemma_task_position(state, k);
    }
}

/// Waiting decides between equals: of two tasks alike in class, weight,
/// priority and deadline, a round does not select the younger one while the
/// older one is ready or running.
pub proof fn law_older_task_is_preferred(state: SchedulerState, old_one: int, young: int)
    requires
        state.valid(),
        0 <= old_one < state.tasks.len(),
        0 <= young < state.tasks.len(),
        state.tasks[old_one].state == TaskState::Ready || state.tasks[old_one].state
            == TaskState::Running,
        state.tasks[old_one].age > state.tasks[young].age,
        state.tasks[old_one].class == state.tasks[young].class,
        state.tasks[old_one].weight == state.tasks[young].weight,
        state.tasks[old_one].dynamic_priority == state.tasks[young].dynamic_priority,
        state.tasks[old_one].budget.deadline_tick == state.tasks[young].budget.deadline_tick,
    ensures
        state.schedule_result() != Ok::<Option<TaskId>, KernelError>(Some(state.tasks[young].id)),
{
    if state.tick < u64::MAX {
        let tick = (state.tick + 1) as u64;
        law_nobody_outscores_the_selected_task(state, old_one);
        lemma_task_position(state, young);
        let k = best_task(state.tasks, tick).unwrap();
        lemma_best_task(state.tasks, tick);
        lemma_task_position(state, k);
    }
}

/// Waiting wins in the end: a task that has waited 480 rounds longer than
/// another is preferred to it, whatever their classes, priorities and
/// deadlines.
pub proof fn law_long_waits_outweigh_everything(state: SchedulerState, waiting: int, other: int)
    requires
        state.valid(),
        0 <= waiting < state.tasks.len(),
        0 <= other < state.tasks.len(),
        state.tasks[waiting].state == TaskState::Ready || state.tasks[waiting].state
            == TaskState::Running,
        state.tasks[waiting].age >= state.tasks[other].age + 480,
    ensures
        state.schedule_result() != Ok::<Option<TaskId>, KernelError>(Some(state.tasks[other].id)),
{
    if state.tick < u64::MAX {
        let tick = (state.tick + 1) as u64;
        assert(state.valid_task(state.tasks[waiting]));
        assert(state.valid_task(state.tasks[other]));
        law_nobody_outscores_the_selected_task(state, waiting);
        lemma_task_position(state, other);
        let k = best_task(state.tasks, tick).unwrap();
        lemma_best_task(state.tasks, tick);
        lemma_task_position(state, k);
    }
}

/// Aging raises the priority by one step every four rounds, up to the highest;
/// a task that has just run is back at its base priority, and the bonus starts
/// over every 1024 rounds.
pub proof fn law_four_rounds_raise_the_priority(base: u8, age: u16)
    ensures
        age < 4 ==> aged_priority(base, age) == base,
        age % 1024 < 1020 && age <= u16::MAX - 4 ==> aged_priority(base, (age + 4) as u16) == if
        aged_priority(base, age) == 255 {
            255int
        } else {
            aged_priority(base, age) + 1
        },
        age <= u16::MAX - 1024 ==> aged_priority(base, (age + 1024) as u16) == aged_priority(
            base,
            age,
        ),
{
    let steps = age / 4;
    if age <= u16::MAX - 4 {
        let later = (age + 4) as u16;
        assert(later / 4 == steps + 1);
        assert(age % 1024 < 1020 ==> steps % 256 < 255);
        assert(steps % 256 < 255 ==> (steps + 1) % 256 == steps % 256 + 1);
    }
    if age <= u16::MAX - 1024 {
        let later = (age + 1024) as u16;
        assert(later / 4 == steps + 256);
        assert((steps + 256) % 256 == steps % 256);
    }
}

/// What a round does to the task at `i`. The selected one runs, with its age
/// gone, its base priority back and one more switch counted; the one that ran
/// before is ready; a ready one is a round older, with the priority of its age;
/// all others stay as they are.
pub proof fn law_round_updates_every_task(state: SchedulerState, selected: TaskId, i: int)
    requires
        state.valid(),
        state.schedule_result() == Ok::<Option<TaskId>, KernelError>(Some(selected)),
        0 <= i < state.tasks.len(),
    ensures
        ({
            let before = state.tasks[i];
            let after = state.scheduled().tasks[i];
            &&& state.scheduled().tasks.len() == state.tasks.len()
            &&& state.scheduled().current == Some(selected)
            &&& state.scheduled().tick == state.tick + 1
            &&& state.scheduled().next_task_id == state.next_task_id
            &&& before.id == selected ==> {
                &&& after.state == TaskState::Running
                &&& after.age == 0
                &&& after.dynamic_priority == before.base_priority
                &&& after.context_switches == before.context_switches + 1
            }
            &&& before.id != selected ==> {
                &&& after.context_switches == before.context_switches
                &&& before.state == TaskState::Running ==> after == (TaskControlBlock {
                    state: TaskState::Ready,
                    ..before
                })
                &&& before.state == TaskState::Ready ==> {
                    &&& after.state == TaskState::Ready
                    &&& before.age < u16::MAX ==> after.age == before.age + 1
                    &&& before.age == u16::MAX ==> after.age == u16::MAX
                    &&& after.dynamic_priority == aged_priority(before.base_priority, after.age)
                }
                &&& before.state != TaskState::Running && before.state != TaskState::Ready
                    ==> after == before
            }
            &&& after.id == before.id
            &&& after.parent_id == before.parent_id
            &&& after.class == before.class
            &&& after.base_priority == before.base_priority
            &&& after.weight == before.weight
            &&& after.budget == before.budget
            &&& after.capabilities == before.capabilities
        }),
{
    let tick = (state.tick + 1) as u64;
    lemma_best_task(state.tasks, tick);
    assert(state.valid_task(state.tasks[i]));
}

/// A round in which no task is ready or running advances the tick, leaves no
/// task current and changes no task.
pub proof fn law_idle_round_changes_no_task(state: SchedulerState)
    requires
        state.valid(),
        state.tick < u64::MAX,
        forall|i: int|
            0 <= i < state.tasks.len() ==> (#[trigger] state.tasks[i]).state != TaskState::Ready
                && state.tasks[i].state != TaskState::Running,
    ensures
        state.schedule_result() == Ok::<Option<TaskId>, KernelError>(None),
        state.scheduled() == (SchedulerState {
            tick: (state.tick + 1) as u64,
            current: None,
            ..state
        }),
{
    let tick = (state.tick + 1) as u64;
    lemma_best_task(state.tasks, tick);
    if let Some(k) = best_task(state.tasks, tick) {
        assert(state.tasks[k].runnable());
    }
}

/// A yield is a round in which the task that gave way takes part as a ready
/// one, one tick poorer if its ticks are counted. Without a current task it is
/// a round and nothing else; a task with no tick left cannot yield, and then
/// nothing changes.
pub proof fn law_yield_is_a_round_with_the_current_task_ready(state: SchedulerState, i: int)
    requires
        state.valid(),
        0 <= i < state.tasks.len(),
    ensures
        state.current is None ==> {
            &&& state.yield_result() == state.schedule_result()
            &&& state.yielded() == state.scheduled()
        },
        state.current == Some(state.tasks[i].id) && state.tasks[i].budget.max_ticks != 0
            && state.tasks[i].budget.remaining_ticks == 0 ==> {
            &&& state.yield_result() == Err::<Option<TaskId>, KernelError>(
                KernelError::DeadlineExceeded,
            )
            &&& state.yielded() == state
        },
        state.current == Some(state.tasks[i].id) && (state.tasks[i].budget.max_ticks == 0
            || state.tasks[i].budget.remaining_ticks > 0) ==> {
            let budget = state.tasks[i].budget;
            let charged = BudgetAccount {
                remaining_ticks: if budget.max_ticks == 0 {
                    budget.remaining_ticks
                } else {
                    (budget.remaining_ticks - 1) as u64
                },
                ..budget
            };
            let task = TaskControlBlock {
                state: TaskState::Ready,
                budget: charged,
                ..state.tasks[i]
            };
            let handed_over = SchedulerState { tasks: state.tasks.update(i, task), ..state };
            &&& state.yield_result() == handed_over.schedule_result()
            &&& state.yielded() == handed_over.scheduled()
        },
{
    lemma_current_task(state);
    lemma_task_position(state, i);
}

/// A task that waits can be woken: from `New`, `Running`, `Blocked`, `Sleeping`
/// and `Suspended` it can become ready, and then it takes part in rounds.
pub proof fn law_waiting_tasks_can_be_woken(state: SchedulerState, i: int)
    requires
        state.valid(),
        0 <= i < state.tasks.len(),
        state.tasks[i].state == TaskState::New || state.tasks[i].state == TaskState::Running
            || state.tasks[i].state == TaskState::Blocked || state.tasks[i].state
            == TaskState::Sleeping || state.tasks[i].state == TaskState::Suspended,
    ensures
        ({
            let id = state.tasks[i].id;
            let after = state.transitioned(id, TaskState::Ready);
            &&& state.transition_result(id, TaskState::Ready) == Ok::<
                TaskStateTransition,
                KernelError,
            >(
                TaskStateTransition {
                    task_id: id,
                    from: state.tasks[i].state,
                    to: TaskState::Ready,
                },
            )
            &&& after.tasks[i].state == TaskState::Ready
            &&& after.tasks[i].runnable()
            &&& after.tick < u64::MAX ==> after.schedule_result() != Ok::<
                Option<TaskId>,
                KernelError,
            >(None)
        }),
{
    let id = state.tasks[i].id;
    let after = state.transitioned(id, TaskState::Ready);
    lemma_task_position(state, i);
    lemma_transitioned_valid(state, id, TaskState::Ready);
    if after.tick < u64::MAX {
        law_nobody_outscores_the_selected_task(after, i);
    }
}

/// The lifecycle, by where a task is. A new task can become ready. A ready one
/// can run or be suspended. A running one can become ready, block, sleep or
/// exit. A blocked, sleeping or suspended one can become ready. Any task can
/// become a zombie, and a zombie nothing else. Whatever is not allowed is an
/// invalid state and changes nothing.
pub proof fn law_lifecycle_of_a_task(state: SchedulerState, i: int, to: TaskState)
    requires
        state.valid(),
        0 <= i < state.tasks.len(),
    ensures
        ({
            let id = state.tasks[i].id;
            let allowed = to == TaskState::Zombie || match state.tasks[i].state {
                TaskState::New => to == TaskState::Ready,
                TaskState::Ready => to == TaskState::Running || to == TaskState::Suspended,
                TaskState::Running => to == TaskState::Ready || to == TaskState::Blocked || to
                    == TaskState::Sleeping || to == TaskState::Exiting,
                TaskState::Blocked => to == TaskState::Ready,
                TaskState::Sleeping => to == TaskState::Ready,
                TaskState::Suspended => to == TaskState::Ready,
                TaskState::Exiting => false,
                TaskState::Zombie => false,
            };
            &&& allowed ==> state.transition_result(id, to) == Ok::<
                TaskStateTransition,
                KernelError,
            >(TaskStateTransition { task_id: id, from: state.tasks[i].state, to })
            &&& !allowed ==> state.transition_result(id, to) == Err::<
                TaskStateTransition,
                KernelError,
            >(KernelError::InvalidState)
            &&& !allowed ==> state.transitioned(id, to) == state
        }),
{
    lemma_task_position(state, i);
}

/// A transition moves one task: its state is the one asked for and nothing else
/// of it changes, no other task changes, and it is the current task exactly if
/// it now runs; who else was current stays so.
pub proof fn law_transition_moves_one_task(state: SchedulerState, i: int, to: TaskState, j: int)
    requires
        state.valid(),
        0 <= i < state.tasks.len(),
        0 <= j < state.tasks.len(),
        state.transition_result(state.tasks[i].id, to) is Ok,
    ensures
        ({
            let id = state.tasks[i].id;
            let after = state.transitioned(id, to);
            &&& after.tasks.len() == state.tasks.len()
            &&& after.tasks[i] == (TaskControlBlock { state: to, ..state.tasks[i] })
            &&& j != i ==> after.tasks[j] == state.tasks[j]
            &&& to == TaskState::Running ==> after.current == Some(id)
            &&& to != TaskState::Running && state.current == Some(id) ==> after.current is None
            &&& to != TaskState::Running && state.current != Some(id) ==> after.current
                == state.current
            &&& after.tick == state.tick
            &&& after.next_task_id == state.next_task_id
        }),
{
    lemma_task_position(state, i);
}

/// Every task that is not already exiting or a zombie can be cancelled, which
/// makes it a zombie and changes no other task; the others cannot.
pub proof fn law_cancelled_tasks_are_zombies(state: SchedulerState, i: int, j: int)
    requires
        state.valid(),
        0 <= i < state.tasks.len(),
        0 <= j < state.tasks.len(),
    ensures
        ({
            let id = state.tasks[i].id;
            let before = state.tasks[i];
            let after = state.cancelled(id);
            let gone = before.state == TaskState::Exiting || before.state == TaskState::Zombie;
            &&& !gone ==> {
                &&& state.cancel_result(id) == Ok::<TaskStateTransition, KernelError>(
                    TaskStateTransition { task_id: id, from: before.state, to: TaskState::Zombie },
                )
                &&& after.tasks[i] == (TaskControlBlock { state: TaskState::Zombie, ..before })
                &&& j != i ==> after.tasks[j] == state.tasks[j]
                &&& after.current == if state.current == Some(id) {
                    None
                } else {
                    state.current
                }
                &&& after.tick == state.tick
                &&& after.next_task_id == state.next_task_id
            }
            &&& gone ==> {
                &&& state.cancel_result(id) == Err::<TaskStateTransition, KernelError>(
                    KernelError::InvalidState,
                )
                &&& after == state
            }
        }),
{
    lemma_task_position(state, i);
}

/// Nothing can be done to a task that does not exist.
pub proof fn law_missing_tasks_are_not_found(state: SchedulerState, id: TaskId, to: TaskState)
    requires
        forall|i: int| 0 <= i < state.tasks.len() ==> (#[trigger] state.tasks[i]).id != id,
    ensures
        first_task(state.tasks, id) is None,
        state.transition_result(id, to) == Err::<TaskStateTransition, KernelError>(
            KernelError::NotFound,
        ),
        state.transitioned(id, to) == state,
        state.cancel_result(id) == Err::<TaskStateTransition, KernelError>(KernelError::NotFound),
        state.cancelled(id) == state,
{
    lemma_first_task(state.tasks, id);
}

/// A task can be spawned as long as fewer than 64 exist and identifiers are
/// left. It gets the next identifier, counted from one, and starts ready, at
/// the priority asked for, with weight one, never selected; nothing else
/// changes. A spawn that finds no room uses up its identifier.
pub proof fn law_spawn_adds_a_ready_task(
    state: SchedulerState,
    parent_id: TaskId,
    class: SchedulerClass,
    priority: u8,
    capabilities: CapabilitySet,
    budget: BudgetAccount,
)
    requires
        state.valid(),
    ensures
        ({
            let after = state.spawned(parent_id, class, priority, capabilities, budget);
            let id = state.next_task_id;
            &&& Scheduler::spec_new().next_task_id == 1
            &&& id < u64::MAX && state.tasks.len() < 64 ==> {
                &&& state.spawn_result() == Ok::<TaskId, KernelError>(id)
                &&& after.tasks == state.tasks.push(
                    TaskControlBlock {
                        id,
                        parent_id,
                        state: TaskState::Ready,
                        class,
                        base_priority: priority,
                        dynamic_priority: priority,
                        weight: 1,
                        age: 0,
                        budget,
                        capabilities,
                        context_switches: 0,
                    },
                )
                &&& after.next_task_id == id + 1
            }
            &&& id < u64::MAX && state.tasks.len() == 64 ==> {
                &&& state.spawn_result() == Err::<TaskId, KernelError>(
                    KernelError::CapacityExceeded,
                )
                &&& after.tasks == state.tasks
                &&& after.next_task_id == id + 1
            }
            &&& id == u64::MAX ==> {
                &&& state.spawn_result() == Err::<TaskId, KernelError>(KernelError::Internal)
                &&& after == state
            }
            &&& after.current == state.current
            &&& after.tick == state.tick
        }),
{
}

/// A task is taken into a queue exactly if it has an identifier, no task there
/// has the same, and fewer than 64 are there.
pub proof fn law_queue_takes_new_tasks(tasks: Seq<TaskControlBlock>, task: TaskControlBlock)
    ensures
        insert_error(tasks, task) is None <==> {
            &&& task.id != 0
            &&& forall|i: int| 0 <= i < tasks.len() ==> (#[trigger] tasks[i]).id != task.id
            &&& tasks.len() < 64
        },
        task.id == 0 ==> insert_error(tasks, task) == Some(KernelError::InvalidArgument),
        task.id != 0 && (exists|i: int|
            0 <= i < tasks.len() && (#[trigger] tasks[i]).id == task.id) ==> insert_error(
            tasks,
            task,
        ) == Some(KernelError::Duplicate),
{
    lemma_first_task(tasks, task.id);
}

} // verus!
