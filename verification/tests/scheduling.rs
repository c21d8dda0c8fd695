use alani_kernel::capability::{Capability, CapabilitySet};
use alani_kernel::error::KernelError;
use alani_kernel::scheduler::{
    BudgetAccount, RunQueue, Scheduler, SchedulerClass, TaskControlBlock, TaskState,
    DEFAULT_PRIORITY, MAX_TASKS,
};

fn spawn(scheduler: &mut Scheduler, class: SchedulerClass, priority: u8) -> u64 {
    scheduler
        .spawn(0, class, priority, CapabilitySet::empty(), BudgetAccount::unlimited())
        .unwrap()
}

#[test]
fn class_boosts_are_exact() {
    assert_eq!(SchedulerClass::Audit.boost(), 96);
    assert_eq!(SchedulerClass::Kernel.boost(), 80);
    assert_eq!(SchedulerClass::Runtime.boost(), 48);
    assert_eq!(SchedulerClass::Interactive.boost(), 32);
    assert_eq!(SchedulerClass::Cognitive.boost(), 16);
    assert_eq!(SchedulerClass::Background.boost(), 0);
}

#[test]
fn budgets_afford_their_ticks() {
    let mut budget = BudgetAccount::bounded(2, 0).unwrap();
    assert!(!budget.is_unbounded());
    assert_eq!(budget.consume_tick(), Ok(()));
    assert_eq!(budget.consume_tick(), Ok(()));
    assert_eq!(budget.consume_tick(), Err(KernelError::DeadlineExceeded));
    assert_eq!(budget.remaining_ticks, 0);
    assert_eq!(
        BudgetAccount::bounded(0, 0),
        Err(KernelError::InvalidArgument)
    );
    let mut unlimited = BudgetAccount::unlimited();
    assert!(unlimited.is_unbounded());
    assert_eq!(unlimited.consume_tick(), Ok(()));
    assert_eq!(unlimited, BudgetAccount::unlimited());
}

#[test]
fn deadlines_expire_at_their_tick() {
    let budget = BudgetAccount::bounded(0, 5).unwrap();
    assert!(!budget.deadline_expired(4));
    assert!(budget.deadline_expired(5));
    assert!(!BudgetAccount::unlimited().deadline_expired(u64::MAX));
}

#[test]
fn queue_finds_what_was_inserted() {
    let mut queue = RunQueue::new();
    assert!(queue.is_empty());
    let task = TaskControlBlock::new(
        7,
        1,
        SchedulerClass::Runtime,
        DEFAULT_PRIORITY,
        CapabilitySet::empty(),
        BudgetAccount::unlimited(),
    );
    assert_eq!(queue.insert(TaskControlBlock::empty()), Err(KernelError::InvalidArgument));
    assert_eq!(queue.insert(task), Ok(()));
    assert_eq!(queue.insert(task), Err(KernelError::Duplicate));
    assert_eq!(queue.get(7), Some(&task));
    assert_eq!(queue.get(8), None);
    assert_eq!(queue.len(), 1);
    queue.get_mut(7).unwrap().age = 3;
    assert_eq!(queue.get(7).unwrap().age, 3);
    assert_eq!(queue.tasks().len(), 1);
    assert_eq!(queue.tasks()[0].id, 7);
}

#[test]
fn queue_capacity_is_bounded() {
    let mut scheduler = Scheduler::new();
    for _ in 0..MAX_TASKS {
        spawn(&mut scheduler, SchedulerClass::Background, 1);
    }
    let refused = scheduler.spawn(
        0,
        SchedulerClass::Background,
        1,
        CapabilitySet::empty(),
        BudgetAccount::unlimited(),
    );
    assert_eq!(refused, Err(KernelError::CapacityExceeded));
    assert_eq!(scheduler.run_queue().len(), MAX_TASKS);
}

#[test]
fn spawned_tasks_are_fresh_and_ready() {
    let mut scheduler = Scheduler::new();
    let rights = CapabilitySet::single(Capability::DeviceCall);
    let first = spawn(&mut scheduler, SchedulerClass::Runtime, 1);
    let second = scheduler
        .spawn(first, SchedulerClass::Kernel, 9, rights, BudgetAccount::unlimited())
        .unwrap();
    assert_eq!((first, second), (1, 2));
    let task = scheduler.run_queue().get(second).unwrap();
    assert_eq!(task.state, TaskState::Ready);
    assert_eq!(task.parent_id, first);
    assert_eq!(task.class, SchedulerClass::Kernel);
    assert_eq!(task.base_priority, 9);
    assert_eq!(task.dynamic_priority, 9);
    assert_eq!(task.capabilities, rights);
    assert_eq!(task.age, 0);
    assert_eq!(task.context_switches, 0);
    assert_eq!(scheduler.current_task(), None);
}

#[test]
fn first_of_equal_scores_runs() {
    let mut scheduler = Scheduler::new();
    let first = spawn(&mut scheduler, SchedulerClass::Runtime, 10);
    let second = spawn(&mut scheduler, SchedulerClass::Runtime, 10);
    assert_eq!(scheduler.schedule_next(), Ok(Some(first)));
    assert_eq!(scheduler.tick(), 1);
    assert_eq!(scheduler.current_task(), Some(first));
    let waiting = scheduler.run_queue().get(second).unwrap();
    assert_eq!((waiting.age, waiting.dynamic_priority), (1, 10));
    assert_eq!(scheduler.yield_current(), Ok(Some(second)));
}

#[test]
fn one_task_runs_after_each_round() {
    let mut scheduler = Scheduler::new();
    for priority in 1..6 {
        spawn(&mut scheduler, SchedulerClass::Runtime, priority);
    }
    for _ in 0..20 {
        let selected = scheduler.yield_current().unwrap().unwrap();
        let running: Vec<u64> = scheduler
            .run_queue()
            .tasks()
            .iter()
            .filter(|task| task.state == TaskState::Running)
            .map(|task| task.id)
            .collect();
        assert_eq!(running, vec![selected]);
    }
}

#[test]
fn passed_over_tasks_gain_priority() {
    let mut scheduler = Scheduler::new();
    let low = spawn(&mut scheduler, SchedulerClass::Background, 10);
    spawn(&mut scheduler, SchedulerClass::Audit, 200);
    for _ in 0..8 {
        scheduler.schedule_next().unwrap();
    }
    let task = scheduler.run_queue().get(low).unwrap();
    assert_eq!(task.age, 8);
    assert_eq!(task.dynamic_priority, 12);
    assert_eq!(task.base_priority, 10);
}

#[test]
fn waiting_task_runs_in_the_end() {
    let mut scheduler = Scheduler::new();
    let low = spawn(&mut scheduler, SchedulerClass::Background, 1);
    spawn(&mut scheduler, SchedulerClass::Audit, 255);
    let mut ran = false;
    for _ in 0..1000 {
        ran = ran || scheduler.schedule_next().unwrap() == Some(low);
    }
    assert!(ran);
}

#[test]
fn expired_deadline_raises_the_score() {
    let mut scheduler = Scheduler::new();
    spawn(&mut scheduler, SchedulerClass::Audit, 10);
    let late = scheduler
        .spawn(
            0,
            SchedulerClass::Background,
            10,
            CapabilitySet::empty(),
            BudgetAccount::bounded(0, 1).unwrap(),
        )
        .unwrap();
    assert_eq!(scheduler.schedule_next(), Ok(Some(late)));
}

#[test]
fn exhausted_budget_stops_a_yield() {
    let mut scheduler = Scheduler::new();
    let task = scheduler
        .spawn(
            0,
            SchedulerClass::Runtime,
            1,
            CapabilitySet::empty(),
            BudgetAccount::bounded(1, 0).unwrap(),
        )
        .unwrap();
    assert_eq!(scheduler.schedule_next(), Ok(Some(task)));
    assert_eq!(scheduler.yield_current(), Ok(Some(task)));
    assert_eq!(scheduler.yield_current(), Err(KernelError::DeadlineExceeded));
    assert_eq!(scheduler.tick(), 2);
    assert_eq!(scheduler.current_task(), Some(task));
    assert_eq!(
        scheduler.run_queue().get(task).unwrap().state,
        TaskState::Running
    );
}

#[test]
fn task_transitions_follow_the_lifecycle() {
    let mut scheduler = Scheduler::new();
    let task = spawn(&mut scheduler, SchedulerClass::Runtime, 1);
    assert_eq!(
        scheduler.transition(task, TaskState::Blocked),
        Err(KernelError::InvalidState)
    );
    assert_eq!(
        scheduler.transition(99, TaskState::Running),
        Err(KernelError::NotFound)
    );
    let step = scheduler.transition(task, TaskState::Running).unwrap();
    assert_eq!((step.task_id, step.from, step.to), (task, TaskState::Ready, TaskState::Running));
    assert_eq!(scheduler.current_task(), Some(task));
    scheduler.transition(task, TaskState::Sleeping).unwrap();
    assert_eq!(scheduler.current_task(), None);
    assert_eq!(scheduler.schedule_next(), Ok(None));
    scheduler.transition(task, TaskState::Ready).unwrap();
    assert_eq!(scheduler.schedule_next(), Ok(Some(task)));
}

#[test]
fn cancelled_tasks_never_come_back() {
    let mut scheduler = Scheduler::new();
    let task = spawn(&mut scheduler, SchedulerClass::Runtime, 1);
    scheduler.schedule_next().unwrap();
    let step = scheduler.cancel(task).unwrap();
    assert_eq!((step.from, step.to), (TaskState::Running, TaskState::Zombie));
    assert_eq!(scheduler.current_task(), None);
    assert_eq!(scheduler.cancel(task), Err(KernelError::InvalidState));
    assert_eq!(scheduler.cancel(99), Err(KernelError::NotFound));
    assert_eq!(
        scheduler.transition(task, TaskState::Ready),
        Err(KernelError::InvalidState)
    );
    assert_eq!(scheduler.schedule_next(), Ok(None));
    assert_eq!(
        scheduler.run_queue().get(task).unwrap().state,
        TaskState::Zombie
    );
}
