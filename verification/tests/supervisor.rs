use jd_client::error::Error;
use jd_client::supervisor::{RoleKind, TaskHandle, TaskSupervisor};

fn task(id: u64, role: RoleKind) -> TaskHandle {
    TaskHandle { id, role }
}

#[test]
fn initialize_gives_an_empty_supervisor() {
    let s = TaskSupervisor::initialize();
    assert_eq!(s.task_count(), 0);
    assert!(!s.is_torn_down());
    assert_eq!(s.task_at(0), None);
}

#[test]
fn register_keeps_the_order_of_registration() {
    let mut s = TaskSupervisor::initialize();
    assert_eq!(s.register(task(10, RoleKind::JobDeclarator)), Ok(()));
    assert_eq!(s.register(task(11, RoleKind::Downstream)), Ok(()));
    assert_eq!(s.task_count(), 2);
    assert_eq!(s.task_at(0), Some(task(10, RoleKind::JobDeclarator)));
    assert_eq!(s.task_at(1), Some(task(11, RoleKind::Downstream)));
    assert_eq!(s.task_at(2), None);
}

#[test]
fn no_task_is_cancelled_before_the_handle_is_used() {
    let mut s = TaskSupervisor::initialize();
    let _aborter = s.get_aborter().unwrap();
    s.register(task(1, RoleKind::Upstream)).unwrap();
    s.register(task(2, RoleKind::Downstream)).unwrap();
    assert!(!s.is_cancelled(task(1, RoleKind::Upstream)));
    assert!(!s.is_cancelled(task(2, RoleKind::Downstream)));
}

#[test]
fn abort_all_cancels_every_registered_task() {
    let mut s = TaskSupervisor::initialize();
    let tasks = [
        task(1, RoleKind::JobDeclarator),
        task(2, RoleKind::Downstream),
        task(3, RoleKind::Upstream),
        task(4, RoleKind::TemplateReceiver),
    ];
    for t in tasks {
        s.register(t).unwrap();
    }
    let aborter = s.get_aborter().unwrap();
    s.abort_all(aborter);
    assert!(s.is_torn_down());
    assert_eq!(s.task_count(), 4);
    for t in tasks {
        assert!(s.is_cancelled(t));
    }
    assert!(!s.is_cancelled(task(5, RoleKind::Upstream)));
    assert!(!s.is_cancelled(task(1, RoleKind::Upstream)));
}

#[test]
fn handle_taken_early_covers_later_registrations() {
    let mut s = TaskSupervisor::initialize();
    let aborter = s.get_aborter().unwrap();
    s.register(task(7, RoleKind::Upstream)).unwrap();
    s.register(task(8, RoleKind::TemplateReceiver)).unwrap();
    s.abort_all(aborter);
    assert!(s.is_cancelled(task(7, RoleKind::Upstream)));
    assert!(s.is_cancelled(task(8, RoleKind::TemplateReceiver)));
}

#[test]
fn torn_down_supervisor_refuses_tasks_and_handles() {
    let mut s = TaskSupervisor::initialize();
    s.register(task(1, RoleKind::Upstream)).unwrap();
    let aborter = s.get_aborter().unwrap();
    s.abort_all(aborter);
    assert_eq!(s.register(task(2, RoleKind::Downstream)), Err(Error::SupervisionFailed));
    assert_eq!(s.task_count(), 1);
    assert!(matches!(s.get_aborter(), Err(Error::SupervisionFailed)));
}

#[test]
fn aborting_an_empty_supervisor_tears_it_down() {
    let mut s = TaskSupervisor::initialize();
    let aborter = s.get_aborter().unwrap();
    s.abort_all(aborter);
    assert!(s.is_torn_down());
    assert_eq!(s.task_count(), 0);
}
