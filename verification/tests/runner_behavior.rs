use mini_executor::Countdown;
use mini_executor::MiniExecutor;
use mini_executor::RegisteringCountdown;

#[test]
fn immediately_ready_computation_completes_on_first_poll() {
    let mut executor = MiniExecutor::new(Countdown { pending_left: 0 });
    assert!(!executor.is_done());
    executor.run();
    assert!(executor.is_done());
    assert_eq!(executor.handle_refs(), 1);
}

#[test]
fn pending_computation_is_retried_until_ready() {
    let mut executor = MiniExecutor::new(Countdown { pending_left: 3 });
    executor.run();
    assert!(executor.is_done());
    assert_eq!(executor.handle_refs(), 1);
}

#[test]
fn running_again_after_completion_is_a_no_op() {
    let mut executor = MiniExecutor::new(Countdown { pending_left: 1 });
    executor.run();
    assert!(executor.is_done());
    let refs_after_first = executor.handle_refs();
    executor.run();
    assert!(executor.is_done());
    assert_eq!(executor.handle_refs(), refs_after_first);
}

#[test]
fn waking_a_handle_drives_the_runner_to_completion() {
    let mut executor = MiniExecutor::new(Countdown { pending_left: 2 });
    let handle = executor.make_handle();
    let cloned = executor.clone_handle(&handle);
    executor.release_handle(handle);
    executor.wake(cloned);
    assert!(executor.is_done());
    assert_eq!(executor.handle_refs(), 1);
}

#[test]
fn registering_computation_leaves_reference_count_unchanged() {
    let mut executor = MiniExecutor::new(RegisteringCountdown { pending_left: 2 });
    let before = executor.handle_refs();
    executor.run();
    assert!(executor.is_done());
    assert_eq!(executor.handle_refs(), before);
    assert_eq!(before, 1);
}

#[test]
fn waking_an_already_completed_runner_returns_at_once() {
    let mut executor = MiniExecutor::new(Countdown { pending_left: 0 });
    executor.run();
    assert!(executor.is_done());
    let handle = executor.make_handle();
    executor.wake(handle);
    assert!(executor.is_done());
    assert_eq!(executor.handle_refs(), 1);
}

#[test]
fn handles_work_on_an_unrun_largest_countdown() {
    let mut executor = MiniExecutor::new(Countdown { pending_left: u64::MAX });
    let handle = executor.make_handle();
    assert_eq!(executor.handle_refs(), 2);
    executor.release_handle(handle);
    assert_eq!(executor.handle_refs(), 1);
    assert!(!executor.is_done());
}
