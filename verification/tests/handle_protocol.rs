use mini_executor::Computation;
use mini_executor::Countdown;
use mini_executor::MiniExecutor;
use mini_executor::NeverReady;
use mini_executor::PollResult;
use mini_executor::RunnerIdentity;

#[test]
fn fresh_identity_holds_one_root_reference() {
    let identity = RunnerIdentity::root();
    assert_eq!(identity.current_refs(), 1);
}

#[test]
fn construct_handle_takes_one_reference() {
    let mut identity = RunnerIdentity::root();
    let handle = identity.construct_handle();
    assert_eq!(identity.current_refs(), 2);
    identity.drop_handle(handle);
    assert_eq!(identity.current_refs(), 1);
}

#[test]
fn clone_then_release_is_count_inverse() {
    let mut executor = MiniExecutor::new(Countdown { pending_left: 5 });
    let original = executor.make_handle();
    let before = executor.handle_refs();
    let clone = executor.clone_handle(&original);
    assert_eq!(executor.handle_refs(), before + 1);
    executor.release_handle(clone);
    assert_eq!(executor.handle_refs(), before);
    executor.release_handle(original);
    assert_eq!(executor.handle_refs(), before - 1);
}

#[test]
fn wake_by_ref_changes_nothing() {
    let mut executor = MiniExecutor::new(Countdown { pending_left: 5 });
    let handle = executor.make_handle();
    let before = executor.handle_refs();
    executor.wake_by_ref(&handle);
    assert_eq!(executor.handle_refs(), before);
    assert!(!executor.is_done());
    executor.release_handle(handle);
}

#[test]
fn polling_a_countdown_reports_pending_then_ready() {
    let mut identity = RunnerIdentity::root();
    let handle = identity.construct_handle();
    let mut computation = Countdown { pending_left: 2 };
    assert_eq!(computation.poll(&mut identity, &handle), PollResult::Pending);
    assert_eq!(computation.poll(&mut identity, &handle), PollResult::Pending);
    assert_eq!(computation.poll(&mut identity, &handle), PollResult::Ready);
    assert_eq!(identity.current_refs(), 2);
    identity.drop_handle(handle);
}

#[test]
fn never_ready_computation_stays_pending_and_balanced() {
    let mut identity = RunnerIdentity::root();
    let handle = identity.construct_handle();
    let mut computation = NeverReady {};
    assert_eq!(computation.poll(&mut identity, &handle), PollResult::Pending);
    assert_eq!(computation.poll(&mut identity, &handle), PollResult::Pending);
    assert_eq!(computation.poll(&mut identity, &handle), PollResult::Pending);
    assert_eq!(identity.current_refs(), 2);
    identity.drop_handle(handle);
    assert_eq!(identity.current_refs(), 1);
}
