use arkouda_proxy::message::{ErrorKind, Outcome};
use arkouda_proxy::registry::{CollectResult, PollResult, TaskRegistry};

fn ok(text: &str) -> Outcome {
    Outcome::Success(text.to_string())
}

#[test]
fn new_registry_is_empty() {
    let reg = TaskRegistry::new();
    assert!(reg.is_empty());
    assert!(!reg.contains("r1"));
    assert_eq!(reg.poll("r1"), PollResult::NotFound);
}

#[test]
fn register_then_poll_is_running() {
    let mut reg = TaskRegistry::new();
    assert_eq!(reg.register("r1", 10), Ok(()));
    assert_eq!(reg.poll("r1"), PollResult::Running);
    assert!(reg.contains("r1"));
    assert!(!reg.is_empty());
}

#[test]
fn poll_does_not_change_a_running_task() {
    let mut reg = TaskRegistry::new();
    reg.register("r1", 10).unwrap();
    assert_eq!(reg.poll("r1"), PollResult::Running);
    assert_eq!(reg.poll("r1"), PollResult::Running);
}

#[test]
fn poll_does_not_remove_a_finished_task() {
    let mut reg = TaskRegistry::new();
    reg.register("r1", 10).unwrap();
    assert!(reg.complete("r1", ok("done")));
    assert_eq!(reg.poll("r1"), PollResult::Completed(ok("done")));
    assert_eq!(reg.poll("r1"), PollResult::Completed(ok("done")));
    assert_eq!(reg.collect("r1"), CollectResult::Completed(ok("done")));
}

#[test]
fn duplicate_running_id_is_refused() {
    let mut reg = TaskRegistry::new();
    reg.register("r1", 10).unwrap();
    assert_eq!(reg.register("r1", 11), Err(ErrorKind::DuplicateId));
    assert_eq!(reg.poll("r1"), PollResult::Running);
    assert!(reg.complete("r1", ok("first")));
    assert_eq!(reg.collect("r1"), CollectResult::Completed(ok("first")));
}

#[test]
fn collect_is_exactly_once() {
    let mut reg = TaskRegistry::new();
    reg.register("r1", 10).unwrap();
    reg.complete("r1", ok("42"));
    assert_eq!(reg.collect("r1"), CollectResult::Completed(ok("42")));
    assert_eq!(reg.collect("r1"), CollectResult::NotFound);
    assert_eq!(reg.poll("r1"), PollResult::NotFound);
    assert!(reg.is_empty());
}

#[test]
fn collect_leaves_a_running_task() {
    let mut reg = TaskRegistry::new();
    reg.register("r1", 10).unwrap();
    assert_eq!(reg.collect("r1"), CollectResult::NotFound);
    assert_eq!(reg.poll("r1"), PollResult::Running);
}

#[test]
fn collect_unknown_is_not_found() {
    let mut reg = TaskRegistry::new();
    assert_eq!(reg.collect("nobody"), CollectResult::NotFound);
}

#[test]
fn complete_needs_a_running_task() {
    let mut reg = TaskRegistry::new();
    assert!(!reg.complete("r1", ok("x")));
    assert_eq!(reg.poll("r1"), PollResult::NotFound);
    reg.register("r1", 1).unwrap();
    assert!(reg.complete("r1", ok("first")));
    assert!(!reg.complete("r1", ok("second")));
    assert_eq!(reg.collect("r1"), CollectResult::Completed(ok("first")));
    assert!(!reg.complete("r1", ok("third")));
    assert_eq!(reg.poll("r1"), PollResult::NotFound);
}

#[test]
fn register_replaces_an_uncollected_result() {
    let mut reg = TaskRegistry::new();
    reg.register("r1", 1).unwrap();
    reg.complete("r1", ok("old"));
    assert_eq!(reg.register("r1", 2), Ok(()));
    assert_eq!(reg.poll("r1"), PollResult::Running);
    assert_eq!(reg.collect("r1"), CollectResult::NotFound);
}

#[test]
fn a_collected_id_can_be_registered_again() {
    let mut reg = TaskRegistry::new();
    reg.register("r1", 1).unwrap();
    reg.complete("r1", ok("a"));
    reg.collect("r1");
    assert_eq!(reg.register("r1", 5), Ok(()));
    assert_eq!(reg.poll("r1"), PollResult::Running);
}

#[test]
fn each_id_gets_its_own_result() {
    let mut reg = TaskRegistry::new();
    let n = 20;
    for i in 0..n {
        assert_eq!(reg.register(&format!("id-{i}"), i), Ok(()));
    }
    for i in (0..n).rev() {
        assert!(reg.complete(&format!("id-{i}"), ok(&format!("result-{i}"))));
    }
    for i in [3u64, 0, 19, 7, 11, 1, 2, 4, 5, 6, 8, 9, 10, 12, 13, 14, 15, 16, 17, 18] {
        assert_eq!(
            reg.collect(&format!("id-{i}")),
            CollectResult::Completed(ok(&format!("result-{i}")))
        );
    }
    assert!(reg.is_empty());
}

#[test]
fn failure_is_collected_like_a_result() {
    let mut reg = TaskRegistry::new();
    reg.register("r1", 1).unwrap();
    let failure = Outcome::Failure(ErrorKind::TransportError, "no route".to_string());
    assert!(reg.complete("r1", failure.clone()));
    assert_eq!(reg.collect("r1"), CollectResult::Completed(failure));
    assert_eq!(reg.collect("r1"), CollectResult::NotFound);
}

#[test]
fn sweep_evicts_old_finished_tasks_only() {
    let mut reg = TaskRegistry::new();
    reg.register("old-done", 0).unwrap();
    reg.register("old-running", 0).unwrap();
    reg.register("edge-done", 50).unwrap();
    reg.register("new-done", 90).unwrap();
    reg.complete("old-done", ok("a"));
    reg.complete("edge-done", ok("b"));
    reg.complete("new-done", ok("c"));
    reg.sweep(100, 50);
    assert_eq!(reg.poll("old-done"), PollResult::NotFound);
    assert_eq!(reg.poll("old-running"), PollResult::Running);
    assert_eq!(reg.poll("edge-done"), PollResult::Completed(ok("b")));
    assert_eq!(reg.poll("new-done"), PollResult::Completed(ok("c")));
    reg.sweep(101, 50);
    assert_eq!(reg.poll("edge-done"), PollResult::NotFound);
    assert_eq!(reg.collect("old-done"), CollectResult::NotFound);
}

#[test]
fn sweep_evicts_neighbours() {
    let mut reg = TaskRegistry::new();
    for i in 0..6u64 {
        reg.register(&format!("t{i}"), 0).unwrap();
        reg.complete(&format!("t{i}"), ok("x"));
    }
    reg.register("late", 10).unwrap();
    reg.complete("late", ok("y"));
    reg.sweep(10, 5);
    for i in 0..6u64 {
        assert_eq!(reg.poll(&format!("t{i}")), PollResult::NotFound);
    }
    assert_eq!(reg.poll("late"), PollResult::Completed(ok("y")));
}

#[test]
fn sweep_with_a_clock_that_ran_back_evicts_nothing() {
    let mut reg = TaskRegistry::new();
    reg.register("r1", 100).unwrap();
    reg.complete("r1", ok("a"));
    reg.sweep(5, 0);
    assert_eq!(reg.poll("r1"), PollResult::Completed(ok("a")));
}

#[test]
fn expire_fails_overdue_running_tasks() {
    let mut reg = TaskRegistry::new();
    reg.register("slow", 0).unwrap();
    reg.register("edge", 70).unwrap();
    reg.register("done", 0).unwrap();
    reg.complete("done", ok("fine"));
    reg.expire(100, 30);
    let timed_out = Outcome::Failure(ErrorKind::Timeout, "task exceeded its deadline".to_string());
    assert_eq!(reg.poll("slow"), PollResult::Completed(timed_out.clone()));
    assert_eq!(reg.poll("edge"), PollResult::Running);
    assert_eq!(reg.poll("done"), PollResult::Completed(ok("fine")));
    reg.expire(101, 30);
    assert_eq!(reg.collect("edge"), CollectResult::Completed(timed_out.clone()));
    assert_eq!(reg.collect("slow"), CollectResult::Completed(timed_out));
    assert!(!reg.complete("slow", ok("too late")));
    assert_eq!(reg.poll("slow"), PollResult::NotFound);
}

#[test]
fn a_result_that_comes_after_the_deadline_is_dropped() {
    let mut reg = TaskRegistry::new();
    reg.register("slow", 0).unwrap();
    reg.expire(10, 5);
    assert!(!reg.complete("slow", ok("late")));
    assert_eq!(
        reg.collect("slow"),
        CollectResult::Completed(Outcome::Failure(
            ErrorKind::Timeout,
            "task exceeded its deadline".to_string()
        ))
    );
}

#[test]
fn len_counts_running_and_finished_tasks() {
    let mut reg = TaskRegistry::new();
    assert_eq!(reg.len(), 0);
    reg.register("a", 1).unwrap();
    reg.register("b", 1).unwrap();
    assert_eq!(reg.register("a", 2), Err(ErrorKind::DuplicateId));
    assert_eq!(reg.len(), 2);
    reg.complete("a", ok("x"));
    assert_eq!(reg.len(), 2);
    reg.collect("a");
    assert_eq!(reg.len(), 1);
    reg.collect("b");
    assert_eq!(reg.len(), 1);
}

#[test]
fn default_registry_is_empty() {
    let reg = TaskRegistry::default();
    assert!(reg.is_empty());
    assert_eq!(reg.len(), 0);
}

#[test]
fn the_empty_id_is_an_id_like_any_other() {
    let mut reg = TaskRegistry::new();
    assert_eq!(reg.register("", 1), Ok(()));
    assert_eq!(reg.poll(""), PollResult::Running);
    assert_eq!(reg.poll(" "), PollResult::NotFound);
    assert_eq!(reg.register("", 2), Err(ErrorKind::DuplicateId));
}

#[test]
fn ids_are_compared_whole() {
    let mut reg = TaskRegistry::new();
    reg.register("r1", 1).unwrap();
    assert_eq!(reg.poll("r"), PollResult::NotFound);
    assert_eq!(reg.poll("r10"), PollResult::NotFound);
    assert_eq!(reg.poll("R1"), PollResult::NotFound);
    assert_eq!(reg.register("r10", 1), Ok(()));
    assert!(reg.complete("r10", ok("ten")));
    assert_eq!(reg.poll("r1"), PollResult::Running);
}
