use std::cell::Cell;
use std::sync::Arc;

use llmflow::errors::NodeError;
use llmflow::node::{ExecDirective, Node};

#[test]
fn create_with_name_reports_it() {
    let node = Node::new(Some("alpha")).unwrap();
    assert_eq!(node.name(), "alpha");
    assert_eq!(node.max_retries(), 0);
    assert_eq!(node.wait(), 0);
    assert!(node.next().is_none());
}

#[test]
fn create_without_name_uses_default() {
    let node = Node::new(None).unwrap();
    assert_eq!(node.name(), "default");
}

#[test]
fn create_empty_name_rejected() {
    let r = Node::new(Some(""));
    assert!(matches!(r, Err(NodeError::EmptyNodeName)));
}

#[test]
fn retries_within_ceiling_accepted() {
    for r in 0u8..=10 {
        let node = Node::new(Some("n")).unwrap().with_retries(r).unwrap();
        assert_eq!(node.max_retries(), r);
    }
}

#[test]
fn retries_above_ceiling_rejected() {
    for r in [11u8, 12, 100, 255] {
        let e = Node::new(Some("n")).unwrap().with_retries(r);
        match e {
            Err(NodeError::InvalidRetryCount(given, max)) => {
                assert_eq!(given, r);
                assert_eq!(max, 10);
            }
            _ => panic!("retry count {} was not rejected", r),
        }
    }
}

#[test]
fn wait_within_ceiling_accepted() {
    for w in 0u8..=60 {
        let node = Node::new(Some("n")).unwrap().with_wait(w).unwrap();
        assert_eq!(node.wait(), w);
    }
}

#[test]
fn wait_above_ceiling_rejected() {
    for w in [61u8, 100, 255] {
        let e = Node::new(Some("n")).unwrap().with_wait(w);
        match e {
            Err(NodeError::InvalidWaitTime(given, max)) => {
                assert_eq!(given, w);
                assert_eq!(max, 60);
            }
            _ => panic!("wait time {} was not rejected", w),
        }
    }
}

#[test]
fn attach_then_get_successor() {
    let successor = Arc::new(Node::new(Some("second")).unwrap());
    let node = Node::new(Some("first")).unwrap().with_next(successor.clone());
    let got = node.next().expect("successor was attached");
    assert!(Arc::ptr_eq(got, &successor));
    assert_eq!(got.name(), "second");
    assert_eq!(node.name(), "first");
}

#[test]
fn builder_order_independent() {
    let a = Node::new(Some("n"))
        .unwrap()
        .with_retries(3)
        .unwrap()
        .with_wait(7)
        .unwrap();
    let b = Node::new(Some("n"))
        .unwrap()
        .with_wait(7)
        .unwrap()
        .with_retries(3)
        .unwrap();
    assert_eq!(a.name(), b.name());
    assert_eq!(a.max_retries(), b.max_retries());
    assert_eq!(a.wait(), b.wait());
    assert!(a.next().is_none() && b.next().is_none());
}

#[test]
fn exec_succeeds() {
    let node = Node::new(Some("n")).unwrap().with_retries(10).unwrap();
    assert!(node.exec().is_ok());
}

#[test]
fn succeeding_work_runs_once() {
    let node = Node::new(Some("n"))
        .unwrap()
        .with_retries(10)
        .unwrap()
        .with_wait(60)
        .unwrap();
    let calls = Cell::new(0u32);
    let (result, attempts) = node.exec_with(|_attempt| {
        calls.set(calls.get() + 1);
        Ok(())
    });
    assert!(result.is_ok());
    assert_eq!(attempts, 1);
    assert_eq!(calls.get(), 1);
}

#[test]
fn failing_work_exhausts_retries() {
    let node = Node::new(Some("n"))
        .unwrap()
        .with_retries(4)
        .unwrap()
        .with_wait(0)
        .unwrap();
    let calls = Cell::new(0u32);
    let (result, attempts) = node.exec_with(|_attempt| {
        calls.set(calls.get() + 1);
        Err(NodeError::ExecutionError("boom".to_string()))
    });
    assert_eq!(attempts, 5);
    assert_eq!(calls.get(), 5);
    match result {
        Err(NodeError::RetryLimitExceeded { attempts, message }) => {
            assert_eq!(attempts, 4);
            assert_eq!(message, "Node execution failed: boom");
        }
        _ => panic!("expected the retry limit to be reported"),
    }
}

#[test]
fn work_receives_attempt_indices() {
    let node = Node::new(Some("n")).unwrap().with_retries(2).unwrap();
    let seen = Cell::new(0u8);
    let (_result, attempts) = node.exec_with(|attempt| {
        assert_eq!(attempt, seen.get());
        seen.set(seen.get() + 1);
        Err(NodeError::ExecutionError("again".to_string()))
    });
    assert_eq!(attempts, 3);
    assert_eq!(seen.get(), 3);
}

#[test]
fn scenario_fetch_with_two_retries() {
    let start = std::time::Instant::now();
    let node = Node::new(Some("fetch"))
        .unwrap()
        .with_retries(2)
        .unwrap()
        .with_wait(0)
        .unwrap();
    let calls = Cell::new(0u32);
    let (result, attempts) = node.exec_with(|_attempt| {
        calls.set(calls.get() + 1);
        Err(NodeError::ExecutionError("fetch failed".to_string()))
    });
    assert_eq!(attempts, 3);
    assert_eq!(calls.get(), 3);
    match result {
        Err(NodeError::RetryLimitExceeded { attempts, message }) => {
            assert_eq!(attempts, 2);
            assert_eq!(message, "Node execution failed: fetch failed");
        }
        _ => panic!("expected the retry limit to be reported"),
    }
    assert!(start.elapsed().as_secs() < 5);
}

#[test]
fn exec_step_success_completes_at_once() {
    let node = Node::new(Some("n"))
        .unwrap()
        .with_retries(5)
        .unwrap()
        .with_wait(9)
        .unwrap();
    let d = node.exec_step(0, Ok(()));
    assert!(matches!(d, ExecDirective::Complete(Ok(()))));
}

#[test]
fn exec_step_failure_below_limit_waits() {
    let node = Node::new(Some("n"))
        .unwrap()
        .with_retries(5)
        .unwrap()
        .with_wait(9)
        .unwrap();
    let d = node.exec_step(2, Err(NodeError::ExecutionError("x".to_string())));
    match d {
        ExecDirective::RetryAfter {
            seconds,
            next_attempt,
        } => {
            assert_eq!(seconds, 9);
            assert_eq!(next_attempt, 3);
        }
        _ => panic!("expected a retry directive"),
    }
}

#[test]
fn exec_step_failure_at_limit_reports() {
    let node = Node::new(Some("n")).unwrap().with_retries(5).unwrap();
    let d = node.exec_step(5, Err(NodeError::ExecutionError("x".to_string())));
    match d {
        ExecDirective::Complete(Err(NodeError::RetryLimitExceeded { attempts, message })) => {
            assert_eq!(attempts, 5);
            assert_eq!(message, "Node execution failed: x");
        }
        _ => panic!("expected the retry limit to be reported"),
    }
}

#[test]
fn error_messages_are_exact() {
    assert_eq!(
        NodeError::ExecutionError("boom".to_string()).message(),
        "Node execution failed: boom"
    );
    assert_eq!(
        NodeError::InvalidRetryCount(11, 10).message(),
        "Invalid retry count: 11. Maximum allowed retries is 10"
    );
    assert_eq!(
        NodeError::InvalidRetryCount(255, 10).message(),
        "Invalid retry count: 255. Maximum allowed retries is 10"
    );
    assert_eq!(
        NodeError::InvalidWaitTime(61, 60).message(),
        "Invalid wait time: 61 seconds. Maximum allowed wait time is 60 seconds"
    );
    assert_eq!(
        NodeError::EmptyNodeName.message(),
        "Node name cannot be empty"
    );
    assert_eq!(
        NodeError::RetryLimitExceeded {
            attempts: 3,
            message: "gone".to_string(),
        }
        .message(),
        "Execution retry limit reached after 3 attempts: gone"
    );
    assert_eq!(NodeError::InvalidRetryCount(0, 10).message(), "Invalid retry count: 0. Maximum allowed retries is 10");
}

#[test]
fn shared_successor_kept_by_multiple_nodes() {
    let shared = Arc::new(Node::new(Some("shared")).unwrap());
    let a = Node::new(Some("a")).unwrap().with_next(shared.clone());
    let b = Node::new(Some("b")).unwrap().with_next(shared.clone());
    assert!(Arc::ptr_eq(a.next().unwrap(), b.next().unwrap()));
}
