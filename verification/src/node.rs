//! A unit of work with a name, an optional shared successor and a bounded,
//! fixed-delay retry policy for its execution.

use std::sync::Arc;
use vstd::prelude::*;
use crate::errors::NodeError;

verus! {

/// Ceiling on the number of retries a node may be configured with.
const MAX_RETRIES: u8 = 10;

/// Ceiling on the wait, in seconds, between two attempts.
const MAX_WAIT_SECONDS: u8 = 60;

/// A node in the graph: a named unit of work, an optional shared reference
/// to a successor node, and its retry configuration.
#[derive(Debug, Clone)]
pub struct Node {
    name: String,
    next: Option<Arc<Node>>,
    max_retries: u8,
    wait: u8,
}

/// Whether a failure is among the outcomes `work` admits for the attempt
/// with index `i`.
pub open spec fn work_may_fail_at<F: Fn(u8) -> Result<(), NodeError>>(work: F, i: u8) -> bool {
    exists|e: NodeError| call_ensures(work, (i,), Err::<(), NodeError>(e))
}

/// Whether a success is among the outcomes `work` admits for the attempt
/// with index `i`.
pub open spec fn work_may_succeed_at<F: Fn(u8) -> Result<(), NodeError>>(work: F, i: u8) -> bool {
    exists|o: Result<(), NodeError>| #[trigger] call_ensures(work, (i,), o) && o is Ok
}

/// The name a node resolves from an optional argument: the given string, or
/// a fixed default when none is given.
pub open spec fn resolved_name(name: Option<&str>) -> Seq<char> {
    match name {
        Some(s) => s@,
        None => "default"@,
    }
}

impl Node {
    /// The node's name.
    pub closed spec fn spec_name(&self) -> Seq<char> {
        self.name@
    }

    /// The node's successor, if one was attached.
    pub closed spec fn spec_next(&self) -> Option<Arc<Node>> {
        self.next
    }

    /// The configured number of additional attempts after a first failure.
    pub closed spec fn spec_max_retries(&self) -> u8 {
        self.max_retries
    }

    /// The configured delay, in seconds, between a failure and the next
    /// attempt.
    pub closed spec fn spec_wait(&self) -> u8 {
        self.wait
    }

    /// What holds of every constructed node: a non-empty name and retry
    /// configuration within the ceilings.
    pub open spec fn wf(&self) -> bool {
        self.spec_name().len() > 0 && self.spec_max_retries() <= 10 && self.spec_wait() <= 60
    }

    /// Creates a node with the given name, no successor, zero retries and
    /// zero wait. An explicitly empty name is rejected.
    pub fn new(name: Option<&str>) -> (r: Result<Node, NodeError>)
        ensures
            resolved_name(name).len() == 0 ==> r == Err::<Node, NodeError>(
                NodeError::EmptyNodeName,
            ),
            resolved_name(name).len() > 0 ==> (r matches Ok(node)
                && node.spec_name() == resolved_name(name) && node.spec_next() is None
                && node.spec_max_retries() == 0 && node.spec_wait() == 0 && node.wf()),
            name is None ==> (r matches Ok(node) && node.spec_name() == "default"@),
    {
        let resolved: String = name.unwrap_or("default").to_owned();
        proof {
            reveal_strlit("default");
        }
        if resolved.as_str().is_empty() {
            Err(NodeError::EmptyNodeName)
        } else {
            Ok(
                Node {
                    name: resolved,
                    next: None,
                    max_retries: 0,
                    wait: 0,
                },
            )
        }
    }

    /// `self` with the successor replaced by `node`.
    pub closed spec fn spec_with_next(self, node: Arc<Node>) -> Node {
        Node { next: Some(node), ..self }
    }

    /// `self` with the retry count replaced by `retries`.
    pub closed spec fn spec_with_retries(self, retries: u8) -> Node {
        Node { max_retries: retries, ..self }
    }

    /// `self` with the wait time replaced by `wait`.
    pub closed spec fn spec_with_wait(self, wait: u8) -> Node {
        Node { wait, ..self }
    }

    /// Replaces the successor with the given shared node.
    pub fn with_next(self, node: Arc<Node>) -> (r: Node)
        ensures
            r == self.spec_with_next(node),
            r.spec_name() == self.spec_name(),
            r.spec_next() == Some(node),
            r.spec_max_retries() == self.spec_max_retries(),
            r.spec_wait() == self.spec_wait(),
    {
        let mut this = self;
        this.next = Some(node);
        this
    }

    /// Sets the number of retries, rejecting a count above the ceiling.
    pub fn with_retries(self, retries: u8) -> (r: Result<Node, NodeError>)
        ensures
            retries <= 10 ==> (r matches Ok(node) && node == self.spec_with_retries(retries)
                && node.spec_name() == self.spec_name() && node.spec_next() == self.spec_next()
                && node.spec_max_retries() == retries && node.spec_wait() == self.spec_wait()),
            retries > 10 ==> r == Err::<Node, NodeError>(
                NodeError::InvalidRetryCount(retries, 10),
            ),
    {
        if retries > MAX_RETRIES {
            return Err(NodeError::InvalidRetryCount(retries, MAX_RETRIES));
        }
        let mut this = self;
        this.max_retries = retries;
        Ok(this)
    }

    /// Sets the wait time, in seconds, between retries, rejecting one above
    /// the ceiling.
    pub fn with_wait(self, wait: u8) -> (r: Result<Node, NodeError>)
        ensures
            wait <= 60 ==> (r matches Ok(node) && node == self.spec_with_wait(wait)
                && node.spec_name() == self.spec_name() && node.spec_next() == self.spec_next()
                && node.spec_max_retries() == self.spec_max_retries() && node.spec_wait()
                == wait),
            wait > 60 ==> r == Err::<Node, NodeError>(NodeError::InvalidWaitTime(wait, 60)),
    {
        if wait > MAX_WAIT_SECONDS {
            return Err(NodeError::InvalidWaitTime(wait, MAX_WAIT_SECONDS));
        }
        let mut this = self;
        this.wait = wait;
        Ok(this)
    }

    /// Returns a reference to the next node in the graph, if one was
    /// attached.
    pub fn next(&self) -> (r: Option<&Arc<Node>>)
        ensures
            r is Some <==> self.spec_next() is Some,
            r matches Some(a) ==> (self.spec_next() matches Some(n) && n == *a),
    {
        self.next.as_ref()
    }

    /// The node's name.
    pub fn name(&self) -> (r: &str)
        ensures
            r@ == self.spec_name(),
    {
        self.name.as_str()
    }

    /// The configured number of retries.
    pub fn max_retries(&self) -> (r: u8)
        ensures
            r == self.spec_max_retries(),
    {
        self.max_retries
    }

    /// The configured wait, in seconds, between retries.
    pub fn wait(&self) -> (r: u8)
        ensures
            r == self.spec_wait(),
    {
        self.wait
    }

    /// The node's internal work: a placeholder that always succeeds.
    fn execute_logic(&self) -> (r: Result<(), NodeError>)
        ensures
            r is Ok,
    {
        Ok(())
    }

    /// Decides, from an attempt's index and its outcome, what the retry loop
    /// does next: a success stops at once; a failure below the retry limit
    /// asks for a wait and another attempt; a failure at the limit stops
    /// with `RetryLimitExceeded` carrying the failure's description.
    pub fn exec_step(&self, attempts: u8, outcome: Result<(), NodeError>) -> (d: ExecDirective)
        ensures
            (match outcome {
                Ok(_) => d == ExecDirective::Complete(Ok::<(), NodeError>(())),
                Err(e) => if attempts < self.spec_max_retries() {
                    d == (ExecDirective::RetryAfter {
                        seconds: self.spec_wait(),
                        next_attempt: (attempts + 1) as u8,
                    })
                } else {
                    &&& d matches ExecDirective::Complete(res)
                    &&& res matches Err(err)
                    &&& err matches NodeError::RetryLimitExceeded { attempts: a, message: m }
                    &&& a == attempts
                    &&& m@ == e.spec_message()
                },
            }),
    {
        match outcome {
            Ok(_) => ExecDirective::Complete(Ok(())),
            Err(e) => {
                if attempts < self.max_retries {
                    ExecDirective::RetryAfter { seconds: self.wait, next_attempt: attempts + 1 }
                } else {
                    ExecDirective::Complete(
                        Err(
                            NodeError::RetryLimitExceeded {
                                attempts,
                                message: e.message(),
                            },
                        ),
                    )
                }
            },
        }
    }

    /// Runs the retry loop, taking each attempt's outcome from `work`, which
    /// receives the attempt's index. Returns the final result together with
    /// the number of attempts that were made: a success stops the loop at
    /// once, and a run whose every attempt failed makes one attempt more
    /// than the configured retry count and reports `RetryLimitExceeded`.
    pub fn exec_with<F: Fn(u8) -> Result<(), NodeError>>(&self, work: F) -> (r: (
        Result<(), NodeError>,
        usize,
    ))
        requires
            forall|i: u8| i <= self.spec_max_retries() ==> call_requires(work, (i,)),
        ensures
            1 <= r.1 <= self.spec_max_retries() + 1,
            r.0 is Ok ==> work_may_succeed_at(work, (r.1 - 1) as u8),
            forall|i: u8| i < r.1 - 1 ==> #[trigger] work_may_fail_at(work, i),
            r.0 matches Err(err) ==> ({
                &&& r.1 == self.spec_max_retries() + 1
                &&& err matches NodeError::RetryLimitExceeded { attempts: a, message: m }
                &&& a == self.spec_max_retries()
                &&& exists|e: NodeError|
                    call_ensures(work, (self.spec_max_retries(),), Err::<(), NodeError>(e))
                        && m@ == e.spec_message()
            }),
            (forall|i: u8, o: Result<(), NodeError>| call_ensures(work, (i,), o) ==> o is Ok)
                ==> (r.0 is Ok && r.1 == 1),
            (forall|i: u8, o: Result<(), NodeError>| call_ensures(work, (i,), o) ==> o is Err)
                ==> (r.0 is Err && r.1 == self.spec_max_retries() + 1),
    {
        let mut attempts: u8 = 0;
        loop
            invariant
                attempts <= self.spec_max_retries(),
                forall|i: u8| i <= self.spec_max_retries() ==> call_requires(work, (i,)),
                forall|i: u8| i < attempts ==> #[trigger] work_may_fail_at(work, i),
            decreases self.spec_max_retries() - attempts,
        {
            let outcome = work(attempts);
            let ghost out: Result<(), NodeError> = outcome;
            match self.exec_step(attempts, outcome) {
                ExecDirective::Complete(res) => {
                    proof {
                        assert(call_ensures(work, (attempts,), out));
                        if res is Ok {
                            assert(out is Ok);
                            assert(work_may_succeed_at(work, attempts));
                        }
                        if attempts > 0 {
                            assert(work_may_fail_at(work, 0));
                        }
                    }
                    return (res, attempts as usize + 1);
                },
                ExecDirective::RetryAfter { seconds: _, next_attempt } => {
                    proof {
                        assert(work_may_fail_at(work, attempts));
                    }
                    attempts = next_attempt;
                },
            }
        }
    }

    /// Executes the node's internal logic with retry capability. The
    /// internal work never fails, so execution succeeds after a single
    /// attempt, whatever the retry configuration.
    pub fn exec(&self) -> (r: Result<(), NodeError>)
        ensures
            r is Ok,
    {
        let work = |attempt: u8| -> (res: Result<(), NodeError>)
            ensures
                res is Ok,
            { self.execute_logic() };
        let (res, _attempts) = self.exec_with(work);
        res
    }
}

/// Law: applying the retry-count and the wait-time builders in either order
/// yields the same node configuration.
pub proof fn lemma_builder_order_independent(n: Node, retries: u8, wait: u8)
    ensures
        n.spec_with_retries(retries).spec_with_wait(wait) == n.spec_with_wait(
            wait,
        ).spec_with_retries(retries),
{
}

/// Law: attaching a successor and then reading the successor yields the
/// node that was attached, and leaves the rest of the configuration as it
/// was.
pub proof fn lemma_attach_then_successor(n: Node, successor: Arc<Node>)
    ensures
        n.spec_with_next(successor).spec_next() == Some(successor),
        n.spec_with_next(successor).spec_name() == n.spec_name(),
        n.spec_with_next(successor).spec_max_retries() == n.spec_max_retries(),
        n.spec_with_next(successor).spec_wait() == n.spec_wait(),
{
}

/// What the retry loop does after one attempt.
#[derive(Debug)]
pub enum ExecDirective {
    /// Stop, with this result.
    Complete(Result<(), NodeError>),
    /// Wait this many seconds, then run the attempt with this index.
    RetryAfter { seconds: u8, next_attempt: u8 },
}

} // verus!
