//! The forwarding client's decisions: which upstream server is asked next
//! and when the query is given up.
//!
//! Sending and waiting are the caller's work. It asks the server that a
//! step names, waits for the timeout at most, and reports what happened.

use vstd::prelude::*;
use vstd::string::*;

verus! {

/// How long one upstream server is waited for, in seconds.
pub const ATTEMPT_TIMEOUT_SECS: u64 = 2;

/// What came of asking one upstream server.
#[derive(Clone, Debug, PartialEq, Eq)]
pub enum Attempt {
    /// The server replied with this datagram.
    Replied(Vec<u8>),
    /// No reply came in time.
    TimedOut,
    /// The datagram could not be sent or no reply could be received.
    Failed,
}

/// An attempt as contracts see it.
pub enum AttemptView {
    Replied(Seq<u8>),
    TimedOut,
    Failed,
}

impl View for Attempt {
    type V = AttemptView;

    open spec fn view(&self) -> AttemptView {
        match self {
            Attempt::Replied(wire) => AttemptView::Replied(wire@),
            Attempt::TimedOut => AttemptView::TimedOut,
            Attempt::Failed => AttemptView::Failed,
        }
    }
}

/// What the forwarding client does next.
#[derive(Clone, Debug, PartialEq, Eq)]
pub enum Step {
    /// Ask the server at this place of the list.
    Ask(usize),
    /// Hand this reply to the resolver.
    Deliver(Vec<u8>),
    /// Every server failed.
    GiveUp,
}

/// A step as contracts see it.
pub enum StepView {
    Ask(int),
    Deliver(Seq<u8>),
    GiveUp,
}

impl View for Step {
    type V = StepView;

    open spec fn view(&self) -> StepView {
        match self {
            Step::Ask(place) => StepView::Ask(*place as int),
            Step::Deliver(wire) => StepView::Deliver(wire@),
            Step::GiveUp => StepView::GiveUp,
        }
    }
}

/// The first step with `servers` servers: the top of the list.
pub open spec fn first_step_of(servers: int) -> StepView {
    if servers > 0 {
        StepView::Ask(0)
    } else {
        StepView::GiveUp
    }
}

/// The step after the server at `asked` gave `outcome`: a reply is
/// delivered, anything else moves on to the next server, and behind the
/// last server the query is given up.
pub open spec fn step_after(servers: int, asked: int, outcome: AttemptView) -> StepView {
    match outcome {
        AttemptView::Replied(wire) => StepView::Deliver(wire),
        _ => if asked + 1 < servers {
            StepView::Ask(asked + 1)
        } else {
            StepView::GiveUp
        },
    }
}

/// The step that a query has reached after the attempts `outcomes`, each
/// made on the server that the step before named.
pub open spec fn forwarding(servers: int, outcomes: Seq<AttemptView>) -> StepView
    decreases outcomes.len(),
{
    if outcomes.len() == 0 {
        first_step_of(servers)
    } else {
        match forwarding(servers, outcomes.drop_last()) {
            StepView::Ask(asked) => step_after(servers, asked, outcomes.last()),
            done => done,
        }
    }
}

/// The servers that are asked when none is configured.
pub fn default_servers() -> (servers: Vec<String>)
    ensures
        servers@.len() == 2,
        servers@[0]@ == "8.8.8.8"@,
        servers@[1]@ == "1.1.1.1"@,
{
    let mut servers: Vec<String> = Vec::new();
    servers.push(String::from_str("8.8.8.8"));
    servers.push(String::from_str("1.1.1.1"));
    servers
}

/// The list of upstream servers: the configured one alone if there is one,
/// the default servers otherwise. The list is never empty.
pub fn upstream_servers(configured: Option<String>) -> (servers: Vec<String>)
    ensures
        match configured {
            Some(server) => servers@.len() == 1 && servers@[0]@ == server@,
            None => servers@.len() == 2 && servers@[0]@ == "8.8.8.8"@ && servers@[1]@
                == "1.1.1.1"@,
        },
{
    match configured {
        Some(server) => {
            let mut servers: Vec<String> = Vec::new();
            servers.push(server);
            servers
        },
        None => default_servers(),
    }
}

/// The socket address of an upstream server: the server's address and the
/// DNS port.
pub fn server_endpoint(server: &str) -> (endpoint: String)
    ensures
        endpoint@ == server@ + ":53"@,
{
    String::from_str(server).concat(":53")
}

/// The first step of forwarding a query: every query starts at the top of
/// the list.
pub fn first_step(servers: &Vec<String>) -> (step: Step)
    ensures
        step@ == first_step_of(servers@.len() as int),
{
    if servers.len() > 0 {
        Step::Ask(0)
    } else {
        Step::GiveUp
    }
}

/// The step after the server at `asked` gave `outcome`.
///
/// The first reply is delivered. A timeout or a transport failure moves
/// on to the next server of the list; when the list is used up the query
/// is given up.
pub fn forward_to_system_dns(servers: &Vec<String>, asked: usize, outcome: Attempt) -> (step: Step)
    ensures
        step@ == step_after(servers@.len() as int, asked as int, outcome@),
{
    match outcome {
        Attempt::Replied(wire) => Step::Deliver(wire),
        _ => {
            if asked < servers.len() && asked + 1 < servers.len() {
                Step::Ask(asked + 1)
            } else {
                Step::GiveUp
            }
        },
    }
}

/// Whether an attempt brought a reply.
pub open spec fn replied(outcome: AttemptView) -> bool {
    outcome is Replied
}

/// As long as no server replies, the servers are asked in the order of the
/// list, one after the other, and the query is given up exactly when the
/// last one has failed.
pub proof fn lemma_failures_walk_the_list(servers: int, outcomes: Seq<AttemptView>)
    requires
        outcomes.len() <= servers,
        forall|i: int| 0 <= i < outcomes.len() ==> !replied(#[trigger] outcomes[i]),
    ensures
        forwarding(servers, outcomes) == if outcomes.len() < servers {
            StepView::Ask(outcomes.len() as int)
        } else {
            StepView::GiveUp
        },
    decreases outcomes.len(),
{
    if outcomes.len() > 0 {
        let before = outcomes.drop_last();
        assert forall|i: int| 0 <= i < before.len() implies !replied(#[trigger] before[i]) by {
            assert(before[i] == outcomes[i]);
        }
        lemma_failures_walk_the_list(servers, before);
        assert(!replied(outcomes[outcomes.len() - 1]));
    }
}

/// The first reply wins: when the servers before it have all failed, the
/// reply of a server is what is delivered.
pub proof fn lemma_first_reply_wins(servers: int, failures: Seq<AttemptView>, wire: Seq<u8>)
    requires
        failures.len() < servers,
        forall|i: int| 0 <= i < failures.len() ==> !replied(#[trigger] failures[i]),
    ensures
        forwarding(servers, failures.push(AttemptView::Replied(wire))) == StepView::Deliver(wire),
{
    let outcomes = failures.push(AttemptView::Replied(wire));
    assert(outcomes.drop_last() =~= failures);
    lemma_failures_walk_the_list(servers, failures);
}

} // verus!
