use woodns::forward::{
    default_servers, first_step, forward_to_system_dns, server_endpoint, upstream_servers,
    Attempt, Step, ATTEMPT_TIMEOUT_SECS,
};

fn servers(n: usize) -> Vec<String> {
    (0..n).map(|i| format!("10.0.0.{}", i + 1)).collect()
}

#[test]
fn defaults_are_public_resolvers() {
    assert_eq!(default_servers(), vec!["8.8.8.8".to_string(), "1.1.1.1".to_string()]);
    assert_eq!(upstream_servers(None), default_servers());
    assert_eq!(ATTEMPT_TIMEOUT_SECS, 2);
}

#[test]
fn configured_server_replaces_the_defaults() {
    assert_eq!(upstream_servers(Some("9.9.9.9".to_string())), vec!["9.9.9.9".to_string()]);
}

#[test]
fn endpoint_is_port_53() {
    assert_eq!(server_endpoint("8.8.8.8"), "8.8.8.8:53");
}

#[test]
fn forwarding_starts_at_the_top() {
    assert_eq!(first_step(&servers(3)), Step::Ask(0));
    assert_eq!(first_step(&servers(0)), Step::GiveUp);
}

#[test]
fn first_reply_is_delivered() {
    let list = servers(3);
    assert_eq!(
        forward_to_system_dns(&list, 0, Attempt::Replied(vec![1, 2, 3])),
        Step::Deliver(vec![1, 2, 3])
    );
    assert_eq!(forward_to_system_dns(&list, 2, Attempt::Replied(vec![])), Step::Deliver(vec![]));
}

#[test]
fn failure_moves_to_the_next_server() {
    let list = servers(3);
    assert_eq!(forward_to_system_dns(&list, 0, Attempt::TimedOut), Step::Ask(1));
    assert_eq!(forward_to_system_dns(&list, 1, Attempt::Failed), Step::Ask(2));
}

#[test]
fn exhausted_list_gives_up() {
    let list = servers(3);
    assert_eq!(forward_to_system_dns(&list, 2, Attempt::TimedOut), Step::GiveUp);
    assert_eq!(forward_to_system_dns(&list, 2, Attempt::Failed), Step::GiveUp);
    assert_eq!(forward_to_system_dns(&list, 7, Attempt::Failed), Step::GiveUp);
    assert_eq!(forward_to_system_dns(&list, usize::MAX, Attempt::Failed), Step::GiveUp);
    assert_eq!(forward_to_system_dns(&servers(1), 0, Attempt::TimedOut), Step::GiveUp);
}

#[test]
fn second_server_answers_after_first_times_out() {
    let list = servers(2);
    let mut step = first_step(&list);
    let outcomes = vec![Attempt::TimedOut, Attempt::Replied(vec![9, 9])];
    let mut asked = Vec::new();
    for outcome in outcomes {
        match step {
            Step::Ask(i) => {
                asked.push(i);
                step = forward_to_system_dns(&list, i, outcome);
            }
            _ => break,
        }
    }
    assert_eq!(asked, vec![0, 1]);
    assert_eq!(step, Step::Deliver(vec![9, 9]));
}
