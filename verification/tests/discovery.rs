use woodns::address::Ipv4;
use woodns::discovery::{
    event_monitor, gather_docker, get_container_ip, handle_started_container,
    handle_stopped_container, record_key, transition, workload_name, LifecycleEvent, Reaction,
    Transition, Workload,
};
use woodns::store::NameStore;

fn ip(last: u8) -> Ipv4 {
    Ipv4::new(172, 17, 0, last)
}

fn event(action: &str, name: Option<&str>) -> LifecycleEvent {
    LifecycleEvent {
        about_workload: true,
        action: Some(action.to_string()),
        name: name.map(|n| n.to_string()),
    }
}

#[test]
fn workload_name_drops_leading_slashes() {
    assert_eq!(workload_name("/web"), "web");
    assert_eq!(workload_name("//web"), "web");
    assert_eq!(workload_name("web"), "web");
    assert_eq!(workload_name("/a/b"), "a/b");
    assert_eq!(workload_name("/"), "");
    assert_eq!(workload_name(""), "");
}

#[test]
fn record_key_is_lower_case_with_suffix() {
    assert_eq!(record_key("web"), "web.docker.");
    assert_eq!(record_key("My_App-2"), "my_app-2.docker.");
    assert_eq!(record_key(""), ".docker.");
}

#[test]
fn record_key_leaves_other_letters_alone() {
    assert_eq!(record_key("Äpp"), "Äpp.docker.");
}

#[test]
fn first_address_is_picked() {
    let none: Vec<Option<Ipv4>> = vec![];
    assert_eq!(get_container_ip(&none), None);
    assert_eq!(get_container_ip(&vec![None, None]), None);
    assert_eq!(
        get_container_ip(&vec![None, Some(ip(2)), Some(Ipv4::new(10, 0, 0, 1))]),
        Some(ip(2))
    );
}

#[test]
fn scan_seeds_the_store() {
    let mut store = NameStore::new();
    let listing = vec![
        Workload {
            names: vec!["/Web".to_string(), "/alias".to_string()],
            addresses: vec![Some(ip(2)), Some(Ipv4::new(10, 0, 0, 2))],
        },
        Workload { names: vec![], addresses: vec![Some(ip(3))] },
        Workload { names: vec!["/db".to_string()], addresses: vec![None] },
        Workload { names: vec!["/cache".to_string()], addresses: vec![None, Some(ip(4))] },
    ];
    let offered = gather_docker(&mut store, &listing);
    assert_eq!(offered, vec!["web.docker.".to_string(), "cache.docker.".to_string()]);
    assert_eq!(store.len(), 2);
    assert_eq!(store.lookup("web.docker."), Some(ip(2)));
    assert_eq!(store.lookup("cache.docker."), Some(ip(4)));
    assert_eq!(store.lookup("db.docker."), None);
    assert_eq!(store.lookup("alias.docker."), None);
}

#[test]
fn scan_never_overwrites() {
    let mut store = NameStore::new();
    store.upsert_if_absent("web.docker.", Ipv4::new(10, 9, 9, 9));
    let listing = vec![
        Workload { names: vec!["/web".to_string()], addresses: vec![Some(ip(2))] },
        Workload { names: vec!["/WEB".to_string()], addresses: vec![Some(ip(3))] },
    ];
    let offered = gather_docker(&mut store, &listing);
    assert_eq!(offered, vec!["web.docker.".to_string(), "web.docker.".to_string()]);
    assert_eq!(store.len(), 1);
    assert_eq!(store.lookup("web.docker."), Some(Ipv4::new(10, 9, 9, 9)));
}

#[test]
fn actions_are_classified() {
    assert_eq!(transition("start"), Transition::Started);
    assert_eq!(transition("stop"), Transition::Stopped);
    assert_eq!(transition("die"), Transition::Stopped);
    assert_eq!(transition("kill"), Transition::Stopped);
    assert_eq!(transition("create"), Transition::Other);
    assert_eq!(transition("Start"), Transition::Other);
    assert_eq!(transition(""), Transition::Other);
}

#[test]
fn start_asks_for_the_address() {
    let mut store = NameStore::new();
    assert_eq!(event_monitor(&mut store, &event("start", Some("web"))), Reaction::Resolve);
    assert_eq!(store.len(), 0);
}

#[test]
fn start_without_name_is_ignored() {
    let mut store = NameStore::new();
    assert_eq!(event_monitor(&mut store, &event("start", None)), Reaction::Ignored);
    let nameless = event("start", None);
    assert_eq!(handle_started_container(&mut store, &nameless, &vec![Some(ip(2))]), None);
    assert_eq!(store.len(), 0);
}

#[test]
fn started_workload_is_recorded_once() {
    let mut store = NameStore::new();
    let e = event("start", Some("Web"));
    assert_eq!(handle_started_container(&mut store, &e, &vec![None, Some(ip(2))]), Some(true));
    assert_eq!(store.lookup("web.docker."), Some(ip(2)));
    assert_eq!(handle_started_container(&mut store, &e, &vec![Some(ip(9))]), Some(false));
    assert_eq!(store.lookup("web.docker."), Some(ip(2)));
}

#[test]
fn started_workload_without_address_is_not_recorded() {
    let mut store = NameStore::new();
    let e = event("start", Some("web"));
    assert_eq!(handle_started_container(&mut store, &e, &vec![]), Some(false));
    assert_eq!(handle_started_container(&mut store, &e, &vec![None]), Some(false));
    assert_eq!(store.len(), 0);
}

#[test]
fn stop_removes_the_record() {
    let mut store = NameStore::new();
    store.upsert_if_absent("web.docker.", ip(2));
    assert_eq!(event_monitor(&mut store, &event("die", Some("web"))), Reaction::Removed);
    assert_eq!(store.lookup("web.docker."), None);
    assert_eq!(event_monitor(&mut store, &event("stop", Some("web"))), Reaction::NotRecorded);
    assert_eq!(event_monitor(&mut store, &event("kill", Some("web"))), Reaction::NotRecorded);
}

#[test]
fn stop_without_name_is_ignored() {
    let mut store = NameStore::new();
    store.upsert_if_absent("web.docker.", ip(2));
    assert_eq!(event_monitor(&mut store, &event("stop", None)), Reaction::Ignored);
    assert_eq!(handle_stopped_container(&mut store, &event("stop", None)), None);
    assert_eq!(store.len(), 1);
}

#[test]
fn handle_stopped_reports_whether_there_was_a_record() {
    let mut store = NameStore::new();
    store.upsert_if_absent("web.docker.", ip(2));
    assert_eq!(handle_stopped_container(&mut store, &event("stop", Some("WEB"))), Some(true));
    assert_eq!(handle_stopped_container(&mut store, &event("stop", Some("web"))), Some(false));
}

#[test]
fn other_events_are_ignored() {
    let mut store = NameStore::new();
    store.upsert_if_absent("web.docker.", ip(2));
    assert_eq!(event_monitor(&mut store, &event("pause", Some("web"))), Reaction::Ignored);
    let no_action = LifecycleEvent {
        about_workload: true,
        action: None,
        name: Some("web".to_string()),
    };
    assert_eq!(event_monitor(&mut store, &no_action), Reaction::Ignored);
    let network = LifecycleEvent {
        about_workload: false,
        action: Some("stop".to_string()),
        name: Some("web".to_string()),
    };
    assert_eq!(event_monitor(&mut store, &network), Reaction::Ignored);
    assert_eq!(store.lookup("web.docker."), Some(ip(2)));
}

#[test]
fn start_then_stop_leaves_no_record() {
    let mut store = NameStore::new();
    let started = event("start", Some("job"));
    let stopped = event("stop", Some("job"));
    assert_eq!(event_monitor(&mut store, &started), Reaction::Resolve);
    assert_eq!(handle_started_container(&mut store, &started, &vec![Some(ip(7))]), Some(true));
    assert_eq!(event_monitor(&mut store, &stopped), Reaction::Removed);
    assert_eq!(store.lookup(&record_key("job")), None);
    assert_eq!(store.len(), 0);
}
