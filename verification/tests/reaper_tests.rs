use rshim::reaper::{
    exit_topic, reap_decode, should_kill_all_on_exit, ExitInfo, NamespaceEntry, Publisher,
    SpecInfo, WaitOutcome,
};

#[test]
fn exit_table_records_each_pid_once() {
    let mut t = ExitInfo::new();
    t.insert(5, 1);
    t.insert(6, 0);
    t.insert(5, 2);
    assert_eq!(t.entries.len(), 2, "a pid reaped again replaces its record");
    assert_eq!(t.remove(5), Some(2));
    assert_eq!(t.remove(5), None, "consumed records are gone");
    assert_eq!(t.remove(6), Some(0));
    assert!(t.entries.is_empty());
}

#[test]
fn wait_status_decoding() {
    assert_eq!(
        reap_decode(&WaitOutcome::Exited { pid: 10, code: 3 }),
        Some((10, 3))
    );
    assert_eq!(
        reap_decode(&WaitOutcome::Signaled { pid: 10, signal: 9 }),
        Some((10, 137))
    );
    assert_eq!(
        reap_decode(&WaitOutcome::Signaled { pid: 10, signal: 15 }),
        Some((10, 143))
    );
    assert_eq!(reap_decode(&WaitOutcome::StillAlive), None);
    assert_eq!(reap_decode(&WaitOutcome::Other), None);
}

#[test]
fn kill_all_heuristic() {
    // an unreadable spec plays safe
    assert!(should_kill_all_on_exit(None));

    // no linux section, or no namespaces: kill everything
    assert!(should_kill_all_on_exit(Some(&SpecInfo { has_linux: false, namespaces: None })));
    assert!(should_kill_all_on_exit(Some(&SpecInfo { has_linux: true, namespaces: None })));

    // a private pid namespace tears itself down
    let private = SpecInfo {
        has_linux: true,
        namespaces: Some(vec![NamespaceEntry { is_pid: true, path: None }]),
    };
    assert!(!should_kill_all_on_exit(Some(&private)));

    let private_empty_path = SpecInfo {
        has_linux: true,
        namespaces: Some(vec![NamespaceEntry { is_pid: true, path: Some(String::new()) }]),
    };
    assert!(!should_kill_all_on_exit(Some(&private_empty_path)));

    // a shared (host) pid namespace leaves orphans to kill
    let shared = SpecInfo {
        has_linux: true,
        namespaces: Some(vec![
            NamespaceEntry { is_pid: false, path: None },
            NamespaceEntry { is_pid: true, path: Some("/proc/1/ns/pid".to_string()) },
        ]),
    };
    assert!(should_kill_all_on_exit(Some(&shared)));
}

#[test]
fn publisher_invocation() {
    let p = Publisher::new("containerd", "/run/containerd/containerd.sock", "default");
    assert_eq!(p.containerd_binary, "containerd");
    assert_eq!(
        p.publish_args("/tasks/exit"),
        vec![
            "--address",
            "/run/containerd/containerd.sock",
            "publish",
            "--topic",
            "/tasks/exit",
            "--namespace",
            "default",
        ]
    );
    assert_eq!(exit_topic(), "/tasks/exit");
}
