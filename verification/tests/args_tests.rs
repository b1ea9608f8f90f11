use rshim::args::Arguments;

fn parsed() -> Arguments {
    let mut argparser = Arguments::new();
    let args = vec![
        "containerd-shim",
        "-namespace",
        "moby",
        "-workdir",
        "/var/lib/containerd/io.containerd.runtime.v1.linux/moby/2bb5980095a8be31ad5436054e01c112dcefef25adef4b3cfac70053ff901f0a",
        "-address",
        "/run/containerd/containerd.sock",
        "-containerd-binary",
        "/usr/bin/containerd",
        "-runtime-root",
        "/var/run/docker/runtime-runc",
        "-debug",
    ];
    let a: Vec<String> = args.into_iter().map(|v| v.to_string()).collect();
    argparser.parse(&a).expect("known flags only");
    argparser
}

#[test]
fn test_1() {
    let argparser = parsed();

    if let Some(v) = argparser.value_of("namespace") {
        assert_eq!(v, "moby");
    }

    if let Some(v) = argparser.value_of("workdir") {
        assert_eq!(v, "/var/lib/containerd/io.containerd.runtime.v1.linux/moby/2bb5980095a8be31ad5436054e01c112dcefef25adef4b3cfac70053ff901f0a");
    }

    if let Some(v) = argparser.value_of("address") {
        assert_eq!(v, "/run/containerd/containerd.sock");
    }

    if let Some(v) = argparser.value_of("containerd-binary") {
        assert_eq!(v, "/usr/bin/containerd");
    }

    if let Some(v) = argparser.value_of("runtime-root") {
        assert_eq!(v, "/var/run/docker/runtime-runc");
    }

    let debug = argparser.is_present("debug");
    assert_eq!(debug, true);

    let sc = argparser.is_present("systemd-cgroup");
    assert_eq!(sc, false);
}

#[test]
fn test_2() {
    let argparser = parsed();

    let ns = argparser.value_of("namespace");
    assert_eq!(Some("moby".to_string()), ns);

    let workdir = argparser.value_of("workdir");
    assert_eq!(Some("/var/lib/containerd/io.containerd.runtime.v1.linux/moby/2bb5980095a8be31ad5436054e01c112dcefef25adef4b3cfac70053ff901f0a".to_string()), workdir);

    let address = argparser.value_of("address");
    assert_eq!(Some("/run/containerd/containerd.sock".to_string()), address);

    let bin = argparser.value_of("containerd-binary");
    assert_eq!(Some("/usr/bin/containerd".to_string()), bin);

    let root = argparser.value_of("runtime-root");
    assert_eq!(Some("/var/run/docker/runtime-runc".to_string()), root);

    let debug = argparser.is_present("debug");
    assert_eq!(true, debug);

    let sc = argparser.is_present("systemd-cgroup");
    assert_eq!(false, sc);
}

#[test]
fn unknown_flag_is_reported() {
    let mut argparser = Arguments::new();
    let args: Vec<String> =
        vec!["containerd-shim", "-nope", "x"].into_iter().map(|v| v.to_string()).collect();
    let err = argparser.parse(&args);
    assert_eq!(err, Err("nope".to_string()));
}

#[test]
fn default_runtime_root() {
    let argparser = Arguments::new();
    assert_eq!(
        argparser.value_of("runtime-root"),
        Some("/run/containerd/runc".to_string())
    );
    assert_eq!(argparser.value_of("namespace"), None);
}
