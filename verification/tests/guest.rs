//! Guest isolation, the Docker steps and the in-memory runtime.

use berthos::action::MINIMAL_PNG;
use berthos::eligibility::REQUIRED_GUEST_IMAGE;
use berthos::guest::{
    args_violate_isolation, inspect_isolation, isolated_run_args, isolation_from_document,
    isolation_from_inspect_json, CommandOutcome, DockerGuest, GuestError, GuestHandle,
    GuestIsolation, GuestRuntime, GuestSpec, Inspected, MemoryGuest, StartStep,
};
use berthos::json::Json;
use berthos::session::LeaseId;

fn sample_spec() -> GuestSpec {
    GuestSpec {
        image: REQUIRED_GUEST_IMAGE.to_string(),
        vcpu: 1,
        mem_gib: 1,
    }
}

fn exited(success: bool, stdout: &[u8], stderr: &str) -> CommandOutcome {
    CommandOutcome::Exited {
        success,
        stdout: stdout.to_vec(),
        stderr: stderr.to_string(),
    }
}

#[test]
fn isolated_run_args_use_network_none_and_no_host_display() {
    let id = LeaseId("l_test".into());
    let (container, args) = isolated_run_args(&id, &sample_spec());
    assert_eq!(container, "berthos-l_test");
    assert!(args.windows(2).any(|w| w == ["--network", "none"]));
    assert!(!args_violate_isolation(&args));
    let joined = args.join(" ");
    assert!(!joined.contains("host"));
    assert!(!joined.contains("X11"));
    assert!(!joined.contains("DISPLAY"));
    assert!(!joined.contains(".berthos"));
    assert!(args.iter().any(|a| a == "berthos.role=guest"));
}

#[test]
fn isolation_predicate_rejects_host_net_and_x11() {
    let good = GuestIsolation {
        network_mode: "none".into(),
        privileged: false,
        pid_mode: String::new(),
        ipc_mode: String::new(),
        binds: vec![],
        mounts: vec![],
    };
    assert!(good.is_isolated());

    let host_net = GuestIsolation {
        network_mode: "host".into(),
        ..good.clone()
    };
    assert!(!host_net.is_isolated());

    let x11 = GuestIsolation {
        binds: vec!["/tmp/.X11-unix:/tmp/.X11-unix".into()],
        ..good.clone()
    };
    assert!(!x11.is_isolated());

    let privileged = GuestIsolation {
        privileged: true,
        ..good
    };
    assert!(!privileged.is_isolated());
}

#[test]
fn isolation_from_inspect_json_reads_host_config() {
    let json = br#"[{
        "HostConfig": {
            "NetworkMode": "none",
            "Privileged": false,
            "PidMode": "",
            "IpcMode": "",
            "Binds": null,
            "Mounts": []
        }
    }]"#;
    let isolation = isolation_from_inspect_json(json).expect("parse");
    assert!(isolation.is_isolated());
}

#[test]
fn inspect_reads_binds_and_both_ends_of_mounts() {
    let json = br#"[{
        "HostConfig": {
            "NetworkMode": "bridge",
            "Privileged": true,
            "PidMode": "host",
            "IpcMode": "private",
            "Binds": ["/a:/a", 7, "/b:/b"],
            "Mounts": [
                { "Source": "/src", "Destination": "/dst" },
                { "Source": "", "Destination": "/only" },
                { "Target": "/ignored" }
            ]
        }
    }, { "HostConfig": {} }]"#;
    assert_eq!(
        isolation_from_inspect_json(json),
        Ok(GuestIsolation {
            network_mode: "bridge".into(),
            privileged: true,
            pid_mode: "host".into(),
            ipc_mode: "private".into(),
            binds: vec!["/a:/a".into(), "/b:/b".into()],
            mounts: vec!["/src".into(), "/dst".into(), "/only".into()],
        })
    );
}

#[test]
fn inspect_without_host_config_fails() {
    for json in ["[]", "{}", "[{}]", "null"] {
        let error = isolation_from_inspect_json(json.as_bytes()).unwrap_err();
        assert_eq!(error.message(), "guest runtime: inspect missing HostConfig");
    }
    assert_eq!(
        isolation_from_document(&Json::Null).unwrap_err().message(),
        "guest runtime: inspect missing HostConfig"
    );
    let error = isolation_from_inspect_json(b"nope").unwrap_err();
    assert!(
        error.message().starts_with("guest runtime: inspect json: "),
        "{}",
        error.message()
    );
}

#[test]
fn exact_run_args() {
    let id = LeaseId("l_0".into());
    let spec = GuestSpec {
        image: "img".into(),
        vcpu: 3,
        mem_gib: 12,
    };
    let (container, args) = isolated_run_args(&id, &spec);
    assert_eq!(container, "berthos-l_0");
    assert_eq!(
        args.join(" "),
        "run -d --rm --name berthos-l_0 --network none --memory 12g --cpus 3 \
         --label berthos.role=guest --label berthos.lease=l_0 img"
    );
}

#[test]
fn every_generated_guest_is_isolated() {
    for _ in 0..20 {
        let (_, args) = isolated_run_args(&LeaseId::generate(), &sample_spec());
        assert!(!args_violate_isolation(&args));
    }
}

#[test]
fn plain_names_and_images_start_isolated() {
    for (id, image) in [
        ("l_1", "example.org/desk:9"),
        ("host", "hostess:v2"),
        ("-x", "a-b-c"),
        ("-net=host", "a-b-c"),
        ("", ""),
    ] {
        let spec = GuestSpec {
            image: image.into(),
            vcpu: 64,
            mem_gib: 128,
        };
        let (container, args) = isolated_run_args(&LeaseId(id.into()), &spec);
        assert!(!args_violate_isolation(&args), "{args:?}");
        assert_eq!(container, format!("berthos-{id}"));
        assert_eq!(args[3..7], ["--name", container.as_str(), "--network", "none"]);
        assert_eq!(args.last().unwrap(), image);
    }
    let (_, args) = isolated_run_args(&LeaseId("-network=host".into()), &sample_spec());
    assert!(args_violate_isolation(&args));
}

#[test]
fn holes_are_found() {
    for args in [
        vec!["--network", "host"],
        vec!["--network=host"],
        vec!["run", "--net=host", "berthos-linux-desktop:v1"],
        vec!["run", "--net", "host", "berthos-linux-desktop:v1"],
        vec!["--privileged=true"],
        vec!["--privileged=1"],
        vec!["-eDISPLAY=:0"],
        vec!["-v/:/h"],
        vec!["run", "-d", "--rm", "--name", "x", "--cpus=2", "-it", "-v/:/h", "img"],
        vec!["run", "img", "-v"],
        vec!["run", "img", "--env-file"],
        vec!["--mount=type=bind,src=/,dst=/h"],
        vec!["--privileged"],
        vec!["-e"],
        vec!["--env=A=B"],
        vec!["--env-file"],
        vec!["-v"],
        vec!["--volume=/:/h"],
        vec!["--mount"],
        vec!["/tmp/.x11-unix"],
        vec!["/run/Wayland-0"],
    ] {
        let args: Vec<String> = args.into_iter().map(String::from).collect();
        assert!(args_violate_isolation(&args), "{args:?}");
    }
    for args in [
        vec!["--network", "none", "--name"],
        vec!["--net=none", "--privileged=false"],
        vec!["--privileged=0"],
        vec!["run", "berthos-linux-desktop:v1", "-verbose"],
        vec!["run", "-d", "--name", "x", "berthos-linux-desktop:v1", "-eA=B", "--net=host"],
        vec!["run", "--label", "-verbose", "--net=none", "img", "--net", "host"],
        vec!["run", "-it", "--", "--net=host"],
        vec!["run", "--mountain"],
        vec!["run", "--memory"],
    ] {
        let args: Vec<String> = args.into_iter().map(String::from).collect();
        assert!(!args_violate_isolation(&args), "{args:?}");
    }
}

#[test]
fn start_is_refused_where_it_would_break_isolation() {
    let id = LeaseId("l_1".into());
    let spec = GuestSpec {
        image: "--privileged".into(),
        vcpu: 1,
        mem_gib: 1,
    };
    assert_eq!(
        DockerGuest.plan_start(&id, &spec).unwrap_err().message(),
        "guest isolation: refusing to start a guest with host net, host display, env, or binds"
    );
    let (container, args) = DockerGuest.plan_start(&id, &sample_spec()).unwrap();
    assert_eq!(container, "berthos-l_1");
    assert_eq!(args[0], "run");
}

#[test]
fn run_outcomes() {
    let handle = DockerGuest
        .after_run("berthos-l_1", "img", &exited(true, b"abc", ""))
        .unwrap();
    assert_eq!(handle.container, "berthos-l_1");
    assert_eq!(
        DockerGuest.after_run("c", "img", &exited(false, b"", "boom")),
        Err(GuestError::Runtime(
            "docker run failed for c; is img built? boom".into()
        ))
    );
    assert_eq!(
        DockerGuest.after_run("c", "img", &CommandOutcome::Unavailable("no docker".into())),
        Err(GuestError::Runtime("no docker".into()))
    );
}

#[test]
fn started_guests_that_are_not_isolated_are_destroyed() {
    let handle = GuestHandle {
        container: "c".into(),
    };
    let good = GuestIsolation {
        network_mode: "none".into(),
        privileged: false,
        pid_mode: String::new(),
        ipc_mode: String::new(),
        binds: vec![],
        mounts: vec![],
    };
    assert_eq!(
        DockerGuest.after_inspect(handle.clone(), Ok(good.clone())),
        Inspected::Keep(handle.clone())
    );
    let bad = GuestIsolation {
        network_mode: "host".into(),
        ..good
    };
    assert_eq!(
        DockerGuest.after_inspect(handle.clone(), Ok(bad)),
        Inspected::Destroy(
            handle.clone(),
            GuestError::Isolation(
                "container c was not isolated (network_mode=host, privileged=false)".into()
            )
        )
    );
    assert_eq!(
        DockerGuest.after_inspect(handle.clone(), Err(GuestError::Runtime("x".into()))),
        Inspected::Destroy(handle, GuestError::Runtime("x".into()))
    );
}

#[test]
fn removing_what_is_gone_succeeds() {
    let handle = GuestHandle {
        container: "c".into(),
    };
    assert_eq!(DockerGuest.remove_args(&handle), ["rm", "-f", "c"]);
    assert!(DockerGuest.after_remove(&handle, &exited(true, b"", "")).is_ok());
    assert!(DockerGuest
        .after_remove(&handle, &exited(false, b"", "Error: No such container: c"))
        .is_ok());
    assert!(DockerGuest
        .after_remove(&handle, &exited(false, b"", "c is not running"))
        .is_ok());
    assert_eq!(
        DockerGuest
            .after_remove(&handle, &exited(false, b"", "busy"))
            .unwrap_err()
            .message(),
        "guest runtime: docker rm -f c failed: busy"
    );
    assert_eq!(
        DockerGuest
            .after_remove(&handle, &CommandOutcome::Unavailable("gone".into()))
            .unwrap_err()
            .message(),
        "guest runtime: gone"
    );
}

#[test]
fn inspect_and_exec_outcomes() {
    let handle = GuestHandle {
        container: "c".into(),
    };
    assert_eq!(DockerGuest.inspect_args(&handle), ["inspect", "c"]);
    assert_eq!(
        inspect_isolation(&handle, &exited(false, b"", "no"))
            .unwrap_err()
            .message(),
        "guest runtime: docker inspect c failed: no"
    );
    assert!(inspect_isolation(
        &handle,
        &exited(true, br#"[{"HostConfig":{"NetworkMode":"none"}}]"#, "")
    )
    .unwrap()
    .is_isolated());
    assert_eq!(
        DockerGuest.exec_args(&handle, &vec!["cat".into(), "/x".into()]),
        ["exec", "c", "cat", "/x"]
    );
    assert_eq!(
        DockerGuest.after_exec(&handle, exited(true, b"out", "")),
        Ok(b"out".to_vec())
    );
    assert_eq!(
        DockerGuest
            .after_exec(&handle, exited(false, b"", "bad"))
            .unwrap_err()
            .message(),
        "guest runtime: docker exec c failed: bad"
    );
}

#[test]
fn memory_guests_come_and_go() {
    let mut guests = MemoryGuest::default();
    let first = guests.start(&LeaseId("a".into()), &sample_spec()).unwrap();
    let second = guests.start(&LeaseId("b".into()), &sample_spec()).unwrap();
    assert_eq!(guests.live, ["memory-a", "memory-b"]);
    assert_eq!(guests.exec(&first, &vec![]).unwrap(), MINIMAL_PNG);
    guests.destroy(&first).unwrap();
    assert_eq!(guests.live, ["memory-b"]);
    guests.destroy(&second).unwrap();
    assert!(guests.live.is_empty());
}

/// Starts a guest, handing out the given outcomes one after the other. Gives
/// back the commands that were run and how it ended.
fn start_with(outcomes: Vec<CommandOutcome>) -> (Vec<String>, StartStep) {
    let mut step = DockerGuest.start(&LeaseId("l_1".into()), &sample_spec());
    let mut commands = vec![];
    for outcome in outcomes {
        if let Some(args) = step.command() {
            commands.push(args[0].clone());
        }
        step = DockerGuest.next(step, &outcome);
    }
    (commands, step)
}

#[test]
fn an_isolated_guest_is_started() {
    let inspect = br#"[{"HostConfig":{"NetworkMode":"none"}}]"#;
    let (commands, end) = start_with(vec![exited(true, b"id", ""), exited(true, inspect, "")]);
    assert_eq!(commands, ["run", "inspect"]);
    assert_eq!(
        end,
        StartStep::Started(GuestHandle {
            container: "berthos-l_1".into()
        })
    );
    let later = DockerGuest.next(end, &exited(false, b"", "x"));
    assert_eq!(later.command(), None);
    assert_eq!(later.finish().unwrap().container, "berthos-l_1");
}

#[test]
fn a_guest_on_the_host_network_is_removed_again() {
    let inspect = br#"[{"HostConfig":{"NetworkMode":"host","Privileged":true}}]"#;
    let (commands, end) = start_with(vec![
        exited(true, b"id", ""),
        exited(true, inspect, ""),
        exited(false, b"", "cannot remove"),
    ]);
    assert_eq!(commands, ["run", "inspect", "rm"]);
    assert_eq!(
        end,
        StartStep::Failed(GuestError::Isolation(
            "container berthos-l_1 was not isolated (network_mode=host, privileged=true)".into()
        ))
    );
}

#[test]
fn a_guest_that_cannot_be_inspected_is_removed_again() {
    let (commands, end) = start_with(vec![
        exited(true, b"id", ""),
        exited(false, b"", "gone"),
        exited(true, b"", ""),
    ]);
    assert_eq!(commands, ["run", "inspect", "rm"]);
    assert_eq!(
        end,
        StartStep::Failed(GuestError::Runtime(
            "docker inspect berthos-l_1 failed: gone".into()
        ))
    );
}

#[test]
fn a_guest_that_does_not_run_is_not_inspected() {
    let (commands, end) = start_with(vec![exited(false, b"", "no image")]);
    assert_eq!(commands, ["run"]);
    assert!(matches!(end.finish(), Err(GuestError::Runtime(_))));
    let unfinished = DockerGuest.start(&LeaseId("l_1".into()), &sample_spec());
    assert_eq!(
        unfinished.finish().unwrap_err().message(),
        "guest runtime: start not finished"
    );
    let refused = DockerGuest.start(
        &LeaseId("l_1".into()),
        &GuestSpec {
            image: "-v".into(),
            vcpu: 1,
            mem_gib: 1,
        },
    );
    assert!(matches!(refused, StartStep::Failed(GuestError::Isolation(_))));
}
