use volume_plugin::volume::{
    reply, malformed_request, Capabilities, CapabilitiesResponse, DriverError, GetResponse,
    ListResponse, MountResponse, Outcome, PathResponse, Response, Volume,
    BACKEND_FAILURE_STATUS, MALFORMED_REQUEST_STATUS,
};

fn failure(message: &str) -> DriverError {
    DriverError::new(message.to_string())
}

fn error_body(r: Response<String>) -> (u16, String) {
    match r {
        Response::Error(e) => (e.status, e.body),
        other => panic!("expected the error envelope, got {:?}", other),
    }
}

#[test]
fn create_on_empty_backend_answers_empty_object() {
    let r: Response<String> = reply(Outcome::Created(Ok(())));
    assert!(matches!(r, Response::Empty(_)));
}

#[test]
fn remove_and_unmount_success_answer_empty_object() {
    let r: Response<String> = reply(Outcome::Removed(Ok(())));
    assert!(matches!(r, Response::Empty(_)));
    let r: Response<String> = reply(Outcome::Unmounted(Ok(())));
    assert!(matches!(r, Response::Empty(_)));
}

#[test]
fn get_missing_volume_is_null_not_error() {
    let r: Response<String> = reply(Outcome::Got(Ok(GetResponse { volume: None })));
    match r {
        Response::Get(g) => assert!(g.volume.is_none()),
        other => panic!("unexpected reply {:?}", other),
    }
}

#[test]
fn get_known_volume_is_passed_on() {
    let v = Volume {
        name: "vol1".to_string(),
        mountpoint: "/mnt/vol1".to_string(),
        created_at: "2024-01-01T00:00:00Z".to_string(),
        status: "ok".to_string(),
    };
    let r = reply(Outcome::Got(Ok(GetResponse { volume: Some(v) })));
    match r {
        Response::Get(g) => {
            let v = g.volume.unwrap();
            assert_eq!(v.name, "vol1");
            assert_eq!(v.mountpoint, "/mnt/vol1");
            assert_eq!(v.created_at, "2024-01-01T00:00:00Z");
            assert_eq!(v.status, "ok");
        }
        other => panic!("unexpected reply {:?}", other),
    }
}

#[test]
fn list_is_passed_on_in_order() {
    let mk = |n: &str| Volume { name: n.to_string(), mountpoint: String::new(), created_at: String::new(), status: 0u8 };
    let r = reply(Outcome::Listed(Ok(ListResponse { volumes: vec![mk("a"), mk("b")] })));
    match r {
        Response::List(l) => {
            let names: Vec<String> = l.volumes.into_iter().map(|v| v.name).collect();
            assert_eq!(names, vec!["a".to_string(), "b".to_string()]);
        }
        other => panic!("unexpected reply {:?}", other),
    }
}

#[test]
fn mount_twice_with_two_ids_gives_same_mountpoint() {
    let first: Response<String> = reply(Outcome::Mounted(Ok(MountResponse { mountpoint: "/mnt/vol1".to_string() })));
    let second: Response<String> = reply(Outcome::Mounted(Ok(MountResponse { mountpoint: "/mnt/vol1".to_string() })));
    match (first, second) {
        (Response::Mount(a), Response::Mount(b)) => {
            assert_eq!(a.mountpoint, "/mnt/vol1");
            assert_eq!(a.mountpoint, b.mountpoint);
        }
        other => panic!("unexpected replies {:?}", other),
    }
}

#[test]
fn path_of_unmounted_volume_is_empty() {
    let r: Response<String> = reply(Outcome::Located(Ok(PathResponse { mountpoint: String::new() })));
    match r {
        Response::Path(p) => assert_eq!(p.mountpoint, ""),
        other => panic!("unexpected reply {:?}", other),
    }
}

#[test]
fn remove_of_mounted_volume_is_enveloped() {
    let r: Response<String> = reply(Outcome::Removed(Err(failure("volume vol1 is mounted"))));
    let (status, body) = error_body(r);
    assert_eq!(status, 500);
    assert_eq!(status, BACKEND_FAILURE_STATUS);
    assert_eq!(body, "{\"Err\":\"Something went wrong: volume vol1 is mounted\"}");
}

#[test]
fn every_mutating_failure_is_enveloped() {
    let outcomes: Vec<Outcome<String>> = vec![
        Outcome::Created(Err(failure("exists"))),
        Outcome::Removed(Err(failure("exists"))),
        Outcome::Mounted(Err(failure("exists"))),
        Outcome::Unmounted(Err(failure("exists"))),
    ];
    for o in outcomes {
        let (status, body) = error_body(reply(o));
        assert_eq!(status, 500);
        assert_eq!(body, "{\"Err\":\"Something went wrong: exists\"}");
    }
}

#[test]
fn failure_with_empty_message_still_has_a_message() {
    let (_, body) = error_body(reply(Outcome::Created(Err(failure("")))));
    assert_eq!(body, "{\"Err\":\"Something went wrong: \"}");
}

#[test]
fn failure_message_is_json_escaped() {
    let (_, body) = error_body(reply(Outcome::Listed(Err(failure("bad \"name\"\n")))));
    assert_eq!(body, "{\"Err\":\"Something went wrong: bad \\\"name\\\"\\n\"}");
    let parsed: serde_json::Value = serde_json::from_str(&body).unwrap();
    assert_eq!(parsed["Err"], "Something went wrong: bad \"name\"\n");
}

#[test]
fn get_path_failures_are_enveloped_too() {
    let (_, body) = error_body(reply(Outcome::Got(Err(failure("io")))));
    assert_eq!(body, "{\"Err\":\"Something went wrong: io\"}");
    let (_, body) = error_body(reply(Outcome::Located(Err(failure("io")))));
    assert_eq!(body, "{\"Err\":\"Something went wrong: io\"}");
}

#[test]
fn capabilities_never_fail() {
    let r: Response<String> = reply(Outcome::Declared(CapabilitiesResponse { capabilities: Capabilities::local() }));
    match r {
        Response::Capabilities(c) => assert_eq!(c.capabilities.scope, "local"),
        other => panic!("unexpected reply {:?}", other),
    }
    let r: Response<String> = reply(Outcome::Declared(CapabilitiesResponse { capabilities: Capabilities::global() }));
    match r {
        Response::Capabilities(c) => assert_eq!(c.capabilities.scope, "global"),
        other => panic!("unexpected reply {:?}", other),
    }
}

#[test]
fn driver_error_keeps_its_message() {
    let e = failure("disk full");
    assert_eq!(e.message(), "disk full");
    let r = e.into_response();
    assert_eq!(r.status, 500);
    assert_eq!(r.body, "{\"Err\":\"Something went wrong: disk full\"}");
}

#[test]
fn malformed_body_is_enveloped() {
    let r = malformed_request("expected value at line 1 column 1");
    assert_eq!(r.status, MALFORMED_REQUEST_STATUS);
    assert_eq!(r.status, 400);
    assert_eq!(r.body, "{\"Err\":\"Malformed request: expected value at line 1 column 1\"}");
}
