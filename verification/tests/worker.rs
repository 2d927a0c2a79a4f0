use lgn_worker::manager::TaskDifficulty;
use lgn_worker::worker::{
    admit_task, is_alive, worker_step, WorkerCommand, WorkerEvent, WorkerState, liveness_reply, readiness_reply, on_gateway_event, task_reply, task_result, task_uuid, worker_class, GatewayEvent, GrpcConfig,
    LoopAction, ProvingOutcome, Reply, SemVer, VersionRequirement, WorkerDone, WorkerError, WorkerExit,
    WorkerRequest,
};

fn id_bytes() -> Vec<u8> {
    (0u8..16).collect()
}

const UUID: [u8; 16] = [3, 2, 1, 0, 5, 4, 7, 6, 8, 9, 10, 11, 12, 13, 14, 15];

fn version(major: u64, pre: &str) -> SemVer {
    SemVer {
        major,
        minor: 0,
        patch: 0,
        pre: pre.to_string(),
        build: String::new(),
    }
}

#[test]
fn task_ids_become_uuids() {
    assert!(matches!(task_uuid(&None), Err(WorkerError::UUIDMissing)));
    match task_uuid(&Some(vec![1, 2, 3])) {
        Err(WorkerError::UUIDInvalid { uuid }) => assert_eq!(uuid, vec![1, 2, 3]),
        other => panic!("unexpected {:?}", other),
    }
    assert_eq!(task_uuid(&Some(id_bytes())).unwrap(), UUID);
    let expected = uuid::Uuid::from_bytes_le(id_bytes().try_into().unwrap());
    assert_eq!(task_uuid(&Some(id_bytes())).unwrap(), *expected.as_bytes());
}

#[test]
fn version_requirement_from_mp2_version() {
    let r = VersionRequirement::for_mp2_version("1.2.3").unwrap();
    assert_eq!(r, VersionRequirement { major: 1 });
    assert!(VersionRequirement::for_mp2_version("not a version").is_err());
    assert!(r.matches(&version(1, "")));
    assert!(!r.matches(&version(2, "")));
    assert!(!r.matches(&version(1, "alpha")));
}

#[test]
fn admitting_a_compatible_task() {
    let req = VersionRequirement { major: 1 };
    let t = admit_task(&Some(id_bytes()), Ok("1.4.2+build7"), &req).unwrap();
    assert_eq!(t.uuid, UUID);
    assert_eq!(t.version.major, 1);
    assert_eq!(t.version.minor, 4);
    assert_eq!(t.version.patch, 2);
    assert_eq!(t.version.pre, "");
    assert_eq!(t.version.build, "build7");
}

#[test]
fn admission_errors_in_order() {
    let req = VersionRequirement { major: 1 };
    assert!(matches!(
        admit_task(&None, Err("bad".to_string()), &req),
        Err(WorkerError::UUIDMissing)
    ));
    assert!(matches!(
        admit_task(&Some(vec![0; 4]), Ok("1.0.0"), &req),
        Err(WorkerError::UUIDInvalid { .. })
    ));
    match admit_task(&Some(id_bytes()), Err("bad envelope".to_string()), &req) {
        Err(WorkerError::EnvelopeParseFailed { uuid, err }) => {
            assert_eq!(uuid, UUID);
            assert_eq!(err, "bad envelope");
        }
        other => panic!("unexpected {:?}", other),
    }
    match admit_task(&Some(id_bytes()), Ok("one.two"), &req) {
        Err(WorkerError::EnvelopeInvalidMP2Version { uuid, err }) => {
            assert_eq!(uuid, UUID);
            assert!(!err.is_empty());
        }
        other => panic!("unexpected {:?}", other),
    }
    match admit_task(&Some(id_bytes()), Ok("2.0.0"), &req) {
        Err(WorkerError::EnvelopeIncompatibleMP2Version {
            uuid,
            got,
            requirement,
        }) => {
            assert_eq!(uuid, UUID);
            assert_eq!(got.major, 2);
            assert_eq!(requirement, req);
        }
        other => panic!("unexpected {:?}", other),
    }
    assert!(matches!(
        admit_task(&Some(id_bytes()), Ok("1.0.0-rc.1"), &req),
        Err(WorkerError::EnvelopeIncompatibleMP2Version { .. })
    ));
}

#[test]
fn error_tags() {
    let u = UUID;
    let cases: Vec<(WorkerError, &str)> = vec![
        (WorkerError::UUIDMissing, "uuid_missing"),
        (WorkerError::UUIDInvalid { uuid: vec![1] }, "uuid_invalid"),
        (
            WorkerError::EnvelopeParseFailed {
                uuid: u,
                err: String::new(),
            },
            "envelope_parse_invalid",
        ),
        (
            WorkerError::EnvelopeInvalidMP2Version {
                uuid: u,
                err: String::new(),
            },
            "envelope_invalid_mp2_version",
        ),
        (
            WorkerError::EnvelopeIncompatibleMP2Version {
                uuid: u,
                got: version(2, ""),
                requirement: VersionRequirement { major: 1 },
            },
            "envelope_incompatbile_mp2_version",
        ),
        (
            WorkerError::ProofFailed {
                uuid: u,
                err: String::new(),
            },
            "proof_invalid",
        ),
        (
            WorkerError::ProofPanic {
                uuid: u,
                panic_msg: String::new(),
            },
            "proof_panic",
        ),
        (
            WorkerError::ReplySerializationFailed {
                uuid: u,
                err: String::new(),
            },
            "reply_serialization_invalid",
        ),
    ];
    for (e, tag) in &cases {
        assert_eq!(e.to_error_tag(), *tag);
    }
}

#[test]
fn proving_outcomes() {
    assert_eq!(
        task_result(UUID, ProvingOutcome::Reply(vec![9, 9])).unwrap(),
        vec![9, 9]
    );
    match task_result(UUID, ProvingOutcome::Failed("oops".to_string())) {
        Err(WorkerError::ProofFailed { uuid, err }) => {
            assert_eq!(uuid, UUID);
            assert_eq!(err, "oops");
        }
        other => panic!("unexpected {:?}", other),
    }
    match task_result(UUID, ProvingOutcome::Panicked("boom".to_string())) {
        Err(WorkerError::ProofPanic { panic_msg, .. }) => assert_eq!(panic_msg, "boom"),
        other => panic!("unexpected {:?}", other),
    }
    match task_result(UUID, ProvingOutcome::SerializationFailed("ser".to_string())) {
        Err(WorkerError::ReplySerializationFailed { err, .. }) => assert_eq!(err, "ser"),
        other => panic!("unexpected {:?}", other),
    }
}

#[test]
fn gateway_stream_events() {
    assert!(matches!(
        on_gateway_event(GatewayEvent::Message(5u32)),
        LoopAction::Process(5)
    ));
    match on_gateway_event::<u32>(GatewayEvent::StreamError("reset".to_string())) {
        LoopAction::Stop(WorkerExit::ConnectionEnded { status }) => assert_eq!(status, "reset"),
        _ => panic!("expected a stop"),
    }
    assert!(matches!(
        on_gateway_event::<u32>(GatewayEvent::StreamEnded),
        LoopAction::Stop(WorkerExit::InboundBroken)
    ));
}

fn grpc(mb: Option<usize>) -> GrpcConfig {
    GrpcConfig {
        gateway: "http://127.0.0.1:5678".to_string(),
        version: "123".to_string(),
        token: "blou".to_string(),
        class: "super".to_string(),
        max_grpc_message_size_mb: mb,
    }
}

#[test]
fn ready_message_and_size_bound() {
    let w = match grpc(None).ready_msg() {
        WorkerRequest::WorkerReady(w) => w,
        other => panic!("unexpected {:?}", other),
    };
    assert_eq!(w.version, "123");
    assert_eq!(w.worker_class, "super");
    assert_eq!(grpc(None).authorization(), "Bearer blou");
    assert_eq!(grpc(None).max_message_size(), 16 * 1024 * 1024);
    assert_eq!(grpc(Some(100)).max_message_size(), 104_857_600);
}

#[test]
fn announced_worker_class() {
    assert_eq!(worker_class(TaskDifficulty::Medium, 1), "medium-1");
    assert_eq!(worker_class(TaskDifficulty::Large, 12), "large-12");
    assert_eq!(worker_class(TaskDifficulty::Small, 0), "small-0");
}

#[test]
fn liveness() {
    assert!(is_alive(1_000, 1_000, 0));
    assert!(is_alive(1_120, 1_000, 120));
    assert!(!is_alive(1_121, 1_000, 120));
}

#[test]
fn replies_to_the_gateway() {
    match task_reply(Some(vec![1, 2]), Ok(vec![7, 7])) {
        WorkerRequest::WorkerDone(d) => {
            assert_eq!(d.task_id, Some(vec![1, 2]));
            assert!(matches!(d.reply, Some(Reply::TaskOutput(ref b)) if b == &vec![7, 7]));
        }
        other => panic!("unexpected {:?}", other),
    }
    match task_reply(None, Err("UUIDMissing".to_string())) {
        WorkerRequest::WorkerDone(d) => {
            assert_eq!(d.task_id, None);
            assert!(matches!(d.reply, Some(Reply::WorkerError(ref t)) if t == "UUIDMissing"));
        }
        other => panic!("unexpected {:?}", other),
    }
}

#[test]
fn health_endpoints() {
    assert_eq!(liveness_reply(1_120, 1_000, 120), (200, "OK"));
    assert_eq!(liveness_reply(1_121, 1_000, 120), (500, "FAIL"));
    assert_eq!(readiness_reply(), (200, "OK"));
}

#[test]
fn one_reply_per_message() {
    let (state, cmd) = worker_step(
        WorkerState::Reading,
        WorkerEvent::Inbound(GatewayEvent::Message((Some(vec![4]), "task"))),
    );
    assert!(matches!(cmd, WorkerCommand::Process("task")));
    assert!(matches!(state, WorkerState::Processing { task_id: Some(ref t) } if t == &vec![4]));
    let (state, cmd) = worker_step(state, WorkerEvent::<&str>::Processed(Ok(vec![1, 2])));
    assert!(matches!(state, WorkerState::Reading));
    match cmd {
        WorkerCommand::Send(WorkerRequest::WorkerDone(d)) => {
            assert_eq!(d.task_id, Some(vec![4]));
            assert!(matches!(d.reply, Some(Reply::TaskOutput(ref b)) if b == &vec![1, 2]));
        }
        _ => panic!("expected one reply"),
    }
    let (state, cmd) = worker_step(
        WorkerState::Processing { task_id: None },
        WorkerEvent::<&str>::Processed(Err("boom".to_string())),
    );
    assert!(matches!(state, WorkerState::Reading));
    assert!(matches!(
        cmd,
        WorkerCommand::Send(WorkerRequest::WorkerDone(WorkerDone { task_id: None, reply: Some(Reply::WorkerError(ref t)) })) if t == "boom"
    ));
    let (state, cmd) = worker_step(
        WorkerState::Reading,
        WorkerEvent::<&str>::Inbound(GatewayEvent::StreamError("reset".to_string())),
    );
    assert!(matches!(state, WorkerState::Stopped));
    assert!(matches!(
        cmd,
        WorkerCommand::Stop(WorkerExit::ConnectionEnded { ref status }) if status == "reset"
    ));
    let (_, cmd) = worker_step(
        WorkerState::Reading,
        WorkerEvent::<&str>::Inbound(GatewayEvent::StreamEnded),
    );
    assert!(matches!(cmd, WorkerCommand::Stop(WorkerExit::InboundBroken)));
}
