//! The worker's side of the gateway protocol: how it announces itself, how
//! it admits a task (task id, envelope, mp2 version), how failures are
//! reported and tagged, and how it reacts to the gateway's stream.

use vstd::prelude::*;
use crate::encoding::{decimal, decimal_string};
use crate::manager::{TaskDifficulty, difficulty_name};

verus! {

/// The default bound on gRPC messages, in MiB.
pub const MAX_GRPC_MESSAGE_SIZE_MB: usize = 16;

pub const ERROR_UUID_MISSING: &'static str = "uuid_missing";
pub const ERROR_UUID_INVALID: &'static str = "uuid_invalid";
pub const ERROR_ENVELOPE_PARSE_FAILED: &'static str = "envelope_parse_invalid";
pub const ERROR_ENVELOPE_INVALID_MP2_VERSION: &'static str = "envelope_invalid_mp2_version";
pub const ERROR_ENVELOPE_INCOMPATIBLE_MP2_VERSION: &'static str = "envelope_incompatbile_mp2_version";
pub const ERROR_PROOF_INVALID: &'static str = "proof_invalid";
pub const ERROR_PROOF_PANIC: &'static str = "proof_panic";
pub const ERROR_REPLY_SERIALIZATION_INVALID: &'static str = "reply_serialization_invalid";

/// A semantic version as parsed by `semver`.
#[derive(Debug)]
pub struct SemVer {
    pub major: u64,
    pub minor: u64,
    pub patch: u64,
    pub pre: String,
    pub build: String,
}

/// What `semver::Version::parse` gives for a string: the version's major,
/// minor, patch, pre-release and build parts, or the error message.
pub uninterp spec fn semver_parse(s: Seq<char>) -> Result<(u64, u64, u64, Seq<char>, Seq<char>), Seq<char>>;

/// Parses a version with `semver::Version::parse`.
///
/// Trusted: the result is the one `semver` computes for the string, named
/// `semver_parse`; the version grammar itself is not stated.
#[verifier::external_body]
pub(crate) fn parse_version(s: &str) -> (r: Result<SemVer, String>)
    ensures
        match r {
            Ok(v) => semver_parse(s@) == Ok::<(u64, u64, u64, Seq<char>, Seq<char>), Seq<char>>(
                (v.major, v.minor, v.patch, v.pre@, v.build@),
            ),
            Err(e) => semver_parse(s@) == Err::<(u64, u64, u64, Seq<char>, Seq<char>), Seq<char>>(e@),
        },
{
    match semver::Version::parse(s) {
        Ok(v) => Ok(
            SemVer {
                major: v.major,
                minor: v.minor,
                patch: v.patch,
                pre: v.pre.as_str().to_string(),
                build: v.build.as_str().to_string(),
            },
        ),
        Err(e) => Err(e.to_string()),
    }
}

/// The requirement `^major` on the mp2 version of incoming tasks: same major
/// version, and no pre-release.
#[derive(Clone, Copy, Debug, PartialEq, Eq, Structural)]
pub struct VersionRequirement {
    pub major: u64,
}

/// Whether a version satisfies a caret requirement on its major version
/// alone: the majors agree and the version is not a pre-release.
pub open spec fn caret_major_matches(major: u64, version_major: u64, pre: Seq<char>) -> bool {
    version_major == major && pre.len() == 0
}

impl VersionRequirement {
    /// The requirement for tasks of a worker built on mp2 `mp2_version`:
    /// `^` and the major version; the error when the version does not parse.
    pub fn for_mp2_version(mp2_version: &str) -> (r: Result<VersionRequirement, String>)
        ensures
            match semver_parse(mp2_version@) {
                Ok(v) => r == Ok::<VersionRequirement, String>(VersionRequirement { major: v.0 }),
                Err(e) => r matches Err(m) && m@ == e,
            },
    {
        match parse_version(mp2_version) {
            Ok(v) => Ok(VersionRequirement { major: v.major }),
            Err(e) => Err(e),
        }
    }

    /// Whether `v` satisfies the requirement.
    pub fn matches(&self, v: &SemVer) -> (r: bool)
        ensures
            r == caret_major_matches(self.major, v.major, v.pre@),
            r <==> (v.major == self.major && v.pre@.len() == 0),
    {
        v.major == self.major && v.pre.as_str().is_empty()
    }
}

/// Why a task from the gateway was not answered with a proof. The task's
/// UUID is kept, once known, as its 16 bytes.
#[derive(Debug)]
#[allow(inconsistent_fields)]
pub enum WorkerError {
    /// The message has no task id.
    UUIDMissing,
    /// The task id is not 16 bytes long.
    UUIDInvalid { uuid: Vec<u8> },
    /// The task envelope does not parse.
    EnvelopeParseFailed { uuid: [u8; 16], err: String },
    /// The envelope's mp2 version does not parse.
    EnvelopeInvalidMP2Version { uuid: [u8; 16], err: String },
    /// The envelope's mp2 version does not meet the worker's requirement.
    EnvelopeIncompatibleMP2Version { uuid: [u8; 16], got: SemVer, requirement: VersionRequirement },
    /// The prover returned an error.
    ProofFailed { uuid: [u8; 16], err: String },
    /// The prover panicked.
    ProofPanic { uuid: [u8; 16], panic_msg: String },
    /// The reply could not be serialised.
    ReplySerializationFailed { uuid: [u8; 16], err: String },
}

/// The metrics tag of an error.
pub open spec fn error_tag(e: WorkerError) -> Seq<char> {
    match e {
        WorkerError::UUIDMissing => ERROR_UUID_MISSING@,
        WorkerError::UUIDInvalid { .. } => ERROR_UUID_INVALID@,
        WorkerError::EnvelopeParseFailed { .. } => ERROR_ENVELOPE_PARSE_FAILED@,
        WorkerError::EnvelopeInvalidMP2Version { .. } => ERROR_ENVELOPE_INVALID_MP2_VERSION@,
        WorkerError::EnvelopeIncompatibleMP2Version { .. } => ERROR_ENVELOPE_INCOMPATIBLE_MP2_VERSION@,
        WorkerError::ProofFailed { .. } => ERROR_PROOF_INVALID@,
        WorkerError::ProofPanic { .. } => ERROR_PROOF_PANIC@,
        WorkerError::ReplySerializationFailed { .. } => ERROR_REPLY_SERIALIZATION_INVALID@,
    }
}

impl WorkerError {
    /// Returns the error's tag, used as a metrics label.
    pub fn to_error_tag(&self) -> (r: &'static str)
        ensures
            r@ == error_tag(*self),
    {
        match self {
            WorkerError::UUIDMissing => ERROR_UUID_MISSING,
            WorkerError::UUIDInvalid { .. } => ERROR_UUID_INVALID,
            WorkerError::EnvelopeParseFailed { .. } => ERROR_ENVELOPE_PARSE_FAILED,
            WorkerError::EnvelopeInvalidMP2Version { .. } => ERROR_ENVELOPE_INVALID_MP2_VERSION,
            WorkerError::EnvelopeIncompatibleMP2Version { .. } => ERROR_ENVELOPE_INCOMPATIBLE_MP2_VERSION,
            WorkerError::ProofFailed { .. } => ERROR_PROOF_INVALID,
            WorkerError::ProofPanic { .. } => ERROR_PROOF_PANIC,
            WorkerError::ReplySerializationFailed { .. } => ERROR_REPLY_SERIALIZATION_INVALID,
        }
    }
}

/// The UUID whose little-endian byte form is `b`: the first three fields
/// (4, 2 and 2 bytes) are reversed, the last 8 bytes are kept.
pub open spec fn uuid_from_le(b: Seq<u8>) -> Seq<u8> {
    seq![b[3], b[2], b[1], b[0], b[5], b[4], b[7], b[6]] + b.subrange(8, 16)
}

/// Builds a UUID from its little-endian bytes with `uuid::Uuid::from_bytes_le`
/// and returns its 16 bytes.
///
/// Trusted: `from_bytes_le` reverses the byte order of the first three fields
/// and keeps the rest, which is `uuid_from_le`.
#[verifier::external_body]
fn uuid_from_bytes_le(b: [u8; 16]) -> (r: [u8; 16])
    ensures
        r@ == uuid_from_le(b@),
{
    uuid::Uuid::from_bytes_le(b).into_bytes()
}

/// Reads a task's UUID from its id bytes.
pub fn task_uuid(task_id: &Option<Vec<u8>>) -> (r: Result<[u8; 16], WorkerError>)
    ensures
        match task_id {
            None => r matches Err(WorkerError::UUIDMissing),
            Some(id) => if id@.len() != 16 {
                (r matches Err(WorkerError::UUIDInvalid { uuid }) && uuid@ == id@)
            } else {
                (r matches Ok(u) && u@ == uuid_from_le(id@))
            },
        },
{
    match task_id {
        None => Err(WorkerError::UUIDMissing),
        Some(id) => {
            if id.len() != 16 {
                Err(WorkerError::UUIDInvalid { uuid: id.clone() })
            } else {
                let b: [u8; 16] = [
                    id[0], id[1], id[2], id[3], id[4], id[5], id[6], id[7],
                    id[8], id[9], id[10], id[11], id[12], id[13], id[14], id[15],
                ];
                assert(b@ =~= id@);
                Ok(uuid_from_bytes_le(b))
            }
        },
    }
}

/// A task admitted for proving: its UUID and the mp2 version it was made for.
#[derive(Debug)]
pub struct AdmittedTask {
    pub uuid: [u8; 16],
    pub version: SemVer,
}

/// The outcome of admitting a task whose UUID is `u`, given the outcome of
/// parsing its envelope.
pub open spec fn admitted(
    u: Seq<u8>,
    envelope_version: Result<&str, String>,
    requirement: VersionRequirement,
    r: Result<AdmittedTask, WorkerError>,
) -> bool {
    match envelope_version {
        Err(e) => (r matches Err(WorkerError::EnvelopeParseFailed { uuid, err }) && uuid@ == u && err@ == e@),
        Ok(v) => match semver_parse(v@) {
            Err(e) => (r matches Err(WorkerError::EnvelopeInvalidMP2Version { uuid, err }) && uuid@ == u
                && err@ == e),
            Ok(p) => if caret_major_matches(requirement.major, p.0, p.3) {
                (r matches Ok(t) && t.uuid@ == u && t.version.major == p.0 && t.version.minor == p.1
                    && t.version.patch == p.2 && t.version.pre@ == p.3 && t.version.build@ == p.4)
            } else {
                (r matches Err(WorkerError::EnvelopeIncompatibleMP2Version { uuid, got, requirement: req })
                    && uuid@ == u && got.major == p.0 && got.minor == p.1 && got.patch == p.2
                    && got.pre@ == p.3 && got.build@ == p.4 && req == requirement)
            },
        },
    }
}

/// Admits a task: reads its UUID, then takes the outcome of parsing its
/// envelope (the envelope's mp2 version, or the parse error), then checks the
/// version against the worker's requirement. The first failing check decides
/// the error.
pub fn admit_task(
    task_id: &Option<Vec<u8>>,
    envelope_version: Result<&str, String>,
    requirement: &VersionRequirement,
) -> (r: Result<AdmittedTask, WorkerError>)
    ensures
        match task_id {
            None => r matches Err(WorkerError::UUIDMissing),
            Some(id) => if id@.len() != 16 {
                (r matches Err(WorkerError::UUIDInvalid { uuid }) && uuid@ == id@)
            } else {
                admitted(uuid_from_le(id@), envelope_version, *requirement, r)
            },
        },
        r matches Ok(t) ==> t.version.major == requirement.major && t.version.pre@.len() == 0,
{
    let uuid = task_uuid(task_id)?;
    let version = match envelope_version {
        Err(err) => {
            return Err(WorkerError::EnvelopeParseFailed { uuid, err });
        },
        Ok(v) => v,
    };
    let parsed = match parse_version(version) {
        Err(err) => {
            return Err(WorkerError::EnvelopeInvalidMP2Version { uuid, err });
        },
        Ok(p) => p,
    };
    if !requirement.matches(&parsed) {
        return Err(
            WorkerError::EnvelopeIncompatibleMP2Version { uuid, got: parsed, requirement: *requirement },
        );
    }
    Ok(AdmittedTask { uuid, version: parsed })
}

/// Only compatible tasks are admitted: an admitted task carries the UUID it
/// was read with and an mp2 version that satisfies the worker's requirement.
pub proof fn lemma_admitted_is_compatible(
    u: Seq<u8>,
    envelope_version: Result<&str, String>,
    requirement: VersionRequirement,
    t: AdmittedTask,
)
    requires
        admitted(u, envelope_version, requirement, Ok(t)),
    ensures
        t.uuid@ == u,
        caret_major_matches(requirement.major, t.version.major, t.version.pre@),
        t.version.major == requirement.major,
        t.version.pre@.len() == 0,
        envelope_version matches Ok(v) && semver_parse(v@) is Ok,
{
}

/// A caret requirement on a major version admits exactly the releases of
/// that major version: an older or a newer major, or a pre-release, never
/// matches.
pub proof fn lemma_caret_requirement(major: u64, version_major: u64, pre: Seq<char>)
    ensures
        caret_major_matches(major, version_major, pre) <==> (version_major == major && pre.len() == 0),
        version_major < major ==> !caret_major_matches(major, version_major, pre),
        version_major > major ==> !caret_major_matches(major, version_major, pre),
        pre.len() > 0 ==> !caret_major_matches(major, version_major, pre),
{
}

/// How proving an admitted task ended.
pub enum ProvingOutcome {
    /// The reply, serialised.
    Reply(Vec<u8>),
    /// The prover returned an error.
    Failed(String),
    /// The prover panicked with this message.
    Panicked(String),
    /// The reply could not be serialised.
    SerializationFailed(String),
}

/// The answer to an admitted task: its serialised reply, or the error that
/// names the task's UUID.
pub fn task_result(uuid: [u8; 16], outcome: ProvingOutcome) -> (r: Result<Vec<u8>, WorkerError>)
    ensures
        match outcome {
            ProvingOutcome::Reply(b) => r == Ok::<Vec<u8>, WorkerError>(b),
            ProvingOutcome::Failed(e) => r == Err::<Vec<u8>, WorkerError>(
                WorkerError::ProofFailed { uuid, err: e },
            ),
            ProvingOutcome::Panicked(m) => r == Err::<Vec<u8>, WorkerError>(
                WorkerError::ProofPanic { uuid, panic_msg: m },
            ),
            ProvingOutcome::SerializationFailed(e) => r == Err::<Vec<u8>, WorkerError>(
                WorkerError::ReplySerializationFailed { uuid, err: e },
            ),
        },
{
    match outcome {
        ProvingOutcome::Reply(b) => Ok(b),
        ProvingOutcome::Failed(err) => Err(WorkerError::ProofFailed { uuid, err }),
        ProvingOutcome::Panicked(panic_msg) => Err(WorkerError::ProofPanic { uuid, panic_msg }),
        ProvingOutcome::SerializationFailed(err) => Err(WorkerError::ReplySerializationFailed { uuid, err }),
    }
}

/// What the gateway's stream delivered.
pub enum GatewayEvent<M> {
    /// A task message.
    Message(M),
    /// The stream failed with this status.
    StreamError(String),
    /// The stream ended.
    StreamEnded,
}

/// What the worker does next.
pub enum LoopAction<M> {
    /// Process the task message and answer it.
    Process(M),
    /// Stop, reporting why.
    Stop(WorkerExit),
}

/// Why the worker stopped.
#[derive(Debug)]
pub enum WorkerExit {
    ConnectionEnded { status: String },
    InboundBroken,
}

/// Decides how the worker reacts to an event of the gateway's stream: a
/// message is processed; an error or the end of the stream stops the worker.
pub fn on_gateway_event<M>(event: GatewayEvent<M>) -> (r: LoopAction<M>)
    ensures
        match event {
            GatewayEvent::Message(m) => r == LoopAction::Process(m),
            GatewayEvent::StreamError(s) => r == LoopAction::<M>::Stop(
                WorkerExit::ConnectionEnded { status: s },
            ),
            GatewayEvent::StreamEnded => r == LoopAction::<M>::Stop(WorkerExit::InboundBroken),
        },
{
    match event {
        GatewayEvent::Message(m) => LoopAction::Process(m),
        GatewayEvent::StreamError(status) => LoopAction::Stop(WorkerExit::ConnectionEnded { status }),
        GatewayEvent::StreamEnded => LoopAction::Stop(WorkerExit::InboundBroken),
    }
}

/// The announcement a worker sends when it connects.
#[derive(Debug)]
pub struct WorkerReady {
    pub version: String,
    pub worker_class: String,
}

/// A message from the worker to the gateway.
#[derive(Debug)]
pub enum WorkerRequest {
    WorkerReady(WorkerReady),
    WorkerDone(WorkerDone),
}

/// What a processed task is answered with.
#[derive(Debug)]
pub enum Reply {
    /// The serialised reply of the prover.
    TaskOutput(Vec<u8>),
    /// The text of the error that ended the task.
    WorkerError(String),
}

/// The answer to a task, sent back under the task's id.
#[derive(Debug)]
pub struct WorkerDone {
    pub task_id: Option<Vec<u8>>,
    pub reply: Option<Reply>,
}

/// The request that answers the task with id `task_id`, given how processing
/// it ended.
pub open spec fn reply_for(task_id: Option<Vec<u8>>, result: Result<Vec<u8>, String>) -> WorkerRequest {
    WorkerRequest::WorkerDone(
        WorkerDone {
            task_id,
            reply: Some(
                match result {
                    Ok(bytes) => Reply::TaskOutput(bytes),
                    Err(text) => Reply::WorkerError(text),
                },
            ),
        },
    )
}

/// Where the worker is in its conversation with the gateway.
pub enum WorkerState {
    /// Waiting for the next item of the gateway's stream.
    Reading,
    /// The message of the task with this id is being processed; nothing is
    /// read until it is answered.
    Processing { task_id: Option<Vec<u8>> },
    /// The worker stopped.
    Stopped,
}

/// What happened to the worker.
pub enum WorkerEvent<M> {
    /// The gateway's stream delivered this; a message comes with its task id.
    Inbound(GatewayEvent<(Option<Vec<u8>>, M)>),
    /// Processing the current message ended: the serialised reply, or the
    /// text of the error.
    Processed(Result<Vec<u8>, String>),
}

/// What the worker does next.
pub enum WorkerCommand<M> {
    /// Process this message.
    Process(M),
    /// Send this request to the gateway, then read the next item.
    Send(WorkerRequest),
    /// Stop, reporting why.
    Stop(WorkerExit),
}

/// The events a worker takes in a state: stream items while reading, the
/// outcome of processing while processing, nothing once stopped.
pub open spec fn accepts<M>(state: WorkerState, event: WorkerEvent<M>) -> bool {
    match state {
        WorkerState::Reading => event is Inbound,
        WorkerState::Processing { .. } => event is Processed,
        WorkerState::Stopped => false,
    }
}

/// The worker's next state and command after `event`.
pub open spec fn worker_next<M>(state: WorkerState, event: WorkerEvent<M>) -> (WorkerState, WorkerCommand<M>) {
    match event {
        WorkerEvent::Inbound(GatewayEvent::Message(msg)) => (
            WorkerState::Processing { task_id: msg.0 },
            WorkerCommand::Process(msg.1),
        ),
        WorkerEvent::Inbound(GatewayEvent::StreamError(status)) => (
            WorkerState::Stopped,
            WorkerCommand::Stop(WorkerExit::ConnectionEnded { status }),
        ),
        WorkerEvent::Inbound(GatewayEvent::StreamEnded) => (
            WorkerState::Stopped,
            WorkerCommand::Stop(WorkerExit::InboundBroken),
        ),
        WorkerEvent::Processed(result) => match state {
            WorkerState::Processing { task_id } => (
                WorkerState::Reading,
                WorkerCommand::Send(reply_for(task_id, result)),
            ),
            _ => (WorkerState::Stopped, WorkerCommand::Stop(WorkerExit::InboundBroken)),
        },
    }
}

/// One step of the worker's conversation with the gateway: a message read
/// is processed, its outcome is answered with one reply under the message's
/// task id before the next read, and an error or the end of the stream stops
/// the worker.
pub fn worker_step<M>(state: WorkerState, event: WorkerEvent<M>) -> (r: (WorkerState, WorkerCommand<M>))
    requires
        accepts(state, event),
    ensures
        r == worker_next(state, event),
{
    match event {
        WorkerEvent::Inbound(GatewayEvent::Message(msg)) => {
            let (task_id, m) = msg;
            (WorkerState::Processing { task_id }, WorkerCommand::Process(m))
        },
        WorkerEvent::Inbound(GatewayEvent::StreamError(status)) => (
            WorkerState::Stopped,
            WorkerCommand::Stop(WorkerExit::ConnectionEnded { status }),
        ),
        WorkerEvent::Inbound(GatewayEvent::StreamEnded) => (
            WorkerState::Stopped,
            WorkerCommand::Stop(WorkerExit::InboundBroken),
        ),
        WorkerEvent::Processed(result) => match state {
            WorkerState::Processing { task_id } => (
                WorkerState::Reading,
                WorkerCommand::Send(task_reply(task_id, result)),
            ),
            _ => (WorkerState::Stopped, WorkerCommand::Stop(WorkerExit::InboundBroken)),
        },
    }
}

/// One reply per message, sent before the next read: a message read while
/// reading is processed; while it is processed the worker takes no stream
/// item, only the outcome of processing; that outcome gives exactly one
/// request, the reply under the message's task id, and the worker reads
/// again. While reading, no reply is sent without a message.
pub proof fn lemma_one_reply_per_message<M>(
    task_id: Option<Vec<u8>>,
    m: M,
    event: WorkerEvent<M>,
    result: Result<Vec<u8>, String>,
)
    ensures
        worker_next(WorkerState::Reading, WorkerEvent::Inbound(GatewayEvent::Message((task_id, m))))
            == (WorkerState::Processing { task_id }, WorkerCommand::Process(m)),
        accepts(WorkerState::Processing { task_id }, event) ==> event is Processed,
        worker_next(WorkerState::Processing { task_id }, WorkerEvent::<M>::Processed(result)) == (
            WorkerState::Reading,
            WorkerCommand::<M>::Send(reply_for(task_id, result)),
        ),
        accepts(WorkerState::Reading, event) ==> !(worker_next(WorkerState::Reading, event).1 is Send),
{
}

/// The message that answers the task with id `task_id`: the serialised reply
/// when the task was processed, else the text of its error (the error as the
/// caller renders it for the gateway).
pub fn task_reply(task_id: Option<Vec<u8>>, result: Result<Vec<u8>, String>) -> (r: WorkerRequest)
    ensures
        r == reply_for(task_id, result),
        r matches WorkerRequest::WorkerDone(d) && d.task_id == task_id && match result {
            Ok(bytes) => d.reply == Some(Reply::TaskOutput(bytes)),
            Err(text) => d.reply == Some(Reply::WorkerError(text)),
        },
{
    let reply = match result {
        Ok(bytes) => Reply::TaskOutput(bytes),
        Err(text) => Reply::WorkerError(text),
    };
    WorkerRequest::WorkerDone(WorkerDone { task_id, reply: Some(reply) })
}

/// How a worker connects to a gateway.
pub struct GrpcConfig {
    /// The gateway's URI.
    pub gateway: String,
    /// The worker's version, announced to the gateway.
    pub version: String,
    /// The bearer token.
    pub token: String,
    /// The worker class announced to the gateway.
    pub class: String,
    pub max_grpc_message_size_mb: Option<usize>,
}

/// The message size bound in bytes for a configured bound in MiB.
pub open spec fn max_message_bytes(mb: Option<usize>) -> int {
    match mb {
        Some(m) => m * 1024 * 1024,
        None => MAX_GRPC_MESSAGE_SIZE_MB * 1024 * 1024,
    }
}

impl GrpcConfig {
    /// The announcement: the worker's version and class.
    pub fn ready_msg(&self) -> (r: WorkerRequest)
        ensures
            r matches WorkerRequest::WorkerReady(w) && w.version@ == self.version@
                && w.worker_class@ == self.class@,
    {
        WorkerRequest::WorkerReady(
            WorkerReady { version: self.version.clone(), worker_class: self.class.clone() },
        )
    }

    /// The value of the `authorization` header: the token as a bearer token.
    pub fn authorization(&self) -> (r: String)
        ensures
            r@ == "Bearer "@ + self.token@,
    {
        let mut s = String::from_str("Bearer ");
        s.append(self.token.as_str());
        s
    }

    /// The message size bound in bytes: the configured bound, or 16 MiB.
    pub fn max_message_size(&self) -> (r: usize)
        requires
            max_message_bytes(self.max_grpc_message_size_mb) <= usize::MAX,
        ensures
            r == max_message_bytes(self.max_grpc_message_size_mb),
    {
        let mb = match self.max_grpc_message_size_mb {
            Some(m) => m,
            None => MAX_GRPC_MESSAGE_SIZE_MB,
        };
        assert(mb * 1024 <= mb * 1024 * 1024) by (nonlinear_arith);
        mb * 1024 * 1024
    }
}

/// The class a worker announces: its class name, `-`, and the major version
/// of its mp2 library.
pub open spec fn worker_class_spec(d: TaskDifficulty, mp2_major: u64) -> Seq<char> {
    difficulty_name(d) + "-"@ + decimal(mp2_major as nat)
}

/// Builds the class a worker announces.
pub fn worker_class(instance_type: TaskDifficulty, mp2_major: u64) -> (r: String)
    ensures
        r@ == worker_class_spec(instance_type, mp2_major),
{
    let mut s = instance_type.name();
    s.append("-");
    let d = decimal_string(mp2_major);
    s.append(d.as_str());
    s
}

/// Whether the worker is alive: the last task was processed at most
/// `interval` seconds before `now` (both in seconds since the epoch).
pub fn is_alive(now: u64, last_processed: u64, interval: u64) -> (r: bool)
    requires
        last_processed <= now,
    ensures
        r == (now - last_processed <= interval),
{
    now - last_processed <= interval
}

/// The answer of the liveness endpoint: `200 OK` while the worker is alive,
/// `500 FAIL` otherwise.
pub fn liveness_reply(now: u64, last_processed: u64, interval: u64) -> (r: (u16, &'static str))
    requires
        last_processed <= now,
    ensures
        now - last_processed <= interval ==> r.0 == 200 && r.1@ == "OK"@,
        now - last_processed > interval ==> r.0 == 500 && r.1@ == "FAIL"@,
{
    if is_alive(now, last_processed, interval) {
        (200, "OK")
    } else {
        (500, "FAIL")
    }
}

/// The answer of the readiness endpoint: always `200 OK`.
pub fn readiness_reply() -> (r: (u16, &'static str))
    ensures
        r.0 == 200 && r.1@ == "OK"@,
{
    (200, "OK")
}

/// The variant of an error, by number.
pub open spec fn error_variant(e: WorkerError) -> int {
    match e {
        WorkerError::UUIDMissing => 0,
        WorkerError::UUIDInvalid { .. } => 1,
        WorkerError::EnvelopeParseFailed { .. } => 2,
        WorkerError::EnvelopeInvalidMP2Version { .. } => 3,
        WorkerError::EnvelopeIncompatibleMP2Version { .. } => 4,
        WorkerError::ProofFailed { .. } => 5,
        WorkerError::ProofPanic { .. } => 6,
        WorkerError::ReplySerializationFailed { .. } => 7,
    }
}

/// Errors of different kinds have different metrics tags.
pub proof fn lemma_error_tags_distinct(a: WorkerError, b: WorkerError)
    requires
        error_variant(a) != error_variant(b),
    ensures
        error_tag(a) != error_tag(b),
{
    reveal_strlit("uuid_missing");
    reveal_strlit("uuid_invalid");
    reveal_strlit("envelope_parse_invalid");
    reveal_strlit("envelope_invalid_mp2_version");
    reveal_strlit("envelope_incompatbile_mp2_version");
    reveal_strlit("proof_invalid");
    reveal_strlit("proof_panic");
    reveal_strlit("reply_serialization_invalid");
    let ta = error_tag(a);
    let tb = error_tag(b);
    if ta.len() == tb.len() {
        if ta[0] == tb[0] {
            assert(ta[1] != tb[1] || ta[9] != tb[9]);
        } else {
        }
    }
}

} // verus!
