use vstd::prelude::*;

verus! {

/// A timestamp as seconds since the epoch, clamped at zero.
pub open spec fn clamped(t: i64) -> u64 {
    if t < 0 {
        0
    } else {
        t as u64
    }
}

/// Clamps a signed timestamp at zero.
pub fn clamp_timestamp(t: i64) -> (r: u64)
    ensures
        r == clamped(t),
{
    if t < 0 {
        0
    } else {
        t as u64
    }
}

#[verifier::external_type_specification]
#[verifier::external_body]
pub struct ExSystemTime(std::time::SystemTime);

/// Relies on std's `SystemTime::now`: the system clock's current reading.
#[verifier::external_body]
fn system_now() -> (r: std::time::SystemTime) {
    std::time::SystemTime::now()
}

/// Relies on chrono's `From<SystemTime> for DateTime<Utc>` and on
/// `DateTime::timestamp`: whole seconds since the epoch, negative for a time
/// before 1970. The conversion unwraps only for a time outside chrono's range
/// of about 262,000 years either side of year 0, which no system clock
/// reading reaches.
#[verifier::external_body]
fn epoch_seconds(t: std::time::SystemTime) -> (r: i64) {
    chrono::DateTime::<chrono::Utc>::from(t).timestamp()
}

/// The current time as seconds since the epoch; a clock that reads before
/// 1970 gives zero.
pub fn timestamp() -> (r: u64)
    ensures
        r <= i64::MAX,
{
    clamp_timestamp(epoch_seconds(system_now()))
}

/// The first line the dispatcher writes to an executor.
pub open spec fn start_line(sub_command: Seq<char>, request_json: Seq<char>) -> Seq<char> {
    "{\"start\":{\"sub_command\":\""@ + sub_command + "\",\"request\":"@ + request_json + "}}\n"@
}

/// Frames the start of a session: the sub-command and the serialized
/// request, as one newline-terminated line.
pub fn start_frame(sub_command: &str, request_json: &str) -> (r: String)
    ensures
        r@ == start_line(sub_command@, request_json@),
{
    let mut line = String::from_str("{\"start\":{\"sub_command\":\"");
    line.append(sub_command);
    line.append("\",\"request\":");
    line.append(request_json);
    line.append("}}\n");
    line
}

/// One line of progress streamed by an executor while it runs a function.
#[derive(Clone, Debug, PartialEq, Eq)]
pub struct OutputFrame {
    pub execution_id: String,
    pub stream: String,
    pub level: String,
    pub group: Option<String>,
    pub data: Option<String>,
    pub message: String,
    pub timestamp: u64,
}

impl OutputFrame {
    /// Builds an output frame; a negative timestamp becomes zero.
    pub fn new(
        execution_id: String,
        stream: String,
        level: String,
        group: Option<String>,
        data: Option<String>,
        message: String,
        timestamp: i64,
    ) -> (r: OutputFrame)
        ensures
            r.execution_id == execution_id,
            r.stream == stream,
            r.level == level,
            r.group == group,
            r.data == data,
            r.message == message,
            r.timestamp == clamped(timestamp),
    {
        OutputFrame {
            execution_id,
            stream,
            level,
            group,
            data,
            message,
            timestamp: clamp_timestamp(timestamp),
        }
    }
}

/// What an executor reports in its finish frame. A failure here is a normal
/// end of the conversation, not a fault of the session.
#[derive(Clone, Debug, PartialEq, Eq)]
pub enum FunctionResult {
    /// The kind-specific payload, as serialized text.
    Success(String),
    Failure { kind: String, message: String },
}

/// The ways the dispatcher itself ends an execution without a result from
/// the executor.
#[derive(Clone, Copy, Debug, PartialEq, Eq, Structural)]
pub enum FailureKind {
    PoolUnavailable,
    DecryptFailed,
    StartFailed,
    PeerClosed,
    ProtocolViolation,
    Timeout,
    Killed,
}

/// The name a failure kind carries on the reply channel.
pub open spec fn failure_name(k: FailureKind) -> Seq<char> {
    match k {
        FailureKind::PoolUnavailable => "pool_unavailable"@,
        FailureKind::DecryptFailed => "decrypt_failed"@,
        FailureKind::StartFailed => "start_failed"@,
        FailureKind::PeerClosed => "peer_closed"@,
        FailureKind::ProtocolViolation => "protocol_violation"@,
        FailureKind::Timeout => "timeout"@,
        FailureKind::Killed => "killed"@,
    }
}

/// The message a failure kind carries on the reply channel.
pub open spec fn failure_message(k: FailureKind) -> Seq<char> {
    match k {
        FailureKind::PoolUnavailable => "no executor could be leased"@,
        FailureKind::DecryptFailed => "failed to decrypt request"@,
        FailureKind::StartFailed => "failed to start the session with the executor"@,
        FailureKind::PeerClosed => "the executor closed the connection before finishing"@,
        FailureKind::ProtocolViolation => "the executor broke the session protocol"@,
        FailureKind::Timeout => "function execution timed out"@,
        FailureKind::Killed => "function execution killed"@,
    }
}

impl FailureKind {
    /// The name of this kind on the reply channel.
    pub fn kind_name(&self) -> (r: &'static str)
        ensures
            r@ == failure_name(*self),
    {
        match self {
            FailureKind::PoolUnavailable => "pool_unavailable",
            FailureKind::DecryptFailed => "decrypt_failed",
            FailureKind::StartFailed => "start_failed",
            FailureKind::PeerClosed => "peer_closed",
            FailureKind::ProtocolViolation => "protocol_violation",
            FailureKind::Timeout => "timeout",
            FailureKind::Killed => "killed",
        }
    }

    /// Whether the caller may usefully try again: only a busy pool is transient.
    pub fn is_retriable(&self) -> (r: bool)
        ensures
            r == (*self == FailureKind::PoolUnavailable),
    {
        matches!(self, FailureKind::PoolUnavailable)
    }

    /// A human-readable message for this kind.
    pub fn message(&self) -> (r: &'static str)
        ensures
            r@ == failure_message(*self),
    {
        match self {
            FailureKind::PoolUnavailable => "no executor could be leased",
            FailureKind::DecryptFailed => "failed to decrypt request",
            FailureKind::StartFailed => "failed to start the session with the executor",
            FailureKind::PeerClosed => "the executor closed the connection before finishing",
            FailureKind::ProtocolViolation => "the executor broke the session protocol",
            FailureKind::Timeout => "function execution timed out",
            FailureKind::Killed => "function execution killed",
        }
    }
}

/// The last frame of an execution on the reply channel.
#[derive(Clone, Debug, PartialEq, Eq)]
pub enum Terminal {
    /// The executor finished and reported this result.
    Finished(FunctionResult),
    /// The dispatcher ended the execution.
    Failed(FailureKind),
}

/// A frame sent to the reply address.
#[derive(Clone, Debug, PartialEq, Eq)]
pub enum Outbound {
    Output(OutputFrame),
    /// Marks the end of the output stream.
    Finalizer,
    Terminal(Terminal),
}

} // verus!
