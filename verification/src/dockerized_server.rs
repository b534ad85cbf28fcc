//! The zkVM server that runs inside a container, and its client: the inputs
//! they exchange, the proof kinds on the wire and how replies are read.
use crate::dockerized::error::zkVMClientError;
use crate::text::{decimal, decimal_string, signed_decimal, signed_decimal_string, string_of};
use vstd::prelude::*;

verus! {

/// An input item once it is in the form the zkVM reads: an object already
/// serialized the way the zkVM expects, or raw bytes.
#[derive(Clone, Debug, PartialEq, Eq)]
pub enum SerializedInputItem {
    SerializedObject(Vec<u8>),
    Bytes(Vec<u8>),
}

/// The inputs of one execution or proof, in order.
pub struct SerializedInput(pub Vec<SerializedInputItem>);

/// Abstract value of an input item: whether it is framed as raw bytes, and
/// its bytes.
pub struct InputItemView {
    pub is_bytes: bool,
    pub data: Seq<u8>,
}

impl View for SerializedInputItem {
    type V = InputItemView;

    open spec fn view(&self) -> InputItemView {
        match self {
            SerializedInputItem::SerializedObject(b) => InputItemView { is_bytes: false, data: b@ },
            SerializedInputItem::Bytes(b) => InputItemView { is_bytes: true, data: b@ },
        }
    }
}

/// The kind of proof a zkVM produces.
#[derive(Clone, Copy, Debug, PartialEq, Eq, Structural)]
pub enum ProofKind {
    Compressed,
    Groth16,
}

/// The proof kind encoded as `k` on the wire, if any.
pub open spec fn proof_kind_of(k: int) -> Option<ProofKind> {
    if k == 0 {
        Some(ProofKind::Compressed)
    } else if k == 1 {
        Some(ProofKind::Groth16)
    } else {
        None
    }
}

/// The wire encoding of a proof kind: its position.
pub open spec fn proof_kind_code(p: ProofKind) -> int {
    match p {
        ProofKind::Compressed => 0,
        ProofKind::Groth16 => 1,
    }
}

/// The message of the error for an unknown proof kind.
pub open spec fn invalid_proof_kind_message(k: int) -> Seq<char> {
    "invalid proof kind: "@ + signed_decimal(k)
}

/// The message of the error for a reply without a result.
pub open spec fn missing_result_message() -> Seq<char> {
    "response result should always be Some"@
}

/// The wire encoding of a proof kind.
pub fn proof_kind_to_i32(p: ProofKind) -> (r: i32)
    ensures
        r == proof_kind_code(p),
{
    match p {
        ProofKind::Compressed => 0,
        ProofKind::Groth16 => 1,
    }
}

/// The proof kind a request names; an error `invalid proof kind: {k}` when
/// `k` names none.
pub fn proof_kind_from_i32(k: i32) -> (r: Result<ProofKind, String>)
    ensures
        match proof_kind_of(k as int) {
            Some(p) => r == Ok::<ProofKind, String>(p),
            None => r matches Err(m) && m@ == invalid_proof_kind_message(k as int),
        },
{
    if k == 0 {
        Ok(ProofKind::Compressed)
    } else if k == 1 {
        Ok(ProofKind::Groth16)
    } else {
        let mut m = string_of("invalid proof kind: ");
        let d = signed_decimal_string(k);
        m.append(d.as_str());
        Err(m)
    }
}

/// What the client makes of a server reply: the reply's result, if it has
/// one, with a failed zkVM method reported as a zkVM error; a reply without
/// result is an RPC error.
pub fn reply_result<T>(result: Option<Result<T, String>>) -> (r: Result<T, zkVMClientError>)
    ensures
        match result {
            Some(Ok(v)) => r matches Ok(x) && x == v,
            Some(Err(m)) => r matches Err(zkVMClientError::zkVM(x)) && x == m,
            None => r matches Err(zkVMClientError::Rpc(x)) && x@ == missing_result_message(),
        },
{
    match result {
        Some(Ok(v)) => Ok(v),
        Some(Err(m)) => Err(zkVMClientError::zkVM(m)),
        None => Err(zkVMClientError::Rpc(string_of("response result should always be Some"))),
    }
}

/// Serves one zkVM to clients by forwarding their requests to it.
pub struct zkVMServer<T> {
    zkvm: T,
}

impl<T> zkVMServer<T> {
    /// The zkVM served.
    pub closed spec fn spec_zkvm(&self) -> T {
        self.zkvm
    }

    /// A server of `zkvm`.
    pub fn new(zkvm: T) -> (r: Self)
        ensures
            r.spec_zkvm() == zkvm,
    {
        zkVMServer { zkvm }
    }

    /// The zkVM served.
    pub fn zkvm(&self) -> (r: &T)
        ensures
            *r == self.spec_zkvm(),
    {
        &self.zkvm
    }
}

/// Reading back the wire encoding of a proof kind gives the proof kind.
pub proof fn lemma_proof_kind_roundtrip(p: ProofKind)
    ensures
        proof_kind_of(proof_kind_code(p)) == Some(p),
{
}

/// The message of the internal error for a report that could not be
/// serialized.
pub open spec fn report_error_message(e: Seq<char>) -> Seq<char> {
    "failed to serialize report: "@ + e
}

/// What the server answers to an execute or prove request, given what the
/// zkVM method gave (its results with the serialized report, or the
/// serialization's error message; or the method's error message): a failed
/// method is a reply that carries its message; a report that could not be
/// serialized is an internal error of the RPC; otherwise a reply with the
/// results and the report.
pub fn server_reply<T>(outcome: Result<(T, Result<Vec<u8>, String>), String>) -> (r: Result<
    Result<(T, Vec<u8>), String>,
    String,
>)
    ensures
        match outcome {
            Err(m) => r matches Ok(Err(x)) && x == m,
            Ok((v, Ok(report))) => r matches Ok(Ok((x, y))) && x == v && y == report,
            Ok((_, Err(e))) => r matches Err(x) && x@ == report_error_message(e@),
        },
{
    match outcome {
        Err(m) => Ok(Err(m)),
        Ok((v, Ok(report))) => Ok(Ok((v, report))),
        Ok((_, Err(e))) => {
            let mut m = string_of("failed to serialize report: ");
            m.append(e.as_str());
            Err(m)
        },
    }
}

/// How long the client waits for a server to become healthy, in
/// milliseconds (five minutes).
pub const CONNECT_TIMEOUT_MS: u64 = 300000;

/// The pause between two health probes, in milliseconds.
pub const CONNECT_INTERVAL_MS: u64 = 500;

/// What the client does next while it waits for a server.
#[derive(Clone, Copy, Debug, PartialEq, Eq, Structural)]
pub enum ConnectStep {
    /// Probe the server's health endpoint.
    Probe,
    /// Pause for `CONNECT_INTERVAL_MS`, then start the next round.
    Wait,
    /// The server is healthy: connect.
    Connected,
    /// The server did not become healthy in time.
    TimedOut,
}

/// The next step of the wait for a server: at the start of a round
/// (`probe` is `None`) the client gives up once more than the timeout has
/// elapsed and probes otherwise; after a probe it connects when the server
/// answered healthy and waits otherwise.
pub open spec fn connect_step_of(elapsed_ms: u64, probe: Option<bool>) -> ConnectStep {
    match probe {
        None => if elapsed_ms > CONNECT_TIMEOUT_MS {
            ConnectStep::TimedOut
        } else {
            ConnectStep::Probe
        },
        Some(true) => ConnectStep::Connected,
        Some(false) => ConnectStep::Wait,
    }
}

/// The next step of the wait for a server, `elapsed_ms` after the wait
/// began, given the outcome of this round's probe if it was made.
pub fn connect_step(elapsed_ms: u64, probe: Option<bool>) -> (r: ConnectStep)
    ensures
        r == connect_step_of(elapsed_ms, probe),
{
    match probe {
        None => if elapsed_ms > CONNECT_TIMEOUT_MS {
            ConnectStep::TimedOut
        } else {
            ConnectStep::Probe
        },
        Some(true) => ConnectStep::Connected,
        Some(false) => ConnectStep::Wait,
    }
}

/// The client's view of the step: a timed-out wait is the error
/// `ConnectionTimeout`, any other step is no error.
pub fn connect_error(step: ConnectStep) -> (r: Option<zkVMClientError>)
    ensures
        step == ConnectStep::TimedOut <==> r is Some,
        r matches Some(e) ==> e == zkVMClientError::ConnectionTimeout,
{
    match step {
        ConnectStep::TimedOut => Some(zkVMClientError::ConnectionTimeout),
        _ => None,
    }
}

/// The address of the server listening on `port` on this machine.
pub fn server_url(port: u16) -> (r: String)
    ensures
        r@ == "http://127.0.0.1:"@ + decimal(port as nat),
{
    let mut u = string_of("http://127.0.0.1:");
    let p = decimal_string(port as u64);
    u.append(p.as_str());
    u
}

/// The first arguments of the server in its container: the port it listens
/// on. The prover resource's arguments follow them.
pub fn server_port_args(port: u16) -> (r: Vec<String>)
    ensures
        r.deep_view() == seq!["--port"@, decimal(port as nat)],
{
    let mut r: Vec<String> = Vec::new();
    r.push(string_of("--port"));
    r.push(decimal_string(port as u64));
    assert(r.deep_view() =~= seq!["--port"@, decimal(port as nat)]);
    r
}

/// The client connects only after a healthy probe, and gives up only once
/// more than the timeout has passed; within the timeout a round always
/// probes.
pub proof fn lemma_connect_waits_for_health(elapsed_ms: u64, probe: Option<bool>)
    ensures
        connect_step_of(elapsed_ms, probe) == ConnectStep::Connected <==> probe == Some(true),
        connect_step_of(elapsed_ms, probe) == ConnectStep::TimedOut ==> probe is None && elapsed_ms
            > CONNECT_TIMEOUT_MS,
        probe is None && elapsed_ms <= CONNECT_TIMEOUT_MS ==> connect_step_of(elapsed_ms, probe)
            == ConnectStep::Probe,
{
}

} // verus!
