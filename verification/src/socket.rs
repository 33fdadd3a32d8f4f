//! The connectivity probe of the add-on socket, alone and with bounded retries.

use crate::error::{quote_detail, quoted_detail, BridgeError};
use crate::json::{JsonModel, JsonValue};
use crate::rpc::{default_host, default_host_text, ping_model, ping_request, DEFAULT_PORT};
use crate::text::concat2;
use vstd::prelude::*;
use vstd::string::StringExecFns;

verus! {

/// The outcome of one connectivity probe.
#[derive(Debug, PartialEq, Eq)]
pub struct BlenderSocketStatus {
    pub connected: bool,
    pub host: String,
    pub port: u16,
    pub message: String,
}

/// The mathematical model of a [`BlenderSocketStatus`].
pub struct SocketStatusView {
    pub connected: bool,
    pub host: Seq<char>,
    pub port: u16,
    pub message: Seq<char>,
}

impl View for BlenderSocketStatus {
    type V = SocketStatusView;

    open spec fn view(&self) -> SocketStatusView {
        SocketStatusView {
            connected: self.connected,
            host: self.host@,
            port: self.port,
            message: self.message@,
        }
    }
}

impl Clone for BlenderSocketStatus {
    fn clone(&self) -> (copy: Self)
        ensures
            copy@ == self@,
    {
        BlenderSocketStatus {
            connected: self.connected,
            host: self.host.clone(),
            port: self.port,
            message: self.message.clone(),
        }
    }
}

/// The status of a probe that was answered.
pub open spec fn connected_status(host: Seq<char>, port: u16) -> SocketStatusView {
    SocketStatusView { connected: true, host, port, message: "Connected to Blender addon socket."@ }
}

/// The status of a probe that failed with the given message.
pub open spec fn unavailable_status(host: Seq<char>, port: u16, reason: Seq<char>) -> SocketStatusView {
    SocketStatusView {
        connected: false,
        host,
        port,
        message: "Blender socket unavailable: "@ + quoted_detail(reason),
    }
}

/// The status that the outcome of a probe amounts to: connected exactly when the
/// command succeeded.
pub open spec fn probe_status(host: Seq<char>, port: u16, outcome: Result<JsonValue, BridgeError>) -> SocketStatusView {
    match outcome {
        Ok(_) => connected_status(host, port),
        Err(error) => unavailable_status(host, port, error@.message),
    }
}

/// The host to use: the one given, or the default.
pub open spec fn host_or_default(host: Option<String>) -> Seq<char> {
    match host {
        Some(host) => host@,
        None => default_host_text(),
    }
}

/// The port to use: the one given, or the default.
pub open spec fn port_or_default(port: Option<u16>) -> u16 {
    match port {
        Some(port) => port,
        None => DEFAULT_PORT,
    }
}

/// The status for the outcome of one probe of the add-on at `host` and `port`.
pub fn socket_status(host: &str, port: u16, outcome: &Result<JsonValue, BridgeError>) -> (status:
    BlenderSocketStatus)
    ensures
        status@ == probe_status(host@, port, *outcome),
{
    match outcome {
        Ok(_) => BlenderSocketStatus {
            connected: true,
            host: String::from_str(host),
            port,
            message: String::from_str("Connected to Blender addon socket."),
        },
        Err(error) => BlenderSocketStatus {
            connected: false,
            host: String::from_str(host),
            port,
            message: concat2(
                "Blender socket unavailable: ",
                quote_detail(error.message.as_str()).as_str(),
            ),
        },
    }
}

/// The next step of a probe.
pub enum ProbeStep {
    /// Send this request to the add-on at this host and port, after waiting for
    /// the given number of milliseconds.
    Send { host: String, port: u16, request: JsonValue, delay_millis: u64 },
    /// The probe is over, with this status.
    Finished(BlenderSocketStatus),
}

/// The mathematical model of a [`ProbeStep`].
pub enum ProbeDecision {
    Send { host: Seq<char>, port: u16, request: JsonModel, delay_millis: u64 },
    Finished(SocketStatusView),
}

impl View for ProbeStep {
    type V = ProbeDecision;

    open spec fn view(&self) -> ProbeDecision {
        match self {
            ProbeStep::Send { host, port, request, delay_millis } => ProbeDecision::Send {
                host: host@,
                port: *port,
                request: request@,
                delay_millis: *delay_millis,
            },
            ProbeStep::Finished(status) => ProbeDecision::Finished(status@),
        }
    }
}

/// One probe: a liveness request to the host and port given, or to the defaults,
/// and then the status that its outcome amounts to.
pub open spec fn probe_decision(
    host: Option<String>,
    port: Option<u16>,
    outcome: Option<Result<JsonValue, BridgeError>>,
) -> ProbeDecision {
    match outcome {
        None => ProbeDecision::Send {
            host: host_or_default(host),
            port: port_or_default(port),
            request: ping_model(),
            delay_millis: 0,
        },
        Some(outcome) => ProbeDecision::Finished(
            probe_status(host_or_default(host), port_or_default(port), outcome),
        ),
    }
}

/// Probes the add-on socket once: asks for the liveness request to be sent, and
/// once its outcome is known, reports the status. A probe never fails; a socket
/// that cannot be reached is a status with `connected` false.
pub fn check_blender_socket(
    host: Option<String>,
    port: Option<u16>,
    outcome: Option<&Result<JsonValue, BridgeError>>,
) -> (step: ProbeStep)
    ensures
        step@ == probe_decision(
            host,
            port,
            match outcome {
                Some(outcome) => Some(*outcome),
                None => None,
            },
        ),
{
    let resolved_host = match host {
        Some(host) => host,
        None => default_host(),
    };
    let resolved_port = match port {
        Some(port) => port,
        None => DEFAULT_PORT,
    };
    match outcome {
        None => ProbeStep::Send {
            host: resolved_host,
            port: resolved_port,
            request: ping_request(),
            delay_millis: 0,
        },
        Some(outcome) => ProbeStep::Finished(
            socket_status(resolved_host.as_str(), resolved_port, outcome),
        ),
    }
}

/// How often a probe is made before giving up, and how long to wait in between.
#[derive(Clone, Copy, Debug, PartialEq, Eq, Structural)]
pub struct RetryPolicy {
    /// The number of attempts; none counts as one.
    pub attempts: usize,
    /// The milliseconds to wait before each attempt but the first.
    pub delay_millis: u64,
}

impl RetryPolicy {
    /// The number of attempts that are made: at least one.
    pub open spec fn total(self) -> nat {
        if self.attempts == 0 {
            1
        } else {
            self.attempts as nat
        }
    }

    /// The policy of the one-click setup: three attempts, 900 milliseconds apart.
    pub fn setup_default() -> (policy: Self)
        ensures
            policy == (RetryPolicy { attempts: 3, delay_millis: 900 }),
    {
        RetryPolicy { attempts: 3, delay_millis: 900 }
    }
}

/// The index of the first success among the first `upto` outcomes.
pub open spec fn first_success(outcomes: Seq<Result<JsonValue, BridgeError>>, upto: int) -> Option<int>
    decreases upto,
{
    if upto <= 0 || upto > outcomes.len() {
        None
    } else {
        match first_success(outcomes, upto - 1) {
            Some(index) => Some(index),
            None => if outcomes[upto - 1] is Ok {
                Some(upto - 1)
            } else {
                None
            },
        }
    }
}

/// A probe with retries, after the attempts whose outcomes are given: the first
/// success ends it as connected; when all attempts have failed, the status is
/// that of the last one; otherwise the next attempt follows, after the delay
/// unless it is the first.
pub open spec fn retry_decision(
    host: Seq<char>,
    port: u16,
    policy: RetryPolicy,
    outcomes: Seq<Result<JsonValue, BridgeError>>,
) -> ProbeDecision {
    let made = if outcomes.len() <= policy.total() {
        outcomes.len() as int
    } else {
        policy.total() as int
    };
    if first_success(outcomes, made) is Some {
        ProbeDecision::Finished(connected_status(host, port))
    } else if made == policy.total() {
        ProbeDecision::Finished(probe_status(host, port, outcomes[made - 1]))
    } else {
        ProbeDecision::Send {
            host,
            port,
            request: ping_model(),
            delay_millis: if made == 0 {
                0
            } else {
                policy.delay_millis
            },
        }
    }
}

/// Decides how a probe with retries goes on after the attempts made so far.
pub fn check_blender_socket_with_retry(
    host: &str,
    port: u16,
    policy: RetryPolicy,
    outcomes: &Vec<Result<JsonValue, BridgeError>>,
) -> (step: ProbeStep)
    ensures
        step@ == retry_decision(host@, port, policy, outcomes@),
{
    let total: usize = if policy.attempts == 0 {
        1
    } else {
        policy.attempts
    };
    let made: usize = if outcomes.len() <= total {
        outcomes.len()
    } else {
        total
    };
    let mut index: usize = 0;
    while index < made
        invariant
            index <= made <= outcomes.len(),
            total == policy.total(),
            made == if outcomes.len() <= total {
                outcomes.len()
            } else {
                total
            },
            first_success(outcomes@, index as int) is None,
        decreases made - index,
    {
        match &outcomes[index] {
            Ok(_) => {
                proof {
                    assert(first_success(outcomes@, index + 1) is Some);
                    lemma_first_success_stays(outcomes@, index + 1, made as int);
                }
                return ProbeStep::Finished(socket_status(host, port, &outcomes[index]));
            },
            Err(_) => {},
        }
        index += 1;
    }
    if made == total {
        ProbeStep::Finished(socket_status(host, port, &outcomes[made - 1]))
    } else {
        ProbeStep::Send {
            host: String::from_str(host),
            port,
            request: ping_request(),
            delay_millis: if made == 0 {
                0
            } else {
                policy.delay_millis
            },
        }
    }
}

/// A success among the first outcomes is still one among more of them.
proof fn lemma_first_success_stays(
    outcomes: Seq<Result<JsonValue, BridgeError>>,
    upto: int,
    later: int,
)
    requires
        0 <= upto <= later <= outcomes.len(),
        first_success(outcomes, upto) is Some,
    ensures
        first_success(outcomes, later) == first_success(outcomes, upto),
    decreases later - upto,
{
    if upto < later {
        lemma_first_success_stays(outcomes, upto, later - 1);
    }
}

} // verus!
