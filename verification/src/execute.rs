//! Running code in Blender through the add-on: the request that is sent, and
//! what the response amounts to.

use crate::error::{BridgeError, ErrorKind, ErrorView};
use crate::json::{JsonModel, JsonValue};
use crate::rpc::{default_host, execute_code_model, execute_code_request, DEFAULT_PORT};
use crate::socket::{host_or_default, port_or_default};
use crate::text::{is_blank, is_blank_text};
use vstd::prelude::*;
use vstd::string::StringExecFns;

verus! {

/// The outcome of code that the add-on ran.
#[derive(Debug, PartialEq, Eq)]
pub struct BlenderCommandResult {
    pub ok: bool,
    pub message: String,
    /// What the code handed back, as the add-on sent it.
    pub result: Option<JsonValue>,
}

/// The mathematical model of a [`BlenderCommandResult`].
pub struct CommandResultView {
    pub ok: bool,
    pub message: Seq<char>,
    pub result: Option<JsonModel>,
}

impl View for BlenderCommandResult {
    type V = CommandResultView;

    open spec fn view(&self) -> CommandResultView {
        CommandResultView {
            ok: self.ok,
            message: self.message@,
            result: match self.result {
                Some(value) => Some(value@),
                None => None,
            },
        }
    }
}

/// The next step of running code.
#[derive(Debug, PartialEq, Eq)]
pub enum ExecuteStep {
    /// Send this request to the add-on at this host and port.
    Send { host: String, port: u16, request: JsonValue },
    /// The command is over, with this outcome.
    Finished(Result<BlenderCommandResult, BridgeError>),
}

/// The mathematical model of an [`ExecuteStep`].
pub enum ExecuteDecision {
    Send { host: Seq<char>, port: u16, request: JsonModel },
    Finished(Result<CommandResultView, ErrorView>),
}

impl View for ExecuteStep {
    type V = ExecuteDecision;

    open spec fn view(&self) -> ExecuteDecision {
        match self {
            ExecuteStep::Send { host, port, request } => ExecuteDecision::Send {
                host: host@,
                port: *port,
                request: request@,
            },
            ExecuteStep::Finished(Ok(result)) => ExecuteDecision::Finished(Ok(result@)),
            ExecuteStep::Finished(Err(error)) => ExecuteDecision::Finished(Err(error@)),
        }
    }
}

/// What the response to code that ran amounts to: its `message` member, or a
/// fixed text where it has none, and its `result` member, if any.
pub open spec fn command_result(response: JsonModel) -> CommandResultView {
    CommandResultView {
        ok: true,
        message: match response.text_field("message"@) {
            Some(message) => message,
            None => "Code executed in Blender addon."@,
        },
        result: response.field("result"@),
    }
}

/// The failure of a command whose code is empty or blank.
pub open spec fn empty_code_failure() -> ErrorView {
    ErrorView { kind: ErrorKind::EmptyCode, message: "Generated code is empty."@ }
}

/// Running code: blank code fails at once, before anything is sent; other code
/// is sent to the host and port given, or to the defaults, and the outcome of
/// the command decides the rest.
pub open spec fn execute_decision(
    code: Seq<char>,
    host: Option<String>,
    port: Option<u16>,
    outcome: Option<Result<JsonValue, BridgeError>>,
) -> ExecuteDecision {
    if is_blank(code) {
        ExecuteDecision::Finished(Err(empty_code_failure()))
    } else {
        match outcome {
            None => ExecuteDecision::Send {
                host: host_or_default(host),
                port: port_or_default(port),
                request: execute_code_model(code),
            },
            Some(Err(error)) => ExecuteDecision::Finished(Err(error@)),
            Some(Ok(response)) => ExecuteDecision::Finished(Ok(command_result(response@))),
        }
    }
}

/// Decides the next step of running `code` in Blender: what to send, and once
/// the outcome of the command is known, what to report.
pub fn execute_blender_code(
    code: &str,
    host: Option<String>,
    port: Option<u16>,
    outcome: Option<Result<JsonValue, BridgeError>>,
) -> (step: ExecuteStep)
    ensures
        step@ == execute_decision(code@, host, port, outcome),
{
    if is_blank_text(code) {
        return ExecuteStep::Finished(
            Err(
                BridgeError::new(ErrorKind::EmptyCode, String::from_str("Generated code is empty.")),
            ),
        );
    }
    match outcome {
        None => ExecuteStep::Send {
            host: match host {
                Some(host) => host,
                None => default_host(),
            },
            port: match port {
                Some(port) => port,
                None => DEFAULT_PORT,
            },
            request: execute_code_request(code),
        },
        Some(Err(error)) => ExecuteStep::Finished(Err(error)),
        Some(Ok(response)) => {
            let message = match response.text_field("message") {
                Some(message) => message,
                None => String::from_str("Code executed in Blender addon."),
            };
            let result = response.into_field("result");
            ExecuteStep::Finished(Ok(BlenderCommandResult { ok: true, message, result }))
        },
    }
}

} // verus!
