//! Enabling the add-on in Blender's preferences: the script that Blender runs
//! in the background, the steps around it, and what its output means.

use crate::error::{quote_detail, quoted_detail, BridgeError, ErrorKind, ErrorView};
use crate::platform::Platform;
use crate::text::{concat2, contains_text, push_signed_decimal, signed_decimal_text};
use crate::text::{text_contains, truncate_log, truncated_log};
use vstd::prelude::*;
use vstd::string::StringExecFns;

verus! {

/// The token that the activation script prints when it has done its work.
pub const SUCCESS_SENTINEL: &'static str = "BLYND_SETUP_OK";

/// The file name of the activation script in the directory for temporary files.
pub const ACTIVATION_SCRIPT_NAME: &'static str = "blynd_blender_one_click_setup.py";

/// The script that enables the add-on unless it is enabled already, saves the
/// preferences and prints the success token; on any exception it prints a token
/// that starts with an error prefix and exits with status 1.
pub const ACTIVATION_SCRIPT: &'static str =
    "\nimport sys\nimport traceback\nimport bpy\n\nMODULE_NAME = \"blender_mcp\"\n\ntry:\n    if MODULE_NAME not in bpy.context.preferences.addons:\n        bpy.ops.preferences.addon_enable(module=MODULE_NAME)\n\n    bpy.ops.wm.save_userpref()\n    print(\"BLYND_SETUP_OK\")\nexcept Exception as exc:\n    traceback.print_exc()\n    print(f\"BLYND_SETUP_ERROR: {exc}\")\n    sys.exit(1)\n";

/// The most characters of a log that a failure message quotes.
pub const FAILURE_LOG_CHARS: usize = 1000;

/// The most characters of the output that the trace line quotes.
pub const TRACE_LOG_CHARS: usize = 400;

/// What a finished process left behind.
#[derive(Debug, PartialEq, Eq)]
pub struct ProcessOutput {
    /// Whether the process exited with the status of success.
    pub success: bool,
    /// The exit code, where the process ended with one.
    pub exit_code: Option<i32>,
    pub stdout: String,
    pub stderr: String,
}

/// What has been observed so far while the add-on is enabled.
#[derive(Debug, PartialEq, Eq)]
pub struct ActivationProgress {
    /// Whether the executable path names a regular file.
    pub executable_is_file: Option<bool>,
    pub script_written: Option<Result<(), String>>,
    /// The output of Blender, or the system's text where it could not be started.
    pub launched: Option<Result<ProcessOutput, String>>,
    /// Whether the removal of the script has been attempted.
    pub script_removed: bool,
}

impl ActivationProgress {
    /// Nothing has been done yet.
    pub fn new() -> (progress: Self)
        ensures
            progress.executable_is_file is None,
            progress.script_written is None,
            progress.launched is None,
            !progress.script_removed,
    {
        ActivationProgress {
            executable_is_file: None,
            script_written: None,
            launched: None,
            script_removed: false,
        }
    }
}

/// The next step of an activation.
#[derive(Debug, PartialEq, Eq)]
pub enum ActivationStep {
    /// Find out whether the executable path names a regular file.
    CheckExecutable,
    /// Write this content to the file of this name among the temporary files.
    WriteScript { file_name: String, content: String },
    /// Run the executable with these arguments followed by the path of the
    /// script, and capture what it prints.
    Launch { arguments: Vec<String> },
    /// Remove the script, whatever the run brought.
    RemoveScript,
    /// The activation is over: a trace line, or the failure.
    Finished(Result<String, BridgeError>),
}

/// The mathematical model of an [`ActivationStep`].
pub enum ActivationDecision {
    CheckExecutable,
    WriteScript { file_name: Seq<char>, content: Seq<char> },
    Launch { arguments: Seq<Seq<char>> },
    RemoveScript,
    Finished(Result<Seq<char>, ErrorView>),
}

impl View for ActivationStep {
    type V = ActivationDecision;

    open spec fn view(&self) -> ActivationDecision {
        match self {
            ActivationStep::CheckExecutable => ActivationDecision::CheckExecutable,
            ActivationStep::WriteScript { file_name, content } => ActivationDecision::WriteScript {
                file_name: file_name@,
                content: content@,
            },
            ActivationStep::Launch { arguments } => ActivationDecision::Launch {
                arguments: crate::text::texts(arguments@),
            },
            ActivationStep::RemoveScript => ActivationDecision::RemoveScript,
            ActivationStep::Finished(Ok(trace)) => ActivationDecision::Finished(Ok(trace@)),
            ActivationStep::Finished(Err(error)) => ActivationDecision::Finished(Err(error@)),
        }
    }
}

/// An exit code as it is quoted in a failure message.
pub open spec fn exit_code_text(code: Option<i32>) -> Seq<char> {
    match code {
        Some(code) => "Some("@ + signed_decimal_text(code as int) + ")"@,
        None => "None"@,
    }
}

/// The two logs as a failure message quotes them.
pub open spec fn quoted_logs(output: ProcessOutput) -> Seq<char> {
    " stdout: "@ + truncated_log(output.stdout@, FAILURE_LOG_CHARS as nat) + " stderr: "@
        + truncated_log(output.stderr@, FAILURE_LOG_CHARS as nat)
}

/// The message of a run that did not exit with success.
pub open spec fn process_failed_text(output: ProcessOutput) -> Seq<char> {
    "Blender setup script failed (exit code "@ + exit_code_text(output.exit_code) + ")."@
        + quoted_logs(output)
}

/// The message of a run that did not print the success token.
pub open spec fn reported_failure_text(output: ProcessOutput) -> Seq<char> {
    "Blender reported setup error."@ + quoted_logs(output)
}

/// The trace line of a run that enabled the add-on.
pub open spec fn trace_text(output: ProcessOutput) -> Seq<char> {
    "Blender addon enabled and preferences saved via background Blender process. stdout: "@
        + truncated_log(output.stdout@, TRACE_LOG_CHARS as nat)
}

/// A failure of an activation.
pub open spec fn activation_failure(kind: ErrorKind, message: Seq<char>) -> Result<
    Seq<char>,
    ErrorView,
> {
    Err(ErrorView { kind, message })
}

/// What a run of the activation script amounts to: a process that could not be
/// started or did not exit with success has failed; one that did not print the
/// success token has reported a failure; any other has enabled the add-on.
pub open spec fn classified(outcome: Result<ProcessOutput, String>) -> Result<Seq<char>, ErrorView> {
    match outcome {
        Err(detail) => activation_failure(
            ErrorKind::Io,
            "Failed launching Blender for one-click setup: "@ + quoted_detail(detail@),
        ),
        Ok(output) => if !output.success {
            activation_failure(ErrorKind::ActivationProcess, process_failed_text(output))
        } else if !contains_text(output.stdout@, SUCCESS_SENTINEL@) {
            activation_failure(ErrorKind::ActivationReported, reported_failure_text(output))
        } else {
            Ok(trace_text(output))
        },
    }
}

/// The arguments that have Blender run a script in the background.
pub open spec fn launch_arguments() -> Seq<Seq<char>> {
    seq!["--background"@, "--python"@]
}

/// The message of an activation on a platform where it is not offered.
pub open spec fn unsupported_text() -> Seq<char> {
    "Blender addon activation is currently implemented for Windows builds only."@
}

/// The step that follows what has been observed. On Windows: check the
/// executable, write the script, run Blender, remove the script whatever the run
/// brought, and report. Elsewhere the activation is not offered, and nothing is
/// checked, written or run.
pub open spec fn activation_decision(
    platform: Platform,
    executable_path: Seq<char>,
    progress: ActivationProgress,
) -> ActivationDecision {
    if platform != Platform::Windows {
        ActivationDecision::Finished(
            activation_failure(ErrorKind::UnsupportedPlatform, unsupported_text()),
        )
    } else {
        windows_activation_decision(executable_path, progress)
    }
}

/// The step of an activation on Windows that follows what has been observed.
pub open spec fn windows_activation_decision(
    executable_path: Seq<char>,
    progress: ActivationProgress,
) -> ActivationDecision {
    match progress.executable_is_file {
        None => ActivationDecision::CheckExecutable,
        Some(is_file) => if !is_file {
            ActivationDecision::Finished(
                activation_failure(
                    ErrorKind::ExecutableNotFound,
                    "Blender executable not found at "@ + executable_path,
                ),
            )
        } else {
            match progress.script_written {
                None => ActivationDecision::WriteScript {
                    file_name: ACTIVATION_SCRIPT_NAME@,
                    content: ACTIVATION_SCRIPT@,
                },
                Some(Err(detail)) => ActivationDecision::Finished(
                    activation_failure(
                        ErrorKind::Io,
                        "Failed writing temporary Blender setup script: "@ + detail@,
                    ),
                ),
                Some(Ok(_)) => match progress.launched {
                    None => ActivationDecision::Launch { arguments: launch_arguments() },
                    Some(outcome) => if !progress.script_removed {
                        ActivationDecision::RemoveScript
                    } else {
                        ActivationDecision::Finished(classified(outcome))
                    },
                },
            }
        },
    }
}

/// A run that exits with success and prints the success token counts as an
/// activation that went through, whatever else it printed: enabling an add-on
/// that was enabled before is no failure.
pub proof fn lemma_success_token_decides(output: ProcessOutput)
    requires
        output.success,
        contains_text(output.stdout@, SUCCESS_SENTINEL@),
    ensures
        classified(Ok(output)) == Ok::<Seq<char>, ErrorView>(trace_text(output)),
{
}

/// The two logs as a failure message quotes them, appended to `message`.
fn push_quoted_logs(message: &mut String, output: &ProcessOutput)
    ensures
        final(message)@ == old(message)@ + quoted_logs(*output),
{
    message.append(" stdout: ");
    let stdout = truncate_log(output.stdout.as_str(), FAILURE_LOG_CHARS);
    message.append(stdout.as_str());
    message.append(" stderr: ");
    let stderr = truncate_log(output.stderr.as_str(), FAILURE_LOG_CHARS);
    message.append(stderr.as_str());
    assert(final(message)@ =~= old(message)@ + quoted_logs(*output));
}

/// Says what a run of the activation script amounts to.
pub fn classify_activation(outcome: &Result<ProcessOutput, String>) -> (verdict: Result<
    String,
    BridgeError,
>)
    ensures
        match verdict {
            Ok(trace) => classified(*outcome) == Ok::<Seq<char>, ErrorView>(trace@),
            Err(error) => classified(*outcome) == Err::<Seq<char>, ErrorView>(error@),
        },
{
    match outcome {
        Err(detail) => {
            let message = concat2(
                "Failed launching Blender for one-click setup: ",
                quote_detail(detail.as_str()).as_str(),
            );
            Err(BridgeError::new(ErrorKind::Io, message))
        },
        Ok(output) => {
            if !output.success {
                let mut message = String::from_str("Blender setup script failed (exit code ");
                match output.exit_code {
                    Some(code) => {
                        message.append("Some(");
                        push_signed_decimal(&mut message, code);
                        message.append(")");
                    },
                    None => {
                        message.append("None");
                    },
                }
                message.append(").");
                assert(message@ =~= "Blender setup script failed (exit code "@ + exit_code_text(
                    output.exit_code,
                ) + ")."@);
                push_quoted_logs(&mut message, output);
                Err(BridgeError::new(ErrorKind::ActivationProcess, message))
            } else if !text_contains(output.stdout.as_str(), SUCCESS_SENTINEL) {
                let mut message = String::from_str("Blender reported setup error.");
                push_quoted_logs(&mut message, output);
                Err(BridgeError::new(ErrorKind::ActivationReported, message))
            } else {
                let excerpt = truncate_log(output.stdout.as_str(), TRACE_LOG_CHARS);
                Ok(
                    concat2(
                        "Blender addon enabled and preferences saved via background Blender process. stdout: ",
                        excerpt.as_str(),
                    ),
                )
            }
        },
    }
}

/// Decides the next step of enabling the add-on with the Blender at
/// `executable_path`, from what the steps made so far have brought.
pub fn enable_addon_in_blender_preferences(
    platform: Platform,
    executable_path: &str,
    progress: &ActivationProgress,
) -> (step: ActivationStep)
    ensures
        step@ == activation_decision(platform, executable_path@, *progress),
{
    if platform != Platform::Windows {
        return ActivationStep::Finished(
            Err(
                BridgeError::new(
                    ErrorKind::UnsupportedPlatform,
                    String::from_str(
                        "Blender addon activation is currently implemented for Windows builds only.",
                    ),
                ),
            ),
        );
    }
    match progress.executable_is_file {
        None => { return ActivationStep::CheckExecutable; },
        Some(is_file) => {
            if !is_file {
                let message = concat2("Blender executable not found at ", executable_path);
                return ActivationStep::Finished(
                    Err(BridgeError::new(ErrorKind::ExecutableNotFound, message)),
                );
            }
        },
    }
    match &progress.script_written {
        None => {
            return ActivationStep::WriteScript {
                file_name: String::from_str(ACTIVATION_SCRIPT_NAME),
                content: String::from_str(ACTIVATION_SCRIPT),
            };
        },
        Some(Err(detail)) => {
            let message = concat2(
                "Failed writing temporary Blender setup script: ",
                detail.as_str(),
            );
            return ActivationStep::Finished(Err(BridgeError::new(ErrorKind::Io, message)));
        },
        Some(Ok(_)) => {},
    }
    match &progress.launched {
        None => {
            let mut arguments: Vec<String> = Vec::new();
            arguments.push(String::from_str("--background"));
            arguments.push(String::from_str("--python"));
            assert(crate::text::texts(arguments@) =~= launch_arguments());
            ActivationStep::Launch { arguments }
        },
        Some(outcome) => {
            if !progress.script_removed {
                ActivationStep::RemoveScript
            } else {
                ActivationStep::Finished(classify_activation(outcome))
            }
        },
    }
}

} // verus!
