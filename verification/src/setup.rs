//! The one-click setup: scan, install the add-on, enable it, verify the socket,
//! in this order and without going back, with a trace line for every step made.

use crate::error::{BridgeError, ErrorKind, ErrorView};
use crate::installer::{AddonInstallResult, AddonInstallView};
use crate::locator::{BlenderInstallScan, InstallScanView};
use crate::platform::Platform;
use crate::rpc::{default_host, default_host_text, DEFAULT_PORT};
use crate::socket::{BlenderSocketStatus, RetryPolicy, SocketStatusView};
use crate::text::{opt_text, texts};
use vstd::prelude::*;
use vstd::string::StringExecFns;

verus! {

/// The outcome of a one-click setup.
#[derive(Debug, PartialEq, Eq)]
pub struct BlenderAutoSetupResult {
    pub ok: bool,
    pub executable_path: Option<String>,
    pub addon_path: Option<String>,
    pub blender_version: Option<String>,
    pub socket_status: BlenderSocketStatus,
    pub message: String,
    pub details: Vec<String>,
}

/// The mathematical model of a [`BlenderAutoSetupResult`].
pub struct AutoSetupView {
    pub ok: bool,
    pub executable_path: Option<Seq<char>>,
    pub addon_path: Option<Seq<char>>,
    pub blender_version: Option<Seq<char>>,
    pub socket_status: SocketStatusView,
    pub message: Seq<char>,
    pub details: Seq<Seq<char>>,
}

impl View for BlenderAutoSetupResult {
    type V = AutoSetupView;

    open spec fn view(&self) -> AutoSetupView {
        AutoSetupView {
            ok: self.ok,
            executable_path: opt_text(self.executable_path),
            addon_path: opt_text(self.addon_path),
            blender_version: opt_text(self.blender_version),
            socket_status: self.socket_status@,
            message: self.message@,
            details: texts(self.details@),
        }
    }
}

/// What the steps of a setup have brought so far.
#[derive(Debug, PartialEq, Eq)]
pub struct SetupProgress {
    pub scan: Option<BlenderInstallScan>,
    pub install: Option<Result<AddonInstallResult, BridgeError>>,
    pub activation: Option<Result<String, BridgeError>>,
    /// The status of the last probe of the socket.
    pub socket: Option<BlenderSocketStatus>,
}

impl SetupProgress {
    /// Nothing has been done yet.
    pub fn new() -> (progress: Self)
        ensures
            progress.scan is None,
            progress.install is None,
            progress.activation is None,
            progress.socket is None,
    {
        SetupProgress { scan: None, install: None, activation: None, socket: None }
    }
}

/// The next step of a setup.
#[derive(Debug, PartialEq, Eq)]
pub enum SetupStep {
    /// Look for an installed Blender.
    Scan,
    /// Install the add-on.
    InstallExtension,
    /// Enable the add-on with the Blender at this path.
    Activate { executable_path: String },
    /// Probe the socket at this host and port, with these retries.
    VerifySocket { host: String, port: u16, policy: RetryPolicy },
    /// The setup is over, with this outcome.
    Finished(Result<BlenderAutoSetupResult, BridgeError>),
}

/// The mathematical model of a [`SetupStep`].
pub enum SetupDecision {
    Scan,
    InstallExtension,
    Activate { executable_path: Seq<char> },
    VerifySocket { host: Seq<char>, port: u16, policy: RetryPolicy },
    Finished(Result<AutoSetupView, ErrorView>),
}

impl View for SetupStep {
    type V = SetupDecision;

    open spec fn view(&self) -> SetupDecision {
        match self {
            SetupStep::Scan => SetupDecision::Scan,
            SetupStep::InstallExtension => SetupDecision::InstallExtension,
            SetupStep::Activate { executable_path } => SetupDecision::Activate {
                executable_path: executable_path@,
            },
            SetupStep::VerifySocket { host, port, policy } => SetupDecision::VerifySocket {
                host: host@,
                port: *port,
                policy: *policy,
            },
            SetupStep::Finished(Ok(outcome)) => SetupDecision::Finished(Ok(outcome@)),
            SetupStep::Finished(Err(error)) => SetupDecision::Finished(Err(error@)),
        }
    }
}

/// The status of the socket in a setup that ended before the socket was probed.
pub open spec fn unchecked_status() -> SocketStatusView {
    SocketStatusView {
        connected: false,
        host: default_host_text(),
        port: DEFAULT_PORT,
        message: "Blender socket was not checked because Blender was not detected."@,
    }
}

/// The outcome of a setup that found no Blender: not a failure, and nothing
/// installed. What the scan reported is the message of the whole setup.
pub open spec fn aborted(scan: InstallScanView) -> AutoSetupView {
    AutoSetupView {
        ok: false,
        executable_path: None,
        addon_path: None,
        blender_version: None,
        socket_status: unchecked_status(),
        message: scan.message,
        details: seq![scan.message],
    }
}

/// The message of a setup that went through: the socket is live, or Blender has
/// to be opened or restarted once.
pub open spec fn completion_text(connected: bool) -> Seq<char> {
    if connected {
        "Blender one-click setup completed. Addon is installed, enabled, and socket is live."@
    } else {
        "One-click setup completed (addon installed + enabled). Open or restart Blender once; the addon will auto-start the socket server."@
    }
}

/// The outcome of a setup that went through all its steps. It is `ok` exactly
/// when the socket was found connected.
pub open spec fn completed(
    scan: InstallScanView,
    executable_path: Seq<char>,
    install: AddonInstallView,
    trace: Seq<char>,
    status: SocketStatusView,
) -> AutoSetupView {
    AutoSetupView {
        ok: status.connected,
        executable_path: Some(executable_path),
        addon_path: install.addon_path,
        blender_version: install.blender_version,
        socket_status: status,
        message: completion_text(status.connected),
        details: seq![scan.message, install.message, trace, status.message],
    }
}

/// A failure of the setup.
pub open spec fn setup_failure(kind: ErrorKind, message: Seq<char>) -> SetupDecision {
    SetupDecision::Finished(Err(ErrorView { kind, message }))
}

/// The step that follows what has been observed. On Windows: scan; without a
/// Blender the setup ends there, as an outcome that is not `ok`; otherwise
/// install the add-on, enable it, and probe the socket with retries. A failed
/// installation or activation ends the setup with its failure. Elsewhere the
/// setup is not offered.
pub open spec fn setup_decision(
    platform: Platform,
    policy: RetryPolicy,
    progress: SetupProgress,
) -> SetupDecision {
    if platform != Platform::Windows {
        setup_failure(
            ErrorKind::UnsupportedPlatform,
            "One-click Blender setup is currently implemented for Windows builds only."@,
        )
    } else {
        match progress.scan {
            None => SetupDecision::Scan,
            Some(scan) => if !scan.found {
                SetupDecision::Finished(Ok(aborted(scan@)))
            } else {
                match scan.executable_path {
                    None => setup_failure(
                        ErrorKind::ExecutableNotFound,
                        "Blender scan succeeded but executable path is missing."@,
                    ),
                    Some(executable_path) => match progress.install {
                        None => SetupDecision::InstallExtension,
                        Some(Err(error)) => SetupDecision::Finished(Err(error@)),
                        Some(Ok(install)) => match progress.activation {
                            None => SetupDecision::Activate { executable_path: executable_path@ },
                            Some(Err(error)) => SetupDecision::Finished(Err(error@)),
                            Some(Ok(trace)) => match progress.socket {
                                None => SetupDecision::VerifySocket {
                                    host: default_host_text(),
                                    port: DEFAULT_PORT,
                                    policy,
                                },
                                Some(status) => SetupDecision::Finished(
                                    Ok(
                                        completed(
                                            scan@,
                                            executable_path@,
                                            install@,
                                            trace@,
                                            status@,
                                        ),
                                    ),
                                ),
                            },
                        },
                    },
                }
            },
        }
    }
}

/// A setup reports `ok` only with a socket that was found connected.
pub proof fn lemma_ok_means_connected(
    platform: Platform,
    policy: RetryPolicy,
    progress: SetupProgress,
)
    ensures
        setup_decision(platform, policy, progress) matches SetupDecision::Finished(Ok(outcome))
            ==> (outcome.ok ==> outcome.socket_status.connected),
{
}

/// A setup whose steps all went through never ends in a failure, and it hands
/// on what the installation reported: run again on a Blender that is installed
/// and enabled already, it reports the same installation.
pub proof fn lemma_setup_repeats(policy: RetryPolicy, first: SetupProgress, second: SetupProgress)
    requires
        first.scan matches Some(scan) && scan.found && scan.executable_path is Some,
        second.scan matches Some(scan) && scan.found && scan.executable_path is Some,
        first.install matches Some(Ok(install)) && install.installed,
        second.install matches Some(Ok(install)) && install@ == first.install->0->Ok_0@,
        first.activation matches Some(Ok(_)),
        second.activation matches Some(Ok(_)),
        first.socket is Some,
        second.socket is Some,
    ensures
        setup_decision(Platform::Windows, policy, first) matches SetupDecision::Finished(
            Ok(earlier),
        ) && (setup_decision(Platform::Windows, policy, second) matches SetupDecision::Finished(
            Ok(later),
        ) && later.addon_path == earlier.addon_path && later.blender_version
            == earlier.blender_version),
{
}

/// An owned copy of an optional string.
fn copy_of(text: &Option<String>) -> (copy: Option<String>)
    ensures
        opt_text(copy) == opt_text(*text),
{
    match text {
        Some(text) => Some(text.clone()),
        None => None,
    }
}

/// Decides the next step of the one-click setup, from what the steps made so far
/// have brought. `policy` says how the socket is probed at the end.
pub fn setup_blender_one_click_impl(
    platform: Platform,
    policy: RetryPolicy,
    progress: &SetupProgress,
) -> (step: SetupStep)
    ensures
        step@ == setup_decision(platform, policy, *progress),
{
    if platform != Platform::Windows {
        return SetupStep::Finished(
            Err(
                BridgeError::new(
                    ErrorKind::UnsupportedPlatform,
                    String::from_str(
                        "One-click Blender setup is currently implemented for Windows builds only.",
                    ),
                ),
            ),
        );
    }
    let scan = match &progress.scan {
        Some(scan) => scan,
        None => { return SetupStep::Scan; },
    };
    if !scan.found {
        let mut details: Vec<String> = Vec::new();
        details.push(scan.message.clone());
        assert(texts(details@) =~= seq![scan.message@]);
        return SetupStep::Finished(
            Ok(
                BlenderAutoSetupResult {
                    ok: false,
                    executable_path: None,
                    addon_path: None,
                    blender_version: None,
                    socket_status: BlenderSocketStatus {
                        connected: false,
                        host: default_host(),
                        port: DEFAULT_PORT,
                        message: String::from_str(
                            "Blender socket was not checked because Blender was not detected.",
                        ),
                    },
                    message: scan.message.clone(),
                    details,
                },
            ),
        );
    }
    let executable_path = match &scan.executable_path {
        Some(path) => path,
        None => {
            return SetupStep::Finished(
                Err(
                    BridgeError::new(
                        ErrorKind::ExecutableNotFound,
                        String::from_str("Blender scan succeeded but executable path is missing."),
                    ),
                ),
            );
        },
    };
    let install = match &progress.install {
        None => { return SetupStep::InstallExtension; },
        Some(Err(error)) => { return SetupStep::Finished(Err(error.clone())); },
        Some(Ok(install)) => install,
    };
    let trace = match &progress.activation {
        None => {
            return SetupStep::Activate { executable_path: executable_path.clone() };
        },
        Some(Err(error)) => { return SetupStep::Finished(Err(error.clone())); },
        Some(Ok(trace)) => trace,
    };
    let status = match &progress.socket {
        None => {
            return SetupStep::VerifySocket { host: default_host(), port: DEFAULT_PORT, policy };
        },
        Some(status) => status,
    };
    let message = if status.connected {
        String::from_str(
            "Blender one-click setup completed. Addon is installed, enabled, and socket is live.",
        )
    } else {
        String::from_str(
            "One-click setup completed (addon installed + enabled). Open or restart Blender once; the addon will auto-start the socket server.",
        )
    };
    let mut details: Vec<String> = Vec::new();
    details.push(scan.message.clone());
    details.push(install.message.clone());
    details.push(trace.clone());
    details.push(status.message.clone());
    assert(texts(details@) =~= seq![scan.message@, install.message@, trace@, status.message@]);
    SetupStep::Finished(
        Ok(
            BlenderAutoSetupResult {
                ok: status.connected,
                executable_path: Some(executable_path.clone()),
                addon_path: copy_of(&install.addon_path),
                blender_version: copy_of(&install.blender_version),
                socket_status: status.clone(),
                message,
                details,
            },
        ),
    )
}

} // verus!
