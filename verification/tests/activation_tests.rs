use blender_bridge::activation::{
    classify_activation, enable_addon_in_blender_preferences, ActivationProgress, ActivationStep,
    ProcessOutput, ACTIVATION_SCRIPT, ACTIVATION_SCRIPT_NAME, FAILURE_LOG_CHARS, SUCCESS_SENTINEL,
    TRACE_LOG_CHARS,
};
use blender_bridge::error::{BridgeError, ErrorKind};
use blender_bridge::platform::Platform;

const EXE: &str = "C:\\Program Files\\Blender Foundation\\Blender 4.2\\blender.exe";

fn output(success: bool, exit_code: Option<i32>, stdout: &str, stderr: &str) -> ProcessOutput {
    ProcessOutput { success, exit_code, stdout: stdout.to_string(), stderr: stderr.to_string() }
}

fn progress(
    executable_is_file: Option<bool>,
    script_written: Option<Result<(), String>>,
    launched: Option<Result<ProcessOutput, String>>,
    script_removed: bool,
) -> ActivationProgress {
    ActivationProgress { executable_is_file, script_written, launched, script_removed }
}

#[test]
fn the_script_enables_the_module_and_prints_the_token() {
    assert_eq!(SUCCESS_SENTINEL, "BLYND_SETUP_OK");
    assert_eq!(ACTIVATION_SCRIPT_NAME, "blynd_blender_one_click_setup.py");
    assert_eq!(FAILURE_LOG_CHARS, 1000);
    assert_eq!(TRACE_LOG_CHARS, 400);
    let lines: Vec<&str> = ACTIVATION_SCRIPT.lines().collect();
    assert_eq!(
        lines,
        vec![
            "",
            "import sys",
            "import traceback",
            "import bpy",
            "",
            "MODULE_NAME = \"blender_mcp\"",
            "",
            "try:",
            "    if MODULE_NAME not in bpy.context.preferences.addons:",
            "        bpy.ops.preferences.addon_enable(module=MODULE_NAME)",
            "",
            "    bpy.ops.wm.save_userpref()",
            "    print(\"BLYND_SETUP_OK\")",
            "except Exception as exc:",
            "    traceback.print_exc()",
            "    print(f\"BLYND_SETUP_ERROR: {exc}\")",
            "    sys.exit(1)",
        ]
    );
    assert!(ACTIVATION_SCRIPT.ends_with('\n'));
}

#[test]
fn the_activation_goes_through_its_steps_in_order() {
    assert_eq!(ActivationProgress::new(), progress(None, None, None, false));
    let step = enable_addon_in_blender_preferences(Platform::Windows, EXE, &ActivationProgress::new());
    assert_eq!(step, ActivationStep::CheckExecutable);
    let step = enable_addon_in_blender_preferences(Platform::Windows, EXE, &progress(Some(true), None, None, false));
    assert_eq!(
        step,
        ActivationStep::WriteScript {
            file_name: "blynd_blender_one_click_setup.py".to_string(),
            content: ACTIVATION_SCRIPT.to_string(),
        }
    );
    let step = enable_addon_in_blender_preferences(Platform::Windows, EXE, &progress(Some(true), Some(Ok(())), None, false));
    assert_eq!(
        step,
        ActivationStep::Launch { arguments: vec!["--background".to_string(), "--python".to_string()] }
    );
    let ran = output(true, Some(0), "Blender 4.2\nBLYND_SETUP_OK\n", "");
    let step = enable_addon_in_blender_preferences(
        Platform::Windows,
        EXE,
        &progress(Some(true), Some(Ok(())), Some(Ok(ran)), false),
    );
    assert_eq!(step, ActivationStep::RemoveScript);
    let ran = output(true, Some(0), "Blender 4.2\nBLYND_SETUP_OK\n", "");
    let step = enable_addon_in_blender_preferences(
        Platform::Windows,
        EXE,
        &progress(Some(true), Some(Ok(())), Some(Ok(ran)), true),
    );
    assert_eq!(
        step,
        ActivationStep::Finished(Ok(
            "Blender addon enabled and preferences saved via background Blender process. stdout: Blender 4.2 BLYND_SETUP_OK".to_string()
        ))
    );
}

#[test]
fn a_path_that_is_no_file_ends_the_activation() {
    let step = enable_addon_in_blender_preferences(Platform::Windows, EXE, &progress(Some(false), Some(Ok(())), None, true));
    assert_eq!(
        step,
        ActivationStep::Finished(Err(BridgeError::new(
            ErrorKind::ExecutableNotFound,
            format!("Blender executable not found at {EXE}")
        )))
    );
}

#[test]
fn a_script_that_cannot_be_written_ends_the_activation() {
    let step = enable_addon_in_blender_preferences(
        Platform::Windows,
        EXE,
        &progress(Some(true), Some(Err("no space".to_string())), None, false),
    );
    assert_eq!(
        step,
        ActivationStep::Finished(Err(BridgeError::new(
            ErrorKind::Io,
            "Failed writing temporary Blender setup script: no space".to_string()
        )))
    );
}

#[test]
fn the_script_is_removed_after_a_failed_launch_too() {
    let step = enable_addon_in_blender_preferences(
        Platform::Windows,
        EXE,
        &progress(Some(true), Some(Ok(())), Some(Err("not executable".to_string())), false),
    );
    assert_eq!(step, ActivationStep::RemoveScript);
    let step = enable_addon_in_blender_preferences(
        Platform::Windows,
        EXE,
        &progress(Some(true), Some(Ok(())), Some(Err("not executable".to_string())), true),
    );
    assert_eq!(
        step,
        ActivationStep::Finished(Err(BridgeError::new(
            ErrorKind::Io,
            "Failed launching Blender for one-click setup: not executable".to_string()
        )))
    );
}

#[test]
fn a_failure_status_is_a_process_failure() {
    let ran = Ok(output(false, Some(1), "Traceback\r\nBLYND_SETUP_ERROR: boom\n", "  warn\n"));
    assert_eq!(
        classify_activation(&ran),
        Err(BridgeError::new(
            ErrorKind::ActivationProcess,
            "Blender setup script failed (exit code Some(1)). stdout: Traceback  BLYND_SETUP_ERROR: boom stderr: warn".to_string()
        ))
    );
    let ran = Ok(output(false, None, "BLYND_SETUP_OK", ""));
    assert_eq!(
        classify_activation(&ran),
        Err(BridgeError::new(
            ErrorKind::ActivationProcess,
            "Blender setup script failed (exit code None). stdout: BLYND_SETUP_OK stderr: ".to_string()
        ))
    );
    let ran = Ok(output(false, Some(-1073741819), "", ""));
    assert_eq!(
        classify_activation(&ran).unwrap_err().message(),
        "Blender setup script failed (exit code Some(-1073741819)). stdout:  stderr: "
    );
}

#[test]
fn a_run_without_the_token_reports_a_failure() {
    for stdout in ["", "Blender 4.2\n", "BLYND_SETUP_ERROR: boom", "BLYND_SETUP_O K", "blynd_setup_ok"] {
        let ran = Ok(output(true, Some(0), stdout, "e"));
        let error = classify_activation(&ran).unwrap_err();
        assert_eq!(error.kind, ErrorKind::ActivationReported);
        assert!(error.message.starts_with("Blender reported setup error. stdout: "));
        assert!(error.message.ends_with(" stderr: e"));
    }
    let ran = Ok(output(true, Some(0), " x\ny ", "\n"));
    assert_eq!(
        classify_activation(&ran).unwrap_err().message(),
        "Blender reported setup error. stdout: x y stderr: "
    );
}

#[test]
fn the_logs_are_cut_to_their_limits() {
    let long = "x".repeat(1500);
    let ran = Ok(output(false, Some(2), &long, &long));
    let cut = "x".repeat(1000);
    assert_eq!(
        classify_activation(&ran).unwrap_err().message(),
        format!("Blender setup script failed (exit code Some(2)). stdout: {cut} stderr: {cut}")
    );
    let stdout = format!("BLYND_SETUP_OK{}", "y".repeat(500));
    let ran = Ok(output(true, Some(0), &stdout, ""));
    let excerpt: String = stdout.chars().take(400).collect();
    assert_eq!(
        classify_activation(&ran),
        Ok(format!(
            "Blender addon enabled and preferences saved via background Blender process. stdout: {excerpt}"
        ))
    );
}

#[test]
fn enabling_twice_is_no_failure() {
    let first = Ok(output(true, Some(0), "addon enabled\nBLYND_SETUP_OK\n", ""));
    let second = Ok(output(true, Some(0), "BLYND_SETUP_OK\n", ""));
    assert!(classify_activation(&first).is_ok());
    assert_eq!(
        classify_activation(&second),
        Ok("Blender addon enabled and preferences saved via background Blender process. stdout: BLYND_SETUP_OK".to_string())
    );
}

#[test]
fn the_reason_of_a_failed_launch_is_quoted_on_one_line() {
    let ran = Err("The system cannot find\r\nthe file specified.\n".to_string());
    assert_eq!(
        classify_activation(&ran).unwrap_err().message(),
        "Failed launching Blender for one-click setup: The system cannot find  the file specified."
    );
}

#[test]
fn other_platforms_do_not_activate() {
    let expected = ActivationStep::Finished(Err(BridgeError::new(
        ErrorKind::UnsupportedPlatform,
        "Blender addon activation is currently implemented for Windows builds only.".to_string(),
    )));
    assert_eq!(
        enable_addon_in_blender_preferences(Platform::Other, EXE, &ActivationProgress::new()),
        expected
    );
    let ran = output(true, Some(0), "BLYND_SETUP_OK", "");
    assert_eq!(
        enable_addon_in_blender_preferences(
            Platform::Other,
            EXE,
            &progress(Some(true), Some(Ok(())), Some(Ok(ran)), true)
        ),
        expected
    );
}
