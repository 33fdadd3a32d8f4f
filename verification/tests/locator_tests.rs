use blender_bridge::locator::{
    blender_candidate_roots, detect_blender_installation_impl, find_blender_executable,
    next_blender_root_to_survey,
    BlenderInstallScan, FirstLevelEntry, RootSurvey, ScanEnvironment, SecondLevelEntry,
    EXECUTABLE_NAME, LOCAL_APP_DATA_VARIABLE, PROGRAM_FILES_VARIABLE, PROGRAM_FILES_X86_VARIABLE,
};
use blender_bridge::platform::Platform;

const FALLBACK_A: &str = "C:\\Program Files\\Blender Foundation";
const FALLBACK_B: &str = "C:\\Program Files (x86)\\Blender Foundation";

fn no_environment() -> ScanEnvironment {
    ScanEnvironment { program_files: None, program_files_x86: None, local_app_data: None }
}

fn leaf(path: &str, is_dir: bool, has_executable: bool) -> SecondLevelEntry {
    SecondLevelEntry { path: path.to_string(), is_dir, has_executable }
}

fn dir(path: &str, has_executable: bool, entries: Option<Vec<SecondLevelEntry>>) -> FirstLevelEntry {
    FirstLevelEntry { path: path.to_string(), is_dir: true, has_executable, entries }
}

fn file(path: &str) -> FirstLevelEntry {
    FirstLevelEntry { path: path.to_string(), is_dir: false, has_executable: true, entries: None }
}

fn root(path: &str, has_executable: bool, entries: Option<Vec<FirstLevelEntry>>) -> RootSurvey {
    RootSurvey { path: path.to_string(), exists: true, has_executable, entries }
}

fn missing(path: &str) -> RootSurvey {
    RootSurvey { path: path.to_string(), exists: false, has_executable: true, entries: Some(vec![]) }
}

fn not_found(searched: Vec<&str>) -> BlenderInstallScan {
    BlenderInstallScan {
        found: false,
        executable_path: None,
        searched_paths: searched.into_iter().map(str::to_string).collect(),
        message: "Blender was not found in common Windows installation paths.".to_string(),
    }
}

fn found(path: &str, searched: Vec<&str>) -> BlenderInstallScan {
    BlenderInstallScan {
        found: true,
        executable_path: Some(path.to_string()),
        searched_paths: searched.into_iter().map(str::to_string).collect(),
        message: "Blender installation detected.".to_string(),
    }
}

#[test]
fn candidates_come_from_the_environment_then_the_fallbacks() {
    assert_eq!(blender_candidate_roots(&no_environment()), vec![FALLBACK_A, FALLBACK_B]);
    let env = ScanEnvironment {
        program_files: Some("D:\\Apps".to_string()),
        program_files_x86: Some("D:\\Apps32\\".to_string()),
        local_app_data: Some("C:\\Users\\me\\AppData\\Local".to_string()),
    };
    assert_eq!(
        blender_candidate_roots(&env),
        vec![
            "D:\\Apps\\Blender Foundation",
            "D:\\Apps32\\Blender Foundation",
            "C:\\Users\\me\\AppData\\Local\\Programs\\Blender Foundation",
            FALLBACK_A,
            FALLBACK_B,
        ]
    );
    let env = ScanEnvironment {
        program_files: None,
        program_files_x86: None,
        local_app_data: Some("L".to_string()),
    };
    assert_eq!(
        blender_candidate_roots(&env),
        vec!["L\\Programs\\Blender Foundation", FALLBACK_A, FALLBACK_B]
    );
}

#[test]
fn nothing_set_and_nothing_on_disk_searches_the_two_fallbacks() {
    let scan = detect_blender_installation_impl(Platform::Windows, &no_environment(), &vec![]);
    assert_eq!(scan, not_found(vec![FALLBACK_A, FALLBACK_B]));
    let disk = vec![missing(FALLBACK_A), root(FALLBACK_B, false, Some(vec![]))];
    let scan = detect_blender_installation_impl(Platform::Windows, &no_environment(), &disk);
    assert_eq!(scan, not_found(vec![FALLBACK_A, FALLBACK_B]));
}

#[test]
fn a_repeated_root_is_searched_once() {
    let env = ScanEnvironment {
        program_files: Some("C:\\Program Files".to_string()),
        program_files_x86: Some("c:\\program files".to_string()),
        local_app_data: None,
    };
    let scan = detect_blender_installation_impl(Platform::Windows, &env, &vec![]);
    assert_eq!(scan, not_found(vec![FALLBACK_A, FALLBACK_B]));
    let env = ScanEnvironment {
        program_files: Some("c:\\PROGRAM files".to_string()),
        program_files_x86: Some("C:\\Program Files (x86)".to_string()),
        local_app_data: Some("C:\\Users\\me".to_string()),
    };
    let scan = detect_blender_installation_impl(Platform::Windows, &env, &vec![]);
    assert_eq!(
        scan,
        not_found(vec![
            "c:\\PROGRAM files\\Blender Foundation",
            FALLBACK_B,
            "C:\\Users\\me\\Programs\\Blender Foundation",
        ])
    );
}

#[test]
fn the_scan_stops_at_the_first_root_with_the_executable() {
    let env = ScanEnvironment {
        program_files: Some("A".to_string()),
        program_files_x86: Some("a".to_string()),
        local_app_data: None,
    };
    let disk = vec![
        root("A\\Blender Foundation", false, Some(vec![])),
        root(FALLBACK_A, false, Some(vec![dir("C:\\Program Files\\Blender Foundation\\Blender 4.2", true, None)])),
        root(FALLBACK_B, true, None),
    ];
    let scan = detect_blender_installation_impl(Platform::Windows, &env, &disk);
    assert_eq!(
        scan,
        found(
            "C:\\Program Files\\Blender Foundation\\Blender 4.2\\blender.exe",
            vec!["A\\Blender Foundation", FALLBACK_A],
        )
    );
}

#[test]
fn a_survey_under_another_spelling_is_not_used() {
    let disk = vec![root("c:\\program files\\blender foundation", true, None)];
    let scan = detect_blender_installation_impl(Platform::Windows, &no_environment(), &disk);
    assert_eq!(scan, not_found(vec![FALLBACK_A, FALLBACK_B]));
}

#[test]
fn the_first_survey_of_a_path_counts() {
    let disk = vec![root(FALLBACK_A, false, None), root(FALLBACK_A, true, None)];
    let scan = detect_blender_installation_impl(Platform::Windows, &no_environment(), &disk);
    assert_eq!(scan, not_found(vec![FALLBACK_A, FALLBACK_B]));
}

#[test]
fn other_platforms_do_not_scan() {
    let disk = vec![root(FALLBACK_A, true, None)];
    let scan = detect_blender_installation_impl(Platform::Other, &no_environment(), &disk);
    assert_eq!(
        scan,
        BlenderInstallScan {
            found: false,
            executable_path: None,
            searched_paths: vec![],
            message: "Windows Blender scan is disabled on this OS.".to_string(),
        }
    );
}

#[test]
fn the_executable_is_searched_to_a_depth_of_two() {
    assert_eq!(find_blender_executable(&root("R", true, None)), Some("R\\blender.exe".to_string()));
    assert_eq!(find_blender_executable(&missing("R")), None);
    assert_eq!(find_blender_executable(&root("R", false, None)), None);
    assert_eq!(find_blender_executable(&root("R", false, Some(vec![]))), None);
    let first_level = root(
        "R",
        false,
        Some(vec![file("R\\blender.exe.txt"), dir("R\\a", false, None), dir("R\\b", true, None), dir("R\\c", true, None)]),
    );
    assert_eq!(find_blender_executable(&first_level), Some("R\\b\\blender.exe".to_string()));
    let second_level = root(
        "R",
        false,
        Some(vec![
            dir("R\\a", false, Some(vec![leaf("R\\a\\file", false, true), leaf("R\\a\\x", true, false)])),
            dir("R\\b", false, None),
            dir("R\\c", false, Some(vec![leaf("R\\c\\y", true, true), leaf("R\\c\\z", true, true)])),
        ]),
    );
    assert_eq!(find_blender_executable(&second_level), Some("R\\c\\y\\blender.exe".to_string()));
}

#[test]
fn a_match_one_level_down_comes_before_any_match_two_levels_down() {
    let survey = root(
        "R",
        false,
        Some(vec![
            dir("R\\a", false, Some(vec![leaf("R\\a\\deep", true, true)])),
            dir("R\\b", true, None),
        ]),
    );
    assert_eq!(find_blender_executable(&survey), Some("R\\b\\blender.exe".to_string()));
}

#[test]
fn entries_that_are_no_directories_are_passed_over() {
    let mut not_a_dir = dir("R\\a", false, Some(vec![leaf("R\\a\\x", true, true)]));
    not_a_dir.is_dir = false;
    let survey = root("R", false, Some(vec![file("R\\f"), not_a_dir]));
    assert_eq!(find_blender_executable(&survey), None);
}

#[test]
fn the_names_that_are_looked_for() {
    assert_eq!(EXECUTABLE_NAME, "blender.exe");
    assert_eq!(PROGRAM_FILES_VARIABLE, "PROGRAMFILES");
    assert_eq!(PROGRAM_FILES_X86_VARIABLE, "PROGRAMFILES(X86)");
    assert_eq!(LOCAL_APP_DATA_VARIABLE, "LOCALAPPDATA");
}

#[test]
fn roots_are_surveyed_one_by_one_until_the_scan_is_decided() {
    let env = ScanEnvironment {
        program_files: Some("A".to_string()),
        program_files_x86: Some("a".to_string()),
        local_app_data: None,
    };
    let mut disk: Vec<RootSurvey> = Vec::new();
    assert_eq!(
        next_blender_root_to_survey(Platform::Windows, &env, &disk),
        Some("A\\Blender Foundation".to_string())
    );
    disk.push(root("A\\Blender Foundation", false, Some(vec![])));
    assert_eq!(
        next_blender_root_to_survey(Platform::Windows, &env, &disk),
        Some(FALLBACK_A.to_string())
    );
    disk.push(root(FALLBACK_A, true, None));
    assert_eq!(next_blender_root_to_survey(Platform::Windows, &env, &disk), None);
    let scan = detect_blender_installation_impl(Platform::Windows, &env, &disk);
    assert_eq!(
        scan,
        found(
            "C:\\Program Files\\Blender Foundation\\blender.exe",
            vec!["A\\Blender Foundation", FALLBACK_A],
        )
    );
    disk.push(root(FALLBACK_B, true, None));
    assert_eq!(detect_blender_installation_impl(Platform::Windows, &env, &disk), scan);
}

#[test]
fn every_candidate_is_surveyed_where_none_holds_the_executable() {
    let env = no_environment();
    let mut disk: Vec<RootSurvey> = Vec::new();
    let mut named: Vec<String> = Vec::new();
    while let Some(next) = next_blender_root_to_survey(Platform::Windows, &env, &disk) {
        disk.push(missing(&next));
        named.push(next);
    }
    assert_eq!(named, vec![FALLBACK_A, FALLBACK_B]);
    assert_eq!(
        detect_blender_installation_impl(Platform::Windows, &env, &disk),
        not_found(vec![FALLBACK_A, FALLBACK_B])
    );
}

#[test]
fn nothing_is_surveyed_on_other_platforms() {
    assert_eq!(next_blender_root_to_survey(Platform::Other, &no_environment(), &vec![]), None);
}
