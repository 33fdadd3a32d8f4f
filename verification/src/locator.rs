//! Finding an installed Blender: the candidate roots, the bounded search below a
//! root, and the scan over all roots, from a survey of the directories.

use crate::paths::{join_path, joined_path};
use crate::platform::Platform;
use crate::text::{eq_ignoring_case, opt_text, same_ignoring_case, texts};
use vstd::prelude::*;
use vstd::string::StringExecFns;

verus! {

/// The file name of Blender's executable.
pub const EXECUTABLE_NAME: &'static str = "blender.exe";

/// The environment variable of the program directory.
pub const PROGRAM_FILES_VARIABLE: &'static str = "PROGRAMFILES";

/// The environment variable of the program directory for 32-bit programs.
pub const PROGRAM_FILES_X86_VARIABLE: &'static str = "PROGRAMFILES(X86)";

/// The environment variable of the user's local application data.
pub const LOCAL_APP_DATA_VARIABLE: &'static str = "LOCALAPPDATA";

/// The environment variables from which candidate roots are built, each with its
/// value where it is set.
#[derive(Debug, PartialEq, Eq)]
pub struct ScanEnvironment {
    /// The value of [`PROGRAM_FILES_VARIABLE`].
    pub program_files: Option<String>,
    /// The value of [`PROGRAM_FILES_X86_VARIABLE`].
    pub program_files_x86: Option<String>,
    /// The value of [`LOCAL_APP_DATA_VARIABLE`].
    pub local_app_data: Option<String>,
}

/// An entry two levels below a root.
#[derive(Debug, PartialEq, Eq)]
pub struct SecondLevelEntry {
    pub path: String,
    pub is_dir: bool,
    /// Whether the executable's name under `path` is a regular file.
    pub has_executable: bool,
}

/// An entry directly below a root.
#[derive(Debug, PartialEq, Eq)]
pub struct FirstLevelEntry {
    pub path: String,
    pub is_dir: bool,
    /// Whether the executable's name under `path` is a regular file.
    pub has_executable: bool,
    /// What `path` holds, or `None` where it could not be listed.
    pub entries: Option<Vec<SecondLevelEntry>>,
}

/// What was found at a root directory, to a depth of two levels below it.
#[derive(Debug, PartialEq, Eq)]
pub struct RootSurvey {
    pub path: String,
    pub exists: bool,
    /// Whether the executable's name under `path` is a regular file.
    pub has_executable: bool,
    /// What `path` holds, or `None` where it could not be listed.
    pub entries: Option<Vec<FirstLevelEntry>>,
}

/// The outcome of one discovery.
#[derive(Debug, PartialEq, Eq)]
pub struct BlenderInstallScan {
    pub found: bool,
    pub executable_path: Option<String>,
    pub searched_paths: Vec<String>,
    pub message: String,
}

/// The mathematical model of a [`BlenderInstallScan`].
pub struct InstallScanView {
    pub found: bool,
    pub executable_path: Option<Seq<char>>,
    pub searched_paths: Seq<Seq<char>>,
    pub message: Seq<char>,
}

impl View for BlenderInstallScan {
    type V = InstallScanView;

    open spec fn view(&self) -> InstallScanView {
        InstallScanView {
            found: self.found,
            executable_path: opt_text(self.executable_path),
            searched_paths: texts(self.searched_paths@),
            message: self.message@,
        }
    }
}

/// The file name of the executable that is looked for.
pub open spec fn executable_name() -> Seq<char> {
    EXECUTABLE_NAME@
}

/// The directory of the vendor below a program directory.
pub open spec fn vendor_directory() -> Seq<char> {
    "Blender Foundation"@
}

/// The first root that is tried whatever the environment holds.
pub open spec fn first_fallback_root() -> Seq<char> {
    "C:\\Program Files\\Blender Foundation"@
}

/// The second root that is tried whatever the environment holds.
pub open spec fn second_fallback_root() -> Seq<char> {
    "C:\\Program Files (x86)\\Blender Foundation"@
}

/// The vendor's directory below a program directory, if the variable is set.
pub open spec fn program_root(variable: Option<String>) -> Seq<Seq<char>> {
    match variable {
        Some(value) => seq![joined_path(value@, vendor_directory())],
        None => Seq::empty(),
    }
}

/// The vendor's directory below `Programs` in the local application data, if the
/// variable is set.
pub open spec fn local_root(variable: Option<String>) -> Seq<Seq<char>> {
    match variable {
        Some(value) => seq![joined_path(joined_path(value@, "Programs"@), vendor_directory())],
        None => Seq::empty(),
    }
}

/// The candidate roots in the order in which they are tried: those of the three
/// environment variables that are set, then the two fallback paths.
pub open spec fn candidate_roots(env: ScanEnvironment) -> Seq<Seq<char>> {
    program_root(env.program_files) + program_root(env.program_files_x86) + local_root(
        env.local_app_data,
    ) + seq![first_fallback_root(), second_fallback_root()]
}

/// The first entry at or after `from` that is a directory with the executable.
pub open spec fn second_level_hit(entries: Seq<SecondLevelEntry>, from: int) -> Option<int>
    decreases entries.len() - from,
{
    if from < 0 || from >= entries.len() {
        None
    } else if entries[from].is_dir && entries[from].has_executable {
        Some(from)
    } else {
        second_level_hit(entries, from + 1)
    }
}

/// The first entry at or after `from` that is a directory with the executable.
pub open spec fn first_level_hit(entries: Seq<FirstLevelEntry>, from: int) -> Option<int>
    decreases entries.len() - from,
{
    if from < 0 || from >= entries.len() {
        None
    } else if entries[from].is_dir && entries[from].has_executable {
        Some(from)
    } else {
        first_level_hit(entries, from + 1)
    }
}

/// The directory with the executable that one entry below a root holds, if it is
/// a directory that could be listed.
pub open spec fn hit_below(entry: FirstLevelEntry) -> Option<Seq<char>> {
    if !entry.is_dir {
        None
    } else {
        match entry.entries {
            Some(inner) => match second_level_hit(inner@, 0) {
                Some(index) => Some(inner@[index].path@),
                None => None,
            },
            None => None,
        }
    }
}

/// The first directory with the executable two levels below a root, going
/// through the entries of the root in order from `from`.
pub open spec fn nested_hit(entries: Seq<FirstLevelEntry>, from: int) -> Option<Seq<char>>
    decreases entries.len() - from,
{
    if from < 0 || from >= entries.len() {
        None
    } else {
        match hit_below(entries[from]) {
            Some(path) => Some(path),
            None => nested_hit(entries, from + 1),
        }
    }
}

/// The executable below a root, searched in three steps: in the root itself,
/// then in each of its directories, then in each directory of those. The first
/// match counts. A root that does not exist or cannot be listed has none.
pub open spec fn found_executable(root: RootSurvey) -> Option<Seq<char>> {
    if !root.exists {
        None
    } else if root.has_executable {
        Some(joined_path(root.path@, executable_name()))
    } else {
        match root.entries {
            None => None,
            Some(entries) => match first_level_hit(entries@, 0) {
                Some(index) => Some(joined_path(entries@[index].path@, executable_name())),
                None => match nested_hit(entries@, 0) {
                    Some(path) => Some(joined_path(path, executable_name())),
                    None => None,
                },
            },
        }
    }
}

/// The first survey at or after `from` that was made of the path `root`.
pub open spec fn survey_index(disk: Seq<RootSurvey>, root: Seq<char>, from: int) -> Option<int>
    decreases disk.len() - from,
{
    if from < 0 || from >= disk.len() {
        None
    } else if disk[from].path@ == root {
        Some(from)
    } else {
        survey_index(disk, root, from + 1)
    }
}

/// The executable below the path `root`, as far as `disk` tells. A path of which
/// no survey was made counts as one that does not exist.
pub open spec fn executable_at(disk: Seq<RootSurvey>, root: Seq<char>) -> Option<Seq<char>> {
    match survey_index(disk, root, 0) {
        Some(index) => found_executable(disk[index]),
        None => None,
    }
}

/// True where an earlier candidate is the same path but for the case of letters.
pub open spec fn seen_before(roots: Seq<Seq<char>>, index: int) -> bool {
    exists|j: int| 0 <= j < index && same_ignoring_case(#[trigger] roots[j], roots[index])
}

/// The roots that a scan went through, and the executable where it found one.
pub struct ScanTrail {
    pub searched: Seq<Seq<char>>,
    pub found: Option<Seq<char>>,
}

/// The scan over the first `upto` candidates. Each candidate that is no repetition
/// of an earlier one is recorded as searched and then searched, until one holds
/// the executable; the candidates after that one are not looked at.
pub open spec fn scan_roots(roots: Seq<Seq<char>>, disk: Seq<RootSurvey>, upto: int) -> ScanTrail
    decreases upto,
{
    if upto <= 0 || upto > roots.len() {
        ScanTrail { searched: Seq::empty(), found: None }
    } else {
        let before = scan_roots(roots, disk, upto - 1);
        if before.found is Some || seen_before(roots, upto - 1) {
            before
        } else {
            ScanTrail {
                searched: before.searched.push(roots[upto - 1]),
                found: executable_at(disk, roots[upto - 1]),
            }
        }
    }
}

/// The next candidate at or after `from` that the scan has to look at and of
/// which no survey was made yet. `None` where the surveys made decide the scan:
/// one of them holds the executable, or every candidate has its survey.
pub open spec fn next_survey(roots: Seq<Seq<char>>, disk: Seq<RootSurvey>, from: int) -> Option<
    Seq<char>,
>
    decreases roots.len() - from,
{
    if from < 0 || from >= roots.len() {
        None
    } else if seen_before(roots, from) {
        next_survey(roots, disk, from + 1)
    } else {
        match survey_index(disk, roots[from], 0) {
            None => Some(roots[from]),
            Some(index) => if found_executable(disk[index]) is Some {
                None
            } else {
                next_survey(roots, disk, from + 1)
            },
        }
    }
}

/// The root to survey next, given the surveys made so far: on Windows the first
/// candidate that the scan comes to without a survey of it; none once the scan
/// is decided, and none at all elsewhere.
pub open spec fn survey_wanted(platform: Platform, env: ScanEnvironment, disk: Seq<RootSurvey>) -> Option<
    Seq<char>,
> {
    if platform != Platform::Windows {
        None
    } else {
        next_survey(candidate_roots(env), disk, 0)
    }
}

/// What a discovery reports: on Windows the trail of the scan over the candidate
/// roots, elsewhere that the scan is not offered.
pub open spec fn detection(platform: Platform, env: ScanEnvironment, disk: Seq<RootSurvey>) -> InstallScanView {
    if platform != Platform::Windows {
        InstallScanView {
            found: false,
            executable_path: None,
            searched_paths: Seq::empty(),
            message: "Windows Blender scan is disabled on this OS."@,
        }
    } else {
        let roots = candidate_roots(env);
        let trail = scan_roots(roots, disk, roots.len() as int);
        InstallScanView {
            found: trail.found is Some,
            executable_path: trail.found,
            searched_paths: trail.searched,
            message: if trail.found is Some {
                "Blender installation detected."@
            } else {
                "Blender was not found in common Windows installation paths."@
            },
        }
    }
}

/// The candidate roots for the given environment, in the order in which they are
/// tried.
pub fn blender_candidate_roots(env: &ScanEnvironment) -> (roots: Vec<String>)
    ensures
        texts(roots@) == candidate_roots(*env),
{
    let mut roots: Vec<String> = Vec::new();
    match &env.program_files {
        Some(value) => {
            roots.push(join_path(value.as_str(), "Blender Foundation"));
        },
        None => {},
    }
    match &env.program_files_x86 {
        Some(value) => {
            roots.push(join_path(value.as_str(), "Blender Foundation"));
        },
        None => {},
    }
    match &env.local_app_data {
        Some(value) => {
            let programs = join_path(value.as_str(), "Programs");
            roots.push(join_path(programs.as_str(), "Blender Foundation"));
        },
        None => {},
    }
    roots.push(String::from_str("C:\\Program Files\\Blender Foundation"));
    roots.push(String::from_str("C:\\Program Files (x86)\\Blender Foundation"));
    assert(texts(roots@) =~= candidate_roots(*env));
    roots
}

/// Searches one surveyed root for the executable, to a depth of two levels.
pub fn find_blender_executable(root: &RootSurvey) -> (found: Option<String>)
    ensures
        opt_text(found) == found_executable(*root),
{
    if !root.exists {
        return None;
    }
    if root.has_executable {
        return Some(join_path(root.path.as_str(), EXECUTABLE_NAME));
    }
    let entries = match &root.entries {
        Some(entries) => entries,
        None => { return None; },
    };
    let mut i: usize = 0;
    while i < entries.len()
        invariant
            i <= entries.len(),
            root.exists,
            !root.has_executable,
            root.entries == Some(*entries),
            first_level_hit(entries@, i as int) == first_level_hit(entries@, 0),
        decreases entries.len() - i,
    {
        if entries[i].is_dir && entries[i].has_executable {
            return Some(join_path(entries[i].path.as_str(), EXECUTABLE_NAME));
        }
        i += 1;
    }
    let mut i: usize = 0;
    while i < entries.len()
        invariant
            i <= entries.len(),
            root.exists,
            !root.has_executable,
            root.entries == Some(*entries),
            first_level_hit(entries@, 0) is None,
            nested_hit(entries@, i as int) == nested_hit(entries@, 0),
        decreases entries.len() - i,
    {
        if entries[i].is_dir {
            match &entries[i].entries {
                Some(inner) => {
                    let mut j: usize = 0;
                    while j < inner.len()
                        invariant
                            j <= inner.len(),
                            i < entries.len(),
                            root.exists,
                            !root.has_executable,
                            root.entries == Some(*entries),
                            first_level_hit(entries@, 0) is None,
                            nested_hit(entries@, i as int) == nested_hit(entries@, 0),
                            entries[i as int].is_dir,
                            entries[i as int].entries == Some(*inner),
                            second_level_hit(inner@, j as int) == second_level_hit(inner@, 0),
                        decreases inner.len() - j,
                    {
                        if inner[j].is_dir && inner[j].has_executable {
                            return Some(join_path(inner[j].path.as_str(), EXECUTABLE_NAME));
                        }
                        j += 1;
                    }
                },
                None => {},
            }
        }
        i += 1;
    }
    None
}

/// The position of the first survey that was made of the path `root`.
fn survey_position(disk: &Vec<RootSurvey>, root: &str) -> (position: Option<usize>)
    ensures
        match position {
            Some(index) => index < disk.len() && survey_index(disk@, root@, 0) == Some(
                index as int,
            ),
            None => survey_index(disk@, root@, 0) is None,
        },
{
    let wanted = String::from_str(root);
    let mut i: usize = 0;
    while i < disk.len()
        invariant
            i <= disk.len(),
            wanted@ == root@,
            survey_index(disk@, root@, i as int) == survey_index(disk@, root@, 0),
        decreases disk.len() - i,
    {
        if disk[i].path == wanted {
            return Some(i);
        }
        i += 1;
    }
    None
}

/// The executable below the path `root`, as far as `disk` tells.
fn executable_on_disk(disk: &Vec<RootSurvey>, root: &str) -> (found: Option<String>)
    ensures
        opt_text(found) == executable_at(disk@, root@),
{
    match survey_position(disk, root) {
        Some(index) => find_blender_executable(&disk[index]),
        None => None,
    }
}

/// True where an earlier candidate is the same path but for the case of letters.
fn is_repetition(roots: &Vec<String>, index: usize) -> (repeated: bool)
    requires
        index < roots.len(),
    ensures
        repeated == seen_before(texts(roots@), index as int),
{
    let mut j: usize = 0;
    while j < index
        invariant
            j <= index < roots.len(),
            forall|k: int|
                0 <= k < j ==> !same_ignoring_case(
                    #[trigger] texts(roots@)[k],
                    texts(roots@)[index as int],
                ),
        decreases index - j,
    {
        if eq_ignoring_case(roots[j].as_str(), roots[index].as_str()) {
            assert(same_ignoring_case(texts(roots@)[j as int], texts(roots@)[index as int]));
            return true;
        }
        j += 1;
    }
    false
}

/// Once the executable is found, the rest of the candidates changes nothing.
proof fn lemma_scan_stops(roots: Seq<Seq<char>>, disk: Seq<RootSurvey>, upto: int, later: int)
    requires
        0 <= upto <= later <= roots.len(),
        scan_roots(roots, disk, upto).found is Some,
    ensures
        scan_roots(roots, disk, later) == scan_roots(roots, disk, upto),
    decreases later - upto,
{
    if upto < later {
        lemma_scan_stops(roots, disk, upto, later - 1);
    }
}

/// What a scan leaves behind, whatever the candidates and the disk.
///
/// Every root that was searched is a candidate, and no two of them are the same
/// path but for the case of letters. No root before the last one searched holds
/// the executable; the last one holds it exactly when the scan found it, and
/// what was found is the executable below that root.
pub proof fn lemma_scan_trail(roots: Seq<Seq<char>>, disk: Seq<RootSurvey>, upto: int)
    requires
        0 <= upto <= roots.len(),
    ensures
        ({
            let trail = scan_roots(roots, disk, upto);
            &&& forall|k: int|
                0 <= k < trail.searched.len() ==> exists|j: int|
                    0 <= j < upto && roots[j] == #[trigger] trail.searched[k]
            &&& forall|a: int, b: int|
                0 <= a < b < trail.searched.len() ==> !same_ignoring_case(
                    #[trigger] trail.searched[a],
                    #[trigger] trail.searched[b],
                )
            &&& forall|k: int|
                0 <= k < trail.searched.len() - 1 ==> executable_at(
                    disk,
                    #[trigger] trail.searched[k],
                ) is None
            &&& trail.searched.len() == 0 ==> trail.found is None
            &&& trail.searched.len() > 0 ==> trail.found == executable_at(
                disk,
                trail.searched.last(),
            )
        }),
    decreases upto,
{
    if upto > 0 {
        lemma_scan_trail(roots, disk, upto - 1);
        let before = scan_roots(roots, disk, upto - 1);
        let trail = scan_roots(roots, disk, upto);
        if !(before.found is Some || seen_before(roots, upto - 1)) {
            let root = roots[upto - 1];
            assert forall|k: int| 0 <= k < trail.searched.len() implies exists|j: int|
                0 <= j < upto && roots[j] == #[trigger] trail.searched[k] by {
                if k < before.searched.len() {
                    let j = choose|j: int| 0 <= j < upto - 1 && roots[j] == before.searched[k];
                    assert(roots[j] == trail.searched[k]);
                } else {
                    assert(roots[upto - 1] == trail.searched[k]);
                }
            }
            assert forall|a: int, b: int| 0 <= a < b < trail.searched.len() implies !same_ignoring_case(
                #[trigger] trail.searched[a],
                #[trigger] trail.searched[b],
            ) by {
                if b == before.searched.len() {
                    let j = choose|j: int| 0 <= j < upto - 1 && roots[j] == before.searched[a];
                    assert(!same_ignoring_case(roots[j], roots[upto - 1]));
                }
            }
            assert forall|k: int| 0 <= k < trail.searched.len() - 1 implies executable_at(
                disk,
                #[trigger] trail.searched[k],
            ) is None by {
                if k == before.searched.len() - 1 {
                    assert(trail.searched[k] == before.searched.last());
                }
            }
        }
    }
}

/// The first survey of a path stays the first when more surveys follow.
proof fn lemma_first_survey_stays(
    disk: Seq<RootSurvey>,
    more: Seq<RootSurvey>,
    root: Seq<char>,
    from: int,
)
    requires
        0 <= from,
        survey_index(disk, root, from) is Some,
    ensures
        survey_index(disk + more, root, from) == survey_index(disk, root, from),
        survey_index(disk, root, from)->0 < disk.len(),
        (disk + more)[survey_index(disk, root, from)->0] == disk[survey_index(disk, root, from)->0],
    decreases disk.len() - from,
{
    if from < disk.len() {
        assert((disk + more)[from] == disk[from]);
        if disk[from].path@ != root {
            lemma_first_survey_stays(disk, more, root, from + 1);
        }
    }
}

/// A scan that is decided from `from` on, and that more surveys have not changed
/// up to there, is not changed by them at all.
proof fn lemma_decided_from(
    roots: Seq<Seq<char>>,
    disk: Seq<RootSurvey>,
    more: Seq<RootSurvey>,
    from: int,
)
    requires
        0 <= from <= roots.len(),
        next_survey(roots, disk, from) is None,
        scan_roots(roots, disk, from).found is None,
        scan_roots(roots, disk + more, from) == scan_roots(roots, disk, from),
    ensures
        scan_roots(roots, disk + more, roots.len() as int) == scan_roots(
            roots,
            disk,
            roots.len() as int,
        ),
    decreases roots.len() - from,
{
    if from < roots.len() {
        if !seen_before(roots, from) {
            lemma_first_survey_stays(disk, more, roots[from], 0);
        }
        if scan_roots(roots, disk, from + 1).found is Some {
            lemma_scan_stops(roots, disk, from + 1, roots.len() as int);
            lemma_scan_stops(roots, disk + more, from + 1, roots.len() as int);
        } else {
            lemma_decided_from(roots, disk, more, from + 1);
        }
    }
}

/// Once no root is left to survey, the scan is decided: whatever surveys follow
/// those that were made, its trail stays the same.
pub proof fn lemma_decided_scan_is_final(
    roots: Seq<Seq<char>>,
    disk: Seq<RootSurvey>,
    more: Seq<RootSurvey>,
)
    requires
        next_survey(roots, disk, 0) is None,
    ensures
        scan_roots(roots, disk + more, roots.len() as int) == scan_roots(
            roots,
            disk,
            roots.len() as int,
        ),
{
    lemma_decided_from(roots, disk, more, 0);
}

/// Names the root that is to be surveyed next, from the surveys made so far.
///
/// The candidates are gone through as the scan goes through them. The first one
/// that the scan has to look at and that has no survey yet is named. Nothing is
/// named once a surveyed root holds the executable or every candidate has been
/// surveyed, and nothing at all on a platform where the scan is not offered: the
/// surveys made then decide what [`detect_blender_installation_impl`] reports.
pub fn next_blender_root_to_survey(
    platform: Platform,
    env: &ScanEnvironment,
    disk: &Vec<RootSurvey>,
) -> (next: Option<String>)
    ensures
        opt_text(next) == survey_wanted(platform, *env, disk@),
{
    if platform != Platform::Windows {
        return None;
    }
    let roots = blender_candidate_roots(env);
    let ghost candidates = texts(roots@);
    let mut i: usize = 0;
    while i < roots.len()
        invariant
            i <= roots.len(),
            platform == Platform::Windows,
            candidates == texts(roots@),
            candidates == candidate_roots(*env),
            next_survey(candidates, disk@, i as int) == next_survey(candidates, disk@, 0),
        decreases roots.len() - i,
    {
        if !is_repetition(&roots, i) {
            match survey_position(disk, roots[i].as_str()) {
                None => {
                    return Some(roots[i].clone());
                },
                Some(position) => {
                    if find_blender_executable(&disk[position]).is_some() {
                        return None;
                    }
                },
            }
        }
        i += 1;
    }
    None
}

/// Looks for an installed Blender.
///
/// On Windows the candidate roots are searched in order, each at most once
/// whatever the case of its letters, until one holds the executable; the report
/// lists the roots that were searched. Elsewhere the report says that the scan
/// is not offered. Finding nothing is a report, never a failure.
pub fn detect_blender_installation_impl(
    platform: Platform,
    env: &ScanEnvironment,
    disk: &Vec<RootSurvey>,
) -> (scan: BlenderInstallScan)
    ensures
        scan@ == detection(platform, *env, disk@),
{
    if platform != Platform::Windows {
        let scan = BlenderInstallScan {
            found: false,
            executable_path: None,
            searched_paths: Vec::new(),
            message: String::from_str("Windows Blender scan is disabled on this OS."),
        };
        assert(scan@.searched_paths =~= Seq::empty());
        return scan;
    }
    let roots = blender_candidate_roots(env);
    let ghost candidates = texts(roots@);
    let mut searched: Vec<String> = Vec::new();
    assert(texts(searched@) =~= Seq::empty());
    let mut i: usize = 0;
    while i < roots.len()
        invariant
            i <= roots.len(),
            platform == Platform::Windows,
            candidates == texts(roots@),
            candidates == candidate_roots(*env),
            scan_roots(candidates, disk@, i as int) == (ScanTrail {
                searched: texts(searched@),
                found: None,
            }),
        decreases roots.len() - i,
    {
        if !is_repetition(&roots, i) {
            let ghost before = texts(searched@);
            searched.push(roots[i].clone());
            assert(texts(searched@) =~= before.push(candidates[i as int]));
            match executable_on_disk(disk, roots[i].as_str()) {
                Some(path) => {
                    proof {
                        assert(scan_roots(candidates, disk@, i + 1) == (ScanTrail {
                            searched: texts(searched@),
                            found: Some(path@),
                        }));
                        lemma_scan_stops(candidates, disk@, i + 1, roots.len() as int);
                    }
                    return BlenderInstallScan {
                        found: true,
                        executable_path: Some(path),
                        searched_paths: searched,
                        message: String::from_str("Blender installation detected."),
                    };
                },
                None => {},
            }
        }
        i += 1;
    }
    BlenderInstallScan {
        found: false,
        executable_path: None,
        searched_paths: searched,
        message: String::from_str("Blender was not found in common Windows installation paths."),
    }
}

} // verus!
