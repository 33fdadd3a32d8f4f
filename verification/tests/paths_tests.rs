use blender_bridge::healthcheck;
use blender_bridge::paths::join_path;

#[test]
fn healthcheck_reports_ok() {
    assert_eq!(healthcheck(), "ok");
}

#[test]
fn join_puts_a_backslash_between() {
    assert_eq!(join_path("C:\\Program Files", "Blender Foundation"), "C:\\Program Files\\Blender Foundation");
    assert_eq!(join_path("C:\\Users\\me\\AppData\\Local", "Programs"), "C:\\Users\\me\\AppData\\Local\\Programs");
}

#[test]
fn join_adds_no_second_separator() {
    assert_eq!(join_path("C:\\", "Blender"), "C:\\Blender");
    assert_eq!(join_path("C:/tools/", "blender.exe"), "C:/tools/blender.exe");
    assert_eq!(join_path("", "blender.exe"), "blender.exe");
    assert_eq!(join_path("D:", "blender.exe"), "D:blender.exe");
    assert_eq!(join_path("1:", "blender.exe"), "1:\\blender.exe");
    assert_eq!(join_path("DD:", "x"), "DD:\\x");
}
