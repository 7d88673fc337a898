use sqlite_path::{path_debug, path_version, registrations, ScalarFunction};

#[test]
fn version_has_prefix() {
    assert_eq!(path_version("1.0.0"), "xv1.0.0");
    assert_eq!(path_version("1.2.3"), "xv1.2.3");
    assert_eq!(path_version(""), "xv");
}

#[test]
fn debug_has_two_lines_in_order() {
    let d = path_debug("0.1.0", "abc123");
    assert_eq!(d, "Version: v0.1.0\nSource: abc123\n");
    let lines: Vec<&str> = d.lines().collect();
    assert_eq!(lines, vec!["Version: v0.1.0", "Source: abc123"]);
}

#[test]
fn registration_table() {
    let r = registrations();
    assert_eq!(r.len(), 3);
    assert_eq!(r[0].function, ScalarFunction::Version);
    assert_eq!(r[1].function, ScalarFunction::Debug);
    assert_eq!(r[2].function, ScalarFunction::At);
    assert_eq!(r[0].function.sql_name(), "path_version");
    assert_eq!(r[1].function.sql_name(), "path_debug");
    assert_eq!(r[2].function.sql_name(), "path_at");
    assert_eq!((r[0].n_args, r[1].n_args, r[2].n_args), (0, 0, 2));
    assert!(r.iter().all(|e| e.deterministic));
    assert_eq!((r[0].utf8, r[1].utf8, r[2].utf8), (false, false, true));
}
