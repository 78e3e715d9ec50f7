use odysseus_desktop::credentials::{bundled_setup_credentials, parse_setup_credentials, SetupCredentials};

#[test]
fn setup_output_gives_credentials() {
    let out = "Setting up...\n  [ok] Initial admin user created (admin)\n        Temporary password: s3cret  \nDone\n";
    let c = parse_setup_credentials(out).unwrap();
    assert_eq!(c.username, "admin");
    assert_eq!(c.password, "s3cret");
}

#[test]
fn crlf_lines_are_read() {
    let out = "  [ok] Initial admin user created (root)\r\n        Temporary password: pw\r\n";
    let c = parse_setup_credentials(out).unwrap();
    assert_eq!(c.username, "root");
    assert_eq!(c.password, "pw");
}

#[test]
fn missing_password_gives_nothing() {
    assert!(parse_setup_credentials("  [ok] Initial admin user created (admin)\n").is_none());
    assert!(parse_setup_credentials("        Temporary password: x\n").is_none());
    assert!(parse_setup_credentials("").is_none());
}

#[test]
fn user_line_without_paren_clears_user() {
    let out = "  [ok] Initial admin user created (admin)\n  [ok] Initial admin user created (bob\n        Temporary password: x";
    assert!(parse_setup_credentials(out).is_none());
}

#[test]
fn last_lines_win() {
    let out = "        Temporary password: one\n  [ok] Initial admin user created (a)\n        Temporary password:   two\n  [ok] Initial admin user created (b)";
    let c = parse_setup_credentials(out).unwrap();
    assert_eq!(c.username, "b");
    assert_eq!(c.password, "two");
}

#[test]
fn prefix_must_be_exact() {
    let out = " [ok] Initial admin user created (admin)\n        Temporary password: x\n";
    assert!(parse_setup_credentials(out).is_none());
}

#[test]
fn credentials_file_is_preferred() {
    let out = "  [ok] Initial admin user created (printed)\n        Temporary password: p\n";
    let file = SetupCredentials::new("filed".to_string(), "q".to_string());
    let c = bundled_setup_credentials(Some(file), out).unwrap();
    assert_eq!(c.username, "filed");
    let c = bundled_setup_credentials(None, out).unwrap();
    assert_eq!(c.username, "printed");
    assert!(bundled_setup_credentials(None, "nothing").is_none());
}

#[test]
fn unrelated_output_lines_do_not_matter() {
    let with = "  [ok] Initial admin user created (admin)\nInstalling tables...\n        Temporary password: pw\nDone";
    let without = "  [ok] Initial admin user created (admin)\n        Temporary password: pw\nDone";
    let a = parse_setup_credentials(with).unwrap();
    let b = parse_setup_credentials(without).unwrap();
    assert_eq!((a.username, a.password), (b.username, b.password));
    let tail = "  [ok] Initial admin user created (admin)\n        Temporary password: pw\nbye";
    let c = parse_setup_credentials(tail).unwrap();
    assert_eq!((c.username.as_str(), c.password.as_str()), ("admin", "pw"));
    let cr_last = "  [ok] Initial admin user created (admin)\n        Temporary password: pw\r";
    let cr_then_more = "  [ok] Initial admin user created (admin)\n        Temporary password: pw\r\nbye";
    let d = parse_setup_credentials(cr_last).unwrap();
    let e = parse_setup_credentials(cr_then_more).unwrap();
    assert_eq!((d.username, d.password), (e.username, e.password));
}
