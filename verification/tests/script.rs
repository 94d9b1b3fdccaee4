use gl_cli::script::{describe, validate, Probe, Rejection};

const THERE: Probe = Probe { exists: true, is_file: true };
const ABSENT: Probe = Probe { exists: false, is_file: false };
const DIRECTORY: Probe = Probe { exists: true, is_file: false };

#[test]
fn existing_script_is_accepted() {
    assert_eq!(validate("main.gl", THERE), Ok(()));
    assert_eq!(validate("dir/sub/tool.gl", THERE), Ok(()));
    assert_eq!(validate(".gl", THERE), Ok(()));
}

#[test]
fn missing_file_is_no_such_file() {
    assert_eq!(validate("missing.gl", ABSENT), Err(Rejection::NoSuchFile));
}

#[test]
fn directory_is_no_such_file() {
    assert_eq!(validate("scripts.gl", DIRECTORY), Err(Rejection::NoSuchFile));
}

#[test]
fn wrong_extension_is_rejected() {
    assert_eq!(validate("main.txt", THERE), Err(Rejection::WrongExtension));
    assert_eq!(validate("main.gl.bak", THERE), Err(Rejection::WrongExtension));
    assert_eq!(validate("main.GL", THERE), Err(Rejection::WrongExtension));
    assert_eq!(validate("maingl", THERE), Err(Rejection::WrongExtension));
    assert_eq!(validate("", THERE), Err(Rejection::WrongExtension));
}

#[test]
fn missing_file_is_reported_before_wrong_extension() {
    assert_eq!(validate("missing.txt", ABSENT), Err(Rejection::NoSuchFile));
    assert_eq!(validate("folder", DIRECTORY), Err(Rejection::NoSuchFile));
}

#[test]
fn wrong_extension_is_rejected_whatever_the_probe_says() {
    let probes = [
        THERE,
        ABSENT,
        DIRECTORY,
        Probe { exists: false, is_file: true },
    ];
    for probe in probes {
        assert!(validate("notes.md", probe).is_err());
    }
}

#[test]
fn complaint_for_missing_file_names_the_path() {
    assert_eq!(
        describe(Rejection::NoSuchFile, "missing.gl"),
        "GL: Can't open file 'missing.gl': No such file"
    );
    assert_eq!(describe(Rejection::NoSuchFile, ""), "GL: Can't open file '': No such file");
}

#[test]
fn complaint_for_wrong_extension_is_fixed() {
    assert_eq!(
        describe(Rejection::WrongExtension, "main.txt"),
        "GL: Invalid file extension, expected file with extension '.gl'"
    );
}
