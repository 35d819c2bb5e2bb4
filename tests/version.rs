use cargo_flatpak::path::NoHomeDir;
use cargo_flatpak::version::{format_commit_msg, version_long, InstalledCommitMsgError};

#[test]
fn no_commit_file_keeps_short_version() {
    assert_eq!(version_long("v0.1.0", Ok(None)), "v0.1.0");
}

#[test]
fn commit_message_is_appended() {
    assert_eq!(
        version_long("v0.1.0", Ok(Some(String::from("abc123 fix")))),
        "v0.1.0\nContains commits up to \"abc123 fix\""
    );
}

#[test]
fn failed_lookup_keeps_short_version() {
    assert_eq!(
        version_long("v0.1.0", Err(InstalledCommitMsgError::NoHomeDir(NoHomeDir))),
        "v0.1.0"
    );
}

#[test]
fn commit_message_is_quoted() {
    assert_eq!(format_commit_msg(String::from("abc")), "Contains commits up to \"abc\"");
    let msg = String::from("line\n\"quoted\"\\");
    assert_eq!(format_commit_msg(msg.clone()), format!("Contains commits up to {:?}", msg));
}

#[test]
fn read_failure_message() {
    let e = InstalledCommitMsgError::ReadFailed {
        path: String::from("/home/u/.cargo-flatpak/commit"),
        source: String::from("denied"),
    };
    assert_eq!(
        e.message(),
        "Failed to read version info from \"/home/u/.cargo-flatpak/commit\": denied"
    );
}
