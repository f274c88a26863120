use cio::messages::{
    commit_message_text, created_notice, rate_limited_notice, read_failed_notice, unchanged_notice,
    updated_notice, wrote_file_notice,
};

#[test]
fn unchanged_notice_wording() {
    assert_eq!(
        unchanged_notice("/README.md"),
        "[github content] File contents at /README.md are the same, no update needed"
    );
}

#[test]
fn updated_notice_wording() {
    assert_eq!(updated_notice("/a/b.txt"), "[github content] Updated file at /a/b.txt");
}

#[test]
fn created_notice_wording() {
    assert_eq!(created_notice("/a/b.txt"), "[github content] Created file at /a/b.txt");
}

#[test]
fn read_failed_notice_wording() {
    assert_eq!(
        read_failed_notice("/a", "Codec(eof)"),
        "[github content] Getting the file at /a failed: Codec(eof)"
    );
}

#[test]
fn rate_limited_notice_wording() {
    assert_eq!(rate_limited_notice(7), "got rate limited, sleeping for 7s");
    assert_eq!(rate_limited_notice(3600), "got rate limited, sleeping for 3600s");
}

#[test]
fn wrote_file_notice_wording() {
    assert_eq!(wrote_file_notice("/tmp/out.txt"), "wrote file: /tmp/out.txt");
}

#[test]
fn commit_message_wording() {
    assert_eq!(
        commit_message_text("Updating", "/README.md"),
        "Updating file content /README.md programatically\n\nThis is done from the cio repo utils::create_or_update_file function."
    );
    assert_eq!(
        commit_message_text("Creating", "x"),
        "Creating file content x programatically\n\nThis is done from the cio repo utils::create_or_update_file function."
    );
}
