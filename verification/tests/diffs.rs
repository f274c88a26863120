use cio::diff::{is_spurious_diff, is_timestamp_churn};

fn document(created: &str, modified: &str, tail: &str) -> Vec<u8> {
    let mut text = String::new();
    text.push_str("%PDF-1.4\n");
    text.push_str("1 0 obj\n");
    text.push_str("<<\n");
    text.push_str("/Title (Report)\n");
    text.push_str("/Author (Builder)\n");
    text.push_str("/Producer (Typesetter)\n");
    text.push_str("/Creator (Typesetter)\n");
    text.push_str(&format!("/CreationDate ({})\n", created));
    text.push_str(&format!("/ModDate ({})\n", modified));
    text.push_str(">>\n");
    text.push_str("endobj\n");
    text.push_str("2 0 obj\n");
    text.push_str("<< /Type /Catalog >>\n");
    text.push_str("endobj\n");
    for i in 0..12 {
        text.push_str(&format!("line {}\n", i));
    }
    text.push_str(tail);
    text.into_bytes()
}

#[test]
fn regenerated_document_is_spurious() {
    let before = document("D:20200101000000Z", "D:20200101000000Z", "%%EOF\n");
    let after = document("D:20200202000000Z", "D:20200202000000Z", "%%EOF\n");
    assert!(is_spurious_diff(&before, &after));
}

#[test]
fn change_elsewhere_is_not_spurious() {
    let before = document("D:20200101000000Z", "D:20200101000000Z", "%%EOF\n");
    let after = document("D:20200101000000Z", "D:20200101000000Z", "trailer\n%%EOF\n");
    assert!(!is_spurious_diff(&before, &after));
}

#[test]
fn identical_buffers_are_not_spurious() {
    let before = document("D:20200101000000Z", "D:20200101000000Z", "%%EOF\n");
    assert!(!is_spurious_diff(&before, &before));
}

#[test]
fn plain_text_change_is_not_spurious() {
    assert!(!is_spurious_diff(b"goodbye", b"hello\n"));
}

#[test]
fn only_modification_date_changed_is_not_spurious() {
    let before = document("D:20200101000000Z", "D:20200101000000Z", "%%EOF\n");
    let after = document("D:20200101000000Z", "D:20200303000000Z", "%%EOF\n");
    assert!(!is_spurious_diff(&before, &after));
}

#[test]
fn churn_needs_all_four_marks() {
    let full = b"--- original\n+++ modified\n@@ -5,8 +5,8 @@\n ctx\n-/CreationDate (a)\n-/ModDate (a)\n+/CreationDate (b)\n+/ModDate (b)\n ctx\n";
    assert!(is_timestamp_churn(full));
    let other_hunk = b"--- original\n+++ modified\n@@ -6,8 +6,8 @@\n ctx\n-/CreationDate (a)\n-/ModDate (a)\n+/CreationDate (b)\n+/ModDate (b)\n ctx\n";
    assert!(!is_timestamp_churn(other_hunk));
    let no_removed_creation = b"@@ -5,8 +5,8 @@\n-/ModDate (a)\n+/CreationDate (b)\n+/ModDate (b)\n";
    assert!(!is_timestamp_churn(no_removed_creation));
    let no_removed_mod = b"@@ -5,8 +5,8 @@\n-/CreationDate (a)\n+/CreationDate (b)\n+/ModDate (b)\n";
    assert!(!is_timestamp_churn(no_removed_mod));
    let no_added_mod = b"@@ -5,8 +5,8 @@\n-/CreationDate (a)\n-/ModDate (a)\n+/CreationDate (b)\n";
    assert!(!is_timestamp_churn(no_added_mod));
    assert!(!is_timestamp_churn(b""));
}

#[test]
fn churn_does_not_ask_for_an_added_creation_date() {
    let rendering = b"@@ -5,8 +5,8 @@\n-/CreationDate (a)\n-/ModDate (a)\n+/ModDate (b)\n";
    assert!(is_timestamp_churn(rendering));
}

#[test]
fn churn_is_decided_on_bytes() {
    let mut rendering = b"@@ -5,8 +5,8 @@\n-/CreationDate (a)\n-/ModDate (a)\n+/ModDate (b)\n".to_vec();
    rendering.push(0xff);
    assert!(is_timestamp_churn(&rendering));
}

#[test]
fn churn_beside_a_distant_change_still_counts_as_churn() {
    let before = document("D:20200101000000Z", "D:20200101000000Z", "%%EOF\n");
    let after = document("D:20200202000000Z", "D:20200202000000Z", "trailer\n%%EOF\n");
    assert!(is_spurious_diff(&before, &after));
}
