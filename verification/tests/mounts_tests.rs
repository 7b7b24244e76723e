use oemount::mounts::is_already_mounted;
use oemount::text::{join_commas_vec, split_str, trim_str, ws_tokens_str};

#[test]
fn an_exact_second_field_match_reports_mounted() {
    let table = "/dev/sda1 / ext4 rw 0 0\n/dev/sdb1 /mnt ext4 rw 0 0\n";
    assert!(is_already_mounted(table, "/"));
    assert!(is_already_mounted(table, "/mnt"));
}

#[test]
fn a_prefix_or_substring_of_a_mount_point_does_not_match() {
    let table = "/dev/sdb1 /mnt/data ext4 rw 0 0\n";
    assert!(!is_already_mounted(table, "/mnt"));
    assert!(!is_already_mounted(table, "data"));
}

#[test]
fn the_first_field_is_not_a_mount_point() {
    let table = "/dev/sdb1 /mnt ext4 rw 0 0\n";
    assert!(!is_already_mounted(table, "/dev/sdb1"));
}

#[test]
fn a_line_with_leading_whitespace_is_ignored() {
    let table = "  /dev/sdb1 /mnt ext4 rw 0 0\n";
    assert!(!is_already_mounted(table, "/mnt"));
}

#[test]
fn empty_tables_list_nothing() {
    assert!(!is_already_mounted("", "/mnt"));
    assert!(!is_already_mounted("\n\n", "/mnt"));
}

#[test]
fn splitting_keeps_empty_pieces() {
    let v = split_str("a,,b", ',');
    assert_eq!(v, vec!["a", "", "b"]);
    let v = split_str("", ',');
    assert_eq!(v, vec![""]);
}

#[test]
fn trimming_strips_both_ends_only() {
    assert_eq!(trim_str("  a b \t\n"), "a b");
    assert_eq!(trim_str(""), "");
    assert_eq!(trim_str(" \t "), "");
}

#[test]
fn whitespace_tokens_are_the_nonempty_runs() {
    let v = ws_tokens_str("  a\t bb   c ");
    assert_eq!(v, vec!["a", "bb", "c"]);
    let v = ws_tokens_str("   ");
    assert!(v.is_empty());
}

#[test]
fn joining_with_commas_inverts_a_plain_split() {
    let v: Vec<String> = vec!["a".into(), "".into(), "bc".into()];
    assert_eq!(join_commas_vec(&v), "a,,bc");
    let empty: Vec<String> = Vec::new();
    assert_eq!(join_commas_vec(&empty), "");
}
