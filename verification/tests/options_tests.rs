use oemount::flags::MountFlags;
use oemount::options::{match_test_opts, parse_mount_options};

#[test]
fn no_option_string_gives_empty_flags_and_no_data() {
    let r = parse_mount_options(None, false);
    assert_eq!(r.flags, MountFlags::empty());
    assert_eq!(r.data, None);
}

#[test]
fn read_only_is_forced_without_options() {
    let r = parse_mount_options(None, true);
    assert!(r.flags.read_only);
    assert_eq!(r.data, None);
}

#[test]
fn read_only_is_forced_beside_options() {
    let r = parse_mount_options(Some("noexec"), true);
    assert!(r.flags.read_only);
    assert!(r.flags.no_exec);
    assert_eq!(r.data, None);
}

#[test]
fn every_known_token_sets_its_flag() {
    let r = parse_mount_options(
        Some("noexec,nosuid,nodev,sync,dirsync,noatime,nodiratime,relatime,strictatime,lazytime"),
        false,
    );
    assert!(r.flags.no_exec);
    assert!(r.flags.no_suid);
    assert!(r.flags.no_dev);
    assert!(r.flags.synchronous);
    assert!(r.flags.dir_sync);
    assert!(r.flags.no_atime);
    assert!(r.flags.no_diratime);
    assert!(r.flags.relatime);
    assert!(r.flags.strict_atime);
    assert!(r.flags.lazytime);
    assert!(!r.flags.read_only);
    assert_eq!(r.data, None);
}

#[test]
fn unknown_tokens_are_preserved_in_order_with_duplicates() {
    let r = parse_mount_options(Some("foo,noexec,foo,bar"), false);
    assert!(r.flags.no_exec);
    assert_eq!(r.data, Some(String::from("foo,foo,bar")));
}

#[test]
fn a_single_unknown_token_is_the_whole_data() {
    let r = parse_mount_options(Some("uid=1000"), false);
    assert_eq!(r.flags, MountFlags::empty());
    assert_eq!(r.data, Some(String::from("uid=1000")));
}

#[test]
fn empty_option_string_is_one_empty_unknown_token() {
    let r = parse_mount_options(Some(""), false);
    assert_eq!(r.flags, MountFlags::empty());
    assert_eq!(r.data, Some(String::from("")));
}

#[test]
fn known_tokens_alone_leave_no_data() {
    let r = parse_mount_options(Some("nodev,nosuid"), false);
    assert!(r.flags.no_dev);
    assert!(r.flags.no_suid);
    assert_eq!(r.data, None);
}

#[test]
fn test_opts_subset_holds_when_every_token_occurs() {
    assert!(match_test_opts("ro,noauto,user", "ro"));
    assert!(match_test_opts("ro,noauto,user", "user,ro"));
    assert!(match_test_opts("ro", "ro,ro"));
}

#[test]
fn test_opts_subset_fails_on_a_missing_token() {
    assert!(!match_test_opts("defaults", "ro"));
    assert!(!match_test_opts("ro,noauto", "ro,user"));
}

#[test]
fn empty_test_opts_token_must_occur_verbatim() {
    assert!(!match_test_opts("defaults", ""));
    assert!(match_test_opts("", ""));
}
