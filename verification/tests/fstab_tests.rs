use oemount::errors::MountError;
use oemount::fstab::{parse_fstab, scan_fstab};
use oemount::is_swapfile;

#[test]
fn a_plain_entry_parses_into_six_fields() {
    let (entries, warns) = scan_fstab("/dev/sdb1 /mnt ext4 defaults 0 0");
    assert_eq!(entries.len(), 1);
    assert_eq!(warns.len(), 0);
    let e = &entries[0];
    assert_eq!(e.source, "/dev/sdb1");
    assert_eq!(e.target, "/mnt");
    assert_eq!(e.fstype, "ext4");
    assert_eq!(e.options, "defaults");
    assert_eq!(e.dump, "0");
    assert_eq!(e.pass, "0");
}

#[test]
fn matching_lines_give_entries_in_file_order_and_others_one_warning() {
    let table = "# static file system information\n\
                 /dev/sda1 / ext4 errors=remount-ro 0 1\n\
                 \n\
                 not enough fields\n\
                 /dev/sdb1 /mnt ext4 defaults 0 0\n\
                 bad dump field here x 0\n";
    let (entries, warns) = scan_fstab(table);
    assert_eq!(entries.len(), 2);
    assert_eq!(entries[0].source, "/dev/sda1");
    assert_eq!(entries[0].target, "/");
    assert_eq!(entries[0].pass, "1");
    assert_eq!(entries[1].source, "/dev/sdb1");
    assert_eq!(entries[1].target, "/mnt");
    assert_eq!(warns, vec![4, 6]);
}

#[test]
fn leading_whitespace_and_tabs_are_accepted() {
    let (entries, warns) = scan_fstab("  /dev/sda2\t/home\text4\tdefaults\t0\t2  ");
    assert_eq!(entries.len(), 1);
    assert_eq!(warns.len(), 0);
    assert_eq!(entries[0].target, "/home");
    assert_eq!(entries[0].pass, "2");
}

#[test]
fn extra_fields_after_the_sixth_are_ignored() {
    let (entries, warns) = scan_fstab("a b c d 12 34 extra junk");
    assert_eq!(entries.len(), 1);
    assert_eq!(warns.len(), 0);
    assert_eq!(entries[0].dump, "12");
    assert_eq!(entries[0].pass, "34");
}

#[test]
fn the_pass_field_is_the_leading_digit_run_of_the_sixth_field() {
    let (entries, warns) = scan_fstab("a b c d 0 0extra");
    assert_eq!(entries.len(), 1);
    assert_eq!(warns.len(), 0);
    assert_eq!(entries[0].pass, "0");
}

#[test]
fn a_non_digit_dump_field_makes_the_line_malformed() {
    let (entries, warns) = scan_fstab("a b c d 0x 0");
    assert_eq!(entries.len(), 0);
    assert_eq!(warns, vec![1]);
}

#[test]
fn a_sixth_field_without_a_leading_digit_is_malformed() {
    let (entries, warns) = scan_fstab("a b c d 0 x0");
    assert_eq!(entries.len(), 0);
    assert_eq!(warns, vec![1]);
}

#[test]
fn comments_and_blank_lines_earn_no_warning() {
    let (entries, warns) = scan_fstab("\n   \n# comment\n  # indented comment\n");
    assert_eq!(entries.len(), 0);
    assert_eq!(warns.len(), 0);
}

#[test]
fn a_table_without_entries_is_an_error() {
    let r = parse_fstab("# nothing here\njunk line\n");
    assert_eq!(r, Err(MountError::FstabEmpty));
}

#[test]
fn a_table_with_entries_parses() {
    let r = parse_fstab("/dev/sdb1 /mnt ext4 defaults 0 0\n").unwrap();
    assert_eq!(r.len(), 1);
    assert_eq!(r[0].fstype, "ext4");
}

#[test]
fn swap_is_recognised_exactly() {
    assert!(is_swapfile("swap"));
    assert!(!is_swapfile("ext4"));
    assert!(!is_swapfile("swapfs"));
    assert!(!is_swapfile(""));
}
