use pop_core::error::ErrorKind;
use pop_core::status::{captured_text, check_output, check_status};
use pop_core::text::{i32_to_dec, parse_u64_dec, path_join, str_concat, trim, u64_to_dec};

#[test]
fn decimal_formatting_of_small_numbers() {
    assert_eq!(u64_to_dec(0).as_str(), "0");
    assert_eq!(u64_to_dec(7).as_str(), "7");
    assert_eq!(u64_to_dec(10).as_str(), "10");
    assert_eq!(u64_to_dec(256).as_str(), "256");
}

#[test]
fn decimal_formatting_of_the_largest_number() {
    assert_eq!(u64_to_dec(u64::MAX).as_str(), "18446744073709551615");
}

#[test]
fn signed_decimal_formatting() {
    assert_eq!(i32_to_dec(0).as_str(), "0");
    assert_eq!(i32_to_dec(42).as_str(), "42");
    assert_eq!(i32_to_dec(-1).as_str(), "-1");
    assert_eq!(i32_to_dec(i32::MIN).as_str(), "-2147483648");
}

#[test]
fn parsing_decimal_rootids() {
    assert_eq!(parse_u64_dec("0"), Some(0));
    assert_eq!(parse_u64_dec("271"), Some(271));
    assert_eq!(parse_u64_dec("18446744073709551615"), Some(u64::MAX));
}

#[test]
fn parsing_rejects_non_numbers() {
    assert_eq!(parse_u64_dec(""), None);
    assert_eq!(parse_u64_dec("12a"), None);
    assert_eq!(parse_u64_dec(" 12"), None);
    assert_eq!(parse_u64_dec("-4"), None);
}

#[test]
fn parsing_rejects_overflow() {
    assert_eq!(parse_u64_dec("18446744073709551616"), None);
    assert_eq!(parse_u64_dec("99999999999999999999999"), None);
}

#[test]
fn trimming_whitespace() {
    assert_eq!(trim("  /dev/loop0\n").as_str(), "/dev/loop0");
    assert_eq!(trim("271\n").as_str(), "271");
    assert_eq!(trim("\t\r\n ").as_str(), "");
    assert_eq!(trim("").as_str(), "");
    assert_eq!(trim("no-space").as_str(), "no-space");
    assert_eq!(trim("a b").as_str(), "a b");
}

#[test]
fn joining_paths() {
    assert_eq!(path_join("build/cache", "image").as_str(), "build/cache/image");
    assert_eq!(str_concat("ab", "cd").as_str(), "abcd");
}

#[test]
fn check_status_accepts_only_exit_zero() {
    assert!(check_status("btrfs", Some(0)).is_ok());
    let err = check_status("btrfs", Some(1)).unwrap_err();
    assert_eq!(err.kind(), ErrorKind::Other);
    assert_eq!(err.message(), "btrfs exited with 1");
    let err = check_status("debootstrap", Some(-3)).unwrap_err();
    assert_eq!(err.message(), "debootstrap exited with -3");
    let err = check_status("mkfs.fat", None).unwrap_err();
    assert_eq!(err.kind(), ErrorKind::Other);
    assert_eq!(err.message(), "mkfs.fat exited with signal");
}

#[test]
fn check_output_hands_back_stdout_on_success() {
    let out = check_output("findmnt", Some(0), vec![52, 50]).unwrap();
    assert_eq!(out, vec![52, 50]);
    let err = check_output("findmnt", Some(2), vec![]).unwrap_err();
    assert_eq!(err.kind(), ErrorKind::Other);
    assert_eq!(err.message(), "findmnt exited with 2");
}

#[test]
fn captured_text_trims_and_checks() {
    let text = captured_text("findmnt", Some(0), Some(String::from(" ABCD-1234\n"))).unwrap();
    assert_eq!(text.as_str(), "ABCD-1234");
    let err = captured_text("findmnt", Some(1), Some(String::from("x"))).unwrap_err();
    assert_eq!(err.kind(), ErrorKind::Other);
    let err = captured_text("losetup", Some(0), None).unwrap_err();
    assert_eq!(err.kind(), ErrorKind::InvalidData);
    assert_eq!(err.message(), "losetup output is not valid UTF-8");
}
