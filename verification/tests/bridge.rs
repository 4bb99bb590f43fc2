use clonefile::bridge::AsyncClonefile;
use clonefile::bridge::CloneError;
use clonefile::bridge::interpret_clone_result;
use clonefile::bridge::prepare_clone_request;
use clonefile::options::CLONE_ACL;
use clonefile::options::CLONE_NOFOLLOW;
use clonefile::options::CLONE_NOOWNERCOPY;
use clonefile::options::CloneFileOptions;
use clonefile::options::flags_from_options;
use clonefile::paths::str_contains_nul;

fn opts(no_follow: Option<bool>, no_owner_copy: Option<bool>, clone_acl: Option<bool>) -> CloneFileOptions {
    CloneFileOptions { no_follow, no_owner_copy, clone_acl }
}

#[test]
fn absent_options_give_zero_flags() {
    assert_eq!(flags_from_options(None), 0);
}

#[test]
fn default_options_give_zero_flags() {
    assert_eq!(flags_from_options(Some(CloneFileOptions::default())), 0);
}

#[test]
fn explicit_false_options_give_zero_flags() {
    assert_eq!(
        flags_from_options(Some(opts(Some(false), Some(false), Some(false)))),
        0
    );
}

#[test]
fn no_follow_maps_to_its_bit() {
    assert_eq!(
        flags_from_options(Some(opts(Some(true), None, None))),
        CLONE_NOFOLLOW
    );
    assert_eq!(CLONE_NOFOLLOW, 1);
}

#[test]
fn no_owner_copy_maps_to_its_bit() {
    assert_eq!(
        flags_from_options(Some(opts(None, Some(true), None))),
        CLONE_NOOWNERCOPY
    );
    assert_eq!(CLONE_NOOWNERCOPY, 2);
}

#[test]
fn clone_acl_maps_to_its_bit() {
    assert_eq!(
        flags_from_options(Some(opts(None, None, Some(true)))),
        CLONE_ACL
    );
    assert_eq!(CLONE_ACL, 4);
}

#[test]
fn set_bits_are_or_combined() {
    assert_eq!(flags_from_options(Some(opts(Some(true), None, Some(true)))), 5);
    assert_eq!(flags_from_options(Some(opts(Some(true), Some(true), Some(true)))), 7);
}

#[test]
fn nul_scan_finds_embedded_nul() {
    assert!(str_contains_nul("a\0b"));
    assert!(str_contains_nul("\0"));
    assert!(str_contains_nul("ends with\0"));
    assert!(!str_contains_nul(""));
    assert!(!str_contains_nul("plain/path"));
}

#[test]
fn prepare_accepts_clean_paths() {
    match prepare_clone_request("src.txt", "dst.txt", Some(opts(Some(true), None, None))) {
        Ok(flags) => assert_eq!(flags, 1),
        Err(_) => panic!("clean paths were rejected"),
    }
}

#[test]
fn prepare_rejects_nul_in_source() {
    match prepare_clone_request("bad\0src", "dst.txt", None) {
        Err(CloneError::NulInPath) => {}
        _ => panic!("embedded nul in source was not rejected"),
    }
}

#[test]
fn prepare_rejects_nul_in_destination() {
    match prepare_clone_request("src.txt", "bad\0dst", None) {
        Err(CloneError::NulInPath) => {}
        _ => panic!("embedded nul in destination was not rejected"),
    }
}

#[test]
fn nul_rejection_message_names_the_cause() {
    let err = prepare_clone_request("bad\0src", "dst.txt", None).unwrap_err();
    assert_eq!(err.message(), "nul byte found in provided path");
}

#[test]
fn success_status_is_passed_through() {
    match interpret_clone_result(0, 0, String::new()) {
        Ok(res) => assert_eq!(res, 0),
        Err(_) => panic!("success status was not passed through"),
    }
}

#[test]
fn failure_carries_platform_code_and_message() {
    match interpret_clone_result(-1, 17, String::from("File exists")) {
        Err(CloneError::Platform { code, message }) => {
            assert_eq!(code, 17);
            assert_eq!(message, "File exists");
        }
        _ => panic!("platform failure was not reported"),
    }
}

#[test]
fn platform_error_message_is_the_description() {
    let err = interpret_clone_result(-1, 2, String::from("No such file or directory")).unwrap_err();
    assert_eq!(err.message(), "No such file or directory");
}

#[test]
fn async_task_prepares_like_the_sync_path() {
    let task = AsyncClonefile::new(
        String::from("src.txt"),
        String::from("dst.txt"),
        Some(opts(None, Some(true), Some(true))),
    );
    let via_task = task.prepare().expect("task rejected clean paths");
    let via_sync = prepare_clone_request("src.txt", "dst.txt", Some(opts(None, Some(true), Some(true))))
        .expect("sync path rejected clean paths");
    assert_eq!(via_task, via_sync);
    assert_eq!(via_task, 6);
}

#[test]
fn async_task_rejects_nul_like_the_sync_path() {
    let task = AsyncClonefile::new(String::from("bad\0src"), String::from("dst.txt"), None);
    match task.prepare() {
        Err(CloneError::NulInPath) => {}
        _ => panic!("task did not reject an embedded nul"),
    }
}

#[test]
fn task_keeps_its_own_arguments() {
    let task = AsyncClonefile::new(String::from("a"), String::from("b"), None);
    assert_eq!(task.src, "a");
    assert_eq!(task.dst, "b");
    assert!(task.options.is_none());
}
