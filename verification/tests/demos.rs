use tyg_template::CYCLE_COLUMN;
use tyg_template::CYCLE_LINE;
use tyg_template::Counter;
use tyg_template::DEMO_COLUMN;
use tyg_template::DEMO_LINE;
use tyg_template::Error;
use tyg_template::FILE_COLUMN;
use tyg_template::FILE_LINE;
use tyg_template::PlatformError;
use tyg_template::error_demo;
use tyg_template::file_fail_demo;
use tyg_template::recursive_fail_demo;

#[test]
fn error_demo_disclosed_names_the_location() {
    let r = error_demo(false);
    let e = r.unwrap_err();
    assert!(matches!(e, Error::Error(_)));
    assert_eq!(
        e.format_display(),
        format!(
            "src/lib.rs:{}:{}: Error thrown to demonstrate the error handling process",
            DEMO_LINE, DEMO_COLUMN
        )
    );
}

#[test]
fn error_demo_bare_carries_the_message_alone() {
    let r = error_demo(true);
    let e = r.unwrap_err();
    assert!(matches!(e, Error::Error(_)));
    assert_eq!(
        e.format_display(),
        "Error thrown to demonstrate the error handling process"
    );
}

#[test]
fn error_demo_texts_differ_only_by_the_location_prefix() {
    let disclosed = error_demo(false).unwrap_err().format_display();
    let bare = error_demo(true).unwrap_err().format_display();
    assert_eq!(
        disclosed,
        format!("src/lib.rs:{}:{}: {}", DEMO_LINE, DEMO_COLUMN, bare)
    );
}

#[test]
fn recursive_fail_demo_prints_four_cycles_then_fails_at_five() {
    let (cycles, outcome) = recursive_fail_demo();
    assert_eq!(cycles, vec![1, 2, 3, 4]);
    let e = outcome.unwrap_err();
    assert!(matches!(e, Error::Error(_)));
    assert_eq!(
        e.format_display(),
        format!(
            "src/lib.rs:{}:{}: Failed at cycle 5",
            CYCLE_LINE, CYCLE_COLUMN
        )
    );
}

#[test]
fn counter_succeeds_through_four_then_fails_through_eleven() {
    let mut counter = Counter::new();
    for expected in 1u32..=4 {
        let item = counter.next().unwrap();
        match item {
            Ok(n) => assert_eq!(n, expected),
            Err(_) => panic!("expected a successful cycle"),
        }
    }
    for expected in 5u32..=11 {
        let item = counter.next().unwrap();
        let e = item.unwrap_err();
        assert_eq!(
            e.format_display(),
            format!(
                "src/lib.rs:{}:{}: Failed at cycle {}",
                CYCLE_LINE, CYCLE_COLUMN, expected
            )
        );
    }
    assert!(counter.next().is_none());
}

#[test]
fn file_fail_demo_plain_wraps_the_platform_error_unchanged() {
    let platform = PlatformError::new("No such file or directory (os error 2)".to_string());
    let r = file_fail_demo(false, "no-such-file", Err(platform));
    let e = r.unwrap_err();
    assert!(matches!(e, Error::File(_)));
    assert_eq!(e.format_display(), "No such file or directory (os error 2)");
    assert_eq!(
        e.source().unwrap().message,
        "No such file or directory (os error 2)"
    );
}

#[test]
fn file_fail_demo_better_names_the_path_before_the_platform_message() {
    let platform = PlatformError::new("No such file or directory (os error 2)".to_string());
    let r = file_fail_demo(true, "no-such-file", Err(platform));
    let e = r.unwrap_err();
    assert!(matches!(e, Error::Error(_)));
    assert_eq!(
        e.format_display(),
        format!(
            "src/lib.rs:{}:{}: no-such-file: No such file or directory (os error 2)",
            FILE_LINE, FILE_COLUMN
        )
    );
}

#[test]
fn file_fail_demo_succeeds_when_the_open_succeeded() {
    assert!(file_fail_demo(false, "present", Ok(())).is_ok());
    assert!(file_fail_demo(true, "present", Ok(())).is_ok());
}
