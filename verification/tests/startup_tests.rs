use nidalee::startup::{clean_exe_path, startup_entry_current, startup_registry_value};

#[test]
fn clean_exe_path_strips_verbatim_prefix() {
    assert_eq!(clean_exe_path("\\\\?\\C:\\apps\\nidalee.exe"), "C:\\apps\\nidalee.exe");
    assert_eq!(clean_exe_path("C:\\apps\\nidalee.exe"), "C:\\apps\\nidalee.exe");
}

#[test]
fn startup_value_quotes_path_and_adds_switch() {
    assert_eq!(
        startup_registry_value("C:\\apps\\nidalee.exe"),
        "\"C:\\apps\\nidalee.exe\" --start-minimized"
    );
}

#[test]
fn startup_entry_current_compares_after_cleaning() {
    let expected = "\"C:\\apps\\nidalee.exe\" --start-minimized";
    assert!(startup_entry_current(expected, "C:\\apps\\nidalee.exe"));
    // A verbatim-prefixed entry still counts as current once cleaned.
    assert!(startup_entry_current(
        "\"\\\\?\\C:\\apps\\nidalee.exe\" --start-minimized",
        "C:\\apps\\nidalee.exe"
    ));
    assert!(!startup_entry_current(
        "\"D:\\elsewhere\\nidalee.exe\" --start-minimized",
        "C:\\apps\\nidalee.exe"
    ));
    assert!(!startup_entry_current("garbage", "C:\\apps\\nidalee.exe"));
}
