use nidalee::text::{
    backslashes, contains_substr, ends_with_str, first_line_with_suffix, remove_all, str_eq,
    trim_str, u32_to_string,
};

#[test]
fn contains_finds_substrings() {
    assert!(contains_substr("tasklist shows LeagueClient.exe here", "LeagueClient.exe"));
    assert!(contains_substr("abc", ""));
    assert!(contains_substr("abc", "abc"));
    assert!(!contains_substr("abc", "abcd"));
    assert!(!contains_substr("Riot Client", "Update"));
    assert!(contains_substr("Updating 42%", "Updating"));
}

#[test]
fn ends_with_checks_suffix() {
    assert!(ends_with_str("C:\\x\\RiotClientServices.exe", "RiotClientServices.exe"));
    assert!(!ends_with_str("RiotClientServices.exe.bak", "RiotClientServices.exe"));
    assert!(ends_with_str("abc", ""));
    assert!(!ends_with_str("x", "abc"));
}

#[test]
fn str_eq_is_exact() {
    assert!(str_eq("league", "league"));
    assert!(!str_eq("league", "League"));
    assert!(!str_eq("league", "leagues"));
    assert!(str_eq("", ""));
}

#[test]
fn trim_strips_blanks() {
    assert_eq!(trim_str("  C:\\path\\x.exe \r\n"), "C:\\path\\x.exe");
    assert_eq!(trim_str("\t\r\n "), "");
    assert_eq!(trim_str("abc"), "abc");
    assert_eq!(trim_str("a b"), "a b");
}

#[test]
fn backslashes_rewrites_separators() {
    assert_eq!(backslashes("C:/Riot Games/Riot Client"), "C:\\Riot Games\\Riot Client");
    assert_eq!(backslashes("no slash"), "no slash");
    assert_eq!(backslashes(""), "");
}

#[test]
fn remove_all_strips_every_occurrence() {
    assert_eq!(remove_all("\\\\?\\C:\\x", "\\\\?\\"), "C:\\x");
    assert_eq!(remove_all("aXbXc", "X"), "abc");
    assert_eq!(remove_all("abc", "zz"), "abc");
    assert_eq!(remove_all("XXXX", "XX"), "");
}

#[test]
fn first_line_with_suffix_scans_lines() {
    let listing = "ExecutablePath  \r\n\r\nC:\\Riot Games\\RiotClientServices.exe  \r\nother\r\n";
    assert_eq!(
        first_line_with_suffix(listing, "RiotClientServices.exe"),
        Some(String::from("C:\\Riot Games\\RiotClientServices.exe"))
    );
    assert_eq!(first_line_with_suffix("a\nb\nc", "zz"), None);
    assert_eq!(
        first_line_with_suffix("first.exe\nsecond.exe", ".exe"),
        Some(String::from("first.exe"))
    );
}

#[test]
fn u32_renders_decimal() {
    assert_eq!(u32_to_string(0), "0");
    assert_eq!(u32_to_string(3), "3");
    assert_eq!(u32_to_string(30), "30");
    assert_eq!(u32_to_string(180), "180");
    assert_eq!(u32_to_string(4294967295), "4294967295");
}
