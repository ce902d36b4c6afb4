use cursor_mate::listing::parse_id;
use cursor_mate::listing::parse_line;
use cursor_mate::listing::tokenize;
use cursor_mate::matching::matches_any_variant;
use cursor_mate::matching::names_equal_folded;
use cursor_mate::process::find_in_listing;
use cursor_mate::process::find_matching;
use cursor_mate::process::identifiers_of;
use cursor_mate::process::is_running;
use cursor_mate::process::running_from_discovery;
use cursor_mate::process::target_name_variants;
use cursor_mate::process::DiscoveryError;
use cursor_mate::process::ProcessRecord;

fn strings(items: &[&str]) -> Vec<String> {
    items.iter().map(|s| s.to_string()).collect()
}

#[test]
fn matching_is_case_insensitive() {
    assert!(names_equal_folded("CURSOR", "cursor"));
    assert!(names_equal_folded("Cursor", "cursor"));
    assert!(names_equal_folded("cursor", "cursor"));
    assert!(names_equal_folded("cUrSoR", "CuRsOr"));
}

#[test]
fn matching_is_exact_not_substring() {
    assert!(!names_equal_folded("cursorhelper", "cursor"));
    assert!(!names_equal_folded("cursor", "cursorhelper"));
    assert!(!names_equal_folded("curso", "cursor"));
    assert!(!names_equal_folded("", "cursor"));
    assert!(names_equal_folded("", ""));
}

#[test]
fn matching_against_variant_set() {
    let variants = target_name_variants();
    assert!(matches_any_variant("CURSOR", &variants));
    assert!(matches_any_variant("Cursor", &variants));
    assert!(!matches_any_variant("cursorhelper", &variants));
    assert!(!matches_any_variant("emacs", &variants));
    assert!(!matches_any_variant("Cursor", &Vec::new()));
}

#[test]
fn target_variants_are_the_two_fixed_names() {
    let variants = target_name_variants();
    assert_eq!(variants, vec!["Cursor".to_string(), "cursor".to_string()]);
}

#[test]
fn tokenize_splits_on_blanks() {
    assert_eq!(tokenize("  123  Cursor "), vec!["123".to_string(), "Cursor".to_string()]);
    assert_eq!(tokenize("\t1\tps\r"), vec!["1".to_string(), "ps".to_string()]);
    assert_eq!(tokenize(""), Vec::<String>::new());
    assert_eq!(tokenize("   "), Vec::<String>::new());
    assert_eq!(tokenize("one"), vec!["one".to_string()]);
}

#[test]
fn parse_id_reads_decimal_identifiers() {
    assert_eq!(parse_id("0"), Some(0));
    assert_eq!(parse_id("123"), Some(123));
    assert_eq!(parse_id("4294967295"), Some(u32::MAX));
    assert_eq!(parse_id("4294967296"), None);
    assert_eq!(parse_id("99999999999999999999"), None);
    assert_eq!(parse_id("12a"), None);
    assert_eq!(parse_id("-5"), None);
    assert_eq!(parse_id(""), None);
}

#[test]
fn parse_line_takes_identifier_and_name() {
    assert_eq!(parse_line("  123 Cursor"), Some((123, "Cursor".to_string())));
    assert_eq!(parse_line("1 a b"), Some((1, "a".to_string())));
    assert_eq!(parse_line("  PID COMM"), None);
    assert_eq!(parse_line("42"), None);
    assert_eq!(parse_line(""), None);
}

#[test]
fn discovery_filters_by_name() {
    let lines = strings(&[
        "  PID COMM",
        "  100 Cursor",
        "  200 cursor",
        "  300 cursorhelper",
        "garbled line here",
        "  400 CURSOR",
        "  500 bash",
    ]);
    let variants = target_name_variants();
    let records = find_in_listing(&lines, &variants);
    let pairs: Vec<(u32, &str)> =
        records.iter().map(|r| (r.identifier, r.name.as_str())).collect();
    assert_eq!(pairs, vec![(100, "Cursor"), (200, "cursor"), (400, "CURSOR")]);
    assert_eq!(identifiers_of(&records), vec![100, 200, 400]);
}

#[test]
fn discovery_with_no_match_is_empty_not_an_error() {
    let lines = strings(&["  PID COMM", "  500 bash"]);
    let result = find_matching(Ok(lines), &target_name_variants());
    assert!(matches!(&result, Ok(records) if records.is_empty()));
}

#[test]
fn discovery_failure_keeps_its_cause() {
    let result = find_matching(Err("ps command failed".to_string()), &target_name_variants());
    match result {
        Err(e) => assert_eq!(e.message, "ps command failed"),
        Ok(_) => panic!("a failed listing must surface a DiscoveryError"),
    }
}

#[test]
fn liveness_check_never_raises_and_maps_failure_to_false() {
    let failed: Result<Vec<ProcessRecord>, DiscoveryError> =
        Err(DiscoveryError { message: "enumeration unavailable".to_string() });
    assert!(!running_from_discovery(&failed));
    assert!(!is_running(Err("enumeration unavailable".to_string()), &target_name_variants()));
}

#[test]
fn liveness_check_reports_matches() {
    let variants = target_name_variants();
    let none = strings(&["  500 bash"]);
    assert!(!is_running(Ok(none), &variants));
    let some = strings(&["  500 bash", "  100 Cursor"]);
    assert!(is_running(Ok(some), &variants));
}
