use fix_firefox_launcher::reconcile::{join_command, reconcile, reconcile_tick, repair_command, RepairOutcome};

const DESIRED: &str = "-private-window \"%1\"";

#[test]
fn satisfied_command_is_left_alone() {
    let original = "\"C:\\Program Files\\Mozilla Firefox\\firefox.exe\" -private-window \"%1\"".to_string();
    let mut entry = Some(original.clone());
    assert_eq!(reconcile(&mut entry, DESIRED), RepairOutcome::AlreadySatisfied);
    assert_eq!(entry, Some(original));
}

#[test]
fn missing_option_is_repaired_keeping_executable() {
    let mut entry = Some("\"C:\\Program Files\\Mozilla Firefox\\firefox.exe\" -osint -url \"%1\"".to_string());
    assert_eq!(reconcile(&mut entry, DESIRED), RepairOutcome::Repaired);
    assert_eq!(
        entry,
        Some("\"C:\\Program Files\\Mozilla Firefox\\firefox.exe\" -private-window \"%1\"".to_string())
    );
}

#[test]
fn command_without_quoted_token_becomes_space_and_option() {
    let mut entry = Some("firefox.exe -osint -url %1".to_string());
    assert_eq!(reconcile(&mut entry, DESIRED), RepairOutcome::Repaired);
    assert_eq!(entry, Some(" -private-window \"%1\"".to_string()));
}

#[test]
fn single_quote_is_no_token() {
    assert_eq!(repair_command("firefox.exe \"%1", "-new"), Some(" -new".to_string()));
}

#[test]
fn second_reconcile_finds_nothing_to_do() {
    let mut entry = Some("\"firefox.exe\" -url \"%1\"".to_string());
    assert_eq!(reconcile(&mut entry, DESIRED), RepairOutcome::Repaired);
    let after_first = entry.clone();
    assert_eq!(reconcile(&mut entry, DESIRED), RepairOutcome::AlreadySatisfied);
    assert_eq!(entry, after_first);
}

#[test]
fn unreachable_entry_is_reported() {
    let mut entry: Option<String> = None;
    assert_eq!(reconcile(&mut entry, DESIRED), RepairOutcome::Unreachable);
    assert_eq!(entry, None);
}

#[test]
fn containment_is_a_plain_substring_test() {
    // "-private" inside "-private-window" counts as present.
    assert_eq!(repair_command("\"ff.exe\" -private-window \"%1\"", "-private"), None);
}

#[test]
fn leftmost_quoted_token_is_kept() {
    assert_eq!(
        repair_command("\"a b.exe\" \"second\" -x", "-y"),
        Some("\"a b.exe\" -y".to_string())
    );
}

#[test]
fn empty_option_string_is_always_present() {
    assert_eq!(repair_command("anything", ""), None);
}

#[test]
fn join_puts_one_space_between() {
    assert_eq!(join_command("\"x.exe\"", "-a"), "\"x.exe\" -a".to_string());
    assert_eq!(join_command("", ""), " ".to_string());
}

#[test]
fn tick_goes_on_past_an_unreachable_entry() {
    let mut entries = vec![
        None,
        Some("\"ff.exe\" -url \"%1\"".to_string()),
        Some("\"ff.exe\" -private-window \"%1\"".to_string()),
    ];
    let outcomes = reconcile_tick(&mut entries, DESIRED);
    assert_eq!(
        outcomes,
        vec![RepairOutcome::Unreachable, RepairOutcome::Repaired, RepairOutcome::AlreadySatisfied]
    );
    assert_eq!(
        entries,
        vec![
            None,
            Some("\"ff.exe\" -private-window \"%1\"".to_string()),
            Some("\"ff.exe\" -private-window \"%1\"".to_string()),
        ]
    );
}

#[test]
fn adjacent_quotes_are_no_token() {
    assert_eq!(repair_command("\"\" -x", "-y"), Some(" -y".to_string()));
}

#[test]
fn line_break_inside_quotes_is_no_token() {
    assert_eq!(repair_command("\"a\nb\" -x", "-y"), Some(" -y".to_string()));
}

#[test]
fn token_need_not_open_the_command() {
    assert_eq!(repair_command("run \"ff.exe\" -x", "-y"), Some("\"ff.exe\" -y".to_string()));
}
