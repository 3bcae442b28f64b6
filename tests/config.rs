use fix_firefox_launcher::config::{
    resolve_config, resolve_with_arguments, StoreOverrides, DEFAULT_OPTION_STRING,
    DEFAULT_POLL_INTERVAL,
};
use fix_firefox_launcher::text::{contains_text, parse_u32, starts_with_text};

fn store(options: Option<&str>, interval: Option<u32>) -> Option<StoreOverrides> {
    Some(StoreOverrides { option_string: options.map(|s| s.to_string()), poll_interval: interval })
}

fn args(list: &[&str]) -> Vec<String> {
    list.iter().map(|s| s.to_string()).collect()
}

#[test]
fn start_argument_beats_store_and_default() {
    let r = resolve_config(&store(None, Some(30)), Some("10".to_string()), None);
    assert_eq!(r.config.poll_interval_seconds, 10);
    assert_eq!(r.rejected_interval, None);
}

#[test]
fn store_beats_default() {
    let r = resolve_config(&store(None, Some(30)), None, None);
    assert_eq!(r.config.poll_interval_seconds, 30);
}

#[test]
fn default_when_all_absent_or_unparseable() {
    let r = resolve_config(&store(None, None), Some("soon".to_string()), None);
    assert_eq!(r.config.poll_interval_seconds, DEFAULT_POLL_INTERVAL);
    assert_eq!(r.config.poll_interval_seconds, 60);
    assert_eq!(r.rejected_interval, Some("soon".to_string()));
}

#[test]
fn unparseable_argument_keeps_store_value() {
    let r = resolve_config(&store(None, Some(30)), Some("-5".to_string()), None);
    assert_eq!(r.config.poll_interval_seconds, 30);
    assert_eq!(r.rejected_interval, Some("-5".to_string()));
}

#[test]
fn zero_interval_falls_through() {
    let r = resolve_config(&store(None, Some(0)), Some("0".to_string()), None);
    assert_eq!(r.config.poll_interval_seconds, 60);
    assert_eq!(r.rejected_interval, Some("0".to_string()));
}

#[test]
fn unopenable_override_block_gives_defaults() {
    let r = resolve_config(&None, None, None);
    assert_eq!(r.config.poll_interval_seconds, 60);
    assert_eq!(r.config.desired_option_string, DEFAULT_OPTION_STRING.to_string());
    assert_eq!(r.config.desired_option_string, "-private-window \"%1\"".to_string());
}

#[test]
fn option_string_precedence() {
    let r = resolve_config(&store(Some("-new-window \"%1\""), None), None, None);
    assert_eq!(r.config.desired_option_string, "-new-window \"%1\"".to_string());
    let r = resolve_config(&store(Some("-new-window \"%1\""), None), None, Some("-kiosk".to_string()));
    assert_eq!(r.config.desired_option_string, "-kiosk".to_string());
}

#[test]
fn start_arguments_are_parsed() {
    let a = args(&["FixFirefoxLauncher", "--poll-interval=10", "--option-string=-new-tab \"%1\""]);
    let r = resolve_with_arguments(&store(Some("-x"), Some(30)), &a);
    assert_eq!(r.config.poll_interval_seconds, 10);
    assert_eq!(r.config.desired_option_string, "-new-tab \"%1\"".to_string());
}

#[test]
fn service_name_alone_is_not_read() {
    let r = resolve_with_arguments(&store(None, Some(30)), &args(&["--poll-interval=10"]));
    assert_eq!(r.config.poll_interval_seconds, 30);
}

#[test]
fn bad_interval_argument_is_reported() {
    let a = args(&["FixFirefoxLauncher", "--poll-interval=often"]);
    let r = resolve_with_arguments(&store(None, Some(30)), &a);
    assert_eq!(r.config.poll_interval_seconds, 30);
    assert_eq!(r.rejected_interval, Some("often".to_string()));
}

#[test]
fn arguments_the_parser_cannot_take_are_ignored() {
    let a = args(&["FixFirefoxLauncher", "--poll-interval=10", "-\u{e9}t\u{e9}"]);
    let r = resolve_with_arguments(&None, &a);
    assert_eq!(r.config.poll_interval_seconds, 60);
}

#[test]
fn parse_u32_follows_std() {
    for text in ["0", "7", "+42", "4294967295", "004294967295", "", "+", "-1", "4294967296", "1 ", "12a", "99999999999"] {
        assert_eq!(parse_u32(text), text.parse::<u32>().ok(), "{text}");
    }
}

#[test]
fn contains_and_prefix() {
    assert!(contains_text("abcdef", "cde"));
    assert!(!contains_text("abcdef", "cdf"));
    assert!(contains_text("abc", ""));
    assert!(!contains_text("ab", "abc"));
    assert!(contains_text("h\u{e9}llo", "\u{e9}l"));
    assert!(starts_with_text("FirefoxHTML", "Firefox"));
    assert!(!starts_with_text("Fire", "Firefox"));
}
