use find_rs::args::{option_key, parse_arguments, OptionKey, Options, Parsed};

fn strings(items: &[&str]) -> Vec<String> {
    items.iter().map(|s| s.to_string()).collect()
}

fn options(items: &[&str]) -> Options {
    match parse_arguments(&strings(items)) {
        Parsed::Search(o) => o,
        Parsed::Usage => panic!("expected options"),
    }
}

#[test]
fn usage_when_too_few_arguments() {
    assert!(matches!(parse_arguments(&strings(&[])), Parsed::Usage));
    assert!(matches!(parse_arguments(&strings(&["--name"])), Parsed::Usage));
}

#[test]
fn usage_when_first_is_help() {
    assert!(matches!(parse_arguments(&strings(&["--help", "x"])), Parsed::Usage));
    assert!(matches!(parse_arguments(&strings(&["-h", "x"])), Parsed::Usage));
}

#[test]
fn help_later_is_an_ordinary_option() {
    let o = options(&["--name", "a", "--help", "b"]);
    assert_eq!(o.help.as_deref(), Some("b"));
    assert_eq!(o.name.as_deref(), Some("a"));
}

#[test]
fn long_and_short_forms() {
    let o = options(&["--path", "/tmp", "-n", "report", "-r", "^a", "--mime", "image"]);
    assert_eq!(o.path.as_deref(), Some("/tmp"));
    assert_eq!(o.name.as_deref(), Some("report"));
    assert_eq!(o.regex.as_deref(), Some("^a"));
    assert_eq!(o.mime.as_deref(), Some("image"));
    assert_eq!(o.help, None);
}

#[test]
fn last_value_wins() {
    let o = options(&["-n", "first", "--name", "second"]);
    assert_eq!(o.name.as_deref(), Some("second"));
}

#[test]
fn flag_at_end_is_ignored() {
    let o = options(&["-m", "text", "--name"]);
    assert_eq!(o.name, None);
    assert_eq!(o.mime.as_deref(), Some("text"));
}

#[test]
fn value_is_taken_unconditionally() {
    // the token after a flag is its value even when it looks like a flag;
    // that token is then read as a flag too
    let o = options(&["--name", "-p", "dir"]);
    assert_eq!(o.name.as_deref(), Some("-p"));
    assert_eq!(o.path.as_deref(), Some("dir"));
}

#[test]
fn unknown_flags_are_dropped() {
    let o = options(&["-x", "1", "--colour", "2", "-name", "3"]);
    assert_eq!(o.help, None);
    assert_eq!(o.path, None);
    assert_eq!(o.name, None);
    assert_eq!(o.regex, None);
    assert_eq!(o.mime, None);
}

#[test]
fn keys_of_tokens() {
    assert_eq!(option_key("--help"), Some(OptionKey::Help));
    assert_eq!(option_key("-h"), Some(OptionKey::Help));
    assert_eq!(option_key("--path"), Some(OptionKey::Path));
    assert_eq!(option_key("-p"), Some(OptionKey::Path));
    assert_eq!(option_key("--regex"), Some(OptionKey::Regex));
    assert_eq!(option_key("-m"), Some(OptionKey::Mime));
    assert_eq!(option_key("--"), None);
    assert_eq!(option_key("-"), None);
    assert_eq!(option_key("name"), None);
    assert_eq!(option_key("--names"), None);
    assert_eq!(option_key("-nm"), None);
}
