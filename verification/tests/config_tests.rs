use xp_cli::config::get_config_value;

const CONFIG: &str = "domains_path: /home/dev/domains\n\
merlin_api_token: SECRET-REDACTED\n\
username: magento\n\
password: magento\n\
email: info@experius.nl\n";

#[test]
fn token_is_found_and_trimmed() {
    let v = get_config_value(CONFIG, "merlin_api_token").unwrap();
    assert_eq!(v, "SECRET-REDACTED");
}

#[test]
fn value_is_what_follows_the_last_colon() {
    // the path value itself holds no colon, but a URL-like value does
    let text = "endpoint: https:/host/path\nother: x\n";
    let v = get_config_value(text, "endpoint").unwrap();
    assert_eq!(v, "/host/path");
}

#[test]
fn line_without_colon_yields_whole_trimmed_line() {
    let text = "plainline\nkey: value\n";
    let v = get_config_value(text, "plainline").unwrap();
    assert_eq!(v, "plainline");
}

#[test]
fn first_matching_line_wins() {
    let text = "username: first\nusername: second\n";
    let v = get_config_value(text, "username").unwrap();
    assert_eq!(v, "first");
}

#[test]
fn key_matches_anywhere_in_the_line() {
    // the key is looked for as a substring of the line
    let v = get_config_value(CONFIG, "api_token").unwrap();
    assert_eq!(v, "SECRET-REDACTED");
}

#[test]
fn missing_key_yields_none() {
    assert!(get_config_value(CONFIG, "no_such_key").is_none());
}

#[test]
fn empty_content_yields_none_for_real_key() {
    assert!(get_config_value("", "merlin_api_token").is_none());
}

#[test]
fn surrounding_whitespace_is_trimmed() {
    let text = "key:   padded value \t\nnext: x\n";
    let v = get_config_value(text, "key").unwrap();
    assert_eq!(v, "padded value");
}

#[test]
fn windows_line_endings_are_trimmed() {
    let text = "username: magento\r\npassword: secret\r\n";
    let v = get_config_value(text, "username").unwrap();
    assert_eq!(v, "magento");
}
