use capyap_desktop::url::{open_url_command, opener_for, validate_url, TargetOs, UrlError};

#[test]
fn non_http_scheme_is_refused() {
    let r = open_url_command("ftp://x", TargetOs::Linux);
    assert_eq!(r.unwrap_err(), UrlError::UnsupportedScheme);
    assert_eq!(UrlError::UnsupportedScheme.message(), "Only http/https URLs are supported.");
}

#[test]
fn empty_url_is_refused() {
    assert_eq!(open_url_command("", TargetOs::Linux).unwrap_err(), UrlError::Empty);
    assert_eq!(open_url_command(" \t\n", TargetOs::MacOs).unwrap_err(), UrlError::Empty);
    assert_eq!(UrlError::Empty.message(), "URL is empty.");
}

#[test]
fn https_url_opens_with_the_system_opener() {
    let cmd = open_url_command("https://x", TargetOs::Linux).unwrap();
    assert_eq!(cmd.program, "xdg-open");
    assert_eq!(cmd.args, vec!["https://x".to_string()]);
    let mac = open_url_command("http://a.b/c", TargetOs::MacOs).unwrap();
    assert_eq!(mac.program, "open");
    assert_eq!(mac.args, vec!["http://a.b/c".to_string()]);
    let win = open_url_command("https://x", TargetOs::Windows).unwrap();
    assert_eq!(win.program, "rundll32");
    assert_eq!(
        win.args,
        vec!["url.dll,FileProtocolHandler".to_string(), "https://x".to_string()]
    );
}

#[test]
fn surrounding_white_space_is_dropped() {
    let cmd = open_url_command("  https://example.org/a \n", TargetOs::Linux).unwrap();
    assert_eq!(cmd.args, vec!["https://example.org/a".to_string()]);
    assert_eq!(open_url_command(" ftp://x ", TargetOs::Linux).unwrap_err(), UrlError::UnsupportedScheme);
}

#[test]
fn validation_of_trimmed_urls() {
    assert_eq!(validate_url(""), Err(UrlError::Empty));
    assert_eq!(validate_url("http:/x"), Err(UrlError::UnsupportedScheme));
    assert_eq!(validate_url(" https://x"), Err(UrlError::UnsupportedScheme));
    assert_eq!(validate_url("http://"), Ok(()));
    assert_eq!(opener_for(TargetOs::Linux).args.len(), 0);
}
