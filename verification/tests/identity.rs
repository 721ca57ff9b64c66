use microfetch::colors::Colors;
use microfetch::system::get_username_and_hostname;

fn ansi() -> Colors {
    Colors {
        reset: "\x1b[0m".to_string(),
        cyan: "\x1b[36m".to_string(),
        green: "\x1b[32m".to_string(),
        yellow: "\x1b[33m".to_string(),
        red: "\x1b[31m".to_string(),
    }
}

fn plain() -> Colors {
    Colors {
        reset: String::new(),
        cyan: String::new(),
        green: String::new(),
        yellow: String::new(),
        red: String::new(),
    }
}

#[test]
fn identity_in_colour() {
    assert_eq!(
        get_username_and_hostname(Some("robin"), Some("WORKSTATION"), &ansi()),
        "\x1b[33mrobin\x1b[31m@\x1b[32mWORKSTATION\x1b[0m"
    );
}

#[test]
fn identity_without_colour() {
    assert_eq!(get_username_and_hostname(Some("robin"), Some("WORKSTATION"), &plain()), "robin@WORKSTATION");
}

#[test]
fn failed_hostname_keeps_the_username() {
    assert_eq!(get_username_and_hostname(Some("robin"), None, &plain()), "robin@invalid_hostname");
}

#[test]
fn failed_username_keeps_the_hostname() {
    assert_eq!(get_username_and_hostname(None, Some("WORKSTATION"), &plain()), "invalid_username@WORKSTATION");
}

#[test]
fn both_names_failed() {
    assert_eq!(
        get_username_and_hostname(None, None, &ansi()),
        "\x1b[33minvalid_username\x1b[31m@\x1b[32minvalid_hostname\x1b[0m"
    );
}

#[test]
fn identity_is_never_empty() {
    assert_eq!(get_username_and_hostname(Some(""), Some(""), &plain()), "@");
}

#[test]
fn same_names_same_identity() {
    let first = get_username_and_hostname(Some("Zoë"), Some("hôte"), &ansi());
    let second = get_username_and_hostname(Some("Zoë"), Some("hôte"), &ansi());
    assert_eq!(first, second);
    assert_eq!(first, "\x1b[33mZoë\x1b[31m@\x1b[32mhôte\x1b[0m");
}
