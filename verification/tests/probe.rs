use viuer::probe::is_iterm_supported;
use viuer::probe::Capabilities;

#[test]
fn supported_when_value_contains_identifier() {
    assert!(is_iterm_supported(&Some(b"iTerm.app".to_vec())));
    assert!(is_iterm_supported(&Some(b"my-iTerm2-build".to_vec())));
    assert!(is_iterm_supported(&Some(b"iTerm".to_vec())));
}

#[test]
fn unsupported_on_missing_or_foreign_value() {
    assert!(!is_iterm_supported(&None));
    assert!(!is_iterm_supported(&Some(Vec::new())));
    assert!(!is_iterm_supported(&Some(b"xterm-256color".to_vec())));
    assert!(!is_iterm_supported(&Some(b"iTer".to_vec())));
}

#[test]
fn match_is_case_sensitive() {
    assert!(!is_iterm_supported(&Some(b"ITERM".to_vec())));
    assert!(!is_iterm_supported(&Some(b"iterm".to_vec())));
}

#[test]
fn probe_memoizes_first_answer() {
    // First probe sees an iTerm-style value; a mutated environment afterwards
    // does not change the cached answer.
    let mut caps = Capabilities::new();
    assert!(caps.supports_iterm(&Some(b"iTerm.app".to_vec())));
    assert!(caps.supports_iterm(&Some(b"xterm".to_vec())));
    assert!(caps.supports_iterm(&None));

    // And the same the other way round.
    let mut caps = Capabilities::new();
    assert!(!caps.supports_iterm(&None));
    assert!(!caps.supports_iterm(&Some(b"iTerm.app".to_vec())));
}
