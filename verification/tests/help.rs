use kerbridge_client::{help_url_for, HELP_URL};

/// The language is whatever the host is set to, so assert the shape around it rather
/// than the tag.
#[test]
fn help_url_carries_the_platform_and_keeps_the_fragment_last() {
    for lang in ["en", "pt-BR"] {
        let url = help_url_for(HELP_URL, "win", lang);
        assert!(url.starts_with("https://help.kerbridge.org?lang="), "{url}");
        assert!(url.ends_with("&os=win"), "{url}");

        // A deployment's own page may already carry a query, and a fragment has to stay
        // at the end or it swallows the parameters.
        let url = help_url_for("https://it.example.site/help?topic=drives#ntlm", "mac", lang);
        assert!(url.starts_with("https://it.example.site/help?topic=drives&lang="), "{url}");
        assert!(url.ends_with("&os=mac#ntlm"), "{url}");
    }
}

#[test]
fn an_empty_fragment_is_dropped() {
    assert_eq!(help_url_for("https://h/#", "win", "fi"), "https://h/?lang=fi&os=win");
    assert_eq!(help_url_for("https://h/#a#b", "win", "fi"), "https://h/?lang=fi&os=win#a#b");
}
