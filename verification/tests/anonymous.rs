use std::time::Duration;

use fedora::AnonymousSessionBuilder;

#[test]
fn anonymous_defaults() {
    let settings = AnonymousSessionBuilder::new().build();
    assert_eq!(settings.timeout, Duration::from_secs(30));
    assert_eq!(settings.user_agent, "fedora-rs v2.1.2");
    assert_eq!(settings.accept, "application/json");
    assert!(!settings.follow_redirects);
}

#[test]
fn anonymous_overrides() {
    let settings = AnonymousSessionBuilder::new()
        .timeout(Duration::from_secs(120))
        .user_agent("rustdoc")
        .build();
    assert_eq!(settings.timeout, Duration::from_secs(120));
    assert_eq!(settings.user_agent, "rustdoc");
    assert_eq!(settings.accept, "application/json");
}

#[test]
fn anonymous_builder_keeps_the_other_override() {
    let builder = AnonymousSessionBuilder::new().user_agent("agent").timeout(Duration::from_secs(5));
    assert_eq!(builder.user_agent, Some("agent"));
    assert_eq!(builder.timeout, Some(Duration::from_secs(5)));
}
