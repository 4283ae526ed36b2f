use linnote::config::{app_user_agent, Platform};

#[test]
fn user_agent_per_platform() {
    assert_eq!(
        app_user_agent(Platform::Linux),
        "Mozilla/5.0 (X11; Linux x86_64) AppleWebKit/537.36 (KHTML, like Gecko) Chrome/124.0.0.0 Safari/537.36"
    );
    assert_eq!(
        app_user_agent(Platform::Windows),
        "Mozilla/5.0 (Windows NT 10.0; Win64; x64) AppleWebKit/537.36 (KHTML, like Gecko) Chrome/124.0.0.0 Safari/537.36"
    );
    assert_eq!(
        app_user_agent(Platform::MacOs),
        "Mozilla/5.0 (Macintosh; Intel Mac OS X 10_15_7) AppleWebKit/537.36 (KHTML, like Gecko) Chrome/124.0.0.0 Safari/537.36"
    );
}
