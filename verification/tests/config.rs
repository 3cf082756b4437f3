use haxir::config::{launch_flags, namespace_bootstrap, target_url, FLAG_COUNT};

fn expected_flags() -> Vec<&'static str> {
    vec![
        "--autoplay-policy=user-gesture-required",
        "--disable-background-networking",
        "--disable-background-timer-throttling",
        "--disable-backgrounding-occluded-windows",
        "--disable-breakpad",
        "--disable-client-side-phishing-detection",
        "--disable-component-update",
        "--disable-default-apps",
        "--disable-dev-shm-usage",
        "--disable-domain-reliability",
        "--disable-extensions",
        "--disable-features=AudioServiceOutOfProcess",
        "--disable-hang-monitor",
        "--disable-ipc-flooding-protection",
        "--disable-notifications",
        "--disable-offer-store-unmasked-wallet-cards",
        "--disable-popup-blocking",
        "--disable-print-preview",
        "--disable-prompt-on-repost",
        "--disable-renderer-backgrounding",
        "--disable-setuid-sandbox",
        "--disable-speech-api",
        "--disable-sync",
        "--hide-scrollbars",
        "--ignore-gpu-blacklist",
        "--metrics-recording-only",
        "--mute-audio",
        "--no-default-browser-check",
        "--no-first-run",
        "--no-pings",
        "--no-sandbox",
        "--no-zygote",
        "--password-store=basic",
        "--use-gl=swiftshader",
        "--use-mock-keychain",
    ]
}

#[test]
fn launch_flags_are_the_fixed_list() {
    let flags = launch_flags();
    let expected: Vec<String> = expected_flags().iter().map(|s| s.to_string()).collect();
    assert_eq!(flags, expected);
}

#[test]
fn launch_flags_count() {
    assert_eq!(FLAG_COUNT, 35);
    assert_eq!(launch_flags().len(), 35);
}

#[test]
fn launch_flags_disable_the_sandbox() {
    let flags = launch_flags();
    assert!(flags.contains(&"--no-sandbox".to_string()));
    assert!(flags.contains(&"--disable-setuid-sandbox".to_string()));
    assert!(flags.contains(&"--no-zygote".to_string()));
}

#[test]
fn launch_flags_by_position() {
    let flags = launch_flags();
    let expected = expected_flags();
    for i in 0..FLAG_COUNT {
        assert_eq!(flags[i], expected[i]);
    }
    assert_eq!(flags[0], "--autoplay-policy=user-gesture-required");
    assert_eq!(flags[30], "--no-sandbox");
    assert_eq!(flags[34], "--use-mock-keychain");
}

#[test]
fn launch_flags_are_the_same_on_every_call() {
    assert_eq!(launch_flags(), launch_flags());
}

#[test]
fn target_url_is_fixed() {
    assert_eq!(target_url(), "http://www.haxball.com/headless");
}

#[test]
fn namespace_bootstrap_creates_an_empty_object() {
    assert_eq!(namespace_bootstrap(), "window.exports = {}");
}
