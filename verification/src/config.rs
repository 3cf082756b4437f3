//! The fixed configuration of a session: the browser's startup flags, the
//! address of the one page, and the expression that prepares the namespace.
use vstd::prelude::*;

verus! {

/// Number of startup flags handed to the browser.
pub const FLAG_COUNT: usize = 35;

/// The startup flags, in the order in which the browser receives them.
pub open spec fn launch_flags_spec() -> Seq<Seq<char>> {
    seq![
        "--autoplay-policy=user-gesture-required"@,
        "--disable-background-networking"@,
        "--disable-background-timer-throttling"@,
        "--disable-backgrounding-occluded-windows"@,
        "--disable-breakpad"@,
        "--disable-client-side-phishing-detection"@,
        "--disable-component-update"@,
        "--disable-default-apps"@,
        "--disable-dev-shm-usage"@,
        "--disable-domain-reliability"@,
        "--disable-extensions"@,
        "--disable-features=AudioServiceOutOfProcess"@,
        "--disable-hang-monitor"@,
        "--disable-ipc-flooding-protection"@,
        "--disable-notifications"@,
        "--disable-offer-store-unmasked-wallet-cards"@,
        "--disable-popup-blocking"@,
        "--disable-print-preview"@,
        "--disable-prompt-on-repost"@,
        "--disable-renderer-backgrounding"@,
        "--disable-setuid-sandbox"@,
        "--disable-speech-api"@,
        "--disable-sync"@,
        "--hide-scrollbars"@,
        "--ignore-gpu-blacklist"@,
        "--metrics-recording-only"@,
        "--mute-audio"@,
        "--no-default-browser-check"@,
        "--no-first-run"@,
        "--no-pings"@,
        "--no-sandbox"@,
        "--no-zygote"@,
        "--password-store=basic"@,
        "--use-gl=swiftshader"@,
        "--use-mock-keychain"@,
    ]
}

/// The address of the page that a session opens.
pub open spec fn target_url_spec() -> Seq<char> {
    "http://www.haxball.com/headless"@
}

/// The expression that installs an empty, writable namespace object in the
/// page's global scope.
pub open spec fn namespace_bootstrap_spec() -> Seq<char> {
    "window.exports = {}"@
}

/// The view of a list of strings: the text of each, in order.
pub open spec fn texts(v: Seq<String>) -> Seq<Seq<char>> {
    v.map_values(|s: String| s@)
}

/// The startup flag at position `i`.
fn launch_flag(i: usize) -> (flag: &'static str)
    requires
        i < FLAG_COUNT,
    ensures
        flag@ == launch_flags_spec()[i as int],
{
    if i == 0 {
        "--autoplay-policy=user-gesture-required"
    } else if i == 1 {
        "--disable-background-networking"
    } else if i == 2 {
        "--disable-background-timer-throttling"
    } else if i == 3 {
        "--disable-backgrounding-occluded-windows"
    } else if i == 4 {
        "--disable-breakpad"
    } else if i == 5 {
        "--disable-client-side-phishing-detection"
    } else if i == 6 {
        "--disable-component-update"
    } else if i == 7 {
        "--disable-default-apps"
    } else if i == 8 {
        "--disable-dev-shm-usage"
    } else if i == 9 {
        "--disable-domain-reliability"
    } else if i == 10 {
        "--disable-extensions"
    } else if i == 11 {
        "--disable-features=AudioServiceOutOfProcess"
    } else if i == 12 {
        "--disable-hang-monitor"
    } else if i == 13 {
        "--disable-ipc-flooding-protection"
    } else if i == 14 {
        "--disable-notifications"
    } else if i == 15 {
        "--disable-offer-store-unmasked-wallet-cards"
    } else if i == 16 {
        "--disable-popup-blocking"
    } else if i == 17 {
        "--disable-print-preview"
    } else if i == 18 {
        "--disable-prompt-on-repost"
    } else if i == 19 {
        "--disable-renderer-backgrounding"
    } else if i == 20 {
        "--disable-setuid-sandbox"
    } else if i == 21 {
        "--disable-speech-api"
    } else if i == 22 {
        "--disable-sync"
    } else if i == 23 {
        "--hide-scrollbars"
    } else if i == 24 {
        "--ignore-gpu-blacklist"
    } else if i == 25 {
        "--metrics-recording-only"
    } else if i == 26 {
        "--mute-audio"
    } else if i == 27 {
        "--no-default-browser-check"
    } else if i == 28 {
        "--no-first-run"
    } else if i == 29 {
        "--no-pings"
    } else if i == 30 {
        "--no-sandbox"
    } else if i == 31 {
        "--no-zygote"
    } else if i == 32 {
        "--password-store=basic"
    } else if i == 33 {
        "--use-gl=swiftshader"
    } else {
        "--use-mock-keychain"
    }
}

/// All startup flags, in order. The list depends on nothing: every session
/// launches its browser with exactly these tokens.
pub fn launch_flags() -> (flags: Vec<String>)
    ensures
        texts(flags@) == launch_flags_spec(),
        flags@.len() == FLAG_COUNT,
{
    let mut flags: Vec<String> = Vec::new();
    let mut i: usize = 0;
    while i < FLAG_COUNT
        invariant
            i <= FLAG_COUNT,
            launch_flags_spec().len() == FLAG_COUNT,
            flags@.len() == i,
            forall|k: int| 0 <= k < i ==> (#[trigger] flags@[k])@ == launch_flags_spec()[k],
        decreases FLAG_COUNT - i,
    {
        flags.push(launch_flag(i).to_owned());
        i += 1;
    }
    assert(texts(flags@) =~= launch_flags_spec());
    flags
}

/// The address of the page that a session opens.
pub fn target_url() -> (url: String)
    ensures
        url@ == target_url_spec(),
{
    "http://www.haxball.com/headless".to_owned()
}

/// The expression evaluated in the page before the script, so that the script
/// finds an empty object to put its exports in.
pub fn namespace_bootstrap() -> (source: String)
    ensures
        source@ == namespace_bootstrap_spec(),
{
    "window.exports = {}".to_owned()
}

} // verus!
