//! Defaults and tables that every run shares.

use crate::text::str_eq;
use vstd::prelude::*;

verus! {

/// The scopes that are asked for where the operator names none. None of them
/// needs the consent of an administrator.
pub const DEFAULT_SCOPES: &'static str = "openid,profile,email,User.Read,User.ReadBasic.All";

/// The client that signs in where the operator names none.
pub const DEFAULT_CLIENT_ID: &'static str = "27922004-5251-4030-b22d-91ecd9a37ea4";

/// The address to which the provider redirects after the operator has
/// answered an authorization request.
pub const REDIRECT_URI: &'static str = "https://login.microsoftonline.com/common/oauth2/nativeclient";

/// The names of the user agents that can be chosen.
pub const USER_AGENTS_KEYS: [&'static str; 10] = [
    "android",
    "apple_iphone_safari",
    "apple_mac_firefox",
    "linux_firefox",
    "win_chrome_win10",
    "win_ie11_win7",
    "win_ie11_win8",
    "win_ie11_win8.1",
    "win_ie11_win10",
    "win_edge_win10",
];

/// The user agent string that goes by the name `key`.
pub open spec fn user_agent_of(key: Seq<char>) -> Option<Seq<char>> {
    if key == "android"@ {
        Some(
            "Mozilla/5.0 (Linux; Android 12) AppleWebKit/537.36 (KHTML, like Gecko) Chrome/95.0.4638.50 Mobile Safari/537.36"@,
        )
    } else if key == "apple_iphone_safari"@ {
        Some(
            "Mozilla/5.0 (iPhone; CPU iPhone OS 15_1 like Mac OS X) AppleWebKit/605.1.15 (KHTML, like Gecko) Version/15.0 Mobile/15E148 Safari/604.1"@,
        )
    } else if key == "apple_mac_firefox"@ {
        Some(
            "Mozilla/5.0 (Macintosh; Intel Mac OS X 10.15; rv:94.0) Gecko/20100101 Firefox/94.0"@,
        )
    } else if key == "linux_firefox"@ {
        Some("Mozilla/5.0 (X11; Linux i686; rv:94.0) Gecko/20100101 Firefox/94.0"@)
    } else if key == "win_chrome_win10"@ {
        Some(
            "Mozilla/5.0 (Windows NT 10.0; Win64; x64) AppleWebKit/537.36 (KHTML, like Gecko) Chrome/94.0.4606.81 Safari/537.36"@,
        )
    } else if key == "win_ie11_win7"@ {
        Some("Mozilla/5.0 (Windows NT 6.1; Trident/7.0; rv:11.0) like Gecko"@)
    } else if key == "win_ie11_win8"@ {
        Some("Mozilla/5.0 (Windows NT 6.2; Trident/7.0; rv:11.0) like Gecko"@)
    } else if key == "win_ie11_win8.1"@ {
        Some("Mozilla/5.0 (Windows NT 6.3; Trident/7.0; rv:11.0) like Gecko"@)
    } else if key == "win_ie11_win10"@ {
        Some("Mozilla/5.0 (Windows NT 10.0; Trident/7.0; rv:11.0) like Gecko"@)
    } else if key == "win_edge_win10"@ {
        Some(
            "Mozilla/5.0 (Windows NT 10.0; Win64; x64) AppleWebKit/537.36 (KHTML, like Gecko) Chrome/95.0.4638.69 Safari/537.36 Edg/95.0.1020.44"@,
        )
    } else {
        None
    }
}

/// Looks a user agent up by its name.
pub fn user_agent(key: &str) -> (r: Option<&'static str>)
    ensures
        r.deep_view() == user_agent_of(key@),
{
    if str_eq(key, "android") {
        Some(
            "Mozilla/5.0 (Linux; Android 12) AppleWebKit/537.36 (KHTML, like Gecko) Chrome/95.0.4638.50 Mobile Safari/537.36",
        )
    } else if str_eq(key, "apple_iphone_safari") {
        Some(
            "Mozilla/5.0 (iPhone; CPU iPhone OS 15_1 like Mac OS X) AppleWebKit/605.1.15 (KHTML, like Gecko) Version/15.0 Mobile/15E148 Safari/604.1",
        )
    } else if str_eq(key, "apple_mac_firefox") {
        Some("Mozilla/5.0 (Macintosh; Intel Mac OS X 10.15; rv:94.0) Gecko/20100101 Firefox/94.0")
    } else if str_eq(key, "linux_firefox") {
        Some("Mozilla/5.0 (X11; Linux i686; rv:94.0) Gecko/20100101 Firefox/94.0")
    } else if str_eq(key, "win_chrome_win10") {
        Some(
            "Mozilla/5.0 (Windows NT 10.0; Win64; x64) AppleWebKit/537.36 (KHTML, like Gecko) Chrome/94.0.4606.81 Safari/537.36",
        )
    } else if str_eq(key, "win_ie11_win7") {
        Some("Mozilla/5.0 (Windows NT 6.1; Trident/7.0; rv:11.0) like Gecko")
    } else if str_eq(key, "win_ie11_win8") {
        Some("Mozilla/5.0 (Windows NT 6.2; Trident/7.0; rv:11.0) like Gecko")
    } else if str_eq(key, "win_ie11_win8.1") {
        Some("Mozilla/5.0 (Windows NT 6.3; Trident/7.0; rv:11.0) like Gecko")
    } else if str_eq(key, "win_ie11_win10") {
        Some("Mozilla/5.0 (Windows NT 10.0; Trident/7.0; rv:11.0) like Gecko")
    } else if str_eq(key, "win_edge_win10") {
        Some(
            "Mozilla/5.0 (Windows NT 10.0; Win64; x64) AppleWebKit/537.36 (KHTML, like Gecko) Chrome/95.0.4638.69 Safari/537.36 Edg/95.0.1020.44",
        )
    } else {
        None
    }
}

} // verus!
