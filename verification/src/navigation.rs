//! The web view's navigation policy: only the app's own pages and the local
//! server load inside the window; other web links go to the system browser;
//! every other kind of address is refused.

use vstd::prelude::*;
use crate::text::str_eq;

verus! {

/// The parts of a requested URL that the policy reads.
pub struct NavigationTarget {
    /// The URL's scheme, lower-case as URL parsing leaves it.
    pub scheme: String,
    /// The URL's host, if it has one.
    pub host: Option<String>,
}

/// What becomes of a navigation request.
#[derive(Clone, Copy, Debug, PartialEq, Eq, Structural)]
pub enum Navigation {
    /// Load it in the web view.
    Allow,
    /// Keep the web view where it is and open the URL in the system browser.
    OpenExternal,
    /// Keep the web view where it is.
    Deny,
}

/// Hosts whose pages may load in the web view.
pub open spec fn is_local_host(host: Seq<char>) -> bool {
    host == "127.0.0.1"@ || host == "localhost"@ || host == "ipc.localhost"@
}

/// The policy: the `tauri` scheme loads; `http` and `https` load when the host
/// (empty if absent) is local and open externally otherwise; nothing else loads.
pub open spec fn navigation_of(scheme: Seq<char>, host: Option<Seq<char>>) -> Navigation {
    if scheme == "tauri"@ {
        Navigation::Allow
    } else if scheme == "http"@ || scheme == "https"@ {
        let h = match host {
            Some(h) => h,
            None => ""@,
        };
        if is_local_host(h) {
            Navigation::Allow
        } else {
            Navigation::OpenExternal
        }
    } else {
        Navigation::Deny
    }
}

pub open spec fn host_view(host: Option<String>) -> Option<Seq<char>> {
    match host {
        Some(h) => Some(h@),
        None => None,
    }
}

impl Navigation {
    /// Whether the web view may go to the URL.
    pub fn permits(&self) -> (r: bool)
        ensures
            r == (*self == Navigation::Allow),
    {
        match self {
            Navigation::Allow => true,
            _ => false,
        }
    }
}

/// Decides a navigation request.
pub fn handle_navigation(target: &NavigationTarget) -> (r: Navigation)
    ensures
        r == navigation_of(target.scheme@, host_view(target.host)),
{
    let scheme = target.scheme.as_str();
    if str_eq(scheme, "tauri") {
        return Navigation::Allow;
    }
    if str_eq(scheme, "http") || str_eq(scheme, "https") {
        let host: &str = match &target.host {
            Some(h) => h.as_str(),
            None => "",
        };
        if str_eq(host, "127.0.0.1") || str_eq(host, "localhost") || str_eq(host, "ipc.localhost") {
            return Navigation::Allow;
        }
        return Navigation::OpenExternal;
    }
    Navigation::Deny
}

/// Deny by default: a navigation loads in the web view only for the app's
/// own scheme or a web page on a local host; only web pages are ever handed
/// to the system browser; any other scheme is refused.
pub proof fn lemma_navigation_policy(scheme: Seq<char>, host: Option<Seq<char>>)
    ensures
        navigation_of(scheme, host) == Navigation::Allow ==> scheme == "tauri"@ || ((scheme
            == "http"@ || scheme == "https"@) && host is Some && is_local_host(host->0)),
        navigation_of(scheme, host) == Navigation::OpenExternal ==> (scheme == "http"@ || scheme
            == "https"@),
        !(scheme == "tauri"@ || scheme == "http"@ || scheme == "https"@) ==> navigation_of(
            scheme,
            host,
        ) == Navigation::Deny,
{
    reveal_strlit("");
    reveal_strlit("127.0.0.1");
    reveal_strlit("localhost");
    reveal_strlit("ipc.localhost");
    assert(""@.len() == 0);
    assert("localhost"@.len() == 9);
    assert("127.0.0.1"@.len() == 9);
    assert("ipc.localhost"@.len() == 13);
}

} // verus!
