//! How the HTTP clients are to be set up. The library makes no request; its
//! owner builds a client from one of these profiles.

use crate::catalog::MediaKind;
use crate::text::option_text;
use vstd::prelude::*;
use vstd::string::*;

verus! {

/// The settings of an HTTP client.
#[derive(Debug)]
pub struct ClientProfile {
    /// The `User-Agent` header.
    pub user_agent: String,
    /// The `Accept` header, if one is sent.
    pub accept: Option<String>,
    /// The `Accept-Language` header, if one is sent.
    pub accept_language: Option<String>,
    /// The `Referer` header, if one is sent.
    pub referer: Option<String>,
    /// Whether the client follows redirections by itself.
    pub follow_redirects: bool,
    /// Whether certificates that do not validate are accepted.
    pub accept_invalid_certs: bool,
    /// The time that a whole request may take, in seconds.
    pub timeout_secs: u64,
    /// The time that connecting may take, in seconds.
    pub connect_timeout_secs: u64,
}

/// A [`ClientProfile`] as mathematical values.
pub struct ClientProfileView {
    pub user_agent: Seq<char>,
    pub accept: Option<Seq<char>>,
    pub accept_language: Option<Seq<char>>,
    pub referer: Option<Seq<char>>,
    pub follow_redirects: bool,
    pub accept_invalid_certs: bool,
    pub timeout_secs: u64,
    pub connect_timeout_secs: u64,
}

impl View for ClientProfile {
    type V = ClientProfileView;

    open spec fn view(&self) -> ClientProfileView {
        ClientProfileView {
            user_agent: self.user_agent@,
            accept: option_text(self.accept),
            accept_language: option_text(self.accept_language),
            referer: option_text(self.referer),
            follow_redirects: self.follow_redirects,
            accept_invalid_certs: self.accept_invalid_certs,
            timeout_secs: self.timeout_secs,
            connect_timeout_secs: self.connect_timeout_secs,
        }
    }
}

/// The `User-Agent` that every client sends.
pub open spec fn browser_user_agent() -> Seq<char> {
    "Mozilla/5.0 (Windows NT 10.0; Win64; x64) AppleWebKit/537.36 Chrome/120.0.0.0"@
}

/// The client that asks endpoints and origins: it follows no redirection,
/// accepts any certificate, takes 10 seconds to connect and 30 in all.
pub open spec fn resolver_profile() -> ClientProfileView {
    ClientProfileView {
        user_agent: browser_user_agent(),
        accept: Some("application/json"@),
        accept_language: Some("zh-CN,zh;q=0.9"@),
        referer: None,
        follow_redirects: false,
        accept_invalid_certs: true,
        timeout_secs: 30,
        connect_timeout_secs: 10,
    }
}

/// The client that downloads media of the given kind: it follows no
/// redirection by itself and accepts any certificate; for a video it sends a
/// `Referer` and takes 15 seconds to connect and 60 in all, for an image 10
/// and 30.
pub open spec fn download_profile(kind: MediaKind) -> ClientProfileView {
    ClientProfileView {
        user_agent: browser_user_agent(),
        accept: None,
        accept_language: None,
        referer: match kind {
            MediaKind::Video => Some("https://api.tzjsy.cn/"@),
            MediaKind::Image => None,
        },
        follow_redirects: false,
        accept_invalid_certs: true,
        timeout_secs: match kind {
            MediaKind::Video => 60,
            MediaKind::Image => 30,
        },
        connect_timeout_secs: match kind {
            MediaKind::Video => 15,
            MediaKind::Image => 10,
        },
    }
}

fn user_agent() -> (text: String)
    ensures
        text@ == browser_user_agent(),
{
    String::from_str(
        "Mozilla/5.0 (Windows NT 10.0; Win64; x64) AppleWebKit/537.36 Chrome/120.0.0.0",
    )
}

/// The settings of the client that asks endpoints and origins.
pub fn build_client() -> (profile: ClientProfile)
    ensures
        profile@ == resolver_profile(),
{
    ClientProfile {
        user_agent: user_agent(),
        accept: Some(String::from_str("application/json")),
        accept_language: Some(String::from_str("zh-CN,zh;q=0.9")),
        referer: None,
        follow_redirects: false,
        accept_invalid_certs: true,
        timeout_secs: 30,
        connect_timeout_secs: 10,
    }
}

/// The settings of the client that downloads media of the given kind.
pub fn build_download_client(kind: MediaKind) -> (profile: ClientProfile)
    ensures
        profile@ == download_profile(kind),
{
    match kind {
        MediaKind::Video => ClientProfile {
            user_agent: user_agent(),
            accept: None,
            accept_language: None,
            referer: Some(String::from_str("https://api.tzjsy.cn/")),
            follow_redirects: false,
            accept_invalid_certs: true,
            timeout_secs: 60,
            connect_timeout_secs: 15,
        },
        MediaKind::Image => ClientProfile {
            user_agent: user_agent(),
            accept: None,
            accept_language: None,
            referer: None,
            follow_redirects: false,
            accept_invalid_certs: true,
            timeout_secs: 30,
            connect_timeout_secs: 10,
        },
    }
}

} // verus!
