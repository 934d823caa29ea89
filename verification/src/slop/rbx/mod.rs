//! Boundary for the engine: the few engine symbols that the client calls,
//! with the behaviour they have when no engine is linked.

pub mod analytics;
pub mod http;
pub mod settings;

use vstd::prelude::*;

verus! {

/// How the client was launched.
#[derive(Clone, Copy, Debug, PartialEq, Eq, Structural)]
pub enum LaunchMode {
    Play,
    PlayProtocol,
    App,
}

/// The access that a data model task takes.
#[derive(Clone, Copy, Debug, PartialEq, Eq, Structural)]
pub enum JobAccess {
    Read,
    Write,
    Render,
}

/// The security identity that engine code runs as.
#[derive(Clone, Copy, Debug, PartialEq, Eq, Structural)]
pub enum SecurityIdentity {
    Com,
    RobloxGameScript,
}

/// The engine's GUI service, as the client uses it: showing a message to the
/// user and hearing that the in-game browser closed. Its signals that take
/// callbacks are subscribed by the application around the library.
pub trait GuiService {
    fn set_ui_message(&self, kind: u32, message: &str);

    fn url_window_closed(&self);
}

/// The engine's user input service: whether keyboard and mouse reach the
/// game.
pub trait UserInputService {
    fn set_keyboard_enabled(&self, enabled: bool);

    fn set_mouse_enabled(&self, enabled: bool);
}

/// `::GetBaseURL()`.
pub fn base_url(setting: &settings::BaseUrlSetting) -> (r: String)
    ensures
        r@ == setting.spec_url(),
{
    settings::base_url(setting)
}

/// `::SetBaseURL()`.
pub fn set_base_url(setting: &mut settings::BaseUrlSetting, url: &str)
    ensures
        final(setting).spec_url() == url@,
{
    settings::set_base_url(setting, url)
}

/// The engine's global start-up, which does nothing without an engine.
pub fn game_global_init(studio: bool) {
}

/// The engine's global shutdown, which does nothing without an engine.
pub fn game_global_exit() {
}

/// Whether `prefix` is a prefix of `s`, character by character.
pub fn str_starts_with(s: &str, prefix: &str) -> (r: bool)
    ensures
        r == prefix@.is_prefix_of(s@),
{
    let n = prefix.unicode_len();
    let m = s.unicode_len();
    if n > m {
        return false;
    }
    let mut i: usize = 0;
    while i < n
        invariant
            n == prefix@.len(),
            m == s@.len(),
            n <= m,
            i <= n,
            forall|j: int| 0 <= j < i ==> prefix@[j] == s@[j],
        decreases n - i,
    {
        if prefix.get_char(i) != s.get_char(i) {
            return false;
        }
        i = i + 1;
    }
    true
}

/// Whether `url` names content by URL: it starts with `http://`,
/// `https://` or `rbxasset`.
pub open spec fn is_content_url(url: Seq<char>) -> bool {
    ||| "http://"@.is_prefix_of(url)
    ||| "https://"@.is_prefix_of(url)
    ||| "rbxasset"@.is_prefix_of(url)
}

/// Whether content is named by URL.
pub fn content_is_url(url: &str) -> (r: bool)
    ensures
        r == is_content_url(url@),
{
    str_starts_with(url, "http://") || str_starts_with(url, "https://") || str_starts_with(
        url,
        "rbxasset",
    )
}

/// Sets the folder of local assets, which the inert engine keeps nowhere.
pub fn content_set_asset_folder(folder: &str) {
}

/// Whether the network trusts content from `url`: all content is trusted.
pub fn network_is_trusted_content(url: &str) -> (r: bool)
    ensures
        r,
{
    true
}

/// Content is named by URL exactly when its name starts with `http://`,
/// `https://` or `rbxasset`, whatever follows; a name starting `ftp://` or
/// `http:/` alone is not.
pub proof fn lemma_content_url_prefixes(rest: Seq<char>)
    ensures
        is_content_url(seq!['h', 't', 't', 'p', ':', '/', '/'] + rest),
        is_content_url(seq!['h', 't', 't', 'p', 's', ':', '/', '/'] + rest),
        is_content_url(seq!['r', 'b', 'x', 'a', 's', 's', 'e', 't'] + rest),
        !is_content_url(seq!['f', 't', 'p', ':', '/', '/'] + rest),
        !is_content_url(seq!['h', 't', 't', 'p', ':', '/']),
{
    reveal_strlit("http://");
    reveal_strlit("https://");
    reveal_strlit("rbxasset");
    let h = seq!['h', 't', 't', 'p', ':', '/', '/'] + rest;
    let hs = seq!['h', 't', 't', 'p', 's', ':', '/', '/'] + rest;
    let r = seq!['r', 'b', 'x', 'a', 's', 's', 'e', 't'] + rest;
    let f = seq!['f', 't', 'p', ':', '/', '/'] + rest;
    let short = seq!['h', 't', 't', 'p', ':', '/'];
    assert(h.subrange(0, 7) =~= "http://"@);
    assert(hs.subrange(0, 8) =~= "https://"@);
    assert(r.subrange(0, 8) =~= "rbxasset"@);
    assert(f[0] == 'f');
    assert(!"http://"@.is_prefix_of(f) && !"https://"@.is_prefix_of(f) && !"rbxasset"@.is_prefix_of(f)) by {
        if "http://"@.is_prefix_of(f) { assert(f[0] == "http://"@[0]); }
        if "https://"@.is_prefix_of(f) { assert(f[0] == "https://"@[0]); }
        if "rbxasset"@.is_prefix_of(f) { assert(f[0] == "rbxasset"@[0]); }
    }
    assert(!"http://"@.is_prefix_of(short));
    assert(!"https://"@.is_prefix_of(short));
    assert(!"rbxasset"@.is_prefix_of(short)) by {
        if "rbxasset"@.is_prefix_of(short) { assert(short[0] == "rbxasset"@[0]); }
    }
}

} // verus!
