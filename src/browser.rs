//! The provider's authorization URL, which carries the local redirect
//! address, and the console notice that shows it.

use vstd::prelude::*;
use crate::listener::{address_text, LocalAddr};
use crate::text::decimal;

verus! {

/// Builds what is handed to the user's browser.
pub struct Browser;

/// Everything of the authorization URL before the redirect address.
pub open spec fn auth_url_prefix() -> Seq<char> {
    "https://x.cartridge.gg/auth?redirect_url=http://"@
}

/// The authorization URL for a listener bound at `addr`.
pub open spec fn authorization_url_text(addr: LocalAddr) -> Seq<char> {
    auth_url_prefix() + address_text(addr)
}

/// The first line of the notice that shows the authorization URL.
pub open spec fn open_notice_prefix() -> Seq<char> {
    "Your browser has been opened to visit: \n\n    "@
}

pub open spec fn open_notice_text(url: Seq<char>) -> Seq<char> {
    open_notice_prefix() + url + seq!['\n']
}

impl Browser {
    /// The authorization URL that redirects back to the listener at `addr`.
    pub fn authorization_url(addr: &LocalAddr) -> (r: String)
        ensures
            r@ == authorization_url_text(*addr),
    {
        let mut s = String::from_str("https://x.cartridge.gg/auth?redirect_url=http://");
        addr.push_text(&mut s);
        s
    }

    /// The text printed beside the browser launch, so that a user whose
    /// browser did not open can visit `url` by hand.
    pub fn open_notice(url: &str) -> (r: String)
        ensures
            r@ == open_notice_text(url@),
    {
        let mut s = String::from_str("Your browser has been opened to visit: \n\n    ");
        s.append(url);
        crate::text::push_char(&mut s, '\n');
        s
    }
}

/// The authorization URL ends with a colon and the exact port of the
/// listener, in decimal.
pub proof fn lemma_url_carries_port(addr: LocalAddr)
    ensures
        ({
            let url = authorization_url_text(addr);
            let p = decimal(addr.port as nat);
            &&& url.len() > p.len()
            &&& url.subrange(url.len() - p.len(), url.len() as int) == p
            &&& url[url.len() - p.len() - 1] == ':'
        }),
{
    let url = authorization_url_text(addr);
    let p = decimal(addr.port as nat);
    let head = decimal(addr.ip@[0] as nat) + seq!['.'] + decimal(addr.ip@[1] as nat) + seq!['.']
        + decimal(addr.ip@[2] as nat) + seq!['.'] + decimal(addr.ip@[3] as nat) + seq![':'];
    assert(address_text(addr) == head + p);
    assert(url =~= (auth_url_prefix() + head) + p);
    assert(url.subrange(url.len() - p.len(), url.len() as int) =~= p);
    assert(url[url.len() - p.len() - 1] == head[head.len() - 1]);
}

} // verus!
