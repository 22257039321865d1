//! The address of the ephemeral callback listener.

use vstd::prelude::*;
use crate::error::AuthError;
use crate::text::{decimal, is_ascii_digit, lemma_decimal_digits, push_char, push_decimal};

verus! {

/// An IPv4 socket address: four octets and a port.
#[derive(Clone, Copy, Debug)]
pub struct LocalAddr {
    pub ip: [u8; 4],
    pub port: u16,
}

/// `a.b.c.d:port`, each number in decimal.
pub open spec fn address_text(addr: LocalAddr) -> Seq<char> {
    decimal(addr.ip@[0] as nat) + seq!['.'] + decimal(addr.ip@[1] as nat) + seq!['.']
        + decimal(addr.ip@[2] as nat) + seq!['.'] + decimal(addr.ip@[3] as nat) + seq![':']
        + decimal(addr.port as nat)
}

/// A character that may stand in the value of a URL query parameter as it
/// is, with no percent-encoding: unreserved characters and the sub-delimiters
/// that do not separate parameters.
pub open spec fn is_query_value_char(c: char) -> bool {
    ('a' <= c && c <= 'z') || ('A' <= c && c <= 'Z') || is_ascii_digit(c) || c == '-' || c
        == '.' || c == '_' || c == '~' || c == ':' || c == '@' || c == '/' || c == '?' || c == '!'
        || c == '$' || c == '\'' || c == '(' || c == ')' || c == '*' || c == ',' || c == ';'
}

pub open spec fn all_query_value_chars(s: Seq<char>) -> bool {
    forall|i: int| 0 <= i < s.len() ==> is_query_value_char(#[trigger] s[i])
}

proof fn lemma_concat_query_value_chars(a: Seq<char>, b: Seq<char>)
    requires
        all_query_value_chars(a),
        all_query_value_chars(b),
    ensures
        all_query_value_chars(a + b),
{
    assert forall|i: int| 0 <= i < (a + b).len() implies is_query_value_char(#[trigger] (a
        + b)[i]) by {
        if i < a.len() {
            assert((a + b)[i] == a[i]);
        } else {
            assert((a + b)[i] == b[i - a.len()]);
        }
    }
}

proof fn lemma_decimal_query_value_chars(n: nat)
    ensures
        all_query_value_chars(decimal(n)),
{
    lemma_decimal_digits(n);
}

/// The text of a bound address needs no percent-encoding to stand as a query
/// parameter value: it is made of digits, dots and one colon.
pub proof fn lemma_address_text_needs_no_escaping(addr: LocalAddr)
    ensures
        all_query_value_chars(address_text(addr)),
{
    let dot = seq!['.'];
    let colon = seq![':'];
    assert(all_query_value_chars(dot));
    assert(all_query_value_chars(colon));
    lemma_decimal_query_value_chars(addr.ip@[0] as nat);
    lemma_decimal_query_value_chars(addr.ip@[1] as nat);
    lemma_decimal_query_value_chars(addr.ip@[2] as nat);
    lemma_decimal_query_value_chars(addr.ip@[3] as nat);
    lemma_decimal_query_value_chars(addr.port as nat);
    let s1 = decimal(addr.ip@[0] as nat) + dot;
    lemma_concat_query_value_chars(decimal(addr.ip@[0] as nat), dot);
    let s2 = s1 + decimal(addr.ip@[1] as nat);
    lemma_concat_query_value_chars(s1, decimal(addr.ip@[1] as nat));
    let s3 = s2 + dot;
    lemma_concat_query_value_chars(s2, dot);
    let s4 = s3 + decimal(addr.ip@[2] as nat);
    lemma_concat_query_value_chars(s3, decimal(addr.ip@[2] as nat));
    let s5 = s4 + dot;
    lemma_concat_query_value_chars(s4, dot);
    let s6 = s5 + decimal(addr.ip@[3] as nat);
    lemma_concat_query_value_chars(s5, decimal(addr.ip@[3] as nat));
    let s7 = s6 + colon;
    lemma_concat_query_value_chars(s6, colon);
    lemma_concat_query_value_chars(s7, decimal(addr.port as nat));
}

impl LocalAddr {
    /// The address the listener binds to: the wildcard interface with port
    /// zero, which asks the operating system to pick a free port.
    pub fn bind_target() -> (r: LocalAddr)
        ensures
            r.ip@ == seq![0u8, 0u8, 0u8, 0u8],
            r.port == 0,
    {
        let r = LocalAddr { ip: [0u8, 0u8, 0u8, 0u8], port: 0 };
        assert(r.ip@ =~= seq![0u8, 0u8, 0u8, 0u8]);
        r
    }

    /// Accepts the address that a bind reported, which is in use only where
    /// an ephemeral port was actually assigned.
    pub fn bound(ip: [u8; 4], port: u16) -> (r: Result<LocalAddr, AuthError>)
        ensures
            port != 0 <==> r is Ok,
            r is Ok ==> r->Ok_0 == (LocalAddr { ip, port }),
            r is Err ==> r->Err_0 is BindFailure,
    {
        if port == 0 {
            Err(AuthError::BindFailure { message: String::from_str("no port was assigned") })
        } else {
            Ok(LocalAddr { ip, port })
        }
    }

    /// The address as `a.b.c.d:port`.
    pub fn to_text(&self) -> (r: String)
        ensures
            r@ == address_text(*self),
    {
        let mut s = String::new();
        self.push_text(&mut s);
        assert(s@ =~= address_text(*self));
        s
    }

    /// Appends the address as `a.b.c.d:port` to `s`.
    pub fn push_text(&self, s: &mut String)
        ensures
            final(s)@ == old(s)@ + address_text(*self),
    {
        push_decimal(s, self.ip[0] as u64);
        push_char(s, '.');
        push_decimal(s, self.ip[1] as u64);
        push_char(s, '.');
        push_decimal(s, self.ip[2] as u64);
        push_char(s, '.');
        push_decimal(s, self.ip[3] as u64);
        push_char(s, ':');
        push_decimal(s, self.port as u64);
        assert(final(s)@ =~= old(s)@ + address_text(*self));
    }
}

} // verus!
