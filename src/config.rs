//! Connection settings and the lines that log in with them.

use vstd::prelude::*;
use crate::text::{chars_of, push_char};

verus! {

/// Channel, user name and token of a chat session.
#[derive(Debug, Clone)]
pub struct Config {
    pub debug: bool,
    pub channel: String,
    pub username: String,
    pub token: String,
}

/// `a` followed by `b`.
fn joined(a: &str, b: &str) -> (r: String)
    ensures
        r@ == a@ + b@,
{
    let mut s = a.to_owned();
    let v = chars_of(b);
    let mut k: usize = 0;
    while k < v.len()
        invariant
            k <= v.len(),
            v@ == b@,
            s@ == a@ + b@.take(k as int),
        decreases v.len() - k,
    {
        push_char(&mut s, v[k]);
        assert(b@.take(k + 1) == b@.take(k as int).push(v@[k as int]));
        k = k + 1;
    }
    assert(b@.take(k as int) == b@);
    s
}

/// The capability request sent first on every connection.
pub open spec fn spec_cap_request() -> Seq<char> {
    "CAP REQ :twitch.tv/tags twitch.tv/commands twitch.tv/membership"@
}

impl Config {
    pub fn new(debug: bool, channel: &str, username: &str, token: &str) -> (r: Self)
        ensures
            r.debug == debug,
            r.channel@ == channel@,
            r.username@ == username@,
            r.token@ == token@,
    {
        Config {
            debug,
            channel: channel.to_owned(),
            username: username.to_owned(),
            token: token.to_owned(),
        }
    }

    /// The lines that log in and join the channel, in the order they are
    /// sent: capability request, `PASS`, `NICK`, `JOIN #channel`.
    pub fn login_lines(&self) -> (r: Vec<String>)
        ensures
            r@.map_values(|l: String| l@) == seq![
                spec_cap_request(),
                "PASS "@ + self.token@,
                "NICK "@ + self.username@,
                "JOIN #"@ + self.channel@,
            ],
    {
        let mut out: Vec<String> = Vec::new();
        out.push("CAP REQ :twitch.tv/tags twitch.tv/commands twitch.tv/membership".to_owned());
        out.push(joined("PASS ", self.token.as_str()));
        out.push(joined("NICK ", self.username.as_str()));
        out.push(joined("JOIN #", self.channel.as_str()));
        assert(out@.map_values(|l: String| l@) =~= seq![
            spec_cap_request(),
            "PASS "@ + self.token@,
            "NICK "@ + self.username@,
            "JOIN #"@ + self.channel@,
        ]);
        out
    }
}

} // verus!
