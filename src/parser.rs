//! The line parser: one raw protocol line to a structured message.

use vstd::prelude::*;
use crate::tags::{keys_unique, pairs_view, parse_tags, segment_map, tag_map};
use crate::text::{
    char_from, chars_of, equals_str, lemma_char_from_bounds, lemma_skip_ws_bounds, next_segment, skip_ws,
    string_of, sub_chars,
};

verus! {

/// The command token of a line.
#[derive(Debug, PartialEq, Eq, Clone)]
pub enum Command {
    PrivMsg,
    UserNotice,
    Ping,
    Pong,
    Other(String),
}

/// One parsed protocol line.
#[derive(Debug, PartialEq, Eq, Clone)]
pub struct IrcMessage {
    /// The line as it was received.
    pub raw: String,
    /// Tag keys and values; no key occurs twice.
    pub tags: Vec<(String, String)>,
    /// The sender, without its leading `:`.
    pub prefix: Option<String>,
    pub command: Option<Command>,
    /// The parameters in order; a trailing `:` parameter without its `:`.
    pub params: Vec<String>,
}

/// `c` is the command that the token `tok` names.
pub open spec fn names(c: Command, tok: Seq<char>) -> bool {
    match c {
        Command::PrivMsg => tok == "PRIVMSG"@,
        Command::UserNotice => tok == "USERNOTICE"@,
        Command::Ping => tok == "PING"@,
        Command::Pong => tok == "PONG"@,
        Command::Other(s) => s@ == tok && tok != "PRIVMSG"@ && tok != "USERNOTICE"@ && tok
            != "PING"@ && tok != "PONG"@,
    }
}

/// The four command tokens that have variants of their own differ.
pub proof fn lemma_tokens_distinct()
    ensures
        "PRIVMSG"@ != "USERNOTICE"@,
        "PRIVMSG"@ != "PING"@,
        "PRIVMSG"@ != "PONG"@,
        "USERNOTICE"@ != "PING"@,
        "USERNOTICE"@ != "PONG"@,
        "PING"@ != "PONG"@,
{
    reveal_strlit("PRIVMSG");
    reveal_strlit("USERNOTICE");
    reveal_strlit("PING");
    reveal_strlit("PONG");
    assert("PRIVMSG"@.len() == 7);
    assert("USERNOTICE"@.len() == 10);
    assert("PING"@.len() == 4);
    assert("PONG"@.len() == 4);
    assert("PING"@[1] != "PONG"@[1]);
}

/// An optional string as an optional sequence of chars.
pub open spec fn opt_view(o: Option<String>) -> Option<Seq<char>> {
    match o {
        Some(s) => Some(s@),
        None => None,
    }
}

impl IrcMessage {
    /// The tag pairs as sequences of chars.
    pub open spec fn tag_pairs(&self) -> Seq<(Seq<char>, Seq<char>)> {
        pairs_view(self.tags@)
    }

    /// The tag mapping.
    pub open spec fn tag_view(&self) -> Map<Seq<char>, Seq<char>> {
        tag_map(self.tag_pairs())
    }

    /// The parameters as sequences of chars.
    pub open spec fn param_view(&self) -> Seq<Seq<char>> {
        self.params@.map_values(|p: String| p@)
    }

    /// Tag keys are unique.
    pub open spec fn wf(&self) -> bool {
        keys_unique(self.tag_pairs())
    }
}

/// The line starts with a tags segment.
pub open spec fn has_tags(s: Seq<char>) -> bool {
    s.len() > 0 && s[0] == '@'
}

/// Where the tags segment ends: the space after it.
pub open spec fn tags_end(s: Seq<char>) -> int {
    char_from(s, ' ', 1)
}

/// Where the text after the tags segment and its whitespace starts.
pub open spec fn prefix_start(s: Seq<char>) -> int {
    if has_tags(s) {
        skip_ws(s, tags_end(s) + 1)
    } else {
        0
    }
}

/// A sender prefix follows.
pub open spec fn has_prefix(s: Seq<char>) -> bool {
    prefix_start(s) < s.len() && s[prefix_start(s)] == ':'
}

/// Where the prefix ends: the space after it.
pub open spec fn prefix_end(s: Seq<char>) -> int {
    char_from(s, ' ', prefix_start(s) + 1)
}

/// Where the command token starts.
pub open spec fn command_start(s: Seq<char>) -> int {
    if has_prefix(s) {
        skip_ws(s, prefix_end(s) + 1)
    } else {
        prefix_start(s)
    }
}

/// Where the command token ends: the next space, or the end of the line.
pub open spec fn command_end(s: Seq<char>) -> int {
    char_from(s, ' ', command_start(s))
}

/// The line yields a message: a tags segment or a prefix is followed by a
/// space, and a command token follows them.
pub open spec fn parses(s: Seq<char>) -> bool {
    &&& has_tags(s) ==> tags_end(s) < s.len()
    &&& has_prefix(s) ==> prefix_end(s) < s.len()
    &&& command_start(s) < s.len()
}

/// The tag mapping of a line; empty without a tags segment.
pub open spec fn line_tags(s: Seq<char>) -> Map<Seq<char>, Seq<char>> {
    if has_tags(s) {
        segment_map(s.subrange(1, tags_end(s)))
    } else {
        Map::empty()
    }
}

/// The sender prefix of a line, without its `:`.
pub open spec fn line_prefix(s: Seq<char>) -> Option<Seq<char>> {
    if has_prefix(s) {
        Some(s.subrange(prefix_start(s) + 1, prefix_end(s)))
    } else {
        None
    }
}

/// The command token of a line.
pub open spec fn line_command(s: Seq<char>) -> Seq<char> {
    s.subrange(command_start(s), command_end(s))
}

/// The parameters from position `i` on: space-separated tokens, until a token
/// that starts with `:` takes the rest of the line.
pub open spec fn params_from(s: Seq<char>, i: nat) -> Seq<Seq<char>>
    decreases s.len() - i,
{
    if i >= s.len() {
        seq![]
    } else if s[i as int] == ':' {
        seq![s.subrange(i + 1 as int, s.len() as int)]
    } else {
        let sp = char_from(s, ' ', i as int);
        if sp >= s.len() {
            seq![s.subrange(i as int, s.len() as int)]
        } else {
            proof {
                lemma_char_from_bounds(s, ' ', i as int);
                lemma_skip_ws_bounds(s, sp + 1);
            }
            seq![s.subrange(i as int, sp)] + params_from(s, skip_ws(s, sp + 1) as nat)
        }
    }
}

/// The parameters of a line.
pub open spec fn line_params(s: Seq<char>) -> Seq<Seq<char>> {
    if command_end(s) < s.len() {
        params_from(s, skip_ws(s, command_end(s) + 1) as nat)
    } else {
        seq![]
    }
}

/// The command that a token names; an unknown token is kept as it is.
pub fn get_command(tok: &String) -> (r: Command)
    ensures
        names(r, tok@),
{
    if equals_str(tok, "PRIVMSG") {
        Command::PrivMsg
    } else if equals_str(tok, "USERNOTICE") {
        Command::UserNotice
    } else if equals_str(tok, "PING") {
        Command::Ping
    } else if equals_str(tok, "PONG") {
        Command::Pong
    } else {
        Command::Other(tok.clone())
    }
}

/// The parameters of `v` from position `i` on.
fn parse_params(v: &Vec<char>, i: usize) -> (r: Vec<String>)
    requires
        i <= v.len(),
    ensures
        r@.map_values(|p: String| p@) == params_from(v@, i as nat),
{
    let n = v.len();
    let mut out: Vec<String> = Vec::new();
    let mut p: usize = i;
    assert(out@.map_values(|q: String| q@) + params_from(v@, p as nat) == params_from(
        v@,
        i as nat,
    ));
    while p < n
        invariant
            n == v.len(),
            p <= n,
            out@.map_values(|q: String| q@) + params_from(v@, p as nat) == params_from(
                v@,
                i as nat,
            ),
        decreases n - p,
    {
        let ghost before = out@;
        if v[p] == ':' {
            out.push(string_of(v, p + 1, n));
            p = n;
        } else {
            match next_segment(v, p) {
                None => {
                    out.push(string_of(v, p, n));
                    p = n;
                },
                Some((end, rest)) => {
                    out.push(string_of(v, p, end));
                    p = rest;
                },
            }
        }
        assert(out@.map_values(|q: String| q@) == before.map_values(|q: String| q@).push(
            out@.last()@,
        ));
    }
    assert(params_from(v@, p as nat) == Seq::<Seq<char>>::empty());
    assert(out@.map_values(|q: String| q@) == out@.map_values(|q: String| q@) + params_from(
        v@,
        p as nat,
    ));
    out
}

/// Parses one protocol line (without its line terminator):
/// `[@tags ][:prefix ]COMMAND[ params][ :trailing]`.
///
/// Returns `None` when no command token can be read: the line is empty, or
/// holds nothing but whitespace after its tags and prefix, or a tags segment
/// or prefix is not followed by a space.
pub fn parse(line: &str) -> (r: Option<IrcMessage>)
    ensures
        r is Some <==> parses(line@),
        r matches Some(m) ==> {
            &&& m.wf()
            &&& m.raw@ == line@
            &&& m.tag_view() == line_tags(line@)
            &&& opt_view(m.prefix) == line_prefix(line@)
            &&& m.command matches Some(c) && names(c, line_command(line@))
            &&& m.param_view() == line_params(line@)
        },
{
    let v = chars_of(line);
    let n = v.len();
    let ghost s = line@;
    let mut tags: Vec<(String, String)> = Vec::new();
    let mut pos: usize = 0;
    assert(tag_map(pairs_view(tags@)) =~= Map::empty());
    if n > 0 && v[0] == '@' {
        match next_segment(&v, 1) {
            None => {
                return None;
            },
            Some((end, rest)) => {
                let seg = sub_chars(&v, 1, end);
                tags = parse_tags(&seg);
                pos = rest;
            },
        }
    }
    assert(pos == prefix_start(s));
    let mut prefix: Option<String> = None;
    if pos < n && v[pos] == ':' {
        match next_segment(&v, pos + 1) {
            None => {
                return None;
            },
            Some((end, rest)) => {
                prefix = Some(string_of(&v, pos + 1, end));
                pos = rest;
            },
        }
    }
    assert(pos == command_start(s));
    if pos >= n {
        return None;
    }
    let (command, params) = match next_segment(&v, pos) {
        None => {
            let command = get_command(&string_of(&v, pos, n));
            let params: Vec<String> = Vec::new();
            assert(params@.map_values(|p: String| p@) =~= Seq::<Seq<char>>::empty());
            (command, params)
        },
        Some((end, rest)) => (get_command(&string_of(&v, pos, end)), parse_params(&v, rest)),
    };
    Some(IrcMessage { raw: line.to_owned(), tags, prefix, command: Some(command), params })
}


/// A line without a leading `@` has an empty tag mapping, and its lack of
/// tags never makes it fail: it parses exactly when a prefix, if any, is
/// followed by a space and a command token follows.
pub proof fn lemma_no_tags_line(s: Seq<char>)
    requires
        !has_tags(s),
    ensures
        line_tags(s) == Map::<Seq<char>, Seq<char>>::empty(),
        parses(s) <==> ((has_prefix(s) ==> prefix_end(s) < s.len()) && command_start(s) < s.len()),
{
}

/// A trailing `:` parameter is kept whole, spaces and all: after a command
/// token `c`, the line `c :t` has the single parameter `t`.
pub proof fn lemma_trailing_param_kept(c: Seq<char>, t: Seq<char>)
    requires
        c.len() > 0,
        c[0] != '@',
        c[0] != ':',
        forall|i: int| 0 <= i < c.len() ==> c[i] != ' ',
    ensures
        parses(c + seq![' ', ':'] + t),
        line_command(c + seq![' ', ':'] + t) == c,
        line_params(c + seq![' ', ':'] + t) == seq![t],
{
    let s = c + seq![' ', ':'] + t;
    let n = c.len() as int;
    assert(s[0] == c[0]);
    assert(command_start(s) == 0);
    lemma_char_from_bounds(s, ' ', 0);
    assert(s[n] == ' ');
    if char_from(s, ' ', 0) < n {
        assert(s[char_from(s, ' ', 0)] == c[char_from(s, ' ', 0)]);
    }
    assert(command_end(s) == n);
    assert(s.subrange(0, n) == c);
    assert(s[n + 1] == ':');
    assert(skip_ws(s, n + 1) == n + 1);
    assert(s.subrange(n + 2, s.len() as int) == t);
}

} // verus!
