//! The wire format of the protocol's structured-text messages.
//!
//! Every message body the core reads is a flat JSON object whose values are
//! strings — the server-to-client streaming message `{ text?, error? }` and
//! the REST transcription response `{ text }`. This module gives that shape a
//! mathematical grammar ([`spec_object`]) and a parser proved to implement
//! it. A body outside the shape (a non-object, a non-string value, an
//! unsupported escape) parses to nothing and is treated by the callers as an
//! unrecognized message.

use vstd::prelude::*;

verus! {

/// JSON insignificant whitespace.
pub open spec fn is_json_ws(c: char) -> bool {
    c == ' ' || c == '\t' || c == '\n' || c == '\r'
}

/// The index of the first non-whitespace character at or after `i`.
pub open spec fn spec_skip_ws(s: Seq<char>, i: int) -> int
    decreases s.len() - i,
{
    if 0 <= i < s.len() && is_json_ws(s[i]) {
        spec_skip_ws(s, i + 1)
    } else {
        i
    }
}

/// The character an escape sequence `\c` stands for; nothing for an escape
/// the wire shape does not use (including `\u`).
pub open spec fn spec_unescape(c: char) -> Option<char> {
    if c == '"' {
        Some('"')
    } else if c == '\\' {
        Some('\\')
    } else if c == '/' {
        Some('/')
    } else if c == 'n' {
        Some('\n')
    } else if c == 't' {
        Some('\t')
    } else if c == 'r' {
        Some('\r')
    } else if c == 'b' {
        Some('\u{0008}')
    } else if c == 'f' {
        Some('\u{000C}')
    } else {
        None
    }
}

/// Parse the body of a quoted string whose opening quote stands just before
/// `i`: the decoded content, and the index after the closing quote.
pub open spec fn spec_string_body(s: Seq<char>, i: int) -> Option<(Seq<char>, int)>
    decreases s.len() - i,
{
    if i < 0 || i >= s.len() {
        None
    } else if s[i] == '"' {
        Some((Seq::empty(), i + 1))
    } else if s[i] == '\\' {
        if i + 1 >= s.len() {
            None
        } else {
            match spec_unescape(s[i + 1]) {
                None => None,
                Some(c) => match spec_string_body(s, i + 2) {
                    None => None,
                    Some((rest, j)) => Some((seq![c] + rest, j)),
                },
            }
        }
    } else {
        match spec_string_body(s, i + 1) {
            None => None,
            Some((rest, j)) => Some((seq![s[i]] + rest, j)),
        }
    }
}

/// Parse the members of an object from the opening quote of a key at `i` up
/// to and including the closing brace: the key/value pairs in order, and the
/// index after the brace.
pub open spec fn spec_members(s: Seq<char>, i: int) -> Option<(Seq<(Seq<char>, Seq<char>)>, int)>
    decreases s.len() - i,
{
    if i < 0 || i >= s.len() || s[i] != '"' {
        None
    } else {
        match spec_string_body(s, i + 1) {
            None => None,
            Some((key, j)) => {
                let k = spec_skip_ws(s, j);
                if k >= s.len() || s[k] != ':' {
                    None
                } else {
                    let v = spec_skip_ws(s, k + 1);
                    if v >= s.len() || s[v] != '"' {
                        None
                    } else {
                        match spec_string_body(s, v + 1) {
                            None => None,
                            Some((val, w)) => {
                                let t = spec_skip_ws(s, w);
                                if t >= s.len() {
                                    None
                                } else if s[t] == '}' {
                                    Some((seq![(key, val)], t + 1))
                                } else if s[t] == ',' {
                                    let u = spec_skip_ws(s, t + 1);
                                    if u <= i || u > s.len() {
                                        None
                                    } else {
                                        match spec_members(s, u) {
                                            None => None,
                                            Some((rest, z)) => Some((seq![(key, val)] + rest, z)),
                                        }
                                    }
                                } else {
                                    None
                                }
                            },
                        }
                    }
                }
            },
        }
    }
}

/// The grammar of a whole message body: one object of string-valued fields,
/// surrounded by nothing but whitespace. The parsed result is the member list
/// in order of appearance.
pub open spec fn spec_object(s: Seq<char>) -> Option<Seq<(Seq<char>, Seq<char>)>> {
    let i = spec_skip_ws(s, 0);
    if i >= s.len() || s[i] != '{' {
        None
    } else {
        let j = spec_skip_ws(s, i + 1);
        if j < s.len() && s[j] == '}' {
            if spec_skip_ws(s, j + 1) == s.len() {
                Some(Seq::empty())
            } else {
                None
            }
        } else {
            match spec_members(s, j) {
                None => None,
                Some((mems, k)) => if spec_skip_ws(s, k) == s.len() {
                    Some(mems)
                } else {
                    None
                },
            }
        }
    }
}

/// The value of the first member named `name`, if any.
pub open spec fn spec_field(mems: Seq<(Seq<char>, Seq<char>)>, name: Seq<char>) -> Option<
    Seq<char>,
>
    decreases mems.len(),
{
    if mems.len() == 0 {
        None
    } else if mems.first().0 == name {
        Some(mems.first().1)
    } else {
        spec_field(mems.drop_first(), name)
    }
}

/// The `text` field of a server message body, when the body fits the wire
/// shape and carries one.
pub open spec fn spec_message_text(s: Seq<char>) -> Option<Seq<char>> {
    match spec_object(s) {
        None => None,
        Some(m) => spec_field(m, "text"@),
    }
}

/// The `error` field of a server message body, when the body fits the wire
/// shape and carries one. Its presence is terminal and authoritative.
pub open spec fn spec_message_error(s: Seq<char>) -> Option<Seq<char>> {
    match spec_object(s) {
        None => None,
        Some(m) => spec_field(m, "error"@),
    }
}

/// The member list of an executable parse, viewed mathematically.
pub open spec fn spec_members_view(m: Seq<(String, String)>) -> Seq<(Seq<char>, Seq<char>)> {
    m.map_values(|p: (String, String)| (p.0@, p.1@))
}

/// An `Option<String>` viewed as an optional character sequence.
pub open spec fn option_str_view(o: Option<String>) -> Option<Seq<char>> {
    match o {
        Option::None => None,
        Option::Some(x) => Some(x@),
    }
}

/// Relies on `String::push` from std: appends exactly the one character.
#[verifier::external_body]
fn push_char(s: &mut String, c: char)
    ensures
        final(s)@ == old(s)@.push(c),
{
    s.push(c);
}

fn char_string(c: char) -> (r: String)
    ensures
        r@ == seq![c],
{
    let mut s = String::new();
    push_char(&mut s, c);
    proof {
        assert(s@ =~= seq![c]);
    }
    s
}

fn skip_ws(s: &str, i: usize) -> (r: usize)
    requires
        i <= s@.len(),
    ensures
        r == spec_skip_ws(s@, i as int),
        i <= r <= s@.len(),
    decreases s@.len() - i,
{
    if i < s.unicode_len() {
        let c = s.get_char(i);
        if c == ' ' || c == '\t' || c == '\n' || c == '\r' {
            skip_ws(s, i + 1)
        } else {
            i
        }
    } else {
        i
    }
}

fn unescape_char(c: char) -> (r: Option<char>)
    ensures
        r == spec_unescape(c),
{
    if c == '"' {
        Some('"')
    } else if c == '\\' {
        Some('\\')
    } else if c == '/' {
        Some('/')
    } else if c == 'n' {
        Some('\n')
    } else if c == 't' {
        Some('\t')
    } else if c == 'r' {
        Some('\r')
    } else if c == 'b' {
        Some('\u{0008}')
    } else if c == 'f' {
        Some('\u{000C}')
    } else {
        None
    }
}

fn parse_string_body(s: &str, i: usize) -> (r: Option<(String, usize)>)
    requires
        i <= s@.len(),
    ensures
        match r {
            Option::None => spec_string_body(s@, i as int) is None,
            Option::Some(p) => spec_string_body(s@, i as int) == Some((p.0@, p.1 as int)) && i
                < p.1 <= s@.len(),
        },
    decreases s@.len() - i,
{
    if i >= s.unicode_len() {
        return None;
    }
    let c = s.get_char(i);
    if c == '"' {
        Some((String::new(), i + 1))
    } else if c == '\\' {
        if i + 1 >= s.unicode_len() {
            return None;
        }
        let e = s.get_char(i + 1);
        match unescape_char(e) {
            None => None,
            Some(u) => match parse_string_body(s, i + 2) {
                None => None,
                Some((rest, j)) => {
                    let mut out = char_string(u);
                    out.append(rest.as_str());
                    proof {
                        assert(out@ =~= seq![u] + rest@);
                    }
                    Some((out, j))
                },
            },
        }
    } else {
        match parse_string_body(s, i + 1) {
            None => None,
            Some((rest, j)) => {
                let mut out = char_string(c);
                out.append(rest.as_str());
                proof {
                    assert(out@ =~= seq![c] + rest@);
                }
                Some((out, j))
            },
        }
    }
}

fn parse_members(s: &str, i: usize) -> (r: Option<(Vec<(String, String)>, usize)>)
    requires
        i <= s@.len(),
    ensures
        match r {
            Option::None => spec_members(s@, i as int) is None,
            Option::Some(p) => spec_members(s@, i as int) == Some(
                (spec_members_view(p.0@), p.1 as int),
            ) && p.1 <= s@.len(),
        },
    decreases s@.len() - i,
{
    if i >= s.unicode_len() {
        return None;
    }
    if s.get_char(i) != '"' {
        return None;
    }
    match parse_string_body(s, i + 1) {
        None => None,
        Some((key, j)) => {
            let k: usize = skip_ws(s, j);
            if k >= s.unicode_len() {
                return None;
            }
            if s.get_char(k) != ':' {
                return None;
            }
            let v: usize = skip_ws(s, k + 1);
            if v >= s.unicode_len() {
                return None;
            }
            if s.get_char(v) != '"' {
                return None;
            }
            match parse_string_body(s, v + 1) {
                None => None,
                Some((val, w)) => {
                    let t: usize = skip_ws(s, w);
                    if t >= s.unicode_len() {
                        return None;
                    }
                    let tc = s.get_char(t);
                    if tc == '}' {
                        let mut mems: Vec<(String, String)> = Vec::new();
                        mems.push((key, val));
                        proof {
                            assert(spec_members_view(mems@) =~= seq![(key@, val@)]);
                        }
                        Some((mems, t + 1))
                    } else if tc == ',' {
                        let u: usize = skip_ws(s, t + 1);
                        if u <= i {
                            return None;
                        }
                        match parse_members(s, u) {
                            None => None,
                            Some((rest, z)) => {
                                let mut mems: Vec<(String, String)> = Vec::new();
                                mems.push((key, val));
                                let mut tail = rest;
                                mems.append(&mut tail);
                                proof {
                                    assert(spec_members_view(mems@) =~= seq![(key@, val@)]
                                        + spec_members_view(mems@.drop_first()));
                                }
                                Some((mems, z))
                            },
                        }
                    } else {
                        None
                    }
                },
            }
        },
    }
}

/// Parse a whole message body against the wire shape.
pub fn parse_object(s: &str) -> (r: Option<Vec<(String, String)>>)
    ensures
        match r {
            Option::None => spec_object(s@) is None,
            Option::Some(mems) => spec_object(s@) == Some(spec_members_view(mems@)),
        },
{
    let i: usize = skip_ws(s, 0);
    if i >= s.unicode_len() {
        return None;
    }
    if s.get_char(i) != '{' {
        return None;
    }
    let j: usize = skip_ws(s, i + 1);
    if j < s.unicode_len() && s.get_char(j) == '}' {
        if skip_ws(s, j + 1) == s.unicode_len() {
            let mems: Vec<(String, String)> = Vec::new();
            proof {
                assert(spec_members_view(mems@) =~= Seq::<(Seq<char>, Seq<char>)>::empty());
            }
            Some(mems)
        } else {
            None
        }
    } else {
        match parse_members(s, j) {
            None => None,
            Some((mems, k)) => {
                if skip_ws(s, k) == s.unicode_len() {
                    Some(mems)
                } else {
                    None
                }
            },
        }
    }
}

fn find_field_from(mems: &Vec<(String, String)>, name: &String, i: usize) -> (r: Option<String>)
    requires
        i <= mems@.len(),
    ensures
        option_str_view(r) == spec_field(spec_members_view(mems@).skip(i as int), name@),
    decreases mems@.len() - i,
{
    if i >= mems.len() {
        None
    } else {
        proof {
            assert(spec_members_view(mems@).skip(i as int).first() == (mems@[i as int].0@, mems@[
                i as int].1@));
            assert(spec_members_view(mems@).skip(i as int).drop_first() =~= spec_members_view(
                mems@,
            ).skip(i as int + 1));
        }
        if mems[i].0 == *name {
            Some(mems[i].1.clone())
        } else {
            find_field_from(mems, name, i + 1)
        }
    }
}

/// The value of the first member named `name`, if any.
pub fn find_field(mems: &Vec<(String, String)>, name: &String) -> (r: Option<String>)
    ensures
        option_str_view(r) == spec_field(spec_members_view(mems@), name@),
{
    proof {
        assert(spec_members_view(mems@).skip(0) =~= spec_members_view(mems@));
    }
    find_field_from(mems, name, 0)
}

/// One server-to-client streaming message, as far as the core reads it:
/// an optional text fragment and an optional, terminal error.
pub struct ServerMessage {
    pub text: Option<String>,
    pub error: Option<String>,
}

/// Read the `text` and `error` fields out of one received message body.
/// A body outside the wire shape yields neither, and the caller skips it.
pub fn parse_server_message(s: &str) -> (m: ServerMessage)
    ensures
        option_str_view(m.text) == spec_message_text(s@),
        option_str_view(m.error) == spec_message_error(s@),
{
    match parse_object(s) {
        None => ServerMessage { text: None, error: None },
        Some(mems) => {
            let text = find_field(&mems, &String::from_str("text"));
            let error = find_field(&mems, &String::from_str("error"));
            ServerMessage { text, error }
        },
    }
}

} // verus!
