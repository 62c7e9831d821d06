use vstd::prelude::*;
use vstd::string::StringExecFns;

use crate::models::{PasswordToken, PasswordTokenView, SignUpToken, SignUpTokenView};
use crate::text::{push_char, str_chars};

verus! {

/// The lower-case hexadecimal digit character for `n`, which must be below
/// sixteen.
pub open spec fn hex_digit(n: nat) -> char {
    if n == 0 {
        '0'
    } else if n == 1 {
        '1'
    } else if n == 2 {
        '2'
    } else if n == 3 {
        '3'
    } else if n == 4 {
        '4'
    } else if n == 5 {
        '5'
    } else if n == 6 {
        '6'
    } else if n == 7 {
        '7'
    } else if n == 8 {
        '8'
    } else if n == 9 {
        '9'
    } else if n == 10 {
        'a'
    } else if n == 11 {
        'b'
    } else if n == 12 {
        'c'
    } else if n == 13 {
        'd'
    } else if n == 14 {
        'e'
    } else {
        'f'
    }
}

/// How one character appears inside a JSON string literal: quote and
/// backslash get a backslash escape, the common control characters get their
/// short escapes, the remaining control characters a `\u00..` escape, and
/// every other character stands as itself.
pub open spec fn json_escape_char(c: char) -> Seq<char> {
    if c == '"' {
        seq!['\\', '"']
    } else if c == '\\' {
        seq!['\\', '\\']
    } else if c == '\n' {
        seq!['\\', 'n']
    } else if c == '\r' {
        seq!['\\', 'r']
    } else if c == '\t' {
        seq!['\\', 't']
    } else if (c as u32) < 0x20 {
        seq!['\\', 'u', '0', '0', hex_digit((c as u32 / 16) as nat), hex_digit(
            (c as u32 % 16) as nat,
        )]
    } else {
        seq![c]
    }
}

/// The body of a JSON string literal for `s`: each character escaped.
pub open spec fn json_escaped(s: Seq<char>) -> Seq<char>
    decreases s.len(),
{
    if s.len() == 0 {
        Seq::empty()
    } else {
        json_escaped(s.drop_last()) + json_escape_char(s.last())
    }
}

/// The JSON string literal for `s`: the escaped body between quotes.
pub open spec fn json_quoted(s: Seq<char>) -> Seq<char> {
    seq!['"'] + json_escaped(s) + seq!['"']
}

/// The JSON object for a sign-up token, fields in declaration order, as
/// `serde_json` would lay it out.
pub open spec fn sign_up_token_json(t: SignUpTokenView) -> Seq<char> {
    "{\"pin\":"@ + json_quoted(t.pin) + ",\"name\":"@ + json_quoted(t.name) + ",\"email\":"@
        + json_quoted(t.email) + ",\"password\":"@ + json_quoted(t.password) + ",\"avatar_url\":"@
        + (match t.avatar_url {
        Some(u) => json_quoted(u),
        None => "null"@,
    }) + "}"@
}

/// The JSON object for a password token, fields in declaration order, as
/// `serde_json` would lay it out.
pub open spec fn password_token_json(t: PasswordTokenView) -> Seq<char> {
    "{\"id\":"@ + json_quoted(t.id) + ",\"password\":"@ + json_quoted(t.password) + "}"@
}

fn hex_digit_exec(n: u32) -> (c: char)
    requires
        n < 16,
    ensures
        c == hex_digit(n as nat),
{
    if n == 0 {
        '0'
    } else if n == 1 {
        '1'
    } else if n == 2 {
        '2'
    } else if n == 3 {
        '3'
    } else if n == 4 {
        '4'
    } else if n == 5 {
        '5'
    } else if n == 6 {
        '6'
    } else if n == 7 {
        '7'
    } else if n == 8 {
        '8'
    } else if n == 9 {
        '9'
    } else if n == 10 {
        'a'
    } else if n == 11 {
        'b'
    } else if n == 12 {
        'c'
    } else if n == 13 {
        'd'
    } else if n == 14 {
        'e'
    } else {
        'f'
    }
}

fn append_escaped_char(out: &mut String, c: char)
    ensures
        final(out)@ == old(out)@ + json_escape_char(c),
{
    if c == '"' {
        push_char(out, '\\');
        push_char(out, '"');
    } else if c == '\\' {
        push_char(out, '\\');
        push_char(out, '\\');
    } else if c == '\n' {
        push_char(out, '\\');
        push_char(out, 'n');
    } else if c == '\r' {
        push_char(out, '\\');
        push_char(out, 'r');
    } else if c == '\t' {
        push_char(out, '\\');
        push_char(out, 't');
    } else if (c as u32) < 0x20 {
        push_char(out, '\\');
        push_char(out, 'u');
        push_char(out, '0');
        push_char(out, '0');
        push_char(out, hex_digit_exec((c as u32) / 16));
        push_char(out, hex_digit_exec((c as u32) % 16));
    } else {
        push_char(out, c);
    }
    proof {
        assert(final(out)@ =~= old(out)@ + json_escape_char(c));
    }
}

proof fn lemma_json_escaped_step(s: Seq<char>, i: int)
    requires
        0 <= i < s.len(),
    ensures
        json_escaped(s.take(i + 1)) == json_escaped(s.take(i)) + json_escape_char(s[i]),
{
    assert(s.take(i + 1).drop_last() =~= s.take(i));
    assert(s.take(i + 1).last() == s[i]);
}

/// Appends the JSON string literal for `s` to `out`.
fn append_json_quoted(out: &mut String, s: &str)
    ensures
        final(out)@ == old(out)@ + json_quoted(s@),
{
    let ghost out0 = out@;
    push_char(out, '"');
    let cs = str_chars(s);
    let mut i: usize = 0;
    while i < cs.len()
        invariant
            cs@ == s@,
            i <= cs.len(),
            out@ == out0 + seq!['"'] + json_escaped(s@.take(i as int)),
        decreases cs.len() - i,
    {
        append_escaped_char(out, cs[i]);
        proof {
            lemma_json_escaped_step(s@, i as int);
        }
        i = i + 1;
    }
    proof {
        assert(s@.take(cs.len() as int) =~= s@);
    }
    push_char(out, '"');
    proof {
        assert(final(out)@ =~= old(out)@ + json_quoted(s@));
    }
}

/// Serializes a sign-up token to its JSON text.
pub fn serialize_sign_up_token(t: &SignUpToken) -> (r: String)
    ensures
        r@ == sign_up_token_json(t@),
{
    let mut out = String::new();
    out.append("{\"pin\":");
    append_json_quoted(&mut out, t.pin.as_str());
    out.append(",\"name\":");
    append_json_quoted(&mut out, t.name.as_str());
    out.append(",\"email\":");
    append_json_quoted(&mut out, t.email.as_str());
    out.append(",\"password\":");
    append_json_quoted(&mut out, t.password.as_str());
    out.append(",\"avatar_url\":");
    match &t.avatar_url {
        Some(u) => append_json_quoted(&mut out, u.as_str()),
        None => out.append("null"),
    }
    out.append("}");
    proof {
        assert(out@ =~= sign_up_token_json(t@));
    }
    out
}

/// Serializes a password token to its JSON text.
pub fn serialize_password_token(t: &PasswordToken) -> (r: String)
    ensures
        r@ == password_token_json(t@),
{
    let mut out = String::new();
    out.append("{\"id\":");
    append_json_quoted(&mut out, t.id.as_str());
    out.append(",\"password\":");
    append_json_quoted(&mut out, t.password.as_str());
    out.append("}");
    proof {
        assert(out@ =~= password_token_json(t@));
    }
    out
}

} // verus!
