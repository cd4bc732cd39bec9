//! Verified JSON encoding for the request bodies the client sends: string
//! escaping as serde_json writes it, and the three fixed object shapes.

use vstd::prelude::*;

use crate::strutil::push_char;

verus! {

/// The lowercase hex digit for `d`.
pub open spec fn hex_char(d: nat) -> char {
    if d == 0 {
        '0'
    } else if d == 1 {
        '1'
    } else if d == 2 {
        '2'
    } else if d == 3 {
        '3'
    } else if d == 4 {
        '4'
    } else if d == 5 {
        '5'
    } else if d == 6 {
        '6'
    } else if d == 7 {
        '7'
    } else if d == 8 {
        '8'
    } else if d == 9 {
        '9'
    } else if d == 10 {
        'a'
    } else if d == 11 {
        'b'
    } else if d == 12 {
        'c'
    } else if d == 13 {
        'd'
    } else if d == 14 {
        'e'
    } else {
        'f'
    }
}

/// How one character is written inside a JSON string literal.
pub open spec fn jesc_char(c: char) -> Seq<char> {
    if c == '"' {
        seq!['\\', '"']
    } else if c == '\\' {
        seq!['\\', '\\']
    } else if c == '\n' {
        seq!['\\', 'n']
    } else if c == '\r' {
        seq!['\\', 'r']
    } else if c == '\t' {
        seq!['\\', 't']
    } else if c == '\u{8}' {
        seq!['\\', 'b']
    } else if c == '\u{c}' {
        seq!['\\', 'f']
    } else if (c as u32) < 32 {
        seq!['\\', 'u', '0', '0', hex_char((c as u32 / 16) as nat), hex_char(
            (c as u32 % 16) as nat,
        )]
    } else {
        seq![c]
    }
}

/// The escaped body of a JSON string literal.
pub open spec fn jesc(s: Seq<char>) -> Seq<char>
    decreases s.len(),
{
    if s.len() == 0 {
        Seq::empty()
    } else {
        jesc_char(s[0]) + jesc(s.drop_first())
    }
}

/// JSON escaping distributes over concatenation.
pub proof fn lemma_jesc_concat(a: Seq<char>, b: Seq<char>)
    ensures
        jesc(a + b) == jesc(a) + jesc(b),
    decreases a.len(),
{
    if a.len() == 0 {
        assert(a + b =~= b);
        assert(jesc(a) + jesc(b) =~= jesc(b));
    } else {
        assert((a + b)[0] == a[0]);
        assert((a + b).drop_first() =~= a.drop_first() + b);
        lemma_jesc_concat(a.drop_first(), b);
        assert(jesc(a + b) =~= jesc(a) + jesc(b));
    }
}

/// A whole JSON string literal, quotes included.
pub open spec fn json_string(s: Seq<char>) -> Seq<char> {
    seq!['"'] + jesc(s) + seq!['"']
}

fn hex_char_exec(d: u32) -> (c: char)
    requires
        d < 16,
    ensures
        c == hex_char(d as nat),
{
    if d == 0 {
        '0'
    } else if d == 1 {
        '1'
    } else if d == 2 {
        '2'
    } else if d == 3 {
        '3'
    } else if d == 4 {
        '4'
    } else if d == 5 {
        '5'
    } else if d == 6 {
        '6'
    } else if d == 7 {
        '7'
    } else if d == 8 {
        '8'
    } else if d == 9 {
        '9'
    } else if d == 10 {
        'a'
    } else if d == 11 {
        'b'
    } else if d == 12 {
        'c'
    } else if d == 13 {
        'd'
    } else if d == 14 {
        'e'
    } else {
        'f'
    }
}

/// Writes `s` as a JSON string literal, with serde_json's escaping.
pub fn json_quote(s: &str) -> (r: String)
    ensures
        r@ == json_string(s@),
{
    let len = s.unicode_len();
    let mut out = String::from_str("\"");
    let mut i: usize = 0;
    proof {
        reveal_strlit("\"");
        assert(s@.take(0) =~= Seq::<char>::empty());
        assert(out@ =~= seq!['"'] + jesc(s@.take(0)));
    }
    while i < len
        invariant
            i <= len,
            len == s@.len(),
            out@ == seq!['"'] + jesc(s@.take(i as int)),
        decreases len - i,
    {
        let c = s.get_char(i);
        if c == '"' {
            push_char(&mut out, '\\');
            push_char(&mut out, '"');
        } else if c == '\\' {
            push_char(&mut out, '\\');
            push_char(&mut out, '\\');
        } else if c == '\n' {
            push_char(&mut out, '\\');
            push_char(&mut out, 'n');
        } else if c == '\r' {
            push_char(&mut out, '\\');
            push_char(&mut out, 'r');
        } else if c == '\t' {
            push_char(&mut out, '\\');
            push_char(&mut out, 't');
        } else if c == '\u{8}' {
            push_char(&mut out, '\\');
            push_char(&mut out, 'b');
        } else if c == '\u{c}' {
            push_char(&mut out, '\\');
            push_char(&mut out, 'f');
        } else if (c as u32) < 32 {
            push_char(&mut out, '\\');
            push_char(&mut out, 'u');
            push_char(&mut out, '0');
            push_char(&mut out, '0');
            push_char(&mut out, hex_char_exec(c as u32 / 16));
            push_char(&mut out, hex_char_exec(c as u32 % 16));
        } else {
            push_char(&mut out, c);
        }
        proof {
            let t = s@.take(i as int);
            let u = seq![s@[i as int]];
            assert(s@.take(i + 1) =~= t + u);
            lemma_jesc_concat(t, u);
            assert(u.drop_first() =~= Seq::<char>::empty());
            assert(jesc(Seq::<char>::empty()) =~= Seq::<char>::empty());
            assert(jesc(u) =~= jesc_char(s@[i as int]));
            assert(out@ =~= seq!['"'] + (jesc(t) + jesc(u)));
        }
        i += 1;
    }
    out.append("\"");
    proof {
        reveal_strlit("\"");
        assert(s@.take(len as int) =~= s@);
        assert(out@ =~= json_string(s@));
    }
    out
}

/// The registration request body: the password is duplicated into the
/// confirmation field, which exists purely as a backend contract artifact.
pub open spec fn register_body_spec(
    email: Seq<char>,
    password: Seq<char>,
    name: Seq<char>,
) -> Seq<char> {
    "{\"email\":"@ + json_string(email) + ",\"password\":"@ + json_string(password)
        + ",\"passwordConfirm\":"@ + json_string(password) + ",\"name\":"@ + json_string(name)
        + "}"@
}

/// Builds the registration request body.
pub fn register_body(email: &str, password: &str, name: &str) -> (r: String)
    ensures
        r@ == register_body_spec(email@, password@, name@),
{
    let mut out = String::from_str("{\"email\":");
    out.append(json_quote(email).as_str());
    out.append(",\"password\":");
    out.append(json_quote(password).as_str());
    out.append(",\"passwordConfirm\":");
    out.append(json_quote(password).as_str());
    out.append(",\"name\":");
    out.append(json_quote(name).as_str());
    out.append("}");
    proof {
        assert(out@ =~= register_body_spec(email@, password@, name@));
    }
    out
}

/// The authentication request body.
pub open spec fn login_body_spec(identity: Seq<char>, password: Seq<char>) -> Seq<char> {
    "{\"identity\":"@ + json_string(identity) + ",\"password\":"@ + json_string(password) + "}"@
}

/// Builds the authentication request body.
pub fn login_body(identity: &str, password: &str) -> (r: String)
    ensures
        r@ == login_body_spec(identity@, password@),
{
    let mut out = String::from_str("{\"identity\":");
    out.append(json_quote(identity).as_str());
    out.append(",\"password\":");
    out.append(json_quote(password).as_str());
    out.append("}");
    proof {
        assert(out@ =~= login_body_spec(identity@, password@));
    }
    out
}

/// The create-snippet request body.
pub open spec fn snippet_body_spec(
    title: Seq<char>,
    code: Seq<char>,
    language: Seq<char>,
    description: Seq<char>,
    visibility: Seq<char>,
    author: Seq<char>,
) -> Seq<char> {
    "{\"title\":"@ + json_string(title) + ",\"code\":"@ + json_string(code) + ",\"language\":"@
        + json_string(language) + ",\"description\":"@ + json_string(description)
        + ",\"visibility\":"@ + json_string(visibility) + ",\"author\":"@ + json_string(author)
        + "}"@
}

/// Builds the create-snippet request body.
pub fn snippet_body(
    title: &str,
    code: &str,
    language: &str,
    description: &str,
    visibility: &str,
    author: &str,
) -> (r: String)
    ensures
        r@ == snippet_body_spec(title@, code@, language@, description@, visibility@, author@),
{
    let mut out = String::from_str("{\"title\":");
    out.append(json_quote(title).as_str());
    out.append(",\"code\":");
    out.append(json_quote(code).as_str());
    out.append(",\"language\":");
    out.append(json_quote(language).as_str());
    out.append(",\"description\":");
    out.append(json_quote(description).as_str());
    out.append(",\"visibility\":");
    out.append(json_quote(visibility).as_str());
    out.append(",\"author\":");
    out.append(json_quote(author).as_str());
    out.append("}");
    proof {
        assert(out@ =~= snippet_body_spec(
            title@,
            code@,
            language@,
            description@,
            visibility@,
            author@,
        ));
    }
    out
}

} // verus!
