//! The locally persisted session record and its on-disk codec.
//!
//! A session binds one authenticated identity to one server. It is stored as
//! a key-value text file with one `key=value` line per field; values are
//! escaped so that any string, including one holding newlines or
//! backslashes, survives the round trip. `parse_session` is proved to invert
//! `encode_session` exactly.

use vstd::prelude::*;

use crate::strutil::{eq_str, find_char, push_char};

verus! {

/// One authenticated identity bound to one server.
#[derive(Debug)]
pub struct Session {
    /// The account's login identifier.
    pub email: String,
    /// Opaque bearer credential; empty means "not logged in".
    pub token: String,
    /// Backend-assigned unique identifier of the account.
    pub user_id: String,
    /// Base URL of the backend.
    pub server: String,
}

impl Session {
    /// A session gates publishing only when it carries a token.
    pub fn is_logged_in(&self) -> (r: bool)
        ensures
            r == (self.token@.len() != 0),
    {
        self.token.as_str().unicode_len() != 0
    }
}

/// How one character is written in a stored value.
pub open spec fn esc_char(c: char) -> Seq<char> {
    if c == '\\' {
        seq!['\\', '\\']
    } else if c == '\n' {
        seq!['\\', 'n']
    } else {
        seq![c]
    }
}

/// The escaped form of a stored value.
pub open spec fn esc(s: Seq<char>) -> Seq<char>
    decreases s.len(),
{
    if s.len() == 0 {
        Seq::empty()
    } else {
        esc_char(s[0]) + esc(s.drop_first())
    }
}

/// The inverse reading of an escaped value; total on arbitrary text.
pub open spec fn unesc(s: Seq<char>) -> Seq<char>
    decreases s.len(),
{
    if s.len() == 0 {
        Seq::empty()
    } else if s[0] == '\\' && s.len() >= 2 {
        (if s[1] == 'n' {
            seq!['\n']
        } else {
            seq![s[1]]
        }) + unesc(s.skip(2))
    } else {
        seq![s[0]] + unesc(s.skip(1))
    }
}

/// Escaping distributes over concatenation.
pub proof fn lemma_esc_concat(a: Seq<char>, b: Seq<char>)
    ensures
        esc(a + b) == esc(a) + esc(b),
    decreases a.len(),
{
    if a.len() == 0 {
        assert(a + b =~= b);
        assert(esc(a) + esc(b) =~= esc(b));
    } else {
        assert((a + b)[0] == a[0]);
        assert((a + b).drop_first() =~= a.drop_first() + b);
        lemma_esc_concat(a.drop_first(), b);
        assert(esc(a + b) =~= esc(a) + esc(b));
    }
}

/// An escaped value never holds a raw newline.
pub proof fn lemma_esc_no_newline(s: Seq<char>)
    ensures
        forall|i: int| 0 <= i < esc(s).len() ==> esc(s)[i] != '\n',
    decreases s.len(),
{
    if s.len() != 0 {
        lemma_esc_no_newline(s.drop_first());
        assert(forall|i: int|
            0 <= i < esc(s).len() ==> esc(s)[i] == (esc_char(s[0]) + esc(s.drop_first()))[i]);
    }
}

/// Unescaping inverts escaping: the codec round-trips every value.
pub proof fn lemma_unesc_esc(s: Seq<char>)
    ensures
        unesc(esc(s)) == s,
    decreases s.len(),
{
    if s.len() == 0 {
        assert(unesc(esc(s)) =~= s);
    } else {
        let c = s[0];
        let rest = s.drop_first();
        lemma_unesc_esc(rest);
        let e = esc(s);
        assert(e == esc_char(c) + esc(rest));
        if c == '\\' {
            assert(e[0] == '\\' && e.len() >= 2 && e[1] == '\\');
            assert(e.skip(2) =~= esc(rest));
            assert(unesc(e) =~= seq!['\\'] + rest);
            assert(seq!['\\'] + rest =~= s);
        } else if c == '\n' {
            assert(e[0] == '\\' && e.len() >= 2 && e[1] == 'n');
            assert(e.skip(2) =~= esc(rest));
            assert(unesc(e) =~= seq!['\n'] + rest);
            assert(seq!['\n'] + rest =~= s);
        } else {
            assert(e[0] == c);
            if e.len() >= 2 {
                assert(e[1] == (esc_char(c) + esc(rest))[1]);
            }
            assert(e.skip(1) =~= esc(rest));
            assert(unesc(e) =~= seq![c] + rest);
            assert(seq![c] + rest =~= s);
        }
    }
}

/// Escapes a value for storage.
pub fn esc_str(s: &str) -> (r: String)
    ensures
        r@ == esc(s@),
{
    let len = s.unicode_len();
    let mut out = String::new();
    let mut i: usize = 0;
    proof {
        assert(s@.take(0) =~= Seq::<char>::empty());
    }
    while i < len
        invariant
            i <= len,
            len == s@.len(),
            out@ == esc(s@.take(i as int)),
        decreases len - i,
    {
        let c = s.get_char(i);
        if c == '\\' {
            push_char(&mut out, '\\');
            push_char(&mut out, '\\');
        } else if c == '\n' {
            push_char(&mut out, '\\');
            push_char(&mut out, 'n');
        } else {
            push_char(&mut out, c);
        }
        proof {
            let t = s@.take(i as int);
            let u = seq![s@[i as int]];
            assert(s@.take(i + 1) =~= t + u);
            lemma_esc_concat(t, u);
            assert(u.drop_first() =~= Seq::<char>::empty());
            assert(esc(Seq::<char>::empty()) =~= Seq::<char>::empty());
            assert(esc(u) =~= esc_char(s@[i as int]));
            assert(out@ =~= esc(t) + esc(u));
        }
        i += 1;
    }
    proof {
        assert(s@.take(len as int) =~= s@);
    }
    out
}

/// Reads an escaped value back.
pub fn unesc_str(s: &str) -> (r: String)
    ensures
        r@ == unesc(s@),
{
    let len = s.unicode_len();
    let mut out = String::new();
    let mut i: usize = 0;
    proof {
        assert(s@.skip(0) =~= s@);
    }
    while i < len
        invariant
            i <= len,
            len == s@.len(),
            unesc(s@) == out@ + unesc(s@.skip(i as int)),
        decreases len - i,
    {
        let c = s.get_char(i);
        proof {
            assert(s@.skip(i as int)[0] == c);
        }
        if c == '\\' && i + 1 < len {
            let d = s.get_char(i + 1);
            proof {
                assert(s@.skip(i as int)[1] == d);
                assert(s@.skip(i as int).skip(2) =~= s@.skip(i + 2));
            }
            if d == 'n' {
                push_char(&mut out, '\n');
            } else {
                push_char(&mut out, d);
            }
            i += 2;
        } else {
            proof {
                assert(s@.skip(i as int).len() == len - i);
                if c == '\\' {
                    assert(s@.skip(i as int).len() < 2);
                }
                assert(s@.skip(i as int).skip(1) =~= s@.skip(i + 1));
            }
            push_char(&mut out, c);
            i += 1;
        }
    }
    proof {
        assert(s@.skip(len as int).len() == 0);
        assert(unesc(s@) =~= out@);
    }
    out
}

/// One stored line: `key=escaped-value` and a newline.
pub open spec fn field_line(key: Seq<char>, value: Seq<char>) -> Seq<char> {
    key + seq!['='] + esc(value) + seq!['\n']
}

/// The whole stored file for one session.
pub open spec fn session_encoding(
    email: Seq<char>,
    token: Seq<char>,
    user_id: Seq<char>,
    server: Seq<char>,
) -> Seq<char> {
    field_line("email"@, email) + field_line("token"@, token) + field_line("user_id"@, user_id)
        + field_line("server"@, server)
}

/// Serializes a session to its stored text.
pub fn encode_session(s: &Session) -> (r: String)
    ensures
        r@ == session_encoding(s.email@, s.token@, s.user_id@, s.server@),
{
    let mut out = String::from_str("email=");
    out.append(esc_str(s.email.as_str()).as_str());
    out.append("\ntoken=");
    out.append(esc_str(s.token.as_str()).as_str());
    out.append("\nuser_id=");
    out.append(esc_str(s.user_id.as_str()).as_str());
    out.append("\nserver=");
    out.append(esc_str(s.server.as_str()).as_str());
    out.append("\n");
    proof {
        reveal_strlit("email=");
        reveal_strlit("\ntoken=");
        reveal_strlit("\nuser_id=");
        reveal_strlit("\nserver=");
        reveal_strlit("\n");
        reveal_strlit("email");
        reveal_strlit("token");
        reveal_strlit("user_id");
        reveal_strlit("server");
        assert(out@ =~= session_encoding(s.email@, s.token@, s.user_id@, s.server@));
    }
    out
}

/// The line for `key` and `value` stands in `text` at `pos`.
pub open spec fn line_at(text: Seq<char>, pos: int, key: Seq<char>, value: Seq<char>) -> bool {
    &&& 0 <= pos
    &&& pos + field_line(key, value).len() <= text.len()
    &&& text.subrange(pos, pos + field_line(key, value).len()) == field_line(key, value)
}

/// The text holds no raw newline.
pub open spec fn newline_free(s: Seq<char>) -> bool {
    forall|i: int| 0 <= i < s.len() ==> s[i] != '\n'
}

/// One stored line as it stands in a file: `key=RAW` and a newline, with
/// the raw value segment taken as written.
pub open spec fn raw_line(key: Seq<char>, raw: Seq<char>) -> Seq<char> {
    key + seq!['='] + raw + seq!['\n']
}

/// The text is a well-formed session file whose fields read back as those
/// of `sess`: exactly the four `key=value` lines in order, each field the
/// unescaping of its newline-free raw segment, with nothing after the
/// last newline.
pub open spec fn is_session_file(text: Seq<char>, sess: Session) -> bool {
    exists|a: Seq<char>, b: Seq<char>, c: Seq<char>, d: Seq<char>|
        #![trigger raw_line("email"@, a), raw_line("token"@, b), raw_line("user_id"@, c), raw_line("server"@, d)]
        newline_free(a) && newline_free(b) && newline_free(c) && newline_free(d) && text
            == raw_line("email"@, a) + raw_line("token"@, b) + raw_line("user_id"@, c) + raw_line(
            "server"@,
            d,
        ) && sess.email@ == unesc(a) && sess.token@ == unesc(b) && sess.user_id@ == unesc(c)
            && sess.server@ == unesc(d)
}

/// Parses one `key=value` line at `pos`, returning the value and the
/// position just past the line's newline.
fn parse_field(text: &str, pos: usize, key: &str) -> (r: Option<(String, usize)>)
    requires
        pos <= text@.len(),
    ensures
        r matches Some(p) ==> pos < p.1 <= text@.len(),
        r matches Some(p) ==> pos + key@.len() + 2 <= p.1 && newline_free(
            text@.subrange(pos + key@.len() + 1, p.1 - 1),
        ) && text@.subrange(pos as int, p.1 as int) == raw_line(
            key@,
            text@.subrange(pos + key@.len() + 1, p.1 - 1),
        ) && p.0@ == unesc(text@.subrange(pos + key@.len() + 1, p.1 - 1)),
        forall|v: Seq<char>| #[trigger]
            line_at(text@, pos as int, key@, v) ==> (r matches Some(p) && p.0@ == v && p.1 == pos
                + field_line(key@, v).len()),
{
    let tlen = text.unicode_len();
    let klen = key.unicode_len();
    proof {
        assert forall|v: Seq<char>| #[trigger]
            line_at(text@, pos as int, key@, v) implies tlen - pos >= klen + 2 + esc(v).len()
            && text@.subrange(pos as int, pos + klen) == key@ && text@[pos + klen] == '=' by {
            let fl = field_line(key@, v);
            assert forall|j: int| 0 <= j < fl.len() implies text@[pos + j] == fl[j] by {
                assert(text@.subrange(pos as int, pos + fl.len())[j] == text@[pos + j]);
            }
            assert(text@.subrange(pos as int, pos + klen) =~= key@);
            assert(fl[klen as int] == '=');
        }
    }
    if klen >= tlen - pos {
        // too short for a key, '=', and a newline
        return None;
    }
    let head = text.substring_char(pos, pos + klen);
    if !eq_str(head, key) {
        return None;
    }
    if text.get_char(pos + klen) != '=' {
        return None;
    }
    let vstart = pos + klen + 1;
    match find_char(text, vstart, '\n') {
        None => {
            proof {
                assert forall|v: Seq<char>| #[trigger]
                    line_at(text@, pos as int, key@, v) implies false by {
                    lemma_esc_no_newline(v);
                    let fl = field_line(key@, v);
                    let nlpos = pos + klen + 1 + esc(v).len();
                    assert(text@.subrange(pos as int, pos + fl.len())[nlpos - pos] == text@[
                    nlpos]);
                    assert(fl[nlpos - pos] == '\n');
                }
            }
            None
        },
        Some(nl) => {
            let raw = text.substring_char(vstart, nl);
            let value = unesc_str(raw);
            proof {
                assert forall|v: Seq<char>| #[trigger]
                    line_at(text@, pos as int, key@, v) implies value@ == v && nl + 1 == pos
                    + field_line(key@, v).len() by {
                    lemma_esc_no_newline(v);
                    let fl = field_line(key@, v);
                    let nlpos = pos + klen + 1 + esc(v).len();
                    assert forall|j: int| 0 <= j < fl.len() implies text@[pos + j] == fl[j] by {
                        assert(text@.subrange(pos as int, pos + fl.len())[j] == text@[pos + j]);
                    }
                    // the first newline after the value start closes the line
                    assert forall|j: int| vstart <= j < nlpos implies text@[j] != '\n' by {
                        assert(fl[j - pos] == esc(v)[j - vstart]);
                    }
                    assert(text@[nlpos as int] == fl[nlpos - pos]);
                    assert(text@[nlpos as int] == '\n');
                    assert(nl == nlpos) by {
                        if nl < nlpos {
                            assert(text@[nl as int] == '\n');
                        }
                        if nl > nlpos {
                            assert(text@[nlpos as int] != '\n');
                        }
                    }
                    assert forall|j: int| 0 <= j < nl - vstart implies raw@[j] == esc(v)[j] by {
                        assert(raw@[j] == text@[vstart + j]);
                        assert(fl[vstart + j - pos] == esc(v)[j]);
                    }
                    assert(raw@ =~= esc(v));
                    lemma_unesc_esc(v);
                }
                // the parsed line has the `key=RAW` shape in the text
                let rawseq = text@.subrange(vstart as int, nl as int);
                assert(newline_free(rawseq)) by {
                    assert forall|j: int| 0 <= j < rawseq.len() implies rawseq[j] != '\n' by {
                        assert(rawseq[j] == text@[vstart + j]);
                    }
                }
                assert(text@.subrange(pos as int, (nl + 1) as int) =~= raw_line(key@, rawseq)) by {
                    assert forall|j: int|
                        0 <= j < nl + 1 - pos implies text@.subrange(pos as int, (nl + 1) as int)[j]
                        == raw_line(key@, rawseq)[j] by {
                        assert(text@.subrange(pos as int, (nl + 1) as int)[j] == text@[pos + j]);
                        if j < klen {
                            assert(head@[j] == text@[pos + j]);
                        } else if klen < j && j < nl - pos {
                            assert(rawseq[j - klen - 1] == text@[vstart + (j - klen - 1)]);
                        }
                    }
                }
            }
            Some((value, nl + 1))
        },
    }
}

/// Parses the stored text back into a session.
///
/// Whatever four field values a file was written from, parsing returns
/// exactly those values: together with `encode_session` this is the
/// round-trip law for the store. Conversely a session is only ever
/// returned for text with the four-line `key=value` shape, each field the
/// unescaping of its raw segment.
pub fn parse_session(text: &str) -> (r: Option<Session>)
    ensures
        forall|e: Seq<char>, t: Seq<char>, u: Seq<char>, v: Seq<char>|
            text@ == #[trigger] session_encoding(e, t, u, v) ==> (r matches Some(sess)
                && sess.email@ == e && sess.token@ == t && sess.user_id@ == u && sess.server@
                == v),
        r matches Some(sess) ==> is_session_file(text@, sess),
{
    let tlen = text.unicode_len();
    proof {
        assert forall|e: Seq<char>, t: Seq<char>, u: Seq<char>, v: Seq<char>|
            text@ == #[trigger] session_encoding(e, t, u, v) implies line_at(
            text@,
            0,
            "email"@,
            e,
        ) by {
            let fl = field_line("email"@, e);
            assert(text@.subrange(0, fl.len() as int) =~= fl);
        }
    }
    let r1 = match parse_field(text, 0, "email") {
        None => {
            return None;
        },
        Some(p) => p,
    };
    proof {
        assert forall|e: Seq<char>, t: Seq<char>, u: Seq<char>, v: Seq<char>|
            text@ == #[trigger] session_encoding(e, t, u, v) implies r1.0@ == e && r1.1
            == field_line("email"@, e).len() && line_at(text@, r1.1 as int, "token"@, t) by {
            let l1 = field_line("email"@, e);
            let l2 = field_line("token"@, t);
            assert(line_at(text@, 0, "email"@, e));
            assert(text@.subrange(l1.len() as int, (l1.len() + l2.len()) as int) =~= l2);
        }
    }
    let r2 = match parse_field(text, r1.1, "token") {
        None => {
            return None;
        },
        Some(p) => p,
    };
    proof {
        assert forall|e: Seq<char>, t: Seq<char>, u: Seq<char>, v: Seq<char>|
            text@ == #[trigger] session_encoding(e, t, u, v) implies r2.0@ == t && r2.1
            == field_line("email"@, e).len() + field_line("token"@, t).len() && line_at(
            text@,
            r2.1 as int,
            "user_id"@,
            u,
        ) by {
            let l1 = field_line("email"@, e);
            let l2 = field_line("token"@, t);
            let l3 = field_line("user_id"@, u);
            assert(line_at(text@, r1.1 as int, "token"@, t));
            assert(text@.subrange((l1.len() + l2.len()) as int, (l1.len() + l2.len() + l3.len()) as int) =~= l3);
        }
    }
    let r3 = match parse_field(text, r2.1, "user_id") {
        None => {
            return None;
        },
        Some(p) => p,
    };
    proof {
        assert forall|e: Seq<char>, t: Seq<char>, u: Seq<char>, v: Seq<char>|
            text@ == #[trigger] session_encoding(e, t, u, v) implies r3.0@ == u && r3.1
            == field_line("email"@, e).len() + field_line("token"@, t).len() + field_line(
            "user_id"@,
            u,
        ).len() && line_at(text@, r3.1 as int, "server"@, v) by {
            let l1 = field_line("email"@, e);
            let l2 = field_line("token"@, t);
            let l3 = field_line("user_id"@, u);
            let l4 = field_line("server"@, v);
            assert(line_at(text@, r2.1 as int, "user_id"@, u));
            assert(text@.subrange(
                (l1.len() + l2.len() + l3.len()) as int,
                (l1.len() + l2.len() + l3.len() + l4.len()) as int,
            ) =~= l4);
        }
    }
    let r4 = match parse_field(text, r3.1, "server") {
        None => {
            return None;
        },
        Some(p) => p,
    };
    proof {
        assert forall|e: Seq<char>, t: Seq<char>, u: Seq<char>, v: Seq<char>|
            text@ == #[trigger] session_encoding(e, t, u, v) implies r4.0@ == v && r4.1
            == text@.len() by {
            assert(line_at(text@, r3.1 as int, "server"@, v));
        }
    }
    if r4.1 != tlen {
        return None;
    }
    proof {
        // the four parsed lines tile the whole text, so a `Some` result
        // always comes from a well-formed session file
        let a = text@.subrange("email"@.len() as int + 1, r1.1 - 1);
        let b = text@.subrange(r1.1 + "token"@.len() + 1, r2.1 - 1);
        let c = text@.subrange(r2.1 + "user_id"@.len() + 1, r3.1 - 1);
        let d = text@.subrange(r3.1 + "server"@.len() + 1, r4.1 - 1);
        assert(text@ =~= text@.subrange(0, r1.1 as int) + text@.subrange(r1.1 as int, r2.1 as int)
            + text@.subrange(r2.1 as int, r3.1 as int) + text@.subrange(
            r3.1 as int,
            r4.1 as int,
        ));
        assert(text@ == raw_line("email"@, a) + raw_line("token"@, b) + raw_line("user_id"@, c)
            + raw_line("server"@, d));
    }
    Some(
        Session {
            email: r1.0,
            token: r2.0,
            user_id: r3.0,
            server: r4.0,
        },
    )
}

/// The session store seen as a value: the well-known file's contents, or
/// `None` when no file exists. The caller performs the actual file reads
/// and writes and mirrors them here.
pub struct SessionStore {
    /// The stored text, or `None` for an absent file.
    pub contents: Option<String>,
}

impl SessionStore {
    /// A store whose file does not exist.
    pub fn absent() -> (r: Self)
        ensures
            r.contents is None,
    {
        SessionStore { contents: None }
    }

    /// A store holding the given file text.
    pub fn from_file(text: String) -> (r: Self)
        ensures
            r.contents == Some(text),
    {
        SessionStore { contents: Some(text) }
    }

    /// Reads the persisted session; an absent or unparseable file is the
    /// normal "not logged in" state, never an error.
    pub fn load(&self) -> (r: Option<Session>)
        ensures
            self.contents is None ==> r is None,
            forall|e: Seq<char>, t: Seq<char>, u: Seq<char>, v: Seq<char>|
                (self.contents matches Some(c) && c@ == #[trigger] session_encoding(e, t, u, v))
                    ==> (r matches Some(sess) && sess.email@ == e && sess.token@ == t
                    && sess.user_id@ == u && sess.server@ == v),
            r matches Some(sess) ==> (self.contents matches Some(c) && is_session_file(c@, sess)),
    {
        match &self.contents {
            None => None,
            Some(c) => parse_session(c.as_str()),
        }
    }

    /// Overwrites the store with the encoding of `s`.
    pub fn save(&mut self, s: &Session)
        ensures
            final(self).contents matches Some(c) && c@ == session_encoding(
                s.email@,
                s.token@,
                s.user_id@,
                s.server@,
            ),
    {
        self.contents = Some(encode_session(s));
    }

    /// Removes the persisted record; clearing an absent record is a
    /// success as well.
    pub fn clear(&mut self)
        ensures
            final(self).contents is None,
    {
        self.contents = None;
    }

    /// Saving and then loading yields a session equal in all fields to the
    /// one saved.
    pub fn save_then_load(&mut self, s: &Session) -> (r: Option<Session>)
        ensures
            r matches Some(out) && out.email@ == s.email@ && out.token@ == s.token@
                && out.user_id@ == s.user_id@ && out.server@ == s.server@,
    {
        self.save(s);
        self.load()
    }

    /// Clearing always leaves the store reading as "not logged in".
    pub fn clear_then_load(&mut self) -> (r: Option<Session>)
        ensures
            r is None,
    {
        self.clear();
        self.load()
    }
}

} // verus!
