//! The API client protocol layer: request URLs and bodies for the three
//! backend operations, local validation raised before any network call, and
//! the interpretation of each HTTP outcome. The network exchange itself
//! happens outside the library; it hands back the status code and body text.

use vstd::prelude::*;

use crate::errors::{decode_envelope, normalized_of, render_error};
use crate::jsonval::{
    json_as_string, json_field, json_get, json_is_null, json_null, json_parse_error, json_parsed,
    json_str, parse_json,
};
use crate::session::Session;
use crate::strutil::{dec_digits, eq_str, first_non_space, u16_to_dec};

verus! {

/// The created account as the register operation reports it.
#[derive(Debug)]
pub struct AccountSummary {
    /// Backend-assigned unique identifier.
    pub id: String,
    /// The account's display name.
    pub name: String,
}

/// The stored snippet as the create operation reports it.
#[derive(Debug)]
pub struct SnippetReceipt {
    /// Backend-assigned identifier of the new snippet.
    pub id: String,
    /// The echoed title.
    pub title: String,
}

/// Who may see a published snippet.
#[derive(Clone, Copy, PartialEq, Eq, Structural, Debug)]
pub enum Visibility {
    Public,
    Private,
}

/// Reads a visibility tag; only the two enum values are accepted.
pub fn parse_visibility(s: &str) -> (r: Option<Visibility>)
    ensures
        s@ == "public"@ ==> r == Some(Visibility::Public),
        s@ == "private"@ ==> r == Some(Visibility::Private),
        s@ != "public"@ && s@ != "private"@ ==> r is None,
{
    proof {
        reveal_strlit("public");
        reveal_strlit("private");
        assert("public"@.len() != "private"@.len());
    }
    if eq_str(s, "public") {
        Some(Visibility::Public)
    } else if eq_str(s, "private") {
        Some(Visibility::Private)
    } else {
        None
    }
}

/// The wire form of a visibility value.
pub fn visibility_tag(v: Visibility) -> (r: String)
    ensures
        v == Visibility::Public ==> r@ == "public"@,
        v == Visibility::Private ==> r@ == "private"@,
{
    match v {
        Visibility::Public => String::from_str("public"),
        Visibility::Private => String::from_str("private"),
    }
}

/// Checks the locally validated parts of a publish request: the title must
/// not be empty, the code must not be blank, and the visibility string must
/// name one of the two enum values. Raised before any network call.
pub fn validate_snippet_input(title: &str, code: &str, visibility: &str) -> (r: Result<
    Visibility,
    String,
>)
    ensures
        title@.len() == 0 ==> (r matches Err(m) && m@ == "Title is required"@),
        title@.len() != 0 && first_non_space(code@) is None ==> (r matches Err(m) && m@
            == "No code provided (empty input)"@),
        title@.len() != 0 && first_non_space(code@) is Some && visibility@ == "public"@ ==> r
            == Ok::<_, String>(Visibility::Public),
        title@.len() != 0 && first_non_space(code@) is Some && visibility@ == "private"@ ==> r
            == Ok::<_, String>(Visibility::Private),
        title@.len() != 0 && first_non_space(code@) is Some && visibility@ != "public"@
            && visibility@ != "private"@ ==> (r matches Err(m) && m@
            == "Visibility must be 'public' or 'private'"@),
{
    if title.unicode_len() == 0 {
        return Err(String::from_str("Title is required"));
    }
    if crate::strutil::first_non_space_char(code).is_none() {
        return Err(String::from_str("No code provided (empty input)"));
    }
    match parse_visibility(visibility) {
        Some(v) => Ok(v),
        None => Err(String::from_str("Visibility must be 'public' or 'private'")),
    }
}

/// The registration endpoint under the given base URL.
pub open spec fn register_url_spec(server: Seq<char>) -> Seq<char> {
    server + "/collections/users/records"@
}

/// Builds the registration endpoint URL.
pub fn register_url(server: &str) -> (r: String)
    ensures
        r@ == register_url_spec(server@),
{
    let mut out = String::from_str(server);
    out.append("/collections/users/records");
    out
}

/// The authentication endpoint under the given base URL.
pub open spec fn auth_url_spec(server: Seq<char>) -> Seq<char> {
    server + "/collections/users/auth-with-password"@
}

/// Builds the authentication endpoint URL.
pub fn auth_url(server: &str) -> (r: String)
    ensures
        r@ == auth_url_spec(server@),
{
    let mut out = String::from_str(server);
    out.append("/collections/users/auth-with-password");
    out
}

/// The snippet-creation endpoint under the given base URL.
pub open spec fn snippets_url_spec(server: Seq<char>) -> Seq<char> {
    server + "/collections/snippets/records"@
}

/// Builds the snippet-creation endpoint URL.
pub fn snippets_url(server: &str) -> (r: String)
    ensures
        r@ == snippets_url_spec(server@),
{
    let mut out = String::from_str(server);
    out.append("/collections/snippets/records");
    out
}

/// The `Authorization` header value for a session's bearer token.
pub open spec fn bearer_spec(token: Seq<char>) -> Seq<char> {
    "Bearer "@ + token
}

/// Builds the `Authorization` header value.
pub fn bearer_header(session: &Session) -> (r: String)
    ensures
        r@ == bearer_spec(session.token@),
{
    let mut out = String::from_str("Bearer ");
    out.append(session.token.as_str());
    out
}

/// The prefix of every response-decode failure message; the detail after
/// it says what was wrong with the body.
pub open spec fn parse_failure_prefix() -> Seq<char> {
    "Failed to parse response: "@
}

/// The message for a response whose JSON decodes but lacks the expected
/// fields.
pub open spec fn shape_failure_msg() -> Seq<char> {
    "Failed to parse response: unexpected response shape"@
}

/// Builds the decode-failure message around the parser's detail.
fn parse_failure_message(detail: String) -> (r: String)
    ensures
        r@ == parse_failure_prefix() + detail@,
{
    let mut out = String::from_str("Failed to parse response: ");
    out.append(detail.as_str());
    out
}

/// The field under `key`, when it is a JSON string.
pub open spec fn spec_string_field(v: serde_json::Value, key: Seq<char>) -> Option<Seq<char>> {
    match json_field(v, key) {
        Some(f) => json_str(f),
        None => None,
    }
}

/// An optional string field: absent or null reads as `None`, a string as
/// its characters; any other kind of value makes the whole record invalid.
pub open spec fn spec_optional_string_field(v: serde_json::Value, key: Seq<char>) -> Option<
    Option<Seq<char>>,
> {
    match json_field(v, key) {
        None => Some(None),
        Some(f) => if json_null(f) {
            Some(None)
        } else {
            match json_str(f) {
                Some(s) => Some(Some(s)),
                None => None,
            }
        },
    }
}

/// The account fields of a registration response body: `id` and `name`
/// must be strings, and `email`, when present, a string or null.
pub open spec fn spec_account_fields(v: serde_json::Value) -> Option<(Seq<char>, Seq<char>)> {
    match spec_string_field(v, "id"@) {
        None => None,
        Some(id) => match spec_string_field(v, "name"@) {
            None => None,
            Some(name) => match spec_optional_string_field(v, "email"@) {
                None => None,
                Some(_) => Some((id, name)),
            },
        },
    }
}

/// The session fields of an authentication response body, as
/// `(email, token, user id)`: the token, the record and its `id` and `name`
/// are required, and the record's own email, when absent or null, falls
/// back to `fallback_email`.
pub open spec fn spec_session_fields(v: serde_json::Value, fallback_email: Seq<char>) -> Option<
    (Seq<char>, Seq<char>, Seq<char>),
> {
    match spec_string_field(v, "token"@) {
        None => None,
        Some(token) => match json_field(v, "record"@) {
            None => None,
            Some(rec) => match spec_string_field(rec, "id"@) {
                None => None,
                Some(id) => match spec_string_field(rec, "name"@) {
                    None => None,
                    Some(_name) => match spec_optional_string_field(rec, "email"@) {
                        None => None,
                        Some(email) => Some(
                            (
                                match email {
                                    Some(em) => em,
                                    None => fallback_email,
                                },
                                token,
                                id,
                            ),
                        ),
                    },
                },
            },
        },
    }
}

/// The receipt fields of a snippet-creation response body: `id` and
/// `title` must be strings.
pub open spec fn spec_receipt_fields(v: serde_json::Value) -> Option<(Seq<char>, Seq<char>)> {
    match spec_string_field(v, "id"@) {
        None => None,
        Some(id) => match spec_string_field(v, "title"@) {
            None => None,
            Some(title) => Some((id, title)),
        },
    }
}

/// Interprets the registration response. On a success status the created
/// account is decoded from the body; on a failure status the error envelope
/// is normalized.
pub fn interpret_register_response(status: u16, body: &str) -> (r: Result<AccountSummary, String>)
    ensures
        !crate::spec_is_success(status) ==> (r matches Err(m) && m@ == normalized_of(
            json_parsed(body@),
        )),
        crate::spec_is_success(status) && json_parsed(body@) is None ==> (r matches Err(m) && m@
            == parse_failure_prefix() + json_parse_error(body@)),
        crate::spec_is_success(status) ==> (json_parsed(body@) matches Some(v) ==> (
        match spec_account_fields(v) {
            Some(f) => r matches Ok(acct) && acct.id@ == f.0 && acct.name@ == f.1,
            None => r matches Err(m) && m@ == shape_failure_msg(),
        })),
{
    if !crate::is_success_status(status) {
        let env = decode_envelope(body);
        return Err(render_error(&env));
    }
    let parsed = match parse_json(body) {
        Err(e) => {
            return Err(parse_failure_message(e));
        },
        Ok(v) => v,
    };
    let id = match read_string_field(&parsed, "id") {
        None => {
            return Err(String::from_str("Failed to parse response: unexpected response shape"));
        },
        Some(s) => s,
    };
    let name = match read_string_field(&parsed, "name") {
        None => {
            return Err(String::from_str("Failed to parse response: unexpected response shape"));
        },
        Some(s) => s,
    };
    // the record's own email, when present, must be a string or null, even
    // though the summary does not keep it
    if read_optional_string_field(&parsed, "email").is_none() {
        return Err(String::from_str("Failed to parse response: unexpected response shape"));
    }
    Ok(AccountSummary { id, name })
}

/// Reads a field that must be a JSON string.
fn read_string_field(v: &serde_json::Value, key: &str) -> (r: Option<String>)
    ensures
        match r {
            Some(s) => spec_string_field(*v, key@) == Some(s@),
            None => spec_string_field(*v, key@) is None,
        },
{
    match json_get(v, key) {
        None => None,
        Some(f) => json_as_string(f),
    }
}

/// Reads a field that may be absent or null, and is otherwise required to
/// be a JSON string; the outer `None` marks a field of the wrong kind.
fn read_optional_string_field(v: &serde_json::Value, key: &str) -> (r: Option<Option<String>>)
    ensures
        match r {
            Some(Some(s)) => spec_optional_string_field(*v, key@) == Some(Some(s@)),
            Some(None) => spec_optional_string_field(*v, key@) == Some(None::<Seq<char>>),
            None => spec_optional_string_field(*v, key@) is None,
        },
{
    match json_get(v, key) {
        None => Some(None),
        Some(f) => {
            if json_is_null(f) {
                Some(None)
            } else {
                match json_as_string(f) {
                    Some(s) => Some(Some(s)),
                    None => None,
                }
            }
        },
    }
}

/// Interprets the authentication response. On success the session is built
/// from the returned token and record, the identity falling back to the
/// input email when the backend omits one; the server URL is carried into
/// the session unchanged. The session never reuses a prior token.
pub fn interpret_login_response(status: u16, body: &str, email: &str, server: &str) -> (r: Result<
    Session,
    String,
>)
    ensures
        r matches Ok(sess) ==> sess.server@ == server@ && crate::spec_is_success(status),
        !crate::spec_is_success(status) ==> (r matches Err(m) && m@ == normalized_of(
            json_parsed(body@),
        )),
        crate::spec_is_success(status) && json_parsed(body@) is None ==> (r matches Err(m) && m@
            == parse_failure_prefix() + json_parse_error(body@)),
        crate::spec_is_success(status) ==> (json_parsed(body@) matches Some(v) ==> (
        match spec_session_fields(v, email@) {
            Some(f) => r matches Ok(sess) && sess.email@ == f.0 && sess.token@ == f.1
                && sess.user_id@ == f.2 && sess.server@ == server@,
            None => r matches Err(m) && m@ == shape_failure_msg(),
        })),
{
    if !crate::is_success_status(status) {
        let env = decode_envelope(body);
        return Err(render_error(&env));
    }
    let parsed = match parse_json(body) {
        Err(e) => {
            return Err(parse_failure_message(e));
        },
        Ok(v) => v,
    };
    let token = match read_string_field(&parsed, "token") {
        None => {
            return Err(String::from_str("Failed to parse response: unexpected response shape"));
        },
        Some(s) => s,
    };
    let record = match json_get(&parsed, "record") {
        None => {
            return Err(String::from_str("Failed to parse response: unexpected response shape"));
        },
        Some(v) => v,
    };
    let id = match read_string_field(record, "id") {
        None => {
            return Err(String::from_str("Failed to parse response: unexpected response shape"));
        },
        Some(s) => s,
    };
    // the record must carry a display name, even though the session does
    // not keep it
    match read_string_field(record, "name") {
        None => {
            return Err(String::from_str("Failed to parse response: unexpected response shape"));
        },
        Some(_) => {},
    };
    let account_email = match read_optional_string_field(record, "email") {
        None => {
            return Err(String::from_str("Failed to parse response: unexpected response shape"));
        },
        Some(None) => String::from_str(email),
        Some(Some(s)) => s,
    };
    Ok(
        Session {
            email: account_email,
            token,
            user_id: id,
            server: String::from_str(server),
        },
    )
}

/// The failure prefix for snippet creation, carrying the HTTP status code.
pub open spec fn snippet_failure_msg(status: u16, normalized: Seq<char>) -> Seq<char> {
    "Failed to create snippet ("@ + dec_digits(status as nat) + "): "@ + normalized
}

/// Interprets the snippet-creation response. On success the receipt is
/// decoded from the body; on failure the normalized envelope message is
/// prefixed with the HTTP status code.
pub fn interpret_snippet_response(status: u16, body: &str) -> (r: Result<SnippetReceipt, String>)
    ensures
        !crate::spec_is_success(status) ==> (r matches Err(m) && m@ == snippet_failure_msg(
            status,
            normalized_of(json_parsed(body@)),
        )),
        crate::spec_is_success(status) && json_parsed(body@) is None ==> (r matches Err(m) && m@
            == parse_failure_prefix() + json_parse_error(body@)),
        crate::spec_is_success(status) ==> (json_parsed(body@) matches Some(v) ==> (
        match spec_receipt_fields(v) {
            Some(f) => r matches Ok(rec) && rec.id@ == f.0 && rec.title@ == f.1,
            None => r matches Err(m) && m@ == shape_failure_msg(),
        })),
{
    if !crate::is_success_status(status) {
        let env = decode_envelope(body);
        let normalized = render_error(&env);
        let mut msg = String::from_str("Failed to create snippet (");
        msg.append(u16_to_dec(status).as_str());
        msg.append("): ");
        msg.append(normalized.as_str());
        proof {
            assert(msg@ =~= snippet_failure_msg(status, normalized_of(json_parsed(body@))));
        }
        return Err(msg);
    }
    let parsed = match parse_json(body) {
        Err(e) => {
            return Err(parse_failure_message(e));
        },
        Ok(v) => v,
    };
    let id = match read_string_field(&parsed, "id") {
        None => {
            return Err(String::from_str("Failed to parse response: unexpected response shape"));
        },
        Some(s) => s,
    };
    let title = match read_string_field(&parsed, "title") {
        None => {
            return Err(String::from_str("Failed to parse response: unexpected response shape"));
        },
        Some(s) => s,
    };
    Ok(SnippetReceipt { id, title })
}

} // verus!
