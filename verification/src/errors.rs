//! The error normalizer: turns the backend's JSON error envelope
//! `{message?, data?: {field: {message?}}}` into one human-readable line.

use vstd::prelude::*;

use crate::jsonval::{
    json_as_string, json_entries, json_field, json_get, json_is_null, json_null,
    json_object_entries, json_parsed, json_str, parse_json,
};

verus! {

/// A backend error envelope reduced to plain values: the top-level message,
/// if any, and the per-field messages that the `data` object carried, in its
/// iteration order.
pub struct ErrorEnvelope {
    /// The top-level human-readable message.
    pub message: Option<String>,
    /// Field name and per-field message pairs.
    pub details: Vec<(String, String)>,
}

/// One rendered detail: `field: message`.
pub open spec fn detail_item(p: (Seq<char>, Seq<char>)) -> Seq<char> {
    p.0 + ": "@ + p.1
}

/// The details joined with `", "`.
pub open spec fn join_details(ds: Seq<(Seq<char>, Seq<char>)>) -> Seq<char>
    decreases ds.len(),
{
    if ds.len() == 0 {
        Seq::empty()
    } else if ds.len() == 1 {
        detail_item(ds[0])
    } else {
        join_details(ds.drop_last()) + ", "@ + detail_item(ds.last())
    }
}

/// The rendered message: the top-level message (or `"Unknown error"` when
/// absent), followed by the parenthesized details when there are any.
pub open spec fn render_spec(message: Option<Seq<char>>, ds: Seq<(Seq<char>, Seq<char>)>) -> Seq<
    char,
> {
    let base = match message {
        Some(m) => m,
        None => "Unknown error"@,
    };
    if ds.len() == 0 {
        base
    } else {
        base + " ("@ + join_details(ds) + ")"@
    }
}

impl ErrorEnvelope {
    /// The envelope's message as a sequence, when present.
    pub open spec fn message_view(&self) -> Option<Seq<char>> {
        match self.message {
            Some(m) => Some(m@),
            None => None,
        }
    }

    /// The envelope's details as sequences.
    pub open spec fn details_view(&self) -> Seq<(Seq<char>, Seq<char>)> {
        self.details@.map_values(|p: (String, String)| (p.0@, p.1@))
    }

    /// What `render_error` returns for this envelope.
    pub open spec fn rendered(&self) -> Seq<char> {
        render_spec(self.message_view(), self.details_view())
    }

    /// The envelope used when no usable envelope was decoded.
    pub fn unknown() -> (r: Self)
        ensures
            r.message is None,
            r.details@.len() == 0,
    {
        ErrorEnvelope { message: None, details: Vec::new() }
    }
}

/// An envelope with no message and no details renders as exactly
/// `"Unknown error"`.
pub proof fn lemma_default_renders_unknown(env: ErrorEnvelope)
    requires
        env.message is None,
        env.details@.len() == 0,
    ensures
        env.rendered() == "Unknown error"@,
{
}

/// An envelope with a message and one field detail renders as exactly
/// `message (field: detail)`.
pub proof fn lemma_single_detail_rendering(env: ErrorEnvelope, m: String)
    requires
        env.message == Some(m),
        env.details@.len() == 1,
    ensures
        env.rendered() == m@ + " ("@ + env.details@[0].0@ + ": "@ + env.details@[0].1@ + ")"@,
{
    assert(env.details_view()[0] == (env.details@[0].0@, env.details@[0].1@));
}

/// Renders an envelope as one line.
pub fn render_error(env: &ErrorEnvelope) -> (r: String)
    ensures
        r@ == env.rendered(),
{
    let mut out = match &env.message {
        Some(m) => m.clone(),
        None => String::from_str("Unknown error"),
    };
    let n = env.details.len();
    if n > 0 {
        let ghost base = match env.message_view() {
            Some(m) => m,
            None => "Unknown error"@,
        };
        let ghost dv = env.details_view();
        out.append(" (");
        let mut i: usize = 0;
        proof {
            assert(dv.take(0) =~= Seq::<(Seq<char>, Seq<char>)>::empty());
            assert(out@ =~= base + " ("@);
        }
        while i < n
            invariant
                0 < n == env.details@.len(),
                i <= n,
                dv == env.details_view(),
                dv.len() == n,
                base == match env.message_view() {
                    Some(m) => m,
                    None => "Unknown error"@,
                },
                out@ == base + " ("@ + join_details(dv.take(i as int)),
            decreases n - i,
        {
            if i > 0 {
                out.append(", ");
            }
            out.append(env.details[i].0.as_str());
            out.append(": ");
            out.append(env.details[i].1.as_str());
            proof {
                assert(dv[i as int] == (env.details@[i as int].0@, env.details@[i as int].1@));
                let tk = dv.take(i + 1);
                assert(tk.drop_last() =~= dv.take(i as int));
                assert(tk.last() == dv[i as int]);
                if i == 0 {
                    assert(join_details(tk) == detail_item(dv[0]));
                    assert(out@ =~= base + " ("@ + join_details(tk));
                } else {
                    assert(join_details(tk) == join_details(dv.take(i as int)) + ", "@
                        + detail_item(dv[i as int]));
                    assert(out@ =~= base + " ("@ + join_details(tk));
                }
            }
            i += 1;
        }
        out.append(")");
        proof {
            assert(dv.take(n as int) =~= dv);
            assert(out@ =~= env.rendered());
        }
    }
    out
}

/// The decoded message slot of an envelope value: `None` when the envelope
/// is unusable (a `message` that is neither a string nor null), otherwise
/// the optional top-level message.
pub open spec fn spec_envelope_message(v: serde_json::Value) -> Option<Option<Seq<char>>> {
    match json_field(v, "message"@) {
        None => Some(None),
        Some(mv) => if json_null(mv) {
            Some(None)
        } else {
            match json_str(mv) {
                Some(s) => Some(Some(s)),
                None => None,
            }
        },
    }
}

/// The detail one `data` entry contributes: its key and nested `message`,
/// when that nested message is a string.
pub open spec fn detail_of_entry(e: (String, serde_json::Value)) -> Option<(Seq<char>, Seq<char>)> {
    match json_field(e.1, "message"@) {
        None => None,
        Some(fm) => match json_str(fm) {
            None => None,
            Some(s) => Some((e.0@, s)),
        },
    }
}

/// The details contributed by a sequence of `data` entries, in order;
/// entries without a string message are skipped.
pub open spec fn details_of_entries(es: Seq<(String, serde_json::Value)>) -> Seq<
    (Seq<char>, Seq<char>),
>
    decreases es.len(),
{
    if es.len() == 0 {
        Seq::empty()
    } else {
        details_of_entries(es.drop_last()) + (match detail_of_entry(es.last()) {
            Some(d) => seq![d],
            None => Seq::<(Seq<char>, Seq<char>)>::empty(),
        })
    }
}

/// The details of an envelope value: one per entry of the `data` object
/// that carries a string message, none when `data` is absent or not an
/// object.
pub open spec fn spec_envelope_details(v: serde_json::Value) -> Seq<(Seq<char>, Seq<char>)> {
    match json_field(v, "data"@) {
        None => Seq::empty(),
        Some(dv) => match json_entries(dv) {
            None => Seq::empty(),
            Some(es) => details_of_entries(es),
        },
    }
}

/// What `normalize` returns for a parse outcome: `"Unknown error"` for a
/// body that is not JSON or whose envelope is unusable, the rendered
/// envelope otherwise.
pub open spec fn normalized_of(parsed: Option<serde_json::Value>) -> Seq<char> {
    match parsed {
        None => "Unknown error"@,
        Some(v) => match spec_envelope_message(v) {
            None => "Unknown error"@,
            Some(msg) => render_spec(msg, spec_envelope_details(v)),
        },
    }
}

/// Decodes a backend error body into an envelope. Any body that does not
/// parse as JSON, and any envelope whose `message` is neither a string nor
/// null, yields the default envelope, which renders as `"Unknown error"`.
pub fn decode_envelope(body: &str) -> (r: ErrorEnvelope)
    ensures
        json_parsed(body@) is None ==> r.message is None && r.details@.len() == 0,
        json_parsed(body@) matches Some(v) ==> (match spec_envelope_message(v) {
            None => r.message is None && r.details@.len() == 0,
            Some(msg) => r.message_view() == msg && r.details_view() == spec_envelope_details(v),
        }),
{
    let parsed = match parse_json(body) {
        Err(_) => {
            // the decode failure is not propagated here: an undecodable
            // envelope falls back to the default
            return ErrorEnvelope::unknown();
        },
        Ok(v) => v,
    };
    let message: Option<String> = match json_get(&parsed, "message") {
        None => None,
        Some(mv) => {
            if json_is_null(mv) {
                None
            } else {
                match json_as_string(mv) {
                    Some(s) => Some(s),
                    None => {
                        // a message of an unexpected type invalidates the
                        // whole envelope
                        return ErrorEnvelope::unknown();
                    },
                }
            }
        },
    };
    let details = decode_details(&parsed);
    ErrorEnvelope { message, details }
}

/// Collects the per-field details of the `data` object.
fn decode_details(parsed: &serde_json::Value) -> (r: Vec<(String, String)>)
    ensures
        r@.map_values(|p: (String, String)| (p.0@, p.1@)) == spec_envelope_details(*parsed),
{
    let mut details: Vec<(String, String)> = Vec::new();
    proof {
        assert(details@.map_values(|p: (String, String)| (p.0@, p.1@)) =~= Seq::<
            (Seq<char>, Seq<char>),
        >::empty());
    }
    match json_get(parsed, "data") {
        None => {},
        Some(dv) => {
            match json_object_entries(dv) {
                None => {},
                Some(entries) => {
                    let n = entries.len();
                    let mut i: usize = 0;
                    proof {
                        assert(entries@.take(0) =~= Seq::<(String, serde_json::Value)>::empty());
                    }
                    while i < n
                        invariant
                            i <= n,
                            n == entries@.len(),
                            json_entries(*dv) == Some(entries@),
                            details@.map_values(|p: (String, String)| (p.0@, p.1@))
                                == details_of_entries(entries@.take(i as int)),
                        decreases n - i,
                    {
                        let ghost prior = details@;
                        match json_get(&entries[i].1, "message") {
                            None => {},
                            Some(fm) => {
                                match json_as_string(fm) {
                                    None => {},
                                    Some(s) => {
                                        let key = entries[i].0.clone();
                                        details.push((key, s));
                                    },
                                }
                            },
                        }
                        proof {
                            let f = |p: (String, String)| (p.0@, p.1@);
                            let tk = entries@.take(i + 1);
                            assert(tk.drop_last() =~= entries@.take(i as int));
                            assert(tk.last() == entries@[i as int]);
                            assert(details@.map_values(f) =~= prior.map_values(f) + (
                            match detail_of_entry(entries@[i as int]) {
                                Some(d) => seq![d],
                                None => Seq::<(Seq<char>, Seq<char>)>::empty(),
                            }));
                        }
                        i += 1;
                    }
                    proof {
                        assert(entries@.take(n as int) =~= entries@);
                    }
                },
            }
        },
    }
    details
}

/// Normalizes a backend error body to one line: the decoded envelope,
/// rendered. A malformed or absent envelope yields exactly
/// `"Unknown error"`.
pub fn normalize(body: &str) -> (r: String)
    ensures
        r@ == normalized_of(json_parsed(body@)),
        json_parsed(body@) is None ==> r@ == "Unknown error"@,
{
    let env = decode_envelope(body);
    render_error(&env)
}

} // verus!
