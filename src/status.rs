//! The status report: two independent scripted queries, the volume and the
//! mute state, each read with its own default, rendered as a two-key JSON
//! object.

use vstd::prelude::*;
use vstd::string::StringExecFns;
use crate::dispatch::runs_script;
use crate::dispatch::script_invocation;
use crate::dispatch::Invocation;
use crate::script::mute_query_script;
use crate::script::mute_query_script_text;
use crate::script::volume_query_script;
use crate::script::volume_query_script_text;
use crate::text::decimal;
use crate::text::decimal_text;
use crate::text::decode_lossy;
use crate::text::parse_u8;
use crate::text::parse_u8_text;
use crate::text::same_text;
use crate::text::trim;
use crate::text::trimmed;
use crate::text::utf8_lossy;

verus! {

/// The volume read from a query's output text: the trimmed text as an
/// unsigned 8-bit integer, or 0 when it is not one.
pub open spec fn volume_reading(text: Seq<char>) -> u8 {
    match parse_u8(trimmed(text)) {
        Some(v) => v,
        None => 0,
    }
}

/// The mute state read from a query's output text: set exactly when the
/// trimmed text is `true`.
pub open spec fn muted_reading(text: Seq<char>) -> bool {
    trimmed(text) == "true"@
}

/// The volume from a query that produced `text`, or 0 when it failed.
pub open spec fn volume_of_text(text: Option<Seq<char>>) -> u8 {
    match text {
        Some(t) => volume_reading(t),
        None => 0,
    }
}

/// The mute state from a query that produced `text`, or unset when it failed.
pub open spec fn muted_of_text(text: Option<Seq<char>>) -> bool {
    match text {
        Some(t) => muted_reading(t),
        None => false,
    }
}

/// The text of an optional string.
pub open spec fn text_view(t: Option<&str>) -> Option<Seq<char>> {
    match t {
        Some(s) => Some(s@),
        None => None,
    }
}

/// The text that a query's captured output decodes to.
pub open spec fn output_text(out: Option<&[u8]>) -> Option<Seq<char>> {
    match out {
        Some(b) => Some(utf8_lossy(b@)),
        None => None,
    }
}

/// The status body: `{"volume": <volume>, "isMuted": <muted>}`.
pub open spec fn status_json_text(volume: nat, muted: bool) -> Seq<char> {
    "{\"volume\": "@ + decimal(volume) + ", \"isMuted\": "@ + (if muted {
        "true"@
    } else {
        "false"@
    }) + "}"@
}

/// The status body for the texts of the two queries.
pub open spec fn status_of_text(volume: Option<Seq<char>>, mute: Option<Seq<char>>) -> Seq<char> {
    status_json_text(volume_of_text(volume) as nat, muted_of_text(mute))
}

/// The query that reads the output volume.
pub fn volume_query() -> (r: Invocation)
    ensures
        runs_script(r, volume_query_script_text()),
{
    script_invocation(volume_query_script())
}

/// The query that reads the mute state.
pub fn mute_query() -> (r: Invocation)
    ensures
        runs_script(r, mute_query_script_text()),
{
    script_invocation(mute_query_script())
}

/// Reads the volume from a query's output text.
pub fn volume_from_text(text: &str) -> (r: u8)
    ensures
        r == volume_reading(text@),
{
    match parse_u8_text(trim(text)) {
        Some(v) => v,
        None => 0,
    }
}

/// Reads the mute state from a query's output text.
pub fn muted_from_text(text: &str) -> (r: bool)
    ensures
        r == muted_reading(text@),
{
    same_text(trim(text), "true")
}

/// Renders the status body.
pub fn status_json(volume: u8, muted: bool) -> (r: String)
    ensures
        r@ == status_json_text(volume as nat, muted),
{
    let mut r = String::from_str("{\"volume\": ");
    let digits = decimal_text(volume);
    r.append(digits.as_str());
    r.append(", \"isMuted\": ");
    if muted {
        r.append("true");
    } else {
        r.append("false");
    }
    r.append("}");
    r
}

/// The status body from the texts of the two queries, `None` for a query that
/// failed; each value falls back to its default on its own.
pub fn status_from_text(volume: Option<&str>, mute: Option<&str>) -> (r: String)
    ensures
        r@ == status_of_text(text_view(volume), text_view(mute)),
{
    let v = match volume {
        Some(t) => volume_from_text(t),
        None => 0,
    };
    let m = match mute {
        Some(t) => muted_from_text(t),
        None => false,
    };
    status_json(v, m)
}

/// `/api/status`: the status body from the captured outputs of the volume and
/// mute queries, `None` for a query that could not be run.
pub fn get_status(volume_output: Option<&[u8]>, mute_output: Option<&[u8]>) -> (r: String)
    ensures
        r@ == status_of_text(output_text(volume_output), output_text(mute_output)),
{
    let volume_text = match volume_output {
        Some(b) => Some(decode_lossy(b)),
        None => None,
    };
    let mute_text = match mute_output {
        Some(b) => Some(decode_lossy(b)),
        None => None,
    };
    let v = match &volume_text {
        Some(t) => Some(t.as_str()),
        None => None,
    };
    let m = match &mute_text {
        Some(t) => Some(t.as_str()),
        None => None,
    };
    status_from_text(v, m)
}

/// A status body: the key `volume` with a decimal integer of at most 255,
/// then the key `isMuted` with `true` or `false`.
pub open spec fn is_status_object(s: Seq<char>) -> bool {
    exists|v: u8, b: bool| s == status_json_text(v as nat, b)
}

/// Whatever the two queries gave, the status body is a well-formed two-key
/// object, and a failed query contributes its default and nothing else.
pub proof fn status_always_well_formed(volume: Option<Seq<char>>, mute: Option<Seq<char>>)
    ensures
        is_status_object(status_of_text(volume, mute)),
        volume is None ==> status_of_text(volume, mute) == status_json_text(0, muted_of_text(mute)),
        mute is None ==> status_of_text(volume, mute) == status_json_text(
            volume_of_text(volume) as nat,
            false,
        ),
{
    let v = volume_of_text(volume);
    let b = muted_of_text(mute);
    assert(status_of_text(volume, mute) == status_json_text(v as nat, b));
}

/// With both queries failed the status body is
/// `{"volume": 0, "isMuted": false}`.
pub proof fn failed_queries_report_defaults()
    ensures
        status_of_text(None, None) == "{\"volume\": 0, \"isMuted\": false}"@,
{
    reveal_strlit("{\"volume\": 0, \"isMuted\": false}");
    reveal_strlit("{\"volume\": ");
    reveal_strlit(", \"isMuted\": ");
    reveal_strlit("false");
    reveal_strlit("}");
    assert(status_of_text(None, None) =~= "{\"volume\": 0, \"isMuted\": false}"@);
}

} // verus!
