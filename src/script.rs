//! The scripting-language snippets handed to the system script interpreter
//! for volume and mute operations. Pure text: the interpreter alone decides
//! which values and words it accepts.

use vstd::prelude::*;
use vstd::string::StringExecFns;
use crate::text::decimal;
use crate::text::decimal_text;
use crate::text::same_text;

verus! {

/// Sets the output volume to `level`.
pub open spec fn set_volume_script_text(level: nat) -> Seq<char> {
    "set volume output volume "@ + decimal(level)
}

/// Reads the current output volume and raises it by the fixed step of 10.
pub open spec fn volume_up_script_text() -> Seq<char> {
    "set volume output volume ((output volume of (get volume settings)) + 10)"@
}

/// Reads the current output volume and lowers it by the fixed step of 10.
pub open spec fn volume_down_script_text() -> Seq<char> {
    "set volume output volume ((output volume of (get volume settings)) - 10)"@
}

/// Negates the current mute state, as the interpreter reads it.
pub open spec fn mute_toggle_script_text() -> Seq<char> {
    "set volume output muted not (output muted of (get volume settings))"@
}

/// The state word that asks for the mute state to be negated.
pub open spec fn toggle_word() -> Seq<char> {
    "toggle"@
}

/// Sets the mute state to the word `state`, taken verbatim.
pub open spec fn set_mute_script_text(state: Seq<char>) -> Seq<char> {
    "set volume output muted "@ + state
}

/// The script for a mute request: the negating script for `toggle`, and
/// otherwise a script that sets the mute state to `state` verbatim.
pub open spec fn mute_script_text(state: Seq<char>) -> Seq<char> {
    if state == toggle_word() {
        mute_toggle_script_text()
    } else {
        set_mute_script_text(state)
    }
}

/// Reads the current output volume.
pub open spec fn volume_query_script_text() -> Seq<char> {
    "output volume of (get volume settings)"@
}

/// Reads the current mute state.
pub open spec fn mute_query_script_text() -> Seq<char> {
    "output muted of (get volume settings)"@
}

/// Builds the script that sets the output volume to `level`, unclamped.
pub fn set_volume_script(level: u8) -> (r: String)
    ensures
        r@ == set_volume_script_text(level as nat),
{
    let mut r = String::from_str("set volume output volume ");
    let digits = decimal_text(level);
    r.append(digits.as_str());
    r
}

/// Builds the script that raises the output volume by 10.
pub fn volume_up_script() -> (r: String)
    ensures
        r@ == volume_up_script_text(),
{
    String::from_str("set volume output volume ((output volume of (get volume settings)) + 10)")
}

/// Builds the script that lowers the output volume by 10.
pub fn volume_down_script() -> (r: String)
    ensures
        r@ == volume_down_script_text(),
{
    String::from_str("set volume output volume ((output volume of (get volume settings)) - 10)")
}

/// Builds the script for a mute request on the word `state`.
pub fn mute_script(state: &str) -> (r: String)
    ensures
        r@ == mute_script_text(state@),
{
    if same_text(state, "toggle") {
        String::from_str("set volume output muted not (output muted of (get volume settings))")
    } else {
        let mut r = String::from_str("set volume output muted ");
        r.append(state);
        r
    }
}

/// Builds the script that reads the output volume.
pub fn volume_query_script() -> (r: String)
    ensures
        r@ == volume_query_script_text(),
{
    String::from_str("output volume of (get volume settings)")
}

/// Builds the script that reads the mute state.
pub fn mute_query_script() -> (r: String)
    ensures
        r@ == mute_query_script_text(),
{
    String::from_str("output muted of (get volume settings)")
}

/// A mute request on `toggle` issues the script that negates the current
/// state, never a script that sets the mute state to the word `toggle`.
pub proof fn mute_toggle_negates()
    ensures
        mute_script_text(toggle_word()) == mute_toggle_script_text(),
        mute_script_text(toggle_word()) != set_mute_script_text(toggle_word()),
{
    reveal_strlit("set volume output muted not (output muted of (get volume settings))");
    reveal_strlit("set volume output muted ");
    reveal_strlit("toggle");
    assert(mute_toggle_script_text()[24] != set_mute_script_text(toggle_word())[24]);
}

} // verus!
