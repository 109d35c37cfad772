//! The request dispatcher: for each route, the one external command it runs
//! and the reply body it renders. The body never depends on how the command
//! fares, so a failed or missing program still yields the same reply.

use vstd::prelude::*;
use vstd::string::StringExecFns;
use crate::script::mute_script;
use crate::script::mute_script_text;
use crate::script::set_volume_script;
use crate::script::set_volume_script_text;
use crate::script::volume_down_script;
use crate::script::volume_down_script_text;
use crate::script::volume_up_script;
use crate::script::volume_up_script_text;
use crate::text::decimal;
use crate::text::decimal_text;
use crate::text::lemma_decimal_parses_back;
use crate::text::parse_u8;
use crate::text::parse_u8_text;

verus! {

/// An external program to launch, with its arguments in order.
pub struct Invocation {
    pub program: String,
    pub args: Vec<String>,
}

impl Invocation {
    /// The arguments as character sequences.
    pub open spec fn args_view(&self) -> Seq<Seq<char>> {
        self.args@.map_values(|a: String| a@)
    }
}

/// The playback controller executable.
pub open spec fn controller_program() -> Seq<char> {
    "./media"@
}

/// The system script interpreter.
pub open spec fn interpreter_program() -> Seq<char> {
    "osascript"@
}

/// `inv` launches the playback controller with the single argument `arg`.
pub open spec fn runs_controller(inv: Invocation, arg: Seq<char>) -> bool {
    &&& inv.program@ == controller_program()
    &&& inv.args_view() == seq![arg]
}

/// `inv` launches the script interpreter on `script`, as `-e <script>`.
pub open spec fn runs_script(inv: Invocation, script: Seq<char>) -> bool {
    &&& inv.program@ == interpreter_program()
    &&& inv.args_view() == seq!["-e"@, script]
}

/// Builds the launch of the playback controller with one argument.
pub fn controller_invocation(arg: &str) -> (r: Invocation)
    ensures
        runs_controller(r, arg@),
{
    let mut args: Vec<String> = Vec::new();
    args.push(String::from_str(arg));
    let r = Invocation { program: String::from_str("./media"), args };
    assert(r.args_view() =~= seq![arg@]);
    r
}

/// Builds the launch of the script interpreter on `script`.
pub fn script_invocation(script: String) -> (r: Invocation)
    ensures
        runs_script(r, script@),
{
    let mut args: Vec<String> = Vec::new();
    args.push(String::from_str("-e"));
    args.push(script);
    let r = Invocation { program: String::from_str("osascript"), args };
    assert(r.args_view() =~= seq!["-e"@, script@]);
    r
}

/// What a route does: the command it launches and the body it replies with.
pub struct Dispatch {
    pub command: Invocation,
    pub body: String,
}

/// A playback action of the controller.
#[derive(Clone, Copy, Debug, PartialEq, Eq, Structural)]
pub enum ControlAction {
    Toggle,
    Next,
    Previous,
}

impl ControlAction {
    /// The controller's argument for the action.
    pub open spec fn argument_text(self) -> Seq<char> {
        match self {
            ControlAction::Toggle => "toggle"@,
            ControlAction::Next => "next"@,
            ControlAction::Previous => "prev"@,
        }
    }

    /// The confirmation that the route replies with.
    pub open spec fn confirmation_text(self) -> Seq<char> {
        match self {
            ControlAction::Toggle => "Toggled"@,
            ControlAction::Next => "Next Track"@,
            ControlAction::Previous => "Previous Track"@,
        }
    }

    /// The controller's argument for the action.
    pub fn argument(&self) -> (r: &'static str)
        ensures
            r@ == self.argument_text(),
    {
        match self {
            ControlAction::Toggle => "toggle",
            ControlAction::Next => "next",
            ControlAction::Previous => "prev",
        }
    }

    /// The confirmation that the route replies with.
    pub fn confirmation(&self) -> (r: &'static str)
        ensures
            r@ == self.confirmation_text(),
    {
        match self {
            ControlAction::Toggle => "Toggled",
            ControlAction::Next => "Next Track",
            ControlAction::Previous => "Previous Track",
        }
    }
}

/// A request that is refused before any command runs.
#[derive(Clone, Copy, Debug, PartialEq, Eq, Structural)]
pub enum RequestError {
    /// The volume level in the path is not an unsigned 8-bit integer.
    InvalidLevel,
}

/// Runs the controller with the action's argument and confirms the action.
pub fn control(action: ControlAction) -> (r: Dispatch)
    ensures
        runs_controller(r.command, action.argument_text()),
        r.body@ == action.confirmation_text(),
{
    let command = controller_invocation(action.argument());
    Dispatch { command, body: String::from_str(action.confirmation()) }
}

/// `/api/toggle`: play or pause.
pub fn toggle() -> (r: Dispatch)
    ensures
        runs_controller(r.command, "toggle"@),
        r.body@ == "Toggled"@,
{
    control(ControlAction::Toggle)
}

/// `/api/next`: skip to the next track.
pub fn next() -> (r: Dispatch)
    ensures
        runs_controller(r.command, "next"@),
        r.body@ == "Next Track"@,
{
    control(ControlAction::Next)
}

/// `/api/prev`: go back to the previous track.
pub fn prev() -> (r: Dispatch)
    ensures
        runs_controller(r.command, "prev"@),
        r.body@ == "Previous Track"@,
{
    control(ControlAction::Previous)
}

/// The reply to a volume set to `level`.
pub open spec fn volume_set_reply(level: nat) -> Seq<char> {
    "Volume set to "@ + decimal(level)
}

/// `/api/volume/{level}`: sets the output volume to `level` and echoes it.
pub fn set_volume(level: u8) -> (r: Dispatch)
    ensures
        runs_script(r.command, set_volume_script_text(level as nat)),
        r.body@ == volume_set_reply(level as nat),
{
    let command = script_invocation(set_volume_script(level));
    let mut body = String::from_str("Volume set to ");
    let digits = decimal_text(level);
    body.append(digits.as_str());
    Dispatch { command, body }
}

/// `/api/volume/{level}` on the raw path segment: a level that is not an
/// unsigned 8-bit decimal integer is refused before any command is built.
pub fn set_volume_path(level: &str) -> (r: Result<Dispatch, RequestError>)
    ensures
        match parse_u8(level@) {
            Some(v) => r matches Ok(d) && runs_script(d.command, set_volume_script_text(v as nat))
                && d.body@ == volume_set_reply(v as nat),
            None => r == Err::<Dispatch, RequestError>(RequestError::InvalidLevel),
        },
{
    match parse_u8_text(level) {
        Some(v) => Ok(set_volume(v)),
        None => Err(RequestError::InvalidLevel),
    }
}

/// `/api/volume/up`: raises the output volume by 10, unclamped.
pub fn volume_up() -> (r: Dispatch)
    ensures
        runs_script(r.command, volume_up_script_text()),
        r.body@ == "Volume Up"@,
{
    Dispatch { command: script_invocation(volume_up_script()), body: String::from_str("Volume Up") }
}

/// `/api/volume/down`: lowers the output volume by 10, unclamped.
pub fn volume_down() -> (r: Dispatch)
    ensures
        runs_script(r.command, volume_down_script_text()),
        r.body@ == "Volume Down"@,
{
    Dispatch {
        command: script_invocation(volume_down_script()),
        body: String::from_str("Volume Down"),
    }
}

/// The reply to a mute request on the word `state`.
pub open spec fn mute_reply(state: Seq<char>) -> Seq<char> {
    "Mute action: "@ + state
}

/// `/api/mute/{state}`: negates the mute state for `toggle`, otherwise sets
/// it to `state` verbatim; the reply echoes `state`.
pub fn set_mute(state: &str) -> (r: Dispatch)
    ensures
        runs_script(r.command, mute_script_text(state@)),
        r.body@ == mute_reply(state@),
{
    let command = script_invocation(mute_script(state));
    let mut body = String::from_str("Mute action: ");
    body.append(state);
    Dispatch { command, body }
}

/// The reply to a set-volume request names the level it set: the number
/// after `Volume set to ` reads back as exactly that level.
pub proof fn volume_reply_echoes_level(level: u8)
    ensures
        parse_u8(volume_set_reply(level as nat).skip(14)) == Some(level),
{
    reveal_strlit("Volume set to ");
    assert(volume_set_reply(level as nat).skip(14) =~= decimal(level as nat));
    lemma_decimal_parses_back(level);
}

} // verus!
