use media_remote::dispatch::{
    control, next, prev, set_mute, set_volume, set_volume_path, toggle, volume_down, volume_up,
    ControlAction, Dispatch, Invocation, RequestError,
};

fn assert_controller(inv: &Invocation, arg: &str) {
    assert_eq!(inv.program, "./media");
    assert_eq!(inv.args, vec![arg.to_string()]);
}

fn assert_script(inv: &Invocation, script: &str) {
    assert_eq!(inv.program, "osascript");
    assert_eq!(inv.args, vec!["-e".to_string(), script.to_string()]);
}

#[test]
fn toggle_runs_controller_and_confirms() {
    let d = toggle();
    assert_controller(&d.command, "toggle");
    assert_eq!(d.body, "Toggled");
}

#[test]
fn next_runs_controller_and_confirms() {
    let d = next();
    assert_controller(&d.command, "next");
    assert_eq!(d.body, "Next Track");
}

#[test]
fn prev_runs_controller_and_confirms() {
    let d = prev();
    assert_controller(&d.command, "prev");
    assert_eq!(d.body, "Previous Track");
}

#[test]
fn control_matches_each_route() {
    for (action, arg, body) in [
        (ControlAction::Toggle, "toggle", "Toggled"),
        (ControlAction::Next, "next", "Next Track"),
        (ControlAction::Previous, "prev", "Previous Track"),
    ] {
        let d = control(action);
        assert_controller(&d.command, arg);
        assert_eq!(d.body, body);
    }
}

#[test]
fn toggle_reply_is_fixed_before_the_controller_runs() {
    // The reply is decided without launching anything, so a missing
    // controller executable cannot change it.
    let d = toggle();
    assert_eq!(d.command.program, "./media");
    assert_eq!(d.body, "Toggled");
}

#[test]
fn set_volume_echoes_every_level() {
    for level in 0..=255u8 {
        let d = set_volume(level);
        assert_eq!(d.body, format!("Volume set to {}", level));
        assert_script(&d.command, &format!("set volume output volume {}", level));
    }
}

#[test]
fn set_volume_edge_levels() {
    assert_eq!(set_volume(0).body, "Volume set to 0");
    assert_eq!(set_volume(100).body, "Volume set to 100");
    assert_eq!(set_volume(255).body, "Volume set to 255");
    assert_script(&set_volume(255).command, "set volume output volume 255");
}

fn path_body(level: &str) -> Result<String, RequestError> {
    set_volume_path(level).map(|d: Dispatch| d.body)
}

#[test]
fn set_volume_path_parses_level() {
    assert_eq!(path_body("42"), Ok("Volume set to 42".to_string()));
    assert_eq!(path_body("007"), Ok("Volume set to 7".to_string()));
    assert_eq!(path_body("+9"), Ok("Volume set to 9".to_string()));
    assert_eq!(path_body("255"), Ok("Volume set to 255".to_string()));
}

#[test]
fn set_volume_path_rejects_malformed_level() {
    for bad in ["256", "1000", "-1", "up", "", "+", "4 2", " 4", "4a"] {
        assert_eq!(path_body(bad), Err(RequestError::InvalidLevel), "{:?}", bad);
    }
}

#[test]
fn volume_up_runs_delta_script() {
    let d = volume_up();
    assert_script(
        &d.command,
        "set volume output volume ((output volume of (get volume settings)) + 10)",
    );
    assert_eq!(d.body, "Volume Up");
}

#[test]
fn volume_down_runs_delta_script() {
    let d = volume_down();
    assert_script(
        &d.command,
        "set volume output volume ((output volume of (get volume settings)) - 10)",
    );
    assert_eq!(d.body, "Volume Down");
}

#[test]
fn three_volume_down_requests_issue_three_scripts() {
    let all: Vec<Dispatch> = (0..3).map(|_| volume_down()).collect();
    assert_eq!(all.len(), 3);
    for d in &all {
        assert_script(
            &d.command,
            "set volume output volume ((output volume of (get volume settings)) - 10)",
        );
        assert_eq!(d.body, "Volume Down");
    }
}

#[test]
fn mute_toggle_issues_negating_script() {
    let d = set_mute("toggle");
    assert_script(
        &d.command,
        "set volume output muted not (output muted of (get volume settings))",
    );
    assert_ne!(d.command.args[1], "set volume output muted toggle");
    assert_eq!(d.body, "Mute action: toggle");
}

#[test]
fn mute_state_is_passed_verbatim() {
    for state in ["true", "false", "yes", "Toggle", "toggle "] {
        let d = set_mute(state);
        assert_script(&d.command, &format!("set volume output muted {}", state));
        assert_eq!(d.body, format!("Mute action: {}", state));
    }
}
