use openclaw_linux::node::caps::{current_caps, current_commands};
use openclaw_linux::node::permissions::current_permissions;

#[test]
fn canvas_caps_are_removed_when_disabled() {
    let caps = current_caps(false);
    assert!(!caps.iter().any(|cap| cap == "canvas"));
}

#[test]
fn only_implemented_canvas_commands_are_advertised() {
    let commands = current_commands(true);
    assert_eq!(
        commands,
        vec![
            "canvas.present".to_string(),
            "canvas.hide".to_string(),
            "canvas.navigate".to_string(),
        ]
    );
}

#[test]
fn caps_follow_the_canvas_setting() {
    assert_eq!(current_caps(true), vec!["canvas".to_string(), "screen".to_string()]);
    assert_eq!(current_caps(false), vec!["screen".to_string()]);
    assert!(current_commands(false).is_empty());
}

#[test]
fn no_permissions_are_reported() {
    assert!(current_permissions().is_empty());
}
