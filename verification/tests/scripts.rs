use command_dispatch::scripts::{
    audit, clean, rebuild, sanitize_label, script_command, sync, update, ScriptCommand,
};

fn command(script: &str, args: &[&str]) -> ScriptCommand {
    ScriptCommand {
        script: script.to_string(),
        args: args.iter().map(|arg| arg.to_string()).collect(),
    }
}

#[test]
fn sanitize_keeps_allowed_characters() {
    assert_eq!(sanitize_label("abcXYZ019:_.-"), "abcXYZ019:_.-");
}

#[test]
fn sanitize_turns_spaces_into_underscores() {
    assert_eq!(sanitize_label("update nixpkgs now"), "update_nixpkgs_now");
    assert_eq!(sanitize_label("  "), "__");
}

#[test]
fn sanitize_drops_everything_else() {
    assert_eq!(sanitize_label("fix: bug #42 (urgent)!"), "fix:_bug_42_urgent");
    assert_eq!(sanitize_label("té/st\tx\ny"), "tstxy");
    assert_eq!(sanitize_label("§$%&"), "");
    assert_eq!(sanitize_label(""), "");
}

#[test]
fn sanitize_twice_changes_nothing_more() {
    let once = sanitize_label("a b/c d!");
    assert_eq!(once, "a_bc_d");
    assert_eq!(sanitize_label(&once), once);
}

#[test]
fn script_command_has_no_arguments() {
    assert_eq!(script_command("rebuild"), command("rebuild", &[]));
}

#[test]
fn arg_appends_in_order() {
    let mut planned = script_command("sync");
    planned.arg("one");
    planned.arg("two");
    assert_eq!(planned, command("sync", &["one", "two"]));
}

#[test]
fn rebuild_uses_the_given_label() {
    assert_eq!(
        rebuild("/etc/nixos", "laptop", Some("my label!"), "add a package"),
        command("rebuild", &["/etc/nixos", "laptop", "add a package", "my_label"])
    );
}

#[test]
fn rebuild_labels_by_the_message_without_label() {
    assert_eq!(
        rebuild("/etc/nixos", "laptop", None, "add a package"),
        command("rebuild", &["/etc/nixos", "laptop", "add a package", "add_a_package"])
    );
}

#[test]
fn update_of_one_input() {
    assert_eq!(
        update("/etc/nixos", "laptop", Some("nixpkgs")),
        vec![
            command("update", &["/etc/nixos", "nixpkgs"]),
            command("rebuild", &["/etc/nixos", "laptop", "update nixpkgs", "update_nixpkgs"]),
        ]
    );
}

#[test]
fn update_of_everything() {
    assert_eq!(
        update("/etc/nixos", "laptop", None),
        vec![
            command("update", &["/etc/nixos"]),
            command("rebuild", &["/etc/nixos", "laptop", "update", "update"]),
        ]
    );
}

#[test]
fn sync_passes_path_and_host() {
    assert_eq!(sync("/etc/nixos", "laptop"), command("sync", &["/etc/nixos", "laptop"]));
}

#[test]
fn test_passes_path_and_host() {
    assert_eq!(
        command_dispatch::scripts::test("/etc/nixos", "laptop"),
        command("test", &["/etc/nixos", "laptop"])
    );
}

#[test]
fn clean_takes_nothing() {
    assert_eq!(clean(), command("clean", &[]));
}

#[test]
fn audit_passes_the_key() {
    assert_eq!(audit("secret-key"), command("audit", &["secret-key"]));
}
