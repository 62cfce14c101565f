use command_dispatch::dispatch::{dispatch, failure_status, lookup, run, Action};
use command_dispatch::grammar::{argument_vector, synthesize, SubcommandSpec, TopLevelSpec};
use command_dispatch::mapping::CommandMapping;
use command_dispatch::matching::{match_arguments, GrammarMatchError, MatchOutcome};

fn mapping(name: &str, path: &str, description: Option<&str>) -> CommandMapping {
    CommandMapping {
        name: name.to_string(),
        path: path.to_string(),
        description: description.map(|text| text.to_string()),
    }
}

fn table() -> Vec<CommandMapping> {
    vec![mapping("build", "/bin/true", None), mapping("fail", "/bin/false", Some("desc"))]
}

fn arguments(tokens: &[&str]) -> Vec<String> {
    tokens.iter().map(|token| token.to_string()).collect()
}

fn run_tool(mappings: &Vec<CommandMapping>, trailing: &[&str]) -> Action {
    run(mappings, "tool", None, None, None, &arguments(trailing))
}

fn report(action: Action) -> GrammarMatchError {
    match action {
        Action::Report(error) => error,
        other => panic!("expected a report, got {:?}", other),
    }
}

#[test]
fn build_transfers_control_to_bin_true() {
    assert_eq!(
        run_tool(&table(), &["build"]),
        Action::TransferControl { path: "/bin/true".to_string() }
    );
}

#[test]
fn fail_transfers_control_to_bin_false() {
    assert_eq!(
        run_tool(&table(), &["fail"]),
        Action::TransferControl { path: "/bin/false".to_string() }
    );
}

#[test]
fn unknown_subcommand_is_reported_as_an_error() {
    let error = report(run_tool(&table(), &["nonexistent"]));
    assert_ne!(error.status, 0);
    assert_eq!(error.status, 2);
    assert!(error.to_stderr);
    assert!(error.message.contains("nonexistent"));
}

#[test]
fn no_trailing_arguments_exit_successfully() {
    assert_eq!(run_tool(&table(), &[]), Action::Exit { status: 0 });
}

#[test]
fn help_lists_the_subcommands() {
    let error = report(run_tool(&table(), &["--help"]));
    assert_eq!(error.status, 0);
    assert!(!error.to_stderr);
    assert!(error.message.contains("tool"));
    assert!(error.message.contains("build"));
    assert!(error.message.contains("fail"));
    assert!(error.message.contains("desc"));
}

#[test]
fn short_help_is_help_too() {
    let error = report(run_tool(&table(), &["-h"]));
    assert_eq!(error.status, 0);
    assert!(error.message.contains("build"));
}

#[test]
fn help_of_a_subcommand_shows_its_description() {
    let error = report(run_tool(&table(), &["fail", "--help"]));
    assert_eq!(error.status, 0);
    assert!(!error.to_stderr);
    assert!(error.message.contains("desc"));
}

#[test]
fn the_same_invocation_ends_the_same_way() {
    for trailing in [vec!["build"], vec!["fail"], vec!["nonexistent"], vec![], vec!["--help"]] {
        assert_eq!(run_tool(&table(), &trailing), run_tool(&table(), &trailing));
    }
}

#[test]
fn arguments_after_a_subcommand_are_refused() {
    let error = report(run_tool(&table(), &["build", "extra"]));
    assert_eq!(error.status, 2);
    assert!(error.to_stderr);
    assert!(error.message.contains("extra"));
}

#[test]
fn top_level_texts_show_in_help() {
    let action = run(
        &table(),
        "tool",
        Some("A long description of the tool"),
        Some("Jane Doe"),
        Some("Short summary"),
        &arguments(&["--help"]),
    );
    let long = report(action);
    assert_eq!(long.status, 0);
    assert!(long.message.contains("A long description of the tool"));
    let action = run(
        &table(),
        "tool",
        Some("A long description of the tool"),
        Some("Jane Doe"),
        Some("Short summary"),
        &arguments(&["-h"]),
    );
    let short = report(action);
    assert!(short.message.contains("Short summary"));
    assert!(!short.message.contains("A long description of the tool"));
}

#[test]
fn absent_texts_stay_absent() {
    let error = report(run_tool(&vec![mapping("build", "/bin/true", None)], &["--help"]));
    assert!(error.message.starts_with("Usage: tool"));
}

#[test]
fn duplicate_names_resolve_to_the_first_mapping() {
    let mappings = vec![
        mapping("build", "/bin/true", Some("first")),
        mapping("fail", "/bin/false", None),
        mapping("build", "/bin/echo", Some("second")),
    ];
    assert_eq!(
        run_tool(&mappings, &["build"]),
        Action::TransferControl { path: "/bin/true".to_string() }
    );
    let help = report(run_tool(&mappings, &["--help"]));
    assert!(help.message.contains("first"));
    assert!(!help.message.contains("second"));
}

#[test]
fn help_is_kept_for_the_grammar() {
    let mappings = vec![mapping("help", "/bin/echo", Some("mine")), mapping("build", "/bin/true", None)];
    let help = report(run_tool(&mappings, &["help"]));
    assert_eq!(help.status, 0);
    assert!(help.message.contains("build"));
    assert!(!help.message.contains("mine"));
    assert_eq!(
        run_tool(&mappings, &["build"]),
        Action::TransferControl { path: "/bin/true".to_string() }
    );
}

#[test]
fn an_empty_table_has_no_subcommands() {
    assert_eq!(run_tool(&Vec::new(), &[]), Action::Exit { status: 0 });
    let error = report(run_tool(&Vec::new(), &["build"]));
    assert_eq!(error.status, 2);
}

#[test]
fn synthesize_follows_the_table() {
    let spec = synthesize(&table(), "tool", Some("long"), None, Some("short"));
    assert_eq!(
        spec,
        TopLevelSpec {
            name: "tool".to_string(),
            description: Some("long".to_string()),
            author: None,
            about: Some("short".to_string()),
            subcommands: vec![
                SubcommandSpec { name: "build".to_string(), description: None },
                SubcommandSpec { name: "fail".to_string(), description: Some("desc".to_string()) },
            ],
        }
    );
}

#[test]
fn synthesize_keeps_duplicates() {
    let mappings = vec![mapping("a", "/x", None), mapping("a", "/y", Some("again"))];
    let spec = synthesize(&mappings, "tool", None, Some("me"), None);
    assert_eq!(spec.author, Some("me".to_string()));
    assert_eq!(
        spec.subcommands,
        vec![
            SubcommandSpec { name: "a".to_string(), description: None },
            SubcommandSpec { name: "a".to_string(), description: Some("again".to_string()) },
        ]
    );
}

#[test]
fn argument_vector_starts_with_the_name() {
    assert_eq!(argument_vector("tool", &arguments(&["build", "-x"])), arguments(&["tool", "build", "-x"]));
    assert_eq!(argument_vector("tool", &Vec::new()), arguments(&["tool"]));
}

#[test]
fn match_arguments_classifies() {
    let spec = synthesize(&table(), "tool", None, None, None);
    assert_eq!(match_arguments(&spec, &arguments(&["tool"])), MatchOutcome::NoSubcommand);
    assert_eq!(
        match_arguments(&spec, &arguments(&["tool", "fail"])),
        MatchOutcome::Subcommand("fail".to_string())
    );
    assert!(matches!(
        match_arguments(&spec, &arguments(&["tool", "--nope"])),
        MatchOutcome::Rejected(_)
    ));
}

#[test]
fn lookup_finds_the_first_of_a_name() {
    let mappings =
        vec![mapping("a", "/1", None), mapping("b", "/2", None), mapping("a", "/3", None)];
    assert_eq!(lookup(&mappings, "a"), Some(0));
    assert_eq!(lookup(&mappings, "b"), Some(1));
    assert_eq!(lookup(&mappings, "c"), None);
    assert_eq!(lookup(&Vec::new(), "a"), None);
}

#[test]
fn dispatch_decides_by_outcome() {
    assert_eq!(dispatch(&table(), MatchOutcome::NoSubcommand), Action::Exit { status: 0 });
    assert_eq!(
        dispatch(&table(), MatchOutcome::Subcommand("fail".to_string())),
        Action::TransferControl { path: "/bin/false".to_string() }
    );
    assert_eq!(
        dispatch(&table(), MatchOutcome::Subcommand("missing".to_string())),
        Action::Exit { status: 0 }
    );
    let error = GrammarMatchError { message: "no".to_string(), to_stderr: true, status: 2 };
    assert_eq!(
        dispatch(&table(), MatchOutcome::Rejected(error.clone())),
        Action::Report(error)
    );
}

#[test]
fn failure_status_is_never_zero() {
    assert_eq!(failure_status(Some(2)), 2);
    assert_eq!(failure_status(Some(13)), 13);
    assert_eq!(failure_status(Some(255)), 255);
    assert_eq!(failure_status(Some(1)), 1);
    assert_eq!(failure_status(Some(0)), 1);
    assert_eq!(failure_status(Some(256)), 1);
    assert_eq!(failure_status(Some(-1)), 1);
    assert_eq!(failure_status(None), 1);
}
