//! From a matched argument vector to what the process does next.
//!
//! One invocation runs straight through: the mappings are parsed, the
//! interface is synthesized and matched against the trailing arguments, and
//! the outcome is one of three ends: leave, hand control to an executable, or
//! report what the grammar said. Nothing is retried and nothing is kept from
//! one invocation to the next.

use crate::grammar::{argument_vector, full_arguments, synthesize, synthesized};
use crate::mapping::{CommandMapping, CommandMappingView};
use crate::matching::{
    grammar_of, match_arguments, matched, outcome_of, GrammarMatchError, GrammarMatchErrorView,
    MatchOutcome, MatchOutcomeView,
};
use vstd::prelude::*;

verus! {

/// The end of an invocation.
#[derive(Clone, Debug, PartialEq, Eq)]
pub enum Action {
    /// Leave with the given status; nothing else happens.
    Exit { status: i32 },
    /// Replace the process by the executable at `path`, started without
    /// arguments of its own: the synthesized subcommands declare none, so the
    /// grammar attributes none to them.
    TransferControl { path: String },
    /// Show the grammar's message on the stream it names and leave with its
    /// status.
    Report(GrammarMatchError),
}

/// An `Action` as contracts see it.
pub enum ActionView {
    Exit { status: int },
    TransferControl { path: Seq<char> },
    Report(GrammarMatchErrorView),
}

impl View for Action {
    type V = ActionView;

    open spec fn view(&self) -> ActionView {
        match self {
            Action::Exit { status } => ActionView::Exit { status: *status as int },
            Action::TransferControl { path } => ActionView::TransferControl { path: path@ },
            Action::Report(error) => ActionView::Report(error@),
        }
    }
}

/// The names of a table's mappings, in table order.
pub open spec fn mapping_names(table: Seq<CommandMappingView>) -> Seq<Seq<char>> {
    table.map_values(|mapping: CommandMappingView| mapping.name)
}

/// Where the mapping for a subcommand stands: the first entry of the table
/// that bears the name, if there is one.
pub open spec fn first_match(table: Seq<CommandMappingView>, name: Seq<char>) -> Option<int> {
    mapping_names(table).index_of_first(name)
}

/// `first_match` answers with an entry of the name before which no entry
/// bears it, or with nothing where no entry bears it: of mappings with one
/// name, the first in table order wins.
pub proof fn first_match_is_first(table: Seq<CommandMappingView>, name: Seq<char>)
    ensures
        match first_match(table, name) {
            Some(index) => {
                &&& 0 <= index < table.len()
                &&& table[index].name == name
                &&& forall|earlier: int| 0 <= earlier < index ==> table[earlier].name != name
            },
            None => forall|i: int| 0 <= i < table.len() ==> table[i].name != name,
        },
{
    let all = mapping_names(table);
    all.index_of_first_ensures(name);
    match first_match(table, name) {
        Some(index) => {
            assert forall|earlier: int| 0 <= earlier < index implies table[earlier].name
                != name by {
                assert(all[earlier] == table[earlier].name);
            }
        },
        None => {
            assert forall|i: int| 0 <= i < table.len() implies table[i].name != name by {
                assert(all[i] == table[i].name);
            }
        },
    }
}

/// Finds the mapping that serves a subcommand: the first in table order whose
/// name is the subcommand's.
pub fn lookup(mappings: &Vec<CommandMapping>, name: &str) -> (found: Option<usize>)
    ensures
        match found {
            Some(index) => index < mappings.len() && first_match(mappings.deep_view(), name@)
                == Some(index as int),
            None => first_match(mappings.deep_view(), name@) is None,
        },
{
    let wanted = String::from_str(name);
    let mut i: usize = 0;
    proof {
        first_match_is_first(mappings.deep_view(), name@);
    }
    while i < mappings.len()
        invariant
            i <= mappings.len(),
            wanted@ == name@,
            forall|j: int| 0 <= j < i ==> (#[trigger] mappings.deep_view()[j]).name != name@,
        decreases mappings.len() - i,
    {
        if mappings[i].name == wanted {
            proof {
                first_match_is_first(mappings.deep_view(), name@);
                assert(mappings.deep_view()[i as int].name == name@);
            }
            return Some(i);
        }
        i = i + 1;
    }
    proof {
        first_match_is_first(mappings.deep_view(), name@);
        if first_match(mappings.deep_view(), name@) is Some {
            let index = first_match(mappings.deep_view(), name@)->0;
            assert(mappings.deep_view()[index].name == name@);
        }
    }
    None
}

/// The end that an outcome of the matching leads to.
///
/// Without a subcommand there is nothing to do and the invocation succeeds.
/// A chosen subcommand hands control to the path of its first mapping; a name
/// that no mapping bears leads nowhere and the invocation succeeds as well.
/// A rejection is reported as it is.
pub open spec fn decided(table: Seq<CommandMappingView>, outcome: MatchOutcomeView) -> ActionView {
    match outcome {
        MatchOutcomeView::NoSubcommand => ActionView::Exit { status: 0 },
        MatchOutcomeView::Subcommand(name) => match first_match(table, name) {
            Some(index) => ActionView::TransferControl { path: table[index].path },
            None => ActionView::Exit { status: 0 },
        },
        MatchOutcomeView::Rejected(error) => ActionView::Report(error),
    }
}

/// Decides what to do about an outcome of the matching.
pub fn dispatch(mappings: &Vec<CommandMapping>, outcome: MatchOutcome) -> (action: Action)
    ensures
        action@ == decided(mappings.deep_view(), outcome@),
{
    match outcome {
        MatchOutcome::NoSubcommand => Action::Exit { status: 0 },
        MatchOutcome::Subcommand(name) => match lookup(mappings, name.as_str()) {
            Some(index) => Action::TransferControl { path: mappings[index].path.clone() },
            None => Action::Exit { status: 0 },
        },
        MatchOutcome::Rejected(error) => Action::Report(error),
    }
}

/// The end of an invocation with the given mappings, texts and trailing
/// arguments, as a function of them and of `clap`'s answer alone.
pub open spec fn run_decision(
    table: Seq<CommandMappingView>,
    name: Seq<char>,
    description: Option<Seq<char>>,
    author: Option<Seq<char>>,
    about: Option<Seq<char>>,
    trailing: Seq<Seq<char>>,
) -> ActionView {
    decided(
        table,
        outcome_of(
            matched(
                grammar_of(synthesized(table, name, description, author, about)),
                full_arguments(name, trailing),
            ),
        ),
    )
}

/// Runs one invocation up to its end: synthesizes the interface, matches the
/// trailing arguments against it behind the program's name, and decides.
///
/// Whatever the grammar answers, a subcommand that it chose is served: the
/// end is then a transfer of control, never the silent success of a name
/// without mapping. A report carries status 0 for help and 2 for an error.
pub fn run(
    mappings: &Vec<CommandMapping>,
    name: &str,
    description: Option<&str>,
    author: Option<&str>,
    about: Option<&str>,
    trailing: &Vec<String>,
) -> (action: Action)
    ensures
        action@ == run_decision(
            mappings.deep_view(),
            name@,
            description.deep_view(),
            author.deep_view(),
            about.deep_view(),
            trailing.deep_view(),
        ),
        action is Exit ==> action@ == (ActionView::Exit { status: 0 }),
        action is Exit ==> matched(
            grammar_of(
                synthesized(
                    mappings.deep_view(),
                    name@,
                    description.deep_view(),
                    author.deep_view(),
                    about.deep_view(),
                ),
            ),
            full_arguments(name@, trailing.deep_view()),
        ) == Ok::<Option<Seq<char>>, GrammarMatchErrorView>(None),
        action matches Action::Report(error) ==> error@.well_formed(),
{
    let spec = synthesize(mappings, name, description, author, about);
    let arguments = argument_vector(name, trailing);
    let outcome = match_arguments(&spec, &arguments);
    proof {
        if let MatchOutcomeView::Subcommand(chosen) = outcome@ {
            let table = mappings.deep_view();
            let i = choose|i: int|
                0 <= i < spec@.subcommands.len() && (#[trigger] spec@.subcommands[i]).name
                    == chosen;
            assert(table[i].name == chosen);
            first_match_is_first(table, chosen);
        }
    }
    dispatch(mappings, outcome)
}

/// The status to leave with after the executable of a mapping could not be
/// started: the operating system's error code where it can serve as a status
/// of failure, and 1 otherwise.
pub open spec fn failure_status_of(os_code: Option<i32>) -> int {
    match os_code {
        Some(code) if 1 <= code <= 255 => code as int,
        _ => 1,
    }
}

/// Decides the status after a failed transfer of control. It is never 0: a
/// failure to start the executable does not pass for success.
pub fn failure_status(os_code: Option<i32>) -> (status: i32)
    ensures
        status == failure_status_of(os_code),
        1 <= status <= 255,
{
    match os_code {
        Some(code) => if 1 <= code && code <= 255 {
            code
        } else {
            1
        },
        None => 1,
    }
}

/// Two invocations with the same mappings, texts and trailing arguments come
/// to the same end: the decision keeps nothing from one run to the next.
pub proof fn run_is_repeatable(
    table: Seq<CommandMappingView>,
    name: Seq<char>,
    description: Option<Seq<char>>,
    author: Option<Seq<char>>,
    about: Option<Seq<char>>,
    trailing: Seq<Seq<char>>,
    first: ActionView,
    second: ActionView,
)
    requires
        first == run_decision(table, name, description, author, about, trailing),
        second == run_decision(table, name, description, author, about, trailing),
    ensures
        first == second,
{
}

} // verus!
