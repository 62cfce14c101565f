//! Matching an argument vector against the synthesized interface.
//!
//! The grammar itself is `clap`'s: the interface is registered with a
//! `clap::Command`, and `clap` classifies the argument vector. What this module
//! proves is that the command handed to `clap` holds the interface that was
//! asked for; how `clap` reads an argument vector is taken on trust and goes
//! under the name `matched`.

use crate::grammar::{SubcommandSpec, SubcommandView, TopLevelSpec, TopLevelView};
use vstd::prelude::*;

verus! {

/// `clap::Command`, the builder of a command-line grammar. Nothing inside it
/// is visible to the verifier.
#[verifier::external_type_specification]
#[verifier::external_body]
pub struct ExCommand(clap::Command);

/// The name a `clap::Command` was created with (`Command::get_name`).
pub uninterp spec fn command_name(command: clap::Command) -> Seq<char>;

/// The short help text of a `clap::Command` (`Command::get_about`).
pub uninterp spec fn command_about(command: clap::Command) -> Option<Seq<char>>;

/// The long help text of a `clap::Command` (`Command::get_long_about`).
pub uninterp spec fn command_long_about(command: clap::Command) -> Option<Seq<char>>;

/// The author text of a `clap::Command` (`Command::get_author`).
pub uninterp spec fn command_author(command: clap::Command) -> Option<Seq<char>>;

/// The subcommands added to a `clap::Command`, in the order in which they
/// were added, each by its name and its short help text
/// (`Command::get_subcommands`).
pub uninterp spec fn command_subcommands(command: clap::Command) -> Seq<SubcommandView>;

/// Everything this library ever sets on a `clap::Command`.
pub struct GrammarView {
    pub name: Seq<char>,
    pub about: Option<Seq<char>>,
    pub long_about: Option<Seq<char>>,
    pub author: Option<Seq<char>>,
    pub subcommands: Seq<SubcommandView>,
}

/// What a `clap::Command` holds.
pub open spec fn shape(command: clap::Command) -> GrammarView {
    GrammarView {
        name: command_name(command),
        about: command_about(command),
        long_about: command_long_about(command),
        author: command_author(command),
        subcommands: command_subcommands(command),
    }
}

/// A command that carries nothing but a name and, possibly, a short help
/// text: the only kind that is ever added as a subcommand.
pub open spec fn is_leaf(command: clap::Command) -> bool {
    &&& command_long_about(command) is None
    &&& command_author(command) is None
    &&& command_subcommands(command).len() == 0
}

/// The argument vector was turned down by the grammar, or asked for help.
#[derive(Clone, Debug, PartialEq, Eq)]
pub struct GrammarMatchError {
    /// What to show the user: the help text, or what was wrong.
    pub message: String,
    /// Whether the message belongs on standard error (an error) or on
    /// standard output (help that was asked for).
    pub to_stderr: bool,
    /// The status to leave with: zero exactly for help that was asked for.
    pub status: i32,
}

/// A `GrammarMatchError` as contracts see it.
pub struct GrammarMatchErrorView {
    pub message: Seq<char>,
    pub to_stderr: bool,
    pub status: int,
}

impl View for GrammarMatchError {
    type V = GrammarMatchErrorView;

    open spec fn view(&self) -> GrammarMatchErrorView {
        GrammarMatchErrorView {
            message: self.message@,
            to_stderr: self.to_stderr,
            status: self.status as int,
        }
    }
}

impl GrammarMatchErrorView {
    /// Help leaves with status 0 on standard output; an error leaves with
    /// status 2 on standard error.
    pub open spec fn well_formed(self) -> bool {
        self.status == if self.to_stderr {
            2int
        } else {
            0int
        }
    }
}

/// How `clap` answers for a grammar and an argument vector, the program's
/// name first: `Ok(None)` where no subcommand was given, `Ok(Some(name))`
/// where the named subcommand was chosen, `Err(..)` where the arguments were
/// refused or asked for help.
pub uninterp spec fn matched(grammar: GrammarView, arguments: Seq<Seq<char>>) -> Result<
    Option<Seq<char>>,
    GrammarMatchErrorView,
>;

/// An answer of `clap`, in the terms of `matched`.
pub open spec fn answer_view(answer: Result<Option<String>, GrammarMatchError>) -> Result<
    Option<Seq<char>>,
    GrammarMatchErrorView,
> {
    match answer {
        Ok(chosen) => Ok(chosen.deep_view()),
        Err(error) => Err(error@),
    }
}

/// The name that `clap` keeps for the help subcommand it generates.
pub open spec fn reserved_name() -> Seq<char> {
    "help"@
}

/// Whether `clap` accepts these subcommands side by side: no name occurs
/// twice, and none is the name of the generated help subcommand.
pub open spec fn accepted_by_clap(subcommands: Seq<SubcommandView>) -> bool {
    &&& forall|i: int, j: int|
        0 <= i < j < subcommands.len() ==> subcommands[i].name != subcommands[j].name
    &&& forall|i: int|
        0 <= i < subcommands.len() ==> (#[trigger] subcommands[i]).name != reserved_name()
}

/// `clap::Command::new`: a command of the given name, with no help text, no
/// author and no subcommand.
#[verifier::external_body]
fn new_command(name: &str) -> (command: clap::Command)
    ensures
        command_name(command) == name@,
        command_about(command) is None,
        command_long_about(command) is None,
        command_author(command) is None,
        command_subcommands(command) == Seq::<SubcommandView>::empty(),
{
    clap::Command::new(name.to_string())
}

/// `clap::Command::about`: sets the short help text and leaves the rest.
#[verifier::external_body]
fn with_about(command: clap::Command, text: &str) -> (changed: clap::Command)
    ensures
        command_about(changed) == Some(text@),
        command_name(changed) == command_name(command),
        command_long_about(changed) == command_long_about(command),
        command_author(changed) == command_author(command),
        command_subcommands(changed) == command_subcommands(command),
{
    command.about(text.to_string())
}

/// `clap::Command::long_about`: sets the long help text and leaves the rest.
#[verifier::external_body]
fn with_long_about(command: clap::Command, text: &str) -> (changed: clap::Command)
    ensures
        command_long_about(changed) == Some(text@),
        command_name(changed) == command_name(command),
        command_about(changed) == command_about(command),
        command_author(changed) == command_author(command),
        command_subcommands(changed) == command_subcommands(command),
{
    command.long_about(text.to_string())
}

/// `clap::Command::author`: sets the author text and leaves the rest.
#[verifier::external_body]
fn with_author(command: clap::Command, text: &str) -> (changed: clap::Command)
    ensures
        command_author(changed) == Some(text@),
        command_name(changed) == command_name(command),
        command_about(changed) == command_about(command),
        command_long_about(changed) == command_long_about(command),
        command_subcommands(changed) == command_subcommands(command),
{
    command.author(text.to_string())
}

/// `clap::Command::subcommand`: appends `entry` to the subcommands and leaves
/// the rest.
#[verifier::external_body]
fn with_subcommand(command: clap::Command, entry: clap::Command) -> (changed: clap::Command)
    requires
        is_leaf(entry),
    ensures
        command_subcommands(changed) == command_subcommands(command).push(
            SubcommandView { name: command_name(entry), description: command_about(entry) },
        ),
        command_name(changed) == command_name(command),
        command_about(changed) == command_about(command),
        command_long_about(changed) == command_long_about(command),
        command_author(changed) == command_author(command),
{
    command.subcommand(entry)
}

/// `clap::Command::try_get_matches_from`, with its answer in plain values:
/// the chosen subcommand's name from `ArgMatches::subcommand_name`, or the
/// error's text, stream and status from `Error::render`, `Error::use_stderr`
/// and `Error::exit_code`.
///
/// A debug build of `clap` panics on a subcommand name that occurs twice or
/// collides with the generated `help`, so such a command is not admitted. A
/// chosen subcommand is always one that was added, and the status is 2 for
/// what goes to standard error and 0 otherwise.
#[verifier::external_body]
fn try_match(command: clap::Command, arguments: &Vec<String>) -> (answer: Result<
    Option<String>,
    GrammarMatchError,
>)
    requires
        accepted_by_clap(command_subcommands(command)),
    ensures
        answer_view(answer) == matched(shape(command), arguments.deep_view()),
        answer matches Ok(Some(name)) ==> exists|i: int|
            0 <= i < command_subcommands(command).len() && (
            #[trigger] command_subcommands(command)[i]).name == name@,
        answer matches Err(error) ==> error@.well_formed(),
{
    match command.try_get_matches_from(arguments) {
        Ok(found) => Ok(found.subcommand_name().map(String::from)),
        Err(error) => Err(
            GrammarMatchError {
                message: error.render().to_string(),
                to_stderr: error.use_stderr(),
                status: error.exit_code(),
            },
        ),
    }
}

/// What the grammar made of an argument vector.
#[derive(Clone, Debug, PartialEq, Eq)]
pub enum MatchOutcome {
    /// The arguments name no subcommand.
    NoSubcommand,
    /// The arguments chose the subcommand of this name.
    Subcommand(String),
    /// The arguments were turned down, or asked for help.
    Rejected(GrammarMatchError),
}

/// A `MatchOutcome` as contracts see it.
pub enum MatchOutcomeView {
    NoSubcommand,
    Subcommand(Seq<char>),
    Rejected(GrammarMatchErrorView),
}

impl View for MatchOutcome {
    type V = MatchOutcomeView;

    open spec fn view(&self) -> MatchOutcomeView {
        match self {
            MatchOutcome::NoSubcommand => MatchOutcomeView::NoSubcommand,
            MatchOutcome::Subcommand(name) => MatchOutcomeView::Subcommand(name@),
            MatchOutcome::Rejected(error) => MatchOutcomeView::Rejected(error@),
        }
    }
}

/// The outcome that an answer of `clap` stands for.
pub open spec fn outcome_of(answer: Result<Option<Seq<char>>, GrammarMatchErrorView>)
    -> MatchOutcomeView {
    match answer {
        Ok(None) => MatchOutcomeView::NoSubcommand,
        Ok(Some(name)) => MatchOutcomeView::Subcommand(name),
        Err(error) => MatchOutcomeView::Rejected(error),
    }
}

/// Whether the subcommand at `index` is handed to `clap`. It is, unless its
/// name is the reserved `help` or an earlier subcommand already bears its
/// name: `clap` keeps `help` for itself, and of equal names the first wins.
pub open spec fn is_registered(subcommands: Seq<SubcommandView>, index: int) -> bool {
    &&& subcommands[index].name != reserved_name()
    &&& forall|earlier: int|
        0 <= earlier < index ==> (#[trigger] subcommands[earlier]).name != subcommands[index].name
}

/// The subcommands among the first `count` that are handed to `clap`, in
/// their order.
pub open spec fn registered(subcommands: Seq<SubcommandView>, count: nat) -> Seq<SubcommandView>
    decreases count,
{
    if count == 0 {
        Seq::empty()
    } else {
        let before = registered(subcommands, (count - 1) as nat);
        if is_registered(subcommands, count - 1) {
            before.push(subcommands[count - 1])
        } else {
            before
        }
    }
}

/// The grammar that stands for an interface: the summary is the short help
/// text, the description the long one, and the subcommands are those that
/// `clap` can hold side by side.
pub open spec fn grammar_of(spec: TopLevelView) -> GrammarView {
    GrammarView {
        name: spec.name,
        about: spec.about,
        long_about: spec.description,
        author: spec.author,
        subcommands: registered(spec.subcommands, spec.subcommands.len()),
    }
}

/// Whether some subcommand bears the name.
pub open spec fn names(subcommands: Seq<SubcommandView>, name: Seq<char>) -> bool {
    exists|i: int| 0 <= i < subcommands.len() && (#[trigger] subcommands[i]).name == name
}

/// What is handed to `clap` comes from the interface, is accepted by `clap`,
/// and leaves out no name but the reserved one.
pub proof fn lemma_registered(subcommands: Seq<SubcommandView>, count: nat)
    requires
        count <= subcommands.len(),
    ensures
        accepted_by_clap(registered(subcommands, count)),
        forall|k: int|
            0 <= k < registered(subcommands, count).len() ==> exists|i: int|
                0 <= i < count && #[trigger] registered(subcommands, count)[k] == subcommands[i],
        forall|i: int|
            0 <= i < count && (#[trigger] subcommands[i]).name != reserved_name() ==> names(
                registered(subcommands, count),
                subcommands[i].name,
            ),
    decreases count,
{
    if count > 0 {
        let before = registered(subcommands, (count - 1) as nat);
        let after = registered(subcommands, count);
        let last = subcommands[count - 1];
        lemma_registered(subcommands, (count - 1) as nat);
        assert forall|k: int| 0 <= k < after.len() implies exists|i: int|
            0 <= i < count && #[trigger] after[k] == subcommands[i] by {
            if k < before.len() {
                let i = choose|i: int| 0 <= i < count - 1 && before[k] == subcommands[i];
                assert(after[k] == subcommands[i]);
            } else {
                assert(after[k] == subcommands[count - 1]);
            }
        }
        if is_registered(subcommands, count - 1) {
            assert forall|i: int, j: int| 0 <= i < j < after.len() implies after[i].name
                != after[j].name by {
                if j == before.len() {
                    let source = choose|s: int| 0 <= s < count - 1 && before[i] == subcommands[s];
                    assert(subcommands[source].name != last.name);
                }
            }
        }
        assert forall|i: int|
            0 <= i < count && (#[trigger] subcommands[i]).name != reserved_name() implies names(
            after,
            subcommands[i].name,
        ) by {
            if i < count - 1 {
                let k = choose|k: int|
                    0 <= k < before.len() && (#[trigger] before[k]).name == subcommands[i].name;
                assert(after[k].name == subcommands[i].name);
            } else if is_registered(subcommands, count - 1) {
                assert(after[before.len() as int].name == last.name);
            } else {
                let earlier = choose|earlier: int|
                    0 <= earlier < count - 1 && (#[trigger] subcommands[earlier]).name
                        == last.name;
                let k = choose|k: int|
                    0 <= k < before.len() && (#[trigger] before[k]).name
                        == subcommands[earlier].name;
                assert(after[k].name == last.name);
            }
        }
    }
}

/// Whether the subcommand at `index` is handed to `clap`.
fn registers(subcommands: &Vec<SubcommandSpec>, index: usize) -> (yes: bool)
    requires
        index < subcommands.len(),
    ensures
        yes == is_registered(subcommands.deep_view(), index as int),
{
    let reserved = String::from_str("help");
    if subcommands[index].name == reserved {
        return false;
    }
    let mut earlier: usize = 0;
    while earlier < index
        invariant
            earlier <= index < subcommands.len(),
            forall|e: int|
                0 <= e < earlier ==> (#[trigger] subcommands.deep_view()[e]).name
                    != subcommands.deep_view()[index as int].name,
        decreases index - earlier,
    {
        if subcommands[earlier].name == subcommands[index].name {
            assert(subcommands.deep_view()[earlier as int].name
                == subcommands.deep_view()[index as int].name);
            return false;
        }
        earlier = earlier + 1;
    }
    true
}

/// Registers an interface with `clap`: the texts that are present, and each
/// subcommand that `clap` can hold, with its description where it has one.
fn build_command(spec: &TopLevelSpec) -> (command: clap::Command)
    ensures
        shape(command) == grammar_of(spec@),
{
    let mut command = new_command(spec.name.as_str());
    if let Some(text) = &spec.about {
        command = with_about(command, text.as_str());
    }
    if let Some(text) = &spec.description {
        command = with_long_about(command, text.as_str());
    }
    if let Some(text) = &spec.author {
        command = with_author(command, text.as_str());
    }
    let mut i: usize = 0;
    while i < spec.subcommands.len()
        invariant
            i <= spec.subcommands.len(),
            command_name(command) == spec@.name,
            command_about(command) == spec@.about,
            command_long_about(command) == spec@.description,
            command_author(command) == spec@.author,
            command_subcommands(command) == registered(spec@.subcommands, i as nat),
        decreases spec.subcommands.len() - i,
    {
        if registers(&spec.subcommands, i) {
            let subcommand = &spec.subcommands[i];
            let mut entry = new_command(subcommand.name.as_str());
            if let Some(text) = &subcommand.description {
                entry = with_about(entry, text.as_str());
            }
            command = with_subcommand(command, entry);
        }
        i = i + 1;
    }
    command
}

/// Matches an argument vector, the program's name first, against an
/// interface.
///
/// The outcome is `clap`'s answer for the grammar of the interface. Whatever
/// `clap` answers, a chosen subcommand is one of the interface, and a
/// rejection carries status 0 with help and status 2 with an error.
pub fn match_arguments(spec: &TopLevelSpec, arguments: &Vec<String>) -> (outcome: MatchOutcome)
    ensures
        outcome@ == outcome_of(matched(grammar_of(spec@), arguments.deep_view())),
        outcome matches MatchOutcome::Subcommand(name) ==> names(spec@.subcommands, name@),
        outcome matches MatchOutcome::Rejected(error) ==> error@.well_formed(),
{
    let command = build_command(spec);
    proof {
        lemma_registered(spec@.subcommands, spec@.subcommands.len());
    }
    match try_match(command, arguments) {
        Ok(None) => MatchOutcome::NoSubcommand,
        Ok(Some(name)) => MatchOutcome::Subcommand(name),
        Err(error) => MatchOutcome::Rejected(error),
    }
}

} // verus!
