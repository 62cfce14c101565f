//! The command-line interface that a mapping table asks for.

use crate::mapping::{CommandMapping, CommandMappingView};
use vstd::prelude::*;

verus! {

/// One subcommand of the synthesized interface.
#[derive(Clone, Debug, PartialEq, Eq)]
pub struct SubcommandSpec {
    /// The token that selects the subcommand.
    pub name: String,
    /// Help text shown beside the name.
    pub description: Option<String>,
}

/// A `SubcommandSpec` as contracts see it.
pub struct SubcommandView {
    pub name: Seq<char>,
    pub description: Option<Seq<char>>,
}

impl View for SubcommandSpec {
    type V = SubcommandView;

    open spec fn view(&self) -> SubcommandView {
        SubcommandView { name: self.name@, description: self.description.deep_view() }
    }
}

impl DeepView for SubcommandSpec {
    type V = SubcommandView;

    open spec fn deep_view(&self) -> SubcommandView {
        self@
    }
}

/// The root of the synthesized interface: the program's name, its optional
/// texts, and one subcommand for each mapping.
#[derive(Clone, Debug, PartialEq, Eq)]
pub struct TopLevelSpec {
    /// The name under which the subcommands are grouped.
    pub name: String,
    /// The long description of the program.
    pub description: Option<String>,
    /// Who wrote the program.
    pub author: Option<String>,
    /// The one-line summary of the program.
    pub about: Option<String>,
    /// The subcommands, in the order in which the mappings were declared.
    pub subcommands: Vec<SubcommandSpec>,
}

/// A `TopLevelSpec` as contracts see it.
pub struct TopLevelView {
    pub name: Seq<char>,
    pub description: Option<Seq<char>>,
    pub author: Option<Seq<char>>,
    pub about: Option<Seq<char>>,
    pub subcommands: Seq<SubcommandView>,
}

impl View for TopLevelSpec {
    type V = TopLevelView;

    open spec fn view(&self) -> TopLevelView {
        TopLevelView {
            name: self.name@,
            description: self.description.deep_view(),
            author: self.author.deep_view(),
            about: self.about.deep_view(),
            subcommands: self.subcommands.deep_view(),
        }
    }
}

/// The subcommand that stands for a mapping: its name and its description.
pub open spec fn subcommand_of(mapping: CommandMappingView) -> SubcommandView {
    SubcommandView { name: mapping.name, description: mapping.description }
}

/// The interface that `synthesize` builds: the texts as given, and the
/// mappings' subcommands one for one, in table order.
pub open spec fn synthesized(
    table: Seq<CommandMappingView>,
    name: Seq<char>,
    description: Option<Seq<char>>,
    author: Option<Seq<char>>,
    about: Option<Seq<char>>,
) -> TopLevelView {
    TopLevelView {
        name,
        description,
        author,
        about,
        subcommands: table.map_values(|mapping: CommandMappingView| subcommand_of(mapping)),
    }
}

/// Whether some subcommand of the interface bears the name.
pub open spec fn has_subcommand(spec: TopLevelView, name: Seq<char>) -> bool {
    exists|i: int| 0 <= i < spec.subcommands.len() && (#[trigger] spec.subcommands[i]).name == name
}

/// Synthesis neither invents nor drops an entry: the interface has one
/// subcommand for each mapping, in table order, with the mapping's name and
/// description, so a name is a subcommand's exactly when it is a mapping's.
pub proof fn synthesis_keeps_the_table(
    table: Seq<CommandMappingView>,
    name: Seq<char>,
    description: Option<Seq<char>>,
    author: Option<Seq<char>>,
    about: Option<Seq<char>>,
)
    ensures
        synthesized(table, name, description, author, about).subcommands.len() == table.len(),
        forall|i: int|
            0 <= i < table.len() ==> #[trigger] synthesized(
                table,
                name,
                description,
                author,
                about,
            ).subcommands[i] == subcommand_of(table[i]),
        forall|wanted: Seq<char>|
            has_subcommand(synthesized(table, name, description, author, about), wanted) <==> (
            exists|i: int| 0 <= i < table.len() && (#[trigger] table[i]).name == wanted),
{
    let spec = synthesized(table, name, description, author, about);
    assert forall|wanted: Seq<char>| has_subcommand(spec, wanted) <==> (exists|i: int|
        0 <= i < table.len() && (#[trigger] table[i]).name == wanted) by {
        if has_subcommand(spec, wanted) {
            let i = choose|i: int|
                0 <= i < spec.subcommands.len() && (#[trigger] spec.subcommands[i]).name == wanted;
            assert(table[i].name == wanted);
        }
        if exists|i: int| 0 <= i < table.len() && (#[trigger] table[i]).name == wanted {
            let i = choose|i: int| 0 <= i < table.len() && (#[trigger] table[i]).name == wanted;
            assert(spec.subcommands[i].name == wanted);
        }
    }
}

/// An owned copy of an optional text.
fn owned_text(text: Option<&str>) -> (copy: Option<String>)
    ensures
        copy.deep_view() == text.deep_view(),
{
    match text {
        Some(text) => Some(String::from_str(text)),
        None => None,
    }
}

/// A copy of an optional text.
fn cloned_text(text: &Option<String>) -> (copy: Option<String>)
    ensures
        copy.deep_view() == text.deep_view(),
{
    match text {
        Some(text) => Some(text.clone()),
        None => None,
    }
}

/// Builds the interface for a mapping table. A text that is absent stays
/// absent; no subcommand is invented, dropped or reordered.
pub fn synthesize(
    mappings: &Vec<CommandMapping>,
    name: &str,
    description: Option<&str>,
    author: Option<&str>,
    about: Option<&str>,
) -> (spec: TopLevelSpec)
    ensures
        spec@ == synthesized(
            mappings.deep_view(),
            name@,
            description.deep_view(),
            author.deep_view(),
            about.deep_view(),
        ),
{
    let mut subcommands: Vec<SubcommandSpec> = Vec::new();
    let mut i: usize = 0;
    while i < mappings.len()
        invariant
            i <= mappings.len(),
            subcommands.len() == i,
            forall|j: int| 0 <= j < i ==> subcommands[j]@ == subcommand_of(#[trigger] mappings[j]@),
        decreases mappings.len() - i,
    {
        let mapping = &mappings[i];
        subcommands.push(
            SubcommandSpec {
                name: mapping.name.clone(),
                description: cloned_text(&mapping.description),
            },
        );
        i = i + 1;
    }
    let spec = TopLevelSpec {
        name: String::from_str(name),
        description: owned_text(description),
        author: owned_text(author),
        about: owned_text(about),
        subcommands,
    };
    proof {
        assert(spec@.subcommands =~= mappings.deep_view().map_values(
            |mapping: CommandMappingView| subcommand_of(mapping),
        ));
    }
    spec
}

/// The argument vector handed to the grammar: the program's name, then the
/// trailing arguments.
pub open spec fn full_arguments(name: Seq<char>, trailing: Seq<Seq<char>>) -> Seq<Seq<char>> {
    seq![name] + trailing
}

/// Puts the program's name in front of the trailing arguments, where the
/// grammar expects it.
pub fn argument_vector(name: &str, trailing: &Vec<String>) -> (arguments: Vec<String>)
    ensures
        arguments.deep_view() == full_arguments(name@, trailing.deep_view()),
{
    let mut arguments: Vec<String> = Vec::new();
    arguments.push(String::from_str(name));
    let mut i: usize = 0;
    while i < trailing.len()
        invariant
            i <= trailing.len(),
            arguments.len() == i + 1,
            arguments[0]@ == name@,
            forall|j: int| 1 <= j <= i ==> #[trigger] arguments[j]@ == trailing[j - 1]@,
        decreases trailing.len() - i,
    {
        arguments.push(trailing[i].clone());
        i = i + 1;
    }
    proof {
        assert(arguments.deep_view() =~= full_arguments(name@, trailing.deep_view()));
    }
    arguments
}

} // verus!
