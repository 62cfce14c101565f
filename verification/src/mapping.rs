//! Command mappings and the parser of their `name:path[:description]` form.

use crate::text::{find_char, lemma_first_mark};
use vstd::prelude::*;

verus! {

/// One binding of a subcommand name to the executable that serves it.
#[derive(Clone, Debug, PartialEq, Eq)]
pub struct CommandMapping {
    /// The subcommand under which the executable is offered.
    pub name: String,
    /// A file system path, or the bare name of an executable.
    pub path: String,
    /// Text shown beside the subcommand in the generated help.
    pub description: Option<String>,
}

/// A `CommandMapping` as contracts see it.
pub struct CommandMappingView {
    pub name: Seq<char>,
    pub path: Seq<char>,
    pub description: Option<Seq<char>>,
}

impl View for CommandMapping {
    type V = CommandMappingView;

    open spec fn view(&self) -> CommandMappingView {
        CommandMappingView {
            name: self.name@,
            path: self.path@,
            description: self.description.deep_view(),
        }
    }
}

impl DeepView for CommandMapping {
    type V = CommandMappingView;

    open spec fn deep_view(&self) -> CommandMappingView {
        self@
    }
}

/// Why a declaration is not a mapping.
#[derive(Clone, Copy, Debug, PartialEq, Eq, Structural)]
pub enum ParseError {
    /// The declaration holds no `:`, so it names no path.
    MalformedMapping,
}

impl ParseError {
    /// The text shown to the user for this error.
    pub fn message(&self) -> (text: String)
        ensures
            text@ == "Mapping must be at least name:path"@,
    {
        String::from_str("Mapping must be at least name:path")
    }
}

/// The mapping that a declaration stands for.
///
/// The declaration is cut at its first `:` and what follows is cut once more
/// at its first `:`; whatever comes after the second cut is the description,
/// further colons included.
pub open spec fn parsed(raw: Seq<char>) -> Result<CommandMappingView, ParseError> {
    match raw.index_of_first(':') {
        None => Err(ParseError::MalformedMapping),
        Some(cut) => {
            let rest = raw.skip(cut + 1);
            match rest.index_of_first(':') {
                None => Ok(CommandMappingView { name: raw.take(cut), path: rest, description: None }),
                Some(second) => Ok(
                    CommandMappingView {
                        name: raw.take(cut),
                        path: rest.take(second),
                        description: Some(rest.skip(second + 1)),
                    },
                ),
            }
        },
    }
}

/// Reads one `name:path[:description]` declaration.
pub fn parse(raw: &str) -> (outcome: Result<CommandMapping, ParseError>)
    ensures
        outcome is Err <==> !raw@.contains(':'),
        match outcome {
            Ok(mapping) => parsed(raw@) == Ok::<CommandMappingView, ParseError>(mapping@),
            Err(error) => parsed(raw@) == Err::<CommandMappingView, ParseError>(error),
        },
{
    proof {
        raw@.index_of_first_ensures(':');
    }
    let cut = match find_char(raw, ':') {
        Some(cut) => cut,
        None => {
            return Err(ParseError::MalformedMapping);
        },
    };
    let length = raw.unicode_len();
    let name = raw.substring_char(0, cut);
    let rest = raw.substring_char(cut + 1, length);
    proof {
        rest@.index_of_first_ensures(':');
    }
    let (path, description) = match find_char(rest, ':') {
        Some(second) => {
            let rest_length = rest.unicode_len();
            let text = rest.substring_char(second + 1, rest_length);
            (rest.substring_char(0, second), Some(String::from_str(text)))
        },
        None => (rest, None),
    };
    Ok(CommandMapping { name: String::from_str(name), path: String::from_str(path), description })
}

/// The table that a run of declarations stands for: the mappings in the
/// order of their declarations, with nothing merged or left out; no table at
/// all where one declaration is malformed.
pub open spec fn parsed_table(declarations: Seq<Seq<char>>) -> Result<
    Seq<CommandMappingView>,
    ParseError,
> {
    if forall|i: int| 0 <= i < declarations.len() ==> (#[trigger] declarations[i]).contains(':') {
        Ok(declarations.map_values(|raw: Seq<char>| parsed(raw)->Ok_0))
    } else {
        Err(ParseError::MalformedMapping)
    }
}

/// Reads the declarations of one invocation into its mapping table. The first
/// malformed declaration ends the reading, and no partial table comes back.
pub fn parse_table(declarations: &Vec<String>) -> (outcome: Result<
    Vec<CommandMapping>,
    ParseError,
>)
    ensures
        match outcome {
            Ok(table) => parsed_table(declarations.deep_view()) == Ok::<
                Seq<CommandMappingView>,
                ParseError,
            >(table.deep_view()),
            Err(error) => parsed_table(declarations.deep_view()) == Err::<
                Seq<CommandMappingView>,
                ParseError,
            >(error),
        },
{
    let mut table: Vec<CommandMapping> = Vec::new();
    let mut i: usize = 0;
    while i < declarations.len()
        invariant
            i <= declarations.len(),
            table.len() == i,
            forall|j: int|
                0 <= j < i ==> (#[trigger] declarations.deep_view()[j]).contains(':') && parsed(
                    declarations.deep_view()[j],
                ) == Ok::<CommandMappingView, ParseError>(table.deep_view()[j]),
        decreases declarations.len() - i,
    {
        match parse(declarations[i].as_str()) {
            Ok(mapping) => {
                table.push(mapping);
            },
            Err(error) => {
                assert(!declarations.deep_view()[i as int].contains(':'));
                return Err(error);
            },
        }
        i = i + 1;
    }
    proof {
        assert(table.deep_view() =~= declarations.deep_view().map_values(
            |raw: Seq<char>| parsed(raw)->Ok_0,
        ));
    }
    Ok(table)
}

/// The declaration that spells out a mapping: its parts, joined by `:`.
pub open spec fn declared(mapping: CommandMappingView) -> Seq<char> {
    let bound = mapping.name + seq![':'] + mapping.path;
    match mapping.description {
        None => bound,
        Some(text) => bound + seq![':'] + text,
    }
}

/// A declaration without any `:` is refused as malformed.
pub proof fn parse_refuses_colon_free(raw: Seq<char>)
    requires
        !raw.contains(':'),
    ensures
        parsed(raw) == Err::<CommandMappingView, ParseError>(ParseError::MalformedMapping),
{
    raw.index_of_first_ensures(':');
}

/// `name:path` yields exactly that name and path, and no description.
pub proof fn parse_two_parts(name: Seq<char>, path: Seq<char>)
    requires
        !name.contains(':'),
        !path.contains(':'),
    ensures
        parsed(name + seq![':'] + path) == Ok::<CommandMappingView, ParseError>(
            CommandMappingView { name, path, description: None },
        ),
{
    lemma_first_mark(name, ':', path);
    path.index_of_first_ensures(':');
}

/// `name:path:description` yields exactly those three parts; the description
/// may itself hold colons.
pub proof fn parse_three_parts(name: Seq<char>, path: Seq<char>, description: Seq<char>)
    requires
        !name.contains(':'),
        !path.contains(':'),
    ensures
        parsed(name + seq![':'] + path + seq![':'] + description) == Ok::<
            CommandMappingView,
            ParseError,
        >(CommandMappingView { name, path, description: Some(description) }),
{
    let rest = path + seq![':'] + description;
    assert(name + seq![':'] + path + seq![':'] + description =~= name + seq![':'] + rest);
    lemma_first_mark(name, ':', rest);
    lemma_first_mark(path, ':', description);
}

/// Every declaration with a `:` is accepted, its name and path hold no `:`,
/// and joining the parts again gives the declaration back. So the description
/// is absent exactly when the declaration is `name:path` and nothing more.
pub proof fn parse_keeps_every_part(raw: Seq<char>)
    requires
        raw.contains(':'),
    ensures
        parsed(raw) is Ok,
        !parsed(raw)->Ok_0.name.contains(':'),
        !parsed(raw)->Ok_0.path.contains(':'),
        declared(parsed(raw)->Ok_0) == raw,
{
    raw.index_of_first_ensures(':');
    let cut = raw.index_of_first(':')->0;
    let rest = raw.skip(cut + 1);
    rest.index_of_first_ensures(':');
    let name = raw.take(cut);
    if name.contains(':') {
        let at = choose|i: int| 0 <= i < name.len() && name[i] == ':';
        assert(raw[at] == ':');
    }
    match rest.index_of_first(':') {
        None => {
            assert(name + seq![':'] + rest =~= raw);
        },
        Some(second) => {
            let path = rest.take(second);
            if path.contains(':') {
                let at = choose|i: int| 0 <= i < path.len() && path[i] == ':';
                assert(rest[at] == ':');
            }
            assert(name + seq![':'] + path + seq![':'] + rest.skip(second + 1) =~= raw);
        },
    }
}

} // verus!
