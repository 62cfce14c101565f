//! Invocations of the maintenance scripts.

use vstd::prelude::*;

verus! {

/// What a character of a label becomes: letters, digits and `: _ . -` stay,
/// a space turns into an underscore, anything else is dropped.
pub open spec fn sanitized_char(c: char) -> Option<char> {
    if ('a' <= c && c <= 'z') || ('A' <= c && c <= 'Z') || ('0' <= c && c <= '9') || c == ':'
        || c == '_' || c == '.' || c == '-' {
        Some(c)
    } else if c == ' ' {
        Some('_')
    } else {
        None
    }
}

/// The label that `sanitize_label` makes of `input`.
pub open spec fn sanitized(input: Seq<char>) -> Seq<char> {
    input.filter_map(|c: char| sanitized_char(c))
}

/// Reduces a free-form label to the characters a generation label may hold.
pub fn sanitize_label(input: &str) -> (label: String)
    ensures
        label@ == sanitized(input@),
{
    let mut label = String::new();
    for c in it: input.chars()
        invariant
            it.seq() == input@,
            label@ == sanitized(input@.take(it.index())),
    {
        proof {
            let upto = input@.take(it.index() + 1);
            assert(upto.drop_last() == input@.take(it.index()));
            assert(upto.last() == c);
        }
        if (c >= 'a' && c <= 'z') || (c >= 'A' && c <= 'Z') || (c >= '0' && c <= '9') || c == ':'
            || c == '_' || c == '.' || c == '-' {
            label.push(c);
        } else if c == ' ' {
            label.push('_');
        }
    }
    proof {
        assert(input@.take(input@.len() as int) == input@);
    }
    label
}

/// One run of a maintenance script: which script, and the arguments it gets.
///
/// The script is named without directory and extension; where the scripts
/// are installed is for the caller to know.
#[derive(Clone, Debug, PartialEq, Eq)]
pub struct ScriptCommand {
    /// The script's name, such as `rebuild`.
    pub script: String,
    /// The arguments, in the order in which the script receives them.
    pub args: Vec<String>,
}

/// A `ScriptCommand` as contracts see it.
pub struct ScriptCommandView {
    pub script: Seq<char>,
    pub args: Seq<Seq<char>>,
}

impl View for ScriptCommand {
    type V = ScriptCommandView;

    open spec fn view(&self) -> ScriptCommandView {
        ScriptCommandView { script: self.script@, args: self.args.deep_view() }
    }
}

impl DeepView for ScriptCommand {
    type V = ScriptCommandView;

    open spec fn deep_view(&self) -> ScriptCommandView {
        self@
    }
}

impl ScriptCommand {
    /// Adds one argument after those already present.
    pub fn arg(&mut self, value: &str)
        ensures
            final(self)@ == (ScriptCommandView {
                script: old(self)@.script,
                args: old(self)@.args.push(value@),
            }),
    {
        self.args.push(String::from_str(value));
        assert(self.args.deep_view() =~= old(self).args.deep_view().push(value@));
    }
}

/// A run of the named script without arguments.
pub fn script_command(name: &str) -> (command: ScriptCommand)
    ensures
        command@ == (ScriptCommandView { script: name@, args: Seq::empty() }),
{
    let command = ScriptCommand { script: String::from_str(name), args: Vec::new() };
    assert(command.args.deep_view() =~= Seq::<Seq<char>>::empty());
    command
}

/// The label of a rebuild: the one given or else the message, sanitized.
pub open spec fn rebuild_label(label: Option<Seq<char>>, message: Seq<char>) -> Seq<char> {
    sanitized(
        match label {
            Some(given) => given,
            None => message,
        },
    )
}

/// The run of `rebuild` for a configuration at `path`: the path, the host,
/// the message and the label, in this order.
pub open spec fn rebuild_command(
    path: Seq<char>,
    host: Seq<char>,
    label: Option<Seq<char>>,
    message: Seq<char>,
) -> ScriptCommandView {
    ScriptCommandView {
        script: "rebuild"@,
        args: seq![path, host, message, rebuild_label(label, message)],
    }
}

/// Plans the rebuild of the configuration at `nixos_path`, an absolute path,
/// for `host`.
pub fn rebuild(nixos_path: &str, host: &str, label: Option<&str>, message: &str) -> (command:
    ScriptCommand)
    ensures
        command@ == rebuild_command(nixos_path@, host@, label.deep_view(), message@),
{
    let sanitized_label = sanitize_label(
        match label {
            Some(given) => given,
            None => message,
        },
    );
    let mut command = script_command("rebuild");
    command.arg(nixos_path);
    command.arg(host);
    command.arg(message);
    command.arg(sanitized_label.as_str());
    assert(command@.args =~= rebuild_command(
        nixos_path@,
        host@,
        label.deep_view(),
        message@,
    ).args);
    command
}

/// The message under which an update is rebuilt: `update`, followed by a
/// space and the input where one was named.
pub open spec fn update_message(input: Option<Seq<char>>) -> Seq<char> {
    match input {
        Some(named) => "update "@ + named,
        None => "update"@,
    }
}

/// The run of `update`: the path, then the input where one was named.
pub open spec fn update_command(path: Seq<char>, input: Option<Seq<char>>) -> ScriptCommandView {
    ScriptCommandView {
        script: "update"@,
        args: match input {
            Some(named) => seq![path, named],
            None => seq![path],
        },
    }
}

/// Plans an update of the configuration at `nixos_path`, an absolute path:
/// first the run of `update`, then the rebuild under the update's message,
/// which also serves as its label. The second run is due only once the first
/// could be started.
pub fn update(nixos_path: &str, host: &str, input: Option<&str>) -> (commands: Vec<ScriptCommand>)
    ensures
        commands.deep_view() == seq![
            update_command(nixos_path@, input.deep_view()),
            rebuild_command(nixos_path@, host@, None, update_message(input.deep_view())),
        ],
{
    let mut command = script_command("update");
    command.arg(nixos_path);
    let message = match input {
        Some(named) => {
            command.arg(named);
            String::from_str("update ").concat(named)
        },
        None => String::from_str("update"),
    };
    assert(command@.args =~= update_command(nixos_path@, input.deep_view()).args);
    let mut commands: Vec<ScriptCommand> = Vec::new();
    commands.push(command);
    commands.push(rebuild(nixos_path, host, None, message.as_str()));
    assert(commands.deep_view() =~= seq![
        update_command(nixos_path@, input.deep_view()),
        rebuild_command(nixos_path@, host@, None, update_message(input.deep_view())),
    ]);
    commands
}

/// Plans the run of `sync` for the configuration at `nixos_path`, an
/// absolute path: the path, then the host.
pub fn sync(nixos_path: &str, host: &str) -> (command: ScriptCommand)
    ensures
        command@ == (ScriptCommandView { script: "sync"@, args: seq![nixos_path@, host@] }),
{
    let mut command = script_command("sync");
    command.arg(nixos_path);
    command.arg(host);
    assert(command@.args =~= seq![nixos_path@, host@]);
    command
}

/// Plans the run of `test` for the configuration at `nixos_path`, an
/// absolute path: the path, then the host.
pub fn test(nixos_path: &str, host: &str) -> (command: ScriptCommand)
    ensures
        command@ == (ScriptCommandView { script: "test"@, args: seq![nixos_path@, host@] }),
{
    let mut command = script_command("test");
    command.arg(nixos_path);
    command.arg(host);
    assert(command@.args =~= seq![nixos_path@, host@]);
    command
}

/// Plans the run of `clean`, which takes no argument.
pub fn clean() -> (command: ScriptCommand)
    ensures
        command@ == (ScriptCommandView { script: "clean"@, args: Seq::empty() }),
{
    script_command("clean")
}

/// Plans the run of `audit` for the given key.
pub fn audit(key: &str) -> (command: ScriptCommand)
    ensures
        command@ == (ScriptCommandView { script: "audit"@, args: seq![key@] }),
{
    let mut command = script_command("audit");
    command.arg(key);
    assert(command@.args =~= seq![key@]);
    command
}

} // verus!
