use vstd::prelude::*;

verus! {

/// The kind of value a command option takes.
#[derive(PartialEq, Eq, Structural, Clone, Copy, Debug)]
pub enum OptionKind {
    Integer,
    Text,
}

/// How a command option is declared to Discord.
pub struct OptionSpec {
    pub kind: OptionKind,
    pub name: String,
    pub description: String,
    pub required: bool,
    /// Fixed choices as (shown name, value) pairs; empty when the user types freely.
    pub choices: Vec<(String, String)>,
}

pub struct OptionSpecView {
    pub kind: OptionKind,
    pub name: Seq<char>,
    pub description: Seq<char>,
    pub required: bool,
    pub choices: Seq<(Seq<char>, Seq<char>)>,
}

impl View for OptionSpec {
    type V = OptionSpecView;

    open spec fn view(&self) -> OptionSpecView {
        OptionSpecView {
            kind: self.kind,
            name: self.name@,
            description: self.description@,
            required: self.required,
            choices: self.choices@.map_values(|c: (String, String)| (c.0@, c.1@)),
        }
    }
}

/// How a command is declared to Discord: its name, its description and its options.
pub struct CommandSpec {
    pub name: String,
    pub description: String,
    pub options: Vec<OptionSpec>,
}

pub struct CommandSpecView {
    pub name: Seq<char>,
    pub description: Seq<char>,
    pub options: Seq<OptionSpecView>,
}

impl View for CommandSpec {
    type V = CommandSpecView;

    open spec fn view(&self) -> CommandSpecView {
        CommandSpecView {
            name: self.name@,
            description: self.description@,
            options: self.options@.map_values(|o: OptionSpec| o@),
        }
    }
}

/// An option without fixed choices.
pub open spec fn option_view(kind: OptionKind, name: Seq<char>, description: Seq<char>, required: bool) -> OptionSpecView {
    OptionSpecView { kind, name, description, required, choices: Seq::empty() }
}

/// Declares an option without fixed choices.
pub fn option(kind: OptionKind, name: &str, description: &str, required: bool) -> (o: OptionSpec)
    ensures
        o@ == option_view(kind, name@, description@, required),
{
    let o = OptionSpec {
        kind,
        name: String::from_str(name),
        description: String::from_str(description),
        required,
        choices: Vec::new(),
    };
    assert(o@.choices =~= Seq::<(Seq<char>, Seq<char>)>::empty());
    o
}

/// Declares a command with its options.
pub fn command(name: &str, description: &str, options: Vec<OptionSpec>) -> (c: CommandSpec)
    ensures
        c@ == (CommandSpecView {
            name: name@,
            description: description@,
            options: options@.map_values(|o: OptionSpec| o@),
        }),
{
    CommandSpec { name: String::from_str(name), description: String::from_str(description), options }
}

} // verus!
