use vstd::prelude::*;

use crate::commands::{text_value, CommandInput, InteractionUtil, OptionValue};
use crate::webhook::{PostView, WebhookPost};

use crate::commands::spec::{command, option, option_view, CommandSpec, CommandSpecView, OptionKind, OptionSpec};

verus! {

/// A command that posts a line of dialogue under an NPC's name.
pub struct NpcCommand;

impl NpcCommand {
    /// Builds the post that speaks the `대사` option under the `이름` option.
    pub fn execute(&self, input: &CommandInput) -> (p: WebhookPost)
        requires
            input.option("이름"@) matches Some(OptionValue::Text(_)),
            input.option("대사"@) matches Some(OptionValue::Text(_)),
        ensures
            p@ == (PostView {
                username: text_value(input.option("이름"@)).unwrap(),
                avatar_url: None,
                content: text_value(input.option("대사"@)).unwrap(),
            }),
    {
        let name = match input.get_string_option(String::from_str("이름")) {
            Some(t) => t,
            None => "",
        };
        let speech = match input.get_string_option(String::from_str("대사")) {
            Some(t) => t,
            None => "",
        };
        WebhookPost { username: String::from_str(name), avatar_url: None, content: String::from_str(speech) }
    }
}

} // verus!

verus! {

/// How `/대사출력` is declared.
pub open spec fn npc_spec() -> CommandSpecView {
    CommandSpecView {
        name: "대사출력"@,
        description: "NPC의 이름으로 대사를 출력합니다."@,
        options: seq![
            option_view(OptionKind::Text, "이름"@, "NPC 이름"@, true),
            option_view(OptionKind::Text, "대사"@, "출력할 대사"@, true)
        ],
    }
}

impl NpcCommand {
    /// Gets a name of the command.
    pub fn name(&self) -> (s: &'static str)
        ensures
            s@ == npc_spec().name,
    {
        "대사출력"
    }

    /// How the command is declared to Discord.
    pub fn create(&self) -> (c: CommandSpec)
        ensures
            c@ == npc_spec(),
    {
        let mut options: Vec<OptionSpec> = Vec::new();
        options.push(option(OptionKind::Text, "이름", "NPC 이름", true));
        options.push(option(OptionKind::Text, "대사", "출력할 대사", true));
        let c = command(self.name(), "NPC의 이름으로 대사를 출력합니다.", options);
        assert(c@.options =~= npc_spec().options);
        c
    }
}

} // verus!
