use vstd::prelude::*;

use crate::commands::{text_value, CommandInput, InteractionUtil, OptionValue};
use crate::embed::cat3;
use crate::webhook::{PostView, WebhookPost};

use crate::commands::spec::{command, option, option_view, CommandSpec, CommandSpecView, OptionKind, OptionSpec};

verus! {

/// A command that posts narration without a character name.
pub struct DescCommand;

/// The posts that carry a narration: first under an invisible name (two zero-width spaces),
/// then, if that post is refused, under the name `"내레이션"`. The text is set in bold italics.
pub struct Narration {
    pub first: WebhookPost,
    pub fallback: WebhookPost,
}

/// The narration text in bold italics: `***{content}***`.
pub open spec fn narration_text(content: Seq<char>) -> Seq<char> {
    "***"@ + content + "***"@
}

impl DescCommand {
    /// Builds the posts that carry the narration given in the `내용` option.
    pub fn execute(&self, input: &CommandInput) -> (n: Narration)
        requires
            input.option("내용"@) matches Some(OptionValue::Text(_)),
        ensures
            n.first@ == (PostView {
                username: "\u{200B}\u{200B}"@,
                avatar_url: None,
                content: narration_text(text_value(input.option("내용"@)).unwrap()),
            }),
            n.fallback@ == (PostView {
                username: "내레이션"@,
                avatar_url: None,
                content: narration_text(text_value(input.option("내용"@)).unwrap()),
            }),
    {
        let content = match input.get_string_option(String::from_str("내용")) {
            Some(t) => t,
            None => "",
        };
        let text = cat3("***", content, "***");
        Narration {
            first: WebhookPost {
                username: String::from_str("\u{200B}\u{200B}"),
                avatar_url: None,
                content: text.clone(),
            },
            fallback: WebhookPost { username: String::from_str("내레이션"), avatar_url: None, content: text },
        }
    }
}

} // verus!

verus! {

/// How `/내레이션` is declared.
pub open spec fn desc_spec() -> CommandSpecView {
    CommandSpecView {
        name: "내레이션"@,
        description: "캐릭터 이름 없이 내레이션을 출력합니다."@,
        options: seq![
            option_view(OptionKind::Text, "내용"@, "출력할 내레이션 내용"@, true)
        ],
    }
}

impl DescCommand {
    /// Gets a name of the command.
    pub fn name(&self) -> (s: &'static str)
        ensures
            s@ == desc_spec().name,
    {
        "내레이션"
    }

    /// How the command is declared to Discord.
    pub fn create(&self) -> (c: CommandSpec)
        ensures
            c@ == desc_spec(),
    {
        let mut options: Vec<OptionSpec> = Vec::new();
        options.push(option(OptionKind::Text, "내용", "출력할 내레이션 내용", true));
        let c = command(self.name(), "캐릭터 이름 없이 내레이션을 출력합니다.", options);
        assert(c@.options =~= desc_spec().options);
        c
    }
}

} // verus!
