use vstd::prelude::*;

use crate::commands::{text_value, CommandInput, InteractionUtil, OptionValue};
use crate::dice::pick_index;
use crate::embed::{cat2, cat3, embed_reply, field, public_embed, Embed, EmbedField, EmbedView, Reply, ReplyView};
use crate::text::{join_seq, join_texts, split_not_empty, split_on, split_text, texts_of};

use crate::commands::spec::{command, option, option_view, CommandSpec, CommandSpecView, OptionKind, OptionSpec};

verus! {

/// A command that make a random choice.
pub struct ChooseCommand;

/// The embed that reports the choice of `picked` for `nickname` among `pieces`.
pub open spec fn choice_embed(nickname: Seq<char>, pieces: Seq<Seq<char>>, picked: int) -> EmbedView {
    EmbedView {
        title: nickname + "의 선택"@,
        description: None,
        fields: seq![("**"@ + pieces[picked] + "**"@, "선택지: "@ + join_seq(pieces, ", "@), false)],
        colour: None,
    }
}

/// The replies `/choose` may give: one for each of the comma-separated choices.
pub open spec fn choice_reply(input: CommandInput, r: ReplyView) -> bool {
    let pieces = split_on(text_value(input.option("선택지"@)).unwrap(), ',');
    exists|picked: int|
        0 <= picked < pieces.len() && r == embed_reply(#[trigger] choice_embed(input.nickname@, pieces, picked))
}

impl ChooseCommand {
    /// Splits the `선택지` option at its commas and picks one piece at random.
    pub fn execute(&self, input: &CommandInput) -> (r: Reply)
        requires
            input.option("선택지"@) matches Some(OptionValue::Text(_)),
        ensures
            choice_reply(*input, r@),
    {
        let options = match input.get_string_option(String::from_str("선택지")) {
            Some(t) => t,
            None => "",
        };
        let pieces = split_text(options, ',');
        proof {
            split_not_empty(options@, ',');
        }
        let author = input.get_nickname();
        let picked = pick_index(pieces.len());
        let list = join_texts(&pieces, ", ");
        let name = cat3("**", pieces[picked].as_str(), "**");
        let value = cat2("선택지: ", list.as_str());
        let mut fields: Vec<EmbedField> = Vec::new();
        fields.push(field(name, value, false));
        let e = Embed { title: cat2(author.as_str(), "의 선택"), description: None, fields, colour: None };
        proof {
            let ps = split_on(options@, ',');
            assert(texts_of(pieces@)[picked as int] == pieces@[picked as int]@);
            assert(e@.fields =~= choice_embed(input.nickname@, ps, picked as int).fields);
            assert(e@ == choice_embed(input.nickname@, ps, picked as int));
        }
        public_embed(e)
    }
}

} // verus!

verus! {

/// How `/choose` is declared.
pub open spec fn choose_spec() -> CommandSpecView {
    CommandSpecView {
        name: "choose"@,
        description: "주어진 항목 중 하나를 무작위로 선택합니다."@,
        options: seq![
            option_view(OptionKind::Text, "선택지"@, "쉼표로 구분된 선택지 (예: 사과,바나나,포도)"@, true)
        ],
    }
}

impl ChooseCommand {
    /// Gets a name of the command.
    pub fn name(&self) -> (s: &'static str)
        ensures
            s@ == choose_spec().name,
    {
        "choose"
    }

    /// How the command is declared to Discord.
    pub fn create(&self) -> (c: CommandSpec)
        ensures
            c@ == choose_spec(),
    {
        let mut options: Vec<OptionSpec> = Vec::new();
        options.push(option(OptionKind::Text, "선택지", "쉼표로 구분된 선택지 (예: 사과,바나나,포도)", true));
        let c = command(self.name(), "주어진 항목 중 하나를 무작위로 선택합니다.", options);
        assert(c@.options =~= choose_spec().options);
        c
    }
}

} // verus!
