use vstd::prelude::*;

use crate::commands::channel::{BotJoinCommand, BotLeaveCommand};
use crate::commands::choice::{choose_spec, ChooseCommand};
use crate::commands::create_sheet::{
    cs_spec, edit_name_spec, edit_stat_spec, show_sheet_spec, CSCommand, EditNameCommand, EditStatCommand,
    ShowSheetCommand,
};
use crate::commands::desc::{desc_spec, DescCommand};
use crate::commands::npc::{npc_spec, NpcCommand};
use crate::commands::opposed::{op7_spec, Op7Command};
use crate::commands::skill::{sk7_spec, skbrp_spec, skdg_spec, SkBRPCommand, SkDGCommand, Sk7Command};
use crate::commands::spec::{CommandSpec, CommandSpecView};
use crate::commands::channel::{bot_join_spec, bot_leave_spec};
use crate::embed::{embed_reply, field, public_embed, Embed, EmbedField, EmbedView, Reply};
use crate::logging::{count_of, counted, names_distinct, BotEventCounter};
use crate::text::same_text;

pub mod channel;
pub mod choice;
pub mod create_sheet;
pub mod desc;
pub mod npc;
pub mod opposed;
pub mod roll_result;
pub mod skill;
pub mod spec;

verus! {

/// Represents a handled result of the command.
/// Note that you cannot use this for internal errors.
pub enum CommandStatus {
    /// The command did its work and answered.
    Done,
    /// The command was refused; the message is shown to the user as an error.
    Failed(String),
}

/// The value a user gave for one option of a command.
pub enum OptionValue {
    Integer(i64),
    Text(String),
    Other,
}

/// One option of an invoked command: its name and its value.
pub struct CommandOption {
    pub name: String,
    pub value: OptionValue,
}

/// An invoked command as the library sees it: who invoked it, where, and with which options.
pub struct CommandInput {
    /// The name of the command.
    pub command: String,
    /// The user who invoked it.
    pub user_id: u64,
    /// The channel it was invoked in.
    pub channel_id: u64,
    /// The name the user shows in that place: their server nickname, else their user name.
    pub nickname: String,
    /// The options, in the order the user gave them.
    pub options: Vec<CommandOption>,
}

/// The value of the first option named `name`, if there is one.
pub open spec fn find_option(options: Seq<CommandOption>, name: Seq<char>) -> Option<OptionValue>
    decreases options.len(),
{
    if options.len() == 0 {
        None
    } else if options[0].name@ == name {
        Some(options[0].value)
    } else {
        find_option(options.drop_first(), name)
    }
}

/// Whether an option is absent or holds text.
pub open spec fn text_or_absent(v: Option<OptionValue>) -> bool {
    match v {
        None => true,
        Some(OptionValue::Text(_)) => true,
        _ => false,
    }
}

/// Whether an option is absent or holds an integer.
pub open spec fn integer_or_absent(v: Option<OptionValue>) -> bool {
    match v {
        None => true,
        Some(OptionValue::Integer(_)) => true,
        _ => false,
    }
}

/// The text an option holds, if it holds text.
pub open spec fn text_value(v: Option<OptionValue>) -> Option<Seq<char>> {
    match v {
        Some(OptionValue::Text(s)) => Some(s@),
        _ => None,
    }
}

/// The integer an option holds, narrowed to `i32` (keeping the low 32 bits), if it holds one.
pub open spec fn int_value(v: Option<OptionValue>) -> Option<i32> {
    match v {
        Some(OptionValue::Integer(n)) => Some(n as i32),
        _ => None,
    }
}

/// The integer an option holds, or `d` when it is absent.
pub open spec fn int_or(v: Option<OptionValue>, d: i32) -> i32 {
    match int_value(v) {
        Some(x) => x,
        None => d,
    }
}

/// The text an option holds, or `d` when it is absent.
pub open spec fn text_or(v: Option<OptionValue>, d: Seq<char>) -> Seq<char> {
    match text_value(v) {
        Some(t) => t,
        None => d,
    }
}

/// An extension for a command interaction: reads who invoked it and its options.
pub trait InteractionUtil {
    /// The name of the user who invoked the command.
    spec fn nickname_text(&self) -> Seq<char>;

    /// The value of the first option named `name`.
    spec fn option_named(&self, name: Seq<char>) -> Option<OptionValue>;

    /// Gets a nickname of the user who invoked the command.
    fn get_nickname(&self) -> (r: String)
        ensures
            r@ == self.nickname_text(),
    ;

    /// Gets a value of option as text.
    fn get_string_option(&self, name: String) -> (r: Option<&str>)
        requires
            text_or_absent(self.option_named(name@)),
        ensures
            match r {
                Some(s) => text_value(self.option_named(name@)) == Some(s@),
                None => self.option_named(name@) is None,
            },
    ;

    /// Gets a value of option as `i32`.
    fn get_int_option(&self, name: String) -> (r: Option<i32>)
        requires
            integer_or_absent(self.option_named(name@)),
        ensures
            r == int_value(self.option_named(name@)),
    ;
}

impl CommandInput {
    /// The value of the first option named `name`.
    pub open spec fn option(&self, name: Seq<char>) -> Option<OptionValue> {
        find_option(self.options@, name)
    }

    /// The index of the first option named `name`, if there is one.
    fn position(&self, name: &String) -> (r: Option<usize>)
        ensures
            match r {
                Some(i) => i < self.options@.len() && self.option(name@) == Some(
                    self.options@[i as int].value,
                ),
                None => self.option(name@) is None,
            },
    {
        let n = self.options.len();
        let mut i: usize = 0;
        assert(self.options@.skip(0) =~= self.options@);
        while i < n
            invariant
                n == self.options@.len(),
                i <= n,
                find_option(self.options@, name@) == find_option(self.options@.skip(i as int), name@),
            decreases n - i,
        {
            let ghost rest = self.options@.skip(i as int);
            assert(rest.drop_first() =~= self.options@.skip(i + 1));
            if self.options[i].name == *name {
                return Some(i);
            }
            i = i + 1;
        }
        assert(self.options@.skip(n as int).len() == 0);
        None
    }

    /// Whether the option named `name` is present and holds text.
    pub fn has_text(&self, name: &str) -> (r: bool)
        ensures
            r == (self.option(name@) matches Some(OptionValue::Text(_))),
    {
        match self.position(&String::from_str(name)) {
            Some(i) => match &self.options[i].value {
                OptionValue::Text(_) => true,
                _ => false,
            },
            None => false,
        }
    }

    /// Whether the option named `name` is absent or holds text.
    pub fn text_or_absent_at(&self, name: &str) -> (r: bool)
        ensures
            r == text_or_absent(self.option(name@)),
    {
        match self.position(&String::from_str(name)) {
            Some(i) => match &self.options[i].value {
                OptionValue::Text(_) => true,
                _ => false,
            },
            None => true,
        }
    }

    /// Whether the option named `name` is absent or holds an integer.
    pub fn integer_or_absent_at(&self, name: &str) -> (r: bool)
        ensures
            r == integer_or_absent(self.option(name@)),
    {
        match self.position(&String::from_str(name)) {
            Some(i) => match &self.options[i].value {
                OptionValue::Integer(_) => true,
                _ => false,
            },
            None => true,
        }
    }

    /// Whether the option named `name` is present and holds an integer.
    pub fn has_integer(&self, name: &str) -> (r: bool)
        ensures
            r == (self.option(name@) matches Some(OptionValue::Integer(_))),
    {
        match self.position(&String::from_str(name)) {
            Some(i) => match &self.options[i].value {
                OptionValue::Integer(_) => true,
                _ => false,
            },
            None => false,
        }
    }
}

impl InteractionUtil for CommandInput {
    open spec fn nickname_text(&self) -> Seq<char> {
        self.nickname@
    }

    open spec fn option_named(&self, name: Seq<char>) -> Option<OptionValue> {
        self.option(name)
    }

    fn get_nickname(&self) -> (r: String) {
        self.nickname.clone()
    }

    fn get_string_option(&self, name: String) -> (r: Option<&str>) {
        match self.position(&name) {
            Some(i) => match &self.options[i].value {
                OptionValue::Text(s) => Some(s.as_str()),
                _ => None,
            },
            None => None,
        }
    }

    fn get_int_option(&self, name: String) -> (r: Option<i32>) {
        match self.position(&name) {
            Some(i) => match &self.options[i].value {
                OptionValue::Integer(v) => Some(*v as i32),
                _ => None,
            },
            None => None,
        }
    }
}

/// The commands that the bot offers.
#[derive(PartialEq, Eq, Structural, Clone, Copy, Debug)]
pub enum CommandKind {
    Choose,
    CreateSheet,
    ShowSheet,
    EditName,
    EditStat,
    Op7,
    Desc,
    Npc,
    Sk7,
    SkDG,
    SkBRP,
    BotJoin,
    BotLeave,
}

/// How a command is declared.
pub open spec fn kind_spec(k: CommandKind) -> CommandSpecView {
    match k {
        CommandKind::Choose => choose_spec(),
        CommandKind::CreateSheet => cs_spec(),
        CommandKind::ShowSheet => show_sheet_spec(),
        CommandKind::EditName => edit_name_spec(),
        CommandKind::EditStat => edit_stat_spec(),
        CommandKind::Op7 => op7_spec(),
        CommandKind::Desc => desc_spec(),
        CommandKind::Npc => npc_spec(),
        CommandKind::Sk7 => sk7_spec(),
        CommandKind::SkDG => skdg_spec(),
        CommandKind::SkBRP => skbrp_spec(),
        CommandKind::BotJoin => bot_join_spec(),
        CommandKind::BotLeave => bot_leave_spec(),
    }
}

/// The name of a command.
pub open spec fn kind_name(k: CommandKind) -> Seq<char> {
    kind_spec(k).name
}

/// The commands which can be invoked through the bot, in the order they are registered.
pub open spec fn registry() -> Seq<CommandKind> {
    seq![CommandKind::Choose, CommandKind::CreateSheet, CommandKind::ShowSheet, CommandKind::EditName, CommandKind::EditStat, CommandKind::Op7, CommandKind::Desc, CommandKind::Npc, CommandKind::Sk7, CommandKind::SkDG, CommandKind::SkBRP, CommandKind::BotJoin, CommandKind::BotLeave]
}

/// Controls all of commands.
pub struct BotCommandManager;

/// The embed that reports a refused command to the user.
pub open spec fn error_embed(message: Seq<char>) -> EmbedView {
    EmbedView {
        title: "ERROR"@,
        description: None,
        fields: seq![("Message"@, message, false)],
        colour: Some(0xE74C3Cu32),
    }
}

impl CommandKind {
    /// The name of the command.
    pub fn name(&self) -> (s: &'static str)
        ensures
            s@ == kind_name(*self),
    {
        match self {
            CommandKind::Choose => ChooseCommand.name(),
            CommandKind::CreateSheet => CSCommand.name(),
            CommandKind::ShowSheet => ShowSheetCommand.name(),
            CommandKind::EditName => EditNameCommand.name(),
            CommandKind::EditStat => EditStatCommand.name(),
            CommandKind::Op7 => Op7Command.name(),
            CommandKind::Desc => DescCommand.name(),
            CommandKind::Npc => NpcCommand.name(),
            CommandKind::Sk7 => Sk7Command.name(),
            CommandKind::SkDG => SkDGCommand.name(),
            CommandKind::SkBRP => SkBRPCommand.name(),
            CommandKind::BotJoin => BotJoinCommand.name(),
            CommandKind::BotLeave => BotLeaveCommand.name(),
        }
    }

    /// How the command is declared to Discord.
    pub fn create(&self) -> (c: CommandSpec)
        ensures
            c@ == kind_spec(*self),
    {
        match self {
            CommandKind::Choose => ChooseCommand.create(),
            CommandKind::CreateSheet => CSCommand.create(),
            CommandKind::ShowSheet => ShowSheetCommand.create(),
            CommandKind::EditName => EditNameCommand.create(),
            CommandKind::EditStat => EditStatCommand.create(),
            CommandKind::Op7 => Op7Command.create(),
            CommandKind::Desc => DescCommand.create(),
            CommandKind::Npc => NpcCommand.create(),
            CommandKind::Sk7 => Sk7Command.create(),
            CommandKind::SkDG => SkDGCommand.create(),
            CommandKind::SkBRP => SkBRPCommand.create(),
            CommandKind::BotJoin => BotJoinCommand.create(),
            CommandKind::BotLeave => BotLeaveCommand.create(),
        }
    }
}

impl BotCommandManager {
    /// The commands which can be invoked through the bot.
    pub fn registered() -> (v: Vec<CommandKind>)
        ensures
            v@ == registry(),
    {
        let mut v: Vec<CommandKind> = Vec::new();
        v.push(CommandKind::Choose);
        v.push(CommandKind::CreateSheet);
        v.push(CommandKind::ShowSheet);
        v.push(CommandKind::EditName);
        v.push(CommandKind::EditStat);
        v.push(CommandKind::Op7);
        v.push(CommandKind::Desc);
        v.push(CommandKind::Npc);
        v.push(CommandKind::Sk7);
        v.push(CommandKind::SkDG);
        v.push(CommandKind::SkBRP);
        v.push(CommandKind::BotJoin);
        v.push(CommandKind::BotLeave);
        assert(v@ =~= registry());
        v
    }

    /// How all commands are declared to Discord, in the order they are registered.
    pub fn register_all() -> (v: Vec<CommandSpec>)
        ensures
            v@.map_values(|c: CommandSpec| c@) == registry().map_values(|k: CommandKind| kind_spec(k)),
    {
        let kinds = Self::registered();
        let mut v: Vec<CommandSpec> = Vec::new();
        let n = kinds.len();
        let mut i: usize = 0;
        while i < n
            invariant
                n == kinds@.len(),
                kinds@ == registry(),
                i <= n,
                v@.map_values(|c: CommandSpec| c@) == registry().take(i as int).map_values(
                    |k: CommandKind| kind_spec(k),
                ),
            decreases n - i,
        {
            let ghost before = v@;
            v.push(kinds[i].create());
            assert(v@.map_values(|c: CommandSpec| c@) =~= before.map_values(|c: CommandSpec| c@).push(
                kind_spec(registry()[i as int]),
            ));
            i = i + 1;
            assert(v@.map_values(|c: CommandSpec| c@) =~= registry().take(i as int).map_values(
                |k: CommandKind| kind_spec(k),
            ));
        }
        assert(registry().take(n as int) =~= registry());
        v
    }

    /// The command invoked under `name`: the first registered command with that name, or
    /// `None` for an unknown command.
    pub fn find_command(name: &str) -> (r: Option<CommandKind>)
        ensures
            match r {
                Some(k) => registry().contains(k) && kind_name(k) == name@,
                None => forall|i: int| 0 <= i < registry().len() ==> kind_name(#[trigger] registry()[i]) != name@,
            },
    {
        let kinds = Self::registered();
        let n = kinds.len();
        let mut i: usize = 0;
        while i < n
            invariant
                n == kinds@.len(),
                kinds@ == registry(),
                i <= n,
                forall|j: int| 0 <= j < i ==> kind_name(#[trigger] registry()[j]) != name@,
            decreases n - i,
        {
            if same_text(kinds[i].name(), name) {
                assert(registry()[i as int] == kinds@[i as int]);
                return Some(kinds[i]);
            }
            i = i + 1;
        }
        None
    }

    /// Reports an error to the user.
    ///
    /// This method cannot be used to report an internal server error.
    pub fn reply_error(error: String) -> (r: Reply)
        ensures
            r@ == embed_reply(error_embed(error@)),
    {
        let mut fields: Vec<EmbedField> = Vec::new();
        fields.push(field(String::from_str("Message"), error, false));
        let e = Embed { title: String::from_str("ERROR"), description: None, fields, colour: Some(0xE74C3C) };
        assert(e@.fields =~= error_embed(error@).fields);
        public_embed(e)
    }

    /// Finishes a command that ran: counts it, and answers with the error embed when the
    /// command was refused.
    pub fn complete(counter: &mut BotEventCounter, name: &str, status: CommandStatus) -> (r: Option<Reply>)
        requires
            count_of(old(counter)@, name@) < u32::MAX,
        ensures
            final(counter)@ == counted(old(counter)@, name@),
            names_distinct(final(counter)@),
            count_of(final(counter)@, name@) == count_of(old(counter)@, name@) + 1,
            forall|other: Seq<char>| other != name@ ==> #[trigger] count_of(final(counter)@, other) == count_of(
                old(counter)@,
                other,
            ),
            match status {
                CommandStatus::Done => r is None,
                CommandStatus::Failed(m) => r matches Some(reply) && reply@ == embed_reply(error_embed(m@)),
            },
    {
        counter.increment(name);
        match status {
            CommandStatus::Done => None,
            CommandStatus::Failed(m) => Some(Self::reply_error(m)),
        }
    }
}

/// No two registered commands share a name, so an invocation never matches two commands.
pub proof fn registered_names_distinct()
    ensures
        forall|i: int, j: int|
            0 <= i < j < registry().len() ==> kind_name(#[trigger] registry()[i]) != kind_name(
                #[trigger] registry()[j],
            ),
{
    reveal_strlit("choose");
    reveal_strlit("cs");
    reveal_strlit("시트보기");
    reveal_strlit("이름설정");
    reveal_strlit("특성치수정");
    reveal_strlit("op7");
    reveal_strlit("내레이션");
    reveal_strlit("대사출력");
    reveal_strlit("sk7");
    reveal_strlit("skdg");
    reveal_strlit("skbrp");
    reveal_strlit("봇입장");
    reveal_strlit("봇퇴장");
    assert forall|i: int, j: int| 0 <= i < j < registry().len() implies kind_name(#[trigger] registry()[i])
        != kind_name(#[trigger] registry()[j]) by {
        let a = kind_name(registry()[i]);
        let b = kind_name(registry()[j]);
        assert(a.len() != b.len() || a[0] != b[0] || a[1] != b[1] || a[2] != b[2]);
    }
}

} // verus!
