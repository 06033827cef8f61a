use std::collections::HashSet;
use vstd::prelude::*;

use crate::commands::CommandInput;
use crate::text::{decimal, join_seq};
use crate::embed::{embed_reply, public_embed, Embed, EmbedView, FieldView, Reply, ReplyView};

use crate::commands::spec::{command, option, option_view, CommandSpec, CommandSpecView, OptionKind, OptionSpec};

verus! {

broadcast use vstd::std_specs::hash::group_hash_axioms;

/// The channels in which the bot is active.
pub struct ChannelStore {
    channels: HashSet<u64>,
}

impl View for ChannelStore {
    type V = Set<u64>;

    closed spec fn view(&self) -> Set<u64> {
        self.channels@
    }
}

/// The channels that a list of saved ids names.
pub open spec fn channels_from(ids: Seq<u64>) -> Set<u64> {
    ids.to_set()
}

impl ChannelStore {
    /// A store with no active channel.
    pub fn new() -> (s: ChannelStore)
        ensures
            s@ == Set::<u64>::empty(),
    {
        ChannelStore { channels: HashSet::new() }
    }

    /// Whether the bot is active in `channel`.
    pub fn contains(&self, channel: u64) -> (r: bool)
        ensures
            r == self@.contains(channel),
    {
        self.channels.contains(&channel)
    }

    /// Makes the bot active in `channel`.
    pub fn insert(&mut self, channel: u64)
        ensures
            final(self)@ == old(self)@.insert(channel),
    {
        self.channels.insert(channel);
    }

    /// Makes the bot inactive in `channel`.
    pub fn remove(&mut self, channel: u64)
        ensures
            final(self)@ == old(self)@.remove(channel),
    {
        self.channels.remove(&channel);
    }

    /// The active channels, each once, in no particular order.
    pub fn list(&self) -> (v: Vec<u64>)
        ensures
            v@.to_set() == self@,
            v@.no_duplicates(),
    {
        let mut out: Vec<u64> = Vec::new();
        let ghost ids = vstd::std_specs::iter::IteratorSpec::remaining(&vstd::std_specs::hash::spec_hash_keys_iter(&self.channels));
        for id in it: self.channels.iter()
            invariant
                ids == vstd::std_specs::iter::IteratorSpec::remaining(&vstd::std_specs::hash::spec_hash_keys_iter(&self.channels)),
                it.seq() == ids,
                out@.len() == it.index(),
                forall|j: int| 0 <= j < out@.len() ==> out@[j] == *ids[j],
        {
            out.push(*id);
        }
        proof {
            assert(out@ =~= ids.unref());
        }
        out
    }
}

/// Builds the store from the saved channel ids.
pub fn load_channels(saved: Vec<u64>) -> (s: ChannelStore)
    ensures
        s@ == channels_from(saved@),
{
    let mut store = ChannelStore::new();
    let n = saved.len();
    let mut i: usize = 0;
    while i < n
        invariant
            n == saved@.len(),
            i <= n,
            store@ == saved@.take(i as int).to_set(),
        decreases n - i,
    {
        store.insert(saved[i]);
        i = i + 1;
        proof {
            assert(saved@.take(i as int) =~= saved@.take((i - 1) as int).push(saved@[i - 1]));
            saved@.take((i - 1) as int).lemma_push_to_set_commute(saved@[i - 1]);
        }
    }
    assert(saved@.take(n as int) =~= saved@);
    store
}

/// The list of channel ids to save for a store.
pub fn save_channels(channels: &ChannelStore) -> (v: Vec<u64>)
    ensures
        v@.to_set() == channels@,
        v@.no_duplicates(),
{
    channels.list()
}

/// The list of channel ids that `serde_json` reads from the text `json`, if the text is a JSON
/// array of unsigned 64-bit integers.
pub uninterp spec fn channel_ids_from_json(json: Seq<char>) -> Option<Seq<u64>>;

/// The JSON text that `serde_json::to_string_pretty` writes for a list of channel ids: `[]`
/// for no ids, else one id per line, each indented by two spaces, with commas between them.
pub open spec fn ids_json_text(ids: Seq<u64>) -> Seq<char> {
    if ids.len() == 0 {
        "[]"@
    } else {
        "[\n  "@ + join_seq(ids.map_values(|id: u64| decimal(id as nat)), ",\n  "@) + "\n]"@
    }
}

/// Calls `serde_json::from_str::<Vec<u64>>` on `json`, with its error turned into `None`.
/// Claimed: the result is what the name `channel_ids_from_json` gives for the text, which
/// depends on the text alone. Which texts parse, and to what, is left to `serde_json`.
#[verifier::external_body]
fn parse_channel_ids(json: &str) -> (r: Option<Vec<u64>>)
    ensures
        match r {
            Some(v) => channel_ids_from_json(json@) == Some(v@),
            None => channel_ids_from_json(json@) is None,
        },
{
    serde_json::from_str::<Vec<u64>>(json).ok()
}

/// Calls `serde_json::to_string_pretty` on a list of channel ids. Claimed: the text is the
/// pretty JSON array of the ids, as its `PrettyFormatter` writes it (two-space indent, one
/// value per line, `[]` when empty) with each id written in decimal. The call cannot fail on a
/// list of `u64`, which serialises without error into memory; the error would give the empty
/// text.
#[verifier::external_body]
fn channel_ids_to_json(ids: &Vec<u64>) -> (r: String)
    ensures
        r@ == ids_json_text(ids@),
{
    serde_json::to_string_pretty(ids).unwrap_or_default()
}

/// The channels that the saved file holds: the ids its text lists, or none when there is no
/// file (`None`) or its text is no list of ids.
pub open spec fn channels_from_json(json: Option<Seq<char>>) -> Set<u64> {
    match json {
        Some(t) => match channel_ids_from_json(t) {
            Some(ids) => ids.to_set(),
            None => Set::empty(),
        },
        None => Set::empty(),
    }
}

/// Builds the store from the text of the saved channel file, if there is one.
pub fn load_channels_json(json: Option<&str>) -> (s: ChannelStore)
    ensures
        s@ == channels_from_json(
            match json {
                Some(t) => Some(t@),
                None => None,
            },
        ),
{
    match json {
        Some(t) => match parse_channel_ids(t) {
            Some(ids) => load_channels(ids),
            None => ChannelStore::new(),
        },
        None => ChannelStore::new(),
    }
}

/// The text of the channel file to save for a store: the JSON of its ids, each once, in the
/// order the store walks them.
pub fn save_channels_json(channels: &ChannelStore) -> (r: String)
    ensures
        exists|ids: Seq<u64>|
            ids.to_set() == channels@ && ids.no_duplicates() && r@ == #[trigger] ids_json_text(ids),
{
    let ids = save_channels(channels);
    let r = channel_ids_to_json(&ids);
    assert(r@ == ids_json_text(ids@));
    r
}

/// A command that makes the bot work in the channel it is invoked in.
pub struct BotJoinCommand;

/// A command that stops the bot in the channel it is invoked in.
pub struct BotLeaveCommand;

/// The embed that confirms that the bot now works in a channel.
pub open spec fn join_embed() -> EmbedView {
    EmbedView {
        title: "봇 활성화"@,
        description: Some("✅ 이 채널에서 봇이 작동합니다."@),
        fields: Seq::empty(),
        colour: None,
    }
}

/// The embed that confirms that the bot no longer works in a channel.
pub open spec fn leave_embed() -> EmbedView {
    EmbedView {
        title: "봇 비활성화"@,
        description: Some("💤 이 채널에서 더 이상 봇이 작동하지 않습니다."@),
        fields: Seq::empty(),
        colour: None,
    }
}

impl BotJoinCommand {
    /// Activates the bot in the channel of the invocation and confirms it.
    pub fn execute(&self, store: &mut ChannelStore, input: &CommandInput) -> (r: Reply)
        ensures
            final(store)@ == old(store)@.insert(input.channel_id),
            r@ == embed_reply(join_embed()),
    {
        store.insert(input.channel_id);
        let e = Embed {
            title: String::from_str("봇 활성화"),
            description: Some(String::from_str("✅ 이 채널에서 봇이 작동합니다.")),
            fields: Vec::new(),
            colour: None,
        };
        assert(e@.fields =~= Seq::<FieldView>::empty());
        public_embed(e)
    }
}

impl BotLeaveCommand {
    /// Deactivates the bot in the channel of the invocation and confirms it.
    pub fn execute(&self, store: &mut ChannelStore, input: &CommandInput) -> (r: Reply)
        ensures
            final(store)@ == old(store)@.remove(input.channel_id),
            r@ == embed_reply(leave_embed()),
    {
        store.remove(input.channel_id);
        let e = Embed {
            title: String::from_str("봇 비활성화"),
            description: Some(String::from_str("💤 이 채널에서 더 이상 봇이 작동하지 않습니다.")),
            fields: Vec::new(),
            colour: None,
        };
        assert(e@.fields =~= Seq::<FieldView>::empty());
        public_embed(e)
    }
}

/// After `/봇입장` the bot is active in that channel, and after `/봇퇴장` it is not; the other
/// channels keep their state either way.
pub proof fn join_then_active_leave_then_inactive(channels: Set<u64>, channel: u64, other: u64)
    requires
        other != channel,
    ensures
        channels.insert(channel).contains(channel),
        !channels.remove(channel).contains(channel),
        channels.insert(channel).contains(other) == channels.contains(other),
        channels.remove(channel).contains(other) == channels.contains(other),
{
}

/// Joining twice is the same as joining once, and leaving undoes a join in a channel where the
/// bot was not active.
pub proof fn join_idempotent_leave_undoes(channels: Set<u64>, channel: u64)
    ensures
        channels.insert(channel).insert(channel) == channels.insert(channel),
        !channels.contains(channel) ==> channels.insert(channel).remove(channel) == channels,
{
    assert(channels.insert(channel).insert(channel) =~= channels.insert(channel));
    if !channels.contains(channel) {
        assert(channels.insert(channel).remove(channel) =~= channels);
    }
}

/// Saving the active channels and loading them back gives the same channels.
pub proof fn saved_channels_load_back(channels: Set<u64>, saved: Seq<u64>)
    requires
        saved.to_set() == channels,
    ensures
        channels_from(saved) == channels,
{
}

} // verus!

verus! {

/// How `/봇입장` is declared.
pub open spec fn bot_join_spec() -> CommandSpecView {
    CommandSpecView {
        name: "봇입장"@,
        description: "이 채널에서 봇이 작동하도록 활성화합니다."@,
        options: seq![

        ],
    }
}

impl BotJoinCommand {
    /// Gets a name of the command.
    pub fn name(&self) -> (s: &'static str)
        ensures
            s@ == bot_join_spec().name,
    {
        "봇입장"
    }

    /// How the command is declared to Discord.
    pub fn create(&self) -> (c: CommandSpec)
        ensures
            c@ == bot_join_spec(),
    {
        let mut options: Vec<OptionSpec> = Vec::new();
        let c = command(self.name(), "이 채널에서 봇이 작동하도록 활성화합니다.", options);
        assert(c@.options =~= bot_join_spec().options);
        c
    }
}

/// How `/봇퇴장` is declared.
pub open spec fn bot_leave_spec() -> CommandSpecView {
    CommandSpecView {
        name: "봇퇴장"@,
        description: "이 채널에서 봇이 작동하지 않도록 비활성화합니다."@,
        options: seq![

        ],
    }
}

impl BotLeaveCommand {
    /// Gets a name of the command.
    pub fn name(&self) -> (s: &'static str)
        ensures
            s@ == bot_leave_spec().name,
    {
        "봇퇴장"
    }

    /// How the command is declared to Discord.
    pub fn create(&self) -> (c: CommandSpec)
        ensures
            c@ == bot_leave_spec(),
    {
        let mut options: Vec<OptionSpec> = Vec::new();
        let c = command(self.name(), "이 채널에서 봇이 작동하지 않도록 비활성화합니다.", options);
        assert(c@.options =~= bot_leave_spec().options);
        c
    }
}

} // verus!
