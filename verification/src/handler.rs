use vstd::prelude::*;
use vstd::string::StrSliceExecFns;

use crate::commands::channel::ChannelStore;
use crate::commands::create_sheet::{SheetStore, SheetView};
use crate::embed::{opt_text, Reply, ReplyView};
use crate::text::same_text;
use crate::webhook::{PostView, WebhookPost};

verus! {

/// Decides what the bot does with the messages and commands it receives.
pub struct BotHandler;

/// Whether a chat message is one the bot leaves alone: one that starts with `/`, `!` or `(`
/// (commands and out-of-character talk).
pub open spec fn is_ignored_text(content: Seq<char>) -> bool {
    content.len() > 0 && (content[0] == '/' || content[0] == '!' || content[0] == '(')
}

/// The post that replaces a chat message, if the bot relays it: when the author is a person,
/// the message is not a command or out-of-character talk, the bot is active in the channel, and
/// the author's sheet has a name. The post speaks under that name with the author's avatar.
pub open spec fn relayed(
    author_is_bot: bool,
    content: Seq<char>,
    avatar: Option<Seq<char>>,
    channel: u64,
    author: u64,
    channels: Set<u64>,
    sheets: Map<u64, SheetView>,
) -> Option<PostView> {
    if author_is_bot || is_ignored_text(content) {
        None
    } else if !channels.contains(channel) {
        None
    } else if sheets.contains_key(author) && sheets[author].name.len() > 0 {
        Some(PostView { username: sheets[author].name, avatar_url: avatar, content })
    } else {
        None
    }
}

/// The notice given when a command other than `/봇입장` is used where the bot is inactive.
pub open spec fn inactive_notice() -> ReplyView {
    ReplyView {
        content: Some("이 채널에서는 봇이 비활성화되어 있습니다. `/봇입장`을 입력해 활성화해주세요."@),
        embed: None,
        ephemeral: true,
    }
}

/// The name of the command that activates the bot in a channel.
pub open spec fn join_command_name() -> Seq<char> {
    "봇입장"@
}

impl BotHandler {
    /// Decides whether a chat message is relayed under the author's character name, and builds
    /// the post that replaces it.
    pub fn message(
        author_is_bot: bool,
        content: &str,
        avatar: Option<String>,
        channel: u64,
        author: u64,
        channels: &ChannelStore,
        sheets: &SheetStore,
    ) -> (r: Option<WebhookPost>)
        ensures
            match r {
                Some(p) => relayed(author_is_bot, content@, opt_text(avatar), channel, author, channels@, sheets@)
                    == Some(p@),
                None => relayed(author_is_bot, content@, opt_text(avatar), channel, author, channels@, sheets@)
                    is None,
            },
    {
        if author_is_bot {
            return None;
        }
        if content.unicode_len() > 0 {
            let first = content.get_char(0);
            if first == '/' || first == '!' || first == '(' {
                return None;
            }
        }
        if !channels.contains(channel) {
            return None;
        }
        match sheets.get(author) {
            Some(sheet) => {
                if sheet.name.as_str().is_empty() {
                    None
                } else {
                    Some(
                        WebhookPost {
                            username: sheet.name.clone(),
                            avatar_url: avatar,
                            content: String::from_str(content),
                        },
                    )
                }
            },
            None => None,
        }
    }

    /// Decides whether a command may run: in a channel where the bot is inactive only
    /// `/봇입장` may; any other command gets the notice instead.
    pub fn interaction_create(command: &str, channel: u64, channels: &ChannelStore) -> (r: Option<Reply>)
        ensures
            match r {
                Some(n) => n@ == inactive_notice() && command@ != join_command_name() && !channels@.contains(
                    channel,
                ),
                None => command@ == join_command_name() || channels@.contains(channel),
            },
    {
        if !same_text(command, "봇입장") && !channels.contains(channel) {
            Some(
                Reply {
                    content: Some(
                        String::from_str(
                            "이 채널에서는 봇이 비활성화되어 있습니다. `/봇입장`을 입력해 활성화해주세요.",
                        ),
                    ),
                    embed: None,
                    ephemeral: true,
                },
            )
        } else {
            None
        }
    }
}

/// A person's message in an active channel is relayed under their character's name, with their
/// avatar and the same text, whenever their sheet has a name and the message does not start
/// with `/`, `!` or `(`; a message that starts with one of them is never relayed. Only the first
/// character counts: those characters anywhere else do not stop the relay.
pub proof fn character_talk_is_relayed(
    content: Seq<char>,
    avatar: Option<Seq<char>>,
    channel: u64,
    author: u64,
    channels: Set<u64>,
    sheets: Map<u64, SheetView>,
)
    ensures
        (channels.contains(channel) && sheets.contains_key(author) && sheets[author].name.len() > 0 && (
        content.len() == 0 || (content[0] != '/' && content[0] != '!' && content[0] != '('))) ==> relayed(
            false,
            content,
            avatar,
            channel,
            author,
            channels,
            sheets,
        ) == Some(PostView { username: sheets[author].name, avatar_url: avatar, content }),
        (content.len() > 0 && (content[0] == '/' || content[0] == '!' || content[0] == '(')) ==> relayed(
            false,
            content,
            avatar,
            channel,
            author,
            channels,
            sheets,
        ) is None,
        (!sheets.contains_key(author) || sheets[author].name.len() == 0) ==> relayed(
            false,
            content,
            avatar,
            channel,
            author,
            channels,
            sheets,
        ) is None,
{
}

/// The bot never relays what another bot wrote, nor commands or out-of-character talk, nor
/// anything in a channel where it is inactive.
pub proof fn relay_only_character_talk(
    author_is_bot: bool,
    content: Seq<char>,
    avatar: Option<Seq<char>>,
    channel: u64,
    author: u64,
    channels: Set<u64>,
    sheets: Map<u64, SheetView>,
)
    ensures
        (author_is_bot || is_ignored_text(content) || !channels.contains(channel)) ==> relayed(
            author_is_bot,
            content,
            avatar,
            channel,
            author,
            channels,
            sheets,
        ) is None,
        relayed(author_is_bot, content, avatar, channel, author, channels, sheets) matches Some(p)
            ==> p.content == content && p.username == sheets[author].name && p.username.len() > 0,
{
}

} // verus!
