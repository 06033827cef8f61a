use vstd::prelude::*;

use crate::embed::opt_text;

verus! {

/// The name of the webhook through which the bot speaks.
pub open spec fn webhook_name() -> Seq<char> {
    "cthulhu_webhook"@
}

/// A message to post through the webhook, under a chosen name and avatar.
pub struct WebhookPost {
    pub username: String,
    pub avatar_url: Option<String>,
    pub content: String,
}

pub struct PostView {
    pub username: Seq<char>,
    pub avatar_url: Option<Seq<char>>,
    pub content: Seq<char>,
}

impl View for WebhookPost {
    type V = PostView;

    open spec fn view(&self) -> PostView {
        PostView { username: self.username@, avatar_url: opt_text(self.avatar_url), content: self.content@ }
    }
}

/// The name of the webhook through which the bot speaks.
pub fn bot_webhook_name() -> (s: &'static str)
    ensures
        s@ == webhook_name(),
{
    "cthulhu_webhook"
}

/// Whether a webhook with this name is the bot's.
pub open spec fn is_bot_webhook(name: Option<Seq<char>>) -> bool {
    name == Some(webhook_name())
}

/// Among the webhooks of a channel, given by their names, the first that is the bot's; `None`
/// when the bot has to create one.
pub fn pick_webhook(names: &Vec<Option<String>>) -> (r: Option<usize>)
    ensures
        match r {
            Some(i) => i < names@.len() && is_bot_webhook(opt_text(names@[i as int]))
                && forall|j: int| 0 <= j < i ==> !is_bot_webhook(opt_text(#[trigger] names@[j])),
            None => forall|j: int| 0 <= j < names@.len() ==> !is_bot_webhook(opt_text(#[trigger] names@[j])),
        },
{
    let target = String::from_str(bot_webhook_name());
    let n = names.len();
    let mut i: usize = 0;
    while i < n
        invariant
            n == names@.len(),
            i <= n,
            target@ == webhook_name(),
            forall|j: int| 0 <= j < i ==> !is_bot_webhook(opt_text(#[trigger] names@[j])),
        decreases n - i,
    {
        match &names[i] {
            Some(name) => {
                if *name == target {
                    return Some(i);
                }
            },
            None => {},
        }
        i = i + 1;
    }
    None
}

} // verus!
