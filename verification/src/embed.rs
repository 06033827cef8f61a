use vstd::prelude::*;

verus! {

/// One titled block of an embed.
pub struct EmbedField {
    pub name: String,
    pub value: String,
    pub inline: bool,
}

/// The text of an embed field: its name, its value and whether it stands inline.
pub type FieldView = (Seq<char>, Seq<char>, bool);

impl View for EmbedField {
    type V = FieldView;

    open spec fn view(&self) -> FieldView {
        (self.name@, self.value@, self.inline)
    }
}

/// A rich message as the bot posts it: a title, an optional description,
/// a list of fields and an optional colour (`0xRRGGBB`).
pub struct Embed {
    pub title: String,
    pub description: Option<String>,
    pub fields: Vec<EmbedField>,
    pub colour: Option<u32>,
}

/// What an embed shows, as plain text.
pub struct EmbedView {
    pub title: Seq<char>,
    pub description: Option<Seq<char>>,
    pub fields: Seq<FieldView>,
    pub colour: Option<u32>,
}

pub open spec fn opt_text(s: Option<String>) -> Option<Seq<char>> {
    match s {
        Some(t) => Some(t@),
        None => None,
    }
}

impl View for Embed {
    type V = EmbedView;

    open spec fn view(&self) -> EmbedView {
        EmbedView {
            title: self.title@,
            description: opt_text(self.description),
            fields: self.fields@.map_values(|f: EmbedField| f@),
            colour: self.colour,
        }
    }
}

/// An answer to a command: plain text, an embed, or both, shown to everyone
/// or only to the user who asked (`ephemeral`).
pub struct Reply {
    pub content: Option<String>,
    pub embed: Option<Embed>,
    pub ephemeral: bool,
}

pub struct ReplyView {
    pub content: Option<Seq<char>>,
    pub embed: Option<EmbedView>,
    pub ephemeral: bool,
}

impl View for Reply {
    type V = ReplyView;

    open spec fn view(&self) -> ReplyView {
        ReplyView {
            content: opt_text(self.content),
            embed: match self.embed {
                Some(e) => Some(e@),
                None => None,
            },
            ephemeral: self.ephemeral,
        }
    }
}

/// A public reply that carries one embed.
pub open spec fn embed_reply(e: EmbedView) -> ReplyView {
    ReplyView { content: None, embed: Some(e), ephemeral: false }
}

pub fn field(name: String, value: String, inline: bool) -> (f: EmbedField)
    ensures
        f@ == (name@, value@, inline),
{
    EmbedField { name, value, inline }
}

/// A reply that shows `embed` to everyone.
pub fn public_embed(embed: Embed) -> (r: Reply)
    ensures
        r@ == embed_reply(embed@),
{
    Reply { content: None, embed: Some(embed), ephemeral: false }
}

/// Concatenation of two texts.
pub fn cat2(a: &str, b: &str) -> (r: String)
    ensures
        r@ == a@ + b@,
{
    let mut r = String::from_str(a);
    r.append(b);
    r
}

/// Concatenation of three texts.
pub fn cat3(a: &str, b: &str, c: &str) -> (r: String)
    ensures
        r@ == a@ + b@ + c@,
{
    let mut r = String::from_str(a);
    r.append(b);
    r.append(c);
    r
}

/// Concatenation of four texts.
pub fn cat4(a: &str, b: &str, c: &str, d: &str) -> (r: String)
    ensures
        r@ == a@ + b@ + c@ + d@,
{
    let mut r = String::from_str(a);
    r.append(b);
    r.append(c);
    r.append(d);
    r
}

} // verus!
