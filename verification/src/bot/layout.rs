//! Small pieces of message layout shared by the bot's cards and panels.

use vstd::prelude::*;

use crate::builders::component::{
    is_link_button, ActionRow, Button, ButtonEmoji, ButtonStyle, Component, MediaGallery,
    MediaGalleryItem, Section, Separator, SeparatorSpacing, TextDisplay,
};
use crate::bot::config::Config;

verus! {

/// `c` is a text display of `s`.
pub open spec fn is_text(c: Component, s: Seq<char>) -> bool {
    c matches Component::TextDisplay(t) && t.content@ == s
}

/// `c` is the banner image gallery.
pub open spec fn is_banner(c: Component) -> bool {
    &&& c matches Component::MediaGallery(g)
    &&& g.items@.len() == 1
    &&& g.items@[0].url@ == Config::BANNER_URL@
    &&& g.items@[0].description is None
    &&& g.items@[0].spoiler == Some(false)
}

/// `c` is a separator with the given divider and spacing.
pub open spec fn is_separator(c: Component, divider: bool, spacing: SeparatorSpacing) -> bool {
    c matches Component::Separator(s) && s.divider == Some(divider) && s.spacing == Some(spacing)
}

/// `b` is a link button to `url` labeled `label` with the emoji `emoji`.
pub open spec fn is_link(b: Button, url: Seq<char>, label: Seq<char>, emoji: Option<ButtonEmoji>) -> bool {
    is_link_button(b, url, label) && b.emoji == emoji
}

/// `b` is a link button to `url` labeled `label` with the Unicode emoji `e`.
pub open spec fn is_unicode_link(b: Button, url: Seq<char>, label: Seq<char>, e: Seq<char>) -> bool {
    &&& is_link_button(b, url, label)
    &&& b.emoji matches Some(ButtonEmoji::Unicode { name }) && name@ == e
}

/// `c` is a section of one text display of `s`, with the button `b` beside it.
pub open spec fn is_section(c: Component, s: Seq<char>, b: Button) -> bool {
    &&& c matches Component::Section(sec)
    &&& sec.components@.len() == 1
    &&& is_text(sec.components@[0], s)
    &&& *sec.accessory == Component::Button(b)
}

/// A text display.
pub fn text(content: String) -> (res: Component)
    ensures
        is_text(res, content@),
{
    Component::TextDisplay(TextDisplay { content })
}

/// The banner image gallery.
pub fn banner() -> (res: Component)
    ensures
        is_banner(res),
{
    Component::MediaGallery(MediaGallery {
        items: vec![MediaGalleryItem { url: String::from_str(Config::BANNER_URL), description: None, spoiler: Some(false) }],
    })
}

/// A separator.
pub fn separator(divider: bool, spacing: SeparatorSpacing) -> (res: Component)
    ensures
        is_separator(res, divider, spacing),
{
    Component::Separator(Separator { divider: Some(divider), spacing: Some(spacing) })
}

/// A link button with a static custom emoji.
pub fn link_with_emoji(url: String, label: String, emoji_id: u64) -> (res: Button)
    ensures
        is_link(res, url@, label@, Some(ButtonEmoji::Custom { animated: false, id: emoji_id })),
{
    Button {
        custom_id: None,
        disabled: false,
        emoji: Some(ButtonEmoji::Custom { animated: false, id: emoji_id }),
        label: Some(label),
        style: ButtonStyle::Link,
        url: Some(url),
        sku_id: None,
    }
}

/// A link button with a Unicode emoji.
pub fn link_with_unicode(url: String, label: String, emoji: &str) -> (res: Button)
    ensures
        is_unicode_link(res, url@, label@, emoji@),
{
    Button {
        custom_id: None,
        disabled: false,
        emoji: Some(ButtonEmoji::Unicode { name: String::from_str(emoji) }),
        label: Some(label),
        style: ButtonStyle::Link,
        url: Some(url),
        sku_id: None,
    }
}

/// A link button without emoji.
pub fn plain_link(url: String, label: String) -> (res: Button)
    ensures
        is_link(res, url@, label@, None),
{
    Button {
        custom_id: None,
        disabled: false,
        emoji: None,
        label: Some(label),
        style: ButtonStyle::Link,
        url: Some(url),
        sku_id: None,
    }
}

/// A row of one button.
pub fn row1(b: Button) -> (res: Component)
    ensures
        res matches Component::ActionRow(r) && r.components@ == seq![Component::Button(b)],
{
    let res = Component::ActionRow(ActionRow { components: vec![Component::Button(b)] });
    res
}

/// A row of two buttons.
pub fn row2(a: Button, b: Button) -> (res: Component)
    ensures
        res matches Component::ActionRow(r) && r.components@ == seq![Component::Button(a), Component::Button(b)],
{
    Component::ActionRow(ActionRow { components: vec![Component::Button(a), Component::Button(b)] })
}

/// A row of three buttons.
pub fn row3(a: Button, b: Button, c: Button) -> (res: Component)
    ensures
        res matches Component::ActionRow(r) && r.components@ == seq![
            Component::Button(a),
            Component::Button(b),
            Component::Button(c),
        ],
{
    Component::ActionRow(ActionRow { components: vec![Component::Button(a), Component::Button(b), Component::Button(c)] })
}

/// A section of one text display with a button beside it.
pub fn section(content: String, b: Button) -> (res: Component)
    ensures
        is_section(res, content@, b),
{
    Component::Section(Section {
        components: vec![Component::TextDisplay(TextDisplay { content })],
        accessory: Box::new(Component::Button(b)),
    })
}

} // verus!
