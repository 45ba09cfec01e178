//! The data model of message components (layout and interactive ones).

use vstd::prelude::*;

verus! {

/// The style of a button.
#[derive(Clone, Copy, Debug, PartialEq, Eq, Structural)]
pub enum ButtonStyle {
    Primary,
    Secondary,
    Success,
    Danger,
    Link,
    Premium,
}

/// The emoji shown on a button.
#[derive(Clone, Debug)]
pub enum ButtonEmoji {
    /// A Unicode emoji, by its text.
    Unicode { name: String },
    /// A custom emoji of a guild or of the application, by id.
    Custom { animated: bool, id: u64 },
}

/// A button.
#[derive(Clone, Debug)]
pub struct Button {
    pub custom_id: Option<String>,
    pub disabled: bool,
    pub emoji: Option<ButtonEmoji>,
    pub label: Option<String>,
    pub style: ButtonStyle,
    pub url: Option<String>,
    pub sku_id: Option<u64>,
}

/// One option of a string select menu.
#[derive(Clone, Debug)]
pub struct SelectMenuOption {
    pub default: bool,
    pub description: Option<String>,
    pub label: String,
    pub value: String,
}

/// A string select menu (its kind is always "text").
#[derive(Clone, Debug)]
pub struct SelectMenu {
    pub custom_id: String,
    pub disabled: bool,
    pub max_values: Option<u8>,
    pub min_values: Option<u8>,
    pub options: Vec<SelectMenuOption>,
    pub placeholder: Option<String>,
}

/// A block of markdown text.
#[derive(Clone, Debug)]
pub struct TextDisplay {
    pub content: String,
}

/// One item of a media gallery.
#[derive(Clone, Debug)]
pub struct MediaGalleryItem {
    pub url: String,
    pub description: Option<String>,
    pub spoiler: Option<bool>,
}

/// A gallery of media items.
#[derive(Clone, Debug)]
pub struct MediaGallery {
    pub items: Vec<MediaGalleryItem>,
}

/// The spacing of a separator.
#[derive(Clone, Copy, Debug, PartialEq, Eq, Structural)]
pub enum SeparatorSpacing {
    Small,
    Large,
}

/// A separator between components.
#[derive(Clone, Debug)]
pub struct Separator {
    pub divider: Option<bool>,
    pub spacing: Option<SeparatorSpacing>,
}

/// A thumbnail image, used as a section accessory.
#[derive(Clone, Debug)]
pub struct Thumbnail {
    pub url: String,
    pub spoiler: Option<bool>,
}

/// A row of interactive components.
#[derive(Debug)]
pub struct ActionRow {
    pub components: Vec<Component>,
}

/// Text components with an accessory beside them.
#[derive(Debug)]
pub struct Section {
    pub components: Vec<Component>,
    pub accessory: Box<Component>,
}

/// A container of components, with an optional accent color.
///
/// `accent_color` is `Some(Some(c))` when a color is set and `None` otherwise.
#[derive(Debug)]
pub struct Container {
    pub accent_color: Option<Option<u32>>,
    pub components: Vec<Component>,
    pub spoiler: Option<bool>,
}

/// Any message component.
#[derive(Debug)]
pub enum Component {
    ActionRow(ActionRow),
    Button(Button),
    SelectMenu(SelectMenu),
    TextDisplay(TextDisplay),
    MediaGallery(MediaGallery),
    Section(Section),
    Separator(Separator),
    Thumbnail(Thumbnail),
    Container(Container),
}

} // verus!

verus! {

/// `b` is a link button to `url` labeled `label`, with nothing else set but its emoji.
pub open spec fn is_link_button(b: Button, url: Seq<char>, label: Seq<char>) -> bool {
    &&& b.style == ButtonStyle::Link
    &&& b.url matches Some(u) && u@ == url
    &&& b.label matches Some(l) && l@ == label
    &&& b.custom_id is None
    &&& !b.disabled
    &&& b.sku_id is None
}

/// `c` is a row of exactly the buttons `bs`.
pub open spec fn is_button_row(c: Component, bs: Seq<Button>) -> bool {
    &&& c matches Component::ActionRow(row)
    &&& row.components@.len() == bs.len()
    &&& forall|k: int| 0 <= k < bs.len() ==> (#[trigger] row.components@[k]) == Component::Button(bs[k])
}

/// A static custom emoji.
pub open spec fn custom_emoji(id: u64) -> Option<ButtonEmoji> {
    Some(ButtonEmoji::Custom { animated: false, id })
}

} // verus!
