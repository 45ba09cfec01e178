use vstd::prelude::*;

use crate::builders::component::{Button, ButtonEmoji, ButtonStyle};

verus! {

/// Builder for buttons.
pub struct ButtonBuilder {
    style: ButtonStyle,
    custom_id: Option<String>,
    url: Option<String>,
    label: Option<String>,
    emoji: Option<ButtonEmoji>,
    disabled: bool,
    sku_id: Option<u64>,
}

impl View for ButtonBuilder {
    /// The button that `build` returns.
    type V = Button;

    closed spec fn view(&self) -> Button {
        Button {
            custom_id: self.custom_id,
            disabled: self.disabled,
            emoji: self.emoji,
            label: self.label,
            style: self.style,
            url: self.url,
            sku_id: self.sku_id,
        }
    }
}

impl ButtonBuilder {
    /// A primary button with nothing else set.
    pub open spec fn spec_new_button() -> Button {
        Button {
            custom_id: None,
            disabled: false,
            emoji: None,
            label: None,
            style: ButtonStyle::Primary,
            url: None,
            sku_id: None,
        }
    }

    /// The builder is as `new` leaves it.
    pub open spec fn is_new(&self) -> bool {
        self@ == Self::spec_new_button()
    }

    pub fn new() -> (res: Self)
        ensures
            res.is_new(),
    {
        ButtonBuilder {
            style: ButtonStyle::Primary,
            custom_id: None,
            url: None,
            label: None,
            emoji: None,
            disabled: false,
            sku_id: None,
        }
    }

    pub fn style(self, style: ButtonStyle) -> (res: Self)
        ensures
            res@ == (Button { style, ..self@ }),
    {
        ButtonBuilder { style, ..self }
    }

    pub fn primary(self) -> (res: Self)
        ensures
            res@ == (Button { style: ButtonStyle::Primary, ..self@ }),
    {
        ButtonBuilder { style: ButtonStyle::Primary, ..self }
    }

    pub fn secondary(self) -> (res: Self)
        ensures
            res@ == (Button { style: ButtonStyle::Secondary, ..self@ }),
    {
        ButtonBuilder { style: ButtonStyle::Secondary, ..self }
    }

    pub fn success(self) -> (res: Self)
        ensures
            res@ == (Button { style: ButtonStyle::Success, ..self@ }),
    {
        ButtonBuilder { style: ButtonStyle::Success, ..self }
    }

    pub fn danger(self) -> (res: Self)
        ensures
            res@ == (Button { style: ButtonStyle::Danger, ..self@ }),
    {
        ButtonBuilder { style: ButtonStyle::Danger, ..self }
    }

    /// A link button: sets the style and the URL.
    pub fn link(self, url: String) -> (res: Self)
        ensures
            res@ == (Button { style: ButtonStyle::Link, url: Some(url), ..self@ }),
    {
        ButtonBuilder { style: ButtonStyle::Link, url: Some(url), ..self }
    }

    /// A premium button: sets the SKU id and the style.
    pub fn premium(self, sku_id: u64) -> (res: Self)
        ensures
            res@ == (Button { style: ButtonStyle::Premium, sku_id: Some(sku_id), ..self@ }),
    {
        ButtonBuilder { style: ButtonStyle::Premium, sku_id: Some(sku_id), ..self }
    }

    /// Sets the custom ID (not for link and premium buttons).
    pub fn custom_id(self, custom_id: String) -> (res: Self)
        ensures
            res@ == (Button { custom_id: Some(custom_id), ..self@ }),
    {
        ButtonBuilder { custom_id: Some(custom_id), ..self }
    }

    pub fn label(self, label: String) -> (res: Self)
        ensures
            res@ == (Button { label: Some(label), ..self@ }),
    {
        ButtonBuilder { label: Some(label), ..self }
    }

    pub fn disabled(self, disabled: bool) -> (res: Self)
        ensures
            res@ == (Button { disabled, ..self@ }),
    {
        ButtonBuilder { disabled, ..self }
    }

    pub fn unicode_emoji(self, emoji: String) -> (res: Self)
        ensures
            res@ == (Button { emoji: Some(ButtonEmoji::Unicode { name: emoji }), ..self@ }),
    {
        ButtonBuilder { emoji: Some(ButtonEmoji::Unicode { name: emoji }), ..self }
    }

    pub fn custom_emoji(self, id: u64, animated: bool) -> (res: Self)
        ensures
            res@ == (Button { emoji: Some(ButtonEmoji::Custom { animated, id }), ..self@ }),
    {
        ButtonBuilder { emoji: Some(ButtonEmoji::Custom { animated, id }), ..self }
    }

    pub fn build(self) -> (res: Button)
        ensures
            res == self@,
    {
        Button {
            custom_id: self.custom_id,
            disabled: self.disabled,
            emoji: self.emoji,
            label: self.label,
            style: self.style,
            url: self.url,
            sku_id: self.sku_id,
        }
    }
}

impl Default for ButtonBuilder {
    /// Same as `new`.
    fn default() -> (res: Self)
        ensures
            res.is_new(),
    {
        Self::new()
    }
}

} // verus!
