use vstd::prelude::*;

use crate::builders::button::ButtonBuilder;
use crate::builders::component::{Component, Section, TextDisplay, Thumbnail};
use crate::builders::text_display::TextDisplayBuilder;

verus! {

/// Builder for sections.
///
/// [`SectionBuilder::build`] needs an accessory to have been set.
pub struct SectionBuilder {
    components: Vec<Component>,
    accessory: Option<Component>,
}

/// What a section builder holds.
pub struct SectionView {
    pub components: Seq<Component>,
    pub accessory: Option<Component>,
}

impl View for SectionBuilder {
    type V = SectionView;

    closed spec fn view(&self) -> SectionView {
        SectionView { components: self.components@, accessory: self.accessory }
    }
}

impl SectionBuilder {
    /// The builder is as `new` leaves it.
    pub open spec fn is_new(&self) -> bool {
        self@.components == Seq::<Component>::empty() && self@.accessory is None
    }

    pub fn new() -> (res: Self)
        ensures
            res.is_new(),
    {
        SectionBuilder { components: Vec::new(), accessory: None }
    }

    /// Adds the text display that `f` makes of a fresh builder; `f` must set its content.
    pub fn add_text_display<F: FnOnce(TextDisplayBuilder) -> TextDisplayBuilder>(
        self,
        f: F,
    ) -> (res: Self)
        requires
            forall|b: TextDisplayBuilder| b.is_new() ==> call_requires(f, (b,)),
            forall|b0: TextDisplayBuilder, b: TextDisplayBuilder|
                b0.is_new() && call_ensures(f, (b0,), b) ==> b@ is Some,
        ensures
            exists|b0: TextDisplayBuilder, b: TextDisplayBuilder|
                b0.is_new() && call_ensures(f, (b0,), b) && res@ == (SectionView {
                    components: self@.components.push(
                        Component::TextDisplay(TextDisplay { content: b@->0 }),
                    ),
                    ..self@
                }),
    {
        let mut components = self.components;
        let b0 = TextDisplayBuilder::new();
        let b = f(b0);
        components.push(Component::TextDisplay(b.build()));
        SectionBuilder { components, accessory: self.accessory }
    }

    /// Sets a thumbnail as the accessory.
    pub fn set_thumbnail_accessory(self, url: String) -> (res: Self)
        ensures
            res@ == (SectionView {
                accessory: Some(Component::Thumbnail(Thumbnail { url, spoiler: Some(false) })),
                ..self@
            }),
    {
        SectionBuilder {
            components: self.components,
            accessory: Some(Component::Thumbnail(Thumbnail { url, spoiler: Some(false) })),
        }
    }

    /// Sets as the accessory the button that `f` makes of a fresh button builder.
    pub fn set_button_accessory<F: FnOnce(ButtonBuilder) -> ButtonBuilder>(self, f: F) -> (res: Self)
        requires
            forall|b: ButtonBuilder| b.is_new() ==> call_requires(f, (b,)),
        ensures
            exists|b0: ButtonBuilder, b: ButtonBuilder|
                b0.is_new() && call_ensures(f, (b0,), b) && res@ == (SectionView {
                    accessory: Some(Component::Button(b@)),
                    ..self@
                }),
    {
        let b = f(ButtonBuilder::new());
        SectionBuilder { components: self.components, accessory: Some(Component::Button(b.build())) }
    }

    pub fn build(self) -> (res: Section)
        requires
            self@.accessory is Some,
        ensures
            res.components@ == self@.components,
            *res.accessory == self@.accessory->0,
    {
        Section { components: self.components, accessory: Box::new(self.accessory.unwrap()) }
    }
}

impl Default for SectionBuilder {
    /// Same as `new`.
    fn default() -> (res: Self)
        ensures
            res.is_new(),
    {
        Self::new()
    }
}

} // verus!
