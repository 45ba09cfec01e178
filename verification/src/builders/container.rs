use vstd::prelude::*;

use crate::builders::action_row::ActionRowBuilder;
use crate::builders::component::{
    ActionRow, Component, Container, MediaGallery, Section, TextDisplay,
};
use crate::builders::media_gallery::MediaGalleryBuilder;
use crate::builders::section::SectionBuilder;
use crate::builders::separator::SeparatorBuilder;
use crate::builders::text_display::TextDisplayBuilder;

verus! {

/// Builder for containers.
pub struct ContainerBuilder {
    components: Vec<Component>,
    accent_color: Option<u32>,
    spoiler: bool,
}

/// What a container builder holds.
pub struct ContainerView {
    pub components: Seq<Component>,
    pub accent_color: Option<u32>,
    pub spoiler: bool,
}

impl View for ContainerBuilder {
    type V = ContainerView;

    closed spec fn view(&self) -> ContainerView {
        ContainerView {
            components: self.components@,
            accent_color: self.accent_color,
            spoiler: self.spoiler,
        }
    }
}

/// `c` is the container built from what a builder holds: a set color `x` becomes
/// `Some(Some(x))`, no color stays `None`, and the spoiler flag is always present.
pub open spec fn container_built_from(c: Container, v: ContainerView) -> bool {
    &&& c.components@ == v.components
    &&& c.accent_color == (match v.accent_color {
        Some(x) => Some(Some(x)),
        None => None,
    })
    &&& c.spoiler == Some(v.spoiler)
}

impl ContainerBuilder {
    /// The builder is as `new` leaves it.
    pub open spec fn is_new(&self) -> bool {
        self@ == (ContainerView {
            components: Seq::<Component>::empty(),
            accent_color: None,
            spoiler: false,
        })
    }

    pub fn new() -> (res: Self)
        ensures
            res.is_new(),
    {
        ContainerBuilder { components: Vec::new(), accent_color: None, spoiler: false }
    }

    /// Adds the text display that `f` makes of a fresh builder; `f` must set its content.
    pub fn add_text_display<F: FnOnce(TextDisplayBuilder) -> TextDisplayBuilder>(
        self,
        f: F,
    ) -> (res: Self)
        requires
            forall|b: TextDisplayBuilder| b.is_new() ==> call_requires(f, (b,)),
            forall|b0: TextDisplayBuilder, b: TextDisplayBuilder|
                b0.is_new() && call_ensures(f, (b0,), b) ==> b@ is Some,
        ensures
            exists|b0: TextDisplayBuilder, b: TextDisplayBuilder|
                b0.is_new() && call_ensures(f, (b0,), b) && res@ == (ContainerView {
                    components: self@.components.push(
                        Component::TextDisplay(TextDisplay { content: b@->0 }),
                    ),
                    ..self@
                }),
    {
        let mut components = self.components;
        let b = f(TextDisplayBuilder::new());
        components.push(Component::TextDisplay(b.build()));
        ContainerBuilder { components, ..self }
    }

    /// Adds the media gallery that `f` makes of a fresh builder.
    pub fn add_media_gallery<F: FnOnce(MediaGalleryBuilder) -> MediaGalleryBuilder>(
        self,
        f: F,
    ) -> (res: Self)
        requires
            forall|b: MediaGalleryBuilder| b.is_new() ==> call_requires(f, (b,)),
        ensures
            exists|b0: MediaGalleryBuilder, b: MediaGalleryBuilder, g: MediaGallery|
                b0.is_new() && call_ensures(f, (b0,), b) && g.items@ == b@ && res@ == (
                ContainerView { components: self@.components.push(Component::MediaGallery(g)), ..self@ }),
    {
        let mut components = self.components;
        let b = f(MediaGalleryBuilder::new());
        components.push(Component::MediaGallery(b.build()));
        ContainerBuilder { components, ..self }
    }

    /// Adds the section that `f` makes of a fresh builder; `f` must set its accessory.
    pub fn add_section<F: FnOnce(SectionBuilder) -> SectionBuilder>(self, f: F) -> (res: Self)
        requires
            forall|b: SectionBuilder| b.is_new() ==> call_requires(f, (b,)),
            forall|b0: SectionBuilder, b: SectionBuilder|
                b0.is_new() && call_ensures(f, (b0,), b) ==> b@.accessory is Some,
        ensures
            exists|b0: SectionBuilder, b: SectionBuilder, s: Section|
                b0.is_new() && call_ensures(f, (b0,), b) && s.components@ == b@.components
                    && *s.accessory == b@.accessory->0 && res@ == (ContainerView {
                    components: self@.components.push(Component::Section(s)),
                    ..self@
                }),
    {
        let mut components = self.components;
        let b = f(SectionBuilder::new());
        components.push(Component::Section(b.build()));
        ContainerBuilder { components, ..self }
    }

    /// Adds the separator that `f` makes of a fresh builder.
    pub fn add_separator<F: FnOnce(SeparatorBuilder) -> SeparatorBuilder>(self, f: F) -> (res: Self)
        requires
            forall|b: SeparatorBuilder| b.is_new() ==> call_requires(f, (b,)),
        ensures
            exists|b0: SeparatorBuilder, b: SeparatorBuilder|
                b0.is_new() && call_ensures(f, (b0,), b) && res@ == (ContainerView {
                    components: self@.components.push(Component::Separator(b@)),
                    ..self@
                }),
    {
        let mut components = self.components;
        let b = f(SeparatorBuilder::new());
        components.push(Component::Separator(b.build()));
        ContainerBuilder { components, ..self }
    }

    /// Adds the action row that `f` makes of a fresh builder.
    pub fn add_action_row<F: FnOnce(ActionRowBuilder) -> ActionRowBuilder>(self, f: F) -> (res: Self)
        requires
            forall|b: ActionRowBuilder| b.is_new() ==> call_requires(f, (b,)),
        ensures
            exists|b0: ActionRowBuilder, b: ActionRowBuilder, r: ActionRow|
                b0.is_new() && call_ensures(f, (b0,), b) && r.components@ == b@ && res@ == (
                ContainerView { components: self@.components.push(Component::ActionRow(r)), ..self@ }),
    {
        let mut components = self.components;
        let b = f(ActionRowBuilder::new());
        components.push(Component::ActionRow(b.build()));
        ContainerBuilder { components, ..self }
    }

    pub fn accent_color(self, color: u32) -> (res: Self)
        ensures
            res@ == (ContainerView { accent_color: Some(color), ..self@ }),
    {
        ContainerBuilder { accent_color: Some(color), ..self }
    }

    pub fn spoiler(self, spoiler: bool) -> (res: Self)
        ensures
            res@ == (ContainerView { spoiler, ..self@ }),
    {
        ContainerBuilder { spoiler, ..self }
    }

    pub fn build(self) -> (res: Container)
        ensures
            container_built_from(res, self@),
    {
        Container {
            accent_color: if self.accent_color.is_none() {
                None
            } else {
                Some(self.accent_color)
            },
            components: self.components,
            spoiler: Some(self.spoiler),
        }
    }
}

impl Default for ContainerBuilder {
    /// Same as `new`.
    fn default() -> (res: Self)
        ensures
            res.is_new(),
    {
        Self::new()
    }
}

} // verus!
