use vstd::prelude::*;

use crate::builders::button::ButtonBuilder;
use crate::builders::component::{ActionRow, Component, SelectMenu};
use crate::builders::select_menu::{menu_built_from, StringSelectMenuBuilder};

verus! {

/// Builder for action rows.
pub struct ActionRowBuilder {
    components: Vec<Component>,
}

impl View for ActionRowBuilder {
    /// The components added so far, in order.
    type V = Seq<Component>;

    closed spec fn view(&self) -> Seq<Component> {
        self.components@
    }
}

impl ActionRowBuilder {
    /// The builder is as `new` leaves it.
    pub open spec fn is_new(&self) -> bool {
        self@ == Seq::<Component>::empty()
    }

    pub fn new() -> (res: Self)
        ensures
            res.is_new(),
    {
        ActionRowBuilder { components: Vec::new() }
    }

    /// Adds the button that `f` makes of a fresh button builder.
    pub fn add_button<F: FnOnce(ButtonBuilder) -> ButtonBuilder>(self, f: F) -> (res: Self)
        requires
            forall|b: ButtonBuilder| b.is_new() ==> call_requires(f, (b,)),
        ensures
            exists|b0: ButtonBuilder, b: ButtonBuilder|
                b0.is_new() && call_ensures(f, (b0,), b) && res@ == self@.push(
                    Component::Button(b@),
                ),
    {
        let mut components = self.components;
        let b = f(ButtonBuilder::new());
        components.push(Component::Button(b.build()));
        ActionRowBuilder { components }
    }

    /// Adds the select menu that `f` makes of a fresh select menu builder.
    pub fn add_select_menu<F: FnOnce(StringSelectMenuBuilder) -> StringSelectMenuBuilder>(
        self,
        f: F,
    ) -> (res: Self)
        requires
            forall|b: StringSelectMenuBuilder| b.is_new() ==> call_requires(f, (b,)),
        ensures
            exists|b0: StringSelectMenuBuilder, b: StringSelectMenuBuilder, m: SelectMenu|
                b0.is_new() && call_ensures(f, (b0,), b) && menu_built_from(m, b@) && res@
                    == self@.push(Component::SelectMenu(m)),
    {
        let mut components = self.components;
        let b = f(StringSelectMenuBuilder::new());
        components.push(Component::SelectMenu(b.build()));
        ActionRowBuilder { components }
    }

    pub fn build(self) -> (res: ActionRow)
        ensures
            res.components@ == self@,
    {
        ActionRow { components: self.components }
    }
}

impl Default for ActionRowBuilder {
    /// Same as `new`.
    fn default() -> (res: Self)
        ensures
            res.is_new(),
    {
        Self::new()
    }
}

} // verus!
