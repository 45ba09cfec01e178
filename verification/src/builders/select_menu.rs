use vstd::prelude::*;

use crate::builders::component::{SelectMenu, SelectMenuOption};

verus! {

/// Builder for string select menu options.
pub struct StringSelectMenuOptionBuilder {
    label: String,
    value: String,
    description: Option<String>,
    default: bool,
}

impl View for StringSelectMenuOptionBuilder {
    /// The option that `build` returns.
    type V = SelectMenuOption;

    closed spec fn view(&self) -> SelectMenuOption {
        SelectMenuOption {
            default: self.default,
            description: self.description,
            label: self.label,
            value: self.value,
        }
    }
}

impl StringSelectMenuOptionBuilder {
    /// The builder is as `new` leaves it: empty label and value, no description,
    /// not selected by default.
    pub open spec fn is_new(&self) -> bool {
        &&& self@.label@ == Seq::<char>::empty()
        &&& self@.value@ == Seq::<char>::empty()
        &&& self@.description is None
        &&& !self@.default
    }

    pub fn new() -> (res: Self)
        ensures
            res.is_new(),
    {
        StringSelectMenuOptionBuilder {
            label: String::new(),
            value: String::new(),
            description: None,
            default: false,
        }
    }

    pub fn label(self, label: String) -> (res: Self)
        ensures
            res@ == (SelectMenuOption { label, ..self@ }),
    {
        StringSelectMenuOptionBuilder { label, ..self }
    }

    pub fn value(self, value: String) -> (res: Self)
        ensures
            res@ == (SelectMenuOption { value, ..self@ }),
    {
        StringSelectMenuOptionBuilder { value, ..self }
    }

    pub fn description(self, description: String) -> (res: Self)
        ensures
            res@ == (SelectMenuOption { description: Some(description), ..self@ }),
    {
        StringSelectMenuOptionBuilder { description: Some(description), ..self }
    }

    pub fn default(self, default: bool) -> (res: Self)
        ensures
            res@ == (SelectMenuOption { default, ..self@ }),
    {
        StringSelectMenuOptionBuilder { default, ..self }
    }

    pub fn build(self) -> (res: SelectMenuOption)
        ensures
            res == self@,
    {
        SelectMenuOption {
            default: self.default,
            description: self.description,
            label: self.label,
            value: self.value,
        }
    }
}

/// Builder for string select menus.
pub struct StringSelectMenuBuilder {
    custom_id: String,
    options: Vec<SelectMenuOption>,
    placeholder: Option<String>,
    min_values: Option<u8>,
    max_values: Option<u8>,
    disabled: bool,
}

/// `m` is the menu built from what a builder holds.
pub open spec fn menu_built_from(m: SelectMenu, v: SelectMenuView) -> bool {
    &&& m.custom_id == v.custom_id
    &&& m.options@ == v.options
    &&& m.placeholder == v.placeholder
    &&& m.min_values == v.min_values
    &&& m.max_values == v.max_values
    &&& m.disabled == v.disabled
}

/// What a select menu builder holds: the menu it builds, with the options as a sequence.
pub struct SelectMenuView {
    pub custom_id: String,
    pub options: Seq<SelectMenuOption>,
    pub placeholder: Option<String>,
    pub min_values: Option<u8>,
    pub max_values: Option<u8>,
    pub disabled: bool,
}

impl View for StringSelectMenuBuilder {
    type V = SelectMenuView;

    closed spec fn view(&self) -> SelectMenuView {
        SelectMenuView {
            custom_id: self.custom_id,
            options: self.options@,
            placeholder: self.placeholder,
            min_values: self.min_values,
            max_values: self.max_values,
            disabled: self.disabled,
        }
    }
}

impl StringSelectMenuBuilder {
    /// The builder is as `new` leaves it: empty custom id, no options, nothing else set.
    pub open spec fn is_new(&self) -> bool {
        &&& self@.custom_id@ == Seq::<char>::empty()
        &&& self@.options == Seq::<SelectMenuOption>::empty()
        &&& self@.placeholder is None
        &&& self@.min_values is None
        &&& self@.max_values is None
        &&& !self@.disabled
    }

    pub fn new() -> (res: Self)
        ensures
            res.is_new(),
    {
        StringSelectMenuBuilder {
            custom_id: String::new(),
            options: Vec::new(),
            placeholder: None,
            min_values: None,
            max_values: None,
            disabled: false,
        }
    }

    pub fn custom_id(self, custom_id: String) -> (res: Self)
        ensures
            res@ == (SelectMenuView { custom_id, ..self@ }),
    {
        StringSelectMenuBuilder { custom_id, ..self }
    }

    /// Adds the option that `f` makes of a fresh option builder.
    pub fn add_option<F: FnOnce(StringSelectMenuOptionBuilder) -> StringSelectMenuOptionBuilder>(
        self,
        f: F,
    ) -> (res: Self)
        requires
            forall|b: StringSelectMenuOptionBuilder| b.is_new() ==> call_requires(f, (b,)),
        ensures
            exists|b0: StringSelectMenuOptionBuilder, b: StringSelectMenuOptionBuilder|
                b0.is_new() && call_ensures(f, (b0,), b) && res@ == (SelectMenuView {
                    options: self@.options.push(b@),
                    ..self@
                }),
    {
        let mut options = self.options;
        let b = f(StringSelectMenuOptionBuilder::new());
        options.push(b.build());
        StringSelectMenuBuilder { options, ..self }
    }

    pub fn placeholder(self, placeholder: String) -> (res: Self)
        ensures
            res@ == (SelectMenuView { placeholder: Some(placeholder), ..self@ }),
    {
        StringSelectMenuBuilder { placeholder: Some(placeholder), ..self }
    }

    pub fn min_values(self, min: u8) -> (res: Self)
        ensures
            res@ == (SelectMenuView { min_values: Some(min), ..self@ }),
    {
        StringSelectMenuBuilder { min_values: Some(min), ..self }
    }

    pub fn max_values(self, max: u8) -> (res: Self)
        ensures
            res@ == (SelectMenuView { max_values: Some(max), ..self@ }),
    {
        StringSelectMenuBuilder { max_values: Some(max), ..self }
    }

    pub fn disabled(self, disabled: bool) -> (res: Self)
        ensures
            res@ == (SelectMenuView { disabled, ..self@ }),
    {
        StringSelectMenuBuilder { disabled, ..self }
    }

    pub fn build(self) -> (res: SelectMenu)
        ensures
            menu_built_from(res, self@),
    {
        SelectMenu {
            custom_id: self.custom_id,
            disabled: self.disabled,
            max_values: self.max_values,
            min_values: self.min_values,
            options: self.options,
            placeholder: self.placeholder,
        }
    }
}

impl Default for StringSelectMenuBuilder {
    /// Same as `new`.
    fn default() -> (res: Self)
        ensures
            res.is_new(),
    {
        Self::new()
    }
}

} // verus!
