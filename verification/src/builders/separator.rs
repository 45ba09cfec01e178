use vstd::prelude::*;

use crate::builders::component::{Separator, SeparatorSpacing};

verus! {

/// Builder for separators.
pub struct SeparatorBuilder {
    divider: Option<bool>,
    spacing: Option<SeparatorSpacing>,
}

impl View for SeparatorBuilder {
    /// The separator that `build` returns.
    type V = Separator;

    closed spec fn view(&self) -> Separator {
        Separator { divider: self.divider, spacing: self.spacing }
    }
}

impl SeparatorBuilder {
    /// The builder is as `new` leaves it.
    pub open spec fn is_new(&self) -> bool {
        self@ == (Separator { divider: None, spacing: None })
    }

    pub fn new() -> (res: Self)
        ensures
            res.is_new(),
    {
        SeparatorBuilder { divider: None, spacing: None }
    }

    pub fn divider(self, divider: bool) -> (res: Self)
        ensures
            res@ == (Separator { divider: Some(divider), ..self@ }),
    {
        SeparatorBuilder { divider: Some(divider), ..self }
    }

    pub fn spacing(self, spacing: SeparatorSpacing) -> (res: Self)
        ensures
            res@ == (Separator { spacing: Some(spacing), ..self@ }),
    {
        SeparatorBuilder { spacing: Some(spacing), ..self }
    }

    pub fn build(self) -> (res: Separator)
        ensures
            res == self@,
    {
        Separator { divider: self.divider, spacing: self.spacing }
    }
}

impl Default for SeparatorBuilder {
    /// Same as `new`.
    fn default() -> (res: Self)
        ensures
            res.is_new(),
    {
        Self::new()
    }
}

} // verus!
