use vstd::prelude::*;

use crate::builders::component::TextDisplay;

verus! {

/// Builder for text displays.
///
/// [`TextDisplayBuilder::build`] needs the content to have been set.
pub struct TextDisplayBuilder {
    content: Option<String>,
}

impl View for TextDisplayBuilder {
    /// The content set so far.
    type V = Option<String>;

    closed spec fn view(&self) -> Option<String> {
        self.content
    }
}

impl TextDisplayBuilder {
    /// The builder is as `new` leaves it.
    pub open spec fn is_new(&self) -> bool {
        self@ is None
    }

    pub fn new() -> (res: Self)
        ensures
            res.is_new(),
    {
        TextDisplayBuilder { content: None }
    }

    pub fn content(self, content: String) -> (res: Self)
        ensures
            res@ == Some(content),
    {
        TextDisplayBuilder { content: Some(content) }
    }

    pub fn build(self) -> (res: TextDisplay)
        requires
            self@ is Some,
        ensures
            res.content == self@->0,
    {
        TextDisplay { content: self.content.unwrap() }
    }
}

impl Default for TextDisplayBuilder {
    /// Same as `new`.
    fn default() -> (res: Self)
        ensures
            res.is_new(),
    {
        Self::new()
    }
}

} // verus!
