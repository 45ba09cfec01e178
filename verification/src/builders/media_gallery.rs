use vstd::prelude::*;

use crate::builders::component::{MediaGallery, MediaGalleryItem};

verus! {

/// Builder for media gallery items.
pub struct MediaGalleryItemBuilder {
    url: String,
    description: Option<String>,
    spoiler: bool,
}

impl View for MediaGalleryItemBuilder {
    /// The item that `build` returns.
    type V = MediaGalleryItem;

    closed spec fn view(&self) -> MediaGalleryItem {
        MediaGalleryItem { url: self.url, description: self.description, spoiler: Some(self.spoiler) }
    }
}

impl MediaGalleryItemBuilder {
    /// The builder is as `new(url)` leaves it.
    pub open spec fn is_new(&self, url: String) -> bool {
        self@ == (MediaGalleryItem { url, description: None, spoiler: Some(false) })
    }

    fn new(url: String) -> (res: Self)
        ensures
            res.is_new(url),
    {
        MediaGalleryItemBuilder { url, description: None, spoiler: false }
    }

    pub fn description(self, description: String) -> (res: Self)
        ensures
            res@ == (MediaGalleryItem { description: Some(description), ..self@ }),
    {
        MediaGalleryItemBuilder { description: Some(description), ..self }
    }

    pub fn spoiler(self, spoiler: bool) -> (res: Self)
        ensures
            res@ == (MediaGalleryItem { spoiler: Some(spoiler), ..self@ }),
    {
        MediaGalleryItemBuilder { spoiler, ..self }
    }

    fn build(self) -> (res: MediaGalleryItem)
        ensures
            res == self@,
    {
        MediaGalleryItem { url: self.url, description: self.description, spoiler: Some(self.spoiler) }
    }
}

/// Builder for media galleries.
pub struct MediaGalleryBuilder {
    items: Vec<MediaGalleryItem>,
}

impl View for MediaGalleryBuilder {
    /// The items added so far, in order.
    type V = Seq<MediaGalleryItem>;

    closed spec fn view(&self) -> Seq<MediaGalleryItem> {
        self.items@
    }
}

impl MediaGalleryBuilder {
    /// The builder is as `new` leaves it.
    pub open spec fn is_new(&self) -> bool {
        self@ == Seq::<MediaGalleryItem>::empty()
    }

    pub fn new() -> (res: Self)
        ensures
            res.is_new(),
    {
        MediaGalleryBuilder { items: Vec::new() }
    }

    /// Shorthand for [`MediaGalleryBuilder::add_item`] with the item left as it starts.
    pub fn add_item_from_url(self, url: String) -> (res: Self)
        ensures
            res@ == self@.push(MediaGalleryItem { url, description: None, spoiler: Some(false) }),
    {
        let mut items = self.items;
        items.push(MediaGalleryItemBuilder::new(url).build());
        MediaGalleryBuilder { items }
    }

    /// Adds an item at `url`, shaped by `f`.
    pub fn add_item<F: FnOnce(MediaGalleryItemBuilder) -> MediaGalleryItemBuilder>(
        self,
        url: String,
        f: F,
    ) -> (res: Self)
        requires
            forall|b: MediaGalleryItemBuilder| b.is_new(url) ==> call_requires(f, (b,)),
        ensures
            exists|b0: MediaGalleryItemBuilder, b: MediaGalleryItemBuilder|
                b0.is_new(url) && call_ensures(f, (b0,), b) && res@ == self@.push(b@),
    {
        let mut items = self.items;
        let b = f(MediaGalleryItemBuilder::new(url));
        items.push(b.build());
        MediaGalleryBuilder { items }
    }

    pub fn build(self) -> (res: MediaGallery)
        ensures
            res.items@ == self@,
    {
        MediaGallery { items: self.items }
    }
}

impl Default for MediaGalleryBuilder {
    /// Same as `new`.
    fn default() -> (res: Self)
        ensures
            res.is_new(),
    {
        Self::new()
    }
}

} // verus!
