//! The frame cache: a single slot that holds the most recent encoded image.
//!
//! The slot is empty until the first write. A write replaces the whole
//! content; there is no history and no partial update. A read hands out a
//! copy and never a reference into the slot. Writing needs exclusive access
//! to the cache, so a reader can only ever see the content before a write or
//! after it.

use vstd::prelude::*;
use crate::frame::{EncodedImage, ImageData};

verus! {

/// The single-slot store of the latest encoded image.
#[derive(Debug)]
pub struct FrameCache {
    slot: Option<EncodedImage>,
}

/// The content of a cache that nothing was written to.
pub open spec fn empty_content() -> Option<ImageData> {
    None
}

/// The content of a cache after `image` is written over `content`.
pub open spec fn content_after_write(content: Option<ImageData>, image: ImageData) -> Option<
    ImageData,
> {
    Some(image)
}

/// The content of an empty cache after the images of `writes` were written
/// in order.
pub open spec fn content_after_writes(writes: Seq<ImageData>) -> Option<ImageData>
    decreases writes.len(),
{
    if writes.len() == 0 {
        empty_content()
    } else {
        content_after_write(content_after_writes(writes.drop_last()), writes.last())
    }
}

impl View for FrameCache {
    type V = Option<ImageData>;

    closed spec fn view(&self) -> Option<ImageData> {
        match self.slot {
            None => None,
            Some(image) => Some(image@),
        }
    }
}

impl FrameCache {
    /// An empty cache.
    pub fn new() -> (cache: FrameCache)
        ensures
            cache@ == empty_content(),
    {
        FrameCache { slot: None }
    }

    /// Replaces the content of the cache by `image`.
    pub fn write(&mut self, image: EncodedImage)
        ensures
            final(self)@ == content_after_write(old(self)@, image@),
    {
        self.slot = Some(image);
    }

    /// A copy of the current image, or `None` if nothing was ever written.
    pub fn read(&self) -> (current: Option<EncodedImage>)
        ensures
            match self@ {
                None => current is None,
                Some(content) => current matches Some(image) && image@ == content,
            },
    {
        match &self.slot {
            None => None,
            Some(image) => Some(image.duplicate()),
        }
    }

    /// Whether an image is available.
    pub fn is_available(&self) -> (available: bool)
        ensures
            available == self@.is_some(),
    {
        self.slot.is_some()
    }
}

/// A cache that was never written to has no image to give.
pub proof fn lemma_nothing_before_first_write()
    ensures
        content_after_writes(Seq::<ImageData>::empty()) is None,
{
}

/// Reads follow writes: after the first `count` of a series of writes the
/// cache holds the image written last among them, whole, whatever it held
/// before. A later read therefore never sees an older image than an earlier
/// one did.
pub proof fn lemma_read_sees_latest_write(writes: Seq<ImageData>, count: int)
    requires
        0 <= count <= writes.len(),
    ensures
        count == 0 ==> content_after_writes(writes.take(count)) is None,
        count > 0 ==> content_after_writes(writes.take(count)) == Some(writes[count - 1]),
{
}

/// What a read returns is one of the images that were written, in full: its
/// dimensions and every byte are those of one write.
pub proof fn lemma_read_is_a_written_image(writes: Seq<ImageData>)
    ensures
        content_after_writes(writes) matches Some(image) ==> writes.contains(image),
{
    if writes.len() > 0 {
        assert(writes[writes.len() - 1] == writes.last());
    }
}

} // verus!
