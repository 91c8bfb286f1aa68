//! Frame-to-frame bookkeeping of the pages that the display layer shows.

use crate::cache::PdfPageCacheMutableState;
use crate::range::{
    range_has, range_is_contiguous, range_len, range_length, range_union, spec_range_is_contiguous,
    spec_range_union,
};
use std::ops::Range;
use vstd::prelude::*;

verus! {

/// `dst` is a copy of the slot `src`: both empty, or both hold an image and
/// the second is a clone of the first.
pub open spec fn slot_copied<I: Clone>(src: Option<I>, dst: Option<I>) -> bool {
    match src {
        None => dst is None,
        Some(a) => dst is Some && cloned::<I>(a, dst->Some_0),
    }
}

/// The request for page 0 alone, which the display layer makes whatever the
/// scroll position; it is never tracked.
pub open spec fn is_first_page_only(r: Range<usize>) -> bool {
    r.start == 0 && r.end == 1
}

/// The pages seen this frame after the display layer lays out `visible`.
///
/// A range that is not contiguous with what was seen before in this frame
/// replaces it: the earlier range came from a layout pass that turned out
/// not to be visible.
pub open spec fn next_this_frame(this_frame: Range<usize>, visible: Range<usize>) -> Range<usize> {
    if is_first_page_only(visible) {
        this_frame
    } else if range_len(this_frame) == 0 || !spec_range_is_contiguous(this_frame, visible) {
        visible
    } else {
        spec_range_union(this_frame, visible)
    }
}

/// The images handed to the display layer for one laid-out range.
pub struct FrameImages<I> {
    /// One slot per page of the range, `None` where no image is cached.
    pub images: Vec<Option<I>>,
    /// The request changed and the worker has not seen it: wake it.
    pub wake_worker: bool,
}

/// The ranges of pages that the display showed this frame and the frame
/// before; pages in either are kept cached.
pub struct PdfPageCache {
    /// Pages laid out in this frame.
    pub pages_this_frame: Range<usize>,
    /// Pages laid out in the previous frame.
    pub pages_last_frame: Range<usize>,
}

impl PdfPageCache {
    /// No page seen yet.
    pub fn new() -> (r: Self)
        ensures
            r.pages_this_frame == (0usize..0usize),
            r.pages_last_frame == (0usize..0usize),
    {
        PdfPageCache { pages_this_frame: 0..0, pages_last_frame: 0..0 }
    }

    /// Start a display frame: this frame's pages become last frame's.
    pub fn frame_start(&mut self)
        ensures
            final(self).pages_last_frame == old(self).pages_this_frame,
            final(self).pages_this_frame == (0usize..0usize),
    {
        self.pages_last_frame = self.pages_this_frame.start..self.pages_this_frame.end;
        self.pages_this_frame = 0..0;
    }

    /// The cached images for `visible_range`, as the display lays it out.
    ///
    /// Unless the range is page 0 alone, it is merged into this frame's pages,
    /// and the request becomes the union of this frame's and last frame's
    /// pages.
    pub fn get_images<I: Clone>(
        &mut self,
        visible_range: Range<usize>,
        state: &mut PdfPageCacheMutableState<I>,
    ) -> (r: FrameImages<I>)
        requires
            old(state).wf(),
        ensures
            final(state).wf(),
            r.images@.len() == range_len(visible_range),
            visible_range.start <= visible_range.end <= old(state).images.len() ==> forall|i: int|
                0 <= i < r.images@.len() ==> #[trigger] slot_copied(
                    old(state).images@[visible_range.start + i],
                    r.images@[i],
                ),
            !(visible_range.start <= visible_range.end <= old(state).images.len()) ==> forall|
                i: int,
            |
                0 <= i < r.images@.len() ==> #[trigger] r.images@[i] is None,
            final(self).pages_this_frame == next_this_frame(
                old(self).pages_this_frame,
                visible_range,
            ),
            final(self).pages_last_frame == old(self).pages_last_frame,
            final(state).images == old(state).images,
            final(state).failed_pages == old(state).failed_pages,
            final(state).pdf == old(state).pdf,
            final(state).render_settings == old(state).render_settings,
            final(state).acknowledged_pages == old(state).acknowledged_pages,
            final(state).should_quit == old(state).should_quit,
            is_first_page_only(visible_range) ==> {
                &&& final(state).requested_pages == old(state).requested_pages
                &&& !r.wake_worker
            },
            !is_first_page_only(visible_range) ==> {
                &&& final(state).requested_pages == spec_range_union(
                    final(self).pages_this_frame,
                    final(self).pages_last_frame,
                )
                &&& r.wake_worker == (final(state).requested_pages
                    != final(state).acknowledged_pages)
            },
    {
        let count = range_length(&visible_range);
        let in_bounds = visible_range.start <= visible_range.end && visible_range.end
            <= state.images.len();
        let mut images: Vec<Option<I>> = Vec::new();
        let mut i: usize = 0;
        while i < count
            invariant
                i <= count,
                count == range_len(visible_range),
                images@.len() == i,
                in_bounds == (visible_range.start <= visible_range.end <= state.images.len()),
                in_bounds ==> forall|j: int|
                    0 <= j < i ==> #[trigger] slot_copied(
                        state.images@[visible_range.start + j],
                        images@[j],
                    ),
                !in_bounds ==> forall|j: int| 0 <= j < i ==> #[trigger] images@[j] is None,
            decreases count - i,
        {
            if in_bounds {
                images.push(state.images[visible_range.start + i].clone());
            } else {
                images.push(None);
            }
            i = i + 1;
        }

        if visible_range.start == 0 && visible_range.end == 1 {
            return FrameImages { images, wake_worker: false };
        }
        let this_frame = self.pages_this_frame.start..self.pages_this_frame.end;
        if range_length(&this_frame) == 0 || !range_is_contiguous(
            this_frame,
            visible_range.start..visible_range.end,
        ) {
            self.pages_this_frame = visible_range;
        } else {
            self.pages_this_frame = range_union(
                self.pages_this_frame.start..self.pages_this_frame.end,
                visible_range,
            );
        }
        state.requested_pages = range_union(
            self.pages_this_frame.start..self.pages_this_frame.end,
            self.pages_last_frame.start..self.pages_last_frame.end,
        );
        let wake_worker = state.has_unacknowledged_request();
        FrameImages { images, wake_worker }
    }
}

/// Within one frame, a laid-out range that is not contiguous with the pages
/// seen earlier in the frame replaces them: the request becomes that range
/// together with last frame's pages, and when last frame showed no page, it
/// holds none of the earlier ones.
pub proof fn lemma_discontiguous_range_drops_earlier_pages(
    this_frame: Range<usize>,
    last_frame: Range<usize>,
    visible: Range<usize>,
)
    requires
        range_len(this_frame) > 0,
        !is_first_page_only(visible),
        !spec_range_is_contiguous(this_frame, visible),
    ensures
        next_this_frame(this_frame, visible) == visible,
        spec_range_union(next_this_frame(this_frame, visible), last_frame) == spec_range_union(
            visible,
            last_frame,
        ),
        range_len(last_frame) == 0 ==> forall|p: int|
            range_has(this_frame, p) ==> !range_has(
                #[trigger] spec_range_union(next_this_frame(this_frame, visible), last_frame),
                p,
            ),
{
}

} // verus!
