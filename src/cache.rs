//! The state shared between the rendering worker and the display layer.

use crate::range::{range_has, range_len};
use crate::settings::{slot_count, DocumentKey, RenderSettings2};
use std::ops::Range;
use vstd::prelude::*;

verus! {

/// The pages the worker keeps for a request: the request, widened by one page
/// below its start.
pub open spec fn wanted_pages(req: Range<usize>) -> Range<usize> {
    (if req.start >= 1 { (req.start - 1) as usize } else { 0usize })..req.end
}

/// Whether the worker keeps page `i` for the request `req`: the page lies in
/// the widened request, and page 0 only while the request starts at page 0 or
/// 1, since the display layer asks for it whatever the scroll position.
pub open spec fn is_wanted(req: Range<usize>, i: int) -> bool {
    &&& range_has(wanted_pages(req), i)
    &&& (i != 0 || req.start <= 1)
}

/// The page the worker renders first: the middle of the wanted range, biased
/// toward its end.
pub open spec fn render_center(req: Range<usize>) -> int {
    let w = wanted_pages(req);
    let back = 1 + range_len(w) / 2;
    if w.end >= back {
        w.end - back
    } else {
        0
    }
}

/// How far page `i` lies from the centre of the request.
pub open spec fn center_distance(req: Range<usize>, i: int) -> int {
    let c = render_center(req);
    if i >= c {
        i - c
    } else {
        c - i
    }
}

/// A page that the worker renders next for a request.
#[derive(Clone, Copy, Debug, PartialEq, Eq, Structural)]
pub struct RenderJob {
    /// Index of the page to rasterize.
    pub index: usize,
    /// The document the page belongs to.
    pub pdf: DocumentKey,
    /// The configuration to rasterize it with.
    pub render_settings: RenderSettings2,
}

/// What the worker does after one look at the shared state.
#[derive(Clone, Copy, Debug, PartialEq, Eq, Structural)]
pub enum WorkerStep {
    /// Rasterize this page without holding the lock, then commit it.
    Render(RenderJob),
    /// Nothing to render: sleep until the request changes or shutdown comes.
    Idle,
    /// Shutdown was requested: stop.
    Exit,
}

/// What the display-side notifier learns from one look at the shared state.
#[derive(Clone, Copy, Debug, PartialEq, Eq, Structural)]
pub enum NotifierPoll {
    /// Shutdown was requested: the notifier stops for good.
    Quit,
    /// Some page became cached or uncached: the display should redraw.
    Changed,
    /// Nothing changed: wait until the worker wakes the notifier.
    Pending,
}

/// What a notifier knew of slot `i`: a slot beyond those it knew of counts as
/// uncached.
pub open spec fn known_state(known: Seq<bool>, i: int) -> bool {
    if i < known.len() {
        known[i]
    } else {
        false
    }
}

/// The record that the worker and the display layer share under one lock.
pub struct PdfPageCacheMutableState<I> {
    /// Cached images of pages; the index of an image is the index of its page.
    pub images: Vec<Option<I>>,
    /// Pages whose rasterization failed; they are not tried again until they
    /// leave the wanted range and come back.
    pub failed_pages: Vec<bool>,
    /// Configuration with which pages are rendered.
    pub render_settings: RenderSettings2,
    /// The document that the worker rasterizes, if any.
    pub pdf: Option<DocumentKey>,
    /// Every page in this range should eventually be cached.
    pub requested_pages: Range<usize>,
    /// The range that the worker has accepted as its current target.
    pub acknowledged_pages: Range<usize>,
    /// Once set, the worker and the notifier stop.
    pub should_quit: bool,
}

impl<I> PdfPageCacheMutableState<I> {
    /// One slot per page of the active document.
    pub open spec fn wf(&self) -> bool {
        &&& self.images.len() == slot_count(self.pdf)
        &&& self.failed_pages.len() == self.images.len()
    }

    /// Every slot is empty and no page is marked failed.
    pub open spec fn all_uncached(&self) -> bool {
        &&& forall|i: int| 0 <= i < self.images.len() ==> (#[trigger] self.images@[i]) is None
        &&& forall|i: int| 0 <= i < self.failed_pages.len() ==> !(#[trigger] self.failed_pages@[i])
    }

    /// A state with no document, unit scale, empty ranges and no shutdown.
    pub fn new() -> (r: Self)
        ensures
            r.wf(),
            r.images@.len() == 0,
            r.pdf is None,
            r.render_settings == RenderSettings2::spec_default(),
            r.requested_pages == (0usize..0usize),
            r.acknowledged_pages == (0usize..0usize),
            !r.should_quit,
    {
        PdfPageCacheMutableState {
            images: Vec::new(),
            failed_pages: Vec::new(),
            render_settings: RenderSettings2::default(),
            pdf: None,
            requested_pages: 0..0,
            acknowledged_pages: 0..0,
            should_quit: false,
        }
    }

    /// Replace the active document and configuration: every slot is emptied,
    /// one is made for each page of `pdf`, and both ranges become empty.
    pub fn set_new_pdf(&mut self, pdf: Option<DocumentKey>, render_settings: RenderSettings2)
        ensures
            final(self).wf(),
            final(self).images.len() == slot_count(pdf),
            final(self).all_uncached(),
            final(self).pdf == pdf,
            final(self).render_settings == render_settings,
            final(self).requested_pages == (0usize..0usize),
            final(self).acknowledged_pages == (0usize..0usize),
            final(self).should_quit == old(self).should_quit,
    {
        self.images.clear();
        self.failed_pages.clear();
        let count: usize = match pdf {
            Some(d) => d.page_count,
            None => 0,
        };
        let mut i: usize = 0;
        while i < count
            invariant
                i <= count,
                count == slot_count(pdf),
                self.images.len() == i,
                self.failed_pages.len() == i,
                forall|j: int| 0 <= j < i ==> (#[trigger] self.images@[j]) is None,
                forall|j: int| 0 <= j < i ==> !(#[trigger] self.failed_pages@[j]),
                self.should_quit == old(self).should_quit,
            decreases count - i,
        {
            self.images.push(None);
            self.failed_pages.push(false);
            i = i + 1;
        }
        self.requested_pages = 0..0;
        self.acknowledged_pages = 0..0;
        self.render_settings = render_settings;
        self.pdf = pdf;
    }

    /// Drop the active document.
    pub fn clear(&mut self)
        ensures
            final(self).wf(),
            final(self).images.len() == 0,
            final(self).pdf is None,
            final(self).render_settings == RenderSettings2::spec_default(),
            final(self).requested_pages == (0usize..0usize),
            final(self).acknowledged_pages == (0usize..0usize),
            final(self).should_quit == old(self).should_quit,
    {
        self.set_new_pdf(None, RenderSettings2::default());
    }

    /// Page `i` is wanted by the current request and not cached yet.
    pub open spec fn is_candidate(&self, i: int) -> bool {
        &&& 0 <= i < self.images.len()
        &&& is_wanted(self.requested_pages, i)
        &&& self.images@[i] is None
        &&& !self.failed_pages@[i]
    }

    /// Page `k` is the candidate closest to the centre of the request; among
    /// equally close candidates, the one with the lowest index.
    pub open spec fn is_next_page(&self, k: int) -> bool {
        &&& self.is_candidate(k)
        &&& forall|j: int|
            #![trigger self.is_candidate(j)]
            self.is_candidate(j) ==> center_distance(self.requested_pages, k) <= center_distance(
                self.requested_pages,
                j,
            )
        &&& forall|j: int|
            #![trigger self.is_candidate(j)]
            0 <= j < k && self.is_candidate(j) ==> center_distance(self.requested_pages, k)
                < center_distance(self.requested_pages, j)
    }

    /// The slots once every page that the request does not want is evicted.
    pub open spec fn evicted_images(&self) -> Seq<Option<I>> {
        Seq::new(
            self.images.len() as nat,
            |i: int|
                if is_wanted(self.requested_pages, i) {
                    self.images@[i]
                } else {
                    None
                },
        )
    }

    /// The failure marks once every page that the request does not want is
    /// evicted: a page that leaves the wanted range is tried again when it
    /// comes back.
    pub open spec fn evicted_failures(&self) -> Seq<bool> {
        Seq::new(
            self.failed_pages.len() as nat,
            |i: int| is_wanted(self.requested_pages, i) && self.failed_pages@[i],
        )
    }

    /// Whether a finished render of `job` is still valid: no shutdown was
    /// requested, and the document, the configuration and the slot are still
    /// those the job was made for.
    pub open spec fn accepts(&self, job: RenderJob) -> bool {
        &&& !self.should_quit
        &&& self.pdf == Some(job.pdf)
        &&& self.render_settings == job.render_settings
        &&& job.index < self.images.len()
    }

    /// Whether a finished render of `job` is still valid.
    pub fn still_accepts(&self, job: RenderJob) -> (r: bool)
        ensures
            r == self.accepts(job),
    {
        let same_pdf = match self.pdf {
            Some(pdf) => pdf == job.pdf,
            None => false,
        };
        !self.should_quit && same_pdf && self.render_settings == job.render_settings && job.index
            < self.images.len()
    }

    /// Store the image rendered for `job`, unless the result is stale; a stale
    /// result is dropped and changes nothing. Returns whether it was stored.
    pub fn commit_render(&mut self, job: RenderJob, image: I) -> (stored: bool)
        requires
            old(self).wf(),
        ensures
            final(self).wf(),
            stored == old(self).accepts(job),
            stored ==> final(self).images@ == old(self).images@.update(job.index as int, Some(image)),
            !stored ==> final(self).images@ == old(self).images@,
            final(self).failed_pages == old(self).failed_pages,
            final(self).pdf == old(self).pdf,
            final(self).render_settings == old(self).render_settings,
            final(self).requested_pages == old(self).requested_pages,
            final(self).acknowledged_pages == old(self).acknowledged_pages,
            final(self).should_quit == old(self).should_quit,
    {
        if self.still_accepts(job) {
            self.images.set(job.index, Some(image));
            true
        } else {
            false
        }
    }

    /// Mark the page of `job` as failed, unless the job is stale; a failed
    /// page stays uncached and is not picked again while it stays wanted.
    /// Returns whether the mark was set.
    pub fn record_failure(&mut self, job: RenderJob) -> (marked: bool)
        requires
            old(self).wf(),
        ensures
            final(self).wf(),
            marked == old(self).accepts(job),
            marked ==> final(self).failed_pages@ == old(self).failed_pages@.update(
                job.index as int,
                true,
            ),
            !marked ==> final(self).failed_pages@ == old(self).failed_pages@,
            final(self).images == old(self).images,
            final(self).pdf == old(self).pdf,
            final(self).render_settings == old(self).render_settings,
            final(self).requested_pages == old(self).requested_pages,
            final(self).acknowledged_pages == old(self).acknowledged_pages,
            final(self).should_quit == old(self).should_quit,
    {
        if self.still_accepts(job) {
            self.failed_pages.set(job.index, true);
            true
        } else {
            false
        }
    }

    /// The request differs from what the worker last acknowledged.
    pub fn has_unacknowledged_request(&self) -> (r: bool)
        ensures
            r == (self.requested_pages != self.acknowledged_pages),
    {
        self.requested_pages.start != self.acknowledged_pages.start
            || self.requested_pages.end != self.acknowledged_pages.end
    }

    /// The idle worker keeps sleeping: no shutdown, and no request that it
    /// has not acknowledged.
    pub fn worker_should_sleep(&self) -> (r: bool)
        ensures
            r == (!self.should_quit && self.requested_pages == self.acknowledged_pages),
    {
        !self.should_quit && !self.has_unacknowledged_request()
    }

    /// Ask the worker and the notifier to stop; the flag is never reset.
    pub fn request_quit(&mut self)
        ensures
            final(self).should_quit,
            final(self).images == old(self).images,
            final(self).failed_pages == old(self).failed_pages,
            final(self).pdf == old(self).pdf,
            final(self).render_settings == old(self).render_settings,
            final(self).requested_pages == old(self).requested_pages,
            final(self).acknowledged_pages == old(self).acknowledged_pages,
    {
        self.should_quit = true;
    }

    /// One look of the notifier at the shared state.
    ///
    /// `known` holds, per slot, whether the notifier last saw it cached; it is
    /// brought up to date here. The result is `Quit` on shutdown, else
    /// `Changed` if some slot's state differs from what `known` held.
    pub fn poll_changes(&self, known: &mut Vec<bool>) -> (r: NotifierPoll)
        ensures
            final(known)@.len() == self.images.len(),
            forall|i: int|
                0 <= i < self.images.len() ==> #[trigger] final(known)@[i] == (
                self.images@[i] is Some),
            r == (if self.should_quit {
                NotifierPoll::Quit
            } else if exists|i: int|
                0 <= i < self.images.len() && #[trigger] known_state(old(known)@, i) != (
                self.images@[i] is Some) {
                NotifierPoll::Changed
            } else {
                NotifierPoll::Pending
            }),
    {
        let n = self.images.len();
        let ghost before = known@;
        known.truncate(n);
        while known.len() < n
            invariant
                known.len() <= n,
                known.len() == n || before.len() <= known.len(),
                n == self.images.len(),
                forall|j: int|
                    0 <= j < known.len() ==> #[trigger] known@[j] == known_state(before, j),
            decreases n - known.len(),
        {
            known.push(false);
        }
        let mut changed = false;
        let mut i: usize = 0;
        while i < n
            invariant
                i <= n,
                n == self.images.len(),
                known.len() == n,
                forall|j: int| 0 <= j < i ==> #[trigger] known@[j] == (self.images@[j] is Some),
                forall|j: int| i <= j < n ==> #[trigger] known@[j] == known_state(before, j),
                changed == exists|j: int|
                    0 <= j < i && #[trigger] known_state(before, j) != (self.images@[j] is Some),
            decreases n - i,
        {
            let cached = self.images[i].is_some();
            if known[i] != cached {
                known.set(i, cached);
                changed = true;
            }
            i = i + 1;
        }
        if self.should_quit {
            NotifierPoll::Quit
        } else if changed {
            NotifierPoll::Changed
        } else {
            NotifierPoll::Pending
        }
    }

    /// One look of the worker at the shared state.
    ///
    /// Unless shutdown was requested, this evicts every page that the request
    /// does not want, records the request as acknowledged, and picks the
    /// uncached wanted page closest to the centre of the request.
    pub fn worker_step(&mut self) -> (step: WorkerStep)
        requires
            old(self).wf(),
        ensures
            final(self).wf(),
            old(self).should_quit ==> step is Exit && *final(self) == *old(self),
            !old(self).should_quit ==> {
                &&& final(self).images@ == old(self).evicted_images()
                &&& final(self).failed_pages@ == old(self).evicted_failures()
                &&& final(self).acknowledged_pages == old(self).requested_pages
                &&& final(self).requested_pages == old(self).requested_pages
                &&& final(self).pdf == old(self).pdf
                &&& final(self).render_settings == old(self).render_settings
                &&& final(self).should_quit == old(self).should_quit
                &&& match step {
                    WorkerStep::Render(job) => {
                        &&& old(self).is_next_page(job.index as int)
                        &&& old(self).pdf == Some(job.pdf)
                        &&& job.render_settings == old(self).render_settings
                    },
                    WorkerStep::Idle => forall|i: int|
                        #![trigger old(self).is_candidate(i)]
                        !old(self).is_candidate(i),
                    WorkerStep::Exit => false,
                }
            },
    {
        if self.should_quit {
            return WorkerStep::Exit;
        }
        let req_start = self.requested_pages.start;
        let req_end = self.requested_pages.end;
        let wanted_start: usize = if req_start >= 1 { req_start - 1 } else { 0 };
        let wanted_len: usize = if wanted_start < req_end { req_end - wanted_start } else { 0 };
        let back: usize = 1 + wanted_len / 2;
        let center: usize = if req_end >= back { req_end - back } else { 0 };
        let cache_first_page = req_start <= 1 && req_end >= 1;
        proof {
            assert(center == render_center(old(self).requested_pages));
        }

        let n = self.images.len();
        let mut best: Option<usize> = None;
        let mut best_distance: usize = 0;
        let mut i: usize = 0;
        while i < n
            invariant
                n == old(self).images.len(),
                self.images.len() == n,
                self.failed_pages.len() == n,
                old(self).failed_pages.len() == n,
                i <= n,
                self.requested_pages == old(self).requested_pages,
                self.acknowledged_pages == old(self).acknowledged_pages,
                self.pdf == old(self).pdf,
                self.render_settings == old(self).render_settings,
                self.should_quit == old(self).should_quit,
                req_start == old(self).requested_pages.start,
                req_end == old(self).requested_pages.end,
                wanted_start == wanted_pages(old(self).requested_pages).start,
                cache_first_page == (req_start <= 1 && req_end >= 1),
                center == render_center(old(self).requested_pages),
                forall|j: int|
                    0 <= j < i ==> #[trigger] self.images@[j] == old(self).evicted_images()[j],
                forall|j: int| i <= j < n ==> #[trigger] self.images@[j] == old(self).images@[j],
                forall|j: int|
                    0 <= j < i ==> #[trigger] self.failed_pages@[j]
                        == old(self).evicted_failures()[j],
                forall|j: int|
                    i <= j < n ==> #[trigger] self.failed_pages@[j] == old(self).failed_pages@[j],
                match best {
                    Some(k) => {
                        &&& k < i
                        &&& old(self).is_candidate(k as int)
                        &&& best_distance == center_distance(old(self).requested_pages, k as int)
                        &&& forall|j: int|
                            #![trigger old(self).is_candidate(j)]
                            0 <= j < i && old(self).is_candidate(j) ==> best_distance
                                <= center_distance(old(self).requested_pages, j)
                        &&& forall|j: int|
                            #![trigger old(self).is_candidate(j)]
                            0 <= j < k && old(self).is_candidate(j) ==> best_distance
                                < center_distance(old(self).requested_pages, j)
                    },
                    None => forall|j: int|
                        #![trigger old(self).is_candidate(j)]
                        0 <= j < i ==> !old(self).is_candidate(j),
                },
            decreases n - i,
        {
            let should_cache = if i == 0 {
                cache_first_page
            } else {
                wanted_start <= i && i < req_end
            };
            if !should_cache {
                self.images.set(i, None);
                self.failed_pages.set(i, false);
            } else if self.images[i].is_none() && !self.failed_pages[i] {
                let distance: usize = if i >= center { i - center } else { center - i };
                match best {
                    None => {
                        best = Some(i);
                        best_distance = distance;
                    },
                    Some(_) => {
                        if distance < best_distance {
                            best = Some(i);
                            best_distance = distance;
                        }
                    },
                }
            }
            i = i + 1;
        }
        proof {
            assert(self.images@ =~= old(self).evicted_images());
            assert(self.failed_pages@ =~= old(self).evicted_failures());
        }
        self.acknowledged_pages = req_start..req_end;
        match best {
            Some(index) => match self.pdf {
                Some(pdf) => WorkerStep::Render(
                    RenderJob { index, pdf, render_settings: self.render_settings },
                ),
                None => WorkerStep::Idle,
            },
            None => WorkerStep::Idle,
        }
    }
}

/// The worker never picks a page outside the request widened by one page
/// below its start, and picks page 0 only while the request starts at page 0
/// or 1.
pub proof fn lemma_next_page_in_request<I>(state: PdfPageCacheMutableState<I>, k: int)
    requires
        state.is_next_page(k),
    ensures
        state.requested_pages.start - 1 <= k < state.requested_pages.end,
        k == 0 ==> state.requested_pages.start <= 1,
{
}

} // verus!
