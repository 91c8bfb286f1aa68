//! A windowed cache of rasterized document pages.
//!
//! The library holds the decisions of the cache: the algebra of page ranges,
//! the shared state that a rendering worker and a display layer coordinate
//! through, the bookkeeping of visible ranges from frame to frame, and the
//! records of a bulk-free allocation arena. Threads, locks and the actual
//! rasterizer are run around it by the caller.

mod allocator;
mod cache;
mod command;
mod frames;
mod pixels;
mod range;
mod settings;

pub use allocator::{
    AllocRecord, ArenaFull, TrackingAlloc, DEFAULT_CAPACITY,
};
pub use cache::{NotifierPoll, PdfPageCacheMutableState, RenderJob, WorkerStep};
pub use command::PdfCommand;
pub use frames::{FrameImages, PdfPageCache};
pub use pixels::swap_red_blue;
pub use range::{range_intersection, range_is_contiguous, range_union};
pub use settings::{DocumentKey, RenderSettings2, UNIT_SCALE_BITS};
