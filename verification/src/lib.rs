mod allocator;
mod boxed;
mod layout;

pub use crate::allocator::{Alloc, Global, System};
pub use crate::allocator::{lemma_alloc_dealloc_restores, lemma_release_drops_one, lemma_release_is_final};
pub use crate::boxed::{HeapBox, RealBox};
pub use crate::boxed::{lemma_box_cycle_restores, lemma_handoff_releases_once};
pub use crate::layout::Layout;
