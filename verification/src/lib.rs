//! Uniform capability traits over the length and capacity operations that most
//! collections offer.
//!
//! Generic code can query emptiness, length and capacity, clear or truncate a
//! collection, and split sequences and slices, without knowing the concrete
//! collection type.  Each capability is a trait whose methods carry full
//! functional contracts, and each supported standard collection is bridged to
//! the capabilities its native operations already satisfy.
//!
//! The `len` module provides `Empty`, `Len`, `Clear` and `LenMut`; the
//! `capacity` module provides `Capacity`, `WithCapacity` and `CapacityMut`;
//! the `index` module provides `IndexRange`, `IndexRangeMut`, `SplitAt` and
//! `SplitAtMut`.

pub mod capacity;
pub mod index;
pub mod len;

mod impls;

pub use capacity::Capacity;
pub use capacity::CapacityMut;
pub use capacity::WithCapacity;
pub use capacity::reserve_exact_fallback;
pub use capacity::shrink_to_fit_fallback;
pub use index::IndexRange;
pub use index::IndexRangeMut;
pub use index::Sealed;
pub use index::SplitAt;
pub use index::SplitAtMut;
pub use len::Clear;
pub use len::Empty;
pub use len::Len;
pub use len::LenMut;
