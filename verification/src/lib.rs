//! A bounded window that scrolls in both directions over an unbounded,
//! externally supplied sequence of items.
//!
//! A [`DynamicData`] holds a contiguous run of the items of a [`DataLoader`],
//! never more than its capacity after a fetch. Fetching forward evicts the
//! lowest logical indices, fetching backward the highest.
//!
//! [`WindowView`] is the mathematical content of a window; every contract of
//! the window is stated over it.

pub mod source;
pub mod view;
pub mod window;

pub use source::DataLoader;
pub use view::WindowView;
pub use window::DynamicData;
