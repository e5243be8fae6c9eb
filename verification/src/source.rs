//! The capability through which a window obtains its items.

use vstd::prelude::*;
use crate::view::run;

verus! {

/// The most items that a request for `n` may bring: `n`, or none when `n` is
/// not positive.
pub open spec fn at_most(n: isize) -> nat {
    if n > 0 {
        n as nat
    } else {
        0
    }
}

/// A source of items, each of which stands at a logical index of its own.
///
/// A window trusts its source: what the methods below promise is what every
/// proof about a fetch rests on, and it is up to each implementation to keep
/// those promises.
pub trait DataLoader<T> {
    /// The sequence that the source serves: the item at each logical index.
    ///
    /// Left open here, so that an implementation outside verified code need
    /// not mention it; a verified implementation says what it serves.
    closed spec fn sequence(&self) -> spec_fn(int) -> T {
        arbitrary()
    }

    /// Up to `n` items at the logical indices `from`, `from + 1`, ..., in
    /// that order. Fewer than `n` means that the source has no more.
    fn get_next_n(&self, n: isize, from: isize) -> (items: Vec<T>)
        ensures
            items@.len() <= at_most(n),
            items@ == run(self.sequence(), from as int, items@.len()),
    ;

    /// Up to `n` items at the logical indices that end just before `from`,
    /// in ascending order: `k` items cover `from - k` up to `from - 1`.
    fn get_previous_n(&self, n: isize, from: isize) -> (items: Vec<T>)
        ensures
            items@.len() <= at_most(n),
            items@ == run(self.sequence(), from - items@.len(), items@.len()),
    ;
}

} // verus!
