//! The mathematical content of a window, and what taking in a batch of items
//! does to it.

use vstd::prelude::*;

verus! {

/// What a window is, seen as a value: the logical index of its first item,
/// the number of items it may keep, and the items it holds in ascending
/// logical order.
pub struct WindowView<T> {
    /// Logical index of `items[0]`. For an empty window, the index that the
    /// next item taken in at the back will have.
    pub start: int,
    /// The most items that are kept once a batch has been taken in.
    pub capacity: nat,
    /// The resident items; `items[i]` stands at logical index `start + i`.
    pub items: Seq<T>,
}

impl<T> WindowView<T> {
    /// The logical index just past the last resident item (`start` itself
    /// when nothing is resident).
    pub open spec fn end(self) -> int {
        self.start + self.items.len()
    }

    /// No more items are resident than the capacity allows.
    pub open spec fn within_capacity(self) -> bool {
        self.items.len() <= self.capacity
    }

    /// How many items have to leave once `added` more have arrived.
    pub open spec fn excess(self, added: nat) -> nat {
        if self.items.len() + added > self.capacity {
            (self.items.len() + added - self.capacity) as nat
        } else {
            0
        }
    }

    /// The window after `batch` has arrived at its back: the batch is
    /// appended and the excess leaves at the front, out of the old items
    /// first and out of the batch itself where those do not suffice. `start`
    /// moves up by the number of items that left.
    pub open spec fn absorb_next(self, batch: Seq<T>) -> Self {
        let evicted = self.excess(batch.len());
        WindowView {
            start: self.start + evicted,
            capacity: self.capacity,
            items: (self.items + batch).skip(evicted as int),
        }
    }

    /// The window after `batch` has arrived at its front: `start` moves down
    /// by the length of the batch, the batch is prepended and the excess
    /// leaves at the back.
    pub open spec fn absorb_previous(self, batch: Seq<T>) -> Self {
        let all = batch + self.items;
        WindowView {
            start: self.start - batch.len(),
            capacity: self.capacity,
            items: if all.len() > self.capacity {
                all.take(self.capacity as int)
            } else {
                all
            },
        }
    }

    /// Every resident item is the one that `at` gives for its logical index.
    pub open spec fn follows(self, at: spec_fn(int) -> T) -> bool {
        forall|i: int| 0 <= i < self.items.len() ==> #[trigger] self.items[i] == at(self.start + i)
    }
}

/// The `len` items that `at` gives for the logical indices from `from` up.
pub open spec fn run<T>(at: spec_fn(int) -> T, from: int, len: nat) -> Seq<T> {
    Seq::new(len, |i: int| at(from + i))
}

/// Whatever batch a window takes in, at either end, it then holds no more
/// items than its capacity allows: as many as it had and received together,
/// or exactly its capacity where that would be too many.
pub proof fn lemma_absorb_within_capacity<T>(window: WindowView<T>, batch: Seq<T>)
    ensures
        window.absorb_next(batch).within_capacity(),
        window.absorb_previous(batch).within_capacity(),
        window.absorb_next(batch).items.len() == window.absorb_previous(batch).items.len(),
        window.absorb_next(batch).items.len() == (if window.items.len() + batch.len()
            > window.capacity {
            window.capacity
        } else {
            window.items.len() + batch.len()
        }),
{
}

/// Taking a batch in at the back moves the end of the window up by the length
/// of the batch, whatever leaves at the front.
pub proof fn lemma_absorb_next_end<T>(window: WindowView<T>, batch: Seq<T>)
    ensures
        window.absorb_next(batch).end() == window.end() + batch.len(),
{
}

/// A window whose items stand at their logical indices still has them there
/// after it has taken in, at its back, the items that follow its last one.
pub proof fn lemma_absorb_next_follows<T>(
    window: WindowView<T>,
    at: spec_fn(int) -> T,
    batch: Seq<T>,
)
    requires
        window.follows(at),
        batch == run(at, window.end(), batch.len()),
    ensures
        window.absorb_next(batch).follows(at),
{
}

/// A window whose items stand at their logical indices still has them there
/// after it has taken in, at its front, the items that precede its first
/// one: what leaves at the back are the highest indices, and `start` needs no
/// correction for them.
pub proof fn lemma_absorb_previous_follows<T>(
    window: WindowView<T>,
    at: spec_fn(int) -> T,
    batch: Seq<T>,
)
    requires
        window.follows(at),
        batch == run(at, window.start - batch.len(), batch.len()),
    ensures
        window.absorb_previous(batch).follows(at),
{
}

/// Taking a batch in at the front keeps the lowest logical indices: what is
/// resident afterwards is the head of the batch followed by the old items,
/// and whatever left did so at the end, so that the window ends no later
/// than the batch and the old items together would.
pub proof fn lemma_absorb_previous_keeps_head<T>(window: WindowView<T>, batch: Seq<T>)
    ensures
        window.absorb_previous(batch).start == window.start - batch.len(),
        window.absorb_previous(batch).items.is_prefix_of(batch + window.items),
        window.absorb_previous(batch).end() <= window.end(),
        batch.len() <= window.capacity ==> batch.is_prefix_of(
            window.absorb_previous(batch).items,
        ),
{
}

/// Taking in two batches one after the other gives the window that taking
/// in both at once gives.
pub proof fn lemma_absorb_next_twice<T>(window: WindowView<T>, first: Seq<T>, second: Seq<T>)
    ensures
        window.absorb_next(first).absorb_next(second) == window.absorb_next(first + second),
{
    let stepwise = window.absorb_next(first).absorb_next(second);
    let at_once = window.absorb_next(first + second);
    assert(stepwise.items =~= at_once.items);
}

/// Growing forward by `a` items and then by `b` more gives the window that
/// growing forward by `a + b` items at once gives, where each request is
/// served in full from the same sequence.
pub proof fn lemma_grow_in_two_steps<T>(
    window: WindowView<T>,
    at: spec_fn(int) -> T,
    a: nat,
    b: nat,
)
    ensures
        ({
            let halfway = window.absorb_next(run(at, window.end(), a));
            halfway.absorb_next(run(at, halfway.end(), b))
        }) == window.absorb_next(run(at, window.end(), a + b)),
{
    let first = run(at, window.end(), a);
    let second = run(at, window.end() + a, b);
    lemma_absorb_next_end(window, first);
    lemma_absorb_next_twice(window, first, second);
    assert(first + second =~= run(at, window.end(), a + b));
}

} // verus!
