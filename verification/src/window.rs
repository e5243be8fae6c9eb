//! The window itself.

use vstd::prelude::*;
use crate::source::{at_most, DataLoader};
use crate::view::{lemma_absorb_next_follows, lemma_absorb_previous_follows, WindowView};

verus! {

/// A bounded window over the items of a source.
pub struct DynamicData<T, D> where D: DataLoader<T> {
    current_start: isize,
    capacity: usize,
    data_source: D,
    data: Vec<T>,
}

impl<T, D: DataLoader<T>> View for DynamicData<T, D> {
    type V = WindowView<T>;

    closed spec fn view(&self) -> WindowView<T> {
        WindowView {
            start: self.current_start as int,
            capacity: self.capacity as nat,
            items: self.data@,
        }
    }
}

impl<T, D: DataLoader<T>> DynamicData<T, D> {
    /// The source that the window draws from.
    pub closed spec fn source(&self) -> D {
        self.data_source
    }

    /// An empty window on `data_source` that starts at logical index 0 and
    /// keeps up to 40 items.
    pub fn new(data_source: D) -> (window: Self)
        ensures
            window@ == (WindowView::<T> { start: 0, capacity: 40, items: Seq::empty() }),
            window.source() == data_source,
            window@.within_capacity(),
            window.in_order(),
    {
        DynamicData { current_start: 0, capacity: 40, data_source, data: Vec::new() }
    }

    /// The same window with its `start` set to `s`. Meant for a window that
    /// holds nothing yet: the items of one that does are not moved.
    pub fn current_start(self, s: isize) -> (window: Self)
        ensures
            window@ == (WindowView { start: s as int, ..self@ }),
            window.source() == self.source(),
    {
        let mut window = self;
        window.current_start = s;
        window
    }

    /// The same window with its capacity set to `k`. Meant for a window that
    /// holds nothing yet: one that holds more than `k` items keeps them until
    /// it next takes a batch in.
    pub fn capacity(self, k: usize) -> (window: Self)
        ensures
            window@ == (WindowView { capacity: k as nat, ..self@ }),
            window.source() == self.source(),
    {
        let mut window = self;
        window.capacity = k;
        window
    }

    /// The resident items, in ascending logical order.
    pub fn data(&self) -> (items: &Vec<T>)
        ensures
            items@ == self@.items,
    {
        &self.data
    }

    /// The logical index of the first resident item.
    pub fn start(&self) -> (s: isize)
        ensures
            s == self@.start,
    {
        self.current_start
    }

    /// Every resident item is the one that the source holds at its logical
    /// index.
    pub open spec fn in_order(&self) -> bool {
        self@.follows(self.source().sequence())
    }

    /// Asks the source for `n` items that follow the last resident one and
    /// takes in, at the back, what it returns.
    ///
    /// The source is asked once, with `n` and the index just past the last
    /// resident item, and the window afterwards is the old one with a batch
    /// absorbed that this request can bring. How many items came is the
    /// source's to decide; when `n` is not positive none can come. Whatever
    /// came, no more items are resident than the capacity allows, and a
    /// window that was in order still is.
    ///
    /// The index asked from, and `start` after the largest eviction that `n`
    /// items can cause, have to fit the index type.
    pub fn fetch_next(&mut self, n: isize)
        requires
            old(self)@.end() <= isize::MAX,
            old(self)@.start + old(self)@.excess(at_most(n)) <= isize::MAX,
        ensures
            final(self).source() == old(self).source(),
            exists|batch: Vec<T>|
                #[trigger] call_ensures(
                    D::get_next_n,
                    (&old(self).source(), n, old(self)@.end() as isize),
                    batch,
                ) && final(self)@ == old(self)@.absorb_next(batch@),
            at_most(n) == 0 ==> final(self)@ == old(self)@.absorb_next(Seq::empty()),
            final(self)@.within_capacity(),
            old(self).in_order() ==> final(self).in_order(),
    {
        let from: isize = (self.current_start as i128 + self.data.len() as i128) as isize;
        let batch = self.data_source.get_next_n(n, from);
        proof {
            if self.in_order() {
                lemma_absorb_next_follows(self@, self.source().sequence(), batch@);
            }
        }
        self.absorb_next(batch);
    }

    /// Asks the source for `n` items that precede the first resident one and
    /// takes in, at the front, what it returns.
    ///
    /// The source is asked once, with `n` and `start`, and the window
    /// afterwards is the old one with a batch absorbed that this request can
    /// bring. How many items came is the source's to decide; when `n` is not
    /// positive none can come. Whatever came, no more items are resident than
    /// the capacity allows, and a window that was in order still is.
    ///
    /// `start` after `n` items have arrived has to fit the index type.
    pub fn fetch_previous(&mut self, n: isize)
        requires
            old(self)@.start - at_most(n) >= isize::MIN,
        ensures
            final(self).source() == old(self).source(),
            exists|batch: Vec<T>|
                #[trigger] call_ensures(
                    D::get_previous_n,
                    (&old(self).source(), n, old(self)@.start as isize),
                    batch,
                ) && final(self)@ == old(self)@.absorb_previous(batch@),
            at_most(n) == 0 ==> final(self)@ == old(self)@.absorb_previous(Seq::empty()),
            final(self)@.within_capacity(),
            old(self).in_order() ==> final(self).in_order(),
    {
        let from: isize = self.current_start;
        let batch = self.data_source.get_previous_n(n, from);
        proof {
            if self.in_order() {
                lemma_absorb_previous_follows(self@, self.source().sequence(), batch@);
            }
        }
        self.absorb_previous(batch);
    }

    /// Takes `batch` in at the back of the window, as the items that follow
    /// the last resident one, and lets the excess leave at the front.
    ///
    /// The new `start` has to fit the index type.
    pub fn absorb_next(&mut self, batch: Vec<T>)
        requires
            old(self)@.start + old(self)@.excess(batch@.len()) <= isize::MAX,
        ensures
            final(self)@ == old(self)@.absorb_next(batch@),
            final(self).source() == old(self).source(),
            final(self)@.within_capacity(),
    {
        let ghost expected = self@.absorb_next(batch@);
        let mut batch = batch;
        self.data.append(&mut batch);
        let total: usize = self.data.len();
        if total > self.capacity {
            let overflow: usize = total - self.capacity;
            let kept = self.data.split_off(overflow);
            self.data = kept;
            self.current_start = (self.current_start as i128 + overflow as i128) as isize;
        }
        assert(self@.items =~= expected.items);
    }

    /// Takes `batch` in at the front of the window, as the items that
    /// precede the first resident one, and lets the excess leave at the back.
    ///
    /// The new `start` has to fit the index type.
    pub fn absorb_previous(&mut self, batch: Vec<T>)
        requires
            old(self)@.start - batch@.len() >= isize::MIN,
        ensures
            final(self)@ == old(self)@.absorb_previous(batch@),
            final(self).source() == old(self).source(),
            final(self)@.within_capacity(),
    {
        let ghost expected = self@.absorb_previous(batch@);
        let mut items = batch;
        let count: usize = items.len();
        items.append(&mut self.data);
        items.truncate(self.capacity);
        self.data = items;
        self.current_start = (self.current_start as i128 - count as i128) as isize;
        assert(self@.items =~= expected.items);
    }
}

} // verus!
