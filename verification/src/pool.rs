//! A store of scratch images keyed by their exact dimensions. Entries are added on first
//! use and never taken away, so a shape that was served once is served from the store after.
use vstd::prelude::*;

verus! {

/// Scratch items by `(width, height)`. Each shape has at most one slot; slots keep their place.
pub struct ScratchPool<T> {
    keys: Vec<(u32, u32)>,
    items: Vec<T>,
}

/// The shapes after `shape` was asked for: as before where it had a slot, else with a new
/// last slot for it.
pub open spec fn with_shape(shapes: Seq<(u32, u32)>, shape: (u32, u32)) -> Seq<(u32, u32)> {
    if shapes.contains(shape) {
        shapes
    } else {
        shapes.push(shape)
    }
}

impl<T> ScratchPool<T> {
    /// The shapes that have a slot, in the order in which they got one.
    pub closed spec fn shapes(&self) -> Seq<(u32, u32)> {
        self.keys@
    }

    /// What each slot holds, slot by slot.
    pub closed spec fn items(&self) -> Seq<T> {
        self.items@
    }

    /// One item per shape, and no shape twice.
    pub open spec fn wf(&self) -> bool {
        &&& self.shapes().len() == self.items().len()
        &&& self.shapes().no_duplicates()
    }

    /// Whether the shape has a slot.
    pub open spec fn has(&self, width: u32, height: u32) -> bool {
        self.shapes().contains((width, height))
    }

    /// The store as a mapping from shape to item.
    pub open spec fn mapping(&self) -> Map<(u32, u32), T> {
        Map::new(
            |k: (u32, u32)| self.shapes().contains(k),
            |k: (u32, u32)| self.items()[self.shapes().index_of(k)],
        )
    }

    /// Whether every slot of `earlier` is still there, at the same place and for the same shape.
    pub open spec fn extends(&self, earlier: &ScratchPool<T>) -> bool {
        &&& earlier.shapes().len() <= self.shapes().len()
        &&& forall|i: int|
            0 <= i < earlier.shapes().len() ==> self.shapes()[i] == earlier.shapes()[i]
    }

    /// The store without any slot.
    pub fn new() -> (pool: Self)
        ensures
            pool.wf(),
            pool.shapes().len() == 0,
    {
        ScratchPool { keys: Vec::new(), items: Vec::new() }
    }

    /// Number of slots.
    pub fn len(&self) -> (n: usize)
        ensures
            n == self.shapes().len(),
    {
        self.keys.len()
    }

    /// The slot of a shape, if it has one.
    pub fn find(&self, width: u32, height: u32) -> (slot: Option<usize>)
        requires
            self.wf(),
        ensures
            slot is Some <==> self.has(width, height),
            slot matches Some(i) ==> {
                &&& i < self.shapes().len()
                &&& self.shapes()[i as int] == (width, height)
                &&& self.items()[i as int] == self.mapping()[(width, height)]
            },
    {
        let mut i: usize = 0;
        while i < self.keys.len()
            invariant
                self.wf(),
                i <= self.keys@.len(),
                forall|j: int| 0 <= j < i ==> self.keys@[j] != (width, height),
            decreases self.keys@.len() - i,
        {
            let key = self.keys[i];
            if key.0 == width && key.1 == height {
                assert(self.shapes()[i as int] == (width, height));
                assert(self.shapes().index_of((width, height)) == i);
                return Some(i);
            }
            i += 1;
        }
        None
    }

    /// The item in a slot.
    pub fn get(&self, slot: usize) -> (item: &T)
        requires
            self.wf(),
            slot < self.shapes().len(),
        ensures
            *item == self.items()[slot as int],
    {
        &self.items[slot]
    }

    /// Gives a shape that has no slot yet a new last slot holding `item`.
    pub fn insert(&mut self, width: u32, height: u32, item: T) -> (slot: usize)
        requires
            old(self).wf(),
            !old(self).has(width, height),
        ensures
            final(self).wf(),
            slot == old(self).shapes().len(),
            final(self).shapes() == old(self).shapes().push((width, height)),
            final(self).items() == old(self).items().push(item),
            final(self).extends(old(self)),
            final(self).mapping() == old(self).mapping().insert((width, height), item),
    {
        let slot = self.keys.len();
        self.keys.push((width, height));
        self.items.push(item);
        proof {
            let before = *old(self);
            let after = *self;
            assert forall|k: (u32, u32)| #[trigger] after.shapes().contains(k) implies (
            before.shapes().contains(k) || k == (width, height)) by {
                let i = choose|i: int| 0 <= i < after.shapes().len() && after.shapes()[i] == k;
                if i < before.shapes().len() {
                    assert(before.shapes()[i] == k);
                }
            }
            assert forall|k: (u32, u32)| before.shapes().contains(k) implies (
            #[trigger] after.shapes().contains(k) && after.shapes().index_of(k)
                == before.shapes().index_of(k)) by {
                let i = before.shapes().index_of(k);
                assert(after.shapes()[i] == k);
            }
            assert(after.shapes()[slot as int] == (width, height));
            assert(after.shapes().index_of((width, height)) == slot);
            assert(after.mapping() =~= before.mapping().insert((width, height), item));
        }
        slot
    }

    /// The slot of a shape. A shape that has none yet gets a new last slot, for which
    /// `make` makes the item; `make` is not called for a shape that has a slot.
    pub fn get_or_insert_with<F: FnOnce() -> T>(&mut self, width: u32, height: u32, make: F) -> (slot:
        usize)
        requires
            old(self).wf(),
            make.requires(()),
        ensures
            final(self).wf(),
            final(self).shapes() == with_shape(old(self).shapes(), (width, height)),
            final(self).extends(old(self)),
            slot < final(self).shapes().len(),
            final(self).shapes()[slot as int] == (width, height),
            old(self).has(width, height) ==> final(self).items() == old(self).items(),
            !old(self).has(width, height) ==> {
                &&& slot == old(self).shapes().len()
                &&& make.ensures((), final(self).items()[slot as int])
                &&& final(self).items() == old(self).items().push(final(self).items()[slot as int])
            },
    {
        match self.find(width, height) {
            Some(slot) => slot,
            None => {
                let item = make();
                self.insert(width, height, item)
            },
        }
    }

    /// Puts `item` into a slot and hands back what the slot held. The slot keeps its shape.
    pub fn replace(&mut self, slot: usize, item: T) -> (previous: T)
        requires
            old(self).wf(),
            slot < old(self).shapes().len(),
        ensures
            final(self).wf(),
            previous == old(self).items()[slot as int],
            final(self).shapes() == old(self).shapes(),
            final(self).items() == old(self).items().update(slot as int, item),
            final(self).extends(old(self)),
            final(self).mapping() == old(self).mapping().insert(
                old(self).shapes()[slot as int],
                item,
            ),
    {
        self.items.push(item);
        let previous = self.items.swap_remove(slot);
        assert(self.items@ =~= old(self).items@.update(slot as int, item));
        proof {
            let key = self.shapes()[slot as int];
            assert(self.shapes().index_of(key) == slot);
            assert(self.mapping() =~= old(self).mapping().insert(key, item));
        }
        previous
    }
}

} // verus!
