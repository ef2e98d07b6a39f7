//! A table of handlers that run on every IRQ, with stable slot indices that
//! are reused after removal.
use vstd::prelude::*;

verus! {

/// What a registry holds: its slots, and the stack of free slot indices.
pub struct RegistryView<H> {
    pub slots: Seq<Option<H>>,
    pub free: Seq<usize>,
}

/// The index that the next registration gets: the most recently freed slot,
/// or a new slot at the end.
pub open spec fn next_index<H>(v: RegistryView<H>) -> usize {
    if v.free.len() > 0 {
        v.free.last()
    } else {
        v.slots.len() as usize
    }
}

/// The registry after `h` was registered.
pub open spec fn after_register<H>(v: RegistryView<H>, h: H) -> RegistryView<H> {
    if v.free.len() > 0 {
        RegistryView { slots: v.slots.update(v.free.last() as int, Some(h)), free: v.free.drop_last() }
    } else {
        RegistryView { slots: v.slots.push(Some(h)), free: v.free }
    }
}

/// The registry after the handler in slot `index` was removed.
pub open spec fn after_remove<H>(v: RegistryView<H>, index: usize) -> RegistryView<H> {
    RegistryView { slots: v.slots.update(index as int, None), free: v.free.push(index) }
}

/// Whether the IRQ path invokes the handler in slot `index`.
pub open spec fn is_invoked<H>(v: RegistryView<H>, index: int) -> bool {
    0 <= index < v.slots.len() && v.slots[index] is Some
}

/// Free indices are distinct, in range, and name empty slots, so a reused
/// slot never holds a handler that is still registered.
pub open spec fn registry_wf<H>(v: RegistryView<H>) -> bool {
    &&& forall|k: int| 0 <= k < v.free.len() ==> (#[trigger] v.free[k]) < v.slots.len()
    &&& forall|k: int| 0 <= k < v.free.len() ==> v.slots[(#[trigger] v.free[k]) as int] is None
    &&& forall|a: int, b: int| 0 <= a < b < v.free.len() ==> (#[trigger] v.free[a]) != (#[trigger] v.free[b])
}

pub struct HandlerRegistry<H> {
    handlers: Vec<Option<H>>,
    unused: Vec<usize>,
}

impl<H> View for HandlerRegistry<H> {
    type V = RegistryView<H>;

    closed spec fn view(&self) -> RegistryView<H> {
        RegistryView { slots: self.handlers@, free: self.unused@ }
    }
}

impl<H> HandlerRegistry<H> {
    pub open spec fn wf(&self) -> bool {
        registry_wf(self@)
    }

    /// An empty registry.
    pub fn new() -> (r: Self)
        ensures
            r.wf(),
            r@.slots.len() == 0,
            r@.free.len() == 0,
    {
        HandlerRegistry { handlers: Vec::new(), unused: Vec::new() }
    }

    /// Adds `handler`, reusing the most recently freed slot if there is one,
    /// else appending a slot. Returns the slot's index, which stays valid
    /// until the handler is removed.
    pub fn register_interrupt_handler(&mut self, handler: H) -> (index: usize)
        requires
            old(self).wf(),
            old(self)@.free.len() > 0 || old(self)@.slots.len() < usize::MAX,
        ensures
            final(self).wf(),
            index == next_index(old(self)@),
            final(self)@ == after_register(old(self)@, handler),
    {
        match self.unused.pop() {
            Some(index) => {
                self.handlers.set(index, Some(handler));
                index
            },
            None => {
                let index = self.handlers.len();
                self.handlers.push(Some(handler));
                index
            },
        }
    }

    /// Removes the handler in slot `index` and frees the slot for reuse.
    pub fn remove_interrupt_handler(&mut self, index: usize)
        requires
            old(self).wf(),
            is_invoked(old(self)@, index as int),
        ensures
            final(self).wf(),
            final(self)@ == after_remove(old(self)@, index),
    {
        self.handlers.set(index, None);
        self.unused.push(index);
    }

    /// The number of slots, free or not.
    pub fn slot_count(&self) -> (r: usize)
        ensures
            r == self@.slots.len(),
    {
        self.handlers.len()
    }

    /// The handler in slot `index`, if the slot holds one.
    pub fn handler(&self, index: usize) -> (r: Option<&H>)
        ensures
            r is Some <==> is_invoked(self@, index as int),
            r is Some ==> self@.slots[index as int] == Some(*r.unwrap()),
    {
        if index < self.handlers.len() {
            match &self.handlers[index] {
                Some(h) => Some(h),
                None => None,
            }
        } else {
            None
        }
    }

    /// The indices of the slots that hold a handler, in increasing order: the
    /// order in which the IRQ path invokes them.
    pub fn dispatch_order(&self) -> (r: Vec<usize>)
        ensures
            forall|a: int, b: int| 0 <= a < b < r@.len() ==> r@[a] < r@[b],
            forall|k: int| 0 <= k < r@.len() ==> is_invoked(self@, (#[trigger] r@[k]) as int),
            forall|i: int| is_invoked(self@, i) ==> r@.contains(i as usize),
    {
        let mut r: Vec<usize> = Vec::new();
        let mut i: usize = 0;
        while i < self.handlers.len()
            invariant
                i <= self.handlers@.len(),
                forall|a: int, b: int| 0 <= a < b < r@.len() ==> r@[a] < r@[b],
                forall|k: int| 0 <= k < r@.len() ==> (#[trigger] r@[k]) < i,
                forall|k: int| 0 <= k < r@.len() ==> is_invoked(self@, (#[trigger] r@[k]) as int),
                forall|j: int| 0 <= j < i && is_invoked(self@, j) ==> r@.contains(j as usize),
            decreases self.handlers@.len() - i,
        {
            let ghost r0 = r@;
            if self.handlers[i].is_some() {
                r.push(i);
                assert(r@[r@.len() - 1] == i);
                assert forall|j: int| 0 <= j < i && is_invoked(self@, j) implies r@.contains(
                    j as usize,
                ) by {
                    let k = choose|k: int| 0 <= k < r0.len() && r0[k] == j as usize;
                    assert(r@[k] == j as usize);
                }
            }
            i = i + 1;
        }
        r
    }
}

impl<H: Fn(u32) -> bool> HandlerRegistry<H> {
    /// The IRQ path's handler step: invokes the handlers with the corrected
    /// program counter `pc`, in slot order, until one claims the interrupt.
    /// Returns whether one did; every handler before the one that claimed it
    /// declined it.
    pub fn run_handlers(&self, pc: u32) -> (claimed: bool)
        requires
            forall|i: int| #![trigger self@.slots[i]]
                is_invoked(self@, i) ==> call_requires(self@.slots[i].unwrap(), (pc,)),
        ensures
            claimed ==> exists|i: int|
                is_invoked(self@, i) && call_ensures(#[trigger] self@.slots[i].unwrap(), (pc,), true)
                    && forall|j: int|
                    0 <= j < i && is_invoked(self@, j) ==> call_ensures(
                        #[trigger] self@.slots[j].unwrap(),
                        (pc,),
                        false,
                    ),
            !claimed ==> forall|i: int|
                is_invoked(self@, i) ==> call_ensures(#[trigger] self@.slots[i].unwrap(), (pc,), false),
    {
        let mut i: usize = 0;
        while i < self.handlers.len()
            invariant
                i <= self.handlers@.len(),
                forall|j: int| #![trigger self@.slots[j]]
                    is_invoked(self@, j) ==> call_requires(self@.slots[j].unwrap(), (pc,)),
                forall|j: int|
                    0 <= j < i && is_invoked(self@, j) ==> call_ensures(#[trigger] self@.slots[j].unwrap(), (pc,), false),
            decreases self.handlers@.len() - i,
        {
            match &self.handlers[i] {
                Some(h) => {
                    assert(is_invoked(self@, i as int));
                    let r = h(pc);
                    if r {
                        return true;
                    }
                },
                None => {},
            }
            i = i + 1;
        }
        false
    }
}

/// A slot freed by `remove` is the one the next `register` takes, and from the
/// moment it is removed until it is taken again its old handler is never
/// invoked.
pub proof fn lemma_register_remove_register<H>(v: RegistryView<H>, h1: H, h2: H)
    requires
        registry_wf(v),
        v.free.len() > 0 || v.slots.len() < usize::MAX,
    ensures
        ({
            let i = next_index(v);
            let v1 = after_register(v, h1);
            let v2 = after_remove(v1, i);
            &&& is_invoked(v1, i as int)
            &&& !is_invoked(v2, i as int)
            &&& next_index(v2) == i
            &&& after_register(v2, h2).slots[i as int] == Some(h2)
        }),
{
    if v.free.len() > 0 {
        assert(v.free[v.free.len() - 1] < v.slots.len());
    }
}

} // verus!
