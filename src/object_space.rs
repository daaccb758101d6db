use vstd::prelude::*;

use crate::binder_native::{
    construction_events, is_constructed, destroyed, destruction_events, model_wf, Binder, BinderNative,
    ObjectModel,
};
use crate::status::{status_of, StatusCode};
use crate::layout::{BASE_SIZE, VIRTUAL_BASE_OFFSET};
use crate::vtable::{host_vtable, BBinderVTable, Word, VCALL_OFFSET_WORDS};

verus! {

/// The wrapped objects that live in native memory, each at its own address.
/// A pointer the native runtime hands back is resolved against it, either to
/// an object's start or to its virtual base.
pub struct ObjectSpace<T> {
    objects: Vec<BinderNative<T>>,
    addresses: Vec<u64>,
}

/// Whether native bases at `a` and `b` share no byte.
pub open spec fn disjoint(a: u64, b: u64) -> bool {
    a + BASE_SIZE <= b || b + BASE_SIZE <= a
}

/// The number of payload drops over all objects in `s`.
pub open spec fn total_drops<T>(s: Seq<ObjectModel<T>>) -> nat
    decreases s.len(),
{
    if s.len() == 0 {
        0
    } else {
        total_drops(s.drop_last()) + s.last().payload_drops
    }
}

/// A sequence in which every payload was dropped once has as many drops as
/// objects.
proof fn lemma_total_drops_one_each<T>(s: Seq<ObjectModel<T>>)
    requires
        forall|i: int| 0 <= i < s.len() ==> (#[trigger] s[i]).payload_drops == 1,
    ensures
        total_drops(s) == s.len(),
    decreases s.len(),
{
    if s.len() > 0 {
        lemma_total_drops_one_each(s.drop_last());
    }
}

/// Once every object of a space has been destroyed, whichever destructor
/// entry each went through, every payload has been dropped exactly once: the
/// drops number the objects constructed, none twice and none missed, and
/// each object's history is its construction followed by one destructor,
/// which released the storage wherever it was the deleting one.
pub proof fn lemma_release_all_drops_each_once<T>(space: ObjectSpace<T>)
    requires
        space.wf(),
        forall|i: int| 0 <= i < space.objects().len() ==> (#[trigger] space.objects()[i]).base_destroyed,
    ensures
        forall|i: int|
            0 <= i < space.objects().len() ==> (#[trigger] space.objects()[i]).payload_drops == 1
                && space.objects()[i].payload is None && space.objects()[i].events
                == construction_events() + destruction_events(space.objects()[i].storage_released),
        total_drops(space.objects()) == space.objects().len(),
{
    assert forall|i: int| 0 <= i < space.objects().len() implies (#[trigger] space.objects()[i]).payload_drops == 1
        && space.objects()[i].payload is None && space.objects()[i].events
        == construction_events() + destruction_events(space.objects()[i].storage_released) by {
        assert(model_wf(space.objects()[i]));
    }
    lemma_total_drops_one_each(space.objects());
}

impl<T> ObjectSpace<T> {
    /// The objects, in the order they were constructed.
    pub closed spec fn objects(&self) -> Seq<ObjectModel<T>> {
        self.objects@.map_values(|o: BinderNative<T>| o@)
    }

    /// The address of each object, in the same order.
    pub closed spec fn addresses(&self) -> Seq<u64> {
        self.addresses@
    }

    /// Every object is in a reachable state, no two objects that still hold
    /// their storage overlap, and each native base fits below the top of the
    /// address space. Storage that a deleting destructor gave back may hold a
    /// later object.
    pub open spec fn wf(&self) -> bool {
        &&& self.objects().len() == self.addresses().len()
        &&& forall|i: int| 0 <= i < self.objects().len() ==> model_wf(#[trigger] self.objects()[i])
        &&& forall|i: int, j: int|
            0 <= i < self.addresses().len() && 0 <= j < self.addresses().len() && i != j
                && !self.objects()[i].storage_released && !self.objects()[j].storage_released
                ==> disjoint(#[trigger] self.addresses()[i], #[trigger] self.addresses()[j])
        &&& forall|i: int|
            0 <= i < self.addresses().len() ==> #[trigger] self.addresses()[i] <= u64::MAX - BASE_SIZE
    }

    /// An empty space.
    pub fn new() -> (r: ObjectSpace<T>)
        ensures
            r.wf(),
            r.objects().len() == 0,
            r.addresses().len() == 0,
    {
        let r = ObjectSpace { objects: Vec::new(), addresses: Vec::new() };
        assert(r.objects() =~= Seq::<ObjectModel<T>>::empty());
        r
    }

    /// Constructs a wrapped object around `rust_object` in the storage at
    /// `address`, which no object that still holds its storage overlaps.
    pub fn construct(&mut self, address: u64, rust_object: T)
        requires
            old(self).wf(),
            address <= u64::MAX - BASE_SIZE,
            forall|i: int|
                0 <= i < old(self).addresses().len() && !old(self).objects()[i].storage_released
                    ==> disjoint(#[trigger] old(self).addresses()[i], address),
        ensures
            final(self).wf(),
            final(self).objects() == old(self).objects().push(final(self).objects().last()),
            is_constructed(final(self).objects().last(), rust_object),
            final(self).addresses() == old(self).addresses().push(address),
    {
        let obj = BinderNative::new(rust_object);
        let ghost obj_view = obj@;
        self.objects.push(obj);
        self.addresses.push(address);
        assert(self.objects() =~= old(self).objects().push(obj_view));
        assert forall|i: int, j: int|
            0 <= i < self.addresses().len() && 0 <= j < self.addresses().len() && i != j
                && !self.objects()[i].storage_released && !self.objects()[j].storage_released
                implies disjoint(self.addresses()[i], self.addresses()[j]) by {
            assert(self.objects()[i] == if i < old(self).objects().len() {
                old(self).objects()[i]
            } else {
                obj_view
            });
            assert(self.objects()[j] == if j < old(self).objects().len() {
                old(self).objects()[j]
            } else {
                obj_view
            });
            if i == self.addresses().len() - 1 {
                assert(old(self).addresses()[j] == self.addresses()[j]);
                assert(disjoint(old(self).addresses()[j], address));
            } else if j == self.addresses().len() - 1 {
                assert(old(self).addresses()[i] == self.addresses()[i]);
                assert(disjoint(old(self).addresses()[i], address));
            }
        }
    }

    /// Index of the object that starts at `address` and still holds its
    /// storage.
    fn find_object(&self, address: u64) -> (r: Option<usize>)
        requires
            self.wf(),
        ensures
            r matches Some(i) ==> i < self.addresses().len() && self.addresses()[i as int]
                == address && !self.objects()[i as int].storage_released,
            r is None ==> forall|k: int|
                0 <= k < self.addresses().len() && self.addresses()[k] == address
                    ==> self.objects()[k].storage_released,
    {
        let mut i: usize = 0;
        while i < self.addresses.len()
            invariant
                self.wf(),
                i <= self.addresses().len(),
                forall|k: int|
                    0 <= k < i && self.addresses()[k] == address
                        ==> self.objects()[k].storage_released,
            decreases self.addresses().len() - i,
        {
            if self.addresses[i] == address && !self.objects[i].is_storage_released() {
                return Some(i);
            }
            i = i + 1;
        }
        None
    }

    /// Index of the object whose virtual base is at `this` and that still
    /// holds its storage.
    fn find_virtual_base(&self, this: u64) -> (r: Option<usize>)
        requires
            self.wf(),
        ensures
            r matches Some(i) ==> i < self.addresses().len() && self.addresses()[i as int]
                + VIRTUAL_BASE_OFFSET == this && !self.objects()[i as int].storage_released,
            r is None ==> forall|k: int|
                0 <= k < self.addresses().len() && self.addresses()[k] + VIRTUAL_BASE_OFFSET
                    == this ==> self.objects()[k].storage_released,
    {
        let mut i: usize = 0;
        while i < self.addresses.len()
            invariant
                self.wf(),
                i <= self.addresses().len(),
                forall|k: int|
                    0 <= k < i && self.addresses()[k] + VIRTUAL_BASE_OFFSET == this
                        ==> self.objects()[k].storage_released,
            decreases self.addresses().len() - i,
        {
            assert(self.addresses()[i as int] <= u64::MAX - BASE_SIZE);
            if self.addresses[i] + VIRTUAL_BASE_OFFSET == this
                && !self.objects[i].is_storage_released() {
                return Some(i);
            }
            i = i + 1;
        }
        None
    }

    /// Whether an object starts at `address` and its payload is alive.
    pub fn is_alive(&self, address: u64) -> (r: bool)
        requires
            self.wf(),
        ensures
            r <==> exists|i: int|
                0 <= i < self.addresses().len() && self.addresses()[i] == address
                    && self.objects()[i].payload is Some,
    {
        match self.find_object(address) {
            Some(k) => {
                let alive = self.objects[k].is_alive();
                proof {
                    if !alive {
                        assert forall|i: int|
                            0 <= i < self.addresses().len() && self.addresses()[i] == address
                                implies self.objects()[i].payload is None by {
                            assert(model_wf(self.objects()[i]));
                            assert(model_wf(self.objects()[k as int]));
                            if self.objects()[i].payload is Some {
                                assert(i == k);
                            }
                        }
                    }
                }
                alive
            },
            None => false,
        }
    }

    /// Runs the destructor of object `i`.
    fn destroy(&mut self, i: usize, deleting: bool)
        requires
            old(self).wf(),
            i < old(self).objects().len(),
            old(self).objects()[i as int].payload is Some,
        ensures
            final(self).wf(),
            final(self).objects() == old(self).objects().update(
                i as int,
                destroyed(old(self).objects()[i as int], deleting),
            ),
            final(self).addresses() == old(self).addresses(),
    {
        let mut obj = self.objects.remove(i);
        assert(obj@ == old(self).objects()[i as int]);
        if deleting {
            obj.deleting_destructor();
        } else {
            obj.complete_destructor();
        }
        self.objects.insert(i, obj);
        assert(self.objects() =~= old(self).objects().update(
            i as int,
            destroyed(old(self).objects()[i as int], deleting),
        ));
    }

    /// The destructor entered through the address of the virtual base: reads
    /// the vcall offset at a fixed distance before the virtual base's vtable
    /// pointer, adds it to `this` to find the object's start, and destroys
    /// that object.
    fn destructor_thunk(&mut self, this: u64, deleting: bool)
        requires
            old(self).wf(),
            exists|i: int|
                0 <= i < old(self).addresses().len() && old(self).addresses()[i]
                    + VIRTUAL_BASE_OFFSET == this && old(self).objects()[i].payload is Some,
        ensures
            final(self).wf(),
            final(self).addresses() == old(self).addresses(),
            forall|i: int|
                0 <= i < old(self).addresses().len() && old(self).addresses()[i]
                    + VIRTUAL_BASE_OFFSET == this && !old(self).objects()[i].storage_released
                    ==> final(self).objects() == old(
                    self,
                ).objects().update(i, destroyed(old(self).objects()[i], deleting)),
    {
        let j = match self.find_virtual_base(this) {
            Some(j) => j,
            None => vstd::pervasive::unreached(),
        };
        assert(model_wf(self.objects()[j as int]));
        let vbase_vptr = self.objects[j].vtable_ref_base();
        let table = BBinderVTable::binder_native_vtable();
        proof {
            crate::vtable::lemma_offsets_match_layout();
        }
        let vcall = match table.word_at(vbase_vptr - VCALL_OFFSET_WORDS) {
            Some(Word::Offset(v)) => v,
            _ => vstd::pervasive::unreached(),
        };
        assert(vcall == -24);
        let start = this - (0 - vcall) as u64;
        let k = match self.find_object(start) {
            Some(k) => k,
            None => vstd::pervasive::unreached(),
        };
        assert(k == j);
        self.destroy(k, deleting);
    }

    /// Complete destructor entered at the object's start.
    pub fn complete_destructor(&mut self, address: u64)
        requires
            old(self).wf(),
            exists|i: int|
                0 <= i < old(self).addresses().len() && old(self).addresses()[i] == address
                    && old(self).objects()[i].payload is Some,
        ensures
            final(self).wf(),
            final(self).addresses() == old(self).addresses(),
            forall|i: int|
                0 <= i < old(self).addresses().len() && old(self).addresses()[i] == address
                    && !old(self).objects()[i].storage_released ==> final(self).objects() == old(self).objects().update(
                    i,
                    destroyed(old(self).objects()[i], false),
                ),
    {
        let k = match self.find_object(address) {
            Some(k) => k,
            None => vstd::pervasive::unreached(),
        };
        self.destroy(k, false);
    }

    /// Deleting destructor entered at the object's start.
    pub fn deleting_destructor(&mut self, address: u64)
        requires
            old(self).wf(),
            exists|i: int|
                0 <= i < old(self).addresses().len() && old(self).addresses()[i] == address
                    && old(self).objects()[i].payload is Some,
        ensures
            final(self).wf(),
            final(self).addresses() == old(self).addresses(),
            forall|i: int|
                0 <= i < old(self).addresses().len() && old(self).addresses()[i] == address
                    && !old(self).objects()[i].storage_released ==> final(self).objects() == old(self).objects().update(
                    i,
                    destroyed(old(self).objects()[i], true),
                ),
    {
        let k = match self.find_object(address) {
            Some(k) => k,
            None => vstd::pervasive::unreached(),
        };
        self.destroy(k, true);
    }

    /// Complete destructor entered through the virtual base's address `this`.
    pub fn complete_destructor_thunk(&mut self, this: u64)
        requires
            old(self).wf(),
            exists|i: int|
                0 <= i < old(self).addresses().len() && old(self).addresses()[i]
                    + VIRTUAL_BASE_OFFSET == this && old(self).objects()[i].payload is Some,
        ensures
            final(self).wf(),
            final(self).addresses() == old(self).addresses(),
            forall|i: int|
                0 <= i < old(self).addresses().len() && old(self).addresses()[i]
                    + VIRTUAL_BASE_OFFSET == this && !old(self).objects()[i].storage_released
                    ==> final(self).objects() == old(
                    self,
                ).objects().update(i, destroyed(old(self).objects()[i], false)),
    {
        self.destructor_thunk(this, false);
    }

    /// Deleting destructor entered through the virtual base's address `this`.
    pub fn deleting_destructor_thunk(&mut self, this: u64)
        requires
            old(self).wf(),
            exists|i: int|
                0 <= i < old(self).addresses().len() && old(self).addresses()[i]
                    + VIRTUAL_BASE_OFFSET == this && old(self).objects()[i].payload is Some,
        ensures
            final(self).wf(),
            final(self).addresses() == old(self).addresses(),
            forall|i: int|
                0 <= i < old(self).addresses().len() && old(self).addresses()[i]
                    + VIRTUAL_BASE_OFFSET == this && !old(self).objects()[i].storage_released
                    ==> final(self).objects() == old(
                    self,
                ).objects().update(i, destroyed(old(self).objects()[i], true)),
    {
        self.destructor_thunk(this, true);
    }
}

impl<T: Binder> ObjectSpace<T> {
    /// A call of the intercepted slot on the object at `address`: that
    /// object's handler gets the code, input, reply buffer and flags, the
    /// reply ends as the handler left it, and the handler's result comes back
    /// as a native status. Neither the space nor any other object changes.
    pub fn on_transact(
        &self,
        address: u64,
        code: u32,
        data: &[u8],
        reply: &mut Vec<u8>,
        flags: u32,
    ) -> (r: i32)
        requires
            self.wf(),
            exists|i: int|
                0 <= i < self.addresses().len() && self.addresses()[i] == address
                    && self.objects()[i].payload is Some,
        ensures
            forall|i: int|
                0 <= i < self.addresses().len() && self.addresses()[i] == address
                    && !self.objects()[i].storage_released ==> exists|
                    res: Result<(), StatusCode>,
                |
                    self.objects()[i].payload->Some_0.handled(
                        code,
                        data@,
                        old(reply)@,
                        flags,
                        final(reply)@,
                        res,
                    ) && r == status_of(res),
    {
        let k = match self.find_object(address) {
            Some(k) => k,
            None => vstd::pervasive::unreached(),
        };
        self.objects[k].on_transact(code, data, reply, flags)
    }
}

} // verus!
