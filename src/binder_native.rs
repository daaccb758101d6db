use vstd::prelude::*;

use crate::layout::{OPAQUE_BYTES, VIRTUAL_BASE_OFFSET};
use crate::status::{status_of, transact_status, StatusCode};
use crate::vtable::{BBinderVTable, Word, BASE_VPTR_INDEX, VPTR_INDEX};

verus! {

/// The one operation a host object provides: handle a call with the given
/// code, input and flags, writing any answer to `reply`.
pub trait Binder {
    /// Whether a call with `code`, `data` and `flags`, that found the reply
    /// buffer holding `reply_in`, may leave it holding `reply_out` and return
    /// `r`. Each host object says this of its own handler.
    spec fn handled(
        &self,
        code: u32,
        data: Seq<u8>,
        reply_in: Seq<u8>,
        flags: u32,
        reply_out: Seq<u8>,
        r: Result<(), StatusCode>,
    ) -> bool;

    fn on_transact(&self, code: u32, data: &[u8], reply: &mut Vec<u8>, flags: u32) -> (r: Result<
        (),
        StatusCode,
    >)
        ensures
            self.handled(code, data@, old(reply)@, flags, final(reply)@, r),
    ;
}

/// The steps in the life of a wrapped object, in the order they happened.
#[derive(Clone, Copy, Debug, PartialEq, Eq, Structural)]
pub enum LifeEvent {
    /// Storage of the object's size was taken, all bytes zero.
    StorageZeroed,
    /// The native base constructor ran on the storage.
    BaseConstructed,
    /// Both vtable pointers were set to the shared host vtable.
    VtablesPatched,
    /// The host payload was moved into its slot.
    PayloadMoved,
    /// The host payload was dropped in place.
    PayloadDropped,
    /// The native base and its virtual base were destroyed.
    BaseDestroyed,
    /// The storage was given back.
    StorageReleased,
}

/// The steps of construction, in order.
pub open spec fn construction_events() -> Seq<LifeEvent> {
    seq![
        LifeEvent::StorageZeroed,
        LifeEvent::BaseConstructed,
        LifeEvent::VtablesPatched,
        LifeEvent::PayloadMoved,
    ]
}

/// The steps of one destructor, in order: the payload goes first, then the
/// native bases, then, for the deleting destructor, the storage.
pub open spec fn destruction_events(deleting: bool) -> Seq<LifeEvent> {
    if deleting {
        seq![LifeEvent::PayloadDropped, LifeEvent::BaseDestroyed, LifeEvent::StorageReleased]
    } else {
        seq![LifeEvent::PayloadDropped, LifeEvent::BaseDestroyed]
    }
}

/// What a wrapped object holds, as the proofs see it.
pub struct ObjectModel<T> {
    /// Word index in the shared vtable that the primary vtable pointer names.
    pub vptr: int,
    /// Word index that the virtual base's vtable pointer names.
    pub vbase_vptr: int,
    /// The native base's opaque bytes.
    pub opaque: Seq<u8>,
    /// The virtual base's bookkeeping pointer.
    pub refs: u64,
    /// The host payload while it is alive.
    pub payload: Option<T>,
    /// How many times the payload has been dropped.
    pub payload_drops: nat,
    /// Whether the native base and its virtual base have been destroyed.
    pub base_destroyed: bool,
    /// Whether the object's storage has been given back.
    pub storage_released: bool,
    /// Every step of the object's life so far, in order.
    pub events: Seq<LifeEvent>,
}

/// Whether `o` is the state of an object right after construction around
/// `payload`: both vtable pointers name the host vtable, the payload is in
/// its slot, nothing has been dropped or destroyed, and the history is that
/// of construction. The opaque bytes and the bookkeeping pointer are what
/// the native base constructor wrote; of them only the size is stated.
pub open spec fn is_constructed<T>(o: ObjectModel<T>, payload: T) -> bool {
    &&& o.vptr == VPTR_INDEX
    &&& o.vbase_vptr == BASE_VPTR_INDEX
    &&& o.opaque.len() == OPAQUE_BYTES
    &&& o.payload == Some(payload)
    &&& o.payload_drops == 0
    &&& !o.base_destroyed
    &&& !o.storage_released
    &&& o.events == construction_events()
}

/// The state of `o` after one of its destructors ran; `deleting` tells the
/// deleting destructor from the complete one.
pub open spec fn destroyed<T>(o: ObjectModel<T>, deleting: bool) -> ObjectModel<T> {
    ObjectModel {
        payload: None,
        payload_drops: o.payload_drops + 1,
        base_destroyed: true,
        storage_released: deleting,
        events: o.events + destruction_events(deleting),
        ..o
    }
}

/// Whether `o` is in a state that construction and destruction can reach.
pub open spec fn model_wf<T>(o: ObjectModel<T>) -> bool {
    &&& o.vptr == VPTR_INDEX
    &&& o.vbase_vptr == BASE_VPTR_INDEX
    &&& o.opaque.len() == OPAQUE_BYTES
    &&& (o.payload is Some <==> !o.base_destroyed)
    &&& o.payload_drops == (if o.base_destroyed { 1nat } else { 0nat })
    &&& (o.storage_released ==> o.base_destroyed)
    &&& o.events == if o.base_destroyed {
        construction_events() + destruction_events(o.storage_released)
    } else {
        construction_events()
    }
}

/// A model of a host object behind the native `BBinder` base. It holds the
/// fields of the native layout in their order (the two vtable pointers as
/// word indices into the shared host vtable, the opaque native bytes, the
/// virtual base's bookkeeping pointer) and the host payload, together with
/// what the proofs track of the object's life: drops, destruction, release
/// of storage and the history of steps.
pub struct BinderNative<T> {
    vtable: usize,
    opaque: [u8; 16],
    vtable_ref_base: usize,
    refs: u64,
    rust_object: Option<T>,
    payload_drops: u64,
    base_destroyed: bool,
    storage_released: bool,
    events: Ghost<Seq<LifeEvent>>,
}

impl<T> View for BinderNative<T> {
    type V = ObjectModel<T>;

    closed spec fn view(&self) -> ObjectModel<T> {
        ObjectModel {
            vptr: self.vtable as int,
            vbase_vptr: self.vtable_ref_base as int,
            opaque: self.opaque@,
            refs: self.refs,
            payload: self.rust_object,
            payload_drops: self.payload_drops as nat,
            base_destroyed: self.base_destroyed,
            storage_released: self.storage_released,
            events: self.events@,
        }
    }
}

impl<T> BinderNative<T> {
    /// Builds the object around `rust_object` in four steps, in this order:
    /// zeroed storage, the native base constructor, both vtable pointers set
    /// to the shared host vtable, then the payload moved into its slot. The
    /// native constructor is the native library's; this model records that it
    /// ran, once and before the vtable pointers were set, and says nothing of
    /// what it wrote into the opaque and bookkeeping fields.
    pub fn new(rust_object: T) -> (r: BinderNative<T>)
        ensures
            is_constructed(r@, rust_object),
            model_wf(r@),
    {
        let mut obj = BinderNative {
            vtable: 0,
            opaque: [0u8; 16],
            vtable_ref_base: 0,
            refs: 0,
            rust_object: None,
            payload_drops: 0,
            base_destroyed: false,
            storage_released: false,
            events: Ghost(Seq::empty().push(LifeEvent::StorageZeroed)),
        };
        obj.events = Ghost(obj.events@.push(LifeEvent::BaseConstructed));
        obj.vtable = VPTR_INDEX;
        obj.vtable_ref_base = BASE_VPTR_INDEX;
        obj.events = Ghost(obj.events@.push(LifeEvent::VtablesPatched));
        obj.rust_object = Some(rust_object);
        obj.events = Ghost(obj.events@.push(LifeEvent::PayloadMoved));
        assert(obj.events@ =~= construction_events());
        obj
    }

    /// Byte offset of the virtual base from the start of the object, read
    /// from the word before the primary vtable's address point.
    pub fn as_virtual_base(&self) -> (r: u64)
        requires
            model_wf(self@),
        ensures
            r == VIRTUAL_BASE_OFFSET,
    {
        let table = BBinderVTable::binder_native_vtable();
        match table.word_at(self.vtable - VPTR_INDEX) {
            Some(Word::Offset(offset)) => {
                if offset >= 0 {
                    offset as u64
                } else {
                    0
                }
            },
            _ => 0,
        }
    }

    /// Word index that the virtual base's vtable pointer names.
    pub fn vtable_ref_base(&self) -> (r: usize)
        ensures
            r == self@.vbase_vptr,
    {
        self.vtable_ref_base
    }

    /// Mutable access to the host payload; whatever is written through it
    /// is the payload afterwards, and nothing else of the object changes.
    pub fn deref_mut(&mut self) -> (r: &mut T)
        requires
            old(self)@.payload is Some,
        ensures
            Some(*r) == old(self)@.payload,
            final(self)@ == (ObjectModel { payload: Some(*final(r)), ..old(self)@ }),
    {
        match &mut self.rust_object {
            Some(o) => o,
            None => vstd::pervasive::unreached(),
        }
    }

    /// Whether a deleting destructor has given back the object's storage.
    pub fn is_storage_released(&self) -> (r: bool)
        ensures
            r == self@.storage_released,
    {
        self.storage_released
    }

    /// Whether the payload is alive, that is, no destructor has run.
    pub fn is_alive(&self) -> (r: bool)
        ensures
            r == self@.payload is Some,
    {
        self.rust_object.is_some()
    }

    /// The host payload.
    pub fn deref(&self) -> (r: &T)
        requires
            self@.payload is Some,
        ensures
            Some(*r) == self@.payload,
    {
        match &self.rust_object {
            Some(o) => o,
            None => vstd::pervasive::unreached(),
        }
    }

    /// Destroys the object, its bases and its virtual base, keeping its
    /// storage: the payload is dropped first, exactly once, then the native
    /// bases are destroyed.
    pub fn complete_destructor(&mut self)
        requires
            model_wf(old(self)@),
            old(self)@.payload is Some,
        ensures
            final(self)@ == destroyed(old(self)@, false),
            model_wf(final(self)@),
    {
        self.rust_object = None;
        self.payload_drops = self.payload_drops + 1;
        self.events = Ghost(self.events@.push(LifeEvent::PayloadDropped));
        self.base_destroyed = true;
        self.events = Ghost(self.events@.push(LifeEvent::BaseDestroyed));
        assert(self.events@ =~= old(self).events@ + destruction_events(false));
    }

    /// Destroys the object as the complete destructor does, then gives back
    /// its storage: payload, native bases, storage, in that order.
    pub fn deleting_destructor(&mut self)
        requires
            model_wf(old(self)@),
            old(self)@.payload is Some,
        ensures
            final(self)@ == destroyed(old(self)@, true),
            model_wf(final(self)@),
    {
        self.rust_object = None;
        self.payload_drops = self.payload_drops + 1;
        self.events = Ghost(self.events@.push(LifeEvent::PayloadDropped));
        self.base_destroyed = true;
        self.events = Ghost(self.events@.push(LifeEvent::BaseDestroyed));
        self.storage_released = true;
        self.events = Ghost(self.events@.push(LifeEvent::StorageReleased));
        assert(self.events@ =~= old(self).events@ + destruction_events(true));
    }
}

impl<T: Binder> BinderNative<T> {
    /// The intercepted slot: hands the code, input, reply buffer and flags to
    /// the payload's handler unchanged, leaves the reply buffer as the
    /// handler left it, and returns the native status of the handler's result
    /// (see `transact_status`).
    pub fn on_transact(&self, code: u32, data: &[u8], reply: &mut Vec<u8>, flags: u32) -> (r: i32)
        requires
            self@.payload is Some,
        ensures
            exists|res: Result<(), StatusCode>|
                self@.payload->Some_0.handled(code, data@, old(reply)@, flags, final(reply)@, res)
                    && r == status_of(res),
    {
        match &self.rust_object {
            Some(o) => {
                let res = o.on_transact(code, data, reply, flags);
                let r = transact_status(&res);
                assert(r == status_of(res));
                r
            },
            None => vstd::pervasive::unreached(),
        }
    }
}

} // verus!
