use vstd::prelude::*;

use crate::layout::{POINTER_BYTES, VIRTUAL_BASE_OFFSET};

verus! {

/// Functions exported by the native library that a vtable slot can name.
#[derive(Clone, Copy, Debug, PartialEq, Eq, Structural)]
pub enum NativeFn {
    QueryLocalInterface,
    GetInterfaceDescriptor,
    IsBinderAlive,
    PingBinder,
    Dump,
    Transact,
    LinkToDeath,
    UnlinkToDeath,
    CheckSubclass,
    AttachObject,
    FindObject,
    DetachObject,
    LocalBinder,
    RemoteBinder,
    CompleteDestructor,
    DeletingDestructor,
    OnTransact,
    CompleteDestructorThunk,
    DeletingDestructorThunk,
    OnFirstRef,
    OnLastStrongRef,
    OnIncStrongAttempted,
    OnLastWeakRef,
}

/// What a function-pointer slot of a vtable points at: a native function, or
/// one of the wrapper's own entry points.
#[derive(Clone, Copy, Debug, PartialEq, Eq, Structural)]
pub enum Slot {
    Native(NativeFn),
    OnTransact,
    CompleteDestructor,
    DeletingDestructor,
    CompleteDestructorThunk,
    DeletingDestructorThunk,
}

/// One pointer-sized word of a vtable.
#[derive(Clone, Copy, Debug, PartialEq, Eq, Structural)]
pub enum Word {
    /// A signed byte offset (virtual base offset, offset to top, vcall offset).
    Offset(i64),
    /// The type-information pointer; zero stands for null.
    Rtti(u64),
    /// A function pointer.
    Entry(Slot),
}

/// Word index of the primary vtable's address point.
pub const VPTR_INDEX: usize = 3;

/// Word index of the `onTransact` slot, the one intercepted method.
pub const ON_TRANSACT_INDEX: usize = 19;

/// Word index of the virtual base vtable's address point.
pub const BASE_VPTR_INDEX: usize = 27;

/// Number of words in the whole vtable.
pub const VTABLE_WORDS: usize = 33;

/// Words before the virtual base's address point at which its thunks find
/// their vcall offset.
pub const VCALL_OFFSET_WORDS: usize = 3;

/// Function slots of the native `IBinder` interface, in declaration order.
#[derive(Clone, Copy, Debug, PartialEq, Eq, Structural)]
pub struct IBinderVFns {
    pub query_local_interface: Slot,
    pub get_interface_descriptor: Slot,
    pub is_binder_alive: Slot,
    pub ping_binder: Slot,
    pub dump: Slot,
    pub transact: Slot,
    pub link_to_death: Slot,
    pub unlink_to_death: Slot,
    pub check_subclass: Slot,
    pub attach_object: Slot,
    pub find_object: Slot,
    pub detach_object: Slot,
    pub local_binder: Slot,
    pub remote_binder: Slot,
    pub complete_destructor: Slot,
    pub deleting_destructor: Slot,
}

/// Function slots of `BBinder`: those of `IBinder` followed by `onTransact`.
#[derive(Clone, Copy, Debug, PartialEq, Eq, Structural)]
pub struct BBinderVFns {
    pub base: IBinderVFns,
    pub on_transact: Slot,
}

/// Function slots of the virtual base `RefBase`, in declaration order.
#[derive(Clone, Copy, Debug, PartialEq, Eq, Structural)]
pub struct RefBaseVFns {
    pub complete_destructor: Slot,
    pub deleting_destructor: Slot,
    pub on_first_ref: Slot,
    pub on_last_strong_ref: Slot,
    pub on_inc_strong_attempted: Slot,
    pub on_last_weak_ref: Slot,
}

/// The virtual base's part of the vtable.
#[derive(Clone, Copy, Debug, PartialEq, Eq, Structural)]
pub struct RefBaseVTable {
    pub offset_to_top: i64,
    pub rtti: u64,
    pub vfns: RefBaseVFns,
}

/// The vtable of `BBinder` with its virtual base `RefBase`, field for field
/// in the order the native compiler emits.
#[derive(Clone, Copy, Debug, PartialEq, Eq, Structural)]
pub struct BBinderVTable {
    pub vbase_offset: i64,
    pub offset_to_top: i64,
    pub rtti: u64,
    pub vfns: BBinderVFns,
    pub vcall_offset_0: i64,
    pub vcall_offset_1: i64,
    pub vcall_offset_2: i64,
    pub vcall_offset_3: i64,
    pub vcall_offset_4: i64,
    pub base_vtable: RefBaseVTable,
}

impl BBinderVTable {
    /// The table as the sequence of words that lies in memory.
    pub open spec fn words(self) -> Seq<Word> {
        let f = self.vfns.base;
        let b = self.base_vtable;
        seq![
            Word::Offset(self.vbase_offset),
            Word::Offset(self.offset_to_top),
            Word::Rtti(self.rtti),
            Word::Entry(f.query_local_interface),
            Word::Entry(f.get_interface_descriptor),
            Word::Entry(f.is_binder_alive),
            Word::Entry(f.ping_binder),
            Word::Entry(f.dump),
            Word::Entry(f.transact),
            Word::Entry(f.link_to_death),
            Word::Entry(f.unlink_to_death),
            Word::Entry(f.check_subclass),
            Word::Entry(f.attach_object),
            Word::Entry(f.find_object),
            Word::Entry(f.detach_object),
            Word::Entry(f.local_binder),
            Word::Entry(f.remote_binder),
            Word::Entry(f.complete_destructor),
            Word::Entry(f.deleting_destructor),
            Word::Entry(self.vfns.on_transact),
            Word::Offset(self.vcall_offset_0),
            Word::Offset(self.vcall_offset_1),
            Word::Offset(self.vcall_offset_2),
            Word::Offset(self.vcall_offset_3),
            Word::Offset(self.vcall_offset_4),
            Word::Offset(b.offset_to_top),
            Word::Rtti(b.rtti),
            Word::Entry(b.vfns.complete_destructor),
            Word::Entry(b.vfns.deleting_destructor),
            Word::Entry(b.vfns.on_first_ref),
            Word::Entry(b.vfns.on_last_strong_ref),
            Word::Entry(b.vfns.on_inc_strong_attempted),
            Word::Entry(b.vfns.on_last_weak_ref),
        ]
    }

    /// The table as written in memory, word by word.
    pub fn to_words(&self) -> (r: Vec<Word>)
        ensures
            r@ == self.words(),
    {
        let f = self.vfns.base;
        let b = self.base_vtable;
        let r = vec![
            Word::Offset(self.vbase_offset),
            Word::Offset(self.offset_to_top),
            Word::Rtti(self.rtti),
            Word::Entry(f.query_local_interface),
            Word::Entry(f.get_interface_descriptor),
            Word::Entry(f.is_binder_alive),
            Word::Entry(f.ping_binder),
            Word::Entry(f.dump),
            Word::Entry(f.transact),
            Word::Entry(f.link_to_death),
            Word::Entry(f.unlink_to_death),
            Word::Entry(f.check_subclass),
            Word::Entry(f.attach_object),
            Word::Entry(f.find_object),
            Word::Entry(f.detach_object),
            Word::Entry(f.local_binder),
            Word::Entry(f.remote_binder),
            Word::Entry(f.complete_destructor),
            Word::Entry(f.deleting_destructor),
            Word::Entry(self.vfns.on_transact),
            Word::Offset(self.vcall_offset_0),
            Word::Offset(self.vcall_offset_1),
            Word::Offset(self.vcall_offset_2),
            Word::Offset(self.vcall_offset_3),
            Word::Offset(self.vcall_offset_4),
            Word::Offset(b.offset_to_top),
            Word::Rtti(b.rtti),
            Word::Entry(b.vfns.complete_destructor),
            Word::Entry(b.vfns.deleting_destructor),
            Word::Entry(b.vfns.on_first_ref),
            Word::Entry(b.vfns.on_last_strong_ref),
            Word::Entry(b.vfns.on_inc_strong_attempted),
            Word::Entry(b.vfns.on_last_weak_ref),
        ];
        assert(r@ =~= self.words());
        r
    }

    /// The word at `index`, or `None` past the end of the table.
    pub fn word_at(&self, index: usize) -> (r: Option<Word>)
        ensures
            index < VTABLE_WORDS ==> r == Some(self.words()[index as int]),
            index >= VTABLE_WORDS ==> r is None,
    {
        let words = self.to_words();
        if index < words.len() {
            Some(words[index])
        } else {
            None
        }
    }

    /// The vtable for a wrapped host object: the native `BBinder` table with
    /// `onTransact` routed to the interception trampoline, both destructors
    /// routed to the wrapper's own, and null type information.
    pub fn binder_native_vtable() -> (r: BBinderVTable)
        ensures
            r == host_vtable(),
    {
        BBinderVTable {
            vbase_offset: 24,
            offset_to_top: 0,
            rtti: 0,
            vfns: BBinderVFns {
                base: IBinderVFns {
                    query_local_interface: Slot::Native(NativeFn::QueryLocalInterface),
                    get_interface_descriptor: Slot::Native(NativeFn::GetInterfaceDescriptor),
                    is_binder_alive: Slot::Native(NativeFn::IsBinderAlive),
                    ping_binder: Slot::Native(NativeFn::PingBinder),
                    dump: Slot::Native(NativeFn::Dump),
                    transact: Slot::Native(NativeFn::Transact),
                    link_to_death: Slot::Native(NativeFn::LinkToDeath),
                    unlink_to_death: Slot::Native(NativeFn::UnlinkToDeath),
                    check_subclass: Slot::Native(NativeFn::CheckSubclass),
                    attach_object: Slot::Native(NativeFn::AttachObject),
                    find_object: Slot::Native(NativeFn::FindObject),
                    detach_object: Slot::Native(NativeFn::DetachObject),
                    local_binder: Slot::Native(NativeFn::LocalBinder),
                    remote_binder: Slot::Native(NativeFn::RemoteBinder),
                    complete_destructor: Slot::CompleteDestructor,
                    deleting_destructor: Slot::DeletingDestructor,
                },
                on_transact: Slot::OnTransact,
            },
            vcall_offset_0: 0,
            vcall_offset_1: 0,
            vcall_offset_2: 0,
            vcall_offset_3: 0,
            vcall_offset_4: -24,
            base_vtable: RefBaseVTable {
                offset_to_top: -24,
                rtti: 0,
                vfns: RefBaseVFns {
                    complete_destructor: Slot::CompleteDestructorThunk,
                    deleting_destructor: Slot::DeletingDestructorThunk,
                    on_first_ref: Slot::Native(NativeFn::OnFirstRef),
                    on_last_strong_ref: Slot::Native(NativeFn::OnLastStrongRef),
                    on_inc_strong_attempted: Slot::Native(NativeFn::OnIncStrongAttempted),
                    on_last_weak_ref: Slot::Native(NativeFn::OnLastWeakRef),
                },
            },
        }
    }
}

/// The native library's own `BBinder` vtable, with its type information at
/// address `rtti` and its virtual base's at `base_rtti`.
pub open spec fn native_vtable(rtti: u64, base_rtti: u64) -> BBinderVTable {
    BBinderVTable {
        vbase_offset: 24,
        offset_to_top: 0,
        rtti: rtti,
        vfns: BBinderVFns {
            base: IBinderVFns {
                query_local_interface: Slot::Native(NativeFn::QueryLocalInterface),
                get_interface_descriptor: Slot::Native(NativeFn::GetInterfaceDescriptor),
                is_binder_alive: Slot::Native(NativeFn::IsBinderAlive),
                ping_binder: Slot::Native(NativeFn::PingBinder),
                dump: Slot::Native(NativeFn::Dump),
                transact: Slot::Native(NativeFn::Transact),
                link_to_death: Slot::Native(NativeFn::LinkToDeath),
                unlink_to_death: Slot::Native(NativeFn::UnlinkToDeath),
                check_subclass: Slot::Native(NativeFn::CheckSubclass),
                attach_object: Slot::Native(NativeFn::AttachObject),
                find_object: Slot::Native(NativeFn::FindObject),
                detach_object: Slot::Native(NativeFn::DetachObject),
                local_binder: Slot::Native(NativeFn::LocalBinder),
                remote_binder: Slot::Native(NativeFn::RemoteBinder),
                complete_destructor: Slot::Native(NativeFn::CompleteDestructor),
                deleting_destructor: Slot::Native(NativeFn::DeletingDestructor),
            },
            on_transact: Slot::Native(NativeFn::OnTransact),
        },
        vcall_offset_0: 0,
        vcall_offset_1: 0,
        vcall_offset_2: 0,
        vcall_offset_3: 0,
        vcall_offset_4: -24i64,
        base_vtable: RefBaseVTable {
            offset_to_top: -24i64,
            rtti: base_rtti,
            vfns: RefBaseVFns {
                complete_destructor: Slot::Native(NativeFn::CompleteDestructorThunk),
                deleting_destructor: Slot::Native(NativeFn::DeletingDestructorThunk),
                on_first_ref: Slot::Native(NativeFn::OnFirstRef),
                on_last_strong_ref: Slot::Native(NativeFn::OnLastStrongRef),
                on_inc_strong_attempted: Slot::Native(NativeFn::OnIncStrongAttempted),
                on_last_weak_ref: Slot::Native(NativeFn::OnLastWeakRef),
            },
        },
    }
}

/// The table shared by every wrapped host object: the native one with the
/// overridden slots replaced and null type information.
pub open spec fn host_vtable() -> BBinderVTable {
    let n = native_vtable(0, 0);
    BBinderVTable {
        vfns: BBinderVFns {
            base: IBinderVFns {
                complete_destructor: Slot::CompleteDestructor,
                deleting_destructor: Slot::DeletingDestructor,
                ..n.vfns.base
            },
            on_transact: Slot::OnTransact,
        },
        base_vtable: RefBaseVTable {
            vfns: RefBaseVFns {
                complete_destructor: Slot::CompleteDestructorThunk,
                deleting_destructor: Slot::DeletingDestructorThunk,
                ..n.base_vtable.vfns
            },
            ..n.base_vtable
        },
        ..n
    }
}

/// The word indices whose contents the wrapper overrides: its two
/// destructors, `onTransact`, and the virtual base's two destructor thunks.
pub open spec fn is_overridden(i: int) -> bool {
    i == 17 || i == 18 || i == ON_TRANSACT_INDEX || i == BASE_VPTR_INDEX || i == BASE_VPTR_INDEX + 1
}

/// The word indices that hold type information.
pub open spec fn is_rtti(i: int) -> bool {
    i == VPTR_INDEX - 1 || i == BASE_VPTR_INDEX - 1
}

/// Every word of the host table that is neither overridden nor type
/// information is the very word of the native table, so each inherited
/// virtual method and each offset behaves as it does on a native object; the
/// intercepted slots name the wrapper's entry points.
pub proof fn lemma_forwarding(rtti: u64, base_rtti: u64)
    ensures
        host_vtable().words().len() == VTABLE_WORDS,
        native_vtable(rtti, base_rtti).words().len() == VTABLE_WORDS,
        forall|i: int|
            0 <= i < VTABLE_WORDS && !is_overridden(i) && !is_rtti(i) ==> host_vtable().words()[i]
                == native_vtable(rtti, base_rtti).words()[i],
        host_vtable().words()[ON_TRANSACT_INDEX as int] == Word::Entry(Slot::OnTransact),
        host_vtable().words()[17] == Word::Entry(Slot::CompleteDestructor),
        host_vtable().words()[18] == Word::Entry(Slot::DeletingDestructor),
        host_vtable().words()[BASE_VPTR_INDEX as int] == Word::Entry(
            Slot::CompleteDestructorThunk,
        ),
        host_vtable().words()[BASE_VPTR_INDEX + 1] == Word::Entry(Slot::DeletingDestructorThunk),
        host_vtable().words()[VPTR_INDEX - 1] == Word::Rtti(0),
        host_vtable().words()[BASE_VPTR_INDEX - 1] == Word::Rtti(0),
{
}

/// The offsets in the host table agree with the native base's layout: the
/// virtual base lies at its field's offset, its offset to top leads back to
/// the object's start, and the vcall offset that its thunks read does too.
pub proof fn lemma_offsets_match_layout()
    ensures
        host_vtable().words()[VPTR_INDEX - 3] == Word::Offset(VIRTUAL_BASE_OFFSET as i64),
        host_vtable().words()[BASE_VPTR_INDEX - 2] == Word::Offset((-(VIRTUAL_BASE_OFFSET as int)) as i64),
        host_vtable().words()[BASE_VPTR_INDEX - VCALL_OFFSET_WORDS] == Word::Offset(
            (-(VIRTUAL_BASE_OFFSET as int)) as i64,
        ),
        VCALL_OFFSET_WORDS * POINTER_BYTES == VIRTUAL_BASE_OFFSET,
{
}

} // verus!
