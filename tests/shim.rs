use std::cell::{Cell, RefCell};
use std::rc::Rc;

use binder::binder_native::{Binder, BinderNative};
use binder::layout::{foreign_base_layout, payload_offset, FieldLayout};
use binder::object_space::ObjectSpace;
use binder::status::{transact_status, StatusCode, STATUS_OK};
use binder::vtable::{BBinderVTable, NativeFn, Slot, Word};

/// A host object that records every call and counts its own drops.
struct Recorder {
    calls: Rc<RefCell<Vec<(u32, Vec<u8>, u32)>>>,
    drops: Rc<Cell<usize>>,
    answer: Result<(), StatusCode>,
}

impl Binder for Recorder {
    // Only the verifier reads this predicate; at run time it is never called.
    fn handled(
        &self,
        _code: u32,
        _data: vstd::seq::Seq<u8>,
        _reply_in: vstd::seq::Seq<u8>,
        _flags: u32,
        _reply_out: vstd::seq::Seq<u8>,
        _r: Result<(), StatusCode>,
    ) -> bool {
        true
    }

    fn on_transact(
        &self,
        code: u32,
        data: &[u8],
        reply: &mut Vec<u8>,
        flags: u32,
    ) -> Result<(), StatusCode> {
        self.calls.borrow_mut().push((code, data.to_vec(), flags));
        if self.answer.is_ok() {
            reply.extend_from_slice(data);
        }
        self.answer
    }
}

impl Drop for Recorder {
    fn drop(&mut self) {
        self.drops.set(self.drops.get() + 1);
    }
}

fn recorder(
    answer: Result<(), StatusCode>,
) -> (Recorder, Rc<RefCell<Vec<(u32, Vec<u8>, u32)>>>, Rc<Cell<usize>>) {
    let calls = Rc::new(RefCell::new(Vec::new()));
    let drops = Rc::new(Cell::new(0));
    let r = Recorder { calls: calls.clone(), drops: drops.clone(), answer };
    (r, calls, drops)
}

const ALL_KINDS: [StatusCode; 18] = [
    StatusCode::UnknownError,
    StatusCode::NoMemory,
    StatusCode::InvalidOperation,
    StatusCode::BadValue,
    StatusCode::BadType,
    StatusCode::NameNotFound,
    StatusCode::PermissionDenied,
    StatusCode::NoInit,
    StatusCode::AlreadyExists,
    StatusCode::DeadObject,
    StatusCode::FailedTransaction,
    StatusCode::BadIndex,
    StatusCode::NotEnoughData,
    StatusCode::WouldBlock,
    StatusCode::TimedOut,
    StatusCode::UnknownTransaction,
    StatusCode::FdsNotAllowed,
    StatusCode::UnexpectedNull,
];

#[test]
fn base_layout_matches_native_offsets() {
    let l = foreign_base_layout();
    assert_eq!(l.vtable, FieldLayout { offset: 0, size: 8 });
    assert_eq!(l.opaque, FieldLayout { offset: 8, size: 16 });
    assert_eq!(l.vtable_ref_base, FieldLayout { offset: 24, size: 8 });
    assert_eq!(l.refs, FieldLayout { offset: 32, size: 8 });
    assert_eq!(l.size, 40);
}

#[test]
fn payload_follows_base_at_its_alignment() {
    assert_eq!(payload_offset(1), 40);
    assert_eq!(payload_offset(8), 40);
    assert_eq!(payload_offset(16), 48);
    assert_eq!(payload_offset(64), 64);
    assert_eq!(payload_offset(1 << 20), 1 << 20);
}

#[test]
fn status_of_success_is_ok() {
    assert_eq!(transact_status(&Ok(())), STATUS_OK);
    assert_eq!(STATUS_OK, 0);
}

#[test]
fn status_codes_are_native_values() {
    assert_eq!(transact_status(&Err(StatusCode::BadValue)), -22);
    assert_eq!(transact_status(&Err(StatusCode::UnknownError)), i32::MIN);
    assert_eq!(transact_status(&Err(StatusCode::BadType)), i32::MIN + 1);
    assert_eq!(transact_status(&Err(StatusCode::UnexpectedNull)), i32::MIN + 8);
    assert_eq!(transact_status(&Err(StatusCode::UnknownTransaction)), -74);
    assert_eq!(transact_status(&Err(StatusCode::PermissionDenied)), -1);
}

#[test]
fn status_codes_are_distinct_and_negative() {
    for (i, a) in ALL_KINDS.iter().enumerate() {
        assert!(a.native_code() < 0);
        for (j, b) in ALL_KINDS.iter().enumerate() {
            assert_eq!(i == j, a.native_code() == b.native_code());
        }
    }
}

#[test]
fn host_vtable_overrides_only_its_slots() {
    let t = BBinderVTable::binder_native_vtable();
    let words = t.to_words();
    assert_eq!(words.len(), 33);
    assert_eq!(words[0], Word::Offset(24));
    assert_eq!(words[1], Word::Offset(0));
    assert_eq!(words[2], Word::Rtti(0));
    assert_eq!(words[3], Word::Entry(Slot::Native(NativeFn::QueryLocalInterface)));
    assert_eq!(words[8], Word::Entry(Slot::Native(NativeFn::Transact)));
    assert_eq!(words[16], Word::Entry(Slot::Native(NativeFn::RemoteBinder)));
    assert_eq!(words[17], Word::Entry(Slot::CompleteDestructor));
    assert_eq!(words[18], Word::Entry(Slot::DeletingDestructor));
    assert_eq!(words[19], Word::Entry(Slot::OnTransact));
    assert_eq!(words[24], Word::Offset(-24));
    assert_eq!(words[25], Word::Offset(-24));
    assert_eq!(words[27], Word::Entry(Slot::CompleteDestructorThunk));
    assert_eq!(words[28], Word::Entry(Slot::DeletingDestructorThunk));
    assert_eq!(words[32], Word::Entry(Slot::Native(NativeFn::OnLastWeakRef)));
    assert_eq!(t.word_at(19), Some(Word::Entry(Slot::OnTransact)));
    assert_eq!(t.word_at(33), None);
}

#[test]
fn new_object_reaches_its_virtual_base_and_payload() {
    let (r, _, drops) = recorder(Ok(()));
    let obj = BinderNative::new(r);
    assert!(obj.is_alive());
    assert_eq!(obj.as_virtual_base(), 24);
    assert_eq!(obj.deref().answer, Ok(()));
    assert_eq!(obj.vtable_ref_base(), 27);
    drop(obj);
    assert_eq!(drops.get(), 1);
}

#[test]
fn intercepted_call_reaches_handler_with_its_arguments() {
    let (r, calls, _) = recorder(Ok(()));
    let obj = BinderNative::new(r);
    let mut reply = Vec::new();
    let status = obj.on_transact(7, &[1, 2, 3], &mut reply, 1);
    assert_eq!(status, 0);
    assert_eq!(reply, vec![1, 2, 3]);
    assert_eq!(calls.borrow().clone(), vec![(7, vec![1, 2, 3], 1)]);
}

#[test]
fn intercepted_failure_comes_back_as_native_status() {
    for kind in ALL_KINDS.iter() {
        let (r, calls, _) = recorder(Err(*kind));
        let obj = BinderNative::new(r);
        let mut reply = Vec::new();
        let status = obj.on_transact(42, &[9], &mut reply, 0);
        assert_eq!(status, kind.native_code());
        assert!(reply.is_empty());
        assert_eq!(calls.borrow().len(), 1);
    }
}

#[test]
fn object_destructors_drop_payload_once() {
    let (r, _, drops) = recorder(Ok(()));
    let mut obj = BinderNative::new(r);
    obj.complete_destructor();
    assert_eq!(drops.get(), 1);
    assert!(!obj.is_alive());
    drop(obj);
    assert_eq!(drops.get(), 1);

    let (r, _, drops) = recorder(Ok(()));
    let mut obj = BinderNative::new(r);
    obj.deleting_destructor();
    assert_eq!(drops.get(), 1);
    drop(obj);
    assert_eq!(drops.get(), 1);
}

#[test]
fn releasing_all_objects_drops_each_payload_once() {
    let mut space = ObjectSpace::new();
    let mut counters = Vec::new();
    let n: u64 = 64;
    for i in 0..n {
        let (r, _, drops) = recorder(Ok(()));
        space.construct(0x1000 + 64 * i, r);
        counters.push(drops);
    }
    for i in 0..n {
        let addr = 0x1000 + 64 * i;
        assert!(space.is_alive(addr));
        match i % 4 {
            0 => space.complete_destructor(addr),
            1 => space.deleting_destructor(addr),
            2 => space.complete_destructor_thunk(addr + 24),
            _ => space.deleting_destructor_thunk(addr + 24),
        }
        assert!(!space.is_alive(addr));
    }
    let total: usize = counters.iter().map(|c| c.get()).sum();
    assert_eq!(total, n as usize);
    for c in counters.iter() {
        assert_eq!(c.get(), 1);
    }
    drop(space);
    let total: usize = counters.iter().map(|c| c.get()).sum();
    assert_eq!(total, n as usize);
}

#[test]
fn thunk_through_virtual_base_destroys_only_that_object() {
    let mut space = ObjectSpace::new();
    let (a, _, drops_a) = recorder(Ok(()));
    let (b, _, drops_b) = recorder(Ok(()));
    space.construct(0x2000, a);
    space.construct(0x2028, b);
    space.deleting_destructor_thunk(0x2000 + 24);
    assert_eq!(drops_a.get(), 1);
    assert_eq!(drops_b.get(), 0);
    assert!(!space.is_alive(0x2000));
    assert!(space.is_alive(0x2028));
    space.complete_destructor_thunk(0x2028 + 24);
    assert_eq!(drops_b.get(), 1);
}

#[test]
fn calls_on_distinct_objects_keep_their_own_results() {
    let mut space = ObjectSpace::new();
    let mut logs = Vec::new();
    for i in 0..ALL_KINDS.len() {
        let (r, calls, _) = recorder(Err(ALL_KINDS[i]));
        space.construct(0x4000 + 48 * i as u64, r);
        logs.push(calls);
    }
    for i in 0..ALL_KINDS.len() {
        let mut reply = Vec::new();
        let status = space.on_transact(0x4000 + 48 * i as u64, i as u32, &[i as u8], &mut reply, 0);
        assert_eq!(status, ALL_KINDS[i].native_code());
    }
    for i in 0..ALL_KINDS.len() {
        assert_eq!(logs[i].borrow().clone(), vec![(i as u32, vec![i as u8], 0)]);
        assert!(space.is_alive(0x4000 + 48 * i as u64));
    }
}

#[test]
fn released_storage_holds_a_new_object() {
    let mut space = ObjectSpace::new();
    let (a, _, drops_a) = recorder(Ok(()));
    space.construct(0x3000, a);
    space.deleting_destructor(0x3000);
    assert_eq!(drops_a.get(), 1);
    assert!(!space.is_alive(0x3000));
    let (b, calls_b, drops_b) = recorder(Err(StatusCode::TimedOut));
    space.construct(0x3000, b);
    assert!(space.is_alive(0x3000));
    let mut reply = Vec::new();
    assert_eq!(space.on_transact(0x3000, 5, &[4], &mut reply, 0), -110);
    assert_eq!(calls_b.borrow().len(), 1);
    space.complete_destructor_thunk(0x3000 + 24);
    assert_eq!(drops_a.get(), 1);
    assert_eq!(drops_b.get(), 1);
    assert!(!space.is_alive(0x3000));
}

#[test]
fn payload_can_be_changed_in_place() {
    let (r, _, drops) = recorder(Ok(()));
    let mut obj = BinderNative::new(r);
    obj.deref_mut().answer = Err(StatusCode::NoMemory);
    let mut reply = Vec::new();
    assert_eq!(obj.on_transact(1, &[], &mut reply, 0), -12);
    assert!(obj.is_alive());
    assert!(!obj.is_storage_released());
    obj.deleting_destructor();
    assert!(obj.is_storage_released());
    assert_eq!(drops.get(), 1);
}
