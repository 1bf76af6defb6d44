use std::collections::HashMap;

use kv_store::buffer::SubSliceMut;
use kv_store::error::ErrorCode;
use kv_store::header::HEADER_LENGTH;
use kv_store::permissions::StoragePermissions;
use kv_store::store::{Completion, KVStore, Phase, Request, Step, StoreClient, KV};

/// An in-memory engine: the hashed key is the unhashed key reversed, and an
/// append onto a live key collides with `NoSupport`.
#[derive(Default)]
struct MemEngine {
    objects: HashMap<Vec<u8>, Vec<u8>>,
    invalidations: usize,
    calls: usize,
    refuse_reads: Option<ErrorCode>,
}

fn new_store() -> KVStore<Vec<u8>> {
    KVStore::new(Vec::new(), vec![0; HEADER_LENGTH])
}

fn key(k: &[u8]) -> SubSliceMut {
    SubSliceMut::new(k.to_vec())
}

fn payload_buf(p: &[u8]) -> SubSliceMut {
    let mut v = vec![0xEE; HEADER_LENGTH];
    v.extend_from_slice(p);
    SubSliceMut::new(v)
}

fn writer(id: u32) -> StoragePermissions {
    StoragePermissions::new(vec![id], vec![id], Some(id))
}

/// Runs one request to completion against the engine, feeding every
/// completion back to the store.
fn run(store: &mut KVStore<Vec<u8>>, engine: &mut MemEngine, first: Request<Vec<u8>>) -> Completion {
    let mut req = first;
    loop {
        engine.calls += 1;
        let step = match req {
            Request::GenerateKey { unhashed_key, mut hashed_key } => {
                hashed_key.clear();
                hashed_key.extend(unhashed_key.as_slice().iter().rev());
                store.generate_key_complete(Ok(()), unhashed_key, hashed_key)
            }
            Request::GetValue { key, mut value } => {
                if let Some(e) = engine.refuse_reads {
                    return store.get_value_rejected(key, value, e);
                }
                match engine.objects.get(&key) {
                    None => store.get_value_complete(Err(ErrorCode::NoSupport), key, value),
                    Some(stored) => {
                        let n = stored.len().min(value.len());
                        for i in 0..n {
                            value.set(i, stored[i]);
                        }
                        let result = if n < stored.len() {
                            Err(ErrorCode::Size)
                        } else {
                            value.slice_to(n);
                            Ok(())
                        };
                        store.get_value_complete(result, key, value)
                    }
                }
            }
            Request::AppendKey { key, value } => {
                if engine.objects.contains_key(&key) {
                    store.append_key_complete(Err(ErrorCode::NoSupport), key, value)
                } else {
                    engine.objects.insert(key.clone(), value.as_slice().to_vec());
                    store.append_key_complete(Ok(()), key, value)
                }
            }
            Request::InvalidateKey { key } => {
                engine.invalidations += 1;
                let result = match engine.objects.remove(&key) {
                    Some(_) => Ok(()),
                    None => Err(ErrorCode::NoSupport),
                };
                store.invalidate_key_complete(result, key)
            }
        };
        match step {
            Step::Submit(next) => req = next,
            Step::Done(c) => return c,
        }
    }
}

fn do_set(
    store: &mut KVStore<Vec<u8>>,
    engine: &mut MemEngine,
    k: &[u8],
    p: &[u8],
    perms: StoragePermissions,
) -> Result<(), ErrorCode> {
    let req = match store.set(key(k), payload_buf(p), perms) {
        Ok(r) => r,
        Err((_, _, e)) => return Err(e),
    };
    match run(store, engine, req) {
        Completion::SetComplete { result, unhashed_key, value } => {
            assert_eq!(unhashed_key.as_slice(), k);
            assert_eq!(value.take().len(), HEADER_LENGTH + p.len());
            result
        }
        _ => panic!("a set must end with a set completion"),
    }
}

fn do_get(
    store: &mut KVStore<Vec<u8>>,
    engine: &mut MemEngine,
    k: &[u8],
    cap: usize,
    perms: StoragePermissions,
) -> (Result<(), ErrorCode>, SubSliceMut) {
    let req = match store.get(key(k), SubSliceMut::new(vec![0x55; cap]), perms) {
        Ok(r) => r,
        Err(_) => panic!("the store should be idle"),
    };
    match run(store, engine, req) {
        Completion::GetComplete { result, unhashed_key, value } => {
            assert_eq!(unhashed_key.as_slice(), k);
            (result, value)
        }
        _ => panic!("a get must end with a get completion"),
    }
}

fn do_delete(
    store: &mut KVStore<Vec<u8>>,
    engine: &mut MemEngine,
    k: &[u8],
    perms: StoragePermissions,
) -> Result<(), ErrorCode> {
    let req = match store.delete(key(k), perms) {
        Ok(r) => r,
        Err(_) => panic!("the store should be idle"),
    };
    match run(store, engine, req) {
        Completion::DeleteComplete { result, unhashed_key } => {
            assert_eq!(unhashed_key.as_slice(), k);
            result
        }
        _ => panic!("a delete must end with a delete completion"),
    }
}

#[test]
fn set_then_get_returns_payload() {
    let mut store = new_store();
    let mut engine = MemEngine::default();
    assert_eq!(do_set(&mut store, &mut engine, b"k", b"hello", writer(7)), Ok(()));
    let stored = engine.objects.get(&b"k".to_vec()).unwrap().clone();
    assert_eq!(stored, vec![0, 5, 0, 0, 0, 7, 0, 0, 0, b'h', b'e', b'l', b'l', b'o']);
    let (result, value) = do_get(&mut store, &mut engine, b"k", 14, writer(7));
    assert_eq!(result, Ok(()));
    assert_eq!(value.as_slice(), b"hello");
    assert_eq!(store.pending(), Phase::Idle);
}

#[test]
fn get_with_small_buffer_reports_size() {
    let mut store = new_store();
    let mut engine = MemEngine::default();
    do_set(&mut store, &mut engine, b"k", b"hello", writer(7)).unwrap();
    let (result, value) = do_get(&mut store, &mut engine, b"k", 11, writer(7));
    assert_eq!(result, Err(ErrorCode::Size));
    assert_eq!(value.as_slice(), b"he");
}

#[test]
fn get_missing_key_is_masked() {
    let mut store = new_store();
    let mut engine = MemEngine::default();
    let (result, value) = do_get(&mut store, &mut engine, b"nope", 16, writer(1));
    assert_eq!(result, Err(ErrorCode::NoSupport));
    assert_eq!(value.take(), vec![0; 16]);
}

#[test]
fn get_without_read_access_is_masked() {
    let mut store = new_store();
    let mut engine = MemEngine::default();
    do_set(&mut store, &mut engine, b"k", b"secret", writer(1)).unwrap();
    let (result, value) = do_get(&mut store, &mut engine, b"k", 15, writer(2));
    assert_eq!(result, Err(ErrorCode::NoSupport));
    assert_eq!(value.take(), vec![0; 15]);
}

#[test]
fn get_with_unknown_version_is_masked() {
    let mut store = new_store();
    let mut engine = MemEngine::default();
    engine.objects.insert(b"k".to_vec(), vec![1, 2, 0, 0, 0, 3, 0, 0, 0, 8, 9]);
    let (result, value) = do_get(&mut store, &mut engine, b"k", 11, writer(3));
    assert_eq!(result, Err(ErrorCode::NoSupport));
    assert_eq!(value.take(), vec![0; 11]);
}

#[test]
fn get_shorter_than_header_is_masked() {
    let mut store = new_store();
    let mut engine = MemEngine::default();
    do_set(&mut store, &mut engine, b"k", b"abc", writer(3)).unwrap();
    let (result, value) = do_get(&mut store, &mut engine, b"k", 4, writer(3));
    assert_eq!(result, Err(ErrorCode::NoSupport));
    assert_eq!(value.take(), vec![0; 4]);
}

#[test]
fn set_without_write_id_is_invalid() {
    let mut store = new_store();
    let perms = StoragePermissions::new(vec![1], vec![1], None);
    match store.set(key(b"k"), payload_buf(b"x"), perms) {
        Err((k, v, e)) => {
            assert_eq!(e, ErrorCode::Inval);
            assert_eq!(k.as_slice(), b"k");
            assert_eq!(v.len(), HEADER_LENGTH + 1);
        }
        Ok(_) => panic!("no engine call may be made"),
    }
    assert_eq!(store.pending(), Phase::Idle);
}

#[test]
fn set_on_short_buffer_is_size_error() {
    let mut store = new_store();
    let original = vec![1u8, 2, 3, 4, 5, 6, 7, 8];
    match store.set(key(b"k"), SubSliceMut::new(original.clone()), writer(1)) {
        Err((k, v, e)) => {
            assert_eq!(e, ErrorCode::Size);
            assert_eq!(k.as_slice(), b"k");
            assert_eq!(v.take(), original);
        }
        Ok(_) => panic!("no engine call may be made"),
    }
    assert_eq!(store.pending(), Phase::Idle);
}

#[test]
fn second_operation_is_busy() {
    let mut store = new_store();
    let first = store.get(key(b"a"), SubSliceMut::new(vec![0; 10]), writer(1));
    assert!(first.is_ok());
    assert_eq!(store.pending(), Phase::GetHashing);
    match store.get(key(b"b"), SubSliceMut::new(vec![1; 3]), writer(1)) {
        Err((k, v, e)) => {
            assert_eq!(e, ErrorCode::Busy);
            assert_eq!(k.as_slice(), b"b");
            assert_eq!(v.as_slice(), &[1, 1, 1]);
        }
        Ok(_) => panic!("busy"),
    }
    match store.set(key(b"c"), payload_buf(b"z"), writer(1)) {
        Err((_, _, e)) => assert_eq!(e, ErrorCode::Busy),
        Ok(_) => panic!("busy"),
    }
    match store.delete(key(b"d"), writer(1)) {
        Err((k, e)) => {
            assert_eq!(e, ErrorCode::Busy);
            assert_eq!(k.as_slice(), b"d");
        }
        Ok(_) => panic!("busy"),
    }
    assert_eq!(store.pending(), Phase::GetHashing);
}

#[test]
fn set_over_foreign_object_fails_and_keeps_it() {
    let mut store = new_store();
    let mut engine = MemEngine::default();
    do_set(&mut store, &mut engine, b"k", b"mine", writer(2)).unwrap();
    let r = do_set(&mut store, &mut engine, b"k", b"theirs", writer(1));
    assert_eq!(r, Err(ErrorCode::Fail));
    assert_eq!(engine.invalidations, 0);
    let (result, value) = do_get(&mut store, &mut engine, b"k", 13, writer(2));
    assert_eq!(result, Ok(()));
    assert_eq!(value.as_slice(), b"mine");
}

#[test]
fn set_over_own_object_replaces_it() {
    let mut store = new_store();
    let mut engine = MemEngine::default();
    do_set(&mut store, &mut engine, b"k", b"old", writer(4)).unwrap();
    assert_eq!(do_set(&mut store, &mut engine, b"k", b"newer", writer(4)), Ok(()));
    assert_eq!(engine.invalidations, 1);
    let (result, value) = do_get(&mut store, &mut engine, b"k", 14, writer(4));
    assert_eq!(result, Ok(()));
    assert_eq!(value.as_slice(), b"newer");
}

#[test]
fn delete_missing_key_fails_without_invalidate() {
    let mut store = new_store();
    let mut engine = MemEngine::default();
    assert_eq!(do_delete(&mut store, &mut engine, b"k", writer(1)), Err(ErrorCode::Fail));
    assert_eq!(engine.invalidations, 0);
}

#[test]
fn delete_foreign_object_fails_without_invalidate() {
    let mut store = new_store();
    let mut engine = MemEngine::default();
    do_set(&mut store, &mut engine, b"k", b"v", writer(1)).unwrap();
    assert_eq!(do_delete(&mut store, &mut engine, b"k", writer(2)), Err(ErrorCode::Fail));
    assert_eq!(engine.invalidations, 0);
    assert!(engine.objects.contains_key(&b"k".to_vec()));
}

#[test]
fn delete_own_object_removes_it() {
    let mut store = new_store();
    let mut engine = MemEngine::default();
    do_set(&mut store, &mut engine, b"k", b"v", writer(1)).unwrap();
    assert_eq!(do_delete(&mut store, &mut engine, b"k", writer(1)), Ok(()));
    assert_eq!(engine.invalidations, 1);
    let (result, _) = do_get(&mut store, &mut engine, b"k", 10, writer(1));
    assert_eq!(result, Err(ErrorCode::NoSupport));
}

#[test]
fn hashing_error_ends_operation() {
    let mut store = new_store();
    let req = store.get(key(b"k"), SubSliceMut::new(vec![3; 4]), writer(1)).ok().unwrap();
    let (k, h) = match req {
        Request::GenerateKey { unhashed_key, hashed_key } => (unhashed_key, hashed_key),
        _ => panic!("first request hashes the key"),
    };
    match store.generate_key_complete(Err(ErrorCode::NoMem), k, h) {
        Step::Done(Completion::GetComplete { result, unhashed_key, value }) => {
            assert_eq!(result, Err(ErrorCode::NoMem));
            assert_eq!(unhashed_key.as_slice(), b"k");
            assert_eq!(value.as_slice(), &[3, 3, 3, 3]);
        }
        _ => panic!("a hashing error is terminal"),
    }
    assert_eq!(store.pending(), Phase::Idle);
}

#[test]
fn hashing_refused_reports_through_completion() {
    let mut store = new_store();
    let req = store.delete(key(b"k"), writer(1)).ok().unwrap();
    let (k, h) = match req {
        Request::GenerateKey { unhashed_key, hashed_key } => (unhashed_key, hashed_key),
        _ => panic!("first request hashes the key"),
    };
    match store.generate_key_rejected(k, h, ErrorCode::Off) {
        Completion::DeleteComplete { result, unhashed_key } => {
            assert_eq!(result, Err(ErrorCode::Off));
            assert_eq!(unhashed_key.as_slice(), b"k");
        }
        _ => panic!("a delete ends with a delete completion"),
    }
    assert_eq!(store.pending(), Phase::Idle);
}

#[test]
fn collision_read_refused_reports_collision() {
    let mut store = new_store();
    let mut engine = MemEngine::default();
    do_set(&mut store, &mut engine, b"k", b"a", writer(1)).unwrap();
    engine.refuse_reads = Some(ErrorCode::Busy);
    assert_eq!(do_set(&mut store, &mut engine, b"k", b"b", writer(1)), Err(ErrorCode::NoSupport));
    assert_eq!(store.pending(), Phase::Idle);
}

#[test]
fn append_error_passes_through() {
    let mut store = new_store();
    let req = store.set(key(b"k"), payload_buf(b"p"), writer(1)).ok().unwrap();
    let (k, h) = match req {
        Request::GenerateKey { unhashed_key, hashed_key } => (unhashed_key, hashed_key),
        _ => panic!("first request hashes the key"),
    };
    let (hk, v) = match store.generate_key_complete(Ok(()), k, h) {
        Step::Submit(Request::AppendKey { key, value }) => (key, value),
        _ => panic!("a set appends after hashing"),
    };
    match store.append_key_complete(Err(ErrorCode::NoMem), hk, v) {
        Step::Done(Completion::SetComplete { result, .. }) => {
            assert_eq!(result, Err(ErrorCode::NoMem))
        }
        _ => panic!("an append error other than a collision is terminal"),
    }
}

#[test]
fn failed_invalidate_during_set_reports_no_support() {
    let mut store = new_store();
    let mut engine = MemEngine::default();
    do_set(&mut store, &mut engine, b"k", b"a", writer(1)).unwrap();
    let req = store.set(key(b"k"), payload_buf(b"b"), writer(1)).ok().unwrap();
    let mut step = Step::Submit(req);
    loop {
        step = match step {
            Step::Submit(Request::GenerateKey { unhashed_key, mut hashed_key }) => {
                hashed_key.clear();
                hashed_key.extend(unhashed_key.as_slice().iter().rev());
                store.generate_key_complete(Ok(()), unhashed_key, hashed_key)
            }
            Step::Submit(Request::AppendKey { key, value }) => {
                store.append_key_complete(Err(ErrorCode::NoSupport), key, value)
            }
            Step::Submit(Request::GetValue { key, mut value }) => {
                let stored = engine.objects.get(&key).unwrap().clone();
                for i in 0..value.len() {
                    value.set(i, stored[i]);
                }
                store.get_value_complete(Err(ErrorCode::Size), key, value)
            }
            Step::Submit(Request::InvalidateKey { key }) => {
                store.invalidate_key_complete(Err(ErrorCode::Fail), key)
            }
            Step::Done(Completion::SetComplete { result, .. }) => {
                assert_eq!(result, Err(ErrorCode::NoSupport));
                break;
            }
            Step::Done(_) => panic!("a set ends with a set completion"),
        };
    }
    assert_eq!(store.pending(), Phase::Idle);
}

#[test]
fn header_size_is_nine() {
    let store = new_store();
    assert_eq!(store.header_size(), 9);
    assert_eq!(KV::header_size(&store), 9);
}

struct Recorder {
    seen: std::cell::RefCell<Vec<(u8, Result<(), ErrorCode>, usize)>>,
}

impl StoreClient for Recorder {
    fn get_complete(&self, result: Result<(), ErrorCode>, k: SubSliceMut, _v: SubSliceMut) {
        self.seen.borrow_mut().push((0, result, k.len()));
    }
    fn set_complete(&self, result: Result<(), ErrorCode>, k: SubSliceMut, _v: SubSliceMut) {
        self.seen.borrow_mut().push((1, result, k.len()));
    }
    fn delete_complete(&self, result: Result<(), ErrorCode>, k: SubSliceMut) {
        self.seen.borrow_mut().push((2, result, k.len()));
    }
}

#[test]
fn completion_reaches_matching_callback() {
    let client = Recorder { seen: std::cell::RefCell::new(Vec::new()) };
    let mut store = new_store();
    let mut engine = MemEngine::default();
    let req = store.delete(key(b"abc"), writer(1)).ok().unwrap();
    run(&mut store, &mut engine, req).deliver(&client);
    assert_eq!(client.seen.borrow().as_slice(), &[(2, Err(ErrorCode::Fail), 3)]);
}

#[test]
fn garbage_collection_changes_nothing() {
    let mut store = new_store();
    store.garbage_collect_complete(Ok(()));
    assert_eq!(store.pending(), Phase::Idle);
}

#[test]
fn denied_get_keeps_the_returned_window() {
    let mut store = new_store();
    let req = store.get(key(b"k"), SubSliceMut::new(vec![7; 10]), writer(1)).ok().unwrap();
    let (k, h) = match req {
        Request::GenerateKey { unhashed_key, hashed_key } => (unhashed_key, hashed_key),
        _ => panic!("first request hashes the key"),
    };
    let (hk, mut v) = match store.generate_key_complete(Ok(()), k, h) {
        Step::Submit(Request::GetValue { key, value }) => (key, value),
        _ => panic!("a get reads after hashing"),
    };
    v.slice_to(9);
    match store.get_value_complete(Err(ErrorCode::Fail), hk, v) {
        Step::Done(Completion::GetComplete { result, value, .. }) => {
            assert_eq!(result, Err(ErrorCode::NoSupport));
            assert_eq!(value.len(), 9);
            assert_eq!(value.as_slice(), &[0; 9]);
            assert_eq!(value.take(), vec![0; 10]);
        }
        _ => panic!("a read completion ends a get"),
    }
}

#[test]
fn granted_get_narrows_past_the_header() {
    let mut store = new_store();
    let mut engine = MemEngine::default();
    do_set(&mut store, &mut engine, b"k", b"xy", writer(5)).unwrap();
    let (result, mut value) = do_get(&mut store, &mut engine, b"k", 11, writer(5));
    assert_eq!(result, Ok(()));
    assert_eq!(value.as_slice(), b"xy");
    value.reset();
    assert_eq!(value.as_slice(), &[0, 2, 0, 0, 0, 5, 0, 0, 0, b'x', b'y']);
}
