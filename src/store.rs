use vstd::prelude::*;

use crate::buffer::SubSliceMut;
use crate::error::ErrorCode;
use crate::header::{
    decode_header, encode_header, lemma_header_round_trip, KeyHeader, HEADER_LENGTH, HEADER_VERSION,
};
use crate::permissions::StoragePermissions;

verus! {

/// Which engine request an operation is waiting on, or `Idle` when no
/// operation is in flight.
#[derive(Clone, Copy, Debug, PartialEq, Eq, Structural)]
pub enum Phase {
    Idle,
    /// Get: the engine is hashing the caller's key.
    GetHashing,
    /// Get: the engine is reading the value into the caller's buffer.
    GetReading,
    /// Set: the engine is hashing the caller's key.
    SetHashing,
    /// Set: the engine is appending the new object.
    SetAppending,
    /// Set: the append collided; the engine is reading the existing header.
    SetCollisionRead,
    /// Set: the engine is invalidating the existing object.
    SetInvalidating,
    /// Delete: the engine is hashing the caller's key.
    DeleteHashing,
    /// Delete: the engine is reading the existing header.
    DeleteReading,
    /// Delete: the engine is invalidating the object.
    DeleteInvalidating,
}

/// A request for the storage engine, carrying every buffer the engine
/// borrows until it completes.
pub enum Request<T> {
    GenerateKey { unhashed_key: SubSliceMut, hashed_key: T },
    GetValue { key: T, value: SubSliceMut },
    AppendKey { key: T, value: SubSliceMut },
    InvalidateKey { key: T },
}

/// The terminal outcome of an operation, carrying back every buffer the
/// caller supplied for it.
pub enum Completion {
    GetComplete { result: Result<(), ErrorCode>, unhashed_key: SubSliceMut, value: SubSliceMut },
    SetComplete { result: Result<(), ErrorCode>, unhashed_key: SubSliceMut, value: SubSliceMut },
    DeleteComplete { result: Result<(), ErrorCode>, unhashed_key: SubSliceMut },
}

/// What the store wants done after a transition: submit a request to the
/// engine, or deliver a completion to the client.
pub enum Step<T> {
    Submit(Request<T>),
    Done(Completion),
}

/// Receives the terminal outcome of each operation, with every buffer the
/// caller supplied for it.
pub trait StoreClient {
    /// A Get ended with `result`; `value` holds the payload where it
    /// succeeded.
    fn get_complete(&self, result: Result<(), ErrorCode>, unhashed_key: SubSliceMut, value: SubSliceMut);

    /// A Set ended with `result`.
    fn set_complete(&self, result: Result<(), ErrorCode>, unhashed_key: SubSliceMut, value: SubSliceMut);

    /// A Delete ended with `result`.
    fn delete_complete(&self, result: Result<(), ErrorCode>, unhashed_key: SubSliceMut);
}

impl Completion {
    /// Hands this outcome and its buffers to the matching callback of
    /// `client`.
    pub fn deliver<C: StoreClient>(self, client: &C) {
        match self {
            Completion::GetComplete { result, unhashed_key, value } => {
                client.get_complete(result, unhashed_key, value)
            },
            Completion::SetComplete { result, unhashed_key, value } => {
                client.set_complete(result, unhashed_key, value)
            },
            Completion::DeleteComplete { result, unhashed_key } => {
                client.delete_complete(result, unhashed_key)
            },
        }
    }
}

/// Whether an engine result counts as a usable read of a header: a success,
/// or a read truncated because the buffer was too small.
pub open spec fn read_usable(result: Result<(), ErrorCode>) -> bool {
    result is Ok || result == Err::<(), ErrorCode>(ErrorCode::Size)
}

/// Whether `bytes` hold a header that this store recognises.
pub open spec fn header_valid(bytes: Seq<u8>) -> bool {
    bytes.len() >= HEADER_LENGTH && decode_header(bytes).version == HEADER_VERSION
}

/// Whether a read that ended with `result` and returned `bytes` may be shown
/// to a caller holding `perms`.
pub open spec fn read_granted(
    result: Result<(), ErrorCode>,
    bytes: Seq<u8>,
    perms: StoragePermissions,
) -> bool {
    read_usable(result) && header_valid(bytes) && perms.can_read(decode_header(bytes).write_id)
}

/// Whether the object whose header read ended with `result` and returned
/// `bytes` may be overwritten or deleted by a caller holding `perms`.
pub open spec fn write_granted(
    result: Result<(), ErrorCode>,
    bytes: Seq<u8>,
    perms: StoragePermissions,
) -> bool {
    read_usable(result) && header_valid(bytes) && perms.can_write(decode_header(bytes).write_id)
}

/// The header a Set writes in front of a payload, for a value window of
/// `window_len` bytes created by `owner`.
pub open spec fn new_header(window_len: nat, owner: u32) -> KeyHeader {
    KeyHeader {
        version: HEADER_VERSION,
        length: (window_len - HEADER_LENGTH) as u32,
        write_id: owner,
    }
}

/// The bytes a Set stores for the value window `window` created by `owner`:
/// the header in place of the first `HEADER_LENGTH` bytes, then the payload.
pub open spec fn stored_image(window: Seq<u8>, owner: u32) -> Seq<u8> {
    encode_header(new_header(window.len(), owner)) + window.subrange(
        HEADER_LENGTH as int,
        window.len() as int,
    )
}

/// `n` zero bytes.
pub open spec fn zeros(n: nat) -> Seq<u8> {
    Seq::new(n, |_i: int| 0u8)
}

/// What a Get delivers when the engine read ended with `result` into `ret`:
/// the payload behind the header with the engine's result where the read is
/// granted, and otherwise the same window with every byte zero (and every
/// byte outside it too) with `NoSupport`, so that absence and denial look the
/// same.
pub open spec fn get_delivery(
    result: Result<(), ErrorCode>,
    ret: SubSliceMut,
    perms: StoragePermissions,
    out_result: Result<(), ErrorCode>,
    out: SubSliceMut,
) -> bool {
    &&& out.wf()
    &&& if read_granted(result, ret@, perms) {
        &&& out_result == result
        &&& out.underlying() == ret.underlying()
        &&& out.window_start() == ret.window_start() + HEADER_LENGTH
        &&& out@ == ret@.subrange(HEADER_LENGTH as int, ret@.len() as int)
    } else {
        &&& out_result == Err::<(), ErrorCode>(ErrorCode::NoSupport)
        &&& out.underlying() == zeros(ret.underlying().len())
        &&& out.window_start() == ret.window_start()
        &&& out@ == zeros(ret@.len())
    }
}

/// A key-value store with per-object ownership, driven one operation at a
/// time over a hashed storage engine.
///
/// `T` is the engine's hashed-key buffer. The store owns one of them and one
/// header-sized scratch buffer for its whole life, and lends them to the
/// engine while a request is outstanding.
pub struct KVStore<T> {
    hashed_key: Option<T>,
    header_value: Option<Vec<u8>>,
    phase: Phase,
    unhashed_key: Option<SubSliceMut>,
    value: Option<SubSliceMut>,
    valid_ids: Option<StoragePermissions>,
}

impl<T> KVStore<T> {
    /// The request the store is waiting on.
    pub closed spec fn phase(&self) -> Phase {
        self.phase
    }

    /// The credentials of the operation in flight.
    pub closed spec fn perms(&self) -> Option<StoragePermissions> {
        self.valid_ids
    }

    /// The caller's unhashed key, while the store holds it.
    pub closed spec fn held_key(&self) -> Option<SubSliceMut> {
        self.unhashed_key
    }

    /// The caller's value buffer, while the store holds it.
    pub closed spec fn held_value(&self) -> Option<SubSliceMut> {
        self.value
    }

    /// The hashed-key buffer, while it is not lent to the engine.
    pub closed spec fn hashed(&self) -> Option<T> {
        self.hashed_key
    }

    /// The header scratch buffer, while it is not lent to the engine.
    pub closed spec fn scratch(&self) -> Option<Vec<u8>> {
        self.header_value
    }

    /// Each buffer is in the store exactly when the phase says it is not
    /// lent to the engine, and an operation in flight has its credentials.
    pub closed spec fn wf(&self) -> bool {
        let (h, s, k, v) = match self.phase {
            Phase::Idle => (true, true, false, false),
            Phase::GetHashing => (false, true, false, true),
            Phase::GetReading => (false, true, true, false),
            Phase::SetHashing => (false, true, false, true),
            Phase::SetAppending => (false, true, true, false),
            Phase::SetCollisionRead => (false, false, true, true),
            Phase::SetInvalidating => (false, true, true, true),
            Phase::DeleteHashing => (false, true, false, false),
            Phase::DeleteReading => (false, false, true, false),
            Phase::DeleteInvalidating => (false, true, true, false),
        };
        &&& self.hashed_key.is_some() == h
        &&& self.header_value.is_some() == s
        &&& self.unhashed_key.is_some() == k
        &&& self.value.is_some() == v
        &&& self.valid_ids.is_some() == (self.phase != Phase::Idle)
    }
}

/// Whether the header at the front of `bytes`, read with outcome `result`,
/// grants the caller holding `perms` write access (`write`) or read access.
fn header_grants(
    result: &Result<(), ErrorCode>,
    bytes: &SubSliceMut,
    perms: &StoragePermissions,
    write: bool,
) -> (r: bool)
    requires
        bytes.wf(),
    ensures
        r == if write {
            write_granted(*result, bytes@, *perms)
        } else {
            read_granted(*result, bytes@, *perms)
        },
{
    let usable = match result {
        Ok(()) => true,
        Err(ErrorCode::Size) => true,
        Err(_) => false,
    };
    if !usable || bytes.len() < HEADER_LENGTH {
        return false;
    }
    let header = KeyHeader::new_from_buf(bytes.as_slice());
    if header.version != HEADER_VERSION {
        return false;
    }
    if write {
        perms.check_write_permission(header.write_id)
    } else {
        perms.check_read_permission(header.write_id)
    }
}

impl<T> KVStore<T> {
    /// Handles the engine's completion of a read into `ret_buf`.
    ///
    /// For a Get this ends the operation, delivering the payload behind the
    /// header where the read is granted and a zeroed buffer with `NoSupport`
    /// otherwise. For a Set that collided, or a Delete, it invalidates the
    /// existing object where the caller may write it, and otherwise ends the
    /// operation with `Fail` without touching the object.
    pub fn get_value_complete(
        &mut self,
        result: Result<(), ErrorCode>,
        key: T,
        ret_buf: SubSliceMut,
    ) -> (r: Step<T>)
        requires
            old(self).wf(),
            ret_buf.wf(),
            old(self).phase() == Phase::GetReading || old(self).phase() == Phase::SetCollisionRead
                || old(self).phase() == Phase::DeleteReading,
        ensures
            final(self).wf(),
            old(self).phase() == Phase::GetReading ==> {
                &&& final(self).phase() == Phase::Idle
                &&& final(self).hashed() == Some(key)
                &&& final(self).scratch() == old(self).scratch()
                &&& match r {
                    Step::Done(Completion::GetComplete { result: res, unhashed_key, value }) => {
                        &&& unhashed_key == old(self).held_key().unwrap()
                        &&& get_delivery(result, ret_buf, old(self).perms().unwrap(), res, value)
                    },
                    _ => false,
                }
            },
            old(self).phase() != Phase::GetReading ==> {
                &&& final(self).scratch() is Some
                &&& final(self).scratch().unwrap()@ == ret_buf.underlying()
            },
            old(self).phase() == Phase::SetCollisionRead && write_granted(
                result,
                ret_buf@,
                old(self).perms().unwrap(),
            ) ==> {
                &&& r == Step::Submit(Request::InvalidateKey { key })
                &&& final(self).phase() == Phase::SetInvalidating
                &&& final(self).held_key() == old(self).held_key()
                &&& final(self).held_value() == old(self).held_value()
                &&& final(self).perms() == old(self).perms()
            },
            old(self).phase() == Phase::SetCollisionRead && !write_granted(
                result,
                ret_buf@,
                old(self).perms().unwrap(),
            ) ==> {
                &&& r == Step::<T>::Done(
                    (Completion::SetComplete {
                        result: Err(ErrorCode::Fail),
                        unhashed_key: old(self).held_key().unwrap(),
                        value: old(self).held_value().unwrap(),
                    }),
                )
                &&& final(self).phase() == Phase::Idle
                &&& final(self).hashed() == Some(key)
            },
            old(self).phase() == Phase::DeleteReading && write_granted(
                result,
                ret_buf@,
                old(self).perms().unwrap(),
            ) ==> {
                &&& r == Step::Submit(Request::InvalidateKey { key })
                &&& final(self).phase() == Phase::DeleteInvalidating
                &&& final(self).held_key() == old(self).held_key()
                &&& final(self).perms() == old(self).perms()
            },
            old(self).phase() == Phase::DeleteReading && !write_granted(
                result,
                ret_buf@,
                old(self).perms().unwrap(),
            ) ==> {
                &&& r == Step::<T>::Done(
                    (Completion::DeleteComplete {
                        result: Err(ErrorCode::Fail),
                        unhashed_key: old(self).held_key().unwrap(),
                    }),
                )
                &&& final(self).phase() == Phase::Idle
                &&& final(self).hashed() == Some(key)
            },
    {
        match self.phase {
            Phase::GetReading => {
                self.hashed_key = Some(key);
                self.phase = Phase::Idle;
                let perms = self.valid_ids.take().unwrap();
                let allowed = header_grants(&result, &ret_buf, &perms, false);
                let mut out = ret_buf;
                let out_result;
                if allowed {
                    out.slice_from(HEADER_LENGTH);
                    out_result = result;
                } else {
                    out.zero_all();
                    out_result = Err(ErrorCode::NoSupport);
                }
                let unhashed_key = self.unhashed_key.take().unwrap();
                Step::Done(Completion::GetComplete { result: out_result, unhashed_key, value: out })
            },
            _ => {
                let is_set = match self.phase {
                    Phase::SetCollisionRead => true,
                    _ => false,
                };
                let allowed = match &self.valid_ids {
                    Some(perms) => header_grants(&result, &ret_buf, perms, true),
                    None => false,
                };
                self.header_value = Some(ret_buf.take());
                if allowed {
                    self.phase = if is_set {
                        Phase::SetInvalidating
                    } else {
                        Phase::DeleteInvalidating
                    };
                    Step::Submit(Request::InvalidateKey { key })
                } else {
                    self.hashed_key = Some(key);
                    self.phase = Phase::Idle;
                    self.valid_ids = None;
                    let unhashed_key = self.unhashed_key.take().unwrap();
                    if is_set {
                        let value = self.value.take().unwrap();
                        Step::Done(
                            Completion::SetComplete {
                                result: Err(ErrorCode::Fail),
                                unhashed_key,
                                value,
                            },
                        )
                    } else {
                        Step::Done(
                            Completion::DeleteComplete { result: Err(ErrorCode::Fail), unhashed_key },
                        )
                    }
                }
            },
        }
    }
}

impl<T> KVStore<T> {
    /// Whether the store is waiting for the engine to hash a key.
    pub open spec fn hashing(&self) -> bool {
        self.phase() == Phase::GetHashing || self.phase() == Phase::SetHashing || self.phase()
            == Phase::DeleteHashing
    }

    /// Handles the engine's completion of hashing `unhashed_key` into
    /// `hashed_key`.
    ///
    /// On an error the operation ends with that error. Otherwise a Get reads
    /// the value into the caller's buffer, a Set appends the caller's buffer,
    /// and a Delete reads the existing header into the scratch buffer.
    pub fn generate_key_complete(
        &mut self,
        result: Result<(), ErrorCode>,
        unhashed_key: SubSliceMut,
        hashed_key: T,
    ) -> (r: Step<T>)
        requires
            old(self).wf(),
            old(self).hashing(),
        ensures
            final(self).wf(),
            final(self).scratch() == old(self).scratch() || (old(self).phase() == Phase::DeleteHashing
                && result is Ok && final(self).scratch() is None),
            result is Err ==> {
                &&& final(self).phase() == Phase::Idle
                &&& final(self).hashed() == Some(hashed_key)
                &&& r == Step::<T>::Done(
                    match old(self).phase() {
                        Phase::GetHashing => Completion::GetComplete {
                            result,
                            unhashed_key,
                            value: old(self).held_value().unwrap(),
                        },
                        Phase::SetHashing => Completion::SetComplete {
                            result,
                            unhashed_key,
                            value: old(self).held_value().unwrap(),
                        },
                        _ => Completion::DeleteComplete { result, unhashed_key },
                    },
                )
            },
            result is Ok ==> {
                &&& final(self).held_key() == Some(unhashed_key)
                &&& final(self).perms() == old(self).perms()
                &&& final(self).held_value() == None::<SubSliceMut>
            },
            result is Ok && old(self).phase() == Phase::GetHashing ==> {
                &&& final(self).phase() == Phase::GetReading
                &&& r == Step::Submit(
                    Request::GetValue { key: hashed_key, value: old(self).held_value().unwrap() },
                )
            },
            result is Ok && old(self).phase() == Phase::SetHashing ==> {
                &&& final(self).phase() == Phase::SetAppending
                &&& r == Step::Submit(
                    Request::AppendKey { key: hashed_key, value: old(self).held_value().unwrap() },
                )
            },
            result is Ok && old(self).phase() == Phase::DeleteHashing ==> {
                &&& final(self).phase() == Phase::DeleteReading
                &&& match r {
                    Step::Submit(Request::GetValue { key, value }) => {
                        &&& key == hashed_key
                        &&& value.wf()
                        &&& value@ == old(self).scratch().unwrap()@
                        &&& value.underlying() == old(self).scratch().unwrap()@
                    },
                    _ => false,
                }
            },
    {
        let phase = self.phase;
        if result.is_err() {
            self.hashed_key = Some(hashed_key);
            self.phase = Phase::Idle;
            self.valid_ids = None;
            match phase {
                Phase::GetHashing => {
                    let value = self.value.take().unwrap();
                    Step::Done(Completion::GetComplete { result, unhashed_key, value })
                },
                Phase::SetHashing => {
                    let value = self.value.take().unwrap();
                    Step::Done(Completion::SetComplete { result, unhashed_key, value })
                },
                _ => Step::Done(Completion::DeleteComplete { result, unhashed_key }),
            }
        } else {
            self.unhashed_key = Some(unhashed_key);
            match phase {
                Phase::GetHashing => {
                    let value = self.value.take().unwrap();
                    self.phase = Phase::GetReading;
                    Step::Submit(Request::GetValue { key: hashed_key, value })
                },
                Phase::SetHashing => {
                    let value = self.value.take().unwrap();
                    self.phase = Phase::SetAppending;
                    Step::Submit(Request::AppendKey { key: hashed_key, value })
                },
                _ => {
                    let scratch = self.header_value.take().unwrap();
                    self.phase = Phase::DeleteReading;
                    Step::Submit(
                        Request::GetValue { key: hashed_key, value: SubSliceMut::new(scratch) },
                    )
                },
            }
        }
    }
}

impl<T> KVStore<T> {
    /// Handles the engine's completion of invalidating the object under
    /// `key`.
    ///
    /// A Delete ends with the engine's result as it is. A Set appends its
    /// value again where the old object is gone, and otherwise ends with
    /// `NoSupport`.
    pub fn invalidate_key_complete(&mut self, result: Result<(), ErrorCode>, key: T) -> (r: Step<
        T,
    >)
        requires
            old(self).wf(),
            old(self).phase() == Phase::SetInvalidating || old(self).phase()
                == Phase::DeleteInvalidating,
        ensures
            final(self).wf(),
            final(self).scratch() == old(self).scratch(),
            old(self).phase() == Phase::DeleteInvalidating ==> {
                &&& r == Step::<T>::Done(
                    (Completion::DeleteComplete {
                        result,
                        unhashed_key: old(self).held_key().unwrap(),
                    }),
                )
                &&& final(self).phase() == Phase::Idle
                &&& final(self).hashed() == Some(key)
            },
            old(self).phase() == Phase::SetInvalidating && result is Ok ==> {
                &&& r == Step::Submit(
                    Request::AppendKey { key, value: old(self).held_value().unwrap() },
                )
                &&& final(self).phase() == Phase::SetAppending
                &&& final(self).held_key() == old(self).held_key()
                &&& final(self).perms() == old(self).perms()
            },
            old(self).phase() == Phase::SetInvalidating && result is Err ==> {
                &&& r == Step::<T>::Done(
                    (Completion::SetComplete {
                        result: Err(ErrorCode::NoSupport),
                        unhashed_key: old(self).held_key().unwrap(),
                        value: old(self).held_value().unwrap(),
                    }),
                )
                &&& final(self).phase() == Phase::Idle
                &&& final(self).hashed() == Some(key)
            },
    {
        match self.phase {
            Phase::SetInvalidating => {
                let value = self.value.take().unwrap();
                if result.is_ok() {
                    self.phase = Phase::SetAppending;
                    Step::Submit(Request::AppendKey { key, value })
                } else {
                    self.hashed_key = Some(key);
                    self.phase = Phase::Idle;
                    self.valid_ids = None;
                    let unhashed_key = self.unhashed_key.take().unwrap();
                    Step::Done(
                        Completion::SetComplete {
                            result: Err(ErrorCode::NoSupport),
                            unhashed_key,
                            value,
                        },
                    )
                }
            },
            _ => {
                self.hashed_key = Some(key);
                self.phase = Phase::Idle;
                self.valid_ids = None;
                let unhashed_key = self.unhashed_key.take().unwrap();
                Step::Done(Completion::DeleteComplete { result, unhashed_key })
            },
        }
    }

    /// Handles the engine's completion of appending `value` under `key`.
    ///
    /// A collision (`NoSupport`) reads the existing object's header into the
    /// scratch buffer to decide whether it may be overwritten. Any other
    /// result ends the Set with that result.
    pub fn append_key_complete(
        &mut self,
        result: Result<(), ErrorCode>,
        key: T,
        value: SubSliceMut,
    ) -> (r: Step<T>)
        requires
            old(self).wf(),
            old(self).phase() == Phase::SetAppending,
        ensures
            final(self).wf(),
            result == Err::<(), ErrorCode>(ErrorCode::NoSupport) ==> {
                &&& final(self).phase() == Phase::SetCollisionRead
                &&& final(self).held_key() == old(self).held_key()
                &&& final(self).held_value() == Some(value)
                &&& final(self).perms() == old(self).perms()
                &&& match r {
                    Step::Submit(Request::GetValue { key: k, value: v }) => {
                        &&& k == key
                        &&& v.wf()
                        &&& v@ == old(self).scratch().unwrap()@
                        &&& v.underlying() == old(self).scratch().unwrap()@
                    },
                    _ => false,
                }
            },
            result != Err::<(), ErrorCode>(ErrorCode::NoSupport) ==> {
                &&& r == Step::<T>::Done(
                    (Completion::SetComplete {
                        result,
                        unhashed_key: old(self).held_key().unwrap(),
                        value,
                    }),
                )
                &&& final(self).phase() == Phase::Idle
                &&& final(self).hashed() == Some(key)
                &&& final(self).scratch() == old(self).scratch()
            },
    {
        let collided = match result {
            Err(ErrorCode::NoSupport) => true,
            _ => false,
        };
        if collided {
            let scratch = self.header_value.take().unwrap();
            self.value = Some(value);
            self.phase = Phase::SetCollisionRead;
            Step::Submit(Request::GetValue { key, value: SubSliceMut::new(scratch) })
        } else {
            self.hashed_key = Some(key);
            self.phase = Phase::Idle;
            self.valid_ids = None;
            let unhashed_key = self.unhashed_key.take().unwrap();
            Step::Done(Completion::SetComplete { result, unhashed_key, value })
        }
    }
}

impl<T> KVStore<T> {
    /// A store that owns the hashed-key buffer `key` and the header scratch
    /// buffer `header_value`, with no operation in flight.
    pub fn new(key: T, header_value: Vec<u8>) -> (r: KVStore<T>)
        requires
            header_value@.len() == HEADER_LENGTH,
        ensures
            r.wf(),
            r.phase() == Phase::Idle,
            r.hashed() == Some(key),
            r.scratch() == Some(header_value),
    {
        KVStore {
            hashed_key: Some(key),
            header_value: Some(header_value),
            phase: Phase::Idle,
            unhashed_key: None,
            value: None,
            valid_ids: None,
        }
    }

    /// The request the store is waiting on, or `Idle`.
    pub fn pending(&self) -> (r: Phase)
        ensures
            r == self.phase(),
    {
        self.phase
    }

    /// The room a Set value buffer must leave at its front for the header.
    pub fn header_size(&self) -> (r: usize)
        ensures
            r == HEADER_LENGTH,
    {
        HEADER_LENGTH
    }

    /// Starts reading the value stored under `key` into `value`.
    ///
    /// While another operation is in flight this fails with `Busy`, handing
    /// both buffers back and leaving the store as it was. Otherwise it keeps
    /// `value` and `permissions`, and asks the engine to hash `key`.
    pub fn get(&mut self, key: SubSliceMut, value: SubSliceMut, permissions: StoragePermissions) -> (r:
        Result<Request<T>, (SubSliceMut, SubSliceMut, ErrorCode)>)
        requires
            old(self).wf(),
        ensures
            final(self).wf(),
            final(self).scratch() == old(self).scratch(),
            old(self).phase() != Phase::Idle ==> {
                &&& r == Err::<Request<T>, _>((key, value, ErrorCode::Busy))
                &&& *final(self) == *old(self)
            },
            old(self).phase() == Phase::Idle ==> {
                &&& r == Ok::<_, (SubSliceMut, SubSliceMut, ErrorCode)>(
                    Request::GenerateKey { unhashed_key: key, hashed_key: old(self).hashed().unwrap() },
                )
                &&& final(self).phase() == Phase::GetHashing
                &&& final(self).held_value() == Some(value)
                &&& final(self).perms() == Some(permissions)
            },
    {
        match self.phase {
            Phase::Idle => {},
            _ => {
                return Err((key, value, ErrorCode::Busy));
            },
        }
        let hashed_key = self.hashed_key.take().unwrap();
        self.phase = Phase::GetHashing;
        self.valid_ids = Some(permissions);
        self.value = Some(value);
        Ok(Request::GenerateKey { unhashed_key: key, hashed_key })
    }

    /// Starts storing the payload of `value` under `key`, owned by the write
    /// id of `permissions`.
    ///
    /// The first `HEADER_LENGTH` bytes of `value` are room for the header.
    /// Fails, handing both buffers back and leaving the store as it was, with
    /// `Inval` where `permissions` has no write id, then with `Busy` while
    /// another operation is in flight, then with `Size` where `value` is
    /// shorter than the header. Otherwise it writes the header over that
    /// room, keeps `value` and `permissions`, and asks the engine to hash
    /// `key`.
    pub fn set(&mut self, key: SubSliceMut, value: SubSliceMut, permissions: StoragePermissions) -> (r:
        Result<Request<T>, (SubSliceMut, SubSliceMut, ErrorCode)>)
        requires
            old(self).wf(),
            value.wf(),
        ensures
            final(self).wf(),
            final(self).scratch() == old(self).scratch(),
            permissions.spec_write_id() is None ==> {
                &&& r == Err::<Request<T>, _>((key, value, ErrorCode::Inval))
                &&& *final(self) == *old(self)
            },
            permissions.spec_write_id() is Some && old(self).phase() != Phase::Idle ==> {
                &&& r == Err::<Request<T>, _>((key, value, ErrorCode::Busy))
                &&& *final(self) == *old(self)
            },
            permissions.spec_write_id() is Some && old(self).phase() == Phase::Idle && value@.len()
                < HEADER_LENGTH ==> {
                &&& r == Err::<Request<T>, _>((key, value, ErrorCode::Size))
                &&& *final(self) == *old(self)
            },
            permissions.spec_write_id() is Some && old(self).phase() == Phase::Idle && value@.len()
                >= HEADER_LENGTH ==> {
                &&& r == Ok::<_, (SubSliceMut, SubSliceMut, ErrorCode)>(
                    Request::GenerateKey { unhashed_key: key, hashed_key: old(self).hashed().unwrap() },
                )
                &&& final(self).phase() == Phase::SetHashing
                &&& final(self).perms() == Some(permissions)
                &&& final(self).held_value() is Some
                &&& final(self).held_value().unwrap().wf()
                &&& final(self).held_value().unwrap()@ == stored_image(
                    value@,
                    permissions.spec_write_id().unwrap(),
                )
                &&& final(self).held_value().unwrap().underlying().len()
                    == value.underlying().len()
                &&& final(self).held_value().unwrap().window_start() == value.window_start()
                &&& forall|j: int|
                    0 <= j < value.underlying().len() && !(value.window_start() <= j
                        < value.window_start() + HEADER_LENGTH) ==> final(self).held_value().unwrap().underlying()[j]
                        == value.underlying()[j]
            },
    {
        let write_id = match permissions.get_write_id() {
            Some(id) => id,
            None => {
                return Err((key, value, ErrorCode::Inval));
            },
        };
        match self.phase {
            Phase::Idle => {},
            _ => {
                return Err((key, value, ErrorCode::Busy));
            },
        }
        if value.len() < HEADER_LENGTH {
            return Err((key, value, ErrorCode::Size));
        }
        let header = KeyHeader {
            version: HEADER_VERSION,
            length: (value.len() - HEADER_LENGTH) as u32,
            write_id,
        };
        let mut value = value;
        header.copy_to_buf(&mut value);
        let hashed_key = self.hashed_key.take().unwrap();
        self.phase = Phase::SetHashing;
        self.valid_ids = Some(permissions);
        self.value = Some(value);
        Ok(Request::GenerateKey { unhashed_key: key, hashed_key })
    }

    /// Starts deleting the object stored under `key`.
    ///
    /// While another operation is in flight this fails with `Busy`, handing
    /// `key` back and leaving the store as it was. Otherwise it keeps
    /// `permissions` and asks the engine to hash `key`.
    pub fn delete(&mut self, key: SubSliceMut, permissions: StoragePermissions) -> (r: Result<
        Request<T>,
        (SubSliceMut, ErrorCode),
    >)
        requires
            old(self).wf(),
        ensures
            final(self).wf(),
            final(self).scratch() == old(self).scratch(),
            old(self).phase() != Phase::Idle ==> {
                &&& r == Err::<Request<T>, _>((key, ErrorCode::Busy))
                &&& *final(self) == *old(self)
            },
            old(self).phase() == Phase::Idle ==> {
                &&& r == Ok::<_, (SubSliceMut, ErrorCode)>(
                    Request::GenerateKey { unhashed_key: key, hashed_key: old(self).hashed().unwrap() },
                )
                &&& final(self).phase() == Phase::DeleteHashing
                &&& final(self).perms() == Some(permissions)
            },
    {
        match self.phase {
            Phase::Idle => {},
            _ => {
                return Err((key, ErrorCode::Busy));
            },
        }
        let hashed_key = self.hashed_key.take().unwrap();
        self.phase = Phase::DeleteHashing;
        self.valid_ids = Some(permissions);
        Ok(Request::GenerateKey { unhashed_key: key, hashed_key })
    }
}

impl<T> KVStore<T> {
    /// Handles the engine refusing a hashing request with `e`: the operation
    /// ends with `e`.
    pub fn generate_key_rejected(
        &mut self,
        unhashed_key: SubSliceMut,
        hashed_key: T,
        e: ErrorCode,
    ) -> (r: Completion)
        requires
            old(self).wf(),
            old(self).hashing(),
        ensures
            final(self).wf(),
            final(self).phase() == Phase::Idle,
            final(self).hashed() == Some(hashed_key),
            final(self).scratch() == old(self).scratch(),
            r == match old(self).phase() {
                Phase::GetHashing => Completion::GetComplete {
                    result: Err(e),
                    unhashed_key,
                    value: old(self).held_value().unwrap(),
                },
                Phase::SetHashing => Completion::SetComplete {
                    result: Err(e),
                    unhashed_key,
                    value: old(self).held_value().unwrap(),
                },
                _ => Completion::DeleteComplete { result: Err(e), unhashed_key },
            },
    {
        let phase = self.phase;
        self.hashed_key = Some(hashed_key);
        self.phase = Phase::Idle;
        self.valid_ids = None;
        match phase {
            Phase::GetHashing => {
                let value = self.value.take().unwrap();
                Completion::GetComplete { result: Err(e), unhashed_key, value }
            },
            Phase::SetHashing => {
                let value = self.value.take().unwrap();
                Completion::SetComplete { result: Err(e), unhashed_key, value }
            },
            _ => Completion::DeleteComplete { result: Err(e), unhashed_key },
        }
    }

    /// Handles the engine refusing a read request with `e`, handing back
    /// `key` and `value`.
    ///
    /// A Get or a Delete ends with `e`. A Set ends with the `NoSupport` of
    /// the collision that led to the read.
    pub fn get_value_rejected(&mut self, key: T, value: SubSliceMut, e: ErrorCode) -> (r:
        Completion)
        requires
            old(self).wf(),
            old(self).phase() == Phase::GetReading || old(self).phase() == Phase::SetCollisionRead
                || old(self).phase() == Phase::DeleteReading,
        ensures
            final(self).wf(),
            final(self).phase() == Phase::Idle,
            final(self).hashed() == Some(key),
            old(self).phase() == Phase::GetReading ==> {
                &&& final(self).scratch() == old(self).scratch()
                &&& r == (Completion::GetComplete {
                    result: Err(e),
                    unhashed_key: old(self).held_key().unwrap(),
                    value,
                })
            },
            old(self).phase() == Phase::SetCollisionRead ==> {
                &&& final(self).scratch() is Some
                &&& final(self).scratch().unwrap()@ == value.underlying()
                &&& r == (Completion::SetComplete {
                    result: Err(ErrorCode::NoSupport),
                    unhashed_key: old(self).held_key().unwrap(),
                    value: old(self).held_value().unwrap(),
                })
            },
            old(self).phase() == Phase::DeleteReading ==> {
                &&& final(self).scratch() is Some
                &&& final(self).scratch().unwrap()@ == value.underlying()
                &&& r == (Completion::DeleteComplete {
                    result: Err(e),
                    unhashed_key: old(self).held_key().unwrap(),
                })
            },
    {
        let phase = self.phase;
        self.hashed_key = Some(key);
        self.phase = Phase::Idle;
        self.valid_ids = None;
        let unhashed_key = self.unhashed_key.take().unwrap();
        match phase {
            Phase::GetReading => Completion::GetComplete { result: Err(e), unhashed_key, value },
            Phase::SetCollisionRead => {
                self.header_value = Some(value.take());
                let value = self.value.take().unwrap();
                Completion::SetComplete { result: Err(ErrorCode::NoSupport), unhashed_key, value }
            },
            _ => {
                self.header_value = Some(value.take());
                Completion::DeleteComplete { result: Err(e), unhashed_key }
            },
        }
    }

    /// Handles the engine refusing an append request with `e`, handing back
    /// `key` and `value`: the Set ends with `e`.
    pub fn append_key_rejected(&mut self, key: T, value: SubSliceMut, e: ErrorCode) -> (r:
        Completion)
        requires
            old(self).wf(),
            old(self).phase() == Phase::SetAppending,
        ensures
            final(self).wf(),
            final(self).phase() == Phase::Idle,
            final(self).hashed() == Some(key),
            final(self).scratch() == old(self).scratch(),
            r == (Completion::SetComplete {
                result: Err(e),
                unhashed_key: old(self).held_key().unwrap(),
                value,
            }),
    {
        self.hashed_key = Some(key);
        self.phase = Phase::Idle;
        self.valid_ids = None;
        let unhashed_key = self.unhashed_key.take().unwrap();
        Completion::SetComplete { result: Err(e), unhashed_key, value }
    }

    /// Handles the engine refusing an invalidate request with `e`, handing
    /// back `key`: the operation ends with `e`.
    pub fn invalidate_key_rejected(&mut self, key: T, e: ErrorCode) -> (r: Completion)
        requires
            old(self).wf(),
            old(self).phase() == Phase::SetInvalidating || old(self).phase()
                == Phase::DeleteInvalidating,
        ensures
            final(self).wf(),
            final(self).phase() == Phase::Idle,
            final(self).hashed() == Some(key),
            final(self).scratch() == old(self).scratch(),
            old(self).phase() == Phase::SetInvalidating ==> r == (Completion::SetComplete {
                result: Err(e),
                unhashed_key: old(self).held_key().unwrap(),
                value: old(self).held_value().unwrap(),
            }),
            old(self).phase() == Phase::DeleteInvalidating ==> r == (Completion::DeleteComplete {
                result: Err(e),
                unhashed_key: old(self).held_key().unwrap(),
            }),
    {
        let phase = self.phase;
        self.hashed_key = Some(key);
        self.phase = Phase::Idle;
        self.valid_ids = None;
        let unhashed_key = self.unhashed_key.take().unwrap();
        match phase {
            Phase::SetInvalidating => {
                let value = self.value.take().unwrap();
                Completion::SetComplete { result: Err(e), unhashed_key, value }
            },
            _ => Completion::DeleteComplete { result: Err(e), unhashed_key },
        }
    }

    /// Handles the engine's completion of a garbage collection, which no
    /// operation of the store waits on.
    pub fn garbage_collect_complete(&mut self, result: Result<(), ErrorCode>)
        ensures
            *final(self) == *old(self),
    {
    }
}

/// The header a Set writes in front of a payload decodes back to the header
/// it was made from, whatever follows it.
proof fn lemma_stored_header(bytes: Seq<u8>, window: Seq<u8>, owner: u32)
    requires
        window.len() >= HEADER_LENGTH,
        bytes.len() >= HEADER_LENGTH,
        bytes.subrange(0, HEADER_LENGTH as int) == stored_image(window, owner).subrange(
            0,
            HEADER_LENGTH as int,
        ),
    ensures
        decode_header(bytes) == new_header(window.len(), owner),
{
    let h = new_header(window.len(), owner);
    lemma_header_round_trip(h);
    let img = stored_image(window, owner);
    let prefix = bytes.subrange(0, HEADER_LENGTH as int);
    assert(img.subrange(0, HEADER_LENGTH as int) =~= encode_header(h));
    assert(bytes.subrange(1, 5) =~= prefix.subrange(1, 5));
    assert(bytes.subrange(5, 9) =~= prefix.subrange(5, 9));
    assert(bytes[0] == prefix[0]);
}

/// A Get whose read is not granted, because the engine result is neither a
/// success nor a truncation, the bytes are too short for a header, the
/// header's version is unknown, or the credentials may not read the owner's
/// objects, delivers `NoSupport` and the window it was given, every byte zero.
pub proof fn lemma_denied_get_is_masked(
    result: Result<(), ErrorCode>,
    ret: SubSliceMut,
    perms: StoragePermissions,
    out_result: Result<(), ErrorCode>,
    out: SubSliceMut,
)
    requires
        get_delivery(result, ret, perms, out_result, out),
        !read_usable(result) || ret@.len() < HEADER_LENGTH || decode_header(ret@).version
            != HEADER_VERSION || !perms.can_read(decode_header(ret@).write_id),
    ensures
        out_result == Err::<(), ErrorCode>(ErrorCode::NoSupport),
        out.window_start() == ret.window_start(),
        out@.len() == ret@.len(),
        forall|i: int| 0 <= i < out@.len() ==> out@[i] == 0u8,
        out.underlying().len() == ret.underlying().len(),
        forall|i: int| 0 <= i < out.underlying().len() ==> out.underlying()[i] == 0u8,
{
}

/// A Set of the value window `window` by `owner`, read back whole or
/// truncated by a Get whose credentials may read `owner`'s objects, delivers
/// exactly the payload that followed the header room, with the engine's
/// result.
pub proof fn lemma_set_then_get_round_trip(
    window: Seq<u8>,
    owner: u32,
    result: Result<(), ErrorCode>,
    ret: SubSliceMut,
    perms: StoragePermissions,
    out_result: Result<(), ErrorCode>,
    out: SubSliceMut,
)
    requires
        window.len() >= HEADER_LENGTH,
        ret@ == stored_image(window, owner),
        read_usable(result),
        perms.can_read(owner),
        get_delivery(result, ret, perms, out_result, out),
    ensures
        read_granted(result, ret@, perms),
        out_result == result,
        out@ == window.subrange(HEADER_LENGTH as int, window.len() as int),
        out.underlying() == ret.underlying(),
{
    let img = stored_image(window, owner);
    lemma_header_round_trip(new_header(window.len(), owner));
    lemma_stored_header(img, window, owner);
    assert(img.subrange(HEADER_LENGTH as int, img.len() as int) =~= window.subrange(
        HEADER_LENGTH as int,
        window.len() as int,
    ));
}

/// An object that `owner` stored, whose header has been read back whole or
/// truncated, may be overwritten or deleted exactly by credentials that may
/// write `owner`'s objects: a Set by anyone else ends with `Fail` and leaves
/// the object in place, and one by a writer of `owner` invalidates it.
pub proof fn lemma_overwrite_needs_write_access(
    bytes: Seq<u8>,
    window: Seq<u8>,
    owner: u32,
    result: Result<(), ErrorCode>,
    perms: StoragePermissions,
)
    requires
        window.len() >= HEADER_LENGTH,
        bytes.len() >= HEADER_LENGTH,
        bytes.subrange(0, HEADER_LENGTH as int) == stored_image(window, owner).subrange(
            0,
            HEADER_LENGTH as int,
        ),
        read_usable(result),
    ensures
        write_granted(result, bytes, perms) == perms.can_write(owner),
{
    lemma_stored_header(bytes, window, owner);
}

/// A header read that found nothing (an engine result other than a success
/// or a truncation) never grants a write, so a Delete of a missing key ends
/// with `Fail` and asks for no invalidation.
pub proof fn lemma_missing_object_never_written(
    result: Result<(), ErrorCode>,
    bytes: Seq<u8>,
    perms: StoragePermissions,
)
    requires
        !read_usable(result),
    ensures
        !write_granted(result, bytes, perms),
{
}

impl<T> KVStore<T> {
    /// A store with no operation in flight holds both of its own buffers and
    /// none of a caller's: every terminal transition, which leaves the store
    /// idle, has handed back each buffer it was lent.
    pub proof fn lemma_idle_holds_only_its_own(&self)
        requires
            self.wf(),
            self.phase() == Phase::Idle,
        ensures
            self.hashed() is Some,
            self.scratch() is Some,
            self.held_key() is None,
            self.held_value() is None,
            self.perms() is None,
    {
    }
}

/// The front end of a key-value store with per-object ownership: each call
/// either fails at once, handing its buffers back and leaving the store as it
/// was, or yields the first request to submit to the engine.
pub trait KV<T>: Sized {
    /// The store's own invariant.
    spec fn kv_wf(&self) -> bool;

    /// The request the store is waiting on, or `Idle`.
    spec fn kv_phase(&self) -> Phase;

    /// The credentials of the operation in flight.
    spec fn kv_perms(&self) -> Option<StoragePermissions>;

    /// The caller's value buffer, while the store holds it.
    spec fn kv_held_value(&self) -> Option<SubSliceMut>;

    /// The hashed-key buffer, while it is not lent to the engine.
    spec fn kv_hashed(&self) -> Option<T>;

    /// The header scratch buffer, while it is not lent to the engine.
    spec fn kv_scratch(&self) -> Option<Vec<u8>>;

    /// Starts reading the value stored under `key` into `value`; fails with
    /// `Busy` while another operation is in flight.
    fn get(&mut self, key: SubSliceMut, value: SubSliceMut, permissions: StoragePermissions) -> (r:
        Result<Request<T>, (SubSliceMut, SubSliceMut, ErrorCode)>)
        requires
            old(self).kv_wf(),
        ensures
            final(self).kv_wf(),
            final(self).kv_scratch() == old(self).kv_scratch(),
            old(self).kv_phase() != Phase::Idle ==> {
                &&& r == Err::<Request<T>, _>((key, value, ErrorCode::Busy))
                &&& *final(self) == *old(self)
            },
            old(self).kv_phase() == Phase::Idle ==> {
                &&& r == Ok::<_, (SubSliceMut, SubSliceMut, ErrorCode)>(
                    Request::GenerateKey {
                        unhashed_key: key,
                        hashed_key: old(self).kv_hashed().unwrap(),
                    },
                )
                &&& final(self).kv_phase() == Phase::GetHashing
                &&& final(self).kv_held_value() == Some(value)
                &&& final(self).kv_perms() == Some(permissions)
            },
    ;

    /// Starts storing the payload of `value` under `key`; the front of
    /// `value` is room for the header. Fails with `Inval` without a write id,
    /// then `Busy` while another operation is in flight, then `Size` where
    /// `value` has no room for the header.
    fn set(&mut self, key: SubSliceMut, value: SubSliceMut, permissions: StoragePermissions) -> (r:
        Result<Request<T>, (SubSliceMut, SubSliceMut, ErrorCode)>)
        requires
            old(self).kv_wf(),
            value.wf(),
        ensures
            final(self).kv_wf(),
            final(self).kv_scratch() == old(self).kv_scratch(),
            permissions.spec_write_id() is None ==> {
                &&& r == Err::<Request<T>, _>((key, value, ErrorCode::Inval))
                &&& *final(self) == *old(self)
            },
            permissions.spec_write_id() is Some && old(self).kv_phase() != Phase::Idle ==> {
                &&& r == Err::<Request<T>, _>((key, value, ErrorCode::Busy))
                &&& *final(self) == *old(self)
            },
            permissions.spec_write_id() is Some && old(self).kv_phase() == Phase::Idle
                && value@.len() < HEADER_LENGTH ==> {
                &&& r == Err::<Request<T>, _>((key, value, ErrorCode::Size))
                &&& *final(self) == *old(self)
            },
            permissions.spec_write_id() is Some && old(self).kv_phase() == Phase::Idle
                && value@.len() >= HEADER_LENGTH ==> {
                &&& r == Ok::<_, (SubSliceMut, SubSliceMut, ErrorCode)>(
                    Request::GenerateKey {
                        unhashed_key: key,
                        hashed_key: old(self).kv_hashed().unwrap(),
                    },
                )
                &&& final(self).kv_phase() == Phase::SetHashing
                &&& final(self).kv_perms() == Some(permissions)
                &&& final(self).kv_held_value() is Some
                &&& final(self).kv_held_value().unwrap().wf()
                &&& final(self).kv_held_value().unwrap()@ == stored_image(
                    value@,
                    permissions.spec_write_id().unwrap(),
                )
                &&& final(self).kv_held_value().unwrap().underlying().len()
                    == value.underlying().len()
                &&& final(self).kv_held_value().unwrap().window_start() == value.window_start()
                &&& forall|j: int|
                    0 <= j < value.underlying().len() && !(value.window_start() <= j
                        < value.window_start() + HEADER_LENGTH) ==> final(self).kv_held_value().unwrap().underlying()[j]
                        == value.underlying()[j]
            },
    ;

    /// Starts deleting the object stored under `key`; fails with `Busy`
    /// while another operation is in flight.
    fn delete(&mut self, key: SubSliceMut, permissions: StoragePermissions) -> (r: Result<
        Request<T>,
        (SubSliceMut, ErrorCode),
    >)
        requires
            old(self).kv_wf(),
        ensures
            final(self).kv_wf(),
            final(self).kv_scratch() == old(self).kv_scratch(),
            old(self).kv_phase() != Phase::Idle ==> {
                &&& r == Err::<Request<T>, _>((key, ErrorCode::Busy))
                &&& *final(self) == *old(self)
            },
            old(self).kv_phase() == Phase::Idle ==> {
                &&& r == Ok::<_, (SubSliceMut, ErrorCode)>(
                    Request::GenerateKey {
                        unhashed_key: key,
                        hashed_key: old(self).kv_hashed().unwrap(),
                    },
                )
                &&& final(self).kv_phase() == Phase::DeleteHashing
                &&& final(self).kv_perms() == Some(permissions)
            },
    ;

    /// The room a Set value buffer must leave at its front for the header.
    fn header_size(&self) -> (r: usize)
        ensures
            r == HEADER_LENGTH,
    ;
}

impl<T> KV<T> for KVStore<T> {
    open spec fn kv_wf(&self) -> bool {
        self.wf()
    }

    open spec fn kv_phase(&self) -> Phase {
        self.phase()
    }

    open spec fn kv_perms(&self) -> Option<StoragePermissions> {
        self.perms()
    }

    open spec fn kv_held_value(&self) -> Option<SubSliceMut> {
        self.held_value()
    }

    open spec fn kv_hashed(&self) -> Option<T> {
        self.hashed()
    }

    open spec fn kv_scratch(&self) -> Option<Vec<u8>> {
        self.scratch()
    }

    fn get(&mut self, key: SubSliceMut, value: SubSliceMut, permissions: StoragePermissions) -> (r:
        Result<Request<T>, (SubSliceMut, SubSliceMut, ErrorCode)>) {
        KVStore::get(self, key, value, permissions)
    }

    fn set(&mut self, key: SubSliceMut, value: SubSliceMut, permissions: StoragePermissions) -> (r:
        Result<Request<T>, (SubSliceMut, SubSliceMut, ErrorCode)>) {
        KVStore::set(self, key, value, permissions)
    }

    fn delete(&mut self, key: SubSliceMut, permissions: StoragePermissions) -> (r: Result<
        Request<T>,
        (SubSliceMut, ErrorCode),
    >) {
        KVStore::delete(self, key, permissions)
    }

    fn header_size(&self) -> (r: usize) {
        KVStore::header_size(self)
    }
}

} // verus!
