use vstd::prelude::*;

verus! {

/// The credentials that accompany one request: the owner ids whose objects
/// the caller may read, those whose objects it may overwrite or delete, and
/// the id, if any, that objects it creates are tagged with.
pub struct StoragePermissions {
    read_ids: Vec<u32>,
    modify_ids: Vec<u32>,
    write_id: Option<u32>,
}

impl StoragePermissions {
    /// Whether these credentials grant read access to objects owned by `owner`.
    pub closed spec fn can_read(&self, owner: u32) -> bool {
        self.read_ids@.contains(owner)
    }

    /// Whether these credentials grant write access (overwrite, delete) to
    /// objects owned by `owner`.
    pub closed spec fn can_write(&self, owner: u32) -> bool {
        self.modify_ids@.contains(owner)
    }

    /// The owner id given to objects created with these credentials.
    pub closed spec fn spec_write_id(&self) -> Option<u32> {
        self.write_id
    }

    /// Credentials that may read objects of the owners in `read_ids`, modify
    /// those of the owners in `modify_ids`, and create objects owned by
    /// `write_id`, if it is given.
    pub fn new(read_ids: Vec<u32>, modify_ids: Vec<u32>, write_id: Option<u32>) -> (r: Self)
        ensures
            forall|o: u32| r.can_read(o) <==> read_ids@.contains(o),
            forall|o: u32| r.can_write(o) <==> modify_ids@.contains(o),
            r.spec_write_id() == write_id,
    {
        StoragePermissions { read_ids, modify_ids, write_id }
    }

    /// Credentials that grant nothing and cannot create objects.
    pub fn none() -> (r: Self)
        ensures
            forall|o: u32| !r.can_read(o) && !r.can_write(o),
            r.spec_write_id() is None,
    {
        StoragePermissions { read_ids: Vec::new(), modify_ids: Vec::new(), write_id: None }
    }

    /// Whether these credentials grant read access to objects owned by `owner`.
    pub fn check_read_permission(&self, owner: u32) -> (r: bool)
        ensures
            r == self.can_read(owner),
    {
        contains_id(&self.read_ids, owner)
    }

    /// Whether these credentials grant write access to objects owned by
    /// `owner`.
    pub fn check_write_permission(&self, owner: u32) -> (r: bool)
        ensures
            r == self.can_write(owner),
    {
        contains_id(&self.modify_ids, owner)
    }

    /// The owner id given to objects created with these credentials.
    pub fn get_write_id(&self) -> (r: Option<u32>)
        ensures
            r == self.spec_write_id(),
    {
        self.write_id
    }
}

fn contains_id(ids: &Vec<u32>, id: u32) -> (r: bool)
    ensures
        r == ids@.contains(id),
{
    let mut i: usize = 0;
    while i < ids.len()
        invariant
            i <= ids@.len(),
            forall|j: int| 0 <= j < i ==> ids@[j] != id,
        decreases ids@.len() - i,
    {
        if ids[i] == id {
            return true;
        }
        i = i + 1;
    }
    false
}

} // verus!
