//! The record that a successful lookup hands to the caller.

use vstd::prelude::*;

verus! {

/// What is known of one remotely stored object, without its data.
///
/// A value can only come out of a lookup that the remote side answered; it is
/// read through its accessors and keeps no tie to the connection.
#[derive(Debug, PartialEq, Eq)]
pub struct ObjectMetadata {
    object_id: u64,
    type_tag: String,
    size: u64,
    sync_remote: bool,
}

/// An `ObjectMetadata` as the contracts see it.
pub struct ObjectMetadataView {
    pub object_id: u64,
    pub type_tag: Seq<char>,
    pub size: u64,
    pub sync_remote: bool,
}

impl View for ObjectMetadata {
    type V = ObjectMetadataView;

    closed spec fn view(&self) -> ObjectMetadataView {
        ObjectMetadataView {
            object_id: self.object_id,
            type_tag: self.type_tag@,
            size: self.size,
            sync_remote: self.sync_remote,
        }
    }
}

impl Clone for ObjectMetadata {
    /// A second record of the same content.
    fn clone(&self) -> (copy: Self)
        ensures
            copy@ == self@,
    {
        ObjectMetadata {
            object_id: self.object_id,
            type_tag: self.type_tag.clone(),
            size: self.size,
            sync_remote: self.sync_remote,
        }
    }
}

impl ObjectMetadata {
    /// Puts a record together from the request's identifier and flag and from
    /// what the remote side said of the object.
    pub(crate) fn assemble(object_id: u64, type_tag: String, size: u64, sync_remote: bool) -> (m: Self)
        ensures
            m@ == (ObjectMetadataView { object_id, type_tag: type_tag@, size, sync_remote }),
    {
        ObjectMetadata { object_id, type_tag, size, sync_remote }
    }

    /// The identifier of the object that the record describes.
    pub fn object_id(&self) -> (id: u64)
        ensures
            id == self@.object_id,
    {
        self.object_id
    }

    /// The name of the object's type, as the remote side gave it.
    pub fn type_tag(&self) -> (tag: &str)
        ensures
            tag@ == self@.type_tag,
    {
        self.type_tag.as_str()
    }

    /// The size of the object, as the remote side gave it.
    pub fn size(&self) -> (n: u64)
        ensures
            n == self@.size,
    {
        self.size
    }

    /// Whether the metadata of the object's members was resolved together
    /// with its own.
    pub fn sync_remote(&self) -> (resolved: bool)
        ensures
            resolved == self@.sync_remote,
    {
        self.sync_remote
    }
}

} // verus!
