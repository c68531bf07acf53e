//! Views over image records. An image is always referenced through a
//! mandatory index, so an image view always carries a real position.

use vstd::prelude::*;

verus! {

use crate::Document;
use crate::json;

/// A view over one image record of the document.
#[derive(Clone, Copy, Debug)]
pub struct Image<'a> {
    /// The parent document root.
    gltf: &'a Document,
    /// The record's position in the document's image array.
    index: usize,
    /// The raw record.
    json: &'a json::Image,
}

impl<'a> Image<'a> {
    /// The document root this view borrows from.
    pub closed spec fn doc(self) -> Document {
        *self.gltf
    }

    /// The position of the viewed record in the document's image array.
    pub closed spec fn spec_index(self) -> usize {
        self.index
    }

    /// The raw record the view exposes.
    pub closed spec fn record(self) -> json::Image {
        *self.json
    }

    /// The view invariant: the held record is the document's record at the
    /// held position.
    pub closed spec fn wf(self) -> bool {
        &&& self.index < self.doc().images@.len()
        &&& self.record() == self.doc().images@[self.index as int]
    }

    /// Constructs an `Image` view over the record at `index`.
    pub fn new(gltf: &'a Document, index: usize, json: &'a json::Image) -> (r: Self)
        requires
            index < gltf.images@.len(),
            *json == gltf.images@[index as int],
        ensures
            r.doc() == *gltf,
            r.spec_index() == index,
            r.record() == *json,
            r.wf(),
    {
        Image { gltf, index, json }
    }

    /// Returns the position of this image in the document's image array.
    pub fn index(&self) -> (r: usize)
        ensures
            r == self.spec_index(),
    {
        self.index
    }

    /// Returns the raw record.
    pub fn as_json(&self) -> (r: &'a json::Image)
        ensures
            *r == self.record(),
    {
        self.json
    }

    /// Optional user-defined name for this object.
    pub fn name(&self) -> (r: Option<&'a str>)
        ensures
            r is Some <==> self.record().name is Some,
            r matches Some(s) ==> (self.record().name matches Some(n) && s@ == n@),
    {
        match &self.json.name {
            Some(n) => Some(n.as_str()),
            None => None,
        }
    }

    /// Optional location of the image data.
    pub fn uri(&self) -> (r: Option<&'a str>)
        ensures
            r is Some <==> self.record().uri is Some,
            r matches Some(s) ==> (self.record().uri matches Some(u) && s@ == u@),
    {
        match &self.json.uri {
            Some(u) => Some(u.as_str()),
            None => None,
        }
    }

    /// Optional application specific data.
    pub fn extras(&self) -> (r: &'a json::Extras)
        ensures
            *r == self.record().extras,
    {
        &self.json.extras
    }
}

} // verus!
