//! Read-only accessor views over a parsed, in-memory 3D-asset document:
//! a root holding flat arrays of raw records, and per-entity views that
//! resolve index references between them, substituting a single canonical
//! default sampler where a texture's sampler reference is absent.

pub mod extensions;
pub mod image;
pub mod json;
pub mod texture;

use vstd::prelude::*;

verus! {

use crate::json::Sampler as SamplerRecord;
use crate::json::Texture as TextureRecord;
use crate::json::Image as ImageRecord;

/// Why a set of raw arrays cannot back a document root.
#[derive(Clone, Copy, Debug, PartialEq, Eq, Structural)]
pub enum Error {
    /// A sampler record holds an enumerated field with an unrecognised value.
    InvalidEnum,
    /// An index reference of a texture record does not resolve to a record in
    /// the array it points into.
    IndexOutOfRange,
}

/// Every sampler record holds only recognised enumeration members.
pub open spec fn samplers_valid(samplers: Seq<SamplerRecord>) -> bool {
    forall|i: int| 0 <= i < samplers.len() ==> (#[trigger] samplers[i]).enums_valid()
}

/// Every index reference of every texture record resolves.
pub open spec fn refs_resolve(
    textures: Seq<TextureRecord>,
    samplers_len: int,
    images_len: int,
) -> bool {
    forall|i: int|
        0 <= i < textures.len() ==> (#[trigger] textures[i]).refs_in_range(
            samplers_len,
            images_len,
        )
}

/// The raw arrays satisfy everything a document root demands of them.
pub open spec fn arrays_wf(
    samplers: Seq<SamplerRecord>,
    textures: Seq<TextureRecord>,
    images_len: int,
) -> bool {
    &&& samplers_valid(samplers)
    &&& refs_resolve(textures, samplers.len() as int, images_len)
}

/// The top-level structure holding all entity arrays of one loaded document,
/// together with the single canonical default sampler record substituted for
/// absent sampler references. Construction through `Document::new` is the
/// validation boundary: once it succeeds, every view operation resolves its
/// references without a failure path.
#[derive(Clone, Debug)]
pub struct Document {
    /// Sampler records, in order of appearance in the source document.
    pub samplers: Vec<SamplerRecord>,
    /// Texture records, in order of appearance in the source document.
    pub textures: Vec<TextureRecord>,
    /// Image records, in order of appearance in the source document.
    pub images: Vec<ImageRecord>,
    /// The one default sampler record for this document's lifetime.
    pub default_sampler: SamplerRecord,
}

impl Document {
    /// The document invariant: its arrays are well-formed and its default
    /// sampler is the canonical one.
    pub open spec fn wf(self) -> bool {
        &&& arrays_wf(self.samplers@, self.textures@, self.images@.len() as int)
        &&& self.default_sampler == json::default_sampler()
    }

    /// Validates the raw arrays and builds the document root over them.
    /// Succeeds exactly when every enumerated sampler field is recognised and
    /// every texture reference resolves; the arrays are kept unchanged, in
    /// order.
    pub fn new(
        samplers: Vec<SamplerRecord>,
        textures: Vec<TextureRecord>,
        images: Vec<ImageRecord>,
    ) -> (r: Result<Document, Error>)
        ensures
            r is Ok <==> arrays_wf(samplers@, textures@, images@.len() as int),
            r matches Ok(d) ==> d.wf() && d.samplers@ == samplers@ && d.textures@ == textures@
                && d.images@ == images@,
            r == Err::<Document, Error>(Error::InvalidEnum) <==> !samplers_valid(samplers@),
            r == Err::<Document, Error>(Error::IndexOutOfRange) <==> samplers_valid(samplers@)
                && !refs_resolve(textures@, samplers@.len() as int, images@.len() as int),
    {
        let mut i: usize = 0;
        while i < samplers.len()
            invariant
                i <= samplers@.len(),
                forall|j: int| 0 <= j < i ==> (#[trigger] samplers@[j]).enums_valid(),
            decreases samplers@.len() - i,
        {
            if !samplers[i].check_enums() {
                return Err(Error::InvalidEnum);
            }
            i += 1;
        }
        let mut i: usize = 0;
        while i < textures.len()
            invariant
                i <= textures@.len(),
                samplers_valid(samplers@),
                forall|j: int|
                    0 <= j < i ==> (#[trigger] textures@[j]).refs_in_range(
                        samplers@.len() as int,
                        images@.len() as int,
                    ),
            decreases textures@.len() - i,
        {
            if !textures[i].check_refs(samplers.len(), images.len()) {
                return Err(Error::IndexOutOfRange);
            }
            i += 1;
        }
        Ok(Document { samplers, textures, images, default_sampler: Default::default() })
    }

    /// Indexed lookup into the texture array: a view over the record at
    /// `index`, or `None` when the position is out of range.
    pub fn texture<'a>(&'a self, index: usize) -> (r: Option<texture::Texture<'a>>)
        ensures
            r is Some <==> index < self.textures@.len(),
            r matches Some(t) ==> t.doc() == *self && t.spec_index() == index && t.record()
                == self.textures@[index as int] && t.wf(),
    {
        if index < self.textures.len() {
            Some(texture::Texture::new(self, index, &self.textures[index]))
        } else {
            None
        }
    }

    /// Indexed lookup into the sampler array: a view over the record at
    /// `index`, or `None` when the position is out of range.
    pub fn sampler<'a>(&'a self, index: usize) -> (r: Option<texture::Sampler<'a>>)
        ensures
            r is Some <==> index < self.samplers@.len(),
            r matches Some(s) ==> s.doc() == *self && s.spec_index() == Some(index) && s.record()
                == self.samplers@[index as int] && s.wf(),
    {
        if index < self.samplers.len() {
            Some(texture::Sampler::new(self, index, &self.samplers[index]))
        } else {
            None
        }
    }

    /// Indexed lookup into the image array: a view over the record at
    /// `index`, or `None` when the position is out of range.
    pub fn image<'a>(&'a self, index: usize) -> (r: Option<image::Image<'a>>)
        ensures
            r is Some <==> index < self.images@.len(),
            r matches Some(m) ==> m.doc() == *self && m.spec_index() == index && m.record()
                == self.images@[index as int] && m.wf(),
    {
        if index < self.images.len() {
            Some(image::Image::new(self, index, &self.images[index]))
        } else {
            None
        }
    }
}

} // verus!
