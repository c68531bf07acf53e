//! Views over texture and sampler records, and over texture-usage records.
//!
//! A view borrows one raw record together with the document root it belongs
//! to; accessors read raw fields, and relationship accessors resolve index
//! references into further views. An absent sampler reference resolves to a
//! view over the document's single canonical default sampler record.

use vstd::prelude::*;

verus! {

use crate::Document;
use crate::extensions;
use crate::image::Image;
use crate::json;

pub use crate::json::{MagFilter, MinFilter, WrappingMode};

/// Texture sampler properties for filtering and wrapping modes.
#[derive(Clone, Copy, Debug)]
pub struct Sampler<'a> {
    /// The parent document root.
    gltf: &'a Document,
    /// The record's position in the document's sampler array; `None` for the
    /// default sampler.
    index: Option<usize>,
    /// The raw record.
    json: &'a json::Sampler,
}

impl<'a> Sampler<'a> {
    /// The document root this view borrows from.
    pub closed spec fn doc(self) -> Document {
        *self.gltf
    }

    /// The position of the viewed record, `None` for the default sampler.
    pub closed spec fn spec_index(self) -> Option<usize> {
        self.index
    }

    /// The raw record the view exposes.
    pub closed spec fn record(self) -> json::Sampler {
        *self.json
    }

    /// The view invariant: a document-backed view holds the document's record
    /// at its position; the default view holds the document's one default
    /// sampler record.
    pub closed spec fn wf(self) -> bool {
        match self.index {
            Some(i) => i < self.doc().samplers@.len() && self.record()
                == self.doc().samplers@[i as int],
            None => self.record() == self.doc().default_sampler,
        }
    }

    /// Constructs a `Sampler` view over the document-backed record at `index`.
    pub fn new(gltf: &'a Document, index: usize, json: &'a json::Sampler) -> (r: Self)
        requires
            index < gltf.samplers@.len(),
            *json == gltf.samplers@[index as int],
        ensures
            r.doc() == *gltf,
            r.spec_index() == Some(index),
            r.record() == *json,
            r.wf(),
    {
        Sampler { gltf, index: Some(index), json }
    }

    /// Constructs the default `Sampler` view: no position, and the document's
    /// one canonical default record.
    pub fn default(gltf: &'a Document) -> (r: Self)
        ensures
            r.doc() == *gltf,
            r.spec_index() is None,
            r.record() == gltf.default_sampler,
            r.wf(),
    {
        Sampler { gltf, index: None, json: &gltf.default_sampler }
    }

    /// Returns the position in the document's sampler array, or `None` for
    /// the default sampler. This is the sole way to tell a document-backed
    /// sampler from the synthetic default.
    pub fn index(&self) -> (r: Option<usize>)
        ensures
            r == self.spec_index(),
    {
        self.index
    }

    /// Returns the raw record.
    pub fn as_json(&self) -> (r: &'a json::Sampler)
        ensures
            *r == self.record(),
    {
        self.json
    }

    /// Magnification filter.
    pub fn mag_filter(&self) -> (r: Option<MagFilter>)
        requires
            self.record().enums_valid(),
        ensures
            r == self.record().spec_mag_filter(),
    {
        match &self.json.mag_filter {
            Some(f) => Some(f.get()),
            None => None,
        }
    }

    /// Minification filter.
    pub fn min_filter(&self) -> (r: Option<MinFilter>)
        requires
            self.record().enums_valid(),
        ensures
            r == self.record().spec_min_filter(),
    {
        match &self.json.min_filter {
            Some(f) => Some(f.get()),
            None => None,
        }
    }

    /// Optional user-defined name for this object.
    pub fn name(&self) -> (r: Option<&'a str>)
        ensures
            r is Some <==> self.record().name is Some,
            r matches Some(s) ==> (self.record().name matches Some(n) && s@ == n@),
    {
        match &self.json.name {
            Some(n) => Some(n.as_str()),
            None => None,
        }
    }

    /// `s` wrapping mode.
    pub fn wrap_s(&self) -> (r: WrappingMode)
        requires
            self.record().enums_valid(),
        ensures
            r == self.record().spec_wrap_s(),
    {
        self.json.wrap_s.get()
    }

    /// `t` wrapping mode.
    pub fn wrap_t(&self) -> (r: WrappingMode)
        requires
            self.record().enums_valid(),
        ensures
            r == self.record().spec_wrap_t(),
    {
        self.json.wrap_t.get()
    }

    /// Extension specific data.
    pub fn extensions(&self) -> (r: extensions::Sampler<'a>)
        ensures
            r.doc() == self.doc(),
            r.record() == self.record().extensions,
    {
        extensions::Sampler::new(self.gltf, &self.json.extensions)
    }

    /// Optional application specific data.
    pub fn extras(&self) -> (r: &'a json::Extras)
        ensures
            *r == self.record().extras,
    {
        &self.json.extras
    }
}

/// A texture and its sampler.
#[derive(Clone, Copy, Debug)]
pub struct Texture<'a> {
    /// The parent document root.
    gltf: &'a Document,
    /// The record's position in the document's texture array.
    index: usize,
    /// The raw record.
    json: &'a json::Texture,
}

impl<'a> Texture<'a> {
    /// The document root this view borrows from.
    pub closed spec fn doc(self) -> Document {
        *self.gltf
    }

    /// The position of the viewed record in the document's texture array.
    pub closed spec fn spec_index(self) -> usize {
        self.index
    }

    /// The raw record the view exposes.
    pub closed spec fn record(self) -> json::Texture {
        *self.json
    }

    /// The view invariant: the held record is the document's record at the
    /// held position.
    pub closed spec fn wf(self) -> bool {
        &&& self.index < self.doc().textures@.len()
        &&& self.record() == self.doc().textures@[self.index as int]
    }

    /// Constructs a `Texture` view over the record at `index`.
    pub fn new(gltf: &'a Document, index: usize, json: &'a json::Texture) -> (r: Self)
        requires
            index < gltf.textures@.len(),
            *json == gltf.textures@[index as int],
        ensures
            r.doc() == *gltf,
            r.spec_index() == index,
            r.record() == *json,
            r.wf(),
    {
        Texture { gltf, index, json }
    }

    /// Returns the position of this texture in the document's texture array.
    pub fn index(&self) -> (r: usize)
        ensures
            r == self.spec_index(),
    {
        self.index
    }

    /// Returns the raw record.
    pub fn as_json(&self) -> (r: &'a json::Texture)
        ensures
            *r == self.record(),
    {
        self.json
    }

    /// Optional user-defined name for this object.
    pub fn name(&self) -> (r: Option<&'a str>)
        ensures
            r is Some <==> self.record().name is Some,
            r matches Some(s) ==> (self.record().name matches Some(n) && s@ == n@),
    {
        match &self.json.name {
            Some(n) => Some(n.as_str()),
            None => None,
        }
    }

    /// Resolves the sampler used by this texture: the view over the
    /// referenced sampler record when the reference is present, and the
    /// default sampler view (no position, canonical default record) when it
    /// is absent.
    pub fn sampler(&self) -> (r: Sampler<'a>)
        requires
            self.wf(),
            self.doc().wf(),
        ensures
            r.doc() == self.doc(),
            r.wf(),
            r.record().enums_valid(),
            match self.record().sampler {
                Some(i) => r.spec_index() == Some(i.0 as usize) && r.record()
                    == self.doc().samplers@[i.0 as int],
                None => r.spec_index() is None && r.record() == json::default_sampler(),
            },
    {
        proof {
            assert(self.gltf.textures@[self.index as int].refs_in_range(
                self.gltf.samplers@.len() as int,
                self.gltf.images@.len() as int,
            ));
        }
        match &self.json.sampler {
            Some(sindex) => {
                let i = sindex.value();
                proof {
                    assert(self.gltf.samplers@[i as int].enums_valid());
                }
                Sampler::new(self.gltf, i, &self.gltf.samplers[i])
            },
            None => Sampler::default(self.gltf),
        }
    }

    /// Resolves the image used by this texture. The reference is mandatory:
    /// the returned view always carries a real position and never takes a
    /// default-substitution path.
    pub fn source(&self) -> (r: Image<'a>)
        requires
            self.wf(),
            self.doc().wf(),
        ensures
            r.doc() == self.doc(),
            r.wf(),
            r.spec_index() == self.record().source.0 as usize,
            r.record() == self.doc().images@[self.record().source.0 as int],
    {
        proof {
            assert(self.gltf.textures@[self.index as int].refs_in_range(
                self.gltf.samplers@.len() as int,
                self.gltf.images@.len() as int,
            ));
        }
        let i = self.json.source.value();
        Image::new(self.gltf, i, &self.gltf.images[i])
    }

    /// Extension specific data.
    pub fn extensions(&self) -> (r: extensions::Texture<'a>)
        ensures
            r.doc() == self.doc(),
            r.record() == self.record().extensions,
    {
        extensions::Texture::new(self.gltf, &self.json.extensions)
    }

    /// Optional application specific data.
    pub fn extras(&self) -> (r: &'a json::Extras)
        ensures
            *r == self.record().extras,
    {
        &self.json.extras
    }
}

/// A reference to a `Texture`: a texture view coupled with the usage record
/// that binds it to a texture-coordinate attribute set. Every texture-level
/// operation is delegated unchanged to the wrapped view, so code that only
/// needs texture-level operations may treat an `Info` as a `Texture`.
#[derive(Clone, Copy, Debug)]
pub struct Info<'a> {
    /// The wrapped texture view.
    texture: Texture<'a>,
    /// The raw usage record.
    json: &'a json::Info,
}

impl<'a> Info<'a> {
    /// The texture view the usage wraps.
    pub closed spec fn spec_texture(self) -> Texture<'a> {
        self.texture
    }

    /// The raw usage record the view exposes.
    pub closed spec fn record(self) -> json::Info {
        *self.json
    }

    /// Constructs a reference to a `Texture` from an already-constructed
    /// texture view and the raw usage record.
    pub fn new(texture: Texture<'a>, json: &'a json::Info) -> (r: Self)
        ensures
            r.spec_texture() == texture,
            r.record() == *json,
    {
        Info { texture, json }
    }

    /// Returns the raw usage record.
    pub fn as_json(&self) -> (r: &'a json::Info)
        ensures
            *r == self.record(),
    {
        self.json
    }

    /// The set index of the texture's `TEXCOORD` attribute, exactly as the
    /// usage record stores it; the raw layer has already substituted the
    /// documented default (0) where the source document omitted the field.
    pub fn tex_coord(&self) -> (r: u32)
        ensures
            r == self.record().tex_coord,
    {
        self.json.tex_coord
    }

    /// The wrapped texture view; texture-level extension and metadata
    /// accessors are reached through it.
    pub fn texture(&self) -> (r: &Texture<'a>)
        ensures
            *r == self.spec_texture(),
    {
        &self.texture
    }

    /// Delegates to the wrapped texture view's `index`.
    pub fn index(&self) -> (r: usize)
        ensures
            r == self.spec_texture().spec_index(),
    {
        self.texture.index()
    }

    /// Delegates to the wrapped texture view's `sampler`.
    pub fn sampler(&self) -> (r: Sampler<'a>)
        requires
            self.spec_texture().wf(),
            self.spec_texture().doc().wf(),
        ensures
            r.doc() == self.spec_texture().doc(),
            r.wf(),
            r.record().enums_valid(),
            match self.spec_texture().record().sampler {
                Some(i) => r.spec_index() == Some(i.0 as usize) && r.record()
                    == self.spec_texture().doc().samplers@[i.0 as int],
                None => r.spec_index() is None && r.record() == json::default_sampler(),
            },
    {
        self.texture.sampler()
    }

    /// Delegates to the wrapped texture view's `source`.
    pub fn source(&self) -> (r: Image<'a>)
        requires
            self.spec_texture().wf(),
            self.spec_texture().doc().wf(),
        ensures
            r.doc() == self.spec_texture().doc(),
            r.wf(),
            r.spec_index() == self.spec_texture().record().source.0 as usize,
            r.record() == self.spec_texture().doc().images@[self.spec_texture().record().source.0
                as int],
    {
        self.texture.source()
    }

    /// Extension specific data scoped to the usage record, a namespace
    /// distinct from the wrapped texture's own extensions. The shim carries
    /// the wrapped texture view, so extension schemas may reference texture
    /// fields.
    pub fn extensions(&self) -> (r: extensions::Info<'a>)
        ensures
            r.spec_texture() == self.spec_texture(),
            r.record() == self.record().extensions,
    {
        extensions::Info::new(self.texture, &self.json.extensions)
    }

    /// Optional application specific data of the usage record itself, not of
    /// the wrapped texture.
    pub fn extras(&self) -> (r: &'a json::Extras)
        ensures
            *r == self.record().extras,
    {
        &self.json.extras
    }
}

/// Law: within one document, all default sampler views observe the identical
/// record. A sampler view without a position shows the document's one default
/// sampler record, whatever call produced the view.
pub proof fn lemma_default_sampler_stable(a: Sampler, b: Sampler)
    requires
        a.wf(),
        b.wf(),
        a.spec_index() is None,
        b.spec_index() is None,
        a.doc() == b.doc(),
    ensures
        a.record() == b.record(),
{
}

/// Law: over a well-formed document, a sampler view without a position shows
/// the documented format defaults: no filter preference and repeat wrapping
/// on both axes.
pub proof fn lemma_default_sampler_defaults(s: Sampler)
    requires
        s.wf(),
        s.doc().wf(),
        s.spec_index() is None,
    ensures
        s.record() == json::default_sampler(),
        s.record().spec_mag_filter() is None,
        s.record().spec_min_filter() is None,
        s.record().spec_wrap_s() == WrappingMode::Repeat,
        s.record().spec_wrap_t() == WrappingMode::Repeat,
        s.record().enums_valid(),
{
}

} // verus!
