//! Extension composition shims: one wrapper per entity kind, holding a
//! back-reference to the document root (or, for usage records, the wrapped
//! texture view) together with a reference to that entity's raw extension
//! payload. Construction costs nothing beyond holding the two references.

use vstd::prelude::*;

verus! {

use crate::Document;
use crate::json;

/// Extension data scoped to a sampler record.
#[derive(Clone, Copy, Debug)]
pub struct Sampler<'a> {
    /// The parent document root.
    gltf: &'a Document,
    /// The raw extension payload.
    json: &'a json::SamplerExtensions,
}

impl<'a> Sampler<'a> {
    /// The document root this shim borrows from.
    pub closed spec fn doc(self) -> Document {
        *self.gltf
    }

    /// The raw extension payload this shim exposes.
    pub closed spec fn record(self) -> json::SamplerExtensions {
        *self.json
    }

    /// Constructs a sampler extension shim.
    pub fn new(gltf: &'a Document, json: &'a json::SamplerExtensions) -> (r: Self)
        ensures
            r.doc() == *gltf,
            r.record() == *json,
    {
        Sampler { gltf, json }
    }

    /// Vendor extensions this layer does not interpret, preserved opaquely.
    pub fn others(&self) -> (r: &'a json::Extras)
        ensures
            *r == self.record().others,
    {
        &self.json.others
    }
}

/// Extension data scoped to a texture record.
#[derive(Clone, Copy, Debug)]
pub struct Texture<'a> {
    /// The parent document root.
    gltf: &'a Document,
    /// The raw extension payload.
    json: &'a json::TextureExtensions,
}

impl<'a> Texture<'a> {
    /// The document root this shim borrows from.
    pub closed spec fn doc(self) -> Document {
        *self.gltf
    }

    /// The raw extension payload this shim exposes.
    pub closed spec fn record(self) -> json::TextureExtensions {
        *self.json
    }

    /// Constructs a texture extension shim.
    pub fn new(gltf: &'a Document, json: &'a json::TextureExtensions) -> (r: Self)
        ensures
            r.doc() == *gltf,
            r.record() == *json,
    {
        Texture { gltf, json }
    }

    /// Vendor extensions this layer does not interpret, preserved opaquely.
    pub fn others(&self) -> (r: &'a json::Extras)
        ensures
            *r == self.record().others,
    {
        &self.json.others
    }
}

/// Extension data scoped to a texture-usage record. It carries the wrapped
/// texture view itself, so extension schemas may reference texture fields.
#[derive(Clone, Copy, Debug)]
pub struct Info<'a> {
    /// The texture view the usage wraps.
    texture: crate::texture::Texture<'a>,
    /// The raw extension payload of the usage record.
    json: &'a json::InfoExtensions,
}

impl<'a> Info<'a> {
    /// The texture view this shim carries.
    pub closed spec fn spec_texture(self) -> crate::texture::Texture<'a> {
        self.texture
    }

    /// The raw extension payload this shim exposes.
    pub closed spec fn record(self) -> json::InfoExtensions {
        *self.json
    }

    /// Constructs a usage-scoped extension shim.
    pub fn new(texture: crate::texture::Texture<'a>, json: &'a json::InfoExtensions) -> (r: Self)
        ensures
            r.spec_texture() == texture,
            r.record() == *json,
    {
        Info { texture, json }
    }

    /// The texture view this shim carries.
    pub fn texture(&self) -> (r: &crate::texture::Texture<'a>)
        ensures
            *r == self.spec_texture(),
    {
        &self.texture
    }

    /// Vendor extensions this layer does not interpret, preserved opaquely.
    pub fn others(&self) -> (r: &'a json::Extras)
        ensures
            *r == self.record().others,
    {
        &self.json.others
    }
}

} // verus!
