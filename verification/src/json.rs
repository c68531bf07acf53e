//! Raw record types for one loaded document: flat data as the parsing layer
//! leaves it, before any view is constructed over it.

use vstd::prelude::*;

verus! {

/// Magnification filter applied when a texture is sampled at a scale larger
/// than one texel per pixel.
#[derive(Clone, Copy, Debug, PartialEq, Eq, Structural)]
pub enum MagFilter {
    Nearest,
    Linear,
}

/// Minification filter applied when a texture is sampled at a scale smaller
/// than one texel per pixel.
#[derive(Clone, Copy, Debug, PartialEq, Eq, Structural)]
pub enum MinFilter {
    Nearest,
    Linear,
    NearestMipmapNearest,
    LinearMipmapNearest,
    NearestMipmapLinear,
    LinearMipmapLinear,
}

/// Wrapping mode applied to a texture coordinate axis outside `[0, 1]`.
#[derive(Clone, Copy, Debug, PartialEq, Eq, Structural)]
pub enum WrappingMode {
    ClampToEdge,
    MirroredRepeat,
    Repeat,
}

/// An enumerated field as the parsing layer leaves it: either a recognised
/// member of its closed enumeration, or a value outside it. Accessor layers
/// only unwrap fields that a prior validation pass has shown to be `Valid`.
#[derive(Clone, Copy, Debug, PartialEq, Eq)]
pub enum Checked<T> {
    Valid(T),
    Invalid,
}

impl<T> Checked<T> {
    /// Whether the field holds a recognised member of its enumeration.
    pub open spec fn is_valid(self) -> bool {
        self is Valid
    }

    /// Runtime test matching `is_valid`.
    pub fn check(&self) -> (r: bool)
        ensures
            r == self.is_valid(),
    {
        match self {
            Checked::Valid(_) => true,
            Checked::Invalid => false,
        }
    }
}

impl<T: Copy> Checked<T> {
    /// The recognised member; callers must have established validity first.
    pub fn get(&self) -> (r: T)
        requires
            self.is_valid(),
        ensures
            r == self->0,
    {
        match self {
            Checked::Valid(v) => *v,
            Checked::Invalid => vstd::pervasive::unreached(),
        }
    }
}

/// Opaque application-specific metadata attached to a record; carried through
/// unexamined.
#[derive(Clone, Debug)]
pub struct Extras {
    pub raw: Option<String>,
}

/// Raw extension payload attached to a sampler record. Vendor extensions this
/// layer does not interpret are preserved opaquely.
#[derive(Clone, Debug)]
pub struct SamplerExtensions {
    pub others: Extras,
}

/// Raw extension payload attached to a texture record.
#[derive(Clone, Debug)]
pub struct TextureExtensions {
    pub others: Extras,
}

/// Raw extension payload attached to a texture-usage record; a namespace
/// distinct from the referenced texture's own extensions.
#[derive(Clone, Debug)]
pub struct InfoExtensions {
    pub others: Extras,
}

/// A positional reference into one of the document root's arrays.
#[derive(Clone, Copy, Debug, PartialEq, Eq, Structural)]
pub struct Index(pub u32);

impl Index {
    /// The referenced position.
    pub fn value(&self) -> (r: usize)
        ensures
            r == self.0 as usize,
    {
        self.0 as usize
    }
}

/// Raw sampler record: filtering and wrapping modes.
#[derive(Clone, Debug)]
pub struct Sampler {
    /// Optional magnification filter.
    pub mag_filter: Option<Checked<MagFilter>>,
    /// Optional minification filter.
    pub min_filter: Option<Checked<MinFilter>>,
    /// Optional user-defined name.
    pub name: Option<String>,
    /// `s` wrapping mode; the raw layer guarantees presence.
    pub wrap_s: Checked<WrappingMode>,
    /// `t` wrapping mode; the raw layer guarantees presence.
    pub wrap_t: Checked<WrappingMode>,
    /// Extension payload.
    pub extensions: SamplerExtensions,
    /// Application-specific metadata.
    pub extras: Extras,
}

impl Sampler {
    /// Every enumerated field holds a recognised member of its enumeration,
    /// as the raw schema guarantees after a successful parse.
    pub open spec fn enums_valid(self) -> bool {
        &&& (self.mag_filter matches Some(f) ==> f.is_valid())
        &&& (self.min_filter matches Some(f) ==> f.is_valid())
        &&& self.wrap_s.is_valid()
        &&& self.wrap_t.is_valid()
    }

    /// Runtime test matching `enums_valid`.
    pub fn check_enums(&self) -> (r: bool)
        ensures
            r == self.enums_valid(),
    {
        let mag_ok = match &self.mag_filter {
            Some(f) => f.check(),
            None => true,
        };
        let min_ok = match &self.min_filter {
            Some(f) => f.check(),
            None => true,
        };
        mag_ok && min_ok && self.wrap_s.check() && self.wrap_t.check()
    }

    /// The magnification filter the record denotes, for a valid record.
    pub open spec fn spec_mag_filter(self) -> Option<MagFilter> {
        match self.mag_filter {
            Some(f) => Some(f->0),
            None => None,
        }
    }

    /// The minification filter the record denotes, for a valid record.
    pub open spec fn spec_min_filter(self) -> Option<MinFilter> {
        match self.min_filter {
            Some(f) => Some(f->0),
            None => None,
        }
    }

    /// The `s` wrapping mode the record denotes, for a valid record.
    pub open spec fn spec_wrap_s(self) -> WrappingMode {
        self.wrap_s->0
    }

    /// The `t` wrapping mode the record denotes, for a valid record.
    pub open spec fn spec_wrap_t(self) -> WrappingMode {
        self.wrap_t->0
    }
}

/// The canonical default sampler record, substituted when a texture holds no
/// sampler reference: no filter preference, repeat wrapping on both axes.
pub open spec fn default_sampler() -> Sampler {
    Sampler {
        mag_filter: None,
        min_filter: None,
        name: None,
        wrap_s: Checked::Valid(WrappingMode::Repeat),
        wrap_t: Checked::Valid(WrappingMode::Repeat),
        extensions: SamplerExtensions { others: Extras { raw: None } },
        extras: Extras { raw: None },
    }
}

impl Default for Sampler {
    /// Builds the canonical default sampler record.
    fn default() -> (r: Self)
        ensures
            r == default_sampler(),
    {
        Sampler {
            mag_filter: None,
            min_filter: None,
            name: None,
            wrap_s: Checked::Valid(WrappingMode::Repeat),
            wrap_t: Checked::Valid(WrappingMode::Repeat),
            extensions: SamplerExtensions { others: Extras { raw: None } },
            extras: Extras { raw: None },
        }
    }
}

/// Raw texture record: an optional sampler reference and a mandatory image
/// reference.
#[derive(Clone, Debug)]
pub struct Texture {
    /// Optional user-defined name.
    pub name: Option<String>,
    /// Optional reference into the document's sampler array; absent means
    /// "use the default sampler".
    pub sampler: Option<Index>,
    /// Mandatory reference into the document's image array.
    pub source: Index,
    /// Extension payload.
    pub extensions: TextureExtensions,
    /// Application-specific metadata.
    pub extras: Extras,
}

impl Texture {
    /// Both index references fall inside the arrays they point into.
    pub open spec fn refs_in_range(self, samplers_len: int, images_len: int) -> bool {
        &&& (self.sampler matches Some(i) ==> i.0 < samplers_len)
        &&& self.source.0 < images_len
    }

    /// Runtime test matching `refs_in_range`.
    pub fn check_refs(&self, samplers_len: usize, images_len: usize) -> (r: bool)
        ensures
            r == self.refs_in_range(samplers_len as int, images_len as int),
    {
        let sampler_ok = match &self.sampler {
            Some(i) => (i.0 as usize) < samplers_len,
            None => true,
        };
        sampler_ok && (self.source.0 as usize) < images_len
    }
}

/// Raw texture-usage record: a texture reference plus the texture-coordinate
/// attribute set the usage binds to. The raw layer has already substituted the
/// documented default (0) where the source document omitted `tex_coord`.
#[derive(Clone, Debug)]
pub struct Info {
    /// Mandatory reference into the document's texture array.
    pub index: Index,
    /// The bound texture-coordinate attribute set.
    pub tex_coord: u32,
    /// Extension payload scoped to the usage, not the texture.
    pub extensions: InfoExtensions,
    /// Application-specific metadata.
    pub extras: Extras,
}

/// Raw image record.
#[derive(Clone, Debug)]
pub struct Image {
    /// Optional user-defined name.
    pub name: Option<String>,
    /// Optional location of the image data.
    pub uri: Option<String>,
    /// Application-specific metadata.
    pub extras: Extras,
}

} // verus!
