use gltf_views::json::{
    Checked, Extras, Image as ImageRecord, Index, Info as InfoRecord, InfoExtensions, MagFilter,
    MinFilter, Sampler as SamplerRecord, SamplerExtensions, Texture as TextureRecord,
    TextureExtensions, WrappingMode,
};
use gltf_views::texture::{Info, Sampler, Texture};
use gltf_views::{Document, Error};

fn extras(text: Option<&str>) -> Extras {
    Extras { raw: text.map(|s| s.to_string()) }
}

fn image_record() -> ImageRecord {
    ImageRecord { name: None, uri: Some("albedo.png".to_string()), extras: extras(None) }
}

fn sampler_record() -> SamplerRecord {
    SamplerRecord {
        mag_filter: Some(Checked::Valid(MagFilter::Nearest)),
        min_filter: Some(Checked::Valid(MinFilter::Linear)),
        name: None,
        wrap_s: Checked::Valid(WrappingMode::Repeat),
        wrap_t: Checked::Valid(WrappingMode::ClampToEdge),
        extensions: SamplerExtensions { others: extras(None) },
        extras: extras(None),
    }
}

fn texture_record(sampler: Option<u32>, source: u32) -> TextureRecord {
    TextureRecord {
        name: None,
        sampler: sampler.map(Index),
        source: Index(source),
        extensions: TextureExtensions { others: extras(None) },
        extras: extras(None),
    }
}

fn info_record(index: u32, tex_coord: u32) -> InfoRecord {
    InfoRecord {
        index: Index(index),
        tex_coord,
        extensions: InfoExtensions { others: extras(None) },
        extras: extras(None),
    }
}

fn one_texture_document(sampler: Option<u32>) -> Document {
    Document::new(
        vec![sampler_record()],
        vec![texture_record(sampler, 0)],
        vec![image_record()],
    )
    .unwrap()
}

#[test]
fn sampler_present_scenario() {
    let doc = one_texture_document(Some(0));
    let texture = doc.texture(0).unwrap();
    let sampler = texture.sampler();
    assert_eq!(sampler.index(), Some(0));
    assert_eq!(sampler.mag_filter(), Some(MagFilter::Nearest));
    assert_eq!(sampler.min_filter(), Some(MinFilter::Linear));
    assert_eq!(sampler.wrap_s(), WrappingMode::Repeat);
    assert_eq!(sampler.wrap_t(), WrappingMode::ClampToEdge);
}

#[test]
fn sampler_absent_scenario() {
    let doc = one_texture_document(None);
    let texture = doc.texture(0).unwrap();
    let sampler = texture.sampler();
    assert_eq!(sampler.index(), None);
    assert_eq!(sampler.wrap_s(), WrappingMode::Repeat);
    assert_eq!(sampler.wrap_t(), WrappingMode::Repeat);
    assert_eq!(sampler.mag_filter(), None);
    assert_eq!(sampler.min_filter(), None);
}

#[test]
fn info_scenario() {
    let doc = one_texture_document(Some(0));
    let record = info_record(0, 2);
    let texture = doc.texture(record.index.value()).unwrap();
    let info = Info::new(texture, &record);
    assert_eq!(info.tex_coord(), 2);
    assert_eq!(info.source().index(), doc.texture(0).unwrap().source().index());
}

#[test]
fn default_sampler_is_stable() {
    let doc = one_texture_document(None);
    let first = Sampler::default(&doc);
    let second = Sampler::default(&doc);
    assert_eq!(first.index(), second.index());
    assert_eq!(first.mag_filter(), second.mag_filter());
    assert_eq!(first.min_filter(), second.min_filter());
    assert_eq!(first.wrap_s(), second.wrap_s());
    assert_eq!(first.wrap_t(), second.wrap_t());
    let resolved = doc.texture(0).unwrap().sampler();
    assert_eq!(resolved.index(), first.index());
    assert_eq!(resolved.wrap_s(), first.wrap_s());
    assert_eq!(resolved.wrap_t(), first.wrap_t());
}

#[test]
fn present_sampler_fields_untransformed() {
    let doc = one_texture_document(Some(0));
    let sampler = doc.texture(0).unwrap().sampler();
    let raw = sampler.as_json();
    assert_eq!(sampler.mag_filter(), Some(MagFilter::Nearest));
    assert_eq!(raw.mag_filter, Some(Checked::Valid(MagFilter::Nearest)));
    assert_eq!(raw.wrap_t, Checked::Valid(WrappingMode::ClampToEdge));
    let direct = doc.sampler(0).unwrap();
    assert_eq!(direct.index(), sampler.index());
    assert_eq!(direct.wrap_t(), sampler.wrap_t());
}

#[test]
fn source_always_carries_index() {
    let doc = Document::new(
        vec![],
        vec![texture_record(None, 1)],
        vec![image_record(), image_record()],
    )
    .unwrap();
    let image = doc.texture(0).unwrap().source();
    assert_eq!(image.index(), 1);
    assert_eq!(image.uri(), Some("albedo.png"));
}

#[test]
fn info_delegates_to_texture() {
    let doc = one_texture_document(Some(0));
    let record = info_record(0, 0);
    let texture = doc.texture(0).unwrap();
    let info = Info::new(texture, &record);
    assert_eq!(info.index(), texture.index());
    assert_eq!(info.sampler().index(), texture.sampler().index());
    assert_eq!(info.sampler().wrap_s(), texture.sampler().wrap_s());
    assert_eq!(info.source().index(), texture.source().index());
    assert_eq!(info.texture().index(), texture.index());
    assert_eq!(
        info.texture().extras().raw.as_deref(),
        texture.extras().raw.as_deref()
    );
}

#[test]
fn info_extras_are_usage_scoped() {
    let doc = Document::new(
        vec![],
        vec![TextureRecord {
            name: None,
            sampler: None,
            source: Index(0),
            extensions: TextureExtensions { others: extras(Some("texture-vendor")) },
            extras: extras(Some("texture-extras")),
        }],
        vec![image_record()],
    )
    .unwrap();
    let record = InfoRecord {
        index: Index(0),
        tex_coord: 0,
        extensions: InfoExtensions { others: extras(Some("usage-vendor")) },
        extras: extras(Some("usage-extras")),
    };
    let texture = doc.texture(0).unwrap();
    let info = Info::new(texture, &record);
    assert_eq!(info.extras().raw.as_deref(), Some("usage-extras"));
    assert_eq!(info.texture().extras().raw.as_deref(), Some("texture-extras"));
    assert_eq!(info.extensions().others().raw.as_deref(), Some("usage-vendor"));
    assert_eq!(
        info.texture().extensions().others().raw.as_deref(),
        Some("texture-vendor")
    );
    assert_eq!(info.extensions().texture().index(), texture.index());
}

#[test]
fn tex_coord_returns_stored_value() {
    let doc = one_texture_document(None);
    let zero = info_record(0, 0);
    let seven = info_record(0, 7);
    let texture = doc.texture(0).unwrap();
    assert_eq!(Info::new(texture, &zero).tex_coord(), 0);
    assert_eq!(Info::new(texture, &seven).tex_coord(), 7);
    assert_eq!(Info::new(texture, &seven).as_json().tex_coord, 7);
}

#[test]
fn names_are_exposed() {
    let mut sampler = sampler_record();
    sampler.name = Some("trilinear".to_string());
    let mut texture = texture_record(Some(0), 0);
    texture.name = Some("albedo".to_string());
    let mut image = image_record();
    image.name = Some("albedo-image".to_string());
    let doc = Document::new(vec![sampler], vec![texture], vec![image]).unwrap();
    let view = doc.texture(0).unwrap();
    assert_eq!(view.name(), Some("albedo"));
    assert_eq!(view.sampler().name(), Some("trilinear"));
    assert_eq!(view.source().name(), Some("albedo-image"));
    assert_eq!(Sampler::default(&doc).name(), None);
}

#[test]
fn sampler_extensions_carry_payload() {
    let record = SamplerRecord {
        extensions: SamplerExtensions { others: extras(Some("sampler-vendor")) },
        ..sampler_record()
    };
    let doc = Document::new(
        vec![record],
        vec![texture_record(Some(0), 0)],
        vec![image_record()],
    )
    .unwrap();
    let sampler = doc.texture(0).unwrap().sampler();
    assert_eq!(sampler.extensions().others().raw.as_deref(), Some("sampler-vendor"));
    assert_eq!(Sampler::default(&doc).extensions().others().raw, None);
}

#[test]
fn document_rejects_dangling_sampler_ref() {
    let r = Document::new(
        vec![sampler_record()],
        vec![texture_record(Some(1), 0)],
        vec![image_record()],
    );
    assert_eq!(r.err(), Some(Error::IndexOutOfRange));
}

#[test]
fn document_rejects_dangling_source_ref() {
    let r = Document::new(vec![], vec![texture_record(None, 0)], vec![]);
    assert_eq!(r.err(), Some(Error::IndexOutOfRange));
}

#[test]
fn document_rejects_unrecognised_enum() {
    let mut bad = sampler_record();
    bad.wrap_s = Checked::Invalid;
    let r = Document::new(vec![bad], vec![], vec![]);
    assert_eq!(r.err(), Some(Error::InvalidEnum));
    let mut bad_filter = sampler_record();
    bad_filter.mag_filter = Some(Checked::Invalid);
    let r = Document::new(vec![bad_filter], vec![], vec![]);
    assert_eq!(r.err(), Some(Error::InvalidEnum));
}

#[test]
fn document_keeps_arrays_in_order() {
    let mut first = sampler_record();
    first.name = Some("first".to_string());
    let mut second = sampler_record();
    second.name = Some("second".to_string());
    let doc = Document::new(
        vec![first, second],
        vec![texture_record(Some(1), 0), texture_record(Some(0), 0)],
        vec![image_record()],
    )
    .unwrap();
    assert_eq!(doc.sampler(0).unwrap().name(), Some("first"));
    assert_eq!(doc.sampler(1).unwrap().name(), Some("second"));
    assert_eq!(doc.texture(0).unwrap().sampler().name(), Some("second"));
    assert_eq!(doc.texture(1).unwrap().sampler().name(), Some("first"));
    assert_eq!(doc.texture(0).unwrap().sampler().index(), Some(1));
    assert_eq!(doc.texture(1).unwrap().sampler().index(), Some(0));
}

#[test]
fn lookup_out_of_range_is_none() {
    let doc = one_texture_document(None);
    assert!(doc.texture(1).is_none());
    assert!(doc.sampler(1).is_none());
    assert!(doc.image(1).is_none());
    assert!(doc.texture(0).is_some());
}

#[test]
fn empty_document_is_accepted() {
    let doc = Document::new(vec![], vec![], vec![]).unwrap();
    assert!(doc.texture(0).is_none());
    let default = Sampler::default(&doc);
    assert_eq!(default.index(), None);
    assert_eq!(default.wrap_s(), WrappingMode::Repeat);
}
