use pbrtrs_core::bsdf::BSDF;
use pbrtrs_core::bxdf::{BxDFKind, BxDFModel};
use pbrtrs_core::light::LightKind;
use pbrtrs_core::material::{
    disney_lobes, DisneyLobe, DisneyTraits, EmptyMaterial, TransportMode,
};

#[test]
fn flag_bits() {
    assert_eq!(BxDFKind::reflection().to_bits(), 1);
    assert_eq!(BxDFKind::transmission().to_bits(), 2);
    assert_eq!(BxDFKind::diffuse().to_bits(), 4);
    assert_eq!(BxDFKind::glossy().to_bits(), 8);
    assert_eq!(BxDFKind::specular().to_bits(), 16);
    assert_eq!(BxDFKind::all().to_bits(), 31);
    assert_eq!(BxDFKind::from_bits(5), BxDFKind(5));
}

#[test]
fn flag_operations() {
    let lambert = BxDFKind::diffuse().set(BxDFKind::reflection());
    assert_eq!(lambert.to_bits(), 5);
    assert!(lambert.has(BxDFKind::reflection()));
    assert!(!lambert.has(BxDFKind::specular()));
    assert_eq!(lambert.unset(BxDFKind::diffuse()), BxDFKind::reflection());
    assert_eq!(lambert.mask(BxDFKind::diffuse()), BxDFKind::diffuse());
    assert_eq!(lambert.not().to_bits(), 250);
    assert_eq!(BxDFKind::all().unset(BxDFKind::specular()).to_bits(), 15);
}

#[test]
fn matching_is_containment() {
    let lambert = BxDFKind::diffuse().set(BxDFKind::reflection());
    assert!(lambert.matches(BxDFKind::all()));
    assert!(lambert.matches(lambert));
    assert!(!lambert.matches(BxDFKind::reflection()));
    assert!(BxDFKind::reflection().matches(lambert));
    let mirror = BxDFKind::reflection().set(BxDFKind::specular());
    assert!(!mirror.matches(BxDFKind::all().unset(BxDFKind::specular())));
    assert!(BxDFKind::from_bits(0).matches(BxDFKind::from_bits(0)));
}

#[test]
fn model_kinds() {
    assert_eq!(BxDFModel::Lambertian.kind().to_bits(), 4 | 1);
    assert_eq!(BxDFModel::ReflectionSpecular.kind().to_bits(), 1 | 16);
    assert_eq!(BxDFModel::TransmissionSpecular.kind().to_bits(), 2 | 16);
    assert_eq!(BxDFModel::FresnelSpecular.kind().to_bits(), 1 | 2 | 16);
    assert_eq!(
        BxDFModel::MicrofacetReflection { specular: false }.kind().to_bits(),
        1 | 8
    );
    assert_eq!(
        BxDFModel::MicrofacetReflection { specular: true }.kind().to_bits(),
        1 | 8 | 16
    );
}

#[test]
fn specular_models_fail_the_non_specular_query() {
    let query = BxDFKind::all().unset(BxDFKind::specular());
    for model in [
        BxDFModel::ReflectionSpecular,
        BxDFModel::TransmissionSpecular,
        BxDFModel::FresnelSpecular,
        BxDFModel::MicrofacetReflection { specular: true },
    ] {
        assert!(!model.kind().matches(query));
        let mut bsdf = BSDF::new();
        bsdf.add(model.kind());
        assert!(bsdf.f_terms(query, true).is_empty());
        assert!(bsdf.f_terms(query, false).is_empty());
        assert!(bsdf.pdf_terms(query).is_empty());
    }
    assert!(BxDFModel::Lambertian.kind().matches(query));
}

#[test]
fn transport_mode_scaling() {
    assert!(TransportMode::Radiance.scales_transmission());
    assert!(!TransportMode::Importance.scales_transmission());
    assert_eq!(TransportMode::Radiance, TransportMode::Radiance);
}

#[test]
fn empty_material_has_no_term() {
    let bsdf = EmptyMaterial.compute_scattering();
    assert_eq!(bsdf.len(), 0);
    assert_eq!(bsdf.num_components(BxDFKind::all()), 0);
}

fn traits(a: bool, b: bool, c: bool, d: bool) -> DisneyTraits {
    DisneyTraits { transmits: a, fully_metallic: b, clearcoated: c, allow_multiple_lobes: d }
}

#[test]
fn layered_material_lobes() {
    assert_eq!(disney_lobes(traits(true, false, true, true)), vec![DisneyLobe::Transmission]);
    assert_eq!(
        disney_lobes(traits(false, false, false, true)),
        vec![DisneyLobe::Diffuse, DisneyLobe::Specular]
    );
    assert_eq!(disney_lobes(traits(false, true, false, true)), vec![DisneyLobe::Specular]);
    assert_eq!(
        disney_lobes(traits(false, false, true, true)),
        vec![DisneyLobe::Diffuse, DisneyLobe::Specular, DisneyLobe::Clearcoat]
    );
    assert_eq!(
        disney_lobes(traits(false, false, true, false)),
        vec![DisneyLobe::Diffuse, DisneyLobe::Specular]
    );
    assert_eq!(
        disney_lobes(traits(false, true, true, true)),
        vec![DisneyLobe::Specular, DisneyLobe::Clearcoat]
    );
}

#[test]
fn lobe_models() {
    assert_eq!(DisneyLobe::Transmission.model(false), BxDFModel::TransmissionSpecular);
    assert_eq!(DisneyLobe::Diffuse.model(true), BxDFModel::Lambertian);
    assert_eq!(
        DisneyLobe::Specular.model(true),
        BxDFModel::MicrofacetReflection { specular: true }
    );
    assert_eq!(
        DisneyLobe::Clearcoat.model(false),
        BxDFModel::MicrofacetReflection { specular: false }
    );
}

#[test]
fn kind_texts() {
    assert_eq!(BxDFKind::from_bits(0).describe(), "BxDFKind()");
    assert_eq!(BxDFModel::Lambertian.kind().describe(), "BxDFKind(REFLECTION DIFFUSE )");
    assert_eq!(
        BxDFKind::all().describe(),
        "BxDFKind(REFLECTION TRANSMISSION DIFFUSE GLOSSY SPECULAR )"
    );
    assert_eq!(LightKind::from_bits(0).describe(), "LightKind()");
    assert_eq!(
        LightKind::infinite().set(LightKind::no_bg()).describe(),
        "LightKind(INFINITE NO_BG )"
    );
    assert_eq!(
        LightKind::from_bits(7).describe(),
        "LightKind(DELTA_POSITION DELTA_DIRECTION AREA )"
    );
}

#[test]
fn sampled_kinds() {
    assert_eq!(BxDFModel::FresnelSpecular.sampled_kind(true).to_bits(), 17);
    assert_eq!(BxDFModel::FresnelSpecular.sampled_kind(false).to_bits(), 18);
    assert_eq!(BxDFModel::Lambertian.sampled_kind(false).to_bits(), 5);
    assert_eq!(BxDFModel::ReflectionSpecular.sampled_kind(false).to_bits(), 17);
    assert_eq!(BxDFModel::TransmissionSpecular.sampled_kind(true).to_bits(), 18);
    assert_eq!(
        BxDFModel::MicrofacetReflection { specular: true }.sampled_kind(true).to_bits(),
        25
    );
}
