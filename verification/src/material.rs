use crate::bsdf::BSDF;
use crate::bxdf::{BxDFKind, BxDFModel};
use vstd::prelude::*;

verus! {

/// What a path carries from the camera (importance) or from a light
/// (radiance).
#[derive(Clone, Copy, Debug, PartialEq, Eq, Structural)]
pub enum TransportMode {
    Radiance,
    Importance,
}

impl TransportMode {
    /// Whether a refracted contribution is scaled by the squared ratio of
    /// the refraction indices: radiance is, importance is not.
    pub open spec fn spec_scales_transmission(self) -> bool {
        self == TransportMode::Radiance
    }

    pub fn scales_transmission(self) -> (r: bool)
        ensures
            r == self.spec_scales_transmission(),
    {
        match self {
            TransportMode::Radiance => true,
            TransportMode::Importance => false,
        }
    }
}

/// A material without any term.
#[derive(Clone, Copy, Debug, PartialEq, Eq, Structural)]
pub struct EmptyMaterial;

impl EmptyMaterial {
    /// The aggregate of a surface of this material: it holds no term.
    pub fn compute_scattering(&self) -> (r: BSDF)
        ensures
            r.kinds() == Seq::<BxDFKind>::empty(),
    {
        BSDF::new()
    }
}

/// The lobes of the layered material.
#[derive(Clone, Copy, Debug, PartialEq, Eq, Structural)]
pub enum DisneyLobe {
    /// Refraction through the surface.
    Transmission,
    /// The diffuse base, scaled by what is not metallic.
    Diffuse,
    /// The microfacet lobe, its roughness stretched by the anisotropy.
    Specular,
    /// The second microfacet lobe, of a clear coat.
    Clearcoat,
}

impl DisneyLobe {
    /// The reflectance model that stands for a lobe; `mirror_like` says that
    /// the lobe's roughness lies under the threshold.
    pub open spec fn spec_model(self, mirror_like: bool) -> BxDFModel {
        match self {
            DisneyLobe::Transmission => BxDFModel::TransmissionSpecular,
            DisneyLobe::Diffuse => BxDFModel::Lambertian,
            DisneyLobe::Specular => BxDFModel::MicrofacetReflection { specular: mirror_like },
            DisneyLobe::Clearcoat => BxDFModel::MicrofacetReflection { specular: mirror_like },
        }
    }

    pub fn model(self, mirror_like: bool) -> (r: BxDFModel)
        ensures
            r == self.spec_model(mirror_like),
    {
        match self {
            DisneyLobe::Transmission => BxDFModel::TransmissionSpecular,
            DisneyLobe::Diffuse => BxDFModel::Lambertian,
            DisneyLobe::Specular => BxDFModel::MicrofacetReflection { specular: mirror_like },
            DisneyLobe::Clearcoat => BxDFModel::MicrofacetReflection { specular: mirror_like },
        }
    }
}

/// What the lobes of the layered material depend on at a surface point.
#[derive(Clone, Copy, Debug, PartialEq, Eq, Structural)]
pub struct DisneyTraits {
    /// The transmission parameter is above zero.
    pub transmits: bool,
    /// The metallic parameter is one.
    pub fully_metallic: bool,
    /// The clear coat parameter is not zero.
    pub clearcoated: bool,
    /// More than the base lobes may be built.
    pub allow_multiple_lobes: bool,
}

/// The lobes of the layered material, in the order in which their terms
/// join the aggregate. A transmitting material is its transmission lobe
/// alone. Any other has a diffuse lobe unless it is fully metallic, then
/// the specular lobe, then the clear coat if it has one and further
/// lobes are allowed.
pub open spec fn spec_disney_lobes(traits: DisneyTraits) -> Seq<DisneyLobe> {
    if traits.transmits {
        seq![DisneyLobe::Transmission]
    } else {
        (if traits.fully_metallic {
            Seq::<DisneyLobe>::empty()
        } else {
            seq![DisneyLobe::Diffuse]
        }) + seq![DisneyLobe::Specular] + (if traits.allow_multiple_lobes && traits.clearcoated {
            seq![DisneyLobe::Clearcoat]
        } else {
            Seq::<DisneyLobe>::empty()
        })
    }
}

pub fn disney_lobes(traits: DisneyTraits) -> (r: Vec<DisneyLobe>)
    ensures
        r@ == spec_disney_lobes(traits),
{
    let mut lobes: Vec<DisneyLobe> = Vec::new();
    if traits.transmits {
        lobes.push(DisneyLobe::Transmission);
        assert(lobes@ =~= spec_disney_lobes(traits));
        return lobes;
    }
    if !traits.fully_metallic {
        lobes.push(DisneyLobe::Diffuse);
    }
    lobes.push(DisneyLobe::Specular);
    if traits.allow_multiple_lobes && traits.clearcoated {
        lobes.push(DisneyLobe::Clearcoat);
    }
    assert(lobes@ =~= spec_disney_lobes(traits));
    lobes
}

/// The layered material always has a lobe, at most three, and the
/// transmission lobe stands alone.
pub proof fn lemma_disney_lobes(traits: DisneyTraits)
    ensures
        1 <= spec_disney_lobes(traits).len() <= 3,
        spec_disney_lobes(traits).contains(DisneyLobe::Transmission) <==> traits.transmits,
        traits.transmits ==> spec_disney_lobes(traits).len() == 1,
        !traits.transmits ==> spec_disney_lobes(traits).contains(DisneyLobe::Specular),
{
    let lobes = spec_disney_lobes(traits);
    if traits.transmits {
        assert(lobes[0] == DisneyLobe::Transmission);
    } else {
        let at = if traits.fully_metallic {
            0int
        } else {
            1int
        };
        assert(lobes[at] == DisneyLobe::Specular);
    }
}

} // verus!
