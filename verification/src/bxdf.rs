use vstd::prelude::*;
use vstd::string::StringExecFns;

verus! {

/// Bit of the flag for terms that scatter back into the hemisphere of the
/// outgoing direction.
pub const REFLECTION_BIT: u8 = 1;

/// Bit of the flag for terms that scatter through the surface.
pub const TRANSMISSION_BIT: u8 = 2;

/// Bit of the flag for diffuse terms.
pub const DIFFUSE_BIT: u8 = 4;

/// Bit of the flag for glossy terms.
pub const GLOSSY_BIT: u8 = 8;

/// Bit of the flag for terms whose density is a Dirac delta.
pub const SPECULAR_BIT: u8 = 16;

/// All five flag bits.
pub const ALL_BITS: u8 = 31;

/// A set of reflectance-kind flags, one bit per flag.
#[derive(Clone, Copy, Debug, PartialEq, Eq, PartialOrd, Ord, Hash, Structural)]
pub struct BxDFKind(pub u8);

impl BxDFKind {
    /// The flags as a bit pattern.
    pub open spec fn bits(self) -> u8 {
        self.0
    }

    pub fn from_bits(bits: u8) -> (r: Self)
        ensures
            r.bits() == bits,
    {
        BxDFKind(bits)
    }

    pub fn to_bits(self) -> (r: u8)
        ensures
            r == self.bits(),
    {
        self.0
    }

    pub fn reflection() -> (r: Self)
        ensures
            r.bits() == REFLECTION_BIT,
    {
        BxDFKind(REFLECTION_BIT)
    }

    pub fn transmission() -> (r: Self)
        ensures
            r.bits() == TRANSMISSION_BIT,
    {
        BxDFKind(TRANSMISSION_BIT)
    }

    pub fn diffuse() -> (r: Self)
        ensures
            r.bits() == DIFFUSE_BIT,
    {
        BxDFKind(DIFFUSE_BIT)
    }

    pub fn glossy() -> (r: Self)
        ensures
            r.bits() == GLOSSY_BIT,
    {
        BxDFKind(GLOSSY_BIT)
    }

    pub fn specular() -> (r: Self)
        ensures
            r.bits() == SPECULAR_BIT,
    {
        BxDFKind(SPECULAR_BIT)
    }

    pub fn all() -> (r: Self)
        ensures
            r.bits() == ALL_BITS,
    {
        BxDFKind(ALL_BITS)
    }

    /// Whether the two sets share a flag.
    pub open spec fn spec_has(self, other: Self) -> bool {
        self.bits() & other.bits() != 0
    }

    /// Whether every flag of `self` is also in `other`.
    pub open spec fn spec_matches(self, other: Self) -> bool {
        self.bits() & other.bits() == self.bits()
    }

    /// The union of the two sets.
    pub fn set(self, other: Self) -> (r: Self)
        ensures
            r.bits() == self.bits() | other.bits(),
    {
        BxDFKind(self.0 | other.0)
    }

    /// `self` without the flags of `other`.
    pub fn unset(self, other: Self) -> (r: Self)
        ensures
            r.bits() == self.bits() & !other.bits(),
    {
        BxDFKind(self.0 & !other.0)
    }

    /// The flags that are in both sets.
    pub fn mask(self, other: Self) -> (r: Self)
        ensures
            r.bits() == self.bits() & other.bits(),
    {
        BxDFKind(self.0 & other.0)
    }

    /// The complement, over all eight bits.
    pub fn not(self) -> (r: Self)
        ensures
            r.bits() == !self.bits(),
    {
        BxDFKind(!self.0)
    }

    /// The text of a kind: the type's name, and in brackets the name of each
    /// flag that is set, each followed by a blank.
    pub open spec fn spec_describe(self) -> Seq<char> {
        "BxDFKind("@ + flag_text(self.bits(), REFLECTION_BIT, "REFLECTION "@) + flag_text(
            self.bits(),
            TRANSMISSION_BIT,
            "TRANSMISSION "@,
        ) + flag_text(self.bits(), DIFFUSE_BIT, "DIFFUSE "@) + flag_text(
            self.bits(),
            GLOSSY_BIT,
            "GLOSSY "@,
        ) + flag_text(self.bits(), SPECULAR_BIT, "SPECULAR "@) + ")"@
    }

    pub fn describe(&self) -> (r: String)
        ensures
            r@ == self.spec_describe(),
    {
        let mut text = String::from_str("BxDFKind(");
        if self.has(BxDFKind::reflection()) {
            text.append("REFLECTION ");
        }
        let ghost t1 = text@;
        assert(t1 =~= "BxDFKind("@ + flag_text(self.bits(), REFLECTION_BIT, "REFLECTION "@));
        if self.has(BxDFKind::transmission()) {
            text.append("TRANSMISSION ");
        }
        let ghost t2 = text@;
        assert(t2 =~= t1 + flag_text(self.bits(), TRANSMISSION_BIT, "TRANSMISSION "@));
        if self.has(BxDFKind::diffuse()) {
            text.append("DIFFUSE ");
        }
        let ghost t3 = text@;
        assert(t3 =~= t2 + flag_text(self.bits(), DIFFUSE_BIT, "DIFFUSE "@));
        if self.has(BxDFKind::glossy()) {
            text.append("GLOSSY ");
        }
        let ghost t4 = text@;
        assert(t4 =~= t3 + flag_text(self.bits(), GLOSSY_BIT, "GLOSSY "@));
        if self.has(BxDFKind::specular()) {
            text.append("SPECULAR ");
        }
        let ghost t5 = text@;
        assert(t5 =~= t4 + flag_text(self.bits(), SPECULAR_BIT, "SPECULAR "@));
        text.append(")");
        text
    }

    pub fn has(self, other: Self) -> (r: bool)
        ensures
            r == self.spec_has(other),
    {
        self.0 & other.0 != 0
    }

    pub fn matches(self, other: Self) -> (r: bool)
        ensures
            r == self.spec_matches(other),
    {
        (self.0 & other.0) == self.0
    }
}

/// The name of a flag if the flag is among the bits, and nothing otherwise.
pub open spec fn flag_text(bits: u8, flag: u8, name: Seq<char>) -> Seq<char> {
    if bits & flag != 0 {
        name
    } else {
        Seq::empty()
    }
}

/// The reflectance models a term can be.
#[derive(Clone, Copy, Debug, PartialEq, Eq, Structural)]
pub enum BxDFModel {
    /// The same reflectance in every direction.
    Lambertian,
    /// A perfect mirror.
    ReflectionSpecular,
    /// Perfect refraction.
    TransmissionSpecular,
    /// A dielectric interface that mirrors or refracts, by chance.
    FresnelSpecular,
    /// Microfacet reflection; `specular` says that both roughness
    /// components lie under the threshold below which the lobe counts as a
    /// Dirac delta.
    MicrofacetReflection { specular: bool },
}

impl BxDFModel {
    /// The flags of each model.
    pub open spec fn spec_kind_bits(self) -> u8 {
        match self {
            BxDFModel::Lambertian => 5,
            BxDFModel::ReflectionSpecular => 17,
            BxDFModel::TransmissionSpecular => 18,
            BxDFModel::FresnelSpecular => 19,
            BxDFModel::MicrofacetReflection { specular } => if specular {
                25
            } else {
                9
            },
        }
    }

    /// The kind of a term of this model; it never changes.
    pub fn kind(self) -> (r: BxDFKind)
        ensures
            r.bits() == self.spec_kind_bits(),
            known_bits(r.bits()),
    {
        proof {
            assert(4u8 | 1u8 == 5u8 && 1u8 | 16u8 == 17u8 && 2u8 | 16u8 == 18u8 && (1u8 | 2u8)
                | 16u8 == 19u8 && (1u8 | 8u8) | 16u8 == 25u8 && 1u8 | 8u8 == 9u8) by (bit_vector);
            assert(5u8 & 31u8 == 5u8 && 17u8 & 31u8 == 17u8 && 18u8 & 31u8 == 18u8 && 19u8 & 31u8
                == 19u8 && 25u8 & 31u8 == 25u8 && 9u8 & 31u8 == 9u8) by (bit_vector);
        }
        match self {
            BxDFModel::Lambertian => BxDFKind::diffuse().set(BxDFKind::reflection()),
            BxDFModel::ReflectionSpecular => BxDFKind::reflection().set(BxDFKind::specular()),
            BxDFModel::TransmissionSpecular => BxDFKind::transmission().set(BxDFKind::specular()),
            BxDFModel::FresnelSpecular => BxDFKind::reflection().set(BxDFKind::transmission()).set(
                BxDFKind::specular(),
            ),
            BxDFModel::MicrofacetReflection { specular } => {
                let glossy = BxDFKind::reflection().set(BxDFKind::glossy());
                if specular {
                    glossy.set(BxDFKind::specular())
                } else {
                    glossy
                }
            },
        }
    }

    /// The flags of a sampled direction. The dielectric model mirrors or
    /// refracts by chance and reports the one it did; every other model
    /// reports its own kind.
    pub open spec fn spec_sampled_kind_bits(self, reflected: bool) -> u8 {
        match self {
            BxDFModel::FresnelSpecular => if reflected {
                17
            } else {
                18
            },
            _ => self.spec_kind_bits(),
        }
    }

    pub fn sampled_kind(self, reflected: bool) -> (r: BxDFKind)
        ensures
            r.bits() == self.spec_sampled_kind_bits(reflected),
            r.spec_matches(BxDFKind(self.spec_kind_bits())),
    {
        proof {
            assert(1u8 | 16u8 == 17u8 && 2u8 | 16u8 == 18u8 && 17u8 & 19u8 == 17u8 && 18u8 & 19u8
                == 18u8) by (bit_vector);
            lemma_matches_order(
                BxDFKind(self.spec_kind_bits()),
                BxDFKind(self.spec_kind_bits()),
                BxDFKind(self.spec_kind_bits()),
            );
        }
        match self {
            BxDFModel::FresnelSpecular => if reflected {
                BxDFKind::reflection().set(BxDFKind::specular())
            } else {
                BxDFKind::transmission().set(BxDFKind::specular())
            },
            _ => self.kind(),
        }
    }

    /// Whether the model is a Dirac delta, or is treated as one.
    pub open spec fn spec_is_specular(self) -> bool {
        match self {
            BxDFModel::Lambertian => false,
            BxDFModel::MicrofacetReflection { specular } => specular,
            _ => true,
        }
    }
}

/// The mirror, the refracting and the dielectric model, and a microfacet
/// lobe under the roughness threshold, carry the specular flag and no other
/// model does; so a query without that flag admits none of them, and their
/// values and densities are only ever had by sampling.
pub proof fn lemma_specular_models(model: BxDFModel)
    ensures
        BxDFKind(model.spec_kind_bits()).spec_has(BxDFKind(SPECULAR_BIT))
            == model.spec_is_specular(),
        model.spec_is_specular() ==> !BxDFKind(model.spec_kind_bits()).spec_matches(
            BxDFKind(non_specular_bits()),
        ),
        !model.spec_is_specular() ==> BxDFKind(model.spec_kind_bits()).spec_matches(
            BxDFKind(non_specular_bits()),
        ),
{
    assert(5u8 & 16u8 == 0u8 && 9u8 & 16u8 == 0u8 && 17u8 & 16u8 != 0u8 && 18u8 & 16u8 != 0u8 && 19u8
        & 16u8 != 0u8 && 25u8 & 16u8 != 0u8) by (bit_vector);
    assert(5u8 & 15u8 == 5u8 && 9u8 & 15u8 == 9u8 && 17u8 & 15u8 != 17u8 && 18u8 & 15u8 != 18u8
        && 19u8 & 15u8 != 19u8 && 25u8 & 15u8 != 25u8) by (bit_vector);
}

/// The query that admits every term but the specular ones.
pub open spec fn non_specular_bits() -> u8 {
    15
}

/// A kind is well formed when it holds none but the five flags.
pub open spec fn known_bits(bits: u8) -> bool {
    bits & ALL_BITS == bits
}

/// Every well-formed kind matches the query of all flags.
pub proof fn lemma_all_admits(kind: BxDFKind)
    requires
        known_bits(kind.bits()),
    ensures
        kind.spec_matches(BxDFKind(ALL_BITS)),
{
}

/// Matching is reflexive, and transitive.
pub proof fn lemma_matches_order(a: BxDFKind, b: BxDFKind, c: BxDFKind)
    ensures
        a.spec_matches(a),
        a.spec_matches(b) && b.spec_matches(c) ==> a.spec_matches(c),
{
    let (x, y, z) = (a.bits(), b.bits(), c.bits());
    assert(x & x == x) by (bit_vector);
    assert((x & y == x && y & z == y) ==> x & z == x) by (bit_vector);
}

/// A well-formed kind matches the non-specular query exactly when it lacks
/// the specular flag.
pub proof fn lemma_non_specular_query(kind: BxDFKind)
    requires
        known_bits(kind.bits()),
    ensures
        kind.spec_matches(BxDFKind(non_specular_bits())) <==> !kind.spec_has(
            BxDFKind(SPECULAR_BIT),
        ),
{
    let x = kind.bits();
    assert(x & 31u8 == x ==> ((x & 15u8 == x) <==> !(x & 16u8 != 0u8))) by (bit_vector);
}

/// Setting flags adds them, unsetting removes them, and a set flag is
/// matched by the result.
pub proof fn lemma_set_unset(a: BxDFKind, b: BxDFKind)
    ensures
        b.spec_matches(BxDFKind(a.bits() | b.bits())),
        a.spec_matches(BxDFKind(a.bits() | b.bits())),
        !BxDFKind(a.bits() & !b.bits()).spec_has(b),
        BxDFKind(a.bits() & !b.bits()).spec_matches(a),
{
    let (x, y) = (a.bits(), b.bits());
    assert(y & (x | y) == y) by (bit_vector);
    assert(x & (x | y) == x) by (bit_vector);
    assert((x & !y) & y == 0u8) by (bit_vector);
    assert((x & !y) & x == (x & !y)) by (bit_vector);
}

} // verus!
