use crate::bxdf::{flag_text, non_specular_bits, BxDFKind, ALL_BITS, SPECULAR_BIT};
use vstd::prelude::*;
use vstd::string::StringExecFns;

verus! {

/// Bit of the flag for lights that shine from a single point.
pub const DELTA_POSITION_BIT: u8 = 1;

/// Bit of the flag for lights that shine along a single direction.
pub const DELTA_DIRECTION_BIT: u8 = 2;

/// Bit of the flag for lights that are an emitting surface.
pub const AREA_BIT: u8 = 4;

/// Bit of the flag for lights infinitely far away.
pub const INFINITE_BIT: u8 = 8;

/// Bit of the flag for lights that are not shown where a ray escapes.
pub const NO_BG_BIT: u8 = 16;

/// A set of light-kind flags, one bit per flag.
#[derive(Clone, Copy, Debug, PartialEq, Eq, PartialOrd, Ord, Hash, Structural)]
pub struct LightKind(pub u8);

impl LightKind {
    /// The flags as a bit pattern.
    pub open spec fn bits(self) -> u8 {
        self.0
    }

    pub fn from_bits(bits: u8) -> (r: Self)
        ensures
            r.bits() == bits,
    {
        LightKind(bits)
    }

    pub fn to_bits(self) -> (r: u8)
        ensures
            r == self.bits(),
    {
        self.0
    }

    pub fn delta_position() -> (r: Self)
        ensures
            r.bits() == DELTA_POSITION_BIT,
    {
        LightKind(DELTA_POSITION_BIT)
    }

    pub fn delta_direction() -> (r: Self)
        ensures
            r.bits() == DELTA_DIRECTION_BIT,
    {
        LightKind(DELTA_DIRECTION_BIT)
    }

    pub fn area() -> (r: Self)
        ensures
            r.bits() == AREA_BIT,
    {
        LightKind(AREA_BIT)
    }

    pub fn infinite() -> (r: Self)
        ensures
            r.bits() == INFINITE_BIT,
    {
        LightKind(INFINITE_BIT)
    }

    pub fn no_bg() -> (r: Self)
        ensures
            r.bits() == NO_BG_BIT,
    {
        LightKind(NO_BG_BIT)
    }

    /// Whether the two sets share a flag.
    pub open spec fn spec_has(self, other: Self) -> bool {
        self.bits() & other.bits() != 0
    }

    /// Whether every flag of `self` is also in `other`.
    pub open spec fn spec_matches(self, other: Self) -> bool {
        self.bits() & other.bits() == self.bits()
    }

    /// A light is a delta light when it has a single position or a single
    /// direction: no guessed direction ever reaches it.
    pub open spec fn spec_is_delta(self) -> bool {
        self.bits() & DELTA_POSITION_BIT != 0 || self.bits() & DELTA_DIRECTION_BIT != 0
    }

    pub open spec fn spec_is_area(self) -> bool {
        self.bits() & AREA_BIT != 0
    }

    /// Whether a ray that leaves the scene sees the light: it is neither a
    /// surface nor kept out of the background.
    pub open spec fn spec_shows_in_background(self) -> bool {
        self.bits() & AREA_BIT == 0 && self.bits() & NO_BG_BIT == 0
    }

    /// The union of the two sets.
    pub fn set(self, other: Self) -> (r: Self)
        ensures
            r.bits() == self.bits() | other.bits(),
    {
        LightKind(self.0 | other.0)
    }

    /// `self` without the flags of `other`.
    pub fn unset(self, other: Self) -> (r: Self)
        ensures
            r.bits() == self.bits() & !other.bits(),
    {
        LightKind(self.0 & !other.0)
    }

    /// The flags that are in both sets.
    pub fn mask(self, other: Self) -> (r: Self)
        ensures
            r.bits() == self.bits() & other.bits(),
    {
        LightKind(self.0 & other.0)
    }

    /// The complement, over all eight bits.
    pub fn not(self) -> (r: Self)
        ensures
            r.bits() == !self.bits(),
    {
        LightKind(!self.0)
    }

    pub fn has(self, other: Self) -> (r: bool)
        ensures
            r == self.spec_has(other),
    {
        self.0 & other.0 != 0
    }

    pub fn matches(self, other: Self) -> (r: bool)
        ensures
            r == self.spec_matches(other),
    {
        (self.0 & other.0) == self.0
    }

    /// The text of a kind: the type's name, and in brackets the name of each
    /// flag that is set, each followed by a blank.
    pub open spec fn spec_describe(self) -> Seq<char> {
        "LightKind("@ + flag_text(self.bits(), DELTA_POSITION_BIT, "DELTA_POSITION "@) + flag_text(
            self.bits(),
            DELTA_DIRECTION_BIT,
            "DELTA_DIRECTION "@,
        ) + flag_text(self.bits(), AREA_BIT, "AREA "@) + flag_text(
            self.bits(),
            INFINITE_BIT,
            "INFINITE "@,
        ) + flag_text(self.bits(), NO_BG_BIT, "NO_BG "@) + ")"@
    }

    pub fn describe(&self) -> (r: String)
        ensures
            r@ == self.spec_describe(),
    {
        let mut text = String::from_str("LightKind(");
        if self.has(LightKind::delta_position()) {
            text.append("DELTA_POSITION ");
        }
        let ghost t1 = text@;
        assert(t1 =~= "LightKind("@ + flag_text(
            self.bits(),
            DELTA_POSITION_BIT,
            "DELTA_POSITION "@,
        ));
        if self.has(LightKind::delta_direction()) {
            text.append("DELTA_DIRECTION ");
        }
        let ghost t2 = text@;
        assert(t2 =~= t1 + flag_text(self.bits(), DELTA_DIRECTION_BIT, "DELTA_DIRECTION "@));
        if self.has(LightKind::area()) {
            text.append("AREA ");
        }
        let ghost t3 = text@;
        assert(t3 =~= t2 + flag_text(self.bits(), AREA_BIT, "AREA "@));
        if self.has(LightKind::infinite()) {
            text.append("INFINITE ");
        }
        let ghost t4 = text@;
        assert(t4 =~= t3 + flag_text(self.bits(), INFINITE_BIT, "INFINITE "@));
        if self.has(LightKind::no_bg()) {
            text.append("NO_BG ");
        }
        let ghost t5 = text@;
        assert(t5 =~= t4 + flag_text(self.bits(), NO_BG_BIT, "NO_BG "@));
        text.append(")");
        text
    }

    pub fn is_delta(self) -> (r: bool)
        ensures
            r == self.spec_is_delta(),
    {
        self.has(LightKind::delta_position()) || self.has(LightKind::delta_direction())
    }

    pub fn is_area(self) -> (r: bool)
        ensures
            r == self.spec_is_area(),
    {
        self.has(LightKind::area())
    }

    pub fn shows_in_background(self) -> (r: bool)
        ensures
            r == self.spec_shows_in_background(),
    {
        !self.has(LightKind::area()) && !self.has(LightKind::no_bg())
    }
}

/// The light sources a scene can hold.
#[derive(Clone, Copy, Debug, PartialEq, Eq, Structural)]
pub enum LightType {
    Point,
    Spot,
    Direction,
    Hdri,
    Area,
    Ambient,
}

impl LightType {
    /// The flags of each light source.
    pub open spec fn spec_kind_bits(self) -> u8 {
        match self {
            LightType::Point => DELTA_POSITION_BIT,
            LightType::Spot => DELTA_POSITION_BIT,
            LightType::Direction => DELTA_DIRECTION_BIT,
            LightType::Hdri => INFINITE_BIT,
            LightType::Area => AREA_BIT,
            LightType::Ambient => 24,
        }
    }

    pub fn kind(self) -> (r: LightKind)
        ensures
            r.bits() == self.spec_kind_bits(),
    {
        match self {
            LightType::Point => LightKind::delta_position(),
            LightType::Spot => LightKind::delta_position(),
            LightType::Direction => LightKind::delta_direction(),
            LightType::Hdri => LightKind::infinite(),
            LightType::Area => LightKind::area(),
            LightType::Ambient => {
                let k = LightKind::infinite().set(LightKind::no_bg());
                assert(8u8 | 16u8 == 24u8) by (bit_vector);
                k
            },
        }
    }
}

/// Point, spot and directional lights are the delta lights; the area light
/// is the only surface; the environment map is the only light that a ray
/// leaving the scene sees.
pub proof fn lemma_light_types(t: LightType)
    ensures
        LightKind(t.spec_kind_bits()).spec_is_delta() <==> (t == LightType::Point || t
            == LightType::Spot || t == LightType::Direction),
        LightKind(t.spec_kind_bits()).spec_is_area() <==> t == LightType::Area,
        LightKind(t.spec_kind_bits()).spec_shows_in_background() <==> (t != LightType::Area && t
            != LightType::Ambient),
{
    assert(1u8 & 1u8 != 0u8 && 1u8 & 2u8 == 0u8 && 1u8 & 4u8 == 0u8 && 1u8 & 16u8 == 0u8)
        by (bit_vector);
    assert(2u8 & 1u8 == 0u8 && 2u8 & 2u8 != 0u8 && 2u8 & 4u8 == 0u8 && 2u8 & 16u8 == 0u8)
        by (bit_vector);
    assert(4u8 & 1u8 == 0u8 && 4u8 & 2u8 == 0u8 && 4u8 & 4u8 != 0u8 && 4u8 & 16u8 == 0u8)
        by (bit_vector);
    assert(8u8 & 1u8 == 0u8 && 8u8 & 2u8 == 0u8 && 8u8 & 4u8 == 0u8 && 8u8 & 16u8 == 0u8)
        by (bit_vector);
    assert(24u8 & 1u8 == 0u8 && 24u8 & 2u8 == 0u8 && 24u8 & 4u8 == 0u8 && 24u8 & 16u8 != 0u8)
        by (bit_vector);
}

/// `fastrand::usize` over the range that ends before `n`: a number below
/// `n`, drawn from the thread's generator. Which one is not said.
#[verifier::external_body]
fn random_below(n: usize) -> (r: usize)
    requires
        n > 0,
    ensures
        r < n,
{
    fastrand::usize(..n)
}

/// The positions below `n`, in rising order, of the lights that are no
/// surfaces.
pub open spec fn non_area_below(kinds: Seq<LightKind>, n: int) -> Seq<usize>
    decreases n,
{
    if n <= 0 {
        Seq::empty()
    } else {
        let rest = non_area_below(kinds, n - 1);
        if kinds[n - 1].spec_is_area() {
            rest
        } else {
            rest.push((n - 1) as usize)
        }
    }
}

/// The positions, in rising order, of all the lights that are no surfaces.
pub open spec fn non_area(kinds: Seq<LightKind>) -> Seq<usize> {
    non_area_below(kinds, kinds.len() as int)
}

/// The number of lights that are no surfaces.
pub fn count_non_area(kinds: &[LightKind]) -> (r: usize)
    ensures
        r == non_area(kinds@).len(),
{
    let mut count: usize = 0;
    let mut i: usize = 0;
    while i < kinds.len()
        invariant
            i <= kinds.len(),
            count <= i,
            count == non_area_below(kinds@, i as int).len(),
        decreases kinds.len() - i,
    {
        if !kinds[i].is_area() {
            count += 1;
        }
        i += 1;
    }
    count
}

/// The position of the light that `n` counts to among those that are no
/// surfaces, and none where there are fewer.
pub fn nth_non_area(kinds: &[LightKind], n: usize) -> (r: Option<usize>)
    ensures
        match r {
            Some(index) => n < non_area(kinds@).len() && index == non_area(kinds@)[n as int],
            None => n >= non_area(kinds@).len(),
        },
{
    let mut count: usize = 0;
    let mut i: usize = 0;
    while i < kinds.len()
        invariant
            i <= kinds.len(),
            count <= i,
            count <= n,
            count == non_area_below(kinds@, i as int).len(),
        decreases kinds.len() - i,
    {
        if !kinds[i].is_area() {
            if count == n {
                proof {
                    let upto = non_area_below(kinds@, i as int + 1);
                    assert(upto == non_area_below(kinds@, i as int).push(i));
                    assert(upto[n as int] == i);
                    lemma_non_area_prefix(kinds@, i as int + 1, kinds@.len() as int);
                    assert(non_area(kinds@).subrange(0, upto.len() as int)[n as int] == i);
                }
                return Some(i);
            }
            count += 1;
        }
        i += 1;
    }
    None
}

/// The light that one estimate is made for, and the number by which the
/// estimate is multiplied to stand for all lights.
#[derive(Clone, Copy, Debug, PartialEq, Eq, Structural)]
pub struct LightChoice {
    /// The position of the light in the scene's list.
    pub index: usize,
    /// The number of lights that the choice was made among: one over it is
    /// the chance of each.
    pub scale: usize,
}

/// Picks one light that is no surface, each with the same chance, and none
/// where the scene has no such light.
pub fn sample_one_light(kinds: &[LightKind]) -> (r: Option<LightChoice>)
    ensures
        r.is_none() == (non_area(kinds@).len() == 0),
        match r {
            Some(choice) => {
                &&& non_area(kinds@).contains(choice.index)
                &&& choice.index < kinds@.len()
                &&& !kinds@[choice.index as int].spec_is_area()
                &&& choice.scale == non_area(kinds@).len()
            },
            None => true,
        },
{
    let num_lights = count_non_area(kinds);
    if num_lights == 0 {
        return None;
    }
    let n = random_below(num_lights);
    let total = kinds.len();
    match nth_non_area(kinds, n) {
        Some(index) => {
            proof {
                lemma_non_area_exact(kinds@, total as int);
            }
            Some(LightChoice { index, scale: num_lights })
        },
        None => None,
    }
}

/// What is found below a position is the start of what is found below a
/// later one.
pub proof fn lemma_non_area_prefix(kinds: Seq<LightKind>, n: int, m: int)
    requires
        0 <= n <= m,
    ensures
        non_area_below(kinds, n).len() <= non_area_below(kinds, m).len(),
        non_area_below(kinds, n) == non_area_below(kinds, m).subrange(
            0,
            non_area_below(kinds, n).len() as int,
        ),
    decreases m - n,
{
    if n < m {
        lemma_non_area_prefix(kinds, n, m - 1);
    }
    assert(non_area_below(kinds, n) =~= non_area_below(kinds, m).subrange(
        0,
        non_area_below(kinds, n).len() as int,
    ));
}

/// The positions found are those of lights that are no surfaces, and each
/// such light is found.
pub proof fn lemma_non_area_exact(kinds: Seq<LightKind>, n: int)
    requires
        0 <= n <= kinds.len(),
        n <= usize::MAX,
    ensures
        forall|j: int|
            0 <= j < non_area_below(kinds, n).len() ==> {
                &&& #[trigger] non_area_below(kinds, n)[j] < n
                &&& !kinds[non_area_below(kinds, n)[j] as int].spec_is_area()
            },
        forall|i: int|
            0 <= i < n && !(#[trigger] kinds[i]).spec_is_area() ==> non_area_below(
                kinds,
                n,
            ).contains(i as usize),
    decreases n,
{
    if n > 0 {
        lemma_non_area_exact(kinds, n - 1);
        let rest = non_area_below(kinds, n - 1);
        let all = non_area_below(kinds, n);
        if !kinds[n - 1].spec_is_area() {
            assert(all == rest.push((n - 1) as usize));
            assert(all[rest.len() as int] == (n - 1) as usize);
            assert forall|i: int| 0 <= i < n && !(#[trigger] kinds[i]).spec_is_area() implies all.contains(
                i as usize,
            ) by {
                if i < n - 1 {
                    let j = choose|j: int| 0 <= j < rest.len() && rest[j] == i as usize;
                    assert(all[j] == i as usize);
                }
            }
        }
    }
}

/// How a contribution is weighted against the other sampling strategy.
#[derive(Clone, Copy, Debug, PartialEq, Eq, Structural)]
pub enum MisWeight {
    /// The contribution counts in full: the other strategy cannot produce
    /// the direction.
    One,
    /// The contribution is weighted by the power heuristic of the two
    /// densities.
    PowerHeuristic,
}

/// Where the estimate of one light's direct lighting stands.
#[derive(Clone, Copy, Debug, PartialEq, Eq, Structural)]
pub enum DirectPhase {
    /// A direction towards the light is to be sampled.
    SampleLight,
    /// A shadow ray along the light's direction is to be traced.
    ShadowRay,
    /// The aggregate's value and density along the light's direction are to
    /// be evaluated.
    EvaluateBsdf,
    /// A direction is to be sampled from the aggregate.
    SampleBsdf,
    /// The light's density for the aggregate's direction is to be asked.
    LightPdf,
    /// A ray along the aggregate's direction is to be traced.
    VisibilityRay,
    /// What the light emits along that ray is to be asked.
    Emitted,
    /// The estimate is complete.
    Done,
}

/// What the estimator remembers.
#[derive(Clone, Copy, Debug, PartialEq, Eq, Structural)]
pub struct DirectState {
    pub phase: DirectPhase,
    /// The kind of the light the estimate is made for.
    pub light: LightKind,
    /// Whether specular terms take part in evaluation and sampling.
    pub specular: bool,
    /// The weight of the contribution of the aggregate's direction.
    pub weight: MisWeight,
}

/// What the light, the aggregate or the scene answered.
#[derive(Clone, Copy, Debug, PartialEq, Eq, Structural)]
pub enum DirectEvent {
    /// The light gave a direction; `pdf_positive` says that its density is
    /// above zero, `black` that its radiance is zero.
    LightSampled { pdf_positive: bool, black: bool },
    /// The shadow ray was traced.
    ShadowTraced { unoccluded: bool },
    /// The aggregate was evaluated; `black` says that its value times the
    /// cosine is zero.
    BsdfEvaluated { black: bool },
    /// The aggregate gave a direction, sampled by a term of kind `kind`.
    BsdfSampled { kind: BxDFKind, black: bool, pdf_positive: bool },
    /// The light gave its density for the aggregate's direction.
    LightPdf { zero: bool },
    /// The ray along the aggregate's direction was traced.
    RayTraced { escaped: bool },
    /// The light gave what it emits along the ray.
    Emitted { black: bool },
}

/// What is added to the estimate.
#[derive(Clone, Copy, Debug, PartialEq, Eq, Structural)]
pub enum DirectAction {
    Nothing,
    /// Value times radiance over the light's density, weighted.
    AddLightSample(MisWeight),
    /// Value times emitted radiance over the aggregate's density, weighted.
    AddBsdfSample(MisWeight),
}

/// The query under which the aggregate is evaluated and sampled: all terms,
/// or all but the specular ones.
pub fn bxdf_query(specular: bool) -> (r: BxDFKind)
    ensures
        r.bits() == if specular {
            ALL_BITS
        } else {
            non_specular_bits()
        },
{
    if specular {
        BxDFKind::all()
    } else {
        assert(31u8 & !16u8 == 15u8) by (bit_vector);
        BxDFKind::all().unset(BxDFKind::specular())
    }
}

impl DirectState {
    pub open spec fn spec_new(light: LightKind, specular: bool) -> DirectState {
        DirectState { phase: DirectPhase::SampleLight, light, specular, weight: MisWeight::One }
    }

    /// The state before the light is sampled.
    pub fn new(light: LightKind, specular: bool) -> (r: DirectState)
        ensures
            r == DirectState::spec_new(light, specular),
    {
        DirectState { phase: DirectPhase::SampleLight, light, specular, weight: MisWeight::One }
    }

    pub open spec fn spec_is_done(self) -> bool {
        self.phase == DirectPhase::Done
    }

    pub fn is_done(&self) -> (r: bool)
        ensures
            r == self.spec_is_done(),
    {
        match self.phase {
            DirectPhase::Done => true,
            _ => false,
        }
    }

    /// The event that a phase waits for.
    pub open spec fn spec_accepts(self, event: DirectEvent) -> bool {
        match self.phase {
            DirectPhase::SampleLight => event is LightSampled,
            DirectPhase::ShadowRay => event is ShadowTraced,
            DirectPhase::EvaluateBsdf => event is BsdfEvaluated,
            DirectPhase::SampleBsdf => event is BsdfSampled,
            DirectPhase::LightPdf => event is LightPdf,
            DirectPhase::VisibilityRay => event is RayTraced,
            DirectPhase::Emitted => event is Emitted,
            DirectPhase::Done => false,
        }
    }

    pub fn accepts(&self, event: &DirectEvent) -> (r: bool)
        ensures
            r == self.spec_accepts(*event),
    {
        match (self.phase, event) {
            (DirectPhase::SampleLight, DirectEvent::LightSampled { .. }) => true,
            (DirectPhase::ShadowRay, DirectEvent::ShadowTraced { .. }) => true,
            (DirectPhase::EvaluateBsdf, DirectEvent::BsdfEvaluated { .. }) => true,
            (DirectPhase::SampleBsdf, DirectEvent::BsdfSampled { .. }) => true,
            (DirectPhase::LightPdf, DirectEvent::LightPdf { .. }) => true,
            (DirectPhase::VisibilityRay, DirectEvent::RayTraced { .. }) => true,
            (DirectPhase::Emitted, DirectEvent::Emitted { .. }) => true,
            _ => false,
        }
    }

    /// The state with the phase replaced.
    pub open spec fn at(self, phase: DirectPhase) -> DirectState {
        DirectState { phase, ..self }
    }

    /// Where the second strategy starts: a delta light has none, since no
    /// sampled direction ever reaches it.
    pub open spec fn second_strategy(self) -> DirectState {
        if self.light.spec_is_delta() {
            self.at(DirectPhase::Done)
        } else {
            self.at(DirectPhase::SampleBsdf)
        }
    }

    /// The transition of the estimator.
    ///
    /// First strategy: a light's direction with density and radiance is
    /// followed by a shadow ray; if nothing is in the way the aggregate is
    /// evaluated, and a value that is not zero is added, in full for a delta
    /// light and weighted by the power heuristic otherwise. Second strategy,
    /// for lights that are no delta lights: a direction of the aggregate
    /// with value and density is weighted in full if a specular term
    /// sampled it, and by the power heuristic otherwise, unless the light's
    /// density for it is zero, which ends the estimate; the ray is traced,
    /// and what the light emits along a ray that escapes is added.
    pub open spec fn spec_step(self, event: DirectEvent) -> (DirectState, DirectAction) {
        match event {
            DirectEvent::LightSampled { pdf_positive, black } => if pdf_positive && !black {
                (self.at(DirectPhase::ShadowRay), DirectAction::Nothing)
            } else {
                (self.second_strategy(), DirectAction::Nothing)
            },
            DirectEvent::ShadowTraced { unoccluded } => if unoccluded {
                (self.at(DirectPhase::EvaluateBsdf), DirectAction::Nothing)
            } else {
                (self.second_strategy(), DirectAction::Nothing)
            },
            DirectEvent::BsdfEvaluated { black } => (
                self.second_strategy(),
                if black {
                    DirectAction::Nothing
                } else if self.light.spec_is_delta() {
                    DirectAction::AddLightSample(MisWeight::One)
                } else {
                    DirectAction::AddLightSample(MisWeight::PowerHeuristic)
                },
            ),
            DirectEvent::BsdfSampled { kind, black, pdf_positive } => if black || !pdf_positive {
                (self.at(DirectPhase::Done), DirectAction::Nothing)
            } else if kind.spec_has(BxDFKind(SPECULAR_BIT)) {
                (
                    DirectState { phase: DirectPhase::VisibilityRay, weight: MisWeight::One, ..self },
                    DirectAction::Nothing,
                )
            } else {
                (self.at(DirectPhase::LightPdf), DirectAction::Nothing)
            },
            DirectEvent::LightPdf { zero } => if zero {
                (self.at(DirectPhase::Done), DirectAction::Nothing)
            } else {
                (
                    DirectState {
                        phase: DirectPhase::VisibilityRay,
                        weight: MisWeight::PowerHeuristic,
                        ..self
                    },
                    DirectAction::Nothing,
                )
            },
            DirectEvent::RayTraced { escaped } => if escaped {
                (self.at(DirectPhase::Emitted), DirectAction::Nothing)
            } else {
                (self.at(DirectPhase::Done), DirectAction::Nothing)
            },
            DirectEvent::Emitted { black } => (
                self.at(DirectPhase::Done),
                if black {
                    DirectAction::Nothing
                } else {
                    DirectAction::AddBsdfSample(self.weight)
                },
            ),
        }
    }

    fn enter_second_strategy(&mut self)
        ensures
            *final(self) == old(self).second_strategy(),
    {
        if self.light.is_delta() {
            self.phase = DirectPhase::Done;
        } else {
            self.phase = DirectPhase::SampleBsdf;
        }
    }

    /// Takes the estimate through one event.
    pub fn step(&mut self, event: DirectEvent) -> (action: DirectAction)
        requires
            old(self).spec_accepts(event),
        ensures
            (*final(self), action) == old(self).spec_step(event),
    {
        match event {
            DirectEvent::LightSampled { pdf_positive, black } => {
                if pdf_positive && !black {
                    self.phase = DirectPhase::ShadowRay;
                } else {
                    self.enter_second_strategy();
                }
                DirectAction::Nothing
            },
            DirectEvent::ShadowTraced { unoccluded } => {
                if unoccluded {
                    self.phase = DirectPhase::EvaluateBsdf;
                } else {
                    self.enter_second_strategy();
                }
                DirectAction::Nothing
            },
            DirectEvent::BsdfEvaluated { black } => {
                let delta = self.light.is_delta();
                self.enter_second_strategy();
                if black {
                    DirectAction::Nothing
                } else if delta {
                    DirectAction::AddLightSample(MisWeight::One)
                } else {
                    DirectAction::AddLightSample(MisWeight::PowerHeuristic)
                }
            },
            DirectEvent::BsdfSampled { kind, black, pdf_positive } => {
                if black || !pdf_positive {
                    self.phase = DirectPhase::Done;
                } else if kind.has(BxDFKind::specular()) {
                    self.phase = DirectPhase::VisibilityRay;
                    self.weight = MisWeight::One;
                } else {
                    self.phase = DirectPhase::LightPdf;
                }
                DirectAction::Nothing
            },
            DirectEvent::LightPdf { zero } => {
                if zero {
                    self.phase = DirectPhase::Done;
                } else {
                    self.phase = DirectPhase::VisibilityRay;
                    self.weight = MisWeight::PowerHeuristic;
                }
                DirectAction::Nothing
            },
            DirectEvent::RayTraced { escaped } => {
                if escaped {
                    self.phase = DirectPhase::Emitted;
                } else {
                    self.phase = DirectPhase::Done;
                }
                DirectAction::Nothing
            },
            DirectEvent::Emitted { black } => {
                self.phase = DirectPhase::Done;
                if black {
                    DirectAction::Nothing
                } else {
                    DirectAction::AddBsdfSample(self.weight)
                }
            },
        }
    }

    /// The number of events that an estimate can still take, at most.
    pub open spec fn remaining(self) -> nat {
        match self.phase {
            DirectPhase::SampleLight => 7,
            DirectPhase::ShadowRay => 6,
            DirectPhase::EvaluateBsdf => 5,
            DirectPhase::SampleBsdf => 4,
            DirectPhase::LightPdf => 3,
            DirectPhase::VisibilityRay => 2,
            DirectPhase::Emitted => 1,
            DirectPhase::Done => 0,
        }
    }
}

/// Every estimate ends within seven events, and the light and the query
/// stay what they were.
pub proof fn lemma_direct_terminates(state: DirectState, event: DirectEvent)
    requires
        state.spec_accepts(event),
    ensures
        state.spec_step(event).0.remaining() < state.remaining(),
        state.spec_step(event).0.light == state.light,
        state.spec_step(event).0.specular == state.specular,
{
}

/// For a delta light the aggregate is never sampled and the light's own
/// sample is never weighted down; for any other light the light's sample is
/// weighted by the power heuristic.
pub proof fn lemma_delta_light(state: DirectState, event: DirectEvent)
    requires
        state.spec_accepts(event),
    ensures
        state.light.spec_is_delta() ==> state.spec_step(event).0.phase != DirectPhase::SampleBsdf,
        state.light.spec_is_delta() ==> state.spec_step(event).1
            != DirectAction::AddLightSample(MisWeight::PowerHeuristic),
        !state.light.spec_is_delta() ==> state.spec_step(event).1 != DirectAction::AddLightSample(
            MisWeight::One,
        ),
{
}

/// A direction that a specular term sampled is traced with full weight, and
/// any other only once the light's density for it is known not to be zero.
pub proof fn lemma_specular_sample(state: DirectState, kind: BxDFKind)
    requires
        state.phase == DirectPhase::SampleBsdf,
    ensures
        ({
            let next = state.spec_step(
                DirectEvent::BsdfSampled { kind, black: false, pdf_positive: true },
            ).0;
            if kind.spec_has(BxDFKind(SPECULAR_BIT)) {
                next.phase == DirectPhase::VisibilityRay && next.weight == MisWeight::One
            } else {
                next.phase == DirectPhase::LightPdf
            }
        }),
{
}

} // verus!
