use crate::bsdf::{lemma_selected_exact, lemma_selected_nonempty, selected, Selector, BSDF};
use crate::bxdf::{known_bits, lemma_non_specular_query, non_specular_bits, BxDFKind, SPECULAR_BIT};
use vstd::prelude::*;

verus! {

/// The bounce after which a path may be ended by chance.
pub const ROULETTE_AFTER: usize = 3;

/// Where a path stands between two decisions.
#[derive(Clone, Copy, Debug, PartialEq, Eq, Structural)]
pub enum PathPhase {
    /// The current ray is to be intersected with the scene.
    Tracing,
    /// A surface was hit; a continuation direction is to be sampled.
    Scattering,
    /// The path goes on if it survives a random draw.
    Roulette,
    /// The path has ended.
    Terminated,
}

/// What the integrator remembers of a path.
#[derive(Clone, Copy, Debug, PartialEq, Eq, Structural)]
pub struct PathState {
    pub phase: PathPhase,
    /// The number of surfaces the path has left behind.
    pub bounce: usize,
    /// Whether the direction of the current ray was sampled by a specular
    /// term.
    pub specular_bounce: bool,
    /// The number of rays that a path may trace.
    pub bounce_limit: usize,
}

/// What the scene, the sampler or the random draw answered.
#[derive(Clone, Copy, Debug, PartialEq, Eq, Structural)]
pub enum PathEvent {
    /// The ray hit a scattering surface whose aggregate has this many terms
    /// without the specular flag.
    Hit { non_specular_terms: usize },
    /// The ray hit an emitting surface.
    HitLight,
    /// The ray left the scene.
    Miss,
    /// The ray started inside the surface it left.
    Ignored,
    /// A direction was sampled by a term of kind `kind`; `black` says that
    /// the value is zero, `zero_pdf` that the density is.
    Sampled { kind: BxDFKind, black: bool, zero_pdf: bool },
    /// The random draw was made.
    Roulette { survived: bool },
}

/// What is to be done to the radiance and the throughput of the path.
#[derive(Clone, Copy, Debug, PartialEq, Eq, Structural)]
pub enum PathAction {
    /// Nothing.
    Nothing,
    /// Add the direct lighting at the hit point, times the throughput.
    AddDirectLighting,
    /// Add what the surface emits, times the throughput.
    AddEmitted,
    /// Add what every light that shows in the background emits, times the
    /// throughput.
    AddBackground,
    /// Multiply the throughput by the sampled value times the cosine over
    /// the density, and aim the ray along the sampled direction.
    Attenuate,
}

impl PathState {
    /// A path is well formed when it only goes on below the bounce limit.
    pub open spec fn wf(self) -> bool {
        self.phase != PathPhase::Terminated ==> self.bounce < self.bounce_limit
    }

    /// The state of a path whose first ray is about to be traced; with a
    /// limit of zero there is no first ray.
    pub open spec fn spec_new(bounce_limit: usize) -> PathState {
        PathState {
            phase: if bounce_limit > 0 {
                PathPhase::Tracing
            } else {
                PathPhase::Terminated
            },
            bounce: 0,
            specular_bounce: false,
            bounce_limit,
        }
    }

    pub fn new(bounce_limit: usize) -> (r: PathState)
        ensures
            r == PathState::spec_new(bounce_limit),
            r.wf(),
    {
        PathState {
            phase: if bounce_limit > 0 {
                PathPhase::Tracing
            } else {
                PathPhase::Terminated
            },
            bounce: 0,
            specular_bounce: false,
            bounce_limit,
        }
    }

    pub open spec fn spec_is_terminated(self) -> bool {
        self.phase == PathPhase::Terminated
    }

    pub fn is_terminated(&self) -> (r: bool)
        ensures
            r == self.spec_is_terminated(),
    {
        match self.phase {
            PathPhase::Terminated => true,
            _ => false,
        }
    }

    /// The events that a phase waits for.
    pub open spec fn spec_accepts(self, event: PathEvent) -> bool {
        match self.phase {
            PathPhase::Tracing => event is Hit || event is HitLight || event is Miss
                || event is Ignored,
            PathPhase::Scattering => event is Sampled,
            PathPhase::Roulette => event is Roulette,
            PathPhase::Terminated => false,
        }
    }

    pub fn accepts(&self, event: &PathEvent) -> (r: bool)
        ensures
            r == self.spec_accepts(*event),
    {
        match self.phase {
            PathPhase::Tracing => match event {
                PathEvent::Hit { .. } => true,
                PathEvent::HitLight => true,
                PathEvent::Miss => true,
                PathEvent::Ignored => true,
                _ => false,
            },
            PathPhase::Scattering => match event {
                PathEvent::Sampled { .. } => true,
                _ => false,
            },
            PathPhase::Roulette => match event {
                PathEvent::Roulette { .. } => true,
                _ => false,
            },
            PathPhase::Terminated => false,
        }
    }

    /// The state with the phase replaced.
    pub open spec fn at(self, phase: PathPhase) -> PathState {
        PathState { phase, ..self }
    }

    /// The state once the ray along the sampled direction is the current
    /// one: a bounce further, and at an end where the limit is reached.
    pub open spec fn bounced(self) -> PathState {
        PathState {
            phase: if self.bounce + 1 < self.bounce_limit {
                PathPhase::Tracing
            } else {
                PathPhase::Terminated
            },
            bounce: (self.bounce + 1) as usize,
            ..self
        }
    }

    /// The transition of the integrator: the state after an event, and what
    /// the event adds to the radiance or does to the throughput.
    ///
    /// A hit on a scattering surface adds direct lighting where the surface
    /// has a term that is not specular, and a direction is sampled next. An
    /// emitting surface adds its light and ends the path. A ray that leaves
    /// the scene adds the background only if it is the camera's ray or if a
    /// specular term sampled its direction, and ends the path. A sampled
    /// direction without value or density ends the path; otherwise the
    /// throughput is attenuated, and past the third bounce the path goes on
    /// only if it survives the draw.
    pub open spec fn spec_step(self, event: PathEvent) -> (PathState, PathAction) {
        match event {
            PathEvent::Hit { non_specular_terms } => (
                self.at(PathPhase::Scattering),
                if non_specular_terms > 0 {
                    PathAction::AddDirectLighting
                } else {
                    PathAction::Nothing
                },
            ),
            PathEvent::HitLight => (self.at(PathPhase::Terminated), PathAction::AddEmitted),
            PathEvent::Ignored => (self.at(PathPhase::Terminated), PathAction::Nothing),
            PathEvent::Miss => (
                self.at(PathPhase::Terminated),
                if self.bounce == 0 || self.specular_bounce {
                    PathAction::AddBackground
                } else {
                    PathAction::Nothing
                },
            ),
            PathEvent::Sampled { kind, black, zero_pdf } => {
                let seen = PathState {
                    specular_bounce: kind.spec_has(BxDFKind(SPECULAR_BIT)),
                    ..self
                };
                if black || zero_pdf {
                    (seen.at(PathPhase::Terminated), PathAction::Nothing)
                } else if self.bounce > ROULETTE_AFTER {
                    (seen.at(PathPhase::Roulette), PathAction::Attenuate)
                } else {
                    (seen.bounced(), PathAction::Attenuate)
                }
            },
            PathEvent::Roulette { survived } => if survived {
                (self.bounced(), PathAction::Nothing)
            } else {
                (self.at(PathPhase::Terminated), PathAction::Nothing)
            },
        }
    }

    /// Takes the path through one event.
    pub fn step(&mut self, event: PathEvent) -> (action: PathAction)
        requires
            old(self).wf(),
            old(self).spec_accepts(event),
        ensures
            (*final(self), action) == old(self).spec_step(event),
            final(self).wf(),
    {
        match event {
            PathEvent::Hit { non_specular_terms } => {
                self.phase = PathPhase::Scattering;
                if non_specular_terms > 0 {
                    PathAction::AddDirectLighting
                } else {
                    PathAction::Nothing
                }
            },
            PathEvent::HitLight => {
                self.phase = PathPhase::Terminated;
                PathAction::AddEmitted
            },
            PathEvent::Ignored => {
                self.phase = PathPhase::Terminated;
                PathAction::Nothing
            },
            PathEvent::Miss => {
                self.phase = PathPhase::Terminated;
                if self.bounce == 0 || self.specular_bounce {
                    PathAction::AddBackground
                } else {
                    PathAction::Nothing
                }
            },
            PathEvent::Sampled { kind, black, zero_pdf } => {
                self.specular_bounce = kind.has(BxDFKind::specular());
                if black || zero_pdf {
                    self.phase = PathPhase::Terminated;
                    PathAction::Nothing
                } else if self.bounce > ROULETTE_AFTER {
                    self.phase = PathPhase::Roulette;
                    PathAction::Attenuate
                } else {
                    self.advance();
                    PathAction::Attenuate
                }
            },
            PathEvent::Roulette { survived } => {
                if survived {
                    self.advance();
                } else {
                    self.phase = PathPhase::Terminated;
                }
                PathAction::Nothing
            },
        }
    }

    fn advance(&mut self)
        requires
            old(self).bounce < old(self).bounce_limit,
        ensures
            *final(self) == old(self).bounced(),
    {
        self.bounce = self.bounce + 1;
        self.phase = if self.bounce < self.bounce_limit {
            PathPhase::Tracing
        } else {
            PathPhase::Terminated
        };
    }

    /// The number of events that a path can still take, at most.
    pub open spec fn remaining(self) -> nat {
        match self.phase {
            PathPhase::Terminated => 0,
            PathPhase::Tracing => (3 * (self.bounce_limit - self.bounce)) as nat,
            PathPhase::Scattering => (3 * (self.bounce_limit - self.bounce) - 1) as nat,
            PathPhase::Roulette => (3 * (self.bounce_limit - self.bounce) - 2) as nat,
        }
    }
}

/// The number of terms of an aggregate that sample or evaluate without a
/// Dirac delta: what a hit reports to the integrator.
pub fn non_specular_terms(bsdf: &BSDF) -> (r: usize)
    ensures
        r == selected(bsdf.kinds(), Selector::matching(BxDFKind(non_specular_bits()))).len(),
{
    let query = BxDFKind::all().unset(BxDFKind::specular());
    assert(31u8 & !16u8 == 15u8) by (bit_vector);
    bsdf.num_components(query)
}

/// Direct lighting is asked for at a hit exactly when some term of the
/// aggregate lacks the specular flag, the kinds holding none but the five
/// flags.
pub proof fn lemma_direct_lighting_needs_a_lobe(
    state: PathState,
    kinds: Seq<BxDFKind>,
    non_specular_terms: usize,
)
    requires
        kinds.len() <= usize::MAX,
        forall|i: int| 0 <= i < kinds.len() ==> known_bits((#[trigger] kinds[i]).bits()),
        non_specular_terms == selected(
            kinds,
            Selector::matching(BxDFKind(non_specular_bits())),
        ).len(),
    ensures
        state.spec_step(PathEvent::Hit { non_specular_terms }).1 == PathAction::AddDirectLighting
            <==> exists|i: int|
            0 <= i < kinds.len() && !(#[trigger] kinds[i]).spec_has(BxDFKind(SPECULAR_BIT)),
{
    let selector = Selector::matching(BxDFKind(non_specular_bits()));
    lemma_selected_nonempty(kinds, selector);
    lemma_selected_exact(kinds, selector, kinds.len() as int);
    assert forall|i: int| 0 <= i < kinds.len() implies (selector.admits(#[trigger] kinds[i], i)
        <==> !kinds[i].spec_has(BxDFKind(SPECULAR_BIT))) by {
        lemma_non_specular_query(kinds[i]);
    }
    if exists|i: int| 0 <= i < kinds.len() && selector.admits(#[trigger] kinds[i], i) {
        let i = choose|i: int| 0 <= i < kinds.len() && selector.admits(#[trigger] kinds[i], i);
        assert(!kinds[i].spec_has(BxDFKind(SPECULAR_BIT)));
    }
    if exists|i: int|
        0 <= i < kinds.len() && !(#[trigger] kinds[i]).spec_has(BxDFKind(SPECULAR_BIT)) {
        let i = choose|i: int|
            0 <= i < kinds.len() && !(#[trigger] kinds[i]).spec_has(BxDFKind(SPECULAR_BIT));
        assert(selector.admits(kinds[i], i));
    }
}

/// Every path ends: each event brings a well-formed path nearer to its end,
/// and a path of limit `n` takes at most `3 n` events.
pub proof fn lemma_path_terminates(state: PathState, event: PathEvent)
    requires
        state.wf(),
        state.spec_accepts(event),
    ensures
        state.spec_step(event).0.wf(),
        state.spec_step(event).0.remaining() < state.remaining(),
        state.remaining() <= 3 * state.bounce_limit,
        state.spec_step(event).0.bounce_limit == state.bounce_limit,
{
}

/// The background is added only for the camera's own ray or behind a
/// specular bounce, emitted light only on an emitting surface, and either
/// ends the path.
pub proof fn lemma_background_once(state: PathState, event: PathEvent)
    requires
        state.wf(),
        state.spec_accepts(event),
    ensures
        state.spec_step(event).1 == PathAction::AddBackground <==> (event is Miss && (state.bounce
            == 0 || state.specular_bounce)),
        state.spec_step(event).1 == PathAction::AddEmitted <==> event is HitLight,
        (state.spec_step(event).1 == PathAction::AddBackground || state.spec_step(event).1
            == PathAction::AddEmitted) ==> state.spec_step(event).0.spec_is_terminated(),
{
}

/// The random draw is only asked for past the third bounce, and a path
/// that is absorbed adds nothing more.
pub proof fn lemma_roulette_late(state: PathState, event: PathEvent)
    requires
        state.wf(),
        state.spec_accepts(event),
    ensures
        state.spec_step(event).0.phase == PathPhase::Roulette ==> state.bounce > ROULETTE_AFTER,
        event matches PathEvent::Sampled { black, zero_pdf, .. } && (black || zero_pdf)
            ==> state.spec_step(event) == (
            PathState {
                specular_bounce: state.spec_step(event).0.specular_bounce,
                phase: PathPhase::Terminated,
                ..state
            },
            PathAction::Nothing,
        ),
{
}

} // verus!
