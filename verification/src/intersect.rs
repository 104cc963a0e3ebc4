use vstd::pervasive::unreached;
use vstd::prelude::*;

verus! {

/// What a ray met: a scattering surface, an emitting surface, nothing, or
/// the surface it started from.
pub enum PossibleIntersection<H, L> {
    Hit(H),
    HitLight(L),
    Miss,
    Ignored,
}

impl<H, L> PossibleIntersection<H, L> {
    pub fn is_miss(&self) -> (r: bool)
        ensures
            r == (self is Miss),
    {
        match self {
            PossibleIntersection::Miss => true,
            _ => false,
        }
    }

    pub fn is_hit(&self) -> (r: bool)
        ensures
            r == (self is Hit),
    {
        match self {
            PossibleIntersection::Hit(_) => true,
            _ => false,
        }
    }

    pub fn is_ignored(&self) -> (r: bool)
        ensures
            r == (self is Ignored),
    {
        match self {
            PossibleIntersection::Ignored => true,
            _ => false,
        }
    }

    /// The record of a hit on a scattering surface.
    pub fn unwrap(&self) -> (r: &H)
        requires
            self is Hit,
        ensures
            *r == self->Hit_0,
    {
        match self {
            PossibleIntersection::Hit(i) => i,
            _ => unreached(),
        }
    }

    /// The record of a hit on a scattering surface, by value.
    pub fn unwrap_into(self) -> (r: H)
        requires
            self is Hit,
        ensures
            r == self->Hit_0,
    {
        match self {
            PossibleIntersection::Hit(i) => i,
            _ => unreached(),
        }
    }
}

/// What one shape answers to a ray. A hit is given by a key of its
/// distance: a number that is ordered as the distances are.
#[derive(Clone, Copy, Debug, PartialEq, Eq, Structural)]
pub enum ShapeHit {
    Miss,
    /// The ray starts on the shape.
    Ignored,
    Hit { distance: u32 },
}

/// Whether a shape in the list ignores the ray.
pub open spec fn any_ignored(hits: Seq<ShapeHit>) -> bool {
    exists|i: int| 0 <= i < hits.len() && hits[i] is Ignored
}

/// Whether the hit at a position is the nearest of the list, and the first
/// of those that are as near.
pub open spec fn is_nearest(hits: Seq<ShapeHit>, at: int) -> bool {
    &&& 0 <= at < hits.len()
    &&& hits[at] is Hit
    &&& forall|j: int|
        0 <= j < hits.len() && hits[j] is Hit ==> {
            &&& hits[at]->distance <= (#[trigger] hits[j])->distance
            &&& j < at ==> hits[at]->distance < hits[j]->distance
        }
}

/// What a ray meets in a scene, from what each object and each emitting
/// surface answers: the nearest hit, the objects coming before the
/// emitters; nothing where every shape is missed; and the ray is ignored
/// where any shape ignores it.
pub fn nearest_hit(objects: &[ShapeHit], lights: &[ShapeHit]) -> (r: PossibleIntersection<
    usize,
    usize,
>)
    ensures
        match r {
            PossibleIntersection::Ignored => any_ignored(objects@ + lights@),
            PossibleIntersection::Miss => forall|i: int|
                0 <= i < (objects@ + lights@).len() ==> (#[trigger] (objects@ + lights@)[i]) is Miss,
            PossibleIntersection::Hit(index) => {
                &&& !any_ignored(objects@ + lights@)
                &&& index < objects@.len()
                &&& is_nearest(objects@ + lights@, index as int)
            },
            PossibleIntersection::HitLight(index) => {
                &&& !any_ignored(objects@ + lights@)
                &&& index < lights@.len()
                &&& is_nearest(objects@ + lights@, objects@.len() + index)
            },
        },
{
    let ghost all = objects@ + lights@;
    let mut nearest: PossibleIntersection<usize, usize> = PossibleIntersection::Miss;
    let mut best: u32 = 0;
    let ghost mut at: int = 0;
    let mut i: usize = 0;
    while i < objects.len()
        invariant
            i <= objects@.len(),
            all == objects@ + lights@,
            nearest is Miss || nearest is Hit,
            forall|j: int| 0 <= j < i ==> !((#[trigger] all[j]) is Ignored),
            nearest is Miss ==> forall|j: int| 0 <= j < i ==> (#[trigger] all[j]) is Miss,
            nearest is Hit ==> nearest->Hit_0 == at && is_nearest(all.subrange(0, i as int), at)
                && all[at]->distance == best,
        decreases objects@.len() - i,
    {
        assert(all[i as int] == objects@[i as int]);
        match objects[i] {
            ShapeHit::Hit { distance } => {
                if nearest.is_miss() || distance < best {
                    nearest = PossibleIntersection::Hit(i);
                    best = distance;
                    proof {
                        at = i as int;
                    }
                }
            },
            ShapeHit::Ignored => {
                return PossibleIntersection::Ignored;
            },
            ShapeHit::Miss => {},
        }
        assert(is_nearest(all.subrange(0, i as int + 1), at) || nearest is Miss);
        i += 1;
    }
    let mut k: usize = 0;
    while k < lights.len()
        invariant
            i == objects@.len(),
            k <= lights@.len(),
            all == objects@ + lights@,
            !(nearest is Ignored),
            forall|j: int| 0 <= j < i + k ==> !((#[trigger] all[j]) is Ignored),
            nearest is Miss ==> forall|j: int| 0 <= j < i + k ==> (#[trigger] all[j]) is Miss,
            nearest is Hit ==> nearest->Hit_0 == at && at < i,
            nearest is HitLight ==> nearest->HitLight_0 + i == at && i <= at,
            !(nearest is Miss) ==> is_nearest(all.subrange(0, i + k), at) && all[at]->distance
                == best,
        decreases lights@.len() - k,
    {
        assert(all[i + k] == lights@[k as int]);
        match lights[k] {
            ShapeHit::Hit { distance } => {
                if nearest.is_miss() || distance < best {
                    nearest = PossibleIntersection::HitLight(k);
                    best = distance;
                    proof {
                        at = i + k;
                    }
                }
            },
            ShapeHit::Ignored => {
                return PossibleIntersection::Ignored;
            },
            ShapeHit::Miss => {},
        }
        assert(is_nearest(all.subrange(0, i + k + 1), at) || nearest is Miss);
        k += 1;
    }
    assert(all.subrange(0, i + k) == all);
    nearest
}

} // verus!
