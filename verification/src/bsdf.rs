use crate::bxdf::{BxDFKind, REFLECTION_BIT, SPECULAR_BIT, TRANSMISSION_BIT};
use smallvec::SmallVec;
use vstd::prelude::*;

verus! {

/// The most terms one aggregate takes: beyond it the small vector could not
/// grow on a 32-bit machine.
pub const LOBE_LIMIT: usize = 0x4000_0000;

/// The kinds of an aggregate's terms, in the order they were added, in a
/// vector that stays on the stack up to eight terms.
#[verifier::external_body]
pub struct LobeKinds {
    inner: SmallVec<[u8; 8]>,
}

/// The bit patterns that a `LobeKinds` holds, oldest first.
pub uninterp spec fn lobe_bits(lobes: LobeKinds) -> Seq<u8>;

/// `SmallVec::new`: a vector that holds nothing.
#[verifier::external_body]
fn lobes_new() -> (r: LobeKinds)
    ensures
        lobe_bits(r) == Seq::<u8>::empty(),
{
    LobeKinds { inner: SmallVec::new() }
}

/// `SmallVec::push`: the value is appended behind what the vector held. The
/// vector grows onto the heap past eight values, and growing fails only
/// where the doubled capacity would not fit the machine, which the limit
/// rules out.
#[verifier::external_body]
fn lobes_push(lobes: &mut LobeKinds, bits: u8)
    requires
        lobe_bits(*old(lobes)).len() < LOBE_LIMIT,
    ensures
        lobe_bits(*final(lobes)) == lobe_bits(*old(lobes)).push(bits),
{
    lobes.inner.push(bits)
}

/// `SmallVec::len`: the number of values held.
#[verifier::external_body]
fn lobes_len(lobes: &LobeKinds) -> (r: usize)
    ensures
        r == lobe_bits(*lobes).len(),
{
    lobes.inner.len()
}

/// Indexing a `SmallVec` through its slice: the value at a position below
/// the length.
#[verifier::external_body]
fn lobes_get(lobes: &LobeKinds, index: usize) -> (r: u8)
    requires
        index < lobe_bits(*lobes).len(),
    ensures
        r == lobe_bits(*lobes)[index as int],
{
    lobes.inner[index]
}

/// Which terms of an aggregate take part in an operation.
pub struct Selector {
    /// Only terms whose every flag is in the query take part.
    pub query: BxDFKind,
    /// With `Some(true)` only reflecting terms take part, with `Some(false)`
    /// only transmitting ones.
    pub side: Option<bool>,
    /// The position of a term that is left out.
    pub skip: Option<usize>,
}

impl Selector {
    pub open spec fn admits(self, kind: BxDFKind, index: int) -> bool {
        &&& kind.spec_matches(self.query)
        &&& match self.side {
            None => true,
            Some(reflect) => if reflect {
                kind.spec_has(BxDFKind(REFLECTION_BIT))
            } else {
                kind.spec_has(BxDFKind(TRANSMISSION_BIT))
            },
        }
        &&& match self.skip {
            None => true,
            Some(skipped) => index != skipped,
        }
    }

    /// Every term that matches the query.
    pub open spec fn matching(query: BxDFKind) -> Selector {
        Selector { query, side: None, skip: None }
    }

    /// The terms that match the query on one side of the surface.
    pub open spec fn on_side(query: BxDFKind, reflect: bool) -> Selector {
        Selector { query, side: Some(reflect), skip: None }
    }

    /// The terms that match the query, but for one.
    pub open spec fn others(query: BxDFKind, skipped: usize) -> Selector {
        Selector { query, side: None, skip: Some(skipped) }
    }
}

/// The positions below `n`, in rising order, of the terms that the selector
/// admits.
pub open spec fn selected_below(kinds: Seq<BxDFKind>, selector: Selector, n: int) -> Seq<usize>
    decreases n,
{
    if n <= 0 {
        Seq::empty()
    } else {
        let rest = selected_below(kinds, selector, n - 1);
        if selector.admits(kinds[n - 1], n - 1) {
            rest.push((n - 1) as usize)
        } else {
            rest
        }
    }
}

/// The positions, in rising order, of all the terms that the selector admits.
pub open spec fn selected(kinds: Seq<BxDFKind>, selector: Selector) -> Seq<usize> {
    selected_below(kinds, selector, kinds.len() as int)
}

/// What has to be done to the pdf and the value that one term sampled, so
/// that they speak for the whole aggregate.
pub struct Recombination {
    /// The other matching terms: the pdf of each at the sampled direction is
    /// added to the sampled term's pdf.
    pub other_terms: Vec<usize>,
    /// The number of matching terms, by which the summed pdf is divided.
    pub divisor: usize,
    /// Whether the value is summed anew over every participating term.
    pub recompute_f: bool,
}

/// The kinds of the terms that scatter light at one surface point.
pub struct BSDF {
    lobes: LobeKinds,
}

impl BSDF {
    /// The terms' kinds, oldest first.
    pub closed spec fn kinds(&self) -> Seq<BxDFKind> {
        Seq::new(lobe_bits(self.lobes).len(), |i: int| BxDFKind(lobe_bits(self.lobes)[i]))
    }

    /// An aggregate without terms.
    pub fn new() -> (r: Self)
        ensures
            r.kinds() == Seq::<BxDFKind>::empty(),
    {
        let r = BSDF { lobes: lobes_new() };
        assert(r.kinds() =~= Seq::<BxDFKind>::empty());
        r
    }

    /// Appends a term of the given kind. Nothing is looked up or merged: a
    /// kind that is added twice stands for two terms.
    pub fn add(&mut self, kind: BxDFKind)
        requires
            old(self).kinds().len() < LOBE_LIMIT,
        ensures
            final(self).kinds() == old(self).kinds().push(kind),
    {
        lobes_push(&mut self.lobes, kind.to_bits());
        assert(self.kinds() =~= old(self).kinds().push(kind));
    }

    /// The number of terms, whatever their kind.
    pub fn len(&self) -> (r: usize)
        ensures
            r == self.kinds().len(),
    {
        lobes_len(&self.lobes)
    }

    /// The kind of the term at a position.
    pub fn kind_at(&self, index: usize) -> (r: BxDFKind)
        requires
            index < self.kinds().len(),
        ensures
            r == self.kinds()[index as int],
    {
        BxDFKind::from_bits(lobes_get(&self.lobes, index))
    }

    fn select(&self, selector: &Selector) -> (r: Vec<usize>)
        ensures
            r@ == selected(self.kinds(), *selector),
    {
        let n = self.len();
        let mut out: Vec<usize> = Vec::new();
        let mut i: usize = 0;
        while i < n
            invariant
                i <= n,
                n == self.kinds().len(),
                out@ == selected_below(self.kinds(), *selector, i as int),
            decreases n - i,
        {
            let kind = self.kind_at(i);
            let on_side = match selector.side {
                None => true,
                Some(reflect) => if reflect {
                    kind.has(BxDFKind::reflection())
                } else {
                    kind.has(BxDFKind::transmission())
                },
            };
            let kept = match selector.skip {
                None => true,
                Some(skipped) => i != skipped,
            };
            if kind.matches(selector.query) && on_side && kept {
                out.push(i);
            }
            i += 1;
        }
        out
    }

    /// The number of terms that match the query.
    pub fn num_components(&self, kind: BxDFKind) -> (r: usize)
        ensures
            r == selected(self.kinds(), Selector::matching(kind)).len(),
    {
        let n = self.len();
        let mut count: usize = 0;
        let mut i: usize = 0;
        while i < n
            invariant
                i <= n,
                n == self.kinds().len(),
                count <= i,
                count == selected_below(self.kinds(), Selector::matching(kind), i as int).len(),
            decreases n - i,
        {
            if self.kind_at(i).matches(kind) {
                count += 1;
            }
            i += 1;
        }
        count
    }

    /// The terms whose values are summed for a pair of directions: those
    /// that match the query and scatter to the side on which the incoming
    /// direction lies, `reflect` saying that both directions lie on one side
    /// of the surface.
    pub fn f_terms(&self, kind: BxDFKind, reflect: bool) -> (r: Vec<usize>)
        ensures
            r@ == selected(self.kinds(), Selector::on_side(kind, reflect)),
    {
        self.select(&Selector { query: kind, side: Some(reflect), skip: None })
    }

    /// The terms whose pdfs are averaged, and whose reflectances are summed:
    /// all that match the query.
    pub fn pdf_terms(&self, kind: BxDFKind) -> (r: Vec<usize>)
        ensures
            r@ == selected(self.kinds(), Selector::matching(kind)),
    {
        self.select(&Selector { query: kind, side: None, skip: None })
    }

    /// The term that samples a direction: of the terms that match the query,
    /// the one that `component` counts to, and none where fewer match.
    pub fn choose_term(&self, kind: BxDFKind, component: usize) -> (r: Option<usize>)
        ensures
            match r {
                Some(index) => component < selected(self.kinds(), Selector::matching(kind)).len()
                    && index == selected(self.kinds(), Selector::matching(kind))[component as int],
                None => component >= selected(self.kinds(), Selector::matching(kind)).len(),
            },
    {
        let n = self.len();
        let mut count: usize = 0;
        let mut i: usize = 0;
        while i < n
            invariant
                i <= n,
                n == self.kinds().len(),
                count <= i,
                count <= component,
                count == selected_below(self.kinds(), Selector::matching(kind), i as int).len(),
            decreases n - i,
        {
            if self.kind_at(i).matches(kind) {
                if count == component {
                    proof {
                        let sel = Selector::matching(kind);
                        let upto = selected_below(self.kinds(), sel, i as int + 1);
                        assert(upto == selected_below(self.kinds(), sel, i as int).push(i));
                        assert(upto[component as int] == i);
                        lemma_selected_prefix(self.kinds(), sel, i as int + 1, n as int);
                        assert(selected(self.kinds(), sel).subrange(
                            0,
                            upto.len() as int,
                        )[component as int] == i);
                    }
                    return Some(i);
                }
                count += 1;
            }
            i += 1;
        }
        None
    }

    /// What follows the sampling of a direction by the term at `chosen`.
    /// A specular term's result stands as it is, since no other term can be
    /// evaluated at its direction: `None`. Otherwise the pdfs of the other
    /// matching terms are added and the sum is divided by the number of
    /// matching terms, and where more than one term matches the value is
    /// summed anew.
    pub fn recombination(&self, kind: BxDFKind, chosen: usize) -> (r: Option<Recombination>)
        requires
            chosen < self.kinds().len(),
        ensures
            r.is_none() == self.kinds()[chosen as int].spec_has(BxDFKind(SPECULAR_BIT)),
            match r {
                Some(plan) => {
                    &&& plan.other_terms@ == selected(self.kinds(), Selector::others(kind, chosen))
                    &&& plan.divisor == selected(self.kinds(), Selector::matching(kind)).len()
                    &&& plan.recompute_f == (plan.divisor > 1)
                    &&& self.kinds()[chosen as int].spec_matches(kind) ==> plan.divisor
                        == plan.other_terms@.len() + 1
                },
                None => true,
            },
    {
        if self.kind_at(chosen).has(BxDFKind::specular()) {
            None
        } else {
            let other_terms = self.select(&Selector { query: kind, side: None, skip: Some(chosen) });
            let divisor = self.num_components(kind);
            proof {
                lemma_others_and_chosen(self.kinds(), kind, chosen, self.kinds().len() as int);
            }
            Some(Recombination { other_terms, divisor, recompute_f: divisor > 1 })
        }
    }
}

/// What is selected below a position is the start of what is selected below
/// a later one.
pub proof fn lemma_selected_prefix(kinds: Seq<BxDFKind>, selector: Selector, n: int, m: int)
    requires
        0 <= n <= m,
    ensures
        selected_below(kinds, selector, n).len() <= selected_below(kinds, selector, m).len(),
        selected_below(kinds, selector, n) == selected_below(kinds, selector, m).subrange(
            0,
            selected_below(kinds, selector, n).len() as int,
        ),
    decreases m - n,
{
    if n == m {
        assert(selected_below(kinds, selector, n) =~= selected_below(kinds, selector, m).subrange(
            0,
            selected_below(kinds, selector, n).len() as int,
        ));
    } else {
        lemma_selected_prefix(kinds, selector, n, m - 1);
        assert(selected_below(kinds, selector, n) =~= selected_below(kinds, selector, m).subrange(
            0,
            selected_below(kinds, selector, n).len() as int,
        ));
    }
}

/// The selection holds exactly the admitted positions, each once, in
/// rising order.
pub proof fn lemma_selected_exact(kinds: Seq<BxDFKind>, selector: Selector, n: int)
    requires
        0 <= n <= kinds.len(),
        n <= usize::MAX,
    ensures
        forall|j: int|
            0 <= j < selected_below(kinds, selector, n).len() ==> {
                &&& #[trigger] selected_below(kinds, selector, n)[j] < n
                &&& selector.admits(
                    kinds[selected_below(kinds, selector, n)[j] as int],
                    selected_below(kinds, selector, n)[j] as int,
                )
            },
        forall|j: int, k: int|
            0 <= j < k < selected_below(kinds, selector, n).len() ==> #[trigger] selected_below(
                kinds,
                selector,
                n,
            )[j] < #[trigger] selected_below(kinds, selector, n)[k],
        forall|i: int|
            0 <= i < n && selector.admits(#[trigger] kinds[i], i) ==> selected_below(
                kinds,
                selector,
                n,
            ).contains(i as usize),
    decreases n,
{
    if n > 0 {
        lemma_selected_exact(kinds, selector, n - 1);
        let rest = selected_below(kinds, selector, n - 1);
        let all = selected_below(kinds, selector, n);
        if selector.admits(kinds[n - 1], n - 1) {
            assert(all == rest.push((n - 1) as usize));
            assert(all[rest.len() as int] == (n - 1) as usize);
            assert forall|i: int| 0 <= i < n && selector.admits(#[trigger] kinds[i], i) implies all.contains(
                i as usize,
            ) by {
                if i < n - 1 {
                    let j = choose|j: int| 0 <= j < rest.len() && rest[j] == i as usize;
                    assert(all[j] == i as usize);
                }
            }
        } else {
            assert(all == rest);
        }
    }
}

/// A query without the specular flag selects no specular term: the value and
/// the pdf of such a term are never asked for under it.
pub proof fn lemma_specular_never_selected(kinds: Seq<BxDFKind>, selector: Selector, j: int)
    requires
        kinds.len() <= usize::MAX,
        !selector.query.spec_has(BxDFKind(SPECULAR_BIT)),
        0 <= j < selected(kinds, selector).len(),
    ensures
        selected(kinds, selector)[j] < kinds.len(),
        !kinds[selected(kinds, selector)[j] as int].spec_has(BxDFKind(SPECULAR_BIT)),
{
    lemma_selected_exact(kinds, selector, kinds.len() as int);
    let kind = kinds[selected(kinds, selector)[j] as int];
    assert(selector.admits(kind, selected(kinds, selector)[j] as int));
    let (x, q) = (kind.bits(), selector.query.bits());
    assert((x & q == x && q & 16u8 == 0u8) ==> x & 16u8 == 0u8) by (bit_vector);
}

/// The term that samples a direction matches the query, and the other
/// matching terms are all the matching terms but that one.
pub proof fn lemma_chosen_matches(kinds: Seq<BxDFKind>, query: BxDFKind, component: int)
    requires
        kinds.len() <= usize::MAX,
        0 <= component < selected(kinds, Selector::matching(query)).len(),
    ensures
        selected(kinds, Selector::matching(query))[component] < kinds.len(),
        kinds[selected(kinds, Selector::matching(query))[component] as int].spec_matches(query),
{
    lemma_selected_exact(kinds, Selector::matching(query), kinds.len() as int);
    let index = selected(kinds, Selector::matching(query))[component];
    assert(Selector::matching(query).admits(kinds[index as int], index as int));
}

/// The matching terms are the sampling term and the others: the number by
/// which the summed pdf is divided counts each term whose pdf was added.
pub proof fn lemma_others_and_chosen(kinds: Seq<BxDFKind>, query: BxDFKind, chosen: usize, n: int)
    requires
        0 <= n <= kinds.len(),
    ensures
        selected_below(kinds, Selector::matching(query), n).len() == selected_below(
            kinds,
            Selector::others(query, chosen),
            n,
        ).len() + if chosen < n && kinds[chosen as int].spec_matches(query) {
            1int
        } else {
            0int
        },
    decreases n,
{
    if n > 0 {
        lemma_others_and_chosen(kinds, query, chosen, n - 1);
    }
}

/// Something is selected exactly when the selector admits some term.
pub proof fn lemma_selected_nonempty(kinds: Seq<BxDFKind>, selector: Selector)
    requires
        kinds.len() <= usize::MAX,
    ensures
        selected(kinds, selector).len() > 0 <==> exists|i: int|
            0 <= i < kinds.len() && selector.admits(#[trigger] kinds[i], i),
{
    lemma_selected_exact(kinds, selector, kinds.len() as int);
    let found = selected(kinds, selector);
    if found.len() > 0 {
        let i = found[0] as int;
        assert(0 <= i < kinds.len() && selector.admits(kinds[i], i));
    }
    if exists|i: int| 0 <= i < kinds.len() && selector.admits(#[trigger] kinds[i], i) {
        let i = choose|i: int| 0 <= i < kinds.len() && selector.admits(#[trigger] kinds[i], i);
        assert(found.contains(i as usize));
    }
}

} // verus!
