use vstd::prelude::*;
use vstd::string::StringExecFns;

verus! {

/// What was recorded of one ray of a path.
pub struct BounceInfo<R> {
    pub ray: R,
    /// The notes written while the ray was traced.
    pub debug_info: String,
}

impl<R> BounceInfo<R> {
    /// The record of a ray, without notes yet.
    pub fn new(ray: R) -> (r: Self)
        ensures
            r.ray == ray,
            r.debug_info@ == Seq::<char>::empty(),
    {
        BounceInfo { ray, debug_info: String::new() }
    }
}

/// What was recorded of one sample of a pixel.
pub struct SampleInfo<R, C> {
    pub bounces: Vec<BounceInfo<R>>,
    pub final_color: C,
}

/// The record of one pixel: its samples, the rays of each, and the notes
/// written to each ray. Nothing is recorded unless the pixel was chosen.
pub struct DebugInfo<R, C> {
    pub samples: Vec<SampleInfo<R, C>>,
    pub final_color: C,
    pub debug_pixel: bool,
}

impl<R, C> DebugInfo<R, C> {
    /// An empty record that is switched off.
    pub fn new(black: C) -> (r: Self)
        ensures
            r.samples@ == Seq::<SampleInfo<R, C>>::empty(),
            r.final_color == black,
            !r.debug_pixel,
    {
        DebugInfo { samples: Vec::new(), final_color: black, debug_pixel: false }
    }

    /// Whether a sample was begun.
    pub open spec fn in_sample(&self) -> bool {
        self.samples@.len() > 0
    }

    /// Whether a ray of the last sample was begun.
    pub open spec fn in_ray(&self) -> bool {
        self.in_sample() && self.samples@.last().bounces@.len() > 0
    }

    /// The samples but the last one, and the colour of the pixel, are what
    /// they were in `before`.
    pub open spec fn same_but_last_sample(&self, before: &Self) -> bool {
        &&& self.debug_pixel == before.debug_pixel
        &&& self.final_color == before.final_color
        &&& self.samples@.len() == before.samples@.len()
        &&& forall|i: int|
            0 <= i < self.samples@.len() - 1 ==> self.samples@[i] == before.samples@[i]
    }
}

/// Whether the pixel being rendered is recorded.
pub fn is_pixel_debug<R, C>(debug: &DebugInfo<R, C>) -> (r: bool)
    ensures
        r == debug.debug_pixel,
{
    debug.debug_pixel
}

/// Switches the recording on or off.
pub fn set_should_debug_pixel<R, C>(debug: &mut DebugInfo<R, C>, v: bool)
    ensures
        final(debug).debug_pixel == v,
        final(debug).samples == old(debug).samples,
        final(debug).final_color == old(debug).final_color,
{
    debug.debug_pixel = v;
}

/// Begins the record of a sample, its colour `black` for now.
pub fn begin_sample<R, C>(debug: &mut DebugInfo<R, C>, black: C)
    ensures
        final(debug).debug_pixel == old(debug).debug_pixel,
        final(debug).final_color == old(debug).final_color,
        !old(debug).debug_pixel ==> final(debug).samples == old(debug).samples,
        old(debug).debug_pixel ==> {
            &&& final(debug).samples@.len() == old(debug).samples@.len() + 1
            &&& final(debug).samples@.subrange(0, old(debug).samples@.len() as int) == old(debug).samples@
            &&& final(debug).samples@.last().bounces@ == Seq::<BounceInfo<R>>::empty()
            &&& final(debug).samples@.last().final_color == black
        },
{
    if debug.debug_pixel {
        debug.samples.push(SampleInfo { bounces: Vec::new(), final_color: black });
        assert(debug.samples@.subrange(0, old(debug).samples@.len() as int) =~= old(debug).samples@);
    }
}

/// Begins the record of a ray in the last sample.
pub fn begin_ray<R, C>(debug: &mut DebugInfo<R, C>, ray: R)
    requires
        old(debug).debug_pixel ==> old(debug).in_sample(),
    ensures
        !old(debug).debug_pixel ==> *final(debug) == *old(debug),
        old(debug).debug_pixel ==> {
            &&& final(debug).same_but_last_sample(old(debug))
            &&& final(debug).samples@.last().final_color == old(debug).samples@.last().final_color
            &&& final(debug).samples@.last().bounces@.len() == old(debug).samples@.last().bounces@.len() + 1
            &&& final(debug).samples@.last().bounces@.subrange(
                0,
                old(debug).samples@.last().bounces@.len() as int,
            ) == old(debug).samples@.last().bounces@
            &&& final(debug).samples@.last().bounces@.last().ray == ray
            &&& final(debug).samples@.last().bounces@.last().debug_info@ == Seq::<char>::empty()
        },
{
    if debug.debug_pixel {
        let last = debug.samples.len() - 1;
        let bounce = BounceInfo::new(ray);
        debug.samples[last].bounces.push(bounce);
        assert(debug.samples@.last().bounces@.subrange(
            0,
            old(debug).samples@.last().bounces@.len() as int,
        ) =~= old(debug).samples@.last().bounces@);
    }
}

/// Records the colour of the last sample, and hands the colour back.
pub fn end_sample<R, C: Copy>(debug: &mut DebugInfo<R, C>, color: C) -> (r: C)
    requires
        old(debug).debug_pixel ==> old(debug).in_sample(),
    ensures
        r == color,
        !old(debug).debug_pixel ==> *final(debug) == *old(debug),
        old(debug).debug_pixel ==> {
            &&& final(debug).same_but_last_sample(old(debug))
            &&& final(debug).samples@.last().final_color == color
            &&& final(debug).samples@.last().bounces == old(debug).samples@.last().bounces
        },
{
    if debug.debug_pixel {
        let last = debug.samples.len() - 1;
        debug.samples[last].final_color = color;
    }
    color
}

/// Records the colour of the pixel, and hands the colour back.
pub fn end_pixel<R, C: Copy>(debug: &mut DebugInfo<R, C>, color: C) -> (r: C)
    ensures
        r == color,
        final(debug).debug_pixel == old(debug).debug_pixel,
        final(debug).samples == old(debug).samples,
        final(debug).final_color == if old(debug).debug_pixel {
            color
        } else {
            old(debug).final_color
        },
{
    if debug.debug_pixel {
        debug.final_color = color;
    }
    color
}

/// Writes a note behind the notes of the last ray of the last sample.
pub fn ray_write<R, C>(debug: &mut DebugInfo<R, C>, text: &str)
    requires
        old(debug).debug_pixel ==> old(debug).in_ray(),
    ensures
        !old(debug).debug_pixel ==> *final(debug) == *old(debug),
        old(debug).debug_pixel ==> {
            &&& final(debug).same_but_last_sample(old(debug))
            &&& final(debug).samples@.last().final_color == old(debug).samples@.last().final_color
            &&& final(debug).samples@.last().bounces@.len() == old(debug).samples@.last().bounces@.len()
            &&& forall|i: int|
                0 <= i < final(debug).samples@.last().bounces@.len() - 1 ==> final(debug).samples@.last().bounces@[i] == old(debug).samples@.last().bounces@[i]
            &&& final(debug).samples@.last().bounces@.last().ray == old(debug).samples@.last().bounces@.last().ray
            &&& final(debug).samples@.last().bounces@.last().debug_info@ == old(debug).samples@.last().bounces@.last().debug_info@ + text@
        },
{
    if debug.debug_pixel {
        let last = debug.samples.len() - 1;
        let ray = debug.samples[last].bounces.len() - 1;
        debug.samples[last].bounces[ray].debug_info.append(text);
    }
}

} // verus!
