use vstd::prelude::*;

verus! {

/// Whether the keys never fall from one position to the next.
pub open spec fn sorted(keys: Seq<u32>) -> bool {
    forall|i: int, j: int| 0 <= i <= j < keys.len() ==> keys[i] <= keys[j]
}

/// Whether `bucket` is the bucket of `value` in a cumulative distribution
/// given by its keys: the rightmost position, the last one left aside, whose
/// key is not above the value, and the first bucket where there is none.
pub open spec fn is_bucket_of(keys: Seq<u32>, value: u32, bucket: int) -> bool {
    &&& 0 <= bucket
    &&& bucket + 1 < keys.len() || bucket == 0
    &&& bucket > 0 ==> keys[bucket] <= value
    &&& forall|j: int| bucket < j < keys.len() - 1 ==> keys[j] > value
}

/// Finds the bucket of a value by bisection. The keys stand for cumulative
/// values and are ordered as they are; one more key than there are buckets.
pub fn binary_search_cdf(cdf: &[u32], value: u32) -> (r: usize)
    requires
        cdf@.len() > 0,
        sorted(cdf@),
    ensures
        is_bucket_of(cdf@, value, r as int),
{
    let mut low: usize = 0;
    let mut high: usize = cdf.len() - 1;
    while low < high
        invariant
            low <= high < cdf@.len(),
            sorted(cdf@),
            forall|j: int| 0 <= j < low ==> cdf@[j] <= value,
            forall|j: int| high <= j < cdf@.len() - 1 ==> cdf@[j] > value,
        decreases high - low,
    {
        let mid = low + (high - low) / 2;
        if cdf[mid] <= value {
            low = mid + 1;
        } else {
            high = mid;
        }
    }
    if low == 0 {
        0
    } else {
        low - 1
    }
}

/// The bucket of a value is unique.
pub proof fn lemma_bucket_unique(keys: Seq<u32>, value: u32, a: int, b: int)
    requires
        is_bucket_of(keys, value, a),
        is_bucket_of(keys, value, b),
    ensures
        a == b,
{
}

/// In ordered keys, the keys up to the bucket are not above the value, as
/// long as the first one is not.
pub proof fn lemma_bucket_bounds(keys: Seq<u32>, value: u32, bucket: int)
    requires
        sorted(keys),
        is_bucket_of(keys, value, bucket),
        keys.len() > 0,
        keys[0] <= value,
    ensures
        forall|j: int| 0 <= j <= bucket ==> keys[j] <= value,
{
}

/// The bucket structure of a piecewise-constant distribution over `[0, 1)`:
/// the keys of its cumulative values, from that of zero to that of one.
pub struct Distribution1D {
    cdf: Vec<u32>,
}

impl Distribution1D {
    /// The keys of the cumulative values.
    pub closed spec fn keys(&self) -> Seq<u32> {
        self.cdf@
    }

    /// A distribution has at least one bucket, and its cumulative values
    /// never fall.
    pub open spec fn wf(&self) -> bool {
        self.keys().len() >= 2 && sorted(self.keys())
    }

    /// The number of buckets.
    pub open spec fn spec_count(&self) -> int {
        self.keys().len() - 1
    }

    /// Takes the keys if they are those of a distribution.
    pub fn new(cdf: Vec<u32>) -> (r: Option<Distribution1D>)
        ensures
            r.is_some() == (cdf@.len() >= 2 && sorted(cdf@)),
            match r {
                Some(d) => d.keys() == cdf@ && d.wf(),
                None => true,
            },
    {
        if cdf.len() < 2 {
            return None;
        }
        let mut i: usize = 1;
        while i < cdf.len()
            invariant
                1 <= i <= cdf@.len(),
                forall|a: int, b: int| 0 <= a <= b < i ==> cdf@[a] <= cdf@[b],
            decreases cdf@.len() - i,
        {
            if cdf[i - 1] > cdf[i] {
                return None;
            }
            i += 1;
        }
        Some(Distribution1D { cdf })
    }

    pub fn count(&self) -> (r: usize)
        requires
            self.wf(),
        ensures
            r == self.spec_count(),
    {
        self.cdf.len() - 1
    }

    /// The key at a position: that of the cumulative value before the
    /// bucket of that number.
    pub fn key(&self, index: usize) -> (r: u32)
        requires
            index < self.keys().len(),
        ensures
            r == self.keys()[index as int],
    {
        self.cdf[index]
    }

    /// The bucket that a value falls into.
    pub fn sample_discrete(&self, u: u32) -> (r: usize)
        requires
            self.wf(),
        ensures
            r < self.spec_count(),
            is_bucket_of(self.keys(), u, r as int),
    {
        binary_search_cdf(self.cdf.as_slice(), u)
    }
}

/// The bucket structure of a piecewise-constant distribution over the unit
/// square: one distribution per row, and one over the rows.
pub struct Distribution2D {
    p_conditional_v: Vec<Distribution1D>,
    p_marginal: Distribution1D,
}

impl Distribution2D {
    /// The keys of the distribution over the rows.
    pub closed spec fn marginal(&self) -> Seq<u32> {
        self.p_marginal.keys()
    }

    /// The keys of the distribution within a row.
    pub closed spec fn conditional(&self, row: int) -> Seq<u32> {
        self.p_conditional_v@[row].keys()
    }

    /// The number of rows.
    pub closed spec fn rows(&self) -> int {
        self.p_conditional_v@.len() as int
    }

    /// The distribution over the rows has a bucket for each row, and every
    /// distribution is well formed.
    pub closed spec fn wf(&self) -> bool {
        &&& self.p_marginal.wf()
        &&& self.p_marginal.spec_count() == self.p_conditional_v@.len()
        &&& forall|row: int|
            0 <= row < self.p_conditional_v@.len() ==> (#[trigger] self.p_conditional_v@[row]).wf()
    }

    /// Puts the rows and the distribution over them together, if there is a
    /// row for each bucket of that distribution.
    pub fn new(rows: Vec<Distribution1D>, marginal: Distribution1D) -> (r: Option<Distribution2D>)
        requires
            marginal.wf(),
            forall|row: int| 0 <= row < rows@.len() ==> (#[trigger] rows@[row]).wf(),
        ensures
            r.is_some() == (marginal.spec_count() == rows@.len()),
            match r {
                Some(d) => {
                    &&& d.wf()
                    &&& d.rows() == rows@.len()
                    &&& d.marginal() == marginal.keys()
                    &&& forall|row: int|
                        0 <= row < rows@.len() ==> d.conditional(row) == (#[trigger] rows@[row]).keys()
                },
                None => true,
            },
    {
        if marginal.count() != rows.len() {
            None
        } else {
            Some(Distribution2D { p_conditional_v: rows, p_marginal: marginal })
        }
    }

    /// The row and the column that a pair of values falls into: the row is
    /// found first, by the second value in the distribution over the rows,
    /// then the column, by the first value within that row.
    pub fn sample_discrete(&self, u: (u32, u32)) -> (r: (usize, usize))
        requires
            self.wf(),
        ensures
            r.0 < self.rows(),
            is_bucket_of(self.marginal(), u.1, r.0 as int),
            is_bucket_of(self.conditional(r.0 as int), u.0, r.1 as int),
            r.1 + 1 < self.conditional(r.0 as int).len(),
    {
        let row = self.p_marginal.sample_discrete(u.1);
        let column = self.p_conditional_v[row].sample_discrete(u.0);
        (row, column)
    }
}

} // verus!
