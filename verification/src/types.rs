use vstd::prelude::*;

verus! {

/// A colour of three bytes: red, green, blue.
#[derive(Clone, Copy, Debug, PartialEq, Eq)]
pub struct R8G8B8Color(pub [u8; 3]);

impl R8G8B8Color {
    /// The channels, red first.
    pub open spec fn channels(self) -> Seq<u8> {
        self.0@
    }

    /// The channel at a position: 0 red, 1 green, 2 blue.
    pub fn index(&self, index: usize) -> (r: u8)
        requires
            index < 3,
        ensures
            r == self.channels()[index as int],
    {
        self.0[index]
    }

    /// The three channels, red first.
    pub fn into_array(self) -> (r: [u8; 3])
        ensures
            r@ == self.channels(),
    {
        self.0
    }
}

impl Default for R8G8B8Color {
    /// Black.
    fn default() -> (r: Self)
        ensures
            r.channels() == seq![0u8, 0u8, 0u8],
    {
        let r = R8G8B8Color([0, 0, 0]);
        assert(r.channels() =~= seq![0u8, 0u8, 0u8]);
        r
    }
}

} // verus!
