use vstd::arithmetic::div_mod::{lemma_fundamental_div_mod, lemma_fundamental_div_mod_converse};
use vstd::prelude::*;

verus! {

/// The side of a full tile, in pixels.
pub const TILE_SIZE: usize = 16;

/// A rectangle of pixels of the image.
#[derive(Clone, Copy, Debug, PartialEq, Eq, Structural)]
pub struct TileRect {
    /// The column of the leftmost pixels.
    pub x: usize,
    /// The row of the topmost pixels.
    pub y: usize,
    pub width: usize,
    pub height: usize,
}

impl TileRect {
    /// A tile is not empty, no larger than a full tile, and ends inside the
    /// range of pixel coordinates.
    pub open spec fn wf(self) -> bool {
        &&& 0 < self.width <= TILE_SIZE
        &&& 0 < self.height <= TILE_SIZE
        &&& self.x + self.width <= usize::MAX
        &&& self.y + self.height <= usize::MAX
    }
}

/// The number of tiles that cover a side of the image.
pub open spec fn tiles_across(extent: int) -> int {
    (extent + 15) / 16
}

/// The tile at a position of the row-major order: tiles go from left to
/// right, then from top to bottom, and the last of a row or a column is cut
/// to the image.
pub open spec fn tile_at(width: int, height: int, k: int) -> TileRect {
    let x = (k % tiles_across(width)) * 16;
    let y = (k / tiles_across(width)) * 16;
    TileRect {
        x: x as usize,
        y: y as usize,
        width: (if width - x < 16 {
            width - x
        } else {
            16
        }) as usize,
        height: (if height - y < 16 {
            height - y
        } else {
            16
        }) as usize,
    }
}

/// The tiles of an image in row-major order.
pub open spec fn tiling(width: int, height: int) -> Seq<TileRect> {
    Seq::new(
        (tiles_across(width) * tiles_across(height)) as nat,
        |k: int| tile_at(width, height, k),
    )
}

/// Whether the pixel at a column and a row of the image lies in the tile.
pub open spec fn tile_contains(tile: TileRect, column: int, row: int) -> bool {
    &&& tile.x <= column < tile.x + tile.width
    &&& tile.y <= row < tile.y + tile.height
}

/// The tiles cover the image without overlap: every pixel lies in the tile
/// of its column of tiles and its row of tiles, and in no other.
pub proof fn lemma_tiles_partition(width: int, height: int, column: int, row: int)
    requires
        0 <= column < width <= usize::MAX,
        0 <= row < height <= usize::MAX,
    ensures
        0 <= (row / 16) * tiles_across(width) + column / 16 < tiling(width, height).len(),
        tile_contains(
            tiling(width, height)[(row / 16) * tiles_across(width) + column / 16],
            column,
            row,
        ),
        forall|j: int|
            0 <= j < tiling(width, height).len() && tile_contains(
                #[trigger] tiling(width, height)[j],
                column,
                row,
            ) ==> j == (row / 16) * tiles_across(width) + column / 16,
{
    let cols = tiles_across(width);
    let rows = tiles_across(height);
    let c = column / 16;
    let r = row / 16;
    let k = r * cols + c;
    assert(0 <= c < cols && 0 <= r < rows);
    assert(0 <= k < cols * rows) by (nonlinear_arith)
        requires
            0 <= c < cols,
            0 <= r < rows,
            k == r * cols + c,
    ;
    lemma_fundamental_div_mod_converse(k, cols, r, c);
    assert(tile_contains(tile_at(width, height, k), column, row));
    assert forall|j: int|
        0 <= j < tiling(width, height).len() && tile_contains(
            #[trigger] tiling(width, height)[j],
            column,
            row,
        ) implies j == k by {
        let jc = j % cols;
        let jr = j / cols;
        lemma_fundamental_div_mod(j, cols);
        assert(0 <= jc < cols);
        assert(0 <= jr) by (nonlinear_arith)
            requires
                0 <= j,
                0 < cols,
                jr == j / cols,
        ;
        assert(jr < rows) by (nonlinear_arith)
            requires
                j < cols * rows,
                j == cols * jr + jc,
                0 <= jc,
                0 < cols,
        ;
        let t = tile_at(width, height, j);
        assert(jc * 16 <= column < jc * 16 + 16);
        assert(jr * 16 <= row < jr * 16 + 16);
        assert(jc == c && jr == r);
        assert(cols * jr == jr * cols) by (nonlinear_arith);
    }
}

/// `fastrand::shuffle`: the values of the slice are swapped among
/// themselves, by the thread's generator. The slice holds afterwards what it
/// held before, in an order that is not said.
#[verifier::external_body]
fn shuffle_tiles(tiles: &mut Vec<TileRect>)
    ensures
        final(tiles)@.to_multiset() == old(tiles)@.to_multiset(),
{
    fastrand::shuffle(tiles.as_mut_slice())
}

/// Hands out the tiles of an image, one at a time.
pub struct ImageTileGenerator {
    tiles: Vec<TileRect>,
}

impl ImageTileGenerator {
    /// The tiles not handed out yet, the next one first.
    pub closed spec fn remaining(&self) -> Seq<TileRect> {
        self.tiles@.reverse()
    }

    /// Every tile still to be handed out is well formed.
    pub closed spec fn wf(&self) -> bool {
        forall|j: int| 0 <= j < self.tiles@.len() ==> (#[trigger] self.tiles@[j]).wf()
    }

    /// A generator for the tiles of an image, in row-major order.
    pub fn new(width: usize, height: usize) -> (r: ImageTileGenerator)
        ensures
            r.remaining() == tiling(width as int, height as int),
            r.wf(),
    {
        let mut forward: Vec<TileRect> = Vec::new();
        let mut x: usize = 0;
        let mut y: usize = 0;
        let mut done = width == 0 || height == 0;
        let ghost cols = tiles_across(width as int);
        let ghost rows = tiles_across(height as int);
        let ghost mut c: int = 0;
        let ghost mut r: int = 0;
        proof {
            assert(done ==> cols * rows == 0) by (nonlinear_arith)
                requires
                    done ==> (cols == 0 || rows == 0),
            ;
        }
        while !done
            invariant
                cols == tiles_across(width as int),
                rows == tiles_across(height as int),
                0 <= c,
                0 <= r,
                !done ==> x < width && y < height && x == 16 * c && y == 16 * r && forward.len()
                    == r * cols + c,
                done ==> forward.len() == cols * rows,
                forward.len() <= cols * rows,
                forall|j: int|
                    0 <= j < forward.len() ==> #[trigger] forward@[j] == tile_at(
                        width as int,
                        height as int,
                        j,
                    ),
                forall|j: int| 0 <= j < forward.len() ==> (#[trigger] forward@[j]).wf(),
            decreases cols * rows - forward.len() + (if done { 0int } else { 1int }),
        {
            let tile_width = if width - x < TILE_SIZE {
                width - x
            } else {
                TILE_SIZE
            };
            let tile_height = if height - y < TILE_SIZE {
                height - y
            } else {
                TILE_SIZE
            };
            proof {
                lemma_fundamental_div_mod_converse(forward.len() as int, cols, r, c);
                assert(r * cols + c + 1 <= cols * rows) by (nonlinear_arith)
                    requires
                        0 <= r < rows,
                        0 <= c < cols,
                ;
            }
            forward.push(TileRect { x, y, width: tile_width, height: tile_height });
            if width - x <= TILE_SIZE {
                x = 0;
                if height - y <= TILE_SIZE {
                    done = true;
                    proof {
                        assert(r * cols + cols == cols * rows) by (nonlinear_arith)
                            requires
                                r + 1 == rows,
                        ;
                    }
                } else {
                    y += TILE_SIZE;
                    proof {
                        assert((r + 1) * cols + 0 == r * cols + c + 1) by (nonlinear_arith)
                            requires
                                c + 1 == cols,
                        ;
                        r = r + 1;
                        c = 0;
                    }
                }
            } else {
                x += TILE_SIZE;
                proof {
                    c = c + 1;
                }
            }
        }
        let n = forward.len();
        let mut tiles: Vec<TileRect> = Vec::new();
        let mut i: usize = 0;
        while i < n
            invariant
                n == forward.len(),
                i <= n,
                tiles.len() == i,
                forall|j: int| 0 <= j < i ==> #[trigger] tiles@[j] == forward@[n - 1 - j],
            decreases n - i,
        {
            tiles.push(forward[n - 1 - i]);
            i += 1;
        }
        assert(tiles@.reverse() =~= forward@);
        assert(forward@ =~= tiling(width as int, height as int));
        ImageTileGenerator { tiles }
    }

    /// Puts the tiles not handed out yet into a random order.
    pub fn shuffle(&mut self)
        requires
            old(self).wf(),
        ensures
            final(self).wf(),
            final(self).remaining().to_multiset() == old(self).remaining().to_multiset(),
    {
        shuffle_tiles(&mut self.tiles);
        proof {
            old(self).tiles@.lemma_reverse_to_multiset();
            self.tiles@.lemma_reverse_to_multiset();
            assert forall|j: int| 0 <= j < self.tiles@.len() implies (#[trigger] self.tiles@[j]).wf() by {
                let t = self.tiles@[j];
                self.tiles@.to_multiset_ensures();
                old(self).tiles@.to_multiset_ensures();
                assert(self.tiles@.contains(t));
                assert(self.tiles@.to_multiset().count(t) > 0);
                assert(old(self).tiles@.to_multiset().count(t) > 0);
                assert(old(self).tiles@.contains(t));
            }
        }
    }

    /// The number of tiles not handed out yet.
    pub fn get_num_tiles(&self) -> (r: usize)
        ensures
            r == self.remaining().len(),
    {
        self.tiles.len()
    }

    /// Hands out the next tile, every pixel a copy of `default`, and none
    /// once all are handed out.
    pub fn get_tile<T: Copy>(&mut self, default: T) -> (r: Option<ImageTile<T>>)
        requires
            old(self).wf(),
        ensures
            final(self).wf(),
            match r {
                Some(tile) => {
                    &&& old(self).remaining().len() > 0
                    &&& final(self).remaining() == old(self).remaining().subrange(
                        1,
                        old(self).remaining().len() as int,
                    )
                    &&& tile.rect() == old(self).remaining()[0]
                    &&& tile.wf()
                    &&& tile.visited() == 0
                    &&& tile.pixels() == Seq::new(
                        (tile.rect().width * tile.rect().height) as nat,
                        |i: int| default,
                    )
                },
                None => old(self).remaining().len() == 0 && final(self).remaining() == old(self).remaining(),
            },
    {
        match self.tiles.pop() {
            None => None,
            Some(rect) => {
                assert(rect == old(self).tiles@[old(self).tiles@.len() - 1]);
                assert(rect.wf());
                assert(self.tiles@.reverse() =~= old(self).tiles@.reverse().subrange(
                    1,
                    old(self).tiles@.len() as int,
                ));
                assert(rect.width * rect.height <= 256) by (nonlinear_arith)
                    requires
                        rect.width <= 16,
                        rect.height <= 16,
                ;
                let area = rect.width * rect.height;
                let mut pixels: Vec<T> = Vec::new();
                while pixels.len() < area
                    invariant
                        pixels@.len() <= area,
                        forall|i: int| 0 <= i < pixels@.len() ==> pixels@[i] == default,
                    decreases area - pixels@.len(),
                {
                    pixels.push(default);
                }
                assert(pixels@ =~= Seq::new(area as nat, |i: int| default));
                Some(
                    ImageTile {
                        tile: pixels,
                        x: rect.x,
                        y: rect.y,
                        width: rect.width,
                        height: rect.height,
                        next_x: 0,
                        next_y: 0,
                    },
                )
            },
        }
    }
}

/// The pixels of one tile, with a cursor that walks them row by row.
pub struct ImageTile<T> {
    tile: Vec<T>,
    x: usize,
    y: usize,
    width: usize,
    height: usize,
    next_x: usize,
    next_y: usize,
}

impl<T> ImageTile<T> {
    /// The place of the tile in the image.
    pub closed spec fn rect(&self) -> TileRect {
        TileRect { x: self.x, y: self.y, width: self.width, height: self.height }
    }

    /// The pixels, row by row.
    pub closed spec fn pixels(&self) -> Seq<T> {
        self.tile@
    }

    /// The number of pixels that the cursor has passed.
    pub closed spec fn visited(&self) -> int {
        self.next_y * self.width + self.next_x
    }

    /// The tile holds a pixel for each place of its rectangle, and the
    /// cursor stands on a pixel or behind the last one.
    pub closed spec fn wf(&self) -> bool {
        &&& self.rect().wf()
        &&& self.tile@.len() == self.width * self.height
        &&& self.next_x < self.width
        &&& self.next_y <= self.height
        &&& self.next_y == self.height ==> self.next_x == 0
    }

    /// The column and the row of the tile's first pixel in the image.
    pub fn location(&self) -> (r: (usize, usize))
        ensures
            r == (self.rect().x, self.rect().y),
    {
        (self.x, self.y)
    }

    /// The width and the height of the tile.
    pub fn dimensions(&self) -> (r: (usize, usize))
        ensures
            r == (self.rect().width, self.rect().height),
    {
        (self.width, self.height)
    }

    /// The pixel at a position of the row-by-row order.
    pub fn get(&self, idx: usize) -> (r: &T)
        requires
            idx < self.pixels().len(),
        ensures
            *r == self.pixels()[idx as int],
    {
        &self.tile[idx]
    }

    /// The pixel at a position, to be written, and none behind the last
    /// pixel.
    pub fn get_mut(&mut self, idx: usize) -> (r: Option<&mut T>)
        ensures
            match r {
                Some(pixel) => {
                    &&& idx < old(self).pixels().len()
                    &&& *pixel == old(self).pixels()[idx as int]
                    &&& final(self).pixels() == old(self).pixels().update(idx as int, *final(pixel))
                },
                None => idx >= old(self).pixels().len() && final(self).pixels() == old(self).pixels(),
            },
            final(self).rect() == old(self).rect(),
            final(self).visited() == old(self).visited(),
            old(self).wf() ==> final(self).wf(),
    {
        if idx < self.tile.len() {
            Some(&mut self.tile[idx])
        } else {
            None
        }
    }

    /// The pixel under the cursor, to be written, with its column and row in
    /// the image; the cursor moves on by one pixel, from left to right and
    /// then from top to bottom. None once every pixel was passed.
    pub fn next(&mut self) -> (r: Option<(&mut T, usize, usize)>)
        requires
            old(self).wf(),
        ensures
            final(self).wf(),
            final(self).rect() == old(self).rect(),
            r.is_none() == (old(self).visited() == old(self).pixels().len()),
            match r {
                Some((pixel, column, row)) => {
                    &&& 0 <= old(self).visited() < old(self).pixels().len()
                    &&& *pixel == old(self).pixels()[old(self).visited()]
                    &&& final(self).pixels() == old(self).pixels().update(
                        old(self).visited(),
                        *final(pixel),
                    )
                    &&& column == old(self).rect().x + old(self).visited() % (
                    old(self).rect().width as int)
                    &&& row == old(self).rect().y + old(self).visited() / (
                    old(self).rect().width as int)
                    &&& final(self).visited() == old(self).visited() + 1
                },
                None => final(self).pixels() == old(self).pixels() && final(self).visited() == old(self).visited(),
            },
    {
        let (nx, ny) = (self.next_x, self.next_y);
        let width = self.width;
        proof {
            let height = self.height as int;
            assert(ny * width + nx < width * height <==> ny < height) by (nonlinear_arith)
                requires
                    0 <= nx < width,
                    0 <= ny <= height,
                    ny == height ==> nx == 0,
            ;
            assert(ny == height ==> ny * width + nx == width * height) by (nonlinear_arith)
                requires
                    ny == height ==> nx == 0,
            ;
            assert(ny * width <= 15 * 16 || ny >= height) by (nonlinear_arith)
                requires
                    0 <= ny,
                    0 < width <= 16,
                    height <= 16,
            ;
            if ny < height {
                lemma_fundamental_div_mod_converse(
                    ny * width + nx,
                    width as int,
                    ny as int,
                    nx as int,
                );
            }
        }
        if self.next_x >= self.width || self.next_y >= self.height {
            None
        } else {
            let column = self.next_x + self.x;
            let row = self.next_y + self.y;
            let index = self.next_x + self.next_y * self.width;
            self.next_x += 1;
            if self.next_x >= self.width {
                self.next_x = 0;
                self.next_y += 1;
            }
            assert(self.next_y * self.width + self.next_x == ny * width + nx + 1)
                by (nonlinear_arith)
                requires
                    (self.next_x == nx + 1 && self.next_y == ny) || (self.next_x == 0
                        && self.next_y == ny + 1 && nx + 1 == width),
                    self.width == width,
            ;
            Some((&mut self.tile[index], column, row))
        }
    }

    /// The same as `next`.
    pub fn next_tile(&mut self) -> (r: Option<(&mut T, usize, usize)>)
        requires
            old(self).wf(),
        ensures
            final(self).wf(),
            final(self).rect() == old(self).rect(),
            r.is_none() == (old(self).visited() == old(self).pixels().len()),
            match r {
                Some((pixel, column, row)) => {
                    &&& 0 <= old(self).visited() < old(self).pixels().len()
                    &&& *pixel == old(self).pixels()[old(self).visited()]
                    &&& final(self).pixels() == old(self).pixels().update(
                        old(self).visited(),
                        *final(pixel),
                    )
                    &&& column == old(self).rect().x + old(self).visited() % (
                    old(self).rect().width as int)
                    &&& row == old(self).rect().y + old(self).visited() / (
                    old(self).rect().width as int)
                    &&& final(self).visited() == old(self).visited() + 1
                },
                None => final(self).pixels() == old(self).pixels() && final(self).visited() == old(self).visited(),
            },
    {
        self.next()
    }
}

} // verus!
