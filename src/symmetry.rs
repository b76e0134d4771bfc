use crate::game::{Game, GameView, Tile};
use vstd::prelude::*;

verus! {

/// The board transformations, in the order in which a cache lookup tries them.
#[derive(Debug, Clone, Copy, PartialEq, Eq, Structural)]
pub enum Symmetry {
    FlipH,
    FlipV,
    Rotate90,
    Rotate180,
    Rotate270,
    NoSymmetry,
}

/// The square whose content lands on square `c` under the transformation:
/// after `fliptate`, square `c` holds what square `symmetry_index(s, c)` held.
/// Numbers outside the board are left as they are.
pub open spec fn symmetry_index(s: Symmetry, c: int) -> int {
    match s {
        Symmetry::Rotate90 => if c == 0 {
            6
        } else if c == 1 {
            3
        } else if c == 2 {
            0
        } else if c == 3 {
            7
        } else if c == 5 {
            1
        } else if c == 6 {
            8
        } else if c == 7 {
            5
        } else if c == 8 {
            2
        } else {
            c
        },
        Symmetry::Rotate180 => if 0 <= c < 9 {
            8 - c
        } else {
            c
        },
        Symmetry::Rotate270 => if c == 0 {
            2
        } else if c == 1 {
            5
        } else if c == 2 {
            8
        } else if c == 3 {
            1
        } else if c == 5 {
            7
        } else if c == 6 {
            0
        } else if c == 7 {
            3
        } else if c == 8 {
            6
        } else {
            c
        },
        Symmetry::FlipH => if 0 <= c < 3 {
            c + 6
        } else if 6 <= c < 9 {
            c - 6
        } else {
            c
        },
        Symmetry::FlipV => if 0 <= c < 9 && c % 3 == 0 {
            c + 2
        } else if 0 <= c < 9 && c % 3 == 2 {
            c - 2
        } else {
            c
        },
        Symmetry::NoSymmetry => c,
    }
}

pub open spec fn fliptate_tiles(t: Seq<Tile>, s: Symmetry) -> Seq<Tile> {
    Seq::new(9, |i: int| t[symmetry_index(s, i)])
}

/// The game with its board transformed; pieces in hand and turn unchanged.
pub open spec fn fliptate_view(g: GameView, s: Symmetry) -> GameView {
    GameView { tiles: fliptate_tiles(g.tiles, s), ..g }
}

pub open spec fn rotational_symmetry(t: Seq<Tile>) -> bool {
    t == fliptate_tiles(t, Symmetry::Rotate90) && t == fliptate_tiles(t, Symmetry::Rotate180) && t
        == fliptate_tiles(t, Symmetry::Rotate270)
}

pub open spec fn mirror_symmetry(t: Seq<Tile>, s: Symmetry) -> bool {
    match s {
        Symmetry::FlipH => t == fliptate_tiles(t, Symmetry::FlipH),
        Symmetry::FlipV => t == fliptate_tiles(t, Symmetry::FlipV),
        _ => false,
    }
}

/// The indices to explore along one axis: two when the board is symmetric
/// (by rotation, or by reflection along that axis), else three.
pub open spec fn range_of(t: Seq<Tile>, s: Symmetry) -> Seq<usize> {
    if rotational_symmetry(t) || mirror_symmetry(t, s) {
        seq![0usize, 1usize]
    } else {
        seq![0usize, 1usize, 2usize]
    }
}

pub open spec fn coordinates_index(c: (usize, usize)) -> int {
    if c.0 < 3 && c.1 < 3 {
        3 * c.0 + c.1
    } else {
        0
    }
}

pub open spec fn index_coordinates(i: int) -> (usize, usize) {
    if 0 <= i < 9 {
        ((i / 3) as usize, (i % 3) as usize)
    } else {
        (1usize, 1usize)
    }
}

impl Symmetry {
    /// The transformation that undoes this one.
    pub fn reverse(self: Self) -> (r: Symmetry)
        ensures
            r == (match self {
                Symmetry::Rotate90 => Symmetry::Rotate270,
                Symmetry::Rotate270 => Symmetry::Rotate90,
                _ => self,
            }),
    {
        match self {
            Symmetry::Rotate90 => Symmetry::Rotate270,
            Symmetry::Rotate270 => Symmetry::Rotate90,
            _ => self,
        }
    }
}

fn tile_eq(a: Tile, b: Tile) -> (r: bool)
    ensures
        r == (a == b),
{
    match (a, b) {
        (None, None) => true,
        (Some((ka, sa)), Some((kb, sb))) => ka == kb && sa == sb,
        _ => false,
    }
}

pub(crate) fn tiles_equal(a: &[Tile; 9], b: &[Tile; 9]) -> (r: bool)
    ensures
        r == (a@ == b@),
{
    let mut i: usize = 0;
    while i < 9
        invariant
            i <= 9,
            forall|j: int| 0 <= j < i ==> a@[j] == b@[j],
        decreases 9 - i,
    {
        if !tile_eq(a[i], b[i]) {
            return false;
        }
        i = i + 1;
    }
    assert(a@ =~= b@);
    true
}

impl Game {
    /// The coordinates to explore along one axis.
    pub fn symmetry_range(&self, symmetry: Symmetry) -> (r: Vec<usize>)
        ensures
            r@ == range_of(self@.tiles, symmetry),
    {
        let r = if self.has_rotational_symmetry() || self.has_mirror_symmetry(symmetry) {
            vec![0, 1]
        } else {
            vec![0, 1, 2]
        };
        assert(r@ =~= range_of(self@.tiles, symmetry));
        r
    }

    /// Whether the board is unchanged by the reflection; false for any other
    /// transformation.
    pub fn has_mirror_symmetry(&self, symmetry: Symmetry) -> (r: bool)
        ensures
            r == mirror_symmetry(self@.tiles, symmetry),
    {
        match symmetry {
            Symmetry::FlipH | Symmetry::FlipV => {
                let flipped = self.fliptate(&symmetry);
                tiles_equal(&self.tiles.data, &flipped.tiles.data)
            },
            _ => false,
        }
    }

    /// Whether the board is unchanged by each of the three rotations.
    pub fn has_rotational_symmetry(&self) -> (r: bool)
        ensures
            r == rotational_symmetry(self@.tiles),
    {
        tiles_equal(&self.tiles.data, &self.fliptate(&Symmetry::Rotate90).tiles.data)
            && tiles_equal(&self.tiles.data, &self.fliptate(&Symmetry::Rotate180).tiles.data)
            && tiles_equal(&self.tiles.data, &self.fliptate(&Symmetry::Rotate270).tiles.data)
    }

    /// A copy of the game whose board is transformed.
    pub fn fliptate(self: &Self, symmetry: &Symmetry) -> (r: Self)
        ensures
            r@ == fliptate_view(self@, *symmetry),
    {
        let mut after = self.clone();
        let d = self.tiles.data;
        let s = *symmetry;
        after.tiles.data = [
            d[fliptate_coordinates(0, &s)],
            d[fliptate_coordinates(1, &s)],
            d[fliptate_coordinates(2, &s)],
            d[fliptate_coordinates(3, &s)],
            d[fliptate_coordinates(4, &s)],
            d[fliptate_coordinates(5, &s)],
            d[fliptate_coordinates(6, &s)],
            d[fliptate_coordinates(7, &s)],
            d[fliptate_coordinates(8, &s)],
        ];
        assert(after@.tiles =~= fliptate_tiles(self@.tiles, s));
        after
    }
}

/// Where square `c` is taken from under the transformation.
pub fn fliptate_coordinates(c: usize, symmetry: &Symmetry) -> (r: usize)
    ensures
        r == symmetry_index(*symmetry, c as int),
{
    match symmetry {
        Symmetry::NoSymmetry => noop(c),
        Symmetry::Rotate90 => rotate_coordinates_by_90(c),
        Symmetry::Rotate180 => rotate_coordinates_by_180(c),
        Symmetry::Rotate270 => rotate_coordinates_by_270(c),
        Symmetry::FlipH => flip_coordinates_horizontally(c),
        Symmetry::FlipV => flip_coordinates_vertically(c),
    }
}

pub fn rotate_coordinates_by_90(c: usize) -> (r: usize)
    ensures
        r == symmetry_index(Symmetry::Rotate90, c as int),
{
    match c {
        0 => 6,
        1 => 3,
        2 => 0,
        3 => 7,
        5 => 1,
        6 => 8,
        7 => 5,
        8 => 2,
        _ => c,
    }
}

fn rotate_coordinates_by_180(c: usize) -> (r: usize)
    ensures
        r == symmetry_index(Symmetry::Rotate180, c as int),
{
    match c {
        0 => 8,
        1 => 7,
        2 => 6,
        3 => 5,
        5 => 3,
        6 => 2,
        7 => 1,
        8 => 0,
        _ => c,
    }
}

fn rotate_coordinates_by_270(c: usize) -> (r: usize)
    ensures
        r == symmetry_index(Symmetry::Rotate270, c as int),
{
    match c {
        0 => 2,
        1 => 5,
        2 => 8,
        3 => 1,
        5 => 7,
        6 => 0,
        7 => 3,
        8 => 6,
        _ => c,
    }
}

fn flip_coordinates_horizontally(c: usize) -> (r: usize)
    ensures
        r == symmetry_index(Symmetry::FlipH, c as int),
{
    match c {
        0 => 6,
        1 => 7,
        2 => 8,
        6 => 0,
        7 => 1,
        8 => 2,
        _ => c,
    }
}

fn flip_coordinates_vertically(c: usize) -> (r: usize)
    ensures
        r == symmetry_index(Symmetry::FlipV, c as int),
{
    match c {
        0 => 2,
        2 => 0,
        3 => 5,
        5 => 3,
        6 => 8,
        8 => 6,
        _ => c,
    }
}

fn noop(c: usize) -> (r: usize)
    ensures
        r == c,
{
    c
}

/// Row and column of the square that a quarter turn clockwise takes its
/// content from; coordinates outside the board are left as they are.
pub fn rotate_ij_by_90(c: (usize, usize)) -> (r: (usize, usize))
    ensures
        c.0 < 3 && c.1 < 3 ==> r == index_coordinates(
            symmetry_index(Symmetry::Rotate90, coordinates_index(c)),
        ),
        !(c.0 < 3 && c.1 < 3) ==> r == c,
{
    match c {
        (0, 0) => (2, 0),
        (0, 1) => (1, 0),
        (0, 2) => (0, 0),
        (1, 0) => (2, 1),
        (1, 2) => (0, 1),
        (2, 0) => (2, 2),
        (2, 1) => (1, 2),
        (2, 2) => (0, 2),
        _ => c,
    }
}

/// Square number (row by row) of a row and column; 0 off the board.
pub fn coordinates_to_index(c: (usize, usize)) -> (r: usize)
    ensures
        r == coordinates_index(c),
{
    match c {
        (0, 0) => 0,
        (0, 1) => 1,
        (0, 2) => 2,
        (1, 0) => 3,
        (1, 1) => 4,
        (1, 2) => 5,
        (2, 0) => 6,
        (2, 1) => 7,
        (2, 2) => 8,
        _ => 0,
    }
}

/// Row and column of a square number; the centre for numbers off the board.
pub fn index_to_coordinates(i: usize) -> (r: (usize, usize))
    ensures
        r == index_coordinates(i as int),
{
    match i {
        0 => (0, 0),
        1 => (0, 1),
        2 => (0, 2),
        3 => (1, 0),
        4 => (1, 1),
        5 => (1, 2),
        6 => (2, 0),
        7 => (2, 1),
        8 => (2, 2),
        _ => (1, 1),
    }
}

/// Turning the board a quarter turn and then three quarters gives the game
/// back; so do a half turn twice, and each reflection twice.
pub proof fn lemma_fliptate_round_trip(g: Game)
    ensures
        fliptate_view(fliptate_view(g@, Symmetry::Rotate90), Symmetry::Rotate270) == g@,
        fliptate_view(fliptate_view(g@, Symmetry::Rotate180), Symmetry::Rotate180) == g@,
        fliptate_view(fliptate_view(g@, Symmetry::FlipH), Symmetry::FlipH) == g@,
        fliptate_view(fliptate_view(g@, Symmetry::FlipV), Symmetry::FlipV) == g@,
{
    let t = g@.tiles;
    assert(t.len() == 9);
    assert(fliptate_tiles(fliptate_tiles(t, Symmetry::Rotate90), Symmetry::Rotate270) =~= t);
    assert(fliptate_tiles(fliptate_tiles(t, Symmetry::Rotate180), Symmetry::Rotate180) =~= t);
    assert(fliptate_tiles(fliptate_tiles(t, Symmetry::FlipH), Symmetry::FlipH) =~= t);
    assert(fliptate_tiles(fliptate_tiles(t, Symmetry::FlipV), Symmetry::FlipV) =~= t);
}

} // verus!
