use vstd::prelude::*;

verus! {

/// Number of pieces each player starts with in a standard game.
pub const NUMBER_OF_PIECES: usize = 6;

#[derive(Debug, Clone, Copy, PartialEq, Eq, Hash, Structural)]
pub enum PlayerKind {
    X,
    O,
}

/// The topmost piece on a square, with its owner and size.
pub type Tile = Option<(PlayerKind, usize)>;

/// A move: row, column and piece size.
pub type Move = (usize, usize, usize);

#[derive(Debug, PartialEq, Eq, Hash)]
pub struct Player {
    pub kind: PlayerKind,
    pub pieces: Vec<usize>,
}

/// The 3x3 board, row by row.
#[derive(Debug, Clone, Copy, PartialEq, Eq, Hash)]
pub struct Tiles {
    pub data: [Tile; 9],
}

#[derive(Debug, Clone, Copy, PartialEq, Eq, Hash, Structural)]
pub enum Winner {
    X,
    O,
    Tie,
}

/// Why a move was rejected.
#[derive(Debug, Clone, Copy, PartialEq, Eq, Hash, Structural)]
pub enum MoveError {
    /// The square holds a piece at least as large as the one offered.
    TileBlocked,
    /// The player to move has no piece of that size left.
    PieceUnavailable,
}

#[derive(Debug, PartialEq, Eq, Hash)]
pub struct Game {
    pub tiles: Tiles,
    pub winner: Option<Winner>,
    pub players: (Player, Player),
    pub current_player_kind: PlayerKind,
}

/// Mathematical model of a game: the board as nine tiles, the remaining pieces
/// of X (first player) and O (second player), whose turn it is and the result.
pub struct GameView {
    pub tiles: Seq<Tile>,
    pub winner: Option<Winner>,
    pub x_kind: PlayerKind,
    pub x_pieces: Seq<usize>,
    pub o_kind: PlayerKind,
    pub o_pieces: Seq<usize>,
    pub turn: PlayerKind,
}

impl View for Game {
    type V = GameView;

    open spec fn view(&self) -> GameView {
        GameView {
            tiles: self.tiles.data@,
            winner: self.winner,
            x_kind: self.players.0.kind,
            x_pieces: self.players.0.pieces@,
            o_kind: self.players.1.kind,
            o_pieces: self.players.1.pieces@,
            turn: self.current_player_kind,
        }
    }
}

/// Position of the first occurrence of `v` in `s`, or -1.
pub open spec fn index_of<T>(s: Seq<T>, v: T) -> int
    decreases s.len(),
{
    if s.len() == 0 {
        -1
    } else if s[0] == v {
        0
    } else {
        let r = index_of(s.drop_first(), v);
        if r < 0 {
            -1
        } else {
            r + 1
        }
    }
}

/// `index_of` is -1 exactly when `v` does not occur, and otherwise the
/// position of its first occurrence.
pub proof fn lemma_index_of<T>(s: Seq<T>, v: T)
    ensures
        -1 <= index_of(s, v) < s.len(),
        index_of(s, v) >= 0 ==> s[index_of(s, v)] == v,
        forall|j: int|
            0 <= j < s.len() && (index_of(s, v) < 0 || j < index_of(s, v)) ==> s[j] != v,
    decreases s.len(),
{
    if s.len() > 0 && s[0] != v {
        lemma_index_of(s.drop_first(), v);
        assert forall|j: int|
            0 <= j < s.len() && (index_of(s, v) < 0 || j < index_of(s, v)) implies s[j] != v by {
            if j > 0 {
                assert(s[j] == s.drop_first()[j - 1]);
            }
        }
    }
}

pub open spec fn other_kind(k: PlayerKind) -> PlayerKind {
    match k {
        PlayerKind::X => PlayerKind::O,
        PlayerKind::O => PlayerKind::X,
    }
}

pub open spec fn kind_winner(k: PlayerKind) -> Winner {
    match k {
        PlayerKind::X => Winner::X,
        PlayerKind::O => Winner::O,
    }
}

/// The winner of a line of three tiles: all occupied by the same owner.
pub open spec fn line_winner(a: Tile, b: Tile, c: Tile) -> Option<Winner> {
    if a is Some && b is Some && c is Some && a.unwrap().0 == b.unwrap().0 && b.unwrap().0
        == c.unwrap().0 {
        Some(kind_winner(a.unwrap().0))
    } else {
        None
    }
}

pub open spec fn first_some(a: Option<Winner>, b: Option<Winner>) -> Option<Winner> {
    if a is Some {
        a
    } else {
        b
    }
}

pub open spec fn board_full(t: Seq<Tile>) -> bool {
    forall|i: int| 0 <= i < 9 ==> (#[trigger] t[i]) is Some
}

/// Some occupied square holds a piece strictly smaller than `p`.
pub open spec fn can_be_placed(t: Seq<Tile>, p: usize) -> bool {
    exists|i: int| 0 <= i < 9 && (#[trigger] t[i]) is Some && t[i].unwrap().1 < p
}

pub open spec fn can_place_some(t: Seq<Tile>, ps: Seq<usize>) -> bool {
    exists|k: int| 0 <= k < ps.len() && can_be_placed(t, #[trigger] ps[k])
}

/// Stall: no remaining piece of either player can cap any piece on the board.
pub open spec fn cappable(g: GameView) -> Option<Winner> {
    if can_place_some(g.tiles, g.x_pieces) || can_place_some(g.tiles, g.o_pieces) {
        None
    } else {
        Some(Winner::Tie)
    }
}

/// Result after a piece was placed at (row, col): an earlier result stays;
/// else a line through the square, in the order row, column, main diagonal,
/// anti-diagonal; else a tie when both players are out of pieces; else, on a
/// full board, a tie when nothing can be capped.
pub open spec fn next_winner(g: GameView, row: int, col: int) -> Option<Winner> {
    let t = g.tiles;
    let row_w = line_winner(t[3 * row], t[3 * row + 1], t[3 * row + 2]);
    let col_w = line_winner(t[col], t[3 + col], t[6 + col]);
    let diag_1 = if row == col {
        line_winner(t[0], t[4], t[8])
    } else {
        None
    };
    let diag_2 = if row + col == 2 {
        line_winner(t[2], t[4], t[6])
    } else {
        None
    };
    let lines = first_some(g.winner, first_some(row_w, first_some(col_w, first_some(diag_1, diag_2))));
    let exhausted = first_some(
        lines,
        if g.x_pieces.len() == 0 && g.o_pieces.len() == 0 {
            Some(Winner::Tie)
        } else {
            None
        },
    );
    first_some(
        exhausted,
        if board_full(t) {
            cappable(g)
        } else {
            None
        },
    )
}

pub open spec fn mover_pieces(g: GameView) -> Seq<usize> {
    if g.turn == PlayerKind::X {
        g.x_pieces
    } else {
        g.o_pieces
    }
}

/// Placing a piece of `size` at (row, col) for the player to move.
pub open spec fn apply_move(g: GameView, row: int, col: int, size: usize) -> Result<
    GameView,
    MoveError,
> {
    let t = g.tiles[3 * row + col];
    let ps = mover_pieces(g);
    let i = index_of(ps, size);
    if t is Some && t.unwrap().1 >= size {
        Err(MoveError::TileBlocked)
    } else if !(0 <= i < ps.len()) {
        Err(MoveError::PieceUnavailable)
    } else {
        let placed = GameView {
            tiles: g.tiles.update(3 * row + col, Some((g.turn, size))),
            winner: g.winner,
            x_kind: g.x_kind,
            x_pieces: if g.turn == PlayerKind::X {
                ps.remove(i)
            } else {
                g.x_pieces
            },
            o_kind: g.o_kind,
            o_pieces: if g.turn == PlayerKind::X {
                g.o_pieces
            } else {
                ps.remove(i)
            },
            turn: other_kind(g.turn),
        };
        Ok(
            GameView {
                tiles: placed.tiles,
                winner: next_winner(placed, row, col),
                x_kind: placed.x_kind,
                x_pieces: placed.x_pieces,
                o_kind: placed.o_kind,
                o_pieces: placed.o_pieces,
                turn: placed.turn,
            },
        )
    }
}

pub open spec fn result_view(r: Result<Game, MoveError>) -> Result<GameView, MoveError> {
    match r {
        Ok(g) => Ok(g@),
        Err(e) => Err(e),
    }
}

/// Number of pieces both players still hold.
pub open spec fn pieces_left(g: GameView) -> nat {
    g.x_pieces.len() + g.o_pieces.len()
}

pub open spec fn starting_pieces(n: nat) -> Seq<usize> {
    Seq::new(n, |i: int| i as usize)
}


/// Once a game has a result, any further move either is rejected or leaves
/// that result in place.
pub proof fn lemma_winner_stable(g: Game, row: int, col: int, size: usize)
    requires
        g@.winner is Some,
        0 <= row < 3,
        0 <= col < 3,
    ensures
        apply_move(g@, row, col, size) is Ok ==> apply_move(g@, row, col, size).unwrap().winner
            == g@.winner,
{
}

/// A move that decides an open game names as winner the player who made it,
/// or a tie; never the opponent.
pub proof fn lemma_only_mover_wins(g: Game, row: int, col: int, size: usize)
    requires
        g@.winner is None,
        0 <= row < 3,
        0 <= col < 3,
    ensures
        apply_move(g@, row, col, size) is Ok ==> (apply_move(g@, row, col, size).unwrap().winner
            is None || apply_move(g@, row, col, size).unwrap().winner == Some(
            kind_winner(g@.turn),
        ) || apply_move(g@, row, col, size).unwrap().winner == Some(Winner::Tie)),
{
}

fn pieces_up_to(n: usize) -> (r: Vec<usize>)
    ensures
        r@ == starting_pieces(n as nat),
{
    let mut r: Vec<usize> = Vec::new();
    let mut i: usize = 0;
    while i < n
        invariant
            i <= n,
            r@ == starting_pieces(i as nat),
        decreases n - i,
    {
        r.push(i);
        i = i + 1;
        assert(r@ =~= starting_pieces(i as nat));
    }
    r
}

impl Player {
    pub fn new(kind: PlayerKind, pieces: Vec<usize>) -> (r: Self)
        ensures
            r.kind == kind,
            r.pieces@ == pieces@,
    {
        Self { kind: kind, pieces: pieces }
    }

    /// Removes the first piece of `size`; tells whether there was one.
    fn remove_playable_piece(&mut self, size: usize) -> (r: bool)
        ensures
            r == (index_of(old(self).pieces@, size) >= 0),
            final(self).kind == old(self).kind,
            r ==> final(self).pieces@ == old(self).pieces@.remove(index_of(old(self).pieces@, size)),
            !r ==> final(self).pieces@ == old(self).pieces@,
    {
        proof {
            lemma_index_of(self.pieces@, size);
        }
        let mut i: usize = 0;
        while i < self.pieces.len()
            invariant
                i <= self.pieces.len(),
                *self == *old(self),
                forall|j: int| 0 <= j < i ==> self.pieces@[j] != size,
            decreases self.pieces.len() - i,
        {
            if self.pieces[i] == size {
                proof {
                    lemma_index_of(self.pieces@, size);
                    let k = index_of(self.pieces@, size);
                    assert(self.pieces@[i as int] == size);
                    if k >= 0 {
                        assert(self.pieces@[k] == size);
                    }
                    assert(k == i);
                }
                self.pieces.remove(i);
                return true;
            }
            i = i + 1;
        }
        false
    }
}

impl Clone for Player {
    fn clone(&self) -> (r: Self)
        ensures
            r.kind == self.kind,
            r.pieces@ == self.pieces@,
    {
        let pieces = self.pieces.clone();
        assert(pieces@ =~= self.pieces@);
        Player { kind: self.kind, pieces }
    }
}

impl Clone for Game {
    fn clone(&self) -> (r: Self)
        ensures
            r@ == self@,
    {
        Game {
            tiles: self.tiles,
            winner: self.winner,
            players: (self.players.0.clone(), self.players.1.clone()),
            current_player_kind: self.current_player_kind,
        }
    }
}

impl Tiles {
    pub fn data(&self) -> (r: [Tile; 9])
        ensures
            r@ == self.data@,
    {
        self.data
    }
}

/// The winner of three tiles in a line.
fn check_winner(a: Tile, b: Tile, c: Tile) -> (r: Option<Winner>)
    ensures
        r == line_winner(a, b, c),
{
    match (a, b, c) {
        (Some((ka, _)), Some((kb, _)), Some((kc, _))) => {
            if ka == kb && kb == kc {
                match ka {
                    PlayerKind::X => Some(Winner::X),
                    PlayerKind::O => Some(Winner::O),
                }
            } else {
                None
            }
        },
        _ => None,
    }
}

fn is_board_full(t: &[Tile; 9]) -> (r: bool)
    ensures
        r == board_full(t@),
{
    let mut i: usize = 0;
    while i < 9
        invariant
            i <= 9,
            forall|j: int| 0 <= j < i ==> (#[trigger] t@[j]) is Some,
        decreases 9 - i,
    {
        if t[i].is_none() {
            return false;
        }
        i = i + 1;
    }
    true
}

/// Largest size among the pieces, 0 for none.
pub open spec fn seq_max(s: Seq<usize>) -> int
    decreases s.len(),
{
    if s.len() == 0 {
        0
    } else {
        let m = seq_max(s.drop_last());
        if s.last() > m {
            s.last() as int
        } else {
            m
        }
    }
}

/// Largest size on the board, 0 for an empty board.
pub open spec fn placed_max(t: Seq<Tile>) -> int
    decreases t.len(),
{
    if t.len() == 0 {
        0
    } else {
        let m = placed_max(t.drop_last());
        if t.last() is Some && t.last().unwrap().1 > m {
            t.last().unwrap().1 as int
        } else {
            m
        }
    }
}

/// Largest size in the game, on the board or in either hand.
pub open spec fn biggest_piece(g: GameView) -> int {
    let a = placed_max(g.tiles);
    let b = if seq_max(g.x_pieces) > seq_max(g.o_pieces) {
        seq_max(g.x_pieces)
    } else {
        seq_max(g.o_pieces)
    };
    if a > b {
        a
    } else {
        b
    }
}

fn max_of(v: &Vec<usize>) -> (r: usize)
    ensures
        r == seq_max(v@),
{
    let mut m: usize = 0;
    let mut i: usize = 0;
    while i < v.len()
        invariant
            i <= v.len(),
            m == seq_max(v@.subrange(0, i as int)),
        decreases v.len() - i,
    {
        assert(v@.subrange(0, i as int + 1).drop_last() =~= v@.subrange(0, i as int));
        if v[i] > m {
            m = v[i];
        }
        i = i + 1;
    }
    assert(v@.subrange(0, v@.len() as int) =~= v@);
    m
}

/// A game before the first move, each player holding sizes `0..n`.
pub open spec fn new_game(n: nat) -> GameView {
    GameView {
        tiles: Seq::new(9, |i: int| None),
        winner: None,
        x_kind: PlayerKind::X,
        x_pieces: starting_pieces(n),
        o_kind: PlayerKind::O,
        o_pieces: starting_pieces(n),
        turn: PlayerKind::X,
    }
}

impl Game {
    /// A fresh game with the standard number of pieces.
    pub fn new() -> (r: Self)
        ensures
            r@ == new_game(NUMBER_OF_PIECES as nat),
    {
        Self::new_with_size(NUMBER_OF_PIECES)
    }

    /// A fresh game where each player holds the sizes `0..size`.
    pub fn new_with_size(size: usize) -> (r: Self)
        ensures
            r@ == new_game(size as nat),
    {
        let r = Self {
            tiles: Tiles { data: [None; 9] },
            winner: None,
            players: (
                Player::new(PlayerKind::X, pieces_up_to(size)),
                Player::new(PlayerKind::O, pieces_up_to(size)),
            ),
            current_player_kind: PlayerKind::X,
        };
        assert(r@.tiles =~= new_game(size as nat).tiles);
        r
    }

    /// Plays a piece of `size` at (row, col) for the player to move.
    pub fn make_move(self, row: usize, col: usize, size: usize) -> (r: Result<Game, MoveError>)
        requires
            row < 3,
            col < 3,
        ensures
            result_view(r) == apply_move(self@, row as int, col as int, size),
    {
        let idx: usize = 3 * row + col;
        if let Some((_, other_size)) = self.tiles.data[idx] {
            if other_size >= size {
                return Err(MoveError::TileBlocked);
            }
        }
        let mut game = self;
        let ghost before = game@;
        let removed = match game.current_player_kind {
            PlayerKind::X => game.players.0.remove_playable_piece(size),
            PlayerKind::O => game.players.1.remove_playable_piece(size),
        };
        proof {
            lemma_index_of(mover_pieces(before), size);
        }
        if !removed {
            return Err(MoveError::PieceUnavailable);
        }
        game.tiles.data[idx] = Some((game.current_player_kind, size));
        game.current_player_kind = match game.current_player_kind {
            PlayerKind::X => PlayerKind::O,
            PlayerKind::O => PlayerKind::X,
        };
        game.update_winner(row, col);
        Ok(game)
    }

    fn update_winner(&mut self, row: usize, col: usize)
        requires
            row < 3,
            col < 3,
            old(self)@.tiles.len() == 9,
        ensures
            final(self)@ == (GameView { winner: next_winner(old(self)@, row as int, col as int), ..old(self)@ }),
    {
        let t = self.tiles.data;
        let mut w = self.winner;
        if w.is_none() {
            w = check_winner(t[3 * row], t[3 * row + 1], t[3 * row + 2]);
        }
        if w.is_none() {
            w = check_winner(t[col], t[3 + col], t[6 + col]);
        }
        if w.is_none() && row == col {
            w = check_winner(t[0], t[4], t[8]);
        }
        if w.is_none() && row + col == 2 {
            w = check_winner(t[2], t[4], t[6]);
        }
        if w.is_none() && self.players.0.pieces.len() == 0 && self.players.1.pieces.len() == 0 {
            w = Some(Winner::Tie);
        }
        if w.is_none() && is_board_full(&t) {
            w = self.check_cappable();
        }
        self.winner = w;
    }

    fn check_cappable(&self) -> (r: Option<Winner>)
        ensures
            r == cappable(self@),
    {
        let mut i: usize = 0;
        while i < self.players.0.pieces.len()
            invariant
                i <= self.players.0.pieces.len(),
                forall|k: int| 0 <= k < i ==> !can_be_placed(self@.tiles, #[trigger] self@.x_pieces[k]),
            decreases self.players.0.pieces.len() - i,
        {
            if self.piece_can_be_placed(&self.players.0.pieces[i]) {
                return None;
            }
            i = i + 1;
        }
        let mut i: usize = 0;
        while i < self.players.1.pieces.len()
            invariant
                i <= self.players.1.pieces.len(),
                !can_place_some(self@.tiles, self@.x_pieces),
                forall|k: int| 0 <= k < i ==> !can_be_placed(self@.tiles, #[trigger] self@.o_pieces[k]),
            decreases self.players.1.pieces.len() - i,
        {
            if self.piece_can_be_placed(&self.players.1.pieces[i]) {
                return None;
            }
            i = i + 1;
        }
        Some(Winner::Tie)
    }

    /// Whether a piece of this size could cap some piece on the board,
    /// whoever owns either.
    pub fn piece_can_be_placed(&self, piece: &usize) -> (r: bool)
        ensures
            r == can_be_placed(self@.tiles, *piece),
    {
        let mut i: usize = 0;
        while i < 9
            invariant
                i <= 9,
                forall|j: int| 0 <= j < i ==> !((#[trigger] self@.tiles[j]) is Some && self@.tiles[j].unwrap().1 < *piece),
            decreases 9 - i,
        {
            if let Some((_, other_size)) = self.tiles.data[i] {
                if other_size < *piece {
                    return true;
                }
            }
            i = i + 1;
        }
        false
    }

    pub fn is_finished(&self) -> (r: bool)
        ensures
            r == (self@.winner is Some),
    {
        self.winner.is_some()
    }

    pub fn winner(&self) -> (r: Option<Winner>)
        ensures
            r == self@.winner,
    {
        self.winner
    }

    pub fn tiles(&self) -> (r: &Tiles)
        ensures
            r.data@ == self@.tiles,
    {
        &self.tiles
    }

    /// How many sizes the game was set up with: one more than the largest.
    pub fn get_number_of_pieces(&self) -> (r: usize)
        requires
            self@.x_pieces.len() > 0 || self@.o_pieces.len() > 0,
            biggest_piece(self@) < usize::MAX,
        ensures
            r == biggest_piece(self@) + 1,
    {
        1 + self.get_biggest_piece()
    }

    /// The largest size on the board or in either hand; some player must
    /// still hold a piece.
    pub fn get_biggest_piece(&self) -> (r: usize)
        requires
            self@.x_pieces.len() > 0 || self@.o_pieces.len() > 0,
        ensures
            r == biggest_piece(self@),
    {
        let mut biggest_placed_piece: usize = 0;
        let mut i: usize = 0;
        while i < 9
            invariant
                i <= 9,
                self@.tiles.len() == 9,
                biggest_placed_piece == placed_max(self@.tiles.subrange(0, i as int)),
            decreases 9 - i,
        {
            assert(self@.tiles.subrange(0, i as int + 1).drop_last() =~= self@.tiles.subrange(0, i as int));
            if let Some((_, size)) = self.tiles.data[i] {
                if size > biggest_placed_piece {
                    biggest_placed_piece = size;
                }
            }
            i = i + 1;
        }
        assert(self@.tiles.subrange(0, 9) =~= self@.tiles);
        let x = max_of(&self.players.0.pieces);
        let o = max_of(&self.players.1.pieces);
        let in_hand = if x > o {
            x
        } else {
            o
        };
        if biggest_placed_piece > in_hand {
            biggest_placed_piece
        } else {
            in_hand
        }
    }

    /// Number of the move about to be played, counting from 1.
    pub fn get_turn_count(&self) -> (r: usize)
        requires
            self@.x_pieces.len() > 0 || self@.o_pieces.len() > 0,
            2 * (biggest_piece(self@) + 1) < usize::MAX,
            pieces_left(self@) <= 2 * (biggest_piece(self@) + 1),
        ensures
            r == 2 * (biggest_piece(self@) + 1) - pieces_left(self@) + 1,
    {
        let max_turns = 2 * self.get_number_of_pieces();
        let remaining_turns = self.players.0.pieces.len() + self.players.1.pieces.len();
        (max_turns - remaining_turns) + 1
    }

    pub fn current_player_kind(&self) -> (r: PlayerKind)
        ensures
            r == self@.turn,
    {
        self.current_player_kind
    }
}

} // verus!
