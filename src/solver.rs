use crate::game::{
    apply_move, index_of, lemma_index_of, other_kind, pieces_left, Game, GameView, Move,
    PlayerKind, Winner,
};
use crate::symmetry::{
    coordinates_index, coordinates_to_index, fliptate_coordinates, fliptate_view,
    index_coordinates, index_to_coordinates, range_of, symmetry_index, tiles_equal, Symmetry,
};
use vstd::prelude::*;

verus! {

/// Score of a finished game; the scale favours O.
pub open spec fn terminal_score(w: Winner) -> int {
    match w {
        Winner::X => -10,
        Winner::O => 10,
        Winner::Tie => 0,
    }
}

/// The pieces in hand of the player of this kind (X holds the first hand).
pub open spec fn hand(g: GameView, k: PlayerKind) -> Seq<usize> {
    if k == PlayerKind::X {
        g.x_pieces
    } else {
        g.o_pieces
    }
}

/// The best (score, move) before any candidate was tried.
pub open spec fn initial_best(maxing: bool) -> (int, Move) {
    if maxing {
        (-128, (0usize, 0usize, 0usize))
    } else {
        (127, (0usize, 0usize, 0usize))
    }
}

/// Whether a candidate's score replaces the running best: at a maximising
/// node a later candidate wins a tie, at a minimising one the earlier.
pub open spec fn better(maxing: bool, v: int, best: int) -> bool {
    if maxing {
        v >= best
    } else {
        v < best
    }
}

/// The move recorded with a score: at a maximising node a candidate that
/// scores no better than the floor counts as no move.
pub open spec fn recorded_move(maxing: bool, v: int, m: Move) -> Move {
    if maxing && v <= -128 {
        (0usize, 0usize, 0usize)
    } else {
        m
    }
}

/// Minimax value (with the move reaching it) of a node: a finished game
/// scores its result; otherwise the candidates are folded in order. At a
/// maximising node the solver's kind moves with its own pieces, at a
/// minimising one the opponent with theirs.
pub open spec fn node_best(g: GameView, kind: PlayerKind, maxing: bool) -> (int, Move)
    decreases pieces_left(g), 3int, 0int,
{
    if g.winner is Some {
        (terminal_score(g.winner.unwrap()), (0usize, 0usize, 0usize))
    } else {
        scan_rows(g, kind, maxing, range_of(g.tiles, Symmetry::FlipH), 0, initial_best(maxing))
    }
}

/// The pieces tried at a node.
pub open spec fn node_hand(g: GameView, kind: PlayerKind, maxing: bool) -> Seq<usize> {
    if maxing {
        hand(g, kind)
    } else {
        hand(g, other_kind(kind))
    }
}

/// Folds the rows from position `a` of `rows` on into `best`.
pub open spec fn scan_rows(
    g: GameView,
    kind: PlayerKind,
    maxing: bool,
    rows: Seq<usize>,
    a: int,
    best: (int, Move),
) -> (int, Move)
    decreases pieces_left(g), 2int, rows.len() - a,
{
    if 0 <= a < rows.len() {
        scan_rows(
            g,
            kind,
            maxing,
            rows,
            a + 1,
            scan_cols(g, kind, maxing, rows[a], range_of(g.tiles, Symmetry::FlipV), 0, best),
        )
    } else {
        best
    }
}

/// Folds the columns of row `i`, from position `b` of `cols` on, into `best`.
pub open spec fn scan_cols(
    g: GameView,
    kind: PlayerKind,
    maxing: bool,
    i: usize,
    cols: Seq<usize>,
    b: int,
    best: (int, Move),
) -> (int, Move)
    decreases pieces_left(g), 1int, cols.len() - b,
{
    if 0 <= b < cols.len() {
        scan_cols(
            g,
            kind,
            maxing,
            i,
            cols,
            b + 1,
            scan_pieces(g, kind, maxing, i, cols[b], node_hand(g, kind, maxing), 0, best),
        )
    } else {
        best
    }
}

/// Folds the pieces, from position `c` of `ps` on, played at (i, j) into
/// `best`; a rejected move leaves it unchanged.
pub open spec fn scan_pieces(
    g: GameView,
    kind: PlayerKind,
    maxing: bool,
    i: usize,
    j: usize,
    ps: Seq<usize>,
    c: int,
    best: (int, Move),
) -> (int, Move)
    decreases pieces_left(g), 0int, ps.len() - c,
{
    if 0 <= c < ps.len() {
        let next = match apply_move(g, i as int, j as int, ps[c]) {
            Ok(child) => {
                let v = node_best(child, kind, !maxing).0;
                if better(maxing, v, best.0) {
                    (v, recorded_move(maxing, v, (i, j, ps[c])))
                } else {
                    best
                }
            },
            Err(_) => best,
        };
        scan_pieces(g, kind, maxing, i, j, ps, c + 1, next)
    } else {
        best
    }
}

/// The move a full search picks for the solver's kind: the last candidate
/// whose reply value is the highest.
pub open spec fn root_best(g: GameView, kind: PlayerKind) -> (int, Move) {
    scan_rows(g, kind, true, range_of(g.tiles, Symmetry::FlipH), 0, initial_best(true))
}


/// The games stored, in order.
pub open spec fn cache_keys(c: Seq<(GameView, Move)>) -> Seq<GameView> {
    c.map_values(|e: (GameView, Move)| e.0)
}

/// The move stored for exactly this game, if any.
pub open spec fn cache_find(c: Seq<(GameView, Move)>, g: GameView) -> Option<Move> {
    let i = index_of(cache_keys(c), g);
    if 0 <= i < c.len() {
        Some(c[i].1)
    } else {
        None
    }
}

/// Storing a move: an entry for the same game is replaced, else one is added.
pub open spec fn cache_insert(c: Seq<(GameView, Move)>, g: GameView, m: Move) -> Seq<
    (GameView, Move),
> {
    let i = index_of(cache_keys(c), g);
    if 0 <= i < c.len() {
        c.update(i, (g, m))
    } else {
        c.push((g, m))
    }
}

/// The order in which transformed copies of a game are looked up.
pub open spec fn symmetry_order() -> Seq<Symmetry> {
    seq![
        Symmetry::FlipH,
        Symmetry::FlipV,
        Symmetry::Rotate90,
        Symmetry::Rotate180,
        Symmetry::Rotate270,
        Symmetry::NoSymmetry,
    ]
}

/// A move stored for the transformed game, carried back to the game itself:
/// the square is mapped by the same transformation, the size kept.
pub open spec fn move_back(m: Move, s: Symmetry) -> Move {
    let c = index_coordinates(symmetry_index(s, coordinates_index((m.0, m.1))));
    (c.0, c.1, m.2)
}

/// The first transformed copy, from position `n` of the order on, that has a
/// stored move, with that move carried back.
pub open spec fn lookup_from(c: Seq<(GameView, Move)>, g: GameView, n: int) -> Option<Move>
    decreases 6 - n,
{
    if 0 <= n < 6 {
        match cache_find(c, fliptate_view(g, symmetry_order()[n])) {
            Some(m) => Some(move_back(m, symmetry_order()[n])),
            None => lookup_from(c, g, n + 1),
        }
    } else {
        None
    }
}

/// What a cache lookup answers: the move stored for the game, else the one
/// found through its transformed copies.
pub open spec fn lookup_result(c: Seq<(GameView, Move)>, g: GameView) -> Option<Move> {
    match cache_find(c, g) {
        Some(m) => Some(m),
        None => lookup_from(c, g, 0),
    }
}

/// The cache after a lookup: an answer found through a transformed copy is
/// stored for the game itself when the cache may be written.
pub open spec fn cache_after_lookup(c: Seq<(GameView, Move)>, writable: bool, g: GameView) -> Seq<
    (GameView, Move),
> {
    if writable && cache_find(c, g) is None && lookup_from(c, g, 0) is Some {
        cache_insert(c, g, lookup_from(c, g, 0).unwrap())
    } else {
        c
    }
}

/// The move that the solver answers: from the cache, else by full search.
pub open spec fn find_result(c: Seq<(GameView, Move)>, kind: PlayerKind, g: GameView) -> Move {
    match lookup_result(c, g) {
        Some(m) => m,
        None => root_best(g, kind).1,
    }
}

/// The cache after the solver answered: the answer is stored for the game
/// unless it was stored already or the cache is read-only.
pub open spec fn cache_after_find(
    c: Seq<(GameView, Move)>,
    writable: bool,
    kind: PlayerKind,
    g: GameView,
) -> Seq<(GameView, Move)> {
    if writable && cache_find(c, g) is None {
        cache_insert(c, g, find_result(c, kind, g))
    } else {
        c
    }
}

proof fn lemma_find_after_insert(c: Seq<(GameView, Move)>, g: GameView, m: Move)
    ensures
        cache_find(cache_insert(c, g, m), g) == Some(m),
{
    let keys = cache_keys(c);
    let c2 = cache_insert(c, g, m);
    let keys2 = cache_keys(c2);
    lemma_index_of(keys, g);
    lemma_index_of(keys2, g);
    let i = index_of(keys, g);
    if 0 <= i < c.len() {
        assert(keys2 =~= keys.update(i, g));
        assert(keys2[i] == g);
        let k = index_of(keys2, g);
        if k >= 0 && k < i {
            assert(keys2[k] == keys[k]);
        }
        assert(k == i);
    } else {
        assert(keys2 =~= keys.push(g));
        assert(keys2[c.len() as int] == g);
        let k = index_of(keys2, g);
        if k >= 0 && k < c.len() {
            assert(keys2[k] == keys[k]);
        }
        assert(k == c.len());
    }
}

/// Asking twice for the same game gives the same move: the second answer
/// comes from what the first one stored, or from the same search.
pub proof fn lemma_find_move_stable(
    c: Seq<(GameView, Move)>,
    writable: bool,
    kind: PlayerKind,
    g: GameView,
)
    ensures
        find_result(cache_after_find(c, writable, kind, g), kind, g) == find_result(c, kind, g),
{
    if writable && cache_find(c, g) is None {
        lemma_find_after_insert(c, g, find_result(c, kind, g));
    }
}

proof fn lemma_lookup_from(c: Seq<(GameView, Move)>, g: GameView, k: int, n: int, m: Move)
    requires
        0 <= k <= n < 6,
        forall|j: int| 0 <= j < n ==> cache_find(c, fliptate_view(g, #[trigger] symmetry_order()[j])) is None,
        cache_find(c, fliptate_view(g, symmetry_order()[n])) == Some(m),
    ensures
        lookup_from(c, g, k) == Some(move_back(m, symmetry_order()[n])),
    decreases n - k,
{
    if k < n {
        assert(cache_find(c, fliptate_view(g, symmetry_order()[k])) is None);
        lemma_lookup_from(c, g, k + 1, n, m);
    }
}

/// A game that is not stored, whose transformed copy is the first in the
/// order to be stored, is answered with the stored move carried back; and
/// the square of that answer holds what the stored move's square holds in the
/// transformed copy.
pub proof fn lemma_symmetric_lookup(c: Seq<(GameView, Move)>, g: GameView, n: int, m: Move)
    requires
        0 <= n < 6,
        g.tiles.len() == 9,
        cache_find(c, g) is None,
        forall|k: int| 0 <= k < n ==> cache_find(c, fliptate_view(g, #[trigger] symmetry_order()[k])) is None,
        cache_find(c, fliptate_view(g, symmetry_order()[n])) == Some(m),
    ensures
        lookup_result(c, g) == Some(move_back(m, symmetry_order()[n])),
        m.0 < 3 && m.1 < 3 ==> g.tiles[coordinates_index(
            (move_back(m, symmetry_order()[n]).0, move_back(m, symmetry_order()[n]).1),
        )] == fliptate_view(g, symmetry_order()[n]).tiles[coordinates_index((m.0, m.1))],
{
    lemma_lookup_from(c, g, 0, n, m);
    let s = symmetry_order()[n];
    if m.0 < 3 && m.1 < 3 {
        let x = symmetry_index(s, coordinates_index((m.0, m.1)));
        assert(0 <= x < 9);
        assert(coordinates_index(index_coordinates(x)) == x);
    }
}

/// A game's cached best moves, in order of insertion, one entry per state.
pub struct MoveCache {
    entries: Vec<(Game, Move)>,
}

impl View for MoveCache {
    type V = Seq<(GameView, Move)>;

    closed spec fn view(&self) -> Seq<(GameView, Move)> {
        Seq::new(self.entries@.len(), |i: int| (self.entries@[i].0@, self.entries@[i].1))
    }
}

/// Plays one side with a full minimax search, remembering its answers.
pub struct Solver {
    lookup_is_writable: bool,
    lookup: MoveCache,
    pub kind: PlayerKind,
}

fn score(w: Winner) -> (r: i8)
    ensures
        r as int == terminal_score(w),
{
    match w {
        Winner::X => -10,
        Winner::O => 10,
        Winner::Tie => 0,
    }
}

impl Solver {
    /// Value and move of a node of the search tree. The candidates of a
    /// node are independent of one another and share no state; every one is
    /// searched in full, so the result does not depend on any bound carried
    /// between siblings.
    fn search(&self, game: &Game, maxing: bool) -> (r: (i8, Move))
        ensures
            (r.0 as int, r.1) == node_best(game@, self.kind, maxing),
        decreases pieces_left(game@), 1int,
    {
        match game.winner() {
            Some(w) => {
                return (score(w), (0, 0, 0));
            },
            None => {},
        }
        let init: (i8, Move) = if maxing {
            (i8::MIN, (0, 0, 0))
        } else {
            (i8::MAX, (0, 0, 0))
        };
        self.scan(game, maxing, init)
    }

    /// Folds every candidate move of the node into the running best, in the
    /// order rows, columns, pieces.
    fn scan(&self, game: &Game, maxing: bool, init: (i8, Move)) -> (r: (i8, Move))
        ensures
            (r.0 as int, r.1) == scan_rows(
                game@,
                self.kind,
                maxing,
                range_of(game@.tiles, Symmetry::FlipH),
                0,
                (init.0 as int, init.1),
            ),
        decreases pieces_left(game@), 0int,
    {
        let ghost g = game@;
        let ghost kind = self.kind;
        let rows = game.symmetry_range(Symmetry::FlipH);
        let cols = game.symmetry_range(Symmetry::FlipV);
        let mover = if maxing {
            self.kind
        } else {
            match self.kind {
                PlayerKind::X => PlayerKind::O,
                PlayerKind::O => PlayerKind::X,
            }
        };
        let ps: &Vec<usize> = match mover {
            PlayerKind::X => &game.players.0.pieces,
            PlayerKind::O => &game.players.1.pieces,
        };
        assert(ps@ == node_hand(g, kind, maxing));
        let mut best = init;
        let mut a: usize = 0;
        while a < rows.len()
            invariant
                a <= rows.len(),
                rows@ == range_of(g.tiles, Symmetry::FlipH),
                cols@ == range_of(g.tiles, Symmetry::FlipV),
                ps@ == node_hand(g, kind, maxing),
                g == game@,
                kind == self.kind,
                scan_rows(g, kind, maxing, rows@, 0, (init.0 as int, init.1)) == scan_rows(
                    g,
                    kind,
                    maxing,
                    rows@,
                    a as int,
                    (best.0 as int, best.1),
                ),
            decreases rows.len() - a,
        {
            let i = rows[a];
            assert(i < 3);
            let ghost row_start = (best.0 as int, best.1);
            let mut b: usize = 0;
            while b < cols.len()
                invariant
                    b <= cols.len(),
                    i < 3,
                    cols@ == range_of(g.tiles, Symmetry::FlipV),
                    ps@ == node_hand(g, kind, maxing),
                    g == game@,
                    kind == self.kind,
                    scan_cols(g, kind, maxing, i, cols@, 0, row_start) == scan_cols(
                        g,
                        kind,
                        maxing,
                        i,
                        cols@,
                        b as int,
                        (best.0 as int, best.1),
                    ),
                decreases cols.len() - b,
            {
                let j = cols[b];
                assert(j < 3);
                let ghost col_start = (best.0 as int, best.1);
                let mut c: usize = 0;
                while c < ps.len()
                    invariant
                        c <= ps.len(),
                        i < 3,
                        j < 3,
                        ps@ == node_hand(g, kind, maxing),
                        g == game@,
                        kind == self.kind,
                        scan_pieces(g, kind, maxing, i, j, ps@, 0, col_start) == scan_pieces(
                            g,
                            kind,
                            maxing,
                            i,
                            j,
                            ps@,
                            c as int,
                            (best.0 as int, best.1),
                        ),
                    decreases ps.len() - c,
                {
                    let p = ps[c];
                    match game.clone().make_move(i, j, p) {
                        Ok(child) => {
                            let v = self.search(&child, !maxing);
                            if maxing && v.0 >= best.0 {
                                best = if v.0 == i8::MIN {
                                    (v.0, (0, 0, 0))
                                } else {
                                    (v.0, (i, j, p))
                                };
                            } else if !maxing && v.0 < best.0 {
                                best = (v.0, (i, j, p));
                            }
                        },
                        Err(_) => {},
                    }
                    c = c + 1;
                }
                b = b + 1;
            }
            a = a + 1;
        }
        best
    }
}

fn same_pieces(a: &Vec<usize>, b: &Vec<usize>) -> (r: bool)
    ensures
        r == (a@ == b@),
{
    if a.len() != b.len() {
        return false;
    }
    let mut i: usize = 0;
    while i < a.len()
        invariant
            i <= a.len(),
            a.len() == b.len(),
            forall|j: int| 0 <= j < i ==> a@[j] == b@[j],
        decreases a.len() - i,
    {
        if a[i] != b[i] {
            return false;
        }
        i = i + 1;
    }
    assert(a@ =~= b@);
    true
}

fn same_winner(a: Option<Winner>, b: Option<Winner>) -> (r: bool)
    ensures
        r == (a == b),
{
    match (a, b) {
        (None, None) => true,
        (Some(x), Some(y)) => x == y,
        _ => false,
    }
}

/// Whether two games are the same state: board, result, hands and turn.
fn same_game(a: &Game, b: &Game) -> (r: bool)
    ensures
        r == (a@ == b@),
{
    tiles_equal(&a.tiles.data, &b.tiles.data) && same_winner(a.winner, b.winner)
        && a.players.0.kind == b.players.0.kind && same_pieces(
        &a.players.0.pieces,
        &b.players.0.pieces,
    ) && a.players.1.kind == b.players.1.kind && same_pieces(
        &a.players.1.pieces,
        &b.players.1.pieces,
    ) && a.current_player_kind == b.current_player_kind
}

impl MoveCache {
    /// An empty cache.
    pub fn new() -> (r: Self)
        ensures
            r@ == Seq::<(GameView, Move)>::empty(),
    {
        let r = MoveCache { entries: Vec::new() };
        assert(r@ =~= Seq::<(GameView, Move)>::empty());
        r
    }

    /// Number of stored games.
    pub fn len(&self) -> (r: usize)
        ensures
            r == self@.len(),
    {
        self.entries.len()
    }

    /// The stored game and move at a position.
    pub fn entry(&self, i: usize) -> (r: &(Game, Move))
        requires
            i < self@.len(),
        ensures
            r.0@ == self@[i as int].0,
            r.1 == self@[i as int].1,
    {
        &self.entries[i]
    }

    fn position(&self, game: &Game) -> (r: Option<usize>)
        ensures
            r is Some <==> 0 <= index_of(cache_keys(self@), game@),
            r is Some ==> r.unwrap() as int == index_of(cache_keys(self@), game@),
            r is Some ==> r.unwrap() < self@.len(),
    {
        let ghost keys = cache_keys(self@);
        proof {
            lemma_index_of(keys, game@);
        }
        let mut i: usize = 0;
        while i < self.entries.len()
            invariant
                i <= self.entries.len(),
                keys == cache_keys(self@),
                keys.len() == self@.len(),
                self@.len() == self.entries@.len(),
                -1 <= index_of(keys, game@) < keys.len(),
                index_of(keys, game@) >= 0 ==> keys[index_of(keys, game@)] == game@,
                forall|j: int|
                    0 <= j < keys.len() && (index_of(keys, game@) < 0 || j < index_of(keys, game@))
                        ==> keys[j] != game@,
                forall|j: int| 0 <= j < i ==> keys[j] != game@,
            decreases self.entries.len() - i,
        {
            assert(keys[i as int] == self.entries@[i as int].0@);
            if same_game(&self.entries[i].0, game) {
                proof {
                    let k = index_of(keys, game@);
                    if k >= 0 {
                        assert(keys[k] == game@);
                    }
                }
                return Some(i);
            }
            i = i + 1;
        }
        None
    }

    /// The move stored for exactly this game.
    pub fn get(&self, game: &Game) -> (r: Option<Move>)
        ensures
            r == cache_find(self@, game@),
    {
        match self.position(game) {
            Some(i) => Some(self.entries[i].1),
            None => None,
        }
    }

    /// Stores a move for a game, replacing an earlier one for the same game.
    pub fn insert(&mut self, game: Game, m: Move)
        ensures
            final(self)@ == cache_insert(old(self)@, game@, m),
    {
        match self.position(&game) {
            Some(i) => {
                self.entries.set(i, (game, m));
            },
            None => {
                self.entries.push((game, m));
            },
        }
        assert(self@ =~= cache_insert(old(self)@, game@, m));
    }
}

impl Solver {
    /// A solver for O whose cache is empty and is not written.
    pub fn new() -> (r: Self)
        ensures
            r.player() == PlayerKind::O,
            !r.writable(),
            r.cache() == Seq::<(GameView, Move)>::empty(),
    {
        Solver { lookup_is_writable: false, lookup: MoveCache::new(), kind: PlayerKind::O }
    }

    /// A solver for O that consults the given cache and never adds to it.
    pub fn new_read_only_lookup(lookup: MoveCache) -> (r: Self)
        ensures
            r.player() == PlayerKind::O,
            !r.writable(),
            r.cache() == lookup@,
    {
        Solver { lookup_is_writable: false, lookup, kind: PlayerKind::O }
    }

    /// A solver for O that starts from the given cache and adds to it.
    pub fn new_overwrite_lookup(lookup: MoveCache) -> (r: Self)
        ensures
            r.player() == PlayerKind::O,
            r.writable(),
            r.cache() == lookup@,
    {
        Solver { lookup_is_writable: true, lookup, kind: PlayerKind::O }
    }

    /// A solver for O with a cache of its own, which it adds to.
    pub fn new_distinct_lookup(lookup: MoveCache) -> (r: Self)
        ensures
            r.player() == PlayerKind::O,
            r.writable(),
            r.cache() == lookup@,
    {
        Solver { lookup_is_writable: true, lookup, kind: PlayerKind::O }
    }

    pub closed spec fn player(&self) -> PlayerKind {
        self.kind
    }

    pub closed spec fn writable(&self) -> bool {
        self.lookup_is_writable
    }

    pub closed spec fn cache(&self) -> Seq<(GameView, Move)> {
        self.lookup@
    }

    /// The cache, as it stands.
    pub fn lookup(&self) -> (r: &MoveCache)
        ensures
            r@ == self.cache(),
    {
        &self.lookup
    }

    /// Whether the solver adds its answers to the cache.
    pub fn lookup_is_writable(&self) -> (r: bool)
        ensures
            r == self.writable(),
    {
        self.lookup_is_writable
    }

    /// The best move for the solver's kind in this game.
    pub fn find_move(&mut self, game: &Game) -> (r: Move)
        ensures
            r == find_result(old(self).cache(), old(self).player(), game@),
            final(self).cache() == cache_after_find(
                old(self).cache(),
                old(self).writable(),
                old(self).player(),
                game@,
            ),
            final(self).player() == old(self).player(),
            final(self).writable() == old(self).writable(),
    {
        let ghost c = self.cache();
        match self.check_lookup(game) {
            Some(m) => {
                assert(self.cache() == cache_after_find(c, self.writable(), self.player(), game@));
                m
            },
            None => {
                let (_, m) = self.scan(game, true, (i8::MIN, (0, 0, 0)));
                self.add_to_lookup(game, m);
                m
            },
        }
    }

    /// The stored move for the game, or for the first transformed copy of it
    /// that is stored, carried back to the game.
    pub fn check_lookup(&mut self, game: &Game) -> (r: Option<Move>)
        ensures
            r == lookup_result(old(self).cache(), game@),
            final(self).cache() == cache_after_lookup(old(self).cache(), old(self).writable(), game@),
            final(self).player() == old(self).player(),
            final(self).writable() == old(self).writable(),
    {
        match self.lookup.get(game) {
            Some(m) => {
                return Some(m);
            },
            None => {},
        }
        let order = [
            Symmetry::FlipH,
            Symmetry::FlipV,
            Symmetry::Rotate90,
            Symmetry::Rotate180,
            Symmetry::Rotate270,
            Symmetry::NoSymmetry,
        ];
        assert(order@ =~= symmetry_order());
        let mut n: usize = 0;
        while n < 6
            invariant
                n <= 6,
                order@ == symmetry_order(),
                *self == *old(self),
                cache_find(self.cache(), game@) is None,
                lookup_from(self.cache(), game@, 0) == lookup_from(self.cache(), game@, n as int),
            decreases 6 - n,
        {
            let symmetry = order[n];
            let symmetry_game = game.fliptate(&symmetry);
            match self.lookup.get(&symmetry_game) {
                Some((i, j, k)) => {
                    let (x, y) = index_to_coordinates(
                        fliptate_coordinates(coordinates_to_index((i, j)), &symmetry),
                    );
                    self.add_to_lookup(game, (x, y, k));
                    return Some((x, y, k));
                },
                None => {},
            }
            n = n + 1;
        }
        None
    }

    fn add_to_lookup(&mut self, game: &Game, ideal_move: Move)
        ensures
            final(self).cache() == if old(self).writable() {
                cache_insert(old(self).cache(), game@, ideal_move)
            } else {
                old(self).cache()
            },
            final(self).player() == old(self).player(),
            final(self).writable() == old(self).writable(),
    {
        if self.lookup_is_writable {
            self.lookup.insert(game.clone(), ideal_move);
        }
    }
}

} // verus!
