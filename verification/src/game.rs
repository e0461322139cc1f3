use vstd::prelude::*;
use vstd::string::StringExecFns;

verus! {

broadcast use vstd::seq_lib::lemma_seq_contains_after_push;

/// A player's symbol. `First` is the mark that moves first in a round;
/// it is rendered as `O`, and `Second` as `X`.
#[derive(Clone, Copy, Debug, PartialEq, Eq, Structural)]
pub enum Sign {
    First,
    Second,
}

/// The mark opposing `s`.
pub open spec fn other_sign(s: Sign) -> Sign {
    match s {
        Sign::First => Sign::Second,
        Sign::Second => Sign::First,
    }
}

/// True when every cell of the board holds a mark.
pub open spec fn board_full(b: Seq<Option<Sign>>) -> bool {
    forall|i: int| 0 <= i < 9 ==> b[i] is Some
}

/// The content of the cell at external position `id` (1 through 9,
/// row-major), or `None` for a position outside the board.
pub open spec fn cell_at(b: Seq<Option<Sign>>, id: int) -> Option<Sign> {
    if 1 <= id <= 9 {
        b[id - 1]
    } else {
        None
    }
}

/// The winner shown by the single line through cells `i`, `j`, `k`: the
/// mark held by all three, or `None` when the line is not uniform and
/// occupied.
pub open spec fn line_winner(b: Seq<Option<Sign>>, i: int, j: int, k: int) -> Option<Sign> {
    if b[i] is Some && b[j] == b[i] && b[k] == b[i] {
        b[i]
    } else {
        None
    }
}

/// The first of two detector results, giving `a` priority.
pub open spec fn first_winner(a: Option<Sign>, b: Option<Sign>) -> Option<Sign> {
    if a is Some {
        a
    } else {
        b
    }
}

/// The winner shown by the three rows, top row first.
pub open spec fn horizontal_winner(b: Seq<Option<Sign>>) -> Option<Sign> {
    first_winner(
        line_winner(b, 0, 1, 2),
        first_winner(line_winner(b, 3, 4, 5), line_winner(b, 6, 7, 8)),
    )
}

/// The winner shown by the three columns, left column first.
pub open spec fn vertical_winner(b: Seq<Option<Sign>>) -> Option<Sign> {
    first_winner(
        line_winner(b, 0, 3, 6),
        first_winner(line_winner(b, 1, 4, 7), line_winner(b, 2, 5, 8)),
    )
}

/// The winner shown by the two diagonals, top-left to bottom-right first.
pub open spec fn diagonal_winner(b: Seq<Option<Sign>>) -> Option<Sign> {
    first_winner(line_winner(b, 0, 4, 8), line_winner(b, 2, 4, 6))
}

/// The winner of the whole board, detectors ordered horizontal, vertical,
/// diagonal.
pub open spec fn winner_of(b: Seq<Option<Sign>>) -> Option<Sign> {
    first_winner(horizontal_winner(b), first_winner(vertical_winner(b), diagonal_winner(b)))
}

/// True when the line through cells `i`, `j`, `k` is fully occupied by `s`.
pub open spec fn line_wins(b: Seq<Option<Sign>>, i: int, j: int, k: int, s: Sign) -> bool {
    b[i] == Some(s) && b[j] == Some(s) && b[k] == Some(s)
}

/// True when `s` occupies one of the eight lines of the board: a row, a
/// column, or a diagonal.
pub open spec fn wins(b: Seq<Option<Sign>>, s: Sign) -> bool {
    ||| line_wins(b, 0, 1, 2, s)
    ||| line_wins(b, 3, 4, 5, s)
    ||| line_wins(b, 6, 7, 8, s)
    ||| line_wins(b, 0, 3, 6, s)
    ||| line_wins(b, 1, 4, 7, s)
    ||| line_wins(b, 2, 5, 8, s)
    ||| line_wins(b, 0, 4, 8, s)
    ||| line_wins(b, 2, 4, 6, s)
}

/// The mark that makes the placement after `n` completed placements, with
/// `First` moving first: each placement hands the turn to the other mark.
pub open spec fn mark_to_move(n: nat) -> Sign
    decreases n,
{
    if n == 0 {
        Sign::First
    } else {
        other_sign(mark_to_move((n - 1) as nat))
    }
}

/// Turn alternation law: starting from `First`, after `n` completed
/// placements the mark to move is `First` when `n` is even and `Second`
/// when `n` is odd.
pub proof fn lemma_turn_alternation(n: nat)
    ensures
        mark_to_move(n) == if n % 2 == 0 {
            Sign::First
        } else {
            Sign::Second
        },
    decreases n,
{
    if n > 0 {
        lemma_turn_alternation((n - 1) as nat);
    }
}

/// Win detection law: the detector chain reports a mark exactly when one
/// of the eight lines of the board (three rows, three columns, two
/// diagonals) is fully occupied by a single mark, and any mark it reports
/// occupies such a line.
pub proof fn lemma_win_iff_line(b: Seq<Option<Sign>>)
    requires
        b.len() == 9,
    ensures
        (winner_of(b) is Some) <==> (exists|s: Sign| wins(b, s)),
        forall|s: Sign| winner_of(b) == Some(s) ==> wins(b, s),
{
    let w = winner_of(b);
    if w is Some {
        assert(w == Some(Sign::First) || w == Some(Sign::Second));
        if w == Some(Sign::First) {
            assert(wins(b, Sign::First));
        } else {
            assert(wins(b, Sign::Second));
        }
    }
    if exists|s: Sign| wins(b, s) {
        let s = choose|s: Sign| wins(b, s);
        assert(winner_of(b) is Some);
    }
}

/// The one-character text of a cell: the mark's symbol, or a space for an
/// empty cell.
pub open spec fn sign_text(s: Option<Sign>) -> Seq<char> {
    match s {
        Some(Sign::First) => "O"@,
        Some(Sign::Second) => "X"@,
        None => " "@,
    }
}

/// The text of board row `r` (0 through 2): its three cells in reading
/// order, separated by `|`.
pub open spec fn row_text(b: Seq<Option<Sign>>, r: int) -> Seq<char> {
    " "@ + sign_text(b[3 * r]) + " | "@ + sign_text(b[3 * r + 1]) + " | "@ + sign_text(
        b[3 * r + 2],
    ) + " \n"@
}

/// The full rendering of a board: a title, then the three rows in reading
/// order, each framed by spacer lines and separated by divider lines.
pub open spec fn board_text(b: Seq<Option<Sign>>) -> Seq<char> {
    "------ TIC-TAC-TOE ------\n"@ + "   |   |   \n"@ + row_text(b, 0) + "___|___|___\n"@
        + "   |   |   \n"@ + row_text(b, 1) + "___|___|___\n"@ + "   |   |   \n"@ + row_text(b, 2)
        + "   |   |   \n"@
}

/// The engine state: the 3x3 board stored row-major (cell `r`,`c` at index
/// `3*r + c`), which mark the human and the computer play, whose turn it
/// is, and the recorded winner of a finished round.
pub struct Game {
    pub player: Sign,
    pub ai: Sign,
    pub moves: Sign,
    pub winner: Option<Sign>,
    pub state: [Option<Sign>; 9],
}

impl Game {
    /// Creates a fresh game: the human plays `player_sign` (defaulting to
    /// `First`), the computer the other mark, the board is empty, and the
    /// turn is set so that the first `next_move` hands the move to `First`.
    pub fn new(player_sign: Option<Sign>) -> (g: Game)
        ensures
            g.player == (match player_sign {
                Some(s) => s,
                None => Sign::First,
            }),
            g.ai == other_sign(g.player),
            g.moves == Sign::Second,
            g.winner is None,
            forall|i: int| 0 <= i < 9 ==> g.state@[i] is None,
    {
        let player = match player_sign {
            Some(s) => s,
            None => Sign::First,
        };
        let ai = match player {
            Sign::First => Sign::Second,
            Sign::Second => Sign::First,
        };
        Game {
            player,
            ai,
            winner: None,
            moves: Sign::Second,
            state: [None; 9],
        }
    }

    /// Reads the cell at external position `id`; positions outside 1..=9
    /// read as empty.
    pub fn get_cell(&self, id: usize) -> (r: Option<Sign>)
        ensures
            r == cell_at(self.state@, id as int),
    {
        if id < 1 || id > 9 {
            return None;
        }
        self.state[id - 1]
    }

    /// Places `value` at external position `id`. The sole mutation entry
    /// point for marks: it rejects a position outside 1..=9 and an occupied
    /// cell, and on rejection leaves the game untouched.
    pub fn set_cell(&mut self, id: usize, value: Sign) -> (r: Option<()>)
        ensures
            r is Some <==> 1 <= id <= 9 && old(self).state@[id as int - 1] is None,
            r is Some ==> final(self).state@ == old(self).state@.update(
                id as int - 1,
                Some(value),
            ),
            r is Some ==> final(self).player == old(self).player && final(self).ai == old(
                self,
            ).ai && final(self).moves == old(self).moves && final(self).winner == old(
                self,
            ).winner,
            r is None ==> *final(self) == *old(self),
    {
        if id < 1 || id > 9 {
            return None;
        }
        if self.state[id - 1].is_some() {
            return None;
        }
        self.state[id - 1] = Some(value);
        Some(())
    }

    /// Places the human's mark at `cell`, with `set_cell`'s acceptance rule.
    pub fn player_move(&mut self, cell: usize) -> (r: Option<()>)
        ensures
            r is Some <==> 1 <= cell <= 9 && old(self).state@[cell as int - 1] is None,
            r is Some ==> final(self).state@ == old(self).state@.update(
                cell as int - 1,
                Some(old(self).player),
            ),
            r is Some ==> final(self).player == old(self).player && final(self).ai == old(
                self,
            ).ai && final(self).moves == old(self).moves && final(self).winner == old(
                self,
            ).winner,
            r is None ==> *final(self) == *old(self),
    {
        let value = self.player;
        self.set_cell(cell, value)
    }

    /// Hands the turn to the other mark; nothing else changes.
    pub fn next_move(&mut self)
        ensures
            final(self).moves == other_sign(old(self).moves),
            final(self).player == old(self).player,
            final(self).ai == old(self).ai,
            final(self).winner == old(self).winner,
            final(self).state == old(self).state,
    {
        self.moves = match self.moves {
            Sign::First => Sign::Second,
            Sign::Second => Sign::First,
        };
    }

    /// True when the move now belongs to the human player.
    pub fn is_player_turn(&self) -> (r: bool)
        ensures
            r == (self.moves == self.player),
    {
        self.moves == self.player
    }

    /// The winner shown by the line through cells `i`, `j`, `k`.
    fn line_check(&self, i: usize, j: usize, k: usize) -> (r: Option<Sign>)
        requires
            i < 9,
            j < 9,
            k < 9,
        ensures
            r == line_winner(self.state@, i as int, j as int, k as int),
    {
        match (self.state[i], self.state[j], self.state[k]) {
            (Some(a), Some(b), Some(c)) => if a == b && a == c {
                Some(a)
            } else {
                None
            },
            _ => None,
        }
    }

    /// Looks for a row fully occupied by one mark, top row first.
    pub fn check_horizontal(&self) -> (r: Option<Sign>)
        ensures
            r == horizontal_winner(self.state@),
    {
        if let Some(s) = self.line_check(0, 1, 2) {
            return Some(s);
        }
        if let Some(s) = self.line_check(3, 4, 5) {
            return Some(s);
        }
        self.line_check(6, 7, 8)
    }

    /// Looks for a column fully occupied by one mark, left column first.
    pub fn check_vertical(&self) -> (r: Option<Sign>)
        ensures
            r == vertical_winner(self.state@),
    {
        if let Some(s) = self.line_check(0, 3, 6) {
            return Some(s);
        }
        if let Some(s) = self.line_check(1, 4, 7) {
            return Some(s);
        }
        self.line_check(2, 5, 8)
    }

    /// Looks for a diagonal fully occupied by one mark, top-left to
    /// bottom-right first.
    pub fn check_diagonal(&self) -> (r: Option<Sign>)
        ensures
            r == diagonal_winner(self.state@),
    {
        if let Some(s) = self.line_check(0, 4, 8) {
            return Some(s);
        }
        self.line_check(2, 4, 6)
    }

    /// Evaluates the three detectors in priority order: horizontal, then
    /// vertical, then diagonal.
    pub fn check_win(&self) -> (r: Option<Sign>)
        ensures
            r == winner_of(self.state@),
    {
        if let Some(s) = self.check_horizontal() {
            return Some(s);
        }
        if let Some(s) = self.check_vertical() {
            return Some(s);
        }
        self.check_diagonal()
    }

    /// True exactly when every cell is occupied, whatever the win state.
    pub fn check_draw(&self) -> (r: bool)
        ensures
            r == board_full(self.state@),
    {
        let mut i: usize = 0;
        while i < 9
            invariant
                i <= 9,
                forall|j: int| 0 <= j < i ==> self.state@[j] is Some,
            decreases 9 - i,
        {
            if self.state[i].is_none() {
                return false;
            }
            i = i + 1;
        }
        true
    }

    /// Records the winner of the round just decided; only a mark that
    /// `check_win` reports may be recorded, so that a winner is present
    /// exactly when the round is over.
    pub fn record_winner(&mut self, s: Sign)
        requires
            winner_of(old(self).state@) == Some(s),
        ensures
            final(self).winner == Some(s),
            final(self).player == old(self).player,
            final(self).ai == old(self).ai,
            final(self).moves == old(self).moves,
            final(self).state == old(self).state,
    {
        self.winner = Some(s);
    }

    /// Starts the next round: clears the winner, swaps which side the human
    /// and the computer play, and empties the board. The turn is untouched.
    pub fn reset(&mut self)
        ensures
            final(self).player == old(self).ai,
            final(self).ai == old(self).player,
            final(self).winner is None,
            final(self).moves == old(self).moves,
            forall|i: int| 0 <= i < 9 ==> final(self).state@[i] is None,
    {
        let ai = self.player;
        self.winner = None;
        self.player = self.ai;
        self.ai = ai;
        self.state = [None; 9];
    }

    /// Places the computer's mark on a free cell chosen uniformly at random
    /// among the free cells. Exactly one previously empty cell gains the
    /// computer's mark; everything else is untouched.
    pub fn ai_move(&mut self)
        requires
            !board_full(old(self).state@),
        ensures
            exists|p: int|
                0 <= p < 9 && #[trigger] old(self).state@[p] is None && final(self).state@ == old(
                    self,
                ).state@.update(p, Some(old(self).ai)),
            final(self).player == old(self).player,
            final(self).ai == old(self).ai,
            final(self).moves == old(self).moves,
            final(self).winner == old(self).winner,
    {
        let mut free: Vec<usize> = Vec::new();
        let mut id: usize = 1;
        while id <= 9
            invariant
                1 <= id <= 10,
                forall|j: int|
                    0 <= j < free@.len() ==> 1 <= #[trigger] free@[j] <= 9 && self.state@[free@[j]
                        - 1] is None,
                forall|p: int|
                    1 <= p < id && self.state@[p - 1] is None ==> #[trigger] free@.contains(
                        p as usize,
                    ),
            decreases 10 - id,
        {
            if self.state[id - 1].is_none() {
                free.push(id);
            }
            id = id + 1;
        }
        proof {
            let p = choose|p: int| 0 <= p < 9 && self.state@[p] is None;
            assert(free@.contains((p + 1) as usize));
        }
        let r = crate::random::random_index(free.len());
        let pos = free[r];
        let value = self.ai;
        let _ = self.set_cell(pos, value);
        proof {
            assert(old(self).state@[pos - 1] is None);
        }
    }

    /// The text of board row `r`, built cell by cell in reading order.
    fn row_line(&self, r: usize) -> (s: String)
        requires
            r < 3,
        ensures
            s@ == row_text(self.state@, r as int),
    {
        let mut s = " ".to_owned();
        s.append(get_sign(&self.state[3 * r]).as_str());
        s.append(" | ");
        s.append(get_sign(&self.state[3 * r + 1]).as_str());
        s.append(" | ");
        s.append(get_sign(&self.state[3 * r + 2]).as_str());
        s.append(" \n");
        s
    }

    /// Renders the whole board as text: every cell's current content is
    /// shown in row-major reading order.
    pub fn draw(&self) -> (out: String)
        ensures
            out@ == board_text(self.state@),
    {
        let mut out = "------ TIC-TAC-TOE ------\n".to_owned();
        out.append("   |   |   \n");
        let row = self.row_line(0);
        out.append(row.as_str());
        out.append("___|___|___\n");
        out.append("   |   |   \n");
        let row = self.row_line(1);
        out.append(row.as_str());
        out.append("___|___|___\n");
        out.append("   |   |   \n");
        let row = self.row_line(2);
        out.append(row.as_str());
        out.append("   |   |   \n");
        out
    }
}

/// The display text of a cell's content: `O`, `X`, or a space.
pub fn get_sign(input: &Option<Sign>) -> (r: String)
    ensures
        r@ == sign_text(*input),
{
    match input {
        Some(Sign::First) => "O".to_owned(),
        Some(Sign::Second) => "X".to_owned(),
        None => " ".to_owned(),
    }
}

} // verus!
