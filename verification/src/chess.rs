//! The board model and the move validator/applier.
//!
//! A board position is modelled by the ghost type [`BoardState`]: a sequence
//! of 64 optional pieces, indexed by `rank * 8 + file` (square A1 is index 0,
//! H1 is 7, A8 is 56), together with the color to move. Every executable
//! operation on [`Chess`] is specified against that model.

use vstd::prelude::*;

verus! {

/// The two sides. Determines piece ownership and turn order.
#[derive(Clone, Copy, Debug, PartialEq, Eq, Structural)]
pub enum Color {
    Black,
    White,
}

/// The six chess roles, independent of color.
#[derive(Clone, Copy, Debug, PartialEq, Eq, Structural)]
pub enum PieceType {
    King,
    Queen,
    Rook,
    Bishop,
    Knight,
    Pawn,
}

/// An immutable piece value: a color and a kind.
#[derive(Clone, Copy, Debug, PartialEq, Eq, Structural)]
pub struct Piece {
    pub color: Color,
    pub piecetype: PieceType,
}

impl Piece {
    /// Builds a piece from its color and kind.
    pub fn new(color: Color, piece_type: PieceType) -> (p: Piece)
        ensures
            p == (Piece { color, piecetype: piece_type }),
    {
        Piece { color, piecetype: piece_type }
    }
}

/// Why a move was rejected. Every rejection leaves the board untouched.
#[derive(Clone, Copy, Debug, PartialEq, Eq, Structural)]
pub enum MoveError {
    /// The token is not four characters of the form `[A-H][1-8][A-H][1-8]`.
    Malformed,
    /// The source square is empty or holds the opponent's piece.
    NoFriendlyPiece,
    /// The destination square holds a piece of the mover's own color.
    FriendlyCapture,
}

impl MoveError {
    /// The user-visible text of a rejection: one generic line for every kind.
    pub fn message(&self) -> (s: &'static str)
        ensures
            s@ == "Invalid move"@,
    {
        "Invalid move"
    }
}

/// The mathematical model of a board position: what each of the 64 squares
/// holds, and whose turn it is.
pub ghost struct BoardState {
    pub squares: Seq<Option<Piece>>,
    pub to_move: Color,
}

/// The color that moves after `c` has moved.
pub open spec fn flip(c: Color) -> Color {
    match c {
        Color::White => Color::Black,
        Color::Black => Color::White,
    }
}

/// The board index of the square at `file` (0 = A) and `rank` (0 = rank 1).
pub open spec fn square_index(file: int, rank: int) -> int {
    rank * 8 + file
}

/// Whether `c` is a valid file letter, `A` through `H`.
pub open spec fn is_file_char(c: char) -> bool {
    'A' <= c && c <= 'H'
}

/// Whether `c` is a valid rank digit, `1` through `8`.
pub open spec fn is_rank_char(c: char) -> bool {
    '1' <= c && c <= '8'
}

/// The file index (0 through 7) named by a file letter.
pub open spec fn file_index(c: char) -> int {
    c as int - 'A' as int
}

/// The rank index (0 through 7) named by a rank digit.
pub open spec fn rank_index(c: char) -> int {
    c as int - '1' as int
}

/// The digit character naming rank `x` (1 through 8).
pub open spec fn rank_char(x: int) -> char {
    if x == 1 {
        '1'
    } else if x == 2 {
        '2'
    } else if x == 3 {
        '3'
    } else if x == 4 {
        '4'
    } else if x == 5 {
        '5'
    } else if x == 6 {
        '6'
    } else if x == 7 {
        '7'
    } else {
        '8'
    }
}

/// Whether `s` names a square: a file letter followed by a rank digit.
pub open spec fn is_square_token(s: Seq<char>) -> bool {
    s.len() == 2 && is_file_char(s[0]) && is_rank_char(s[1])
}

/// The board index of the square named by a square token.
pub open spec fn square_of(s: Seq<char>) -> int {
    square_index(file_index(s[0]), rank_index(s[1]))
}

/// Whether `s` is a syntactically well-formed move token:
/// exactly four characters, alternating file letters and rank digits.
pub open spec fn is_move_token(s: Seq<char>) -> bool {
    &&& s.len() == 4
    &&& is_file_char(s[0])
    &&& is_rank_char(s[1])
    &&& is_file_char(s[2])
    &&& is_rank_char(s[3])
}

/// The source square index of a well-formed move token.
pub open spec fn move_from(s: Seq<char>) -> int {
    square_index(file_index(s[0]), rank_index(s[1]))
}

/// The destination square index of a well-formed move token.
pub open spec fn move_to(s: Seq<char>) -> int {
    square_index(file_index(s[2]), rank_index(s[3]))
}

/// The outcome of offering the token `s` to the board `b`: `Ok(())` when the
/// move is accepted, and otherwise exactly which check rejects it first.
///
/// The checks run in order: syntax, then a friendly piece on the source
/// square, then no friendly piece on the destination square. No movement
/// geometry is checked: any move passing these three is accepted.
pub open spec fn move_outcome(b: BoardState, s: Seq<char>) -> Result<(), MoveError> {
    if !is_move_token(s) {
        Err(MoveError::Malformed)
    } else {
        match b.squares[move_from(s)] {
            None => Err(MoveError::NoFriendlyPiece),
            Some(p) => if p.color != b.to_move {
                Err(MoveError::NoFriendlyPiece)
            } else {
                match b.squares[move_to(s)] {
                    Some(q) => if q.color == b.to_move {
                        Err(MoveError::FriendlyCapture)
                    } else {
                        Ok(())
                    },
                    None => Ok(()),
                }
            },
        }
    }
}

/// The board after offering the token `s` to the board `b`: on acceptance the
/// source piece lands on the destination square (capturing whatever was
/// there), the source square empties, and the turn flips; on rejection the
/// board is unchanged.
pub open spec fn board_after(b: BoardState, s: Seq<char>) -> BoardState {
    if move_outcome(b, s) is Ok {
        BoardState {
            squares: b.squares.update(move_to(s), b.squares[move_from(s)]).update(
                move_from(s),
                None,
            ),
            to_move: flip(b.to_move),
        }
    } else {
        b
    }
}

/// The kind standing on the back rank at `file` in the standard layout:
/// rook, knight, bishop, queen, king, bishop, knight, rook.
pub open spec fn back_rank_kind(file: int) -> PieceType {
    if file == 0 || file == 7 {
        PieceType::Rook
    } else if file == 1 || file == 6 {
        PieceType::Knight
    } else if file == 2 || file == 5 {
        PieceType::Bishop
    } else if file == 3 {
        PieceType::Queen
    } else {
        PieceType::King
    }
}

/// What square `i` holds in the standard starting position.
pub open spec fn initial_square(i: int) -> Option<Piece> {
    let file = i % 8;
    let rank = i / 8;
    if rank == 0 {
        Some(Piece { color: Color::White, piecetype: back_rank_kind(file) })
    } else if rank == 1 {
        Some(Piece { color: Color::White, piecetype: PieceType::Pawn })
    } else if rank == 6 {
        Some(Piece { color: Color::Black, piecetype: PieceType::Pawn })
    } else if rank == 7 {
        Some(Piece { color: Color::Black, piecetype: back_rank_kind(file) })
    } else {
        None
    }
}

/// The standard starting position: 32 pieces on their standard squares,
/// White to move.
pub open spec fn initial_board() -> BoardState {
    BoardState { squares: Seq::new(64, |i: int| initial_square(i)), to_move: Color::White }
}

/// The board tracker: current piece placement and whose turn it is.
pub struct Chess {
    board: Vec<Option<Piece>>,
    next_player: Color,
}

impl View for Chess {
    type V = BoardState;

    closed spec fn view(&self) -> BoardState {
        BoardState { squares: self.board@, to_move: self.next_player }
    }
}

impl Chess {
    /// Well-formedness: all 64 squares are addressable.
    pub open spec fn wf(&self) -> bool {
        self@.squares.len() == 64
    }

    /// Builds a board in the standard starting position, White to move.
    pub fn new() -> (game: Chess)
        ensures
            game.wf(),
            game@ == initial_board(),
    {
        let mut board: Vec<Option<Piece>> = Vec::new();
        let mut i: usize = 0;
        while i < 64
            invariant
                i <= 64,
                board@.len() == i,
                forall|j: int| 0 <= j < i ==> board@[j] == initial_square(j),
            decreases 64 - i,
        {
            let file = i % 8;
            let rank = i / 8;
            let piece: Option<Piece> = if rank == 0 {
                Some(Piece::new(Color::White, Chess::back_rank(file)))
            } else if rank == 1 {
                Some(Piece::new(Color::White, PieceType::Pawn))
            } else if rank == 6 {
                Some(Piece::new(Color::Black, PieceType::Pawn))
            } else if rank == 7 {
                Some(Piece::new(Color::Black, Chess::back_rank(file)))
            } else {
                None
            };
            board.push(piece);
            i += 1;
        }
        let game = Chess { board, next_player: Color::White };
        proof {
            assert(game@.squares =~= initial_board().squares);
        }
        game
    }

    /// The back-rank kind at `file`, as [`back_rank_kind`] gives it.
    fn back_rank(file: usize) -> (k: PieceType)
        requires
            file < 8,
        ensures
            k == back_rank_kind(file as int),
    {
        if file == 0 || file == 7 {
            PieceType::Rook
        } else if file == 1 || file == 6 {
            PieceType::Knight
        } else if file == 2 || file == 5 {
            PieceType::Bishop
        } else if file == 3 {
            PieceType::Queen
        } else {
            PieceType::King
        }
    }

    /// The color whose turn it is.
    pub fn next_player(&self) -> (c: Color)
        ensures
            c == self@.to_move,
    {
        self.next_player
    }

    /// The file index of a file letter, `A` mapping to 0 and `H` to 7.
    pub fn col_nr(x: char) -> (n: u8)
        requires
            is_file_char(x),
        ensures
            n as int == file_index(x),
    {
        (x as u32 - 65) as u8
    }

    /// The digit character naming rank `x`, `1` mapping to `'1'`.
    pub fn col_name(x: u32) -> (c: char)
        requires
            1 <= x <= 8,
        ensures
            c == rank_char(x as int),
    {
        if x == 1 {
            '1'
        } else if x == 2 {
            '2'
        } else if x == 3 {
            '3'
        } else if x == 4 {
            '4'
        } else if x == 5 {
            '5'
        } else if x == 6 {
            '6'
        } else if x == 7 {
            '7'
        } else {
            '8'
        }
    }

    /// What occupies the square named by `square`: `None` for an empty
    /// square, and also `None` when `square` does not name one of the 64
    /// squares.
    pub fn piece_at(&self, square: &str) -> (r: Option<Piece>)
        requires
            self.wf(),
        ensures
            is_square_token(square@) ==> r == self@.squares[square_of(square@)],
            !is_square_token(square@) ==> r is None,
    {
        if square.unicode_len() != 2 {
            return None;
        }
        let f = square.get_char(0);
        let d = square.get_char(1);
        if !('A' <= f && f <= 'H') || !('1' <= d && d <= '8') {
            return None;
        }
        let file = Chess::col_nr(f) as usize;
        let rank = (d as u32 - 49) as usize;
        self.board[rank * 8 + file]
    }

    /// Parses and validates a move token against the current position.
    /// Returns the source and destination square indices of an accepted
    /// move, or the exact error of [`move_outcome`].
    fn classify_move(&self, mv: &str) -> (r: Result<(usize, usize), MoveError>)
        requires
            self.wf(),
        ensures
            match r {
                Ok((from, to)) => {
                    &&& move_outcome(self@, mv@) is Ok
                    &&& from as int == move_from(mv@)
                    &&& to as int == move_to(mv@)
                    &&& from < 64
                    &&& to < 64
                    &&& from != to
                    &&& self@.squares[from as int] is Some
                },
                Err(e) => move_outcome(self@, mv@) == Err::<(), MoveError>(e),
            },
    {
        if mv.unicode_len() != 4 {
            return Err(MoveError::Malformed);
        }
        let c0 = mv.get_char(0);
        let c1 = mv.get_char(1);
        let c2 = mv.get_char(2);
        let c3 = mv.get_char(3);
        if !('A' <= c0 && c0 <= 'H') || !('1' <= c1 && c1 <= '8') || !('A' <= c2 && c2 <= 'H')
            || !('1' <= c3 && c3 <= '8') {
            return Err(MoveError::Malformed);
        }
        let from: usize = ((c1 as u32 - 49) * 8 + (c0 as u32 - 65)) as usize;
        let to: usize = ((c3 as u32 - 49) * 8 + (c2 as u32 - 65)) as usize;
        match self.board[from] {
            None => Err(MoveError::NoFriendlyPiece),
            Some(piece_to_move) => {
                if piece_to_move.color != self.next_player {
                    return Err(MoveError::NoFriendlyPiece);
                }
                match self.board[to] {
                    Some(piece_to_kill) if piece_to_kill.color == self.next_player => {
                        Err(MoveError::FriendlyCapture)
                    },
                    _ => Ok((from, to)),
                }
            },
        }
    }

    /// Whether the token `mv` would be accepted on the current position.
    pub fn is_valid_move(&self, mv: &str) -> (b: bool)
        requires
            self.wf(),
        ensures
            b == (move_outcome(self@, mv@) is Ok),
    {
        self.classify_move(mv).is_ok()
    }

    /// Relocates the piece on square `from` to square `to` (capturing
    /// whatever was there), empties `from`, and flips the turn.
    ///
    /// The caller has already confirmed legality: this operation does not
    /// re-validate.
    pub fn apply(&mut self, from: usize, to: usize)
        requires
            old(self).wf(),
            from < 64,
            to < 64,
            from != to,
            old(self)@.squares[from as int] is Some,
        ensures
            final(self).wf(),
            final(self)@.squares == old(self)@.squares.update(
                to as int,
                old(self)@.squares[from as int],
            ).update(from as int, None::<Piece>),
            final(self)@.to_move == flip(old(self)@.to_move),
    {
        let piece = self.board[from];
        self.board.set(to, piece);
        self.board.set(from, None);
        self.next_player = match self.next_player {
            Color::White => Color::Black,
            Color::Black => Color::White,
        };
    }

    /// Offers the token `move_to_perform` to the board. An accepted move
    /// mutates the position and flips the turn; a rejected move returns the
    /// exact error of [`move_outcome`] and leaves the board untouched, as
    /// [`board_after`] states.
    pub fn perform_move(&mut self, move_to_perform: &str) -> (r: Result<(), MoveError>)
        requires
            old(self).wf(),
        ensures
            final(self).wf(),
            r == move_outcome(old(self)@, move_to_perform@),
            final(self)@ == board_after(old(self)@, move_to_perform@),
    {
        match self.classify_move(move_to_perform) {
            Err(e) => Err(e),
            Ok((from, to)) => {
                self.apply(from, to);
                Ok(())
            },
        }
    }
}

/// The glyph rendering piece `p`: one of twelve distinct characters, one per
/// (kind, color) pair.
pub open spec fn glyph(p: Piece) -> char {
    match (p.piecetype, p.color) {
        (PieceType::King, Color::White) => '\u{265a}',
        (PieceType::Queen, Color::White) => '\u{265b}',
        (PieceType::Bishop, Color::White) => '\u{265d}',
        (PieceType::Knight, Color::White) => '\u{265e}',
        (PieceType::Rook, Color::White) => '\u{265c}',
        (PieceType::Pawn, Color::White) => '\u{265f}',
        (PieceType::King, Color::Black) => '\u{2654}',
        (PieceType::Queen, Color::Black) => '\u{2655}',
        (PieceType::Bishop, Color::Black) => '\u{2657}',
        (PieceType::Knight, Color::Black) => '\u{2658}',
        (PieceType::Rook, Color::Black) => '\u{2656}',
        (PieceType::Pawn, Color::Black) => '\u{2659}',
    }
}

/// The character rendering square `i` of board `b`: the piece's glyph, or a
/// dot for an empty square.
pub open spec fn cell_char(b: BoardState, i: int) -> char {
    match b.squares[i] {
        Some(p) => glyph(p),
        None => '.',
    }
}

/// The first `f` cells of the row for rank index `r`, each cell a glyph or
/// dot followed by a space.
pub open spec fn row_cells(b: BoardState, r: int, f: int) -> Seq<char>
    decreases f,
{
    if f <= 0 {
        Seq::empty()
    } else {
        row_cells(b, r, f - 1) + seq![cell_char(b, square_index(f - 1, r)), ' ']
    }
}

/// The rendered line for rank index `r` (displayed as rank `r + 1`): the
/// rank digit, the eight cells, the rank digit again, and a newline.
pub open spec fn row_text(b: BoardState, r: int) -> Seq<char> {
    seq![rank_char(r + 1), ' '] + row_cells(b, r, 8) + seq![rank_char(r + 1), ' ', '\n']
}

/// The first `r` rendered rank lines, rank 1 first.
pub open spec fn rows_text(b: BoardState, r: int) -> Seq<char>
    decreases r,
{
    if r <= 0 {
        Seq::empty()
    } else {
        rows_text(b, r - 1) + row_text(b, r - 1)
    }
}

/// The file-letter header and footer line.
pub open spec fn file_header() -> Seq<char> {
    "  A B C D E F G H\n"@
}

/// The full rendered board: the file-letter header, the eight rank lines
/// with rank 1 at the top, and the file-letter footer.
pub open spec fn render_text(b: BoardState) -> Seq<char> {
    file_header() + rows_text(b, 8) + file_header()
}

impl Piece {
    /// The glyph rendering this piece, as [`glyph`] gives it.
    pub fn letter(&self) -> (c: char)
        ensures
            c == glyph(*self),
    {
        match (self.piecetype, self.color) {
            (PieceType::King, Color::White) => '\u{265a}',
            (PieceType::Queen, Color::White) => '\u{265b}',
            (PieceType::Bishop, Color::White) => '\u{265d}',
            (PieceType::Knight, Color::White) => '\u{265e}',
            (PieceType::Rook, Color::White) => '\u{265c}',
            (PieceType::Pawn, Color::White) => '\u{265f}',
            (PieceType::King, Color::Black) => '\u{2654}',
            (PieceType::Queen, Color::Black) => '\u{2655}',
            (PieceType::Bishop, Color::Black) => '\u{2657}',
            (PieceType::Knight, Color::Black) => '\u{2658}',
            (PieceType::Rook, Color::Black) => '\u{2656}',
            (PieceType::Pawn, Color::Black) => '\u{2659}',
        }
    }
}

/// Relies on String::push: appends the character to the end of the string.
#[verifier::external_body]
fn push_char(s: &mut String, c: char)
    ensures
        final(s)@ == old(s)@.push(c),
{
    s.push(c)
}

impl Chess {
    /// Renders the board as a fixed-layout text block: a file-letter header,
    /// eight rank lines with rank 1 at the top, and a file-letter footer,
    /// exactly as [`render_text`] states.
    pub fn render(&self) -> (out: String)
        requires
            self.wf(),
        ensures
            out@ == render_text(self@),
    {
        let mut out = String::new();
        out.append("  A B C D E F G H\n");
        let mut r: usize = 0;
        while r < 8
            invariant
                self.wf(),
                r <= 8,
                out@ == file_header() + rows_text(self@, r as int),
            decreases 8 - r,
        {
            let d = Chess::col_name((r + 1) as u32);
            push_char(&mut out, d);
            push_char(&mut out, ' ');
            let mut f: usize = 0;
            while f < 8
                invariant
                    self.wf(),
                    r < 8,
                    f <= 8,
                    d == rank_char(r + 1),
                    out@ == file_header() + rows_text(self@, r as int) + seq![
                        rank_char(r + 1),
                        ' ',
                    ] + row_cells(self@, r as int, f as int),
                decreases 8 - f,
            {
                let c = match self.board[r * 8 + f] {
                    Some(p) => p.letter(),
                    None => '.',
                };
                push_char(&mut out, c);
                push_char(&mut out, ' ');
                f += 1;
            }
            push_char(&mut out, d);
            push_char(&mut out, ' ');
            push_char(&mut out, '\n');
            r += 1;
            proof {
                assert(out@ =~= file_header() + rows_text(self@, r as int));
            }
        }
        out.append("  A B C D E F G H\n");
        proof {
            assert(out@ =~= render_text(self@));
        }
        out
    }
}

} // verus!
