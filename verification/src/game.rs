//! The game: one board, one falling piece, a score, and the rules by which a
//! piece moves, turns, locks and is followed by the next.

use vstd::prelude::*;

use crate::board::{
    cell_fits, cleared, cleared_count, empty_rows, is_board, lemma_cleared_is_board, placed,
    valid_position, Board, Cell, BOARD_HEIGHT, BOARD_WIDTH,
};
use crate::catalog::TetrominoType;
use crate::control::Command;
use crate::grid::{grid_view, is_square, lemma_rotate_keeps_square, occupied, rotate_grid};
use crate::piece::{is_piece_grid, spawned, PieceModel, Tetromino};

verus! {

/// The most that one lock can add to the score.
pub const MAX_LINE_SCORE: u32 = 800;

/// Milliseconds from one tick of the clock to the next.
pub const TICK_RATE_MILLIS: u64 = 500;

/// What a lock that cleared `lines` rows adds to the score.
pub open spec fn line_score(lines: nat) -> nat {
    if lines == 1 {
        100
    } else if lines == 2 {
        300
    } else if lines == 3 {
        500
    } else if lines == 4 {
        800
    } else {
        0
    }
}

/// A coordinate that a piece can hold.
pub open spec fn in_reach(v: int) -> bool {
    i32::MIN <= v <= i32::MAX
}

/// A tick is due at time `now` if the last one was at `last_tick`; both are
/// milliseconds on one clock. A clock that ran backwards makes none due.
pub open spec fn tick_due(last_tick: nat, now: nat) -> bool {
    now - last_tick >= TICK_RATE_MILLIS
}

/// The state of a game.
pub struct GameModel {
    pub board: Seq<Seq<Cell>>,
    pub piece: PieceModel,
    pub score: nat,
    pub game_over: bool,
    /// When the clock last ticked, in milliseconds since the game began.
    pub last_tick: nat,
}

impl GameModel {
    /// A game on `board` whose first piece is of `kind`: it is over at once
    /// if that piece does not stand free where it spawns.
    pub open spec fn started(board: Seq<Seq<Cell>>, kind: TetrominoType) -> GameModel {
        GameModel {
            board,
            piece: spawned(kind),
            score: 0,
            game_over: !valid_position(board, spawned(kind).grid, spawned(kind).x, 0),
            last_tick: 0,
        }
    }

    /// The board and the piece have their sizes.
    pub open spec fn wf(self) -> bool {
        is_board(self.board) && is_piece_grid(self.piece.kind, self.piece.grid)
    }

    /// While the game runs, the piece stands free on the board.
    pub open spec fn settled(self) -> bool {
        !self.game_over ==> valid_position(self.board, self.piece.grid, self.piece.x, self.piece.y)
    }

    /// The piece can be shifted by `dx` columns and `dy` rows: the game
    /// runs, the piece stands free there, and the place is one that a piece
    /// can hold.
    pub open spec fn can_move(self, dx: int, dy: int) -> bool {
        &&& !self.game_over
        &&& in_reach(self.piece.x + dx)
        &&& in_reach(self.piece.y + dy)
        &&& valid_position(self.board, self.piece.grid, self.piece.x + dx, self.piece.y + dy)
    }

    /// The game after an attempt to shift the piece. In a game that is over
    /// no piece moves.
    pub open spec fn moved(self, dx: int, dy: int) -> GameModel {
        if self.can_move(dx, dy) {
            GameModel {
                piece: PieceModel { x: self.piece.x + dx, y: self.piece.y + dy, ..self.piece },
                ..self
            }
        } else {
            self
        }
    }

    /// The game with the piece turned to `grid` and shifted by `dx` columns.
    pub open spec fn turned(self, grid: Seq<Seq<bool>>, dx: int) -> GameModel {
        GameModel { piece: PieceModel { grid, x: self.piece.x + dx, ..self.piece }, ..self }
    }

    /// The game after an attempt to turn the piece by a quarter clockwise:
    /// in place, else one column to the left, else one column to the right,
    /// else not at all. In a game that is over no piece turns.
    pub open spec fn rotated(self) -> GameModel {
        let grid = rotate_grid(self.piece.grid);
        if self.game_over {
            self
        } else if valid_position(self.board, grid, self.piece.x, self.piece.y) {
            self.turned(grid, 0)
        } else if valid_position(self.board, grid, self.piece.x - 1, self.piece.y) {
            self.turned(grid, -1)
        } else if valid_position(self.board, grid, self.piece.x + 1, self.piece.y) {
            self.turned(grid, 1)
        } else {
            self
        }
    }

    /// The game with the piece's cells written into the board.
    pub open spec fn frozen(self) -> GameModel {
        GameModel {
            board: placed(
                self.board,
                self.piece.grid,
                self.piece.x,
                self.piece.y,
                self.piece.kind.spec_color(),
            ),
            ..self
        }
    }

    /// What clearing the board as it is adds to the score.
    pub open spec fn award(self) -> nat {
        line_score(cleared_count(self.board))
    }

    /// The game with the full rows cleared and paid for.
    pub open spec fn swept(self) -> GameModel {
        GameModel { board: cleared(self.board), score: self.score + self.award(), ..self }
    }

    /// The game with a fresh piece of `kind`; it is over if that piece does
    /// not stand free where it spawns.
    pub open spec fn respawned(self, kind: TetrominoType) -> GameModel {
        GameModel {
            piece: spawned(kind),
            game_over: self.game_over || !valid_position(
                self.board,
                spawned(kind).grid,
                spawned(kind).x,
                0,
            ),
            ..self
        }
    }

    /// The game after the piece locked and a piece of `kind` followed it.
    pub open spec fn locked(self, kind: TetrominoType) -> GameModel {
        self.frozen().swept().respawned(kind)
    }

    /// The next tick of the clock locks the piece: the game runs, and the
    /// piece cannot sink.
    pub open spec fn locks(self) -> bool {
        !self.game_over && !self.can_move(0, 1)
    }

    /// The score that the next tick of the clock leaves is one that the
    /// game can count.
    pub open spec fn can_tick(self) -> bool {
        self.locks() ==> self.score + self.frozen().award() <= u32::MAX
    }

    /// The game after one tick of the clock, where `kind` is the kind of the
    /// next piece should the tick lock the present one.
    pub open spec fn ticked(self, kind: TetrominoType) -> GameModel {
        if self.game_over {
            self
        } else if self.can_move(0, 1) {
            self.moved(0, 1)
        } else {
            self.locked(kind)
        }
    }

    /// The game after a command: a shift by one cell to the left, to the
    /// right or down, or a quarter turn; quitting changes nothing, and
    /// nothing changes a game that is over.
    pub open spec fn applied(self, command: Command) -> GameModel {
        match command {
            Command::Quit => self,
            Command::MoveLeft => self.moved(-1, 0),
            Command::MoveRight => self.moved(1, 0),
            Command::SoftDrop => self.moved(0, 1),
            Command::Rotate => self.rotated(),
        }
    }

    /// The game after its clock was read at `now`: if a tick was due, it
    /// ticked, and that tick was at `now`.
    pub open spec fn clocked(self, now: nat, kind: TetrominoType) -> GameModel {
        if tick_due(self.last_tick, now) {
            GameModel { last_tick: now, ..self.ticked(kind) }
        } else {
            self
        }
    }
}

pub struct Game {
    board: Board,
    current_piece: Tetromino,
    last_tick: u64,
    game_over: bool,
    score: u32,
}

impl View for Game {
    type V = GameModel;

    closed spec fn view(&self) -> GameModel {
        GameModel {
            board: self.board@,
            piece: self.current_piece@,
            score: self.score as nat,
            game_over: self.game_over,
            last_tick: self.last_tick as nat,
        }
    }
}

/// The score for `lines` rows cleared by one lock.
pub fn score_for_lines(lines: u32) -> (score: u32)
    ensures
        score == line_score(lines as nat),
        score <= MAX_LINE_SCORE,
{
    match lines {
        1 => 100,
        2 => 300,
        3 => 500,
        4 => 800,
        _ => 0,
    }
}

impl Game {
    /// The sizes of board and piece are as they must be. This holds of every
    /// game.
    pub open spec fn wf(&self) -> bool {
        self@.wf()
    }

    /// A game on an empty board, with a first piece drawn at random.
    pub fn new() -> (game: Game)
        ensures
            game.wf(),
            exists|kind: TetrominoType|
                game@ == GameModel::started(empty_rows(BOARD_HEIGHT as nat), kind),
            !game@.game_over,
            game@.settled(),
    {
        let current_piece = Tetromino::new_random();
        let game = Game {
            board: Board::new(),
            current_piece,
            last_tick: 0,
            game_over: false,
            score: 0,
        };
        proof {
            let kind = choose|kind: TetrominoType| current_piece@ == spawned(kind);
            lemma_spawn_on_empty_board(kind);
            assert(game@ == GameModel::started(empty_rows(BOARD_HEIGHT as nat), kind));
        }
        game
    }

    /// A game on `board` whose first piece is of `kind`.
    pub fn start(board: Board, kind: TetrominoType) -> (game: Game)
        ensures
            game.wf(),
            game@ == GameModel::started(board@, kind),
            game@.settled(),
    {
        Game::resume(board, kind, 0)
    }

    /// A game taken up on `board` with `score` points, whose next piece is
    /// of `kind`.
    pub fn resume(board: Board, kind: TetrominoType, score: u32) -> (game: Game)
        ensures
            game.wf(),
            game@ == (GameModel { score: score as nat, ..GameModel::started(board@, kind) }),
            game@.settled(),
    {
        let current_piece = Tetromino::new(kind);
        let game_over = !board.is_valid_position(
            current_piece.shape(),
            current_piece.x(),
            current_piece.y(),
        );
        Game { board, current_piece, last_tick: 0, game_over, score }
    }

    pub fn board(&self) -> (board: &Board)
        ensures
            board@ == self@.board,
    {
        &self.board
    }

    pub fn current_piece(&self) -> (piece: &Tetromino)
        ensures
            piece@ == self@.piece,
    {
        &self.current_piece
    }

    pub fn score(&self) -> (score: u32)
        ensures
            score == self@.score,
    {
        self.score
    }

    pub fn is_game_over(&self) -> (over: bool)
        ensures
            over == self@.game_over,
    {
        self.game_over
    }

    pub fn last_tick(&self) -> (millis: u64)
        ensures
            millis == self@.last_tick,
    {
        self.last_tick
    }

    /// Whether `shape`, with its corner at column `x` and row `y`, stands
    /// free on the game's board.
    pub fn is_valid_position(&self, shape: &Vec<Vec<bool>>, x: i32, y: i32) -> (valid: bool)
        ensures
            valid == valid_position(self@.board, grid_view(shape), x as int, y as int),
    {
        self.board.is_valid_position(shape, x, y)
    }

    /// Shifts the piece by `dx` columns and `dy` rows if the game runs and
    /// the piece stands free there, and says whether it did. A shift that
    /// would take a coordinate of the piece out of the range of `i32` is not
    /// made.
    pub fn move_piece(&mut self, dx: i32, dy: i32) -> (moved: bool)
        ensures
            final(self).wf(),
            moved == old(self)@.can_move(dx as int, dy as int),
            final(self)@ == old(self)@.moved(dx as int, dy as int),
            old(self)@.game_over ==> !moved && final(self)@ == old(self)@,
            old(self)@.settled() ==> final(self)@.settled(),
    {
        proof {
            use_type_invariant(&self.current_piece);
        }
        if self.game_over {
            return false;
        }
        let new_x = match self.current_piece.x().checked_add(dx) {
            Some(new_x) => new_x,
            None => {
                return false;
            },
        };
        let new_y = match self.current_piece.y().checked_add(dy) {
            Some(new_y) => new_y,
            None => {
                return false;
            },
        };
        if self.board.is_valid_position(self.current_piece.shape(), new_x, new_y) {
            self.current_piece.move_to(new_x, new_y);
            true
        } else {
            false
        }
    }

    /// Turns the piece by a quarter clockwise: where it stands if it is free
    /// there, else one column to the left, else one column to the right. If
    /// it is free at none of the three, or the game is over, the piece stays
    /// as it is.
    pub fn rotate_piece(&mut self)
        ensures
            final(self).wf(),
            final(self)@ == old(self)@.rotated(),
            old(self)@.game_over ==> final(self)@ == old(self)@,
            old(self)@.settled() ==> final(self)@.settled(),
            ({
                let before = old(self)@;
                let grid = rotate_grid(before.piece.grid);
                !before.game_over && !valid_position(
                    before.board,
                    grid,
                    before.piece.x,
                    before.piece.y,
                ) && valid_position(before.board, grid, before.piece.x - 1, before.piece.y)
                    ==> final(self)@ == before.turned(grid, -1)
            }),
    {
        proof {
            use_type_invariant(&self.current_piece);
        }
        if self.game_over {
            return ;
        }
        let rotated_shape = self.current_piece.rotate_clockwise();
        let x = self.current_piece.x();
        let y = self.current_piece.y();
        let ghost grid = rotate_grid(self@.piece.grid);
        proof {
            lemma_rotate_keeps_square(self@.piece.grid);
        }

        if self.board.is_valid_position(&rotated_shape, x, y) {
            self.current_piece.turn_to(rotated_shape, x);
            return ;
        }
        proof {
            // Where the piece's column cannot be lowered or raised by one,
            // the turned grid would not stand free there either.
            lemma_blocked_beyond_reach(self@.board, grid, x as int, y as int);
        }

        if x > i32::MIN && self.board.is_valid_position(&rotated_shape, x - 1, y) {
            self.current_piece.turn_to(rotated_shape, x - 1);
            return ;
        }
        if x < i32::MAX && self.board.is_valid_position(&rotated_shape, x + 1, y) {
            self.current_piece.turn_to(rotated_shape, x + 1);
            return ;
        }
    }

    /// Writes the piece's cells into the board.
    pub fn freeze_piece(&mut self)
        ensures
            final(self).wf(),
            final(self)@ == old(self)@.frozen(),
    {
        proof {
            use_type_invariant(&self.current_piece);
        }
        self.board.place(&self.current_piece);
    }

    /// Clears the full rows and adds what they are worth to the score.
    pub fn clear_lines(&mut self)
        requires
            old(self)@.score + old(self)@.award() <= u32::MAX,
        ensures
            final(self).wf(),
            final(self)@ == old(self)@.swept(),
    {
        proof {
            use_type_invariant(&self.current_piece);
        }
        let lines_cleared = self.board.clear_full_lines();
        self.score += score_for_lines(lines_cleared);
    }

    /// Replaces the piece by a fresh one of `kind`. The game is over if the
    /// new piece does not stand free where it spawns.
    pub fn spawn_piece(&mut self, kind: TetrominoType)
        ensures
            final(self).wf(),
            final(self)@ == old(self)@.respawned(kind),
            old(self)@.settled() ==> final(self)@.settled(),
    {
        self.current_piece = Tetromino::new(kind);
        if !self.board.is_valid_position(
            self.current_piece.shape(),
            self.current_piece.x(),
            self.current_piece.y(),
        ) {
            self.game_over = true;
        }
    }

    /// Replaces the piece by a fresh one of a kind drawn at random.
    pub fn spawn_new_piece(&mut self)
        ensures
            final(self).wf(),
            exists|kind: TetrominoType| final(self)@ == old(self)@.respawned(kind),
            old(self)@.settled() ==> final(self)@.settled(),
    {
        self.current_piece = Tetromino::new_random();
        let ghost kind = choose|kind: TetrominoType| self.current_piece@ == spawned(kind);

        if !self.board.is_valid_position(
            self.current_piece.shape(),
            self.current_piece.x(),
            self.current_piece.y(),
        ) {
            self.game_over = true;
        }
        assert(self@ == old(self)@.respawned(kind));
    }

    /// One tick of the clock, with `next` as the kind of the piece that
    /// follows if this tick locks the present one.
    pub fn tick_with(&mut self, next: TetrominoType)
        requires
            old(self)@.can_tick(),
        ensures
            final(self).wf(),
            final(self)@ == old(self)@.ticked(next),
            old(self)@.settled() ==> final(self)@.settled(),
            old(self)@.game_over ==> final(self)@ == old(self)@,
    {
        proof {
            use_type_invariant(&self.current_piece);
        }
        if self.game_over {
            return ;
        }
        if !self.move_piece(0, 1) {
            self.freeze_piece();
            self.clear_lines();
            self.spawn_piece(next);
        }
    }

    /// One tick of the clock: the piece sinks by a row or, if it cannot,
    /// locks, and a piece of a kind drawn at random follows. Nothing happens
    /// once the game is over.
    pub fn tick(&mut self)
        requires
            old(self)@.can_tick(),
        ensures
            final(self).wf(),
            exists|kind: TetrominoType| final(self)@ == old(self)@.ticked(kind),
            old(self)@.settled() ==> final(self)@.settled(),
            old(self)@.game_over ==> final(self)@ == old(self)@,
    {
        proof {
            use_type_invariant(&self.current_piece);
        }
        if self.game_over {
            return ;
        }
        if !self.move_piece(0, 1) {
            self.freeze_piece();
            self.clear_lines();
            let ghost swept = self@;
            self.spawn_new_piece();
            let ghost kind = choose|kind: TetrominoType| self@ == swept.respawned(kind);
            assert(self@ == old(self)@.ticked(kind));
        }
    }

    /// Carries out a command and says whether the game is to go on: it is,
    /// unless the command was to quit. No command changes a game that is
    /// over.
    pub fn apply(&mut self, command: Command) -> (go_on: bool)
        ensures
            final(self).wf(),
            final(self)@ == old(self)@.applied(command),
            old(self)@.game_over ==> final(self)@ == old(self)@,
            old(self)@.settled() ==> final(self)@.settled(),
            go_on == (command != Command::Quit),
    {
        proof {
            use_type_invariant(&self.current_piece);
        }
        match command {
            Command::Quit => {
                return false;
            },
            Command::MoveLeft => {
                self.move_piece(-1, 0);
            },
            Command::MoveRight => {
                self.move_piece(1, 0);
            },
            Command::SoftDrop => {
                self.move_piece(0, 1);
            },
            Command::Rotate => {
                self.rotate_piece();
            },
        }
        true
    }

    /// Whether a tick is due when the clock, in milliseconds since the game
    /// began, stands at `now`.
    pub fn tick_is_due(&self, now: u64) -> (due: bool)
        ensures
            due == tick_due(self@.last_tick, now as nat),
    {
        now.saturating_sub(self.last_tick) >= TICK_RATE_MILLIS
    }

    /// Whether the game can count the score that the next tick leaves: it
    /// cannot if that tick locks the piece and the rows then cleared are
    /// worth more than the counter has room for.
    pub fn can_tick(&self) -> (ok: bool)
        ensures
            ok == self@.can_tick(),
    {
        if self.game_over {
            return true;
        }
        let x = self.current_piece.x();
        let y = self.current_piece.y();
        if y < i32::MAX && self.board.is_valid_position(self.current_piece.shape(), x, y + 1) {
            return true;
        }
        let mut board = self.board;
        board.place(&self.current_piece);
        let lines_cleared = board.clear_full_lines();
        score_for_lines(lines_cleared) <= u32::MAX - self.score
    }

    /// Reads the clock at `now`, in milliseconds since the game began: if a
    /// tick is due, the game ticks and takes `now` as the time of its last
    /// tick. Says whether it ticked.
    pub fn advance_clock(&mut self, now: u64) -> (ticked: bool)
        requires
            tick_due(old(self)@.last_tick, now as nat) ==> old(self)@.can_tick(),
        ensures
            final(self).wf(),
            ticked == tick_due(old(self)@.last_tick, now as nat),
            exists|kind: TetrominoType| final(self)@ == old(self)@.clocked(now as nat, kind),
            old(self)@.settled() ==> final(self)@.settled(),
            !ticked ==> final(self)@ == old(self)@,
    {
        proof {
            use_type_invariant(&self.current_piece);
        }
        if self.tick_is_due(now) {
            self.tick();
            let ghost kind = choose|kind: TetrominoType| self@ == old(self)@.ticked(kind);
            self.last_tick = now;
            assert(self@ == old(self)@.clocked(now as nat, kind));
            true
        } else {
            false
        }
    }

    /// The board as it is to be shown: the locked cells, and over them the
    /// cells of the falling piece that lie on the board.
    pub fn display_board(&self) -> (shown: Board)
        ensures
            shown@ == self@.frozen().board,
    {
        let mut shown = self.board;
        shown.place(&self.current_piece);
        shown
    }
}

/// A grid that does not stand free at column `x` stands free neither to the
/// left of the least column nor to the right of the greatest that a piece can
/// hold.
proof fn lemma_blocked_beyond_reach(b: Seq<Seq<Cell>>, grid: Seq<Seq<bool>>, x: int, y: int)
    requires
        is_square(grid),
        grid.len() <= BOARD_WIDTH,
        in_reach(x),
        !valid_position(b, grid, x, y),
    ensures
        x == i32::MIN ==> !valid_position(b, grid, x - 1, y),
        x == i32::MAX ==> !valid_position(b, grid, x + 1, y),
{
    // The cell that is in the way at column `x` lies within the grid's few
    // columns, so beyond the reach of a coordinate it is behind a wall.
    let (r, c) = choose|r: int, c: int| occupied(grid, r, c) && !cell_fits(b, x, y, r, c);
    assert(occupied(grid, r, c) && 0 <= c < BOARD_WIDTH);
}

/// On an empty board every kind stands free where it spawns.
pub proof fn lemma_spawn_on_empty_board(kind: TetrominoType)
    ensures
        valid_position(
            empty_rows(BOARD_HEIGHT as nat),
            spawned(kind).grid,
            spawned(kind).x,
            spawned(kind).y,
        ),
{
}

/// Every step keeps the sizes of the board and of the piece's grid.
pub proof fn lemma_steps_keep_sizes(m: GameModel, kind: TetrominoType, dx: int, dy: int)
    requires
        m.wf(),
    ensures
        m.moved(dx, dy).wf(),
        m.rotated().wf(),
        m.locked(kind).wf(),
        m.ticked(kind).wf(),
{
    lemma_cleared_is_board(m.frozen().board);
}

/// While the game runs the piece stands free on the board, whatever step is
/// taken: a shift, a turn, or a tick of the clock.
pub proof fn lemma_steps_keep_settled(m: GameModel, kind: TetrominoType, dx: int, dy: int)
    requires
        m.settled(),
    ensures
        m.moved(dx, dy).settled(),
        m.rotated().settled(),
        m.respawned(kind).settled(),
        m.ticked(kind).settled(),
{
}

/// Nothing changes a game that is over: no tick of the clock, no shift, no
/// turn and no command.
pub proof fn lemma_game_over_is_final(
    m: GameModel,
    kind: TetrominoType,
    dx: int,
    dy: int,
    command: Command,
)
    requires
        m.game_over,
    ensures
        m.ticked(kind) == m,
        m.moved(dx, dy) == m,
        m.rotated() == m,
        m.applied(command) == m,
{
}

/// A game that is over stays over when a piece locks or a new one spawns.
pub proof fn lemma_game_over_stays(m: GameModel, kind: TetrominoType)
    requires
        m.game_over,
    ensures
        m.respawned(kind).game_over,
        m.locked(kind).game_over,
{
}

/// A tick never lowers the score and never adds more than the most that one
/// lock can pay, so a game whose score leaves room for that much can tick.
pub proof fn lemma_tick_pays_within_bounds(m: GameModel, kind: TetrominoType)
    ensures
        m.score <= m.ticked(kind).score <= m.score + MAX_LINE_SCORE,
        m.locks() ==> m.ticked(kind).score == m.score + m.frozen().award(),
        m.score + MAX_LINE_SCORE <= u32::MAX ==> m.can_tick(),
{
}

/// Where the four cells in the middle of the two top rows are filled, the
/// spawning of a piece of any kind ends the game: each kind covers one of
/// the four where it spawns. From then on neither a tick nor a shift nor a
/// turn nor a command changes anything.
pub proof fn lemma_blocked_spawn_ends_game(
    m: GameModel,
    kind: TetrominoType,
    next: TetrominoType,
    dx: int,
    dy: int,
    command: Command,
)
    requires
        forall|r: int, c: int| 0 <= r < 2 && 4 <= c < 6 ==> m.board[r][c] != Cell::Empty,
    ensures
        m.respawned(kind).game_over,
        ({
            let over = m.respawned(kind);
            &&& over.ticked(next) == over
            &&& over.moved(dx, dy) == over
            &&& over.rotated() == over
            &&& over.applied(command) == over
        }),
{
    let grid = spawned(kind).grid;
    // A cell of the spawning piece that lies on one of the four.
    match kind {
        TetrominoType::I | TetrominoType::T | TetrominoType::S | TetrominoType::Z => {
            assert(spawned(kind).x == 3 && occupied(grid, 0, 1));
        },
        TetrominoType::O => {
            assert(spawned(kind).x == 4 && occupied(grid, 0, 0));
        },
        TetrominoType::L => {
            assert(spawned(kind).x == 3 && occupied(grid, 0, 2));
        },
        TetrominoType::J => {
            assert(spawned(kind).x == 3 && occupied(grid, 1, 1));
        },
    }
    lemma_game_over_is_final(m.respawned(kind), next, dx, dy, command);
}

} // verus!
