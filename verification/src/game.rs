//! A whole game: the board, the snake, the fruit, and what one tick does
//! to them.

use crate::direction::Key;
use crate::fruit::{build_fruit, in_orchard, orchard_fits, FRUIT_GLYPH};
use crate::grid::{cage_fits, Point};
use crate::snake::{build_snake, Snake, SnakeView};
use vstd::prelude::*;

verus! {

/// Number of columns of the board that the game is played on.
pub const COLS: u16 = 30;

/// Number of rows of the board that the game is played on.
pub const ROWS: u16 = 20;

/// Time between two ticks, in milliseconds.
pub const TICK_MILLIS: u64 = 100;

/// Longest time that the keyboard is waited on at a stretch, in
/// milliseconds.
pub const POLL_MILLIS: u64 = 500;

/// Number of segments of a snake that has not eaten yet, blank
/// placeholder included.
pub const INITIAL_LENGTH: usize = 4;

/// Whether a game is still being played.
#[derive(Debug, Clone, Copy, PartialEq, Eq)]
pub enum Phase {
    Running,
    GameOver,
}

/// The state of a game between two ticks.
#[derive(Debug)]
pub struct Game {
    pub snake: Snake,
    pub fruit: Point,
    pub cols: u16,
    pub rows: u16,
    pub phase: Phase,
}

/// A game as a mathematical value.
pub ghost struct GameView {
    pub snake: SnakeView,
    pub fruit: Point,
    pub cols: int,
    pub rows: int,
    pub phase: Phase,
}

impl View for Game {
    type V = GameView;

    open spec fn view(&self) -> GameView {
        GameView {
            snake: self.snake@,
            fruit: self.fruit,
            cols: self.cols as int,
            rows: self.rows as int,
            phase: self.phase,
        }
    }
}

/// Whether a game can be played on a board of `cols` columns and `rows`
/// rows: it has room for the fruit, and its dimensions are coordinates that
/// a cell can hold.
pub open spec fn board_fits(cols: int, rows: int) -> bool {
    &&& 10 < cols <= i16::MAX
    &&& 10 < rows <= i16::MAX
}

/// Whether a game can be played on a board of `cols` columns and `rows`
/// rows.
pub fn board_is_playable(cols: u16, rows: u16) -> (ok: bool)
    ensures
        ok == board_fits(cols as int, rows as int),
{
    10 < cols && cols <= 0x7fff && 10 < rows && rows <= 0x7fff
}

impl GameView {
    /// Whether the state is one that a game can be in: the board can be
    /// played on, the snake has never shrunk, and as long as the game is
    /// running the snake is alive.
    pub open spec fn wf(self) -> bool {
        &&& board_fits(self.cols, self.rows)
        &&& self.snake.body.len() >= INITIAL_LENGTH
        &&& self.phase == Phase::Running ==> !self.snake.dead(self.cols, self.rows)
    }

    /// The score: the number of segments that the snake has gained.
    pub open spec fn points(self) -> int {
        self.snake.body.len() - INITIAL_LENGTH
    }

    /// The snake after the player's input of one tick: turned by the key,
    /// or left as it is where no key was pressed.
    pub open spec fn steered(self, key: Option<Key>) -> SnakeView {
        match key {
            Some(key) => self.snake.turned(key),
            None => self.snake,
        }
    }

    /// Whether the snake eats the fruit in a tick with this input.
    pub open spec fn eats(self, key: Option<Key>) -> bool {
        self.phase == Phase::Running && self.steered(key).reaches(self.fruit)
    }

    /// The state after one tick with this input, where `fresh` is the fruit
    /// that replaces an eaten one.
    ///
    /// A game that is over stays as it is. In a running game the snake turns
    /// as the key asks and the rules allow, then moves one cell. If it has
    /// eaten the fruit, `fresh` takes its place. If the move has killed the
    /// snake, the game is over.
    pub open spec fn ticked(self, key: Option<Key>, fresh: Point) -> GameView {
        if self.phase == Phase::GameOver {
            self
        } else {
            let snake = self.steered(key).advanced(self.fruit);
            GameView {
                snake,
                fruit: if self.eats(key) { fresh } else { self.fruit },
                phase: if snake.dead(self.cols, self.rows) { Phase::GameOver } else { Phase::Running },
                ..self
            }
        }
    }
}

/// A board that a game can be played on has room for the fruit, and its
/// border can be built.
pub proof fn lemma_playable_board_fits(cols: u16, rows: u16)
    requires
        board_fits(cols as int, rows as int),
    ensures
        orchard_fits(cols, rows),
        cage_fits(cols, rows),
{
}

/// No tick takes a game out of the states that a game can be in, whatever
/// the player does and wherever the new fruit falls.
pub proof fn lemma_tick_keeps_wf(game: GameView, key: Option<Key>, fresh: Point)
    requires
        game.wf(),
    ensures
        game.ticked(key, fresh).wf(),
{
}

/// The score counts the fruits eaten: a tick in which the snake eats adds
/// one to it, and any other tick leaves it as it is.
pub proof fn lemma_tick_scores_fruit(game: GameView, key: Option<Key>, fresh: Point)
    requires
        game.wf(),
    ensures
        game.eats(key) ==> game.ticked(key, fresh).points() == game.points() + 1,
        !game.eats(key) ==> game.ticked(key, fresh).points() == game.points(),
{
}

/// In a running game that satisfies its invariant, the snake can always
/// take its next step: the cell ahead of its head has coordinates that a
/// cell can hold, whatever the player asks for.
pub proof fn lemma_running_snake_can_step(game: GameView, key: Option<Key>)
    requires
        game.wf(),
        game.phase == Phase::Running,
    ensures
        game.steered(key).wf(),
        game.steered(key).step_fits(),
{
}

impl Game {
    /// Starts a game on a board of `cols` columns and `rows` rows, with a
    /// fresh snake and a fruit placed at random.
    pub fn new(cols: u16, rows: u16) -> (game: Game)
        requires
            board_fits(cols as int, rows as int),
        ensures
            game@.wf(),
            game@.cols == cols,
            game@.rows == rows,
            game@.phase == Phase::Running,
            game@.snake == SnakeView::fresh(),
            in_orchard(game@.fruit, cols as int, rows as int),
            game@.fruit.char == FRUIT_GLYPH,
            game@.points() == 0,
    {
        Game {
            snake: build_snake(),
            fruit: build_fruit(cols, rows),
            cols,
            rows,
            phase: Phase::Running,
        }
    }

    /// Whether the state is one that a game can be in.
    pub fn is_consistent(&self) -> (ok: bool)
        ensures
            ok == self@.wf(),
    {
        if !board_is_playable(self.cols, self.rows) {
            return false;
        }
        if self.snake.body.len() < INITIAL_LENGTH {
            return false;
        }
        match self.phase {
            Phase::Running => !self.snake.is_dead(self.cols as i16, self.rows as i16),
            Phase::GameOver => true,
        }
    }

    /// The score: the number of segments that the snake has gained, which is
    /// the number of fruits it has eaten.
    pub fn score(&self) -> (score: usize)
        requires
            self@.snake.body.len() >= INITIAL_LENGTH,
        ensures
            score == self@.points(),
    {
        self.snake.body.len() - INITIAL_LENGTH
    }

    /// Plays one tick and returns the phase that the game is in after it.
    /// `key` is the key that the player pressed since the last tick, if any.
    ///
    /// The new state is the old one ticked, with the fruit that is on the
    /// board afterwards as the replacement of an eaten one. That fruit is
    /// placed at random: all that is known of it is that it keeps clear of
    /// the edges of the board.
    pub fn tick(&mut self, key: Option<Key>) -> (phase: Phase)
        requires
            old(self)@.wf(),
        ensures
            final(self)@ == old(self)@.ticked(key, final(self)@.fruit),
            old(self)@.eats(key) ==> in_orchard(
                final(self)@.fruit,
                old(self)@.cols,
                old(self)@.rows,
            ) && final(self)@.fruit.char == FRUIT_GLYPH,
            final(self)@.wf(),
            phase == final(self)@.phase,
    {
        match self.phase {
            Phase::GameOver => {
                return Phase::GameOver;
            },
            Phase::Running => {},
        }
        match key {
            Some(key) => {
                self.snake.set_direction(key);
            },
            None => {},
        }
        if self.snake.move_snake(&self.fruit) {
            self.fruit = build_fruit(self.cols, self.rows);
        }
        if self.snake.is_dead(self.cols as i16, self.rows as i16) {
            self.phase = Phase::GameOver;
        }
        self.phase
    }
}

} // verus!
