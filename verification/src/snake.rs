//! The snake: its body, its heading, and the rules by which it turns,
//! advances, grows and dies.

use crate::direction::{
    Direction, Key, DIRECTION_DOWN, DIRECTION_LEFT, DIRECTION_NONE, DIRECTION_RIGHT, DIRECTION_UP,
};
use crate::grid::Point;
use vstd::prelude::*;

verus! {

/// Glyph of a visible segment of the snake.
pub const BODY_GLYPH: char = 'O';

/// Glyph of a segment that is not drawn: the placeholder at the end of a
/// fresh snake, and the segment right behind the head after a step that
/// does not eat.
pub const BLANK_GLYPH: char = ' ';

/// The snake: its segments from head to tail, and its heading.
#[derive(Debug)]
pub struct Snake {
    pub body: Vec<Point>,
    pub direction: Direction,
}

/// The snake as a mathematical value: the sequence of its segments, head
/// first, and its heading.
pub ghost struct SnakeView {
    pub body: Seq<Point>,
    pub direction: Direction,
}

impl View for Snake {
    type V = SnakeView;

    open spec fn view(&self) -> SnakeView {
        SnakeView { body: self.body@, direction: self.direction }
    }
}

/// The segments `cells` with the glyph of the first one cleared. Every
/// position stays, and so does the glyph of every later segment.
pub open spec fn with_blank_front(cells: Seq<Point>) -> Seq<Point> {
    if cells.len() == 0 {
        cells
    } else {
        cells.update(0, Point { char: BLANK_GLYPH, ..cells.first() })
    }
}

impl SnakeView {
    /// The snake that a game starts with: three visible segments in column
    /// 1 with the head on row 10, followed by a blank placeholder, heading
    /// up.
    pub open spec fn fresh() -> SnakeView {
        SnakeView {
            body: seq![
                Point { x: 1, y: 10, char: BODY_GLYPH },
                Point { x: 1, y: 11, char: BODY_GLYPH },
                Point { x: 1, y: 12, char: BODY_GLYPH },
                Point { x: 1, y: 11, char: BLANK_GLYPH },
            ],
            direction: DIRECTION_UP,
        }
    }

    /// Whether the snake has a head.
    pub open spec fn wf(self) -> bool {
        self.body.len() >= 1
    }

    /// The first segment.
    pub open spec fn head(self) -> Point {
        self.body[0]
    }

    /// Whether the head lies outside the board of `cols` columns and `rows`
    /// rows.
    pub open spec fn hits_wall(self, cols: int, rows: int) -> bool {
        !self.head().on_board(cols, rows)
    }

    /// Whether the head shares its position with a later segment.
    pub open spec fn bites_itself(self) -> bool {
        exists|i: int| 1 <= i < self.body.len() && (#[trigger] self.body[i]).same_place(self.head())
    }

    /// Whether the snake is dead on a board of `cols` columns and `rows`
    /// rows: its head has left the board or has run into its own body.
    pub open spec fn dead(self, cols: int, rows: int) -> bool {
        self.hits_wall(cols, rows) || self.bites_itself()
    }

    /// The snake after `key` was pressed: the same body, and the heading
    /// that the key leaves it with.
    pub open spec fn turned(self, key: Key) -> SnakeView {
        SnakeView { direction: self.direction.turned(key.direction()), ..self }
    }

    /// Whether the cell one step ahead of the head has coordinates that a
    /// cell can hold.
    pub open spec fn step_fits(self) -> bool {
        &&& i16::MIN <= self.head().x + self.direction.dx() <= i16::MAX
        &&& i16::MIN <= self.head().y + self.direction.dy() <= i16::MAX
    }

    /// The cell one step ahead of the head, as a visible segment.
    pub open spec fn next_head(self) -> Point {
        Point {
            x: (self.head().x + self.direction.dx()) as i16,
            y: (self.head().y + self.direction.dy()) as i16,
            char: BODY_GLYPH,
        }
    }

    /// Whether the snake reaches `fruit` with its next step.
    pub open spec fn reaches(self, fruit: Point) -> bool {
        self.next_head().same_place(fruit)
    }

    /// The snake after one step along its heading. The cell ahead of the
    /// head becomes the new head. Where it holds the fruit, every segment
    /// stays as it is and the snake is one longer. Otherwise the last
    /// segment is dropped, and the segment right behind the new head, which
    /// was the head before the step, has its glyph cleared; a snake of one
    /// segment has none behind its new head, and nothing is cleared.
    pub open spec fn advanced(self, fruit: Point) -> SnakeView {
        SnakeView {
            body: if self.reaches(fruit) {
                seq![self.next_head()] + self.body
            } else {
                seq![self.next_head()] + with_blank_front(self.body.drop_last())
            },
            ..self
        }
    }
}

/// A step changes the length of the snake by what it eats: by one where it
/// reaches the fruit, and not at all where it does not.
pub proof fn lemma_advance_length(snake: SnakeView, fruit: Point)
    requires
        snake.wf(),
    ensures
        snake.reaches(fruit) ==> snake.advanced(fruit).body.len() == snake.body.len() + 1,
        !snake.reaches(fruit) ==> snake.advanced(fruit).body.len() == snake.body.len(),
{
}

/// A fresh snake is alive on every board of at least 20 columns and 20
/// rows.
pub proof fn lemma_fresh_snake_alive(cols: int, rows: int)
    requires
        cols >= 20,
        rows >= 20,
    ensures
        !SnakeView::fresh().dead(cols, rows),
{
}

/// Builds the snake that a game starts with.
pub fn build_snake() -> (snake: Snake)
    ensures
        snake@ == SnakeView::fresh(),
{
    Snake {
        body: vec![
            Point { x: 1, y: 10, char: BODY_GLYPH },
            Point { x: 1, y: 11, char: BODY_GLYPH },
            Point { x: 1, y: 12, char: BODY_GLYPH },
            Point { x: 1, y: 11, char: BLANK_GLYPH },
        ],
        direction: DIRECTION_UP,
    }
}

impl Snake {
    /// Whether the snake is dead on a board of `cols` columns and `rows`
    /// rows: its head lies outside the board, or on another of its segments.
    pub fn is_dead(&self, cols: i16, rows: i16) -> (is_dead: bool)
        requires
            self@.wf(),
        ensures
            is_dead == self@.dead(cols as int, rows as int),
    {
        let head = &self.body[0];
        if head.x >= cols || head.y >= rows || head.x < 0 || head.y < 0 {
            return true;
        }
        let mut b: usize = 1;
        while b < self.body.len()
            invariant
                1 <= b,
                *head == self@.head(),
                forall|i: int|
                    1 <= i < b && i < self.body@.len() ==> !(#[trigger] self@.body[i]).same_place(
                        self@.head(),
                    ),
            decreases self.body.len() - b,
        {
            if self.body[b].x == head.x && self.body[b].y == head.y {
                return true;
            }
            b += 1;
        }
        false
    }

    /// Asks the snake to head where `key` points. A key that is no arrow is
    /// ignored, and so is an arrow along the axis on which the snake is
    /// moving: the snake never turns around on the spot.
    pub fn set_direction(&mut self, key: Key)
        ensures
            final(self)@ == old(self)@.turned(key),
            !final(self)@.direction.reverses(old(self)@.direction),
    {
        let direction = self.match_direction(key);
        if direction == DIRECTION_NONE {
            return ;
        }
        if self.direction.x() == 0 && self.direction.x() != direction.x() {
            self.direction = direction;
        } else if self.direction.y() == 0 && self.direction.y() != direction.y() {
            self.direction = direction;
        }
    }

    /// The heading that `key` asks for; none for a key that is no arrow.
    /// The snake is left as it is.
    pub fn match_direction(&mut self, key: Key) -> (direction: Direction)
        ensures
            direction == key.direction(),
            *final(self) == *old(self),
    {
        match key {
            Key::Up => DIRECTION_UP,
            Key::Down => DIRECTION_DOWN,
            Key::Left => DIRECTION_LEFT,
            Key::Right => DIRECTION_RIGHT,
            _ => DIRECTION_NONE,
        }
    }

    /// Moves the snake one cell along its heading and tells whether it has
    /// eaten the fruit, which it does when its new head lands on it. A snake
    /// that eats grows by one segment. One that does not keeps its length,
    /// and the segment right behind its new head has its glyph cleared.
    pub fn move_snake(&mut self, fruit: &Point) -> (eaten: bool)
        requires
            old(self)@.wf(),
            old(self)@.step_fits(),
        ensures
            eaten == old(self)@.reaches(*fruit),
            final(self)@ == old(self)@.advanced(*fruit),
            eaten ==> final(self)@.body.len() == old(self)@.body.len() + 1,
            !eaten ==> final(self)@.body.len() == old(self)@.body.len(),
    {
        let head = &self.body[0];
        let new_head = Point {
            x: head.x + (self.direction.x() as i16),
            y: head.y + (self.direction.y() as i16),
            char: BODY_GLYPH,
        };
        self.body.insert(0, new_head);
        let eat = self.eat(fruit);
        if !eat {
            self.body.pop();
            let len: usize = self.body.len();
            if len >= 2 {
                self.body[1].char = BLANK_GLYPH;
            }
        }
        assert(self@.body =~= old(self)@.advanced(*fruit).body);
        eat
    }

    /// Whether the head of the snake lies on the fruit.
    pub fn eat(&self, fruit: &Point) -> (on_fruit: bool)
        requires
            self@.wf(),
        ensures
            on_fruit == self@.head().same_place(*fruit),
    {
        let head = &self.body[0];
        head.y == fruit.y && head.x == fruit.x
    }
}

} // verus!
