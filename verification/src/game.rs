//! The simulation controller: owns the agent and a terminal flag, and
//! runs the per-tick procedure of input handling, boundary detection
//! and advancement.

use vstd::prelude::*;
use crate::snake::redirected;
use crate::snake::step_fits;
use crate::snake::walked;
use crate::snake::Segment;
use crate::snake::Snake;
use crate::snake::SnakeDirection;
use crate::snake::SnakeModel;

verus! {

/// The direction selected from the four input queries, with priority
/// Up > Down > Left > Right when several are active at once. Up is
/// asked as "freshly pressed this tick" while the other three are
/// asked as "currently held", a deliberate asymmetry.
pub open spec fn requested_direction(
    up_pressed: bool,
    down_held: bool,
    left_held: bool,
    right_held: bool,
) -> Option<SnakeDirection> {
    if up_pressed {
        Some(SnakeDirection::Up)
    } else if down_held {
        Some(SnakeDirection::Down)
    } else if left_held {
        Some(SnakeDirection::Left)
    } else if right_held {
        Some(SnakeDirection::Right)
    } else {
        None
    }
}

/// The terminal predicate: the run ends when the head's minimum corner
/// reaches the right or bottom edge of the drawing surface, or touches
/// either axis.
pub open spec fn terminal(head: Segment, width: i32, height: i32) -> bool {
    head.x >= width || head.y >= height || head.x == 0 || head.y == 0
}

/// One tick of the simulation: apply the requested heading change, test
/// the terminal predicate against the head, and, only while the run is
/// not over, advance the body. Once over, the body is frozen for good;
/// heading requests are still recorded.
pub open spec fn tick(
    g: GameModel,
    up_pressed: bool,
    down_held: bool,
    left_held: bool,
    right_held: bool,
    width: i32,
    height: i32,
) -> GameModel {
    let direction = match requested_direction(up_pressed, down_held, left_held, right_held) {
        Some(d) => redirected(g.snake.direction, d),
        None => g.snake.direction,
    };
    let over = g.game_over || terminal(g.snake.head(), width, height);
    GameModel {
        snake: SnakeModel {
            direction,
            body: if over {
                g.snake.body
            } else {
                walked(g.snake.body, direction)
            },
        },
        game_over: over,
    }
}

/// Everything one tick is fed from outside: the four input queries and
/// the drawing-surface dimensions.
pub ghost struct TickInput {
    pub up_pressed: bool,
    pub down_held: bool,
    pub left_held: bool,
    pub right_held: bool,
    pub width: i32,
    pub height: i32,
}

/// The simulation after a whole run of ticks, one per entry of `ins`.
pub open spec fn ticks(g: GameModel, ins: Seq<TickInput>) -> GameModel
    decreases ins.len(),
{
    if ins.len() == 0 {
        g
    } else {
        ticks(
            tick(
                g,
                ins.first().up_pressed,
                ins.first().down_held,
                ins.first().left_held,
                ins.first().right_held,
                ins.first().width,
                ins.first().height,
            ),
            ins.drop_first(),
        )
    }
}

/// Terminal freeze: once the run is over, it stays over and no run of
/// further ticks, whatever their inputs, ever moves the body again.
pub proof fn lemma_terminal_freeze(g: GameModel, ins: Seq<TickInput>)
    requires
        g.game_over,
    ensures
        ticks(g, ins).game_over,
        ticks(g, ins).snake.body == g.snake.body,
    decreases ins.len(),
{
    if ins.len() > 0 {
        let g1 = tick(
            g,
            ins.first().up_pressed,
            ins.first().down_held,
            ins.first().left_held,
            ins.first().right_held,
            ins.first().width,
            ins.first().height,
        );
        assert(g1.game_over && g1.snake.body == g.snake.body);
        lemma_terminal_freeze(g1, ins.drop_first());
    }
}

/// Mathematical model of one simulation: the agent and the terminal flag.
#[verifier::ext_equal]
pub ghost struct GameModel {
    pub snake: SnakeModel,
    pub game_over: bool,
}

impl GameModel {
    pub open spec fn wf(self) -> bool {
        self.snake.wf()
    }
}

/// The simulation state: the agent and the terminal flag.
pub struct SnakeGame {
    pub snake: Snake,
    pub game_over: bool,
}

impl View for SnakeGame {
    type V = GameModel;

    open spec fn view(&self) -> GameModel {
        GameModel { snake: self.snake@, game_over: self.game_over }
    }
}

impl SnakeGame {
    /// A fresh simulation: the initial snake, not yet over.
    pub fn new() -> (g: SnakeGame)
        ensures
            g@ == (GameModel { snake: crate::snake::initial_snake(), game_over: false }),
            g@.wf(),
    {
        let snake = Snake::new();
        let game_over = false;
        SnakeGame { snake, game_over }
    }

    /// One tick of the per-tick procedure, fed with the four input
    /// queries and the current drawing-surface dimensions. The result
    /// is exactly `tick` of the previous state.
    pub fn update(
        &mut self,
        up_pressed: bool,
        down_held: bool,
        left_held: bool,
        right_held: bool,
        width: i32,
        height: i32,
    )
        requires
            old(self)@.wf(),
            !(old(self)@.game_over || terminal(old(self)@.snake.head(), width, height))
                ==> step_fits(old(self)@.snake.head().x as int)
                    && step_fits(old(self)@.snake.head().y as int),
        ensures
            final(self)@ == tick(old(self)@, up_pressed, down_held, left_held, right_held, width, height),
            final(self)@.wf(),
    {
        if up_pressed {
            self.snake.change_direction(SnakeDirection::Up);
        } else if down_held {
            self.snake.change_direction(SnakeDirection::Down);
        } else if left_held {
            self.snake.change_direction(SnakeDirection::Left);
        } else if right_held {
            self.snake.change_direction(SnakeDirection::Right);
        }
        let head_idx: usize = self.snake.body.len() - 1;
        let head: Segment = self.snake.body[head_idx];
        if head.x >= width || head.y >= height || head.x == 0 || head.y == 0 {
            self.game_over = true;
        }
        if !self.game_over {
            self.snake.walk();
        }
        proof {
            assert(self@ =~= tick(
                old(self)@,
                up_pressed,
                down_held,
                left_held,
                right_held,
                width,
                height,
            ));
        }
    }
}

} // verus!
