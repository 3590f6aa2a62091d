//! The game: snake, food and the terminal state, advanced one tick at a time.

use crate::direction::{Direction, InputKey};
use crate::food::Food;
use crate::grid::{GridPosition, GRID_HEIGHT, GRID_WIDTH};
use crate::rng::Rng;
use crate::snake::{lemma_step_cells_distinct, Ate, Snake, SnakeView};
use vstd::prelude::*;

verus! {

/// The game as the rules see it.
pub struct GameView {
    pub snake: SnakeView,
    /// The cell of the food.
    pub food: GridPosition,
    /// Whether the snake has bitten itself. From then on ticks change nothing.
    pub game_over: bool,
    /// The generator that the next food position is drawn from.
    pub rng: Rng,
}

impl GameView {
    /// Whether the next tick eats the food, which the host may mark with a
    /// sound.
    pub open spec fn eats_next(self, width: i16, height: i16) -> bool {
        !self.game_over && self.snake.outcome(self.food, width, height) == Some(Ate::Food)
    }

    /// The game after one tick. A game that is over stays as it is. Otherwise
    /// the snake takes its step. Eating the food moves the food to the next
    /// cell that the generator draws; on any other tick food and generator
    /// stay. Biting itself ends the game.
    pub open spec fn tick(self, width: i16, height: i16) -> GameView {
        if self.game_over {
            self
        } else {
            let snake = self.snake.step(self.food, width, height);
            let eaten = snake.ate == Some(Ate::Food);
            GameView {
                snake,
                food: if eaten {
                    GridPosition::drawn_by(self.rng, width, height)
                } else {
                    self.food
                },
                game_over: snake.ate == Some(Ate::Itself),
                rng: if eaten {
                    GridPosition::rng_after(self.rng, width, height)
                } else {
                    self.rng
                },
            }
        }
    }

    /// The game after a number of ticks, one after the other.
    pub open spec fn run(self, ticks: nat, width: i16, height: i16) -> GameView
        decreases ticks,
    {
        if ticks == 0 {
            self
        } else {
            self.run((ticks - 1) as nat, width, height).tick(width, height)
        }
    }

    /// On how many of the next `ticks` ticks the snake eats the food.
    pub open spec fn eaten_in(self, ticks: nat, width: i16, height: i16) -> nat
        decreases ticks,
    {
        if ticks == 0 {
            0
        } else {
            self.eaten_in((ticks - 1) as nat, width, height) + if self.run(
                (ticks - 1) as nat,
                width,
                height,
            ).eats_next(width, height) {
                1nat
            } else {
                0nat
            }
        }
    }

    /// The game after a request to move in `requested`. The request goes to
    /// the snake whether or not the game is over.
    pub open spec fn steer(self, requested: Direction) -> GameView {
        GameView { snake: self.snake.steer(requested), ..self }
    }

    /// The game after a key press: a direction key is a request to move in
    /// its direction, and any other key, or none, changes nothing.
    pub open spec fn press(self, key: Option<InputKey>) -> GameView {
        match key {
            Some(k) => match Direction::of_key(k) {
                Some(d) => self.steer(d),
                None => self,
            },
            None => self,
        }
    }

    /// Whether the game can take a tick: the snake lies on the grid and the
    /// generator can be drawn from.
    pub open spec fn playable(self, width: int, height: int) -> bool {
        self.snake.on_grid(width, height) && self.rng.valid()
    }

    /// What holds of every game in play, besides that it is playable. The
    /// game is over exactly when the last tick made the snake bite itself,
    /// and until then no two cells of the snake coincide.
    pub open spec fn valid(self, width: int, height: int) -> bool {
        &&& self.playable(width, height)
        &&& self.game_over == (self.snake.ate == Some(Ate::Itself))
        &&& !self.game_over ==> self.snake.cells().no_duplicates()
    }
}

/// The cell in which the snake's head starts: a quarter of the way across the
/// field and half the way down.
pub open spec fn start_cell() -> GridPosition {
    GridPosition { x: 7, y: 10 }
}

/// Ticks per second that the host is to aim for.
pub const DESIRED_FPS: u32 = 8;

/// What a renderer needs to know of the game at one moment.
pub struct Snapshot {
    pub head: GridPosition,
    /// The cells of the body, nearest to the head first.
    pub body: Vec<GridPosition>,
    pub food: GridPosition,
    pub game_over: bool,
}

/// The game with its generator of food positions.
pub struct GameState {
    pub snake: Snake,
    pub food: Food,
    pub gameover: bool,
    pub rng: Rng,
}

impl View for GameState {
    type V = GameView;

    open spec fn view(&self) -> GameView {
        GameView {
            snake: self.snake@,
            food: self.food.pos,
            game_over: self.gameover,
            rng: self.rng,
        }
    }
}

impl GameState {
    /// Whether the game can take a tick.
    pub open spec fn playable(&self) -> bool {
        self@.playable(GRID_WIDTH as int, GRID_HEIGHT as int)
    }

    /// Whether the game is in a state that play can reach: it is valid and
    /// the food lies on the playing field.
    pub open spec fn wf(&self) -> bool {
        self@.valid(GRID_WIDTH as int, GRID_HEIGHT as int) && self@.food.in_grid(
            GRID_WIDTH as int,
            GRID_HEIGHT as int,
        )
    }

    /// A new game whose food positions are drawn from the generator that
    /// belongs to `seed`. The snake is at its start, the game is not over, and
    /// the food lies on the first cell that the generator draws.
    pub fn new(seed: u64) -> (g: GameState)
        ensures
            g@.snake == SnakeView::start(start_cell(), GRID_WIDTH, GRID_HEIGHT),
            g@.food == GridPosition::drawn_by(Rng::seeded(seed), GRID_WIDTH, GRID_HEIGHT),
            g@.rng == GridPosition::rng_after(Rng::seeded(seed), GRID_WIDTH, GRID_HEIGHT),
            !g@.game_over,
            g.playable(),
            g.wf(),
    {
        let snake_pos = GridPosition::new(GRID_WIDTH / 4, GRID_HEIGHT / 2);
        let mut rng = Rng::new(seed);
        let food_pos = GridPosition::random(&mut rng, GRID_WIDTH, GRID_HEIGHT);
        let g = GameState {
            snake: Snake::new(snake_pos),
            food: Food::new(food_pos),
            gameover: false,
            rng,
        };
        assert(g@.snake.cells()[0] != g@.snake.cells()[1]);
        g
    }

    /// Tells whether the game can take a tick, which `tick` and `update` ask
    /// of it.
    pub fn is_playable(&self) -> (r: bool)
        ensures
            r == self.playable(),
    {
        self.snake.fits_grid() && self.rng.is_valid()
    }

    /// Advances the game by one tick and says whether the snake ate the food
    /// on it. When it did, the food has moved to the next cell that the
    /// generator draws from the whole grid; on any other tick the generator is
    /// left alone. When the game is over, nothing changes.
    pub fn tick(&mut self) -> (food_eaten: bool)
        requires
            old(self).playable(),
        ensures
            final(self)@ == old(self)@.tick(GRID_WIDTH, GRID_HEIGHT),
            food_eaten == old(self)@.eats_next(GRID_WIDTH, GRID_HEIGHT),
            final(self).playable(),
            old(self).wf() ==> final(self).wf(),
    {
        if self.gameover {
            return false;
        }
        proof {
            if self.wf() {
                lemma_step_cells_distinct(self@.snake, self@.food, GRID_WIDTH, GRID_HEIGHT);
            }
        }
        match self.snake.update(&self.food) {
            Some(Ate::Food) => {
                self.food.respawn(&mut self.rng, GRID_WIDTH, GRID_HEIGHT);
                true
            },
            Some(Ate::Itself) => {
                self.gameover = true;
                false
            },
            None => false,
        }
    }

    /// Advances the game by the ticks that are owed, each one whole and in
    /// order, and returns on how many of them the snake ate the food. A game
    /// that is over is left as it is.
    pub fn update(&mut self, owed: u32) -> (eaten: u32)
        requires
            old(self).playable(),
        ensures
            final(self)@ == old(self)@.run(owed as nat, GRID_WIDTH, GRID_HEIGHT),
            eaten == old(self)@.eaten_in(owed as nat, GRID_WIDTH, GRID_HEIGHT),
            old(self)@.game_over ==> final(self)@ == old(self)@ && eaten == 0,
            final(self).playable(),
            old(self).wf() ==> final(self).wf(),
    {
        let ghost start = self@;
        let ghost start_wf = self.wf();
        let mut done: u32 = 0;
        let mut eaten: u32 = 0;
        while done < owed
            invariant
                done <= owed,
                eaten <= done,
                self@ == start.run(done as nat, GRID_WIDTH, GRID_HEIGHT),
                eaten == start.eaten_in(done as nat, GRID_WIDTH, GRID_HEIGHT),
                self.playable(),
                start_wf ==> self.wf(),
            decreases owed - done,
        {
            if self.tick() {
                eaten += 1;
            }
            done += 1;
        }
        proof {
            if start.game_over {
                lemma_game_over_is_final(start, owed as nat, GRID_WIDTH, GRID_HEIGHT);
            }
        }
        eaten
    }

    /// The state of the game for a renderer.
    pub fn render_snapshot(&self) -> (shot: Snapshot)
        ensures
            shot.head == self@.snake.head,
            shot.body@ == self@.snake.body,
            shot.food == self@.food,
            shot.game_over == self@.game_over,
    {
        Snapshot {
            head: self.snake.head.pos,
            body: self.snake.body_positions(),
            food: self.food.pos,
            game_over: self.gameover,
        }
    }

    /// Takes a request to move in `requested`. It reaches the snake also when
    /// the game is over; it then has no visible effect, as no tick follows.
    pub fn handle_direction_input(&mut self, requested: Direction)
        ensures
            final(self)@ == old(self)@.steer(requested),
            old(self).playable() ==> final(self).playable(),
            old(self).wf() ==> final(self).wf(),
    {
        self.snake.handle_direction_input(requested);
    }

    /// Takes a key press, if the event carried a key: a direction key is a
    /// request to move, any other key is ignored.
    pub fn key_down_event(&mut self, key: Option<InputKey>)
        ensures
            final(self)@ == old(self)@.press(key),
            old(self).playable() ==> final(self).playable(),
            old(self).wf() ==> final(self).wf(),
    {
        if let Some(k) = key {
            if let Some(dir) = Direction::from_keycode(k) {
                self.handle_direction_input(dir);
            }
        }
    }
}

/// Once the game is over, ticks change nothing, however many are taken:
/// snake, food, generator and the terminal flag stay, and nothing is eaten.
pub proof fn lemma_game_over_is_final(g: GameView, ticks: nat, width: i16, height: i16)
    requires
        g.game_over,
    ensures
        g.tick(width, height) == g,
        g.run(ticks, width, height) == g,
        g.eaten_in(ticks, width, height) == 0,
    decreases ticks,
{
    if ticks > 0 {
        lemma_game_over_is_final(g, (ticks - 1) as nat, width, height);
    }
}

/// A tick on which the snake eats moves the food to the cell that the
/// generator draws, advances the generator, and leaves the game in play; on
/// any other tick food and generator stay as they are.
pub proof fn lemma_food_moves_when_eaten(g: GameView, width: i16, height: i16)
    requires
        !g.game_over,
    ensures
        g.eats_next(width, height) ==> g.tick(width, height).food == GridPosition::drawn_by(
            g.rng,
            width,
            height,
        ) && g.tick(width, height).rng == GridPosition::rng_after(g.rng, width, height) && !g.tick(
            width,
            height,
        ).game_over,
        !g.eats_next(width, height) ==> g.tick(width, height).food == g.food && g.tick(
            width,
            height,
        ).rng == g.rng,
        g.tick(width, height).snake == g.snake.step(g.food, width, height),
{
}

/// The game ends on the tick on which the head enters a cell of the snake,
/// and on no other.
pub proof fn lemma_game_ends_on_self_contact(g: GameView, width: i16, height: i16)
    requires
        !g.game_over,
    ensures
        g.tick(width, height).game_over == g.snake.cells().contains(
            g.snake.next_head(width, height),
        ),
{
}

/// A tick keeps a game valid.
pub proof fn lemma_tick_keeps_valid(g: GameView, width: i16, height: i16)
    requires
        width > 0,
        height > 0,
        g.valid(width as int, height as int),
    ensures
        g.tick(width, height).valid(width as int, height as int),
{
    if !g.game_over {
        lemma_step_cells_distinct(g.snake, g.food, width, height);
        let t = g.snake.step(g.food, width, height);
        assert(g.snake.cells()[0].in_grid(width as int, height as int));
        assert forall|i: int| 0 <= i < t.cells().len() implies (#[trigger] t.cells()[i]).in_grid(
            width as int,
            height as int,
        ) by {
            if i > 0 {
                assert(t.cells()[i] == g.snake.cells()[i - 1]);
            }
        }
    }
}

/// Any number of ticks keeps a game valid.
pub proof fn lemma_run_keeps_valid(g: GameView, ticks: nat, width: i16, height: i16)
    requires
        width > 0,
        height > 0,
        g.valid(width as int, height as int),
    ensures
        g.run(ticks, width, height).valid(width as int, height as int),
    decreases ticks,
{
    if ticks > 0 {
        lemma_run_keeps_valid(g, (ticks - 1) as nat, width, height);
        lemma_tick_keeps_valid(g.run((ticks - 1) as nat, width, height), width, height);
    }
}

/// A request to change direction keeps a game valid.
pub proof fn lemma_steer_keeps_valid(g: GameView, requested: Direction, width: int, height: int)
    requires
        g.valid(width, height),
    ensures
        g.steer(requested).valid(width, height),
{
    assert(g.steer(requested).snake.cells() == g.snake.cells());
}

} // verus!
