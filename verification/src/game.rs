//! The simulation: one tick composes the snake, the food and the power-ups.

use crate::food::{can_be_rolled, Food};
use crate::grid::{Position, GRID_HEIGHT, GRID_WIDTH};
use crate::power_up::{
    after_power_ups, elapsed, elapsed_spec, run_power_ups, still_active, ActivePowerUp, PowerType,
    PowerUp, TickContext,
};
use crate::snake::{Direction, Snake, SnakeView};
use rand::rngs::ThreadRng;
use vstd::prelude::*;

verus! {

/// How many ticks the simulation makes in a second.
pub const UPDATES_PER_SECOND: u64 = 17;

/// The time from one tick to the next, in whole milliseconds.
pub const MILLIS_PER_UPDATE: u64 = 1000 / UPDATES_PER_SECOND;

/// What the player can ask for.
#[derive(Clone, Copy, Debug, PartialEq, Eq, Structural)]
pub enum Intent {
    MoveLeft,
    MoveRight,
    MoveUp,
    MoveDown,
    Restart,
}

/// One more point, as far as a `u16` holds it.
pub open spec fn one_more(score: u16) -> u16 {
    if score < u16::MAX {
        (score + 1) as u16
    } else {
        u16::MAX
    }
}

/// The food of `food` that lies on `cell`, in its order.
pub open spec fn food_on(food: Seq<Food>, cell: Position) -> Seq<Food> {
    food.filter(|item: Food| item.r == cell)
}

/// The food of `food` that lies elsewhere than on `cell`, in its order.
pub open spec fn food_off(food: Seq<Food>, cell: Position) -> Seq<Food> {
    food.filter(|item: Food| item.r != cell)
}

/// A food item that the simulation may put on the board: it lies on the
/// board, and some roll selects its power-up.
pub open spec fn can_spawn(item: Food) -> bool {
    item.r.on_grid() && can_be_rolled(item.power_type)
}

/// The simulation as plain values. Times are in milliseconds.
pub struct GameView {
    pub snake: SnakeView,
    pub food: Seq<Food>,
    pub active_power_ups: Seq<ActivePowerUp>,
    pub score: u16,
    pub scored: bool,
    pub last_update: u64,
    pub ms_per_update: u64,
}

impl GameView {
    /// The snake has a head, and every segment of it lies on the board.
    pub open spec fn valid(self) -> bool {
        self.snake.valid()
    }

    /// A new game: a fresh snake at `start`, an empty board, no points.
    pub open spec fn initial(start: Position, now: u64) -> GameView {
        GameView {
            snake: SnakeView::fresh(start),
            food: Seq::empty(),
            active_power_ups: Seq::empty(),
            score: 0,
            scored: false,
            last_update: now,
            ms_per_update: MILLIS_PER_UPDATE,
        }
    }

    /// The game after a restart with the new snake at `start`: no points, no
    /// food and no power-up of the game before are left.
    pub open spec fn restarted(self, start: Position) -> GameView {
        GameView {
            snake: SnakeView::fresh(start),
            food: Seq::empty(),
            active_power_ups: Seq::empty(),
            score: 0,
            scored: false,
            ..self
        }
    }

    /// The game after the player has asked for something, where a restart
    /// puts the new snake at `start`.
    pub open spec fn after_intent(self, intent: Intent, start: Position) -> GameView {
        match intent {
            Intent::MoveLeft => GameView { snake: self.snake.request(Direction::Left), ..self },
            Intent::MoveRight => GameView { snake: self.snake.request(Direction::Right), ..self },
            Intent::MoveUp => GameView { snake: self.snake.request(Direction::Up), ..self },
            Intent::MoveDown => GameView { snake: self.snake.request(Direction::Down), ..self },
            Intent::Restart => self.restarted(start),
        }
    }

    /// A tick is due at `now`: the time for one update has passed since the
    /// last tick, and the snake is alive.
    pub open spec fn tick_due(self, now: u64) -> bool {
        elapsed_spec(self.last_update, now) >= self.ms_per_update && self.snake.is_alive
    }

    /// What a power-up sees of the game.
    pub open spec fn context(self) -> TickContext {
        TickContext { score: self.score, scored: self.scored, is_alive: self.snake.is_alive }
    }

    /// The game with what a power-up has made of its context.
    pub open spec fn with_context(self, context: TickContext) -> GameView {
        GameView {
            snake: SnakeView { is_alive: context.is_alive, ..self.snake },
            score: context.score,
            scored: context.scored,
            ..self
        }
    }

    /// The game after the snake has eaten `item` at `now`: the item's
    /// power-up is activated and, unless the food was plain, joins the active
    /// ones; the snake is to grow; the score goes up by one.
    pub open spec fn eat(self, item: Food, now: u64) -> GameView {
        let activated = self.with_context(item.power_type.activated(self.context()));
        GameView {
            snake: activated.snake.request_growth(),
            active_power_ups: if item.power_type != PowerType::NoPower {
                activated.active_power_ups.push(
                    ActivePowerUp { power: item.power_type, added_at: now },
                )
            } else {
                activated.active_power_ups
            },
            score: one_more(activated.score),
            scored: true,
            ..activated
        }
    }

    /// The game after the snake has eaten each of `items`, the first one
    /// first.
    pub open spec fn eat_each(self, items: Seq<Food>, now: u64) -> GameView
        decreases items.len(),
    {
        if items.len() == 0 {
            self
        } else {
            self.eat_each(items.drop_last(), now).eat(items.last(), now)
        }
    }

    /// The game after the pickups of a tick: the snake has eaten the food
    /// under its head, and that food is off the board.
    pub open spec fn collect(self, now: u64) -> GameView {
        let head = self.snake.body[0];
        GameView {
            food: food_off(self.food, head),
            ..self.eat_each(food_on(self.food, head), now)
        }
    }

    /// The game after the snake has moved.
    pub open spec fn advance_snake(self) -> GameView {
        GameView { snake: self.snake.advance(), ..self }
    }

    /// The game after each active power-up has had its tick at `now`, and
    /// those that have run out are gone.
    pub open spec fn run_power_ups(self, now: u64) -> GameView {
        GameView {
            active_power_ups: still_active(self.active_power_ups, now),
            ..self.with_context(after_power_ups(self.active_power_ups, self.context(), now))
        }
    }

    /// The game after the pickups, the move and the power-ups of one tick.
    pub open spec fn settle(self, now: u64) -> GameView {
        self.collect(now).advance_snake().run_power_ups(now)
    }

    /// The game after a call at `now`. Where no tick is due, nothing changes.
    /// Else the tick settles, `spawn` comes onto the board if no food is left
    /// on it, and the time of the tick is kept.
    pub open spec fn tick(self, now: u64, spawn: Food) -> GameView {
        if self.tick_due(now) {
            let settled = self.settle(now);
            GameView {
                food: if settled.food.len() == 0 {
                    seq![spawn]
                } else {
                    settled.food
                },
                scored: false,
                last_update: now,
                ..settled
            }
        } else {
            self
        }
    }
}

/// The simulation: the snake, the food on the board, the power-ups in
/// effect, the score, and the time of the last tick. Only the functions below
/// change it.
pub struct Game {
    snake: Snake,
    food: Vec<Food>,
    last_update: u64,
    ms_per_update: u64,
    score: u16,
    scored: bool,
    rng: ThreadRng,
    active_power_ups: Vec<ActivePowerUp>,
}

impl View for Game {
    type V = GameView;

    closed spec fn view(&self) -> GameView {
        GameView {
            snake: self.snake@,
            food: self.food@,
            active_power_ups: self.active_power_ups@,
            score: self.score,
            scored: self.scored,
            last_update: self.last_update,
            ms_per_update: self.ms_per_update,
        }
    }
}

impl Game {
    /// The snake has a head, and every segment of it lies on the board.
    pub open spec fn wf(&self) -> bool {
        self@.valid()
    }

    /// A new game at time `now`, with the snake at a random position.
    pub fn new(now: u64) -> (game: Self)
        ensures
            game.wf(),
            exists|start: Position| start.on_grid() && game@ == GameView::initial(start, now),
    {
        let mut rng = rand::thread_rng();

        let snake_start = Position::random(&mut rng, GRID_WIDTH, GRID_HEIGHT);

        let game = Game {
            snake: Snake::new(snake_start),
            food: Vec::new(),
            last_update: now,
            ms_per_update: MILLIS_PER_UPDATE,
            score: 0,
            scored: false,
            rng,
            active_power_ups: Vec::new(),
        };
        assert(game@ == GameView::initial(snake_start, now));
        game
    }

    /// A game in a given state, with the last tick at `last_update`.
    pub fn with_state(
        snake: Snake,
        food: Vec<Food>,
        active_power_ups: Vec<ActivePowerUp>,
        score: u16,
        last_update: u64,
    ) -> (game: Self)
        requires
            snake.wf(),
        ensures
            game.wf(),
            game@ == (GameView {
                snake: snake@,
                food: food@,
                active_power_ups: active_power_ups@,
                score,
                scored: false,
                last_update,
                ms_per_update: MILLIS_PER_UPDATE,
            }),
    {
        Game {
            snake,
            food,
            last_update,
            ms_per_update: MILLIS_PER_UPDATE,
            score,
            scored: false,
            rng: rand::thread_rng(),
            active_power_ups,
        }
    }

    /// The snake.
    pub fn snake(&self) -> (snake: &Snake)
        ensures
            snake@ == self@.snake,
    {
        &self.snake
    }

    /// The food on the board.
    pub fn food(&self) -> (food: &Vec<Food>)
        ensures
            food@ == self@.food,
    {
        &self.food
    }

    /// The power-ups in effect, the oldest first.
    pub fn active_power_ups(&self) -> (active: &Vec<ActivePowerUp>)
        ensures
            active@ == self@.active_power_ups,
    {
        &self.active_power_ups
    }

    /// The cumulative score.
    pub fn score(&self) -> (score: u16)
        ensures
            score == self@.score,
    {
        self.score
    }

    /// The time of the last tick.
    pub fn last_update(&self) -> (time: u64)
        ensures
            time == self@.last_update,
    {
        self.last_update
    }

    /// Starts over with a snake at `start`.
    pub fn restart_at(&mut self, start: Position)
        requires
            start.on_grid(),
        ensures
            final(self).wf(),
            final(self)@ == old(self)@.restarted(start),
    {
        self.score = 0;
        self.scored = false;
        self.food = Vec::new();
        self.active_power_ups = Vec::new();
        self.snake = Snake::new(start);
    }

    /// Starts over with a snake at a random position.
    pub fn restart(&mut self)
        ensures
            final(self).wf(),
            exists|start: Position| start.on_grid() && final(self)@ == old(self)@.restarted(start),
    {
        let r = Position::random(&mut self.rng, GRID_WIDTH, GRID_HEIGHT);
        self.restart_at(r);
        assert(r.on_grid() && self@ == old(self)@.restarted(r));
    }

    /// Puts one new food item on the board, at a random position and with a
    /// freshly rolled power-up. The cell may be taken already.
    pub fn create_new_food(&mut self)
        ensures
            final(self).wf() == old(self).wf(),
            exists|item: Food|
                can_spawn(item) && final(self)@ == (GameView {
                    food: old(self)@.food.push(item),
                    ..old(self)@
                }),
    {
        let r = Position::random(&mut self.rng, GRID_WIDTH, GRID_HEIGHT);
        let p = Food::random_power(&mut self.rng);

        let f = Food::at_random_position(r, p, &mut self.rng);
        self.food.push(f);
        assert(can_spawn(f));
        assert(self@ == (GameView { food: old(self)@.food.push(f), ..old(self)@ }));
    }

    /// Takes up what the player has asked for: a move is queued for the
    /// snake, a restart starts the game over.
    pub fn handle_intent(&mut self, intent: Intent)
        requires
            old(self).wf(),
        ensures
            final(self).wf(),
            exists|start: Position|
                start.on_grid() && final(self)@ == old(self)@.after_intent(intent, start),
    {
        let ghost anywhere = Position { x: 0, y: 0 };
        assert(anywhere.on_grid());
        match intent {
            Intent::MoveLeft => {
                self.snake.set_direction(Direction::Left);
                assert(self@ == old(self)@.after_intent(intent, anywhere));
            },
            Intent::MoveRight => {
                self.snake.set_direction(Direction::Right);
                assert(self@ == old(self)@.after_intent(intent, anywhere));
            },
            Intent::MoveDown => {
                self.snake.set_direction(Direction::Down);
                assert(self@ == old(self)@.after_intent(intent, anywhere));
            },
            Intent::MoveUp => {
                self.snake.set_direction(Direction::Up);
                assert(self@ == old(self)@.after_intent(intent, anywhere));
            },
            Intent::Restart => {
                self.restart();
                proof {
                    let start = choose|start: Position|
                        start.on_grid() && self@ == old(self)@.restarted(start);
                    assert(start.on_grid() && self@ == old(self)@.after_intent(intent, start));
                }
            },
        }
    }

    /// What a power-up sees of the game.
    fn context(&self) -> (context: TickContext)
        ensures
            context == self@.context(),
    {
        TickContext { score: self.score, scored: self.scored, is_alive: self.snake.is_alive() }
    }

    /// Takes over what a power-up has made of its context.
    fn set_context(&mut self, context: TickContext)
        ensures
            final(self)@ == old(self)@.with_context(context),
    {
        self.score = context.score;
        self.scored = context.scored;
        self.snake.set_alive(context.is_alive);
    }

    /// The snake eats `item`.
    fn eat(&mut self, item: Food, now: u64)
        ensures
            final(self)@ == old(self)@.eat(item, now),
    {
        let mut context = self.context();
        item.power_type.on_activation(&mut context);
        self.set_context(context);

        if item.power_type != PowerType::NoPower {
            self.active_power_ups.push(ActivePowerUp { power: item.power_type, added_at: now });
        }
        self.snake.grow();
        self.score = self.score.saturating_add(1);
        self.scored = true;
    }

    /// The pickups of a tick: the snake eats the food under its head.
    fn collect(&mut self, now: u64)
        requires
            old(self).wf(),
        ensures
            final(self).wf(),
            final(self)@ == old(self)@.collect(now),
    {
        let ghost head = self@.snake.body[0];
        let ghost on_head = |item: Food| item.r == head;
        let ghost off_head = |item: Food| item.r != head;
        let mut kept: Vec<Food> = Vec::new();
        let mut i: usize = 0;
        proof {
            reveal(Seq::filter);
            assert(self@.food.take(0) =~= Seq::empty());
        }
        while i < self.food.len()
            invariant
                i <= self.food@.len(),
                self@.food == old(self)@.food,
                self@.snake.body == old(self)@.snake.body,
                head == old(self)@.snake.body[0],
                old(self)@.valid(),
                on_head == |item: Food| item.r == head,
                off_head == |item: Food| item.r != head,
                kept@ == old(self)@.food.take(i as int).filter(off_head),
                self@ == old(self)@.eat_each(old(self)@.food.take(i as int).filter(on_head), now),
            decreases self.food@.len() - i,
        {
            let item = self.food[i];
            proof {
                let upto = old(self)@.food.take(i + 1);
                assert(upto.drop_last() =~= old(self)@.food.take(i as int));
                assert(upto.last() == item);
                reveal(Seq::filter);
                if item.r == head {
                    assert(upto.filter(on_head).drop_last() =~= old(self)@.food.take(
                        i as int,
                    ).filter(on_head));
                }
            }
            if self.snake.check_collison(&item.r) {
                self.eat(item, now);
            } else {
                kept.push(item);
            }
            i += 1;
        }
        assert(old(self)@.food.take(i as int) =~= old(self)@.food);
        self.food = kept;
    }

    /// The pickups, the move and the power-ups of one tick.
    fn settle(&mut self, now: u64)
        requires
            old(self).wf(),
        ensures
            final(self).wf(),
            final(self)@ == old(self)@.settle(now),
    {
        self.collect(now);

        self.snake.update();

        let mut context = self.context();
        run_power_ups(&mut self.active_power_ups, &mut context, now);
        self.set_context(context);
    }

    /// Whether a tick is due at `now`.
    pub fn tick_due(&self, now: u64) -> (due: bool)
        ensures
            due == self@.tick_due(now),
    {
        elapsed(self.last_update, now) >= self.ms_per_update && self.snake.is_alive()
    }

    /// One call of the simulation at time `now`, with the food item that
    /// comes onto the board if the tick leaves none on it.
    pub fn update_with(&mut self, now: u64, spawn: Food)
        requires
            old(self).wf(),
        ensures
            final(self).wf(),
            final(self)@ == old(self)@.tick(now, spawn),
    {
        if self.tick_due(now) {
            self.settle(now);

            if self.food.len() == 0 {
                self.food.push(spawn);
                assert(self.food@ =~= seq![spawn]);
            }
            self.scored = false;
            self.last_update = now;
        }
    }

    /// One call of the simulation at time `now`. Where the tick leaves no
    /// food on the board, one item comes onto it, at a random position and
    /// with a freshly rolled power-up.
    pub fn update(&mut self, now: u64)
        requires
            old(self).wf(),
        ensures
            final(self).wf(),
            exists|spawn: Food| can_spawn(spawn) && final(self)@ == old(self)@.tick(now, spawn),
            !old(self)@.tick_due(now) ==> final(self)@ == old(self)@,
            old(self)@.tick_due(now) ==> final(self)@.food.len() >= 1,
    {
        let ghost mut spawn = Food { r: Position { x: 0, y: 0 }, power_type: PowerType::NoPower };
        if self.tick_due(now) {
            self.settle(now);

            if self.food.len() == 0 {
                self.create_new_food();
                proof {
                    spawn = self@.food.last();
                    assert(self@.food =~= seq![spawn]);
                }
            }
            self.scored = false;
            self.last_update = now;
        }
        proof {
            crate::food::lemma_can_be_rolled(spawn.power_type);
            assert(can_spawn(spawn));
            assert(self@ == old(self)@.tick(now, spawn));
        }
    }
}

/// Eating changes neither where the snake is nor where it heads, leaves the
/// board and the clock alone, and keeps the power-ups that were active, in
/// their places. Each item eaten queues one growth and gives one point, as
/// far as a `u16` holds the score.
pub proof fn lemma_eat_each(game: GameView, items: Seq<Food>, now: u64)
    ensures
        game.eat_each(items, now).snake == (SnakeView {
            queued_grows: game.snake.queued_grows + items.len(),
            ..game.snake
        }),
        game.eat_each(items, now).food == game.food,
        game.eat_each(items, now).last_update == game.last_update,
        game.eat_each(items, now).ms_per_update == game.ms_per_update,
        game.eat_each(items, now).scored == (game.scored || items.len() > 0),
        game.eat_each(items, now).score == if game.score + items.len() <= u16::MAX {
            (game.score + items.len()) as u16
        } else {
            u16::MAX
        },
        game.eat_each(items, now).active_power_ups.len() >= game.active_power_ups.len(),
        forall|i: int|
            0 <= i < game.active_power_ups.len() ==> game.eat_each(items, now).active_power_ups[i]
                == #[trigger] game.active_power_ups[i],
        forall|i: int|
            game.active_power_ups.len() <= i < game.eat_each(items, now).active_power_ups.len()
                ==> (#[trigger] game.eat_each(items, now).active_power_ups[i]).added_at == now,
    decreases items.len(),
{
    if items.len() > 0 {
        lemma_eat_each(game, items.drop_last(), now);
    }
}

/// A call while the snake is dead, or before the time for one update has
/// passed, changes nothing: a dead snake stays dead until the game starts
/// over.
pub proof fn lemma_no_tick_changes_nothing(game: GameView, now: u64, spawn: Food)
    requires
        !game.snake.is_alive || elapsed_spec(game.last_update, now) < game.ms_per_update,
    ensures
        game.tick(now, spawn) == game,
{
}

/// A tick never leaves the board without food. Where the snake has eaten all
/// there was, exactly one new item lies on the board when the tick ends; else
/// the board holds what the snake has left.
pub proof fn lemma_food_respawns(game: GameView, now: u64, spawn: Food)
    requires
        game.tick_due(now),
    ensures
        game.tick(now, spawn).food.len() >= 1,
        food_off(game.food, game.snake.body[0]).len() == 0 ==> game.tick(now, spawn).food
            == seq![spawn],
        food_off(game.food, game.snake.body[0]).len() > 0 ==> game.tick(now, spawn).food
            == food_off(game.food, game.snake.body[0]),
{
}

/// After a tick on which an invulnerability is active, be it from an earlier
/// pickup or from one on this tick, the snake is alive, whatever it has run
/// into.
pub proof fn lemma_invulnerable_snake_survives(game: GameView, now: u64, spawn: Food, i: int)
    requires
        game.tick_due(now),
        0 <= i < game.collect(now).active_power_ups.len(),
        game.collect(now).active_power_ups[i].power == PowerType::Invulnerability,
    ensures
        game.tick(now, spawn).snake.is_alive,
{
    let moved = game.collect(now).advance_snake();
    crate::power_up::lemma_invulnerability_overrides_death(
        moved.active_power_ups,
        moved.context(),
        now,
    );
}

/// The power-ups that were active before a tick are active on it: what
/// `lemma_invulnerable_snake_survives` asks of the tick's power-ups holds of
/// an invulnerability from an earlier pickup.
pub proof fn lemma_earlier_power_ups_act(game: GameView, now: u64, i: int)
    requires
        0 <= i < game.active_power_ups.len(),
    ensures
        i < game.collect(now).active_power_ups.len(),
        game.collect(now).active_power_ups[i] == game.active_power_ups[i],
{
    lemma_eat_each(game, food_on(game.food, game.snake.body[0]), now);
}

/// A tick on which the snake eats one plain food item while one score
/// multiplier is active brings `factor` points, not `1 + factor`.
pub proof fn lemma_multiplied_pickup(
    game: GameView,
    now: u64,
    spawn: Food,
    factor: u16,
    added_at: u64,
)
    requires
        game.tick_due(now),
        food_on(game.food, game.snake.body[0]).len() == 1,
        food_on(game.food, game.snake.body[0])[0].power_type == PowerType::NoPower,
        game.active_power_ups == seq![
            ActivePowerUp { power: PowerType::ScoreMultiplier(factor), added_at },
        ],
        game.score + 1 <= u16::MAX,
        game.score + factor <= u16::MAX,
    ensures
        game.tick(now, spawn).score == game.score + factor,
{
    let eaten = food_on(game.food, game.snake.body[0]);
    lemma_eat_each(game, eaten, now);
    assert(eaten.drop_last() =~= Seq::empty());
    reveal_with_fuel(GameView::eat_each, 2);
    let moved = game.collect(now).advance_snake();
    assert(moved.active_power_ups == game.active_power_ups);
    assert(moved.active_power_ups.drop_last() =~= Seq::empty());
    reveal_with_fuel(after_power_ups, 2);
}

} // verus!
