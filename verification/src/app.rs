//! The game: paddle, ball and held keys, advanced one event at a time.

use std::collections::HashSet;
use vstd::prelude::*;
use crate::ball::{centered_ball, Ball, BallView};
use crate::court::{center_line, center_line_rects, Color, Draw, Rect};
use crate::input::{keys_after, paddle_delta, Button, ButtonArgs, ButtonState, KEY_A, KEY_D};
use crate::player::{Player, PlayerView, PADDLE_HEIGHT, PADDLE_STEP, PADDLE_WIDTH};

verus! {

broadcast use vstd::std_specs::hash::group_hash_axioms;

/// What the event loop reports to the game.
#[derive(Clone, Copy, Debug, PartialEq, Eq, Structural)]
pub enum Event {
    /// A tick of the game clock.
    Update,
    /// A button changed state.
    Input(ButtonArgs),
    /// A frame is due.
    Render,
    /// Anything else; the game ignores it.
    Other,
}

/// The game as a mathematical value.
pub struct AppView {
    pub player: PlayerView,
    pub ball: BallView,
    /// Codes of the keys that are held down.
    pub keys: Set<i32>,
}

impl AppView {
    /// The game after a tick: the paddle travels as the held keys say and is
    /// stopped at the court's edges.
    pub open spec fn update(self) -> AppView {
        AppView { player: self.player.slide(paddle_delta(self.keys)), ..self }
    }

    /// The game after a button event.
    pub open spec fn input(self, args: ButtonArgs) -> AppView {
        AppView { keys: keys_after(self.keys, args), ..self }
    }

    /// The frame that shows the game: a black background, then in white the
    /// centre line, the ball and the paddle.
    pub open spec fn frame(self) -> Seq<Draw> {
        seq![Draw::Clear(Color::Black)] + center_line().map_values(
            |r: Rect| Draw::Rectangle(Color::White, r),
        ) + seq![
            Draw::Rectangle(Color::White, self.ball.rect()),
            Draw::Rectangle(Color::White, self.player.rect()),
        ]
    }

    /// The game after one event.
    pub open spec fn handle(self, event: Event) -> AppView {
        match event {
            Event::Update => self.update(),
            Event::Input(args) => self.input(args),
            Event::Render => self,
            Event::Other => self,
        }
    }

    /// The game after a run of events, first to last.
    pub open spec fn run(self, events: Seq<Event>) -> AppView
        decreases events.len(),
    {
        if events.len() == 0 {
            self
        } else {
            self.run(events.drop_last()).handle(events.last())
        }
    }
}

/// The game a fresh start begins with.
pub open spec fn new_game() -> AppView {
    AppView {
        player: PlayerView { y: 0, width: PADDLE_WIDTH as int, height: PADDLE_HEIGHT as int },
        ball: centered_ball(),
        keys: Set::empty(),
    }
}

/// The state of one game.
pub struct App {
    player: Player,
    ball: Ball,
    keys: HashSet<i32>,
}

impl View for App {
    type V = AppView;

    closed spec fn view(&self) -> AppView {
        AppView { player: self.player@, ball: self.ball@, keys: self.keys@ }
    }
}

impl App {
    /// A game with the given paddle and ball and no key held.
    pub fn new(player: Player, ball: Ball) -> (r: App)
        ensures
            r@ == (AppView { player: player@, ball: ball@, keys: Set::empty() }),
            r@.player.in_bounds(),
    {
        proof {
            use_type_invariant(&player);
        }
        App { player, ball, keys: HashSet::new() }
    }

    /// A fresh game: the paddle at the top left, the ball in the middle.
    pub fn start() -> (r: App)
        ensures
            r@ == new_game(),
    {
        App::new(Player::at_top(), Ball::centered())
    }

    pub fn player(&self) -> (r: &Player)
        ensures
            r@ == self@.player,
    {
        &self.player
    }

    pub fn ball(&self) -> (r: &Ball)
        ensures
            r@ == self@.ball,
    {
        &self.ball
    }

    /// Whether the key with this code is held down.
    pub fn is_held(&self, key: i32) -> (r: bool)
        ensures
            r == self@.keys.contains(key),
    {
        self.keys.contains(&key)
    }

    /// Advances the game by one tick.
    pub fn update(&mut self)
        ensures
            final(self)@ == old(self)@.update(),
            final(self)@.player.in_bounds(),
    {
        let mut delta: i32 = 0;
        if self.keys.contains(&KEY_D) {
            delta = delta + PADDLE_STEP;
        }
        if self.keys.contains(&KEY_A) {
            delta = delta - PADDLE_STEP;
        }
        self.player.slide(delta);
    }

    /// Records a button event in the set of held keys.
    pub fn input(&mut self, args: &ButtonArgs)
        ensures
            final(self)@ == old(self)@.input(*args),
            final(self)@.player.in_bounds(),
    {
        proof {
            use_type_invariant(&self.player);
        }
        match args.button {
            Button::Keyboard(key) => {
                match args.state {
                    ButtonState::Press => {
                        self.keys.insert(key);
                    },
                    ButtonState::Release => {
                        self.keys.remove(&key);
                    },
                }
            },
            Button::Other => {},
        }
    }

    /// Lists what to paint for the current frame, in painting order.
    pub fn render(&self) -> (frame: Vec<Draw>)
        ensures
            frame@ == self@.frame(),
    {
        let line = center_line_rects();
        let mut frame: Vec<Draw> = Vec::new();
        frame.push(Draw::Clear(Color::Black));
        let mut i: usize = 0;
        while i < line.len()
            invariant
                0 <= i <= line.len(),
                frame@ == seq![Draw::Clear(Color::Black)] + line@.take(i as int).map_values(
                    |r: Rect| Draw::Rectangle(Color::White, r),
                ),
            decreases line.len() - i,
        {
            frame.push(Draw::Rectangle(Color::White, line[i]));
            i = i + 1;
            assert(frame@ =~= seq![Draw::Clear(Color::Black)] + line@.take(i as int).map_values(
                |r: Rect| Draw::Rectangle(Color::White, r),
            ));
        }
        assert(line@.take(i as int) =~= line@);
        frame.push(Draw::Rectangle(Color::White, self.ball.rect()));
        frame.push(Draw::Rectangle(Color::White, self.player.rect()));
        assert(frame@ =~= self@.frame());
        frame
    }

    /// Feeds one event to the game. A render event is answered with the frame
    /// to paint; every other event with nothing.
    pub fn handle(&mut self, event: &Event) -> (frame: Option<Vec<Draw>>)
        ensures
            final(self)@ == old(self)@.handle(*event),
            final(self)@.player.in_bounds(),
            frame is Some <==> *event == Event::Render,
            frame matches Some(f) ==> f@ == old(self)@.frame(),
    {
        match event {
            Event::Update => {
                self.update();
                None
            },
            Event::Input(args) => {
                self.input(args);
                None
            },
            Event::Render => {
                proof {
                    use_type_invariant(&self.player);
                }
                Some(self.render())
            },
            Event::Other => {
                proof {
                    use_type_invariant(&self.player);
                }
                None
            },
        }
    }
}

/// Whatever events arrive and in whatever order, a paddle that lies within
/// the court stays within it, and keeps its size.
pub proof fn lemma_paddle_stays_in_court(start: AppView, events: Seq<Event>)
    requires
        start.player.in_bounds(),
    ensures
        start.run(events).player.in_bounds(),
        start.run(events).player.width == start.player.width,
        start.run(events).player.height == start.player.height,
    decreases events.len(),
{
    if events.len() > 0 {
        lemma_paddle_stays_in_court(start, events.drop_last());
    }
}

/// No event moves the ball or turns its heading.
pub proof fn lemma_ball_rests(start: AppView, events: Seq<Event>)
    ensures
        start.run(events).ball == start.ball,
    decreases events.len(),
{
    if events.len() > 0 {
        lemma_ball_rests(start, events.drop_last());
    }
}

} // verus!
