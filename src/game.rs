use vstd::prelude::*;
use crate::cube::{ColoredCube, DrawCommand, Rgb};
use crate::food::{in_bounds, random_food};
use crate::geometry::{Direction, GridCoord, Perspective};
use crate::input::{has_stop, is_stop, key_direction, steer, stops, Input};
use crate::screen::{project_spec, wide_mul, ScreenOffset, ScreenPoint};

verus! {

/// What stays fixed while a game runs.
#[derive(Clone, Copy, Debug, PartialEq, Eq, Structural)]
pub struct Settings {
    /// The snake moves once every `move_speed` frames.
    pub move_speed: u64,
    /// Food lands on cells whose axes lie in `0..food_bound`.
    pub food_bound: i32,
    pub cube_side: u16,
    pub cube_gap: u16,
    /// The perspective vector of the snake's and the food's cubes.
    pub perspective: Perspective,
    /// Where the cell (0, 0, 0) is drawn.
    pub offset: ScreenOffset,
    /// The cube that frames the play area.
    pub frame_cube: ColoredCube,
    pub background: Rgb,
    pub body_color: Rgb,
    pub food_color: Rgb,
}

impl Settings {
    pub open spec fn wf(self) -> bool {
        &&& self.move_speed > 0
        &&& self.food_bound > 0
        &&& self.perspective.wf()
        &&& self.frame_cube.wf()
    }

    /// The distance between neighbouring cells on the screen.
    pub open spec fn step(self) -> i32 {
        (self.cube_side + self.cube_gap) as i32
    }

    /// The cube drawn for a cell: its side is `cube_side`, its position the
    /// projection of the cell.
    pub open spec fn cube_spec(self, cell: GridCoord, color: Rgb) -> ColoredCube {
        ColoredCube {
            pos: project_spec(cell, self.step(), self.perspective, self.offset),
            w: self.cube_side as u32,
            h: self.cube_side as u32,
            perspective: self.perspective,
            color,
            fill: false,
        }
    }

    /// Cubes of side 30 spaced 33 pixels apart with a (15, 15) perspective,
    /// a black 500 by 500 frame seen along (150, 150), one move every 30
    /// frames and food on cells with axes in `0..10`.
    pub fn standard() -> (s: Settings)
        ensures
            s.wf(),
            s.move_speed == 30,
            s.food_bound == 10,
            s.cube_side == 30,
            s.cube_gap == 3,
            s.perspective == (Perspective { x: 15, y: 15 }),
            s.offset == (ScreenOffset { x: 50, y: 50 }),
            s.frame_cube == (ColoredCube {
                pos: ScreenPoint { x: 50, y: 50, dx: 0, dy: 0, len_sq: 1 },
                w: 500,
                h: 500,
                perspective: Perspective { x: 150, y: 150 },
                color: Rgb { r: 0, g: 0, b: 0 },
                fill: false,
            }),
            s.background == (Rgb { r: 0, g: 255, b: 255 }),
            s.body_color == (Rgb { r: 255, g: 255, b: 255 }),
            s.food_color == (Rgb { r: 0, g: 0, b: 255 }),
    {
        Settings {
            move_speed: 30,
            food_bound: 10,
            cube_side: 30,
            cube_gap: 3,
            perspective: Perspective { x: 15, y: 15 },
            offset: ScreenOffset { x: 50, y: 50 },
            frame_cube: ColoredCube::new(
                50,
                50,
                500,
                500,
                Perspective { x: 150, y: 150 },
                Rgb::new(0, 0, 0),
                false,
            ),
            background: Rgb::new(0, 255, 255),
            body_color: Rgb::new(255, 255, 255),
            food_color: Rgb::new(0, 0, 255),
        }
    }

    /// The cube drawn for a cell.
    pub fn cell_cube(&self, cell: GridCoord, color: Rgb) -> (r: ColoredCube)
        requires
            self.wf(),
        ensures
            r == self.cube_spec(cell, color),
            r.wf(),
    {
        let step: i32 = self.cube_side as i32 + self.cube_gap as i32;
        ColoredCube::virtual_3d(
            wide_mul(cell.x, step),
            wide_mul(cell.y, step),
            cell.z,
            self.cube_side as u32,
            self.cube_side as u32,
            self.perspective,
            color,
            false,
            self.offset,
        )
    }
}

/// The state of a game, as values.
pub struct GameState {
    pub head: GridCoord,
    pub direction: Direction,
    /// The segments, oldest first.
    pub body: Seq<GridCoord>,
    pub food: GridCoord,
    pub frame: nat,
}

impl GameState {
    /// Where the head goes on the next move.
    pub open spec fn next_head(self) -> GridCoord {
        self.head.step_spec(self.direction)
    }

    /// The next move lands on the food.
    pub open spec fn eats(self) -> bool {
        self.next_head() == self.food
    }

    /// One move: the head steps and a segment is added there. On the food,
    /// the snake keeps its oldest segment and the food moves to `fresh`;
    /// elsewhere the oldest segment goes.
    pub open spec fn advanced(self, fresh: GridCoord) -> GameState {
        let h = self.next_head();
        let grown = self.body.push(h);
        GameState {
            head: h,
            body: if self.eats() {
                grown
            } else {
                grown.drop_first()
            },
            food: if self.eats() {
                fresh
            } else {
                self.food
            },
            ..self
        }
    }

    /// `n` moves in a row; the `i`-th that eats places the food at `fresh[i]`.
    pub open spec fn ticks(self, n: nat, fresh: Seq<GridCoord>) -> GameState
        decreases n,
    {
        if n == 0 {
            self
        } else {
            self.ticks((n - 1) as nat, fresh).advanced(fresh[n - 1])
        }
    }

    /// The frame counter moved on and the events read.
    pub open spec fn counted(self, events: Seq<Input>) -> GameState {
        GameState { frame: self.frame + 1, direction: steer(self.direction, events), ..self }
    }

    /// The frame moves the snake: no event stops the game and the new count
    /// is a multiple of `speed`.
    pub open spec fn moves_in_frame(self, events: Seq<Input>, speed: nat) -> bool {
        !has_stop(events) && (self.frame + 1) % speed == 0
    }

    /// One frame, with `fresh` for the food should the snake eat.
    pub open spec fn after_frame(self, events: Seq<Input>, speed: nat, fresh: GridCoord) -> GameState {
        if self.moves_in_frame(events, speed) {
            self.counted(events).advanced(fresh)
        } else {
            self.counted(events)
        }
    }
}

/// A running game.
pub struct Game {
    pub settings: Settings,
    pub head: GridCoord,
    pub direction: Direction,
    /// The segments, oldest first; the newest is the head's cell.
    pub body: Vec<GridCoord>,
    pub food: GridCoord,
    pub frame: u64,
}

impl View for Game {
    type V = GameState;

    open spec fn view(&self) -> GameState {
        GameState {
            head: self.head,
            direction: self.direction,
            body: self.body@,
            food: self.food,
            frame: self.frame as nat,
        }
    }
}

/// The commands that draw the cubes of the cells, in order.
pub open spec fn cells_commands(s: Settings, cells: Seq<GridCoord>, color: Rgb) -> Seq<DrawCommand>
    decreases cells.len(),
{
    if cells.len() == 0 {
        seq![]
    } else {
        cells_commands(s, cells.drop_last(), color) + s.cube_spec(cells.last(), color).commands()
    }
}

impl Game {
    pub open spec fn wf(self) -> bool {
        &&& self.settings.wf()
        &&& self.body@.len() >= 1
        &&& self.body@.last() == self.head
    }

    /// The commands of one picture: clear to the background, then the frame
    /// cube, the segments oldest first and the food, then show it.
    pub open spec fn scene_spec(self) -> Seq<DrawCommand> {
        let s = self.settings;
        seq![DrawCommand::SetColor(s.background), DrawCommand::Clear] + s.frame_cube.commands()
            + cells_commands(s, self.body@, s.body_color) + s.cube_spec(
            self.food,
            s.food_color,
        ).commands() + seq![DrawCommand::Present]
    }

    /// A snake of one segment at (0, 0, 0) heading along +x, frame 0.
    pub fn new(settings: Settings, food: GridCoord) -> (g: Game)
        requires
            settings.wf(),
        ensures
            g.wf(),
            g.settings == settings,
            g@ == (GameState {
                head: GridCoord { x: 0, y: 0, z: 0 },
                direction: Direction::PosX,
                body: seq![GridCoord { x: 0, y: 0, z: 0 }],
                food,
                frame: 0,
            }),
    {
        let origin = GridCoord { x: 0, y: 0, z: 0 };
        let body: Vec<GridCoord> = vec![origin];
        assert(body@ =~= seq![origin]);
        Game { settings, head: origin, direction: Direction::PosX, body, food, frame: 0 }
    }

    /// As `new`, with the food on a random cell within the bound.
    pub fn start(settings: Settings) -> (g: Game)
        requires
            settings.wf(),
        ensures
            g.wf(),
            g.settings == settings,
            in_bounds(g.food, settings.food_bound),
            g@ == (GameState {
                head: GridCoord { x: 0, y: 0, z: 0 },
                direction: Direction::PosX,
                body: seq![GridCoord { x: 0, y: 0, z: 0 }],
                food: g.food,
                frame: 0,
            }),
    {
        let food = random_food(settings.food_bound);
        Game::new(settings, food)
    }

    /// One move, with `fresh` as the food's next cell should the snake eat.
    /// Returns whether it ate.
    pub fn advance_with(&mut self, fresh: GridCoord) -> (ate: bool)
        requires
            old(self).wf(),
            old(self).head.can_step(),
        ensures
            final(self).wf(),
            final(self).settings == old(self).settings,
            final(self)@ == old(self)@.advanced(fresh),
            ate == old(self)@.eats(),
            final(self).head == old(self).head.step_spec(old(self).direction),
            ate ==> final(self).body@.len() == old(self).body@.len() + 1 && final(self).food
                == fresh,
            !ate ==> final(self).body@.len() == old(self).body@.len() && final(self).food == old(
                self,
            ).food,
    {
        let next = self.head.step(self.direction);
        let ate = next == self.food;
        self.head = next;
        self.body.push(next);
        if ate {
            self.food = fresh;
        } else {
            self.body.remove(0);
        }
        assert(self.body@ =~= old(self)@.advanced(fresh).body);
        ate
    }

    /// One move; should the snake eat, the food moves to a random cell
    /// within the bound. Returns whether it ate.
    pub fn advance(&mut self) -> (ate: bool)
        requires
            old(self).wf(),
            old(self).head.can_step(),
        ensures
            final(self).wf(),
            final(self).settings == old(self).settings,
            final(self)@ == old(self)@.advanced(final(self).food),
            ate == old(self)@.eats(),
            ate ==> in_bounds(final(self).food, old(self).settings.food_bound),
    {
        let ate_next = self.head.step(self.direction) == self.food;
        let fresh = if ate_next {
            random_food(self.settings.food_bound)
        } else {
            self.food
        };
        self.advance_with(fresh)
    }

    /// Reads the events in order up to the first that stops the game; each
    /// direction key sets the direction. Returns whether the game goes on.
    pub fn apply_events(&mut self, events: &Vec<Input>) -> (running: bool)
        ensures
            running == !has_stop(events@),
            *final(self) == (Game { direction: steer(old(self).direction, events@), ..*old(self) }),
    {
        let ghost d0 = self.direction;
        let mut d = self.direction;
        let mut i: usize = 0;
        assert(events@.skip(0) =~= events@);
        while i < events.len()
            invariant
                i <= events@.len(),
                steer(d, events@.skip(i as int)) == steer(d0, events@),
                *self == *old(self),
                d0 == old(self).direction,
                forall|j: int| 0 <= j < i ==> !is_stop(#[trigger] events@[j]),
            decreases events@.len() - i,
        {
            let e = events[i];
            let ghost rest = events@.skip(i as int);
            assert(rest[0] == e);
            if stops(e) {
                assert(steer(d, rest) == d);
                assert(is_stop(events@[i as int]));
                self.direction = d;
                return false;
            }
            match e {
                Input::KeyDown(k) => match key_direction(k) {
                    Some(n) => {
                        d = n;
                    },
                    None => {},
                },
                _ => {},
            }
            assert(rest.drop_first() =~= events@.skip(i + 1));
            i += 1;
        }
        assert(events@.skip(i as int) =~= Seq::<Input>::empty());
        self.direction = d;
        true
    }

    /// One frame, with `fresh` as the food's next cell should the snake
    /// eat: the counter goes up, the events are read, and the snake moves
    /// only when the game goes on and the counter is a multiple of the
    /// move speed. Returns whether the game goes on.
    pub fn frame_with(&mut self, events: &Vec<Input>, fresh: GridCoord) -> (running: bool)
        requires
            old(self).wf(),
            old(self).frame < u64::MAX,
            old(self).head.can_step(),
        ensures
            final(self).wf(),
            final(self).settings == old(self).settings,
            running == !has_stop(events@),
            final(self)@ == old(self)@.after_frame(events@, old(self).settings.move_speed as nat, fresh),
            final(self).frame == old(self).frame + 1,
            final(self).frame % old(self).settings.move_speed != 0 ==> final(self).head == old(
                self,
            ).head && final(self).body@ == old(self).body@ && final(self).food == old(self).food,
    {
        self.frame = self.frame + 1;
        let running = self.apply_events(events);
        if running && self.frame % self.settings.move_speed == 0 {
            self.advance_with(fresh);
        }
        running
    }

    /// One frame, as `frame_with`, with the food moved to a random cell
    /// within the bound should the snake eat.
    pub fn frame(&mut self, events: &Vec<Input>) -> (running: bool)
        requires
            old(self).wf(),
            old(self).frame < u64::MAX,
            old(self).head.can_step(),
        ensures
            final(self).wf(),
            final(self).settings == old(self).settings,
            running == !has_stop(events@),
            final(self)@ == old(self)@.after_frame(
                events@,
                old(self).settings.move_speed as nat,
                final(self).food,
            ),
            final(self).frame == old(self).frame + 1,
            final(self).frame % old(self).settings.move_speed != 0 ==> final(self).head == old(
                self,
            ).head && final(self).body@ == old(self).body@ && final(self).food == old(self).food,
            old(self)@.moves_in_frame(events@, old(self).settings.move_speed as nat) && old(
                self,
            )@.counted(events@).eats() ==> in_bounds(final(self).food, old(self).settings.food_bound),
    {
        self.frame = self.frame + 1;
        let running = self.apply_events(events);
        if running && self.frame % self.settings.move_speed == 0 {
            self.advance();
        }
        running
    }

    /// The draw commands of the current picture.
    pub fn scene(&self) -> (r: Vec<DrawCommand>)
        requires
            self.wf(),
        ensures
            r@ == self.scene_spec(),
    {
        let s = &self.settings;
        let mut out: Vec<DrawCommand> = Vec::new();
        out.push(DrawCommand::SetColor(s.background));
        out.push(DrawCommand::Clear);
        s.frame_cube.draw_into(&mut out);
        let ghost start = out@;
        let mut i: usize = 0;
        while i < self.body.len()
            invariant
                i <= self.body@.len(),
                s == &self.settings,
                s.wf(),
                out@ == start + cells_commands(*s, self.body@.take(i as int), s.body_color),
            decreases self.body@.len() - i,
        {
            let c = s.cell_cube(self.body[i], s.body_color);
            c.draw_into(&mut out);
            assert(self.body@.take(i + 1).drop_last() =~= self.body@.take(i as int));
            assert(out@ =~= start + cells_commands(*s, self.body@.take(i + 1), s.body_color));
            i += 1;
        }
        assert(self.body@.take(i as int) =~= self.body@);
        let f = s.cell_cube(self.food, s.food_color);
        f.draw_into(&mut out);
        out.push(DrawCommand::Present);
        assert(out@ =~= self.scene_spec());
        out
    }
}

/// Moves that never land on the food keep the snake's length: each adds a
/// segment at the head and drops the oldest. A snake of one segment stays
/// one segment long, and after a move that segment is at the head.
pub proof fn lemma_length_kept_without_food(g: GameState, n: nat, fresh: Seq<GridCoord>)
    requires
        forall|i: nat| i < n ==> !(#[trigger] g.ticks(i, fresh)).eats(),
    ensures
        g.ticks(n, fresh).body.len() == g.body.len(),
        n > 0 && g.body.len() == 1 ==> g.ticks(n, fresh).body == seq![g.ticks(n, fresh).head],
    decreases n,
{
    if n > 0 {
        let m = (n - 1) as nat;
        lemma_length_kept_without_food(g, m, fresh);
        assert(!g.ticks(m, fresh).eats());
        if g.body.len() == 1 {
            assert(g.ticks(n, fresh).body =~= seq![g.ticks(n, fresh).head]);
        }
    }
}

/// A move onto the food keeps every segment, adds one at the food's cell,
/// and puts the food at `fresh`.
pub proof fn lemma_eating_grows(g: GameState, fresh: GridCoord)
    requires
        g.eats(),
    ensures
        ({
            let a = g.advanced(fresh);
            &&& a.body.len() == g.body.len() + 1
            &&& a.body.take(g.body.len() as int) == g.body
            &&& a.body.last() == g.food
            &&& a.head == g.food
            &&& a.food == fresh
        }),
{
    assert(g.advanced(fresh).body.take(g.body.len() as int) =~= g.body);
}

} // verus!
