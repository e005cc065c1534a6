use crate::geometry::Point;
use vstd::prelude::*;

verus! {

/// One whole timer unit, in the steps that timers and elapsed time count in.
pub const TIMER_UNIT: u64 = 1_000_000_000;

/// One pixel, in the steps that the continuous position counts in.
pub const PIXEL: i64 = 1_000_000;

/// The length of a heading's unit vector, in the steps of its components.
pub const UNIT_VECTOR: i32 = 1_000_000;

/// A full turn, in millionths of a degree.
pub const FULL_TURN: u32 = 360_000_000;

/// How many timer steps pass per step of elapsed time.
pub const TIMER_RATE: u64 = 60;

/// Pixels travelled per whole unit of elapsed time.
pub const MOVEMENT_SPEED: u64 = 15_000;

/// Divisor that turns `component * elapsed * MOVEMENT_SPEED` into position steps.
pub const TRAVEL_DIVISOR: u64 = 1_000_000_000;

/// The animation frame changes once the animation timer exceeds this.
pub const ANIMATION_PERIOD: u64 = 100_000_000;

/// Below this, a movement timer is cut to zero at the right wall.
pub const SIDE_WALL_BIAS: u64 = 300_000_000;

/// Below this, a movement timer is cut to zero at the bottom wall.
pub const FLOOR_BIAS: u64 = 500_000_000;

/// The largest `x` of a dancer: window width less sprite size, in position steps.
pub const MAX_X: i64 = 976_000_000;

/// The largest `y` of a dancer: window height less sprite size, in position steps.
pub const MAX_Y: i64 = 552_000_000;

/// Where a fresh dancer stands, in position steps.
pub const START_X: i64 = 500_000_000;

pub const START_Y: i64 = 300_000_000;

/// The largest shown `x` and `y` of a dancer, in pixels.
pub const MAX_SHOWN_X: i32 = 976;

pub const MAX_SHOWN_Y: i32 = 552;

/// The widest and the tallest text whose outline, five pixels wider and six
/// pixels taller, still has a size that can be written down.
pub const MAX_TEXT_WIDTH: u32 = 0xFFFF_FFFA;

pub const MAX_TEXT_HEIGHT: u32 = 0xFFFF_FFF9;

/// A facing: the angle, and the unit vector that points along it.
#[derive(Clone, Copy, Debug, PartialEq, Eq, Structural)]
pub struct Heading {
    pub angle: u32,
    pub cos: i32,
    pub sin: i32,
}

/// The random draws that one update may consume: a new heading and a new
/// movement timer. They are used only when the movement timer runs out.
#[derive(Clone, Copy, Debug, PartialEq, Eq, Structural)]
pub struct Roll {
    pub heading: Heading,
    pub interval: u64,
}

/// One wandering, labelled sprite.
#[derive(Debug)]
pub struct Dancer {
    pub position: Point,
    pub animation: bool,
    pub direction: Heading,
    pub name: String,
    pub x: i64,
    pub y: i64,
    pub movement_interval: u64,
    pub animation_interval: u64,
    pub name_x: u32,
    pub name_y: u32,
}

/// What one update is given: how much time went by, and the draws.
#[derive(Clone, Copy, Debug, PartialEq, Eq, Structural)]
pub struct Step {
    pub delta_time: u64,
    pub roll: Roll,
}

/// Timer steps that pass while `delta_time` goes by.
pub open spec fn ticks(delta_time: u64) -> int {
    delta_time * TIMER_RATE
}

/// Distance along one axis, in position steps, covered in `delta_time` with
/// the given heading component; rounded towards zero.
pub open spec fn travel(component: int, delta_time: int) -> int {
    if component >= 0 {
        component * delta_time * MOVEMENT_SPEED / (TRAVEL_DIVISOR as int)
    } else {
        -((-component) * delta_time * MOVEMENT_SPEED / (TRAVEL_DIVISOR as int))
    }
}

/// `value` held inside `0 ..= max`.
pub open spec fn clamped(value: int, max: int) -> int {
    if value < 0 {
        0
    } else if value > max {
        max
    } else {
        value
    }
}

impl Heading {
    /// The angle is below a full turn and neither component is longer than
    /// the unit vector.
    pub open spec fn wf(&self) -> bool {
        &&& self.angle < FULL_TURN
        &&& -UNIT_VECTOR <= self.cos <= UNIT_VECTOR
        &&& -UNIT_VECTOR <= self.sin <= UNIT_VECTOR
    }

    /// The heading of angle zero.
    pub fn east() -> (heading: Heading)
        ensures
            heading == (Heading { angle: 0, cos: UNIT_VECTOR, sin: 0 }),
            heading.wf(),
    {
        Heading { angle: 0, cos: UNIT_VECTOR, sin: 0 }
    }

    /// Whether the heading is well formed.
    pub fn is_valid(&self) -> (valid: bool)
        ensures
            valid == self.wf(),
    {
        self.angle < FULL_TURN && -UNIT_VECTOR <= self.cos && self.cos <= UNIT_VECTOR
            && -UNIT_VECTOR <= self.sin && self.sin <= UNIT_VECTOR
    }

    /// Whether the heading points to the left half of the window.
    pub fn faces_left(&self) -> (left: bool)
        ensures
            left == (self.cos < 0),
    {
        self.cos < 0
    }
}

impl Roll {
    /// The heading is well formed and the timer lies below one unit.
    pub open spec fn wf(&self) -> bool {
        &&& self.heading.wf()
        &&& self.interval < TIMER_UNIT
    }

    /// Whether the draws are well formed.
    pub fn is_valid(&self) -> (valid: bool)
        ensures
            valid == self.wf(),
    {
        self.heading.is_valid() && self.interval < TIMER_UNIT
    }
}

/// Distance along one axis covered in `delta_time`, as `travel` defines it.
pub fn displacement(component: i32, delta_time: u64) -> (moved: i128)
    requires
        -UNIT_VECTOR <= component <= UNIT_VECTOR,
    ensures
        moved == travel(component as int, delta_time as int),
        -0x1_0000_0000_0000_0000 * 15 <= moved <= 0x1_0000_0000_0000_0000 * 15,
{
    let size: u128 = if component < 0 {
        (-(component as i64)) as u128
    } else {
        component as u128
    };
    let elapsed: u128 = delta_time as u128;
    assert(size * elapsed * 15_000 <= 1_000_000 * 0x1_0000_0000_0000_0000 * 15_000
        && size * elapsed * 15_000 / 1_000_000_000 <= 0x1_0000_0000_0000_0000 * 15)
        by (nonlinear_arith)
        requires
            0 <= size <= 1_000_000,
            0 <= elapsed < 0x1_0000_0000_0000_0000,
    ;
    assert(size * elapsed >= 0) by (nonlinear_arith)
        requires
            size >= 0,
            elapsed >= 0,
    ;
    let covered: u128 = size * elapsed * (MOVEMENT_SPEED as u128) / (TRAVEL_DIVISOR as u128);
    if component < 0 {
        -(covered as i128)
    } else {
        covered as i128
    }
}

impl Dancer {
    /// The position lies inside the window, the shown position too, the
    /// heading is well formed, both timers are within their ranges and the
    /// label is small enough to be framed.
    pub open spec fn wf(&self) -> bool {
        &&& 0 <= self.x <= MAX_X
        &&& 0 <= self.y <= MAX_Y
        &&& 0 <= self.position.x <= MAX_SHOWN_X
        &&& 0 <= self.position.y <= MAX_SHOWN_Y
        &&& self.direction.wf()
        &&& self.movement_interval <= TIMER_UNIT
        &&& self.animation_interval <= ANIMATION_PERIOD
        &&& self.name_x <= MAX_TEXT_WIDTH
        &&& self.name_y <= MAX_TEXT_HEIGHT
    }

    /// Whether the movement timer runs out during `delta_time`.
    pub open spec fn expires(&self, delta_time: u64) -> bool {
        self.movement_interval - ticks(delta_time) < 0
    }

    /// Whether the animation timer passes its period during `delta_time`.
    pub open spec fn frame_due(&self, delta_time: u64) -> bool {
        self.animation_interval + ticks(delta_time) > ANIMATION_PERIOD
    }

    /// The heading that the dancer moves along in this update.
    pub open spec fn heading_after(&self, step: Step) -> Heading {
        if self.expires(step.delta_time) {
            step.roll.heading
        } else {
            self.direction
        }
    }

    /// The movement timer after counting down and re-rolling, before walls.
    pub open spec fn timer_rolled(&self, step: Step) -> int {
        if self.expires(step.delta_time) {
            step.roll.interval as int
        } else {
            self.movement_interval - ticks(step.delta_time)
        }
    }

    /// The horizontal position before it is held inside the window.
    pub open spec fn free_x(&self, step: Step) -> int {
        self.x + travel(self.heading_after(step).cos as int, step.delta_time as int)
    }

    /// The vertical position before it is held inside the window.
    pub open spec fn free_y(&self, step: Step) -> int {
        self.y + travel(self.heading_after(step).sin as int, step.delta_time as int)
    }

    /// Whether this update stops the dancer at the right wall.
    pub open spec fn hits_right(&self, step: Step) -> bool {
        self.free_x(step) > MAX_X
    }

    /// Whether this update stops the dancer at the bottom wall.
    pub open spec fn hits_bottom(&self, step: Step) -> bool {
        self.free_y(step) > MAX_Y
    }

    /// The movement timer after the right wall had its say.
    pub open spec fn timer_sided(&self, step: Step) -> int {
        if self.hits_right(step) && self.timer_rolled(step) < SIDE_WALL_BIAS {
            0
        } else {
            self.timer_rolled(step)
        }
    }

    /// The movement timer at the end of the update.
    pub open spec fn timer_after(&self, step: Step) -> int {
        if self.hits_bottom(step) && self.timer_sided(step) < FLOOR_BIAS {
            0
        } else {
            self.timer_sided(step)
        }
    }

    /// The dancer after one update.
    pub open spec fn step(self, step: Step) -> Dancer {
        let x = clamped(self.free_x(step), MAX_X as int);
        let y = clamped(self.free_y(step), MAX_Y as int);
        Dancer {
            position: Point { x: (x / (PIXEL as int)) as i32, y: (y / (PIXEL as int)) as i32 },
            animation: self.animation != self.frame_due(step.delta_time),
            direction: self.heading_after(step),
            name: self.name,
            x: x as i64,
            y: y as i64,
            movement_interval: self.timer_after(step) as u64,
            animation_interval: if self.frame_due(step.delta_time) {
                0
            } else {
                (self.animation_interval + ticks(step.delta_time)) as u64
            },
            name_x: self.name_x,
            name_y: self.name_y,
        }
    }

    /// The dancer after the given updates, in order.
    pub open spec fn run(self, steps: Seq<Step>) -> Dancer
        decreases steps.len(),
    {
        if steps.len() == 0 {
            self
        } else {
            self.run(steps.drop_last()).step(steps.last())
        }
    }

    /// A dancer at the starting place, facing east, with both timers at
    /// zero, carrying `name` and the size of its rendered label.
    pub fn new(name: String, name_x: u32, name_y: u32) -> (dancer: Dancer)
        requires
            name_x <= MAX_TEXT_WIDTH,
            name_y <= MAX_TEXT_HEIGHT,
        ensures
            dancer == (Dancer {
                position: Point { x: 0, y: 0 },
                animation: false,
                direction: Heading { angle: 0, cos: UNIT_VECTOR, sin: 0 },
                name,
                x: START_X,
                y: START_Y,
                movement_interval: 0,
                animation_interval: 0,
                name_x,
                name_y,
            }),
            dancer.wf(),
    {
        Dancer {
            position: Point::new(0, 0),
            animation: false,
            direction: Heading::east(),
            name,
            x: START_X,
            y: START_Y,
            movement_interval: 0,
            animation_interval: 0,
            name_x,
            name_y,
        }
    }

    /// Whether the dancer is well formed.
    pub fn is_valid(&self) -> (valid: bool)
        ensures
            valid == self.wf(),
    {
        0 <= self.x && self.x <= MAX_X && 0 <= self.y && self.y <= MAX_Y && 0 <= self.position.x
            && self.position.x <= MAX_SHOWN_X && 0 <= self.position.y && self.position.y
            <= MAX_SHOWN_Y
            && self.direction.is_valid() && self.movement_interval <= TIMER_UNIT
            && self.animation_interval <= ANIMATION_PERIOD && self.name_x <= MAX_TEXT_WIDTH
            && self.name_y <= MAX_TEXT_HEIGHT
    }

    /// Advances the dancer by `delta_time`: counts the timers, takes the
    /// rolled heading and timer if the movement timer ran out, changes the
    /// animation frame when due, moves, stops at the walls and derives the
    /// shown position.
    pub fn update(&mut self, delta_time: u64, roll: Roll)
        requires
            old(self).wf(),
            roll.wf(),
        ensures
            *final(self) == old(self).step(Step { delta_time, roll }),
            final(self).wf(),
            0 <= final(self).x <= MAX_X,
            0 <= final(self).y <= MAX_Y,
            final(self).position.x == final(self).x / PIXEL,
            final(self).position.y == final(self).y / PIXEL,
            final(self).name == old(self).name,
            final(self).name_x == old(self).name_x,
            final(self).name_y == old(self).name_y,
    {
        let ghost before = *self;
        let ghost step = Step { delta_time, roll };
        let passed: u128 = (delta_time as u128) * (TIMER_RATE as u128);

        if passed > self.movement_interval as u128 {
            self.direction = roll.heading;
            self.movement_interval = roll.interval;
        } else {
            self.movement_interval = self.movement_interval - (passed as u64);
        }
        assert(self.movement_interval == before.timer_rolled(step));

        if self.animation_interval as u128 + passed > ANIMATION_PERIOD as u128 {
            self.animation = !self.animation;
            self.animation_interval = 0;
        } else {
            self.animation_interval = self.animation_interval + (passed as u64);
        }

        let free_x: i128 = self.x as i128 + displacement(self.direction.cos, delta_time);
        let free_y: i128 = self.y as i128 + displacement(self.direction.sin, delta_time);
        assert(free_x == before.free_x(step));
        assert(free_y == before.free_y(step));

        if free_x < 0 {
            self.x = 0;
        } else if free_x > MAX_X as i128 {
            self.x = MAX_X;
            if self.movement_interval < SIDE_WALL_BIAS {
                self.movement_interval = 0;
            }
        } else {
            self.x = free_x as i64;
        }

        if free_y < 0 {
            self.y = 0;
        } else if free_y > MAX_Y as i128 {
            self.y = MAX_Y;
            if self.movement_interval < FLOOR_BIAS {
                self.movement_interval = 0;
            }
        } else {
            self.y = free_y as i64;
        }

        self.position = Point::new((self.x / PIXEL) as i32, (self.y / PIXEL) as i32);
    }
}

/// One update keeps a dancer well formed. In particular the position stays
/// inside the window: `0 <= x <= MAX_X` and `0 <= y <= MAX_Y`.
pub proof fn lemma_step_stays_inside(dancer: Dancer, step: Step)
    requires
        dancer.wf(),
        step.roll.wf(),
    ensures
        dancer.step(step).wf(),
        0 <= dancer.step(step).x <= MAX_X,
        0 <= dancer.step(step).y <= MAX_Y,
        dancer.step(step).position.x == dancer.step(step).x / PIXEL,
        dancer.step(step).position.y == dancer.step(step).y / PIXEL,
{
}

/// However many updates are made, with whatever elapsed times and draws,
/// the dancer stays well formed and inside the window.
pub proof fn lemma_run_stays_inside(dancer: Dancer, steps: Seq<Step>)
    requires
        dancer.wf(),
        forall|i: int| 0 <= i < steps.len() ==> (#[trigger] steps[i]).roll.wf(),
    ensures
        dancer.run(steps).wf(),
        0 <= dancer.run(steps).x <= MAX_X,
        0 <= dancer.run(steps).y <= MAX_Y,
    decreases steps.len(),
{
    if steps.len() > 0 {
        lemma_run_stays_inside(dancer, steps.drop_last());
        lemma_step_stays_inside(dancer.run(steps.drop_last()), steps.last());
    }
}

/// An update in which the movement timer runs out takes the rolled heading,
/// whose angle is below a full turn, and leaves a timer that is the rolled
/// one or zero, so never negative and always below one unit. An update in
/// which it does not run out keeps the heading. A timer at zero runs out as
/// soon as any time passes.
pub proof fn lemma_heading_reroll(dancer: Dancer, step: Step)
    requires
        dancer.wf(),
        step.roll.wf(),
    ensures
        dancer.expires(step.delta_time) ==> {
            &&& dancer.step(step).direction == step.roll.heading
            &&& dancer.step(step).direction.angle < FULL_TURN
            &&& dancer.step(step).movement_interval < TIMER_UNIT
            &&& (dancer.step(step).movement_interval == step.roll.interval
                || dancer.step(step).movement_interval == 0)
        },
        !dancer.expires(step.delta_time) ==> {
            &&& dancer.step(step).direction == dancer.direction
            &&& (dancer.step(step).movement_interval == dancer.movement_interval - ticks(
                step.delta_time,
            ) || dancer.step(step).movement_interval == 0)
        },
        dancer.movement_interval == 0 && step.delta_time > 0 ==> dancer.expires(step.delta_time),
{
}

/// The animation frame changes in an update exactly when the animation
/// timer passes its period in it, and then once; the timer then restarts
/// from zero, and otherwise keeps counting.
pub proof fn lemma_animation_toggle(dancer: Dancer, step: Step)
    requires
        dancer.wf(),
        step.roll.wf(),
    ensures
        dancer.frame_due(step.delta_time) ==> {
            &&& dancer.step(step).animation == !dancer.animation
            &&& dancer.step(step).animation_interval == 0
        },
        !dancer.frame_due(step.delta_time) ==> {
            &&& dancer.step(step).animation == dancer.animation
            &&& dancer.step(step).animation_interval == dancer.animation_interval + ticks(
                step.delta_time,
            )
        },
{
}

/// A dancer stopped at the right wall with a movement timer below
/// `SIDE_WALL_BIAS`, or at the bottom wall with one below `FLOOR_BIAS`, ends
/// the update with a timer of zero, so that the update after it re-rolls as
/// soon as any time passes.
pub proof fn lemma_wall_bias(dancer: Dancer, step: Step, next: Step)
    requires
        dancer.wf(),
        step.roll.wf(),
        next.roll.wf(),
        next.delta_time > 0,
        (dancer.hits_right(step) && dancer.timer_rolled(step) < SIDE_WALL_BIAS) || (
        dancer.hits_bottom(step) && dancer.timer_rolled(step) < FLOOR_BIAS),
    ensures
        dancer.hits_right(step) ==> dancer.step(step).x == MAX_X,
        dancer.hits_bottom(step) ==> dancer.step(step).y == MAX_Y,
        dancer.step(step).movement_interval == 0,
        dancer.step(step).expires(next.delta_time),
        dancer.step(step).step(next).direction == next.roll.heading,
{
}

/// No update touches the label or its measured size.
pub proof fn lemma_label_kept(dancer: Dancer, steps: Seq<Step>)
    ensures
        dancer.run(steps).name == dancer.name,
        dancer.run(steps).name_x == dancer.name_x,
        dancer.run(steps).name_y == dancer.name_y,
    decreases steps.len(),
{
    if steps.len() > 0 {
        lemma_label_kept(dancer, steps.drop_last());
    }
}

} // verus!
