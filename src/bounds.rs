use vstd::prelude::*;

verus! {

/// The rectangular simulation domain and its inward margin.
#[derive(Clone, Copy, Debug, PartialEq, Eq)]
pub struct Domain {
    pub width: u32,
    pub height: u32,
    pub margin: u32,
}

pub const SIMULATION_WIDTH: u32 = 800;

pub const SIMULATION_HEIGHT: u32 = 600;

pub const MARGIN: u32 = 128;

/// Number of agents in the reference flock.
pub const BOID_COUNT: usize = 350;

impl Domain {
    /// The margin fits inside the domain on both axes.
    pub open spec fn wf(self) -> bool {
        self.margin <= self.width && self.margin <= self.height
    }

    /// The reference domain: 800 by 600 with a margin of 128.
    pub fn standard() -> (r: Domain)
        ensures
            r.width == SIMULATION_WIDTH,
            r.height == SIMULATION_HEIGHT,
            r.margin == MARGIN,
            r.wf(),
    {
        Domain { width: SIMULATION_WIDTH, height: SIMULATION_HEIGHT, margin: MARGIN }
    }

    /// The x coordinate past which an agent is pulled back to the left.
    pub fn inner_right(&self) -> (r: u32)
        requires
            self.wf(),
        ensures
            r == self.width - self.margin,
    {
        self.width - self.margin
    }

    /// The y coordinate past which an agent is pulled back upwards.
    pub fn inner_bottom(&self) -> (r: u32)
        requires
            self.wf(),
        ensures
            r == self.height - self.margin,
    {
        self.height - self.margin
    }
}

/// Pull along one axis: +1 from below the low edge, -1 from past the high edge.
pub open spec fn axis_pull(below_low: bool, past_high: bool) -> int {
    (if below_low { 1int } else { 0int }) - (if past_high { 1int } else { 0int })
}

/// The unnormalised boundary-steering direction; each component is -1, 0 or 1.
#[derive(Clone, Copy, Debug, PartialEq, Eq)]
pub struct Steer {
    pub x: i8,
    pub y: i8,
}

impl Steer {
    /// Squared length of the direction: 0 (no pull), 1 (one axis) or 2 (a corner).
    /// The host divides the direction by the square root of this to get a unit vector.
    pub fn norm_sq(&self) -> (r: u8)
        requires
            -1 <= self.x <= 1,
            -1 <= self.y <= 1,
        ensures
            r == self.x * self.x + self.y * self.y,
            r <= 2,
    {
        let x: u8 = if self.x != 0 { 1 } else { 0 };
        let y: u8 = if self.y != 0 { 1 } else { 0 };
        assert(x == self.x * self.x && y == self.y * self.y) by (nonlinear_arith)
            requires
                -1 <= self.x <= 1,
                -1 <= self.y <= 1,
                x == (if self.x != 0 { 1int } else { 0int }),
                y == (if self.y != 0 { 1int } else { 0int }),
        ;
        x + y
    }

    /// Whether no edge pulls the agent.
    pub fn is_zero(&self) -> (r: bool)
        ensures
            r == (self.x == 0 && self.y == 0),
    {
        self.x == 0 && self.y == 0
    }
}

/// The boundary-steering direction from the four independent edge tests:
/// left of the margin pulls +x, right of it -x, above it +y, below it -y.
pub fn boundary_steer(left: bool, right: bool, top: bool, bottom: bool) -> (r: Steer)
    ensures
        r.x == axis_pull(left, right),
        r.y == axis_pull(top, bottom),
        -1 <= r.x <= 1,
        -1 <= r.y <= 1,
{
    let mut x: i8 = 0;
    let mut y: i8 = 0;
    if left {
        x = x + 1;
    }
    if right {
        x = x - 1;
    }
    if top {
        y = y + 1;
    }
    if bottom {
        y = y - 1;
    }
    Steer { x, y }
}

} // verus!
