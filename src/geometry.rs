use vstd::prelude::*;

verus! {

/// A cell of the play space.
#[derive(Clone, Copy, Debug, PartialEq, Eq, Structural)]
pub struct GridCoord {
    pub x: i32,
    pub y: i32,
    pub z: i32,
}

impl GridCoord {
    pub fn new(x: i32, y: i32, z: i32) -> (r: GridCoord)
        ensures
            r == (GridCoord { x, y, z }),
    {
        GridCoord { x, y, z }
    }

    /// Every axis lies strictly inside the range of `i32`, so one unit step
    /// in any direction stays representable.
    pub open spec fn can_step(self) -> bool {
        i32::MIN < self.x < i32::MAX && i32::MIN < self.y < i32::MAX && i32::MIN < self.z
            < i32::MAX
    }

    /// The cell one unit step away in direction `d`.
    pub open spec fn step_spec(self, d: Direction) -> GridCoord {
        let (dx, dy, dz) = d.unit();
        GridCoord {
            x: (self.x + dx) as i32,
            y: (self.y + dy) as i32,
            z: (self.z + dz) as i32,
        }
    }

    pub fn step(self, d: Direction) -> (r: GridCoord)
        requires
            self.can_step(),
        ensures
            r == self.step_spec(d),
            r.x == self.x + d.unit().0,
            r.y == self.y + d.unit().1,
            r.z == self.z + d.unit().2,
    {
        let (dx, dy, dz) = d.offsets();
        GridCoord { x: self.x + dx, y: self.y + dy, z: self.z + dz }
    }
}

/// One of the six unit movement vectors; there is no "stop".
#[derive(Clone, Copy, Debug, PartialEq, Eq, Structural)]
pub enum Direction {
    PosX,
    NegX,
    PosY,
    NegY,
    PosZ,
    NegZ,
}

impl Direction {
    /// The unit vector of the direction.
    pub open spec fn unit(self) -> (int, int, int) {
        match self {
            Direction::PosX => (1, 0, 0),
            Direction::NegX => (-1, 0, 0),
            Direction::PosY => (0, 1, 0),
            Direction::NegY => (0, -1, 0),
            Direction::PosZ => (0, 0, 1),
            Direction::NegZ => (0, 0, -1),
        }
    }

    pub fn offsets(self) -> (r: (i32, i32, i32))
        ensures
            (r.0 as int, r.1 as int, r.2 as int) == self.unit(),
    {
        match self {
            Direction::PosX => (1, 0, 0),
            Direction::NegX => (-1, 0, 0),
            Direction::PosY => (0, 1, 0),
            Direction::NegY => (0, -1, 0),
            Direction::PosZ => (0, 0, 1),
            Direction::NegZ => (0, 0, -1),
        }
    }
}

/// The screen offset applied per unit of depth; its direction is what the
/// projection uses, its full length is the depth of a drawn cube.
#[derive(Clone, Copy, Debug, PartialEq, Eq, Structural)]
pub struct Perspective {
    pub x: i32,
    pub y: i32,
}

/// A configuration that cannot be drawn.
#[derive(Clone, Copy, Debug, PartialEq, Eq, Structural)]
pub enum ConfigError {
    /// The perspective vector is (0, 0): it has no direction to project depth along.
    ZeroPerspective,
}

impl Perspective {
    /// A perspective vector that has a direction.
    pub open spec fn wf(self) -> bool {
        self.x != 0 || self.y != 0
    }

    /// The squared length of the vector.
    pub open spec fn len_sq(self) -> int {
        self.x * self.x + self.y * self.y
    }

    /// Accepts any vector but (0, 0), which is a configuration error.
    pub fn new(x: i32, y: i32) -> (r: Result<Perspective, ConfigError>)
        ensures
            r is Err <==> (x == 0 && y == 0),
            r is Err ==> r == Err::<Perspective, ConfigError>(ConfigError::ZeroPerspective),
            r matches Ok(p) ==> p == (Perspective { x, y }) && p.wf(),
    {
        if x == 0 && y == 0 {
            Err(ConfigError::ZeroPerspective)
        } else {
            Ok(Perspective { x, y })
        }
    }

    /// The squared length, exact in `u64`.
    pub fn length_squared(self) -> (r: u64)
        ensures
            r == self.len_sq(),
            self.wf() ==> r > 0,
    {
        let x: i64 = self.x as i64;
        let y: i64 = self.y as i64;
        assert(0 <= x * x <= 0x4000_0000_0000_0000 && 0 <= y * y <= 0x4000_0000_0000_0000)
            by (nonlinear_arith)
            requires
                i32::MIN <= x <= i32::MAX,
                i32::MIN <= y <= i32::MAX,
        ;
        assert(self.wf() ==> x * x + y * y > 0) by (nonlinear_arith)
            requires
                x == self.x,
                y == self.y,
        ;
        let xx: i64 = x * x;
        let yy: i64 = y * y;
        xx as u64 + yy as u64
    }
}

} // verus!
