use vstd::prelude::*;
use crate::geometry::Perspective;
use crate::screen::{ScreenOffset, ScreenPoint, ScreenRect, SCREEN_LIMIT};

verus! {

/// An opaque colour.
#[derive(Clone, Copy, Debug, PartialEq, Eq, Structural)]
pub struct Rgb {
    pub r: u8,
    pub g: u8,
    pub b: u8,
}

impl Rgb {
    pub fn new(r: u8, g: u8, b: u8) -> (c: Rgb)
        ensures
            c == (Rgb { r, g, b }),
    {
        Rgb { r, g, b }
    }
}

/// One call to the renderer.
#[derive(Clone, Copy, Debug, PartialEq, Eq, Structural)]
pub enum DrawCommand {
    SetColor(Rgb),
    Clear,
    DrawRect(ScreenRect),
    FillRect(ScreenRect),
    DrawLine(ScreenPoint, ScreenPoint),
    Present,
}

/// A box drawn as a back face at its position, a front face moved by the
/// perspective vector, and the four edges that join their corners.
#[derive(Clone, Copy, Debug, PartialEq, Eq, Structural)]
pub struct ColoredCube {
    pub pos: ScreenPoint,
    pub w: u32,
    pub h: u32,
    pub perspective: Perspective,
    pub color: Rgb,
    pub fill: bool,
}

/// The edge from a corner of the back face to the same corner of the front face.
pub open spec fn edge_spec(corner: ScreenPoint, p: Perspective) -> DrawCommand {
    DrawCommand::DrawLine(corner, corner.shifted(p.x as int, p.y as int))
}

impl ColoredCube {
    pub open spec fn wf(self) -> bool {
        self.pos.wf()
    }

    /// The back face.
    pub open spec fn base_rect(self) -> ScreenRect {
        ScreenRect { origin: self.pos, w: self.w, h: self.h }
    }

    /// The front face: the back face moved by the perspective vector.
    pub open spec fn front_rect(self) -> ScreenRect {
        ScreenRect {
            origin: self.pos.shifted(self.perspective.x as int, self.perspective.y as int),
            w: self.w,
            h: self.h,
        }
    }

    /// The four depth edges, from the corners top-left, top-right,
    /// bottom-left and bottom-right.
    pub open spec fn edges(self) -> Seq<DrawCommand> {
        let p = self.perspective;
        seq![
            edge_spec(self.pos, p),
            edge_spec(self.pos.shifted(self.w as int, 0), p),
            edge_spec(self.pos.shifted(0, self.h as int), p),
            edge_spec(self.pos.shifted(self.w as int, self.h as int), p),
        ]
    }

    /// What drawing the cube asks of the renderer, in order: the back face
    /// (also filled when `fill` is set), the depth edges, the front face,
    /// each after setting the cube's colour.
    pub open spec fn commands(self) -> Seq<DrawCommand> {
        let c = DrawCommand::SetColor(self.color);
        let back = if self.fill {
            seq![c, DrawCommand::DrawRect(self.base_rect()), DrawCommand::FillRect(self.base_rect())]
        } else {
            seq![c, DrawCommand::DrawRect(self.base_rect())]
        };
        back + seq![c] + self.edges() + seq![c, DrawCommand::DrawRect(self.front_rect())]
    }

    /// A cube at a flat screen position, with no depth.
    pub fn new(
        x: i64,
        y: i64,
        w: u32,
        h: u32,
        perspective: Perspective,
        color: Rgb,
        fill: bool,
    ) -> (r: ColoredCube)
        requires
            -SCREEN_LIMIT <= x <= SCREEN_LIMIT,
            -SCREEN_LIMIT <= y <= SCREEN_LIMIT,
        ensures
            r == (ColoredCube {
                pos: ScreenPoint { x, y, dx: 0, dy: 0, len_sq: 1 },
                w,
                h,
                perspective,
                color,
                fill,
            }),
            r.wf(),
    {
        ColoredCube {
            pos: ScreenPoint { x, y, dx: 0, dy: 0, len_sq: 1 },
            w,
            h,
            perspective,
            color,
            fill,
        }
    }

    /// A cube at screen position (`x`, `y`) moved by `offset`, and `z` units
    /// along the direction of the perspective vector.
    pub fn virtual_3d(
        x: i64,
        y: i64,
        z: i32,
        w: u32,
        h: u32,
        perspective: Perspective,
        color: Rgb,
        fill: bool,
        offset: ScreenOffset,
    ) -> (r: ColoredCube)
        requires
            perspective.wf(),
            -0x4000_0000_0000_0000 <= x <= 0x4000_0000_0000_0000,
            -0x4000_0000_0000_0000 <= y <= 0x4000_0000_0000_0000,
        ensures
            r == (ColoredCube {
                pos: ScreenPoint {
                    x: (x + offset.x) as i64,
                    y: (y + offset.y) as i64,
                    dx: (perspective.x * z) as i64,
                    dy: (perspective.y * z) as i64,
                    len_sq: perspective.len_sq() as u64,
                },
                w,
                h,
                perspective,
                color,
                fill,
            }),
            r.wf(),
    {
        let px: i64 = perspective.x as i64;
        let py: i64 = perspective.y as i64;
        let zz: i64 = z as i64;
        assert(-0x4000_0000_0000_0000 <= px * zz <= 0x4000_0000_0000_0000
            && -0x4000_0000_0000_0000 <= py * zz <= 0x4000_0000_0000_0000) by (nonlinear_arith)
            requires
                i32::MIN <= px <= i32::MAX,
                i32::MIN <= py <= i32::MAX,
                i32::MIN <= zz <= i32::MAX,
        ;
        ColoredCube {
            pos: ScreenPoint {
                x: x + offset.x as i64,
                y: y + offset.y as i64,
                dx: px * zz,
                dy: py * zz,
                len_sq: perspective.length_squared(),
            },
            w,
            h,
            perspective,
            color,
            fill,
        }
    }

    /// Appends the depth edges and the front face, each edge running from
    /// a corner of `back` to that corner moved by `p`.
    fn draw_perspective_lines(
        p: Perspective,
        out: &mut Vec<DrawCommand>,
        back: ScreenRect,
        color: Rgb,
    )
        requires
            back.origin.wf(),
        ensures
            final(out)@ == old(out)@ + seq![DrawCommand::SetColor(color)] + (ColoredCube {
                pos: back.origin,
                w: back.w,
                h: back.h,
                perspective: p,
                color,
                fill: false,
            }).edges() + seq![
                DrawCommand::SetColor(color),
                DrawCommand::DrawRect(
                    ScreenRect {
                        origin: back.origin.shifted(p.x as int, p.y as int),
                        w: back.w,
                        h: back.h,
                    },
                ),
            ],
    {
        let px: i64 = p.x as i64;
        let py: i64 = p.y as i64;
        let w: i64 = back.w as i64;
        let h: i64 = back.h as i64;
        let o = back.origin;
        out.push(DrawCommand::SetColor(color));
        out.push(DrawCommand::DrawLine(o, o.shift(px, py)));
        let tr = o.shift(w, 0);
        out.push(DrawCommand::DrawLine(tr, tr.shift(px, py)));
        let bl = o.shift(0, h);
        out.push(DrawCommand::DrawLine(bl, bl.shift(px, py)));
        let br = o.shift(w, h);
        out.push(DrawCommand::DrawLine(br, br.shift(px, py)));
        out.push(DrawCommand::SetColor(color));
        out.push(DrawCommand::DrawRect(ScreenRect { origin: o.shift(px, py), w: back.w, h: back.h }));
        assert(final(out)@ =~= old(out)@ + seq![DrawCommand::SetColor(color)] + (ColoredCube {
            pos: back.origin,
            w: back.w,
            h: back.h,
            perspective: p,
            color,
            fill: false,
        }).edges() + seq![
            DrawCommand::SetColor(color),
            DrawCommand::DrawRect(
                ScreenRect { origin: back.origin.shifted(p.x as int, p.y as int), w: back.w, h: back.h },
            ),
        ]);
    }

    /// Appends the commands that draw the cube to `out`.
    pub fn draw_into(&self, out: &mut Vec<DrawCommand>)
        requires
            self.wf(),
        ensures
            final(out)@ == old(out)@ + self.commands(),
    {
        out.push(DrawCommand::SetColor(self.color));
        let base = ScreenRect { origin: self.pos, w: self.w, h: self.h };
        out.push(DrawCommand::DrawRect(base));
        if self.fill {
            out.push(DrawCommand::FillRect(base));
        }
        Self::draw_perspective_lines(self.perspective, out, base, self.color);
        assert(out@ =~= old(out)@ + self.commands());
    }

    /// The commands that draw the cube.
    pub fn draw(&self) -> (r: Vec<DrawCommand>)
        requires
            self.wf(),
        ensures
            r@ == self.commands(),
    {
        let mut out: Vec<DrawCommand> = Vec::new();
        self.draw_into(&mut out);
        assert(out@ =~= self.commands());
        out
    }
}

} // verus!
