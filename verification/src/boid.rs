use vstd::prelude::*;
use crate::geometry::{
    Point, clamp_i, div_trunc_i, mul_scale_i, ANGLE_LIMIT, COORD_LIMIT, PI_FIXED, SCALE,
    SPEED_LIMIT, TWO_PI_FIXED, project,
};

verus! {

/// Half-width of the rendered triangle: the two rear vertices sit this far
/// to either side of the agent, perpendicular to its heading.
pub const WING_OFFSET: i64 = 5 * SCALE;

/// How far ahead of the agent the nose vertex of its triangle sits.
pub const NOSE_OFFSET: i64 = 15 * SCALE;

/// A color with four fixed-point channels, each ranging over [0, SCALE]
/// (SCALE standing for full intensity).
#[derive(Clone, Copy, PartialEq, Eq, Structural, Debug)]
pub struct Rgba {
    pub red: i64,
    pub green: i64,
    pub blue: i64,
    pub alpha: i64,
}

impl Rgba {
    /// Every channel lies in [0, SCALE].
    pub open spec fn wf(self) -> bool {
        &&& 0 <= self.red <= SCALE
        &&& 0 <= self.green <= SCALE
        &&& 0 <= self.blue <= SCALE
        &&& 0 <= self.alpha <= SCALE
    }
}

/// One simulated agent: where it is, which way it travels, how far it
/// steps each frame, and the color it is drawn with. Speed and color are
/// fixed at creation; the per-frame update never changes them.
#[derive(Clone, Copy, PartialEq, Eq, Structural, Debug)]
pub struct Boid {
    pub position: Point,
    pub heading: i64,
    pub speed: i64,
    pub color: Rgba,
}

impl Boid {
    /// The agent's fields all lie within the tracked fixed-point ranges.
    pub open spec fn wf(self) -> bool {
        &&& self.position.wf()
        &&& -ANGLE_LIMIT <= self.heading <= ANGLE_LIMIT
        &&& 0 <= self.speed <= SPEED_LIMIT
        &&& self.color.wf()
    }
}

/// Relies on rand's `Rng::gen_range` over an inclusive `i64` range: it
/// returns a value inside the range, and panics only when the range is
/// empty, which the precondition rules out. Nothing more is claimed of
/// which value comes back.
#[verifier::external_body]
fn random_in_range(lo: i64, hi: i64) -> (r: i64)
    requires
        lo <= hi,
    ensures
        lo <= r <= hi,
{
    rand::Rng::gen_range(&mut rand::thread_rng(), lo..=hi)
}

/// The largest heading a fresh agent can draw: pi times the top of the
/// uniform draw below.
pub open spec fn max_spawn_heading() -> int {
    mul_scale_i(PI_FIXED as int, TWO_PI_FIXED as int)
}

impl Boid {
    /// Create an agent with a random state: the position is drawn uniformly
    /// from the sub-rectangle `spawn_margin` units inside each edge of a
    /// `width` by `height` screen, the speed is one unit per frame, and the
    /// color is drawn uniformly per channel with full alpha.
    ///
    /// The heading is pi times a uniform draw over [0, 2*pi], so it ranges
    /// over [0, 2*pi^2) rather than [0, 2*pi); the double scaling is a
    /// deliberate trait of this simulation, kept so that its motion matches
    /// the behavior it documents.
    pub fn random(width: i64, height: i64, spawn_margin: i64) -> (b: Boid)
        requires
            0 < width <= COORD_LIMIT,
            0 < height <= COORD_LIMIT,
            0 <= spawn_margin,
            2 * spawn_margin <= width,
            2 * spawn_margin <= height,
        ensures
            b.wf(),
            spawn_margin <= b.position.x <= width - spawn_margin,
            spawn_margin <= b.position.y <= height - spawn_margin,
            0 <= b.heading <= max_spawn_heading(),
            b.speed == SCALE,
            b.color.alpha == SCALE,
    {
        let x = random_in_range(spawn_margin, width - spawn_margin);
        let y = random_in_range(spawn_margin, height - spawn_margin);
        let t = random_in_range(0, TWO_PI_FIXED);
        assert(0 <= PI_FIXED as int * t as int <= PI_FIXED as int * TWO_PI_FIXED as int)
            by (nonlinear_arith)
            requires
                0 <= t <= TWO_PI_FIXED,
        ;
        let scaled: i128 = (PI_FIXED as i128) * (t as i128);
        let heading_wide: i128 = if scaled >= 0 {
            scaled / (SCALE as i128)
        } else {
            0
        };
        proof {
            vstd::arithmetic::div_mod::lemma_div_pos_is_pos(scaled as int, SCALE as int);
            vstd::arithmetic::div_mod::lemma_div_is_ordered(
                scaled as int,
                PI_FIXED as int * TWO_PI_FIXED as int,
                SCALE as int,
            );
        }
        let heading: i64 = heading_wide as i64;
        let red = random_in_range(0, SCALE);
        let green = random_in_range(0, SCALE);
        let blue = random_in_range(0, SCALE);
        Boid {
            position: Point { x, y },
            heading,
            speed: SCALE,
            color: Rgba { red, green, blue, alpha: SCALE },
        }
    }

    /// The three vertices of the triangle that renders this agent: two rear
    /// vertices offset `WING_OFFSET` to either side along the direction
    /// whose cosine and sine are `perp_cos`/`perp_sin` (the heading turned a
    /// quarter turn), and a nose vertex `NOSE_OFFSET` ahead along the
    /// heading itself, whose cosine and sine are `head_cos`/`head_sin`.
    pub fn shape_vertices(
        &self,
        perp_cos: i64,
        perp_sin: i64,
        head_cos: i64,
        head_sin: i64,
    ) -> (r: (Point, Point, Point))
        requires
            self.wf(),
            -SCALE <= perp_cos <= SCALE,
            -SCALE <= perp_sin <= SCALE,
            -SCALE <= head_cos <= SCALE,
            -SCALE <= head_sin <= SCALE,
        ensures
            r.0.x as int == clamp_i(
                self.position.x - mul_scale_i(WING_OFFSET as int, perp_cos as int),
                COORD_LIMIT as int,
            ),
            r.0.y as int == clamp_i(
                self.position.y - mul_scale_i(WING_OFFSET as int, perp_sin as int),
                COORD_LIMIT as int,
            ),
            r.1.x as int == clamp_i(
                self.position.x - mul_scale_i(-WING_OFFSET as int, perp_cos as int),
                COORD_LIMIT as int,
            ),
            r.1.y as int == clamp_i(
                self.position.y - mul_scale_i(-WING_OFFSET as int, perp_sin as int),
                COORD_LIMIT as int,
            ),
            r.2.x as int == clamp_i(
                self.position.x - mul_scale_i(NOSE_OFFSET as int, head_cos as int),
                COORD_LIMIT as int,
            ),
            r.2.y as int == clamp_i(
                self.position.y - mul_scale_i(NOSE_OFFSET as int, head_sin as int),
                COORD_LIMIT as int,
            ),
    {
        let a = project(self.position, perp_cos, perp_sin, WING_OFFSET);
        let b = project(self.position, perp_cos, perp_sin, -WING_OFFSET);
        let c = project(self.position, head_cos, head_sin, NOSE_OFFSET);
        (a, b, c)
    }
}

} // verus!
