use vstd::prelude::*;
use crate::boid::Boid;
use crate::geometry::{
    Point, clamp_i, div_trunc_i, dist_sq_i, mul_scale_i, ANGLE_LIMIT, COORD_LIMIT, PI_FIXED,
    SCALE, TWO_PI_FIXED, in_range, project,
};

verus! {

/// Default screen width, in fixed-point screen units.
pub const SCREEN_WIDTH: i64 = 800 * SCALE;

/// Default screen height, in fixed-point screen units.
pub const SCREEN_HEIGHT: i64 = 600 * SCALE;

/// Default boundary buffer: an agent whose tentative position comes within
/// this margin of a screen edge has its heading reflected.
pub const SCREEN_BUFFER: i64 = 15 * SCALE;

/// Default neighbor-detection radius.
pub const NEIGHBOR_RADIUS: i64 = 30 * SCALE;

/// Default steering blend divisor: each frame the heading moves by this
/// fraction of its difference from the bearing toward the neighbors.
pub const STEER_DIVISOR: i64 = 300;

/// Default spawn margin: fresh agents appear at least this far inside each
/// screen edge.
pub const SPAWN_MARGIN: i64 = 100 * SCALE;

/// Default population size.
pub const NUMBER_OF_BOIDS: usize = 50;

/// Largest population the update is sized for.
pub const MAX_POPULATION: usize = 1_000_000;

/// The simulation's configuration: screen bounds, margins, steering
/// parameters and population size, all overridable rather than baked in.
#[derive(Clone, Copy, PartialEq, Eq, Structural, Debug)]
pub struct Config {
    pub width: i64,
    pub height: i64,
    pub buffer: i64,
    pub radius: i64,
    pub steer_divisor: i64,
    pub spawn_margin: i64,
    pub population: usize,
}

impl Config {
    /// A configuration the update can run on: positive screen, margins and
    /// radius within the tracked range, a positive blend divisor, a spawn
    /// rectangle that is not inside out, and a bounded population.
    pub open spec fn valid(self) -> bool {
        &&& 0 < self.width <= COORD_LIMIT
        &&& 0 < self.height <= COORD_LIMIT
        &&& 0 <= self.buffer <= COORD_LIMIT
        &&& 0 <= self.radius <= COORD_LIMIT
        &&& 0 < self.steer_divisor
        &&& 0 <= self.spawn_margin
        &&& 2 * self.spawn_margin <= self.width
        &&& 2 * self.spawn_margin <= self.height
        &&& self.population <= MAX_POPULATION
    }

    /// Decide `valid` at run time, so that a caller outside the library can
    /// reject a degenerate configuration up front instead of running on it.
    pub fn check_valid(&self) -> (b: bool)
        ensures
            b == self.valid(),
    {
        0 < self.width && self.width <= COORD_LIMIT && 0 < self.height && self.height
            <= COORD_LIMIT && 0 <= self.buffer && self.buffer <= COORD_LIMIT && 0 <= self.radius
            && self.radius <= COORD_LIMIT && 0 < self.steer_divisor && 0 <= self.spawn_margin
            && self.spawn_margin <= self.width / 2 && self.spawn_margin <= self.height / 2
            && self.population <= MAX_POPULATION
    }

    /// The default configuration: an 800 by 600 screen, a 15-unit boundary
    /// buffer, a 30-unit neighbor radius, a 1/300 steering blend, a
    /// 100-unit spawn margin and 50 agents.
    pub fn standard() -> (c: Config)
        ensures
            c.valid(),
            c.width == SCREEN_WIDTH,
            c.height == SCREEN_HEIGHT,
            c.buffer == SCREEN_BUFFER,
            c.radius == NEIGHBOR_RADIUS,
            c.steer_divisor == STEER_DIVISOR,
            c.spawn_margin == SPAWN_MARGIN,
            c.population == NUMBER_OF_BOIDS,
    {
        Config {
            width: SCREEN_WIDTH,
            height: SCREEN_HEIGHT,
            buffer: SCREEN_BUFFER,
            radius: NEIGHBOR_RADIUS,
            steer_divisor: STEER_DIVISOR,
            spawn_margin: SPAWN_MARGIN,
            population: NUMBER_OF_BOIDS,
        }
    }
}

/// What the commit step is to do to one agent's heading: a boundary
/// reflection already resolved to a concrete heading, no change, or a
/// steering nudge toward the bearing of `(dx, dy)` — the offset from the
/// agent to its neighbors' average position — which only trigonometry
/// outside this library can turn into an angle.
#[derive(Clone, Copy, PartialEq, Eq, Structural, Debug)]
pub enum HeadingPlan {
    Bounded { new_heading: i64 },
    Drift,
    Steer { dx: i64, dy: i64 },
}

/// One agent's share of a planned frame: the already-advanced tentative
/// position, and what is to happen to its heading.
#[derive(Clone, Copy, PartialEq, Eq, Structural, Debug)]
pub struct AgentPlan {
    pub candidate: Point,
    pub heading_plan: HeadingPlan,
}

/// Whether agent `j` counts as a neighbor of agent `i`: it sits at a
/// different position (an agent at the very same spot — itself included —
/// is excluded) and strictly within the detection radius.
pub open spec fn is_neighbor(bs: Seq<Boid>, i: int, j: int, radius: int) -> bool {
    &&& bs[j].position != bs[i].position
    &&& dist_sq_i(bs[i].position, bs[j].position) < radius * radius
}

/// How many of the first `upto` agents are neighbors of agent `i`.
pub open spec fn neighbor_count(bs: Seq<Boid>, i: int, radius: int, upto: nat) -> int
    decreases upto,
{
    if upto == 0 {
        0
    } else {
        neighbor_count(bs, i, radius, (upto - 1) as nat) + if is_neighbor(
            bs,
            i,
            upto - 1,
            radius,
        ) {
            1int
        } else {
            0int
        }
    }
}

/// Sum of the x coordinates of agent `i`'s neighbors among the first
/// `upto` agents.
pub open spec fn neighbor_sum_x(bs: Seq<Boid>, i: int, radius: int, upto: nat) -> int
    decreases upto,
{
    if upto == 0 {
        0
    } else {
        neighbor_sum_x(bs, i, radius, (upto - 1) as nat) + if is_neighbor(
            bs,
            i,
            upto - 1,
            radius,
        ) {
            bs[upto - 1].position.x as int
        } else {
            0int
        }
    }
}

/// Sum of the y coordinates of agent `i`'s neighbors among the first
/// `upto` agents.
pub open spec fn neighbor_sum_y(bs: Seq<Boid>, i: int, radius: int, upto: nat) -> int
    decreases upto,
{
    if upto == 0 {
        0
    } else {
        neighbor_sum_y(bs, i, radius, (upto - 1) as nat) + if is_neighbor(
            bs,
            i,
            upto - 1,
            radius,
        ) {
            bs[upto - 1].position.y as int
        } else {
            0int
        }
    }
}

/// The tentative x coordinate of an agent advanced one step along its
/// heading, whose cosine is `cos_a`.
pub open spec fn cand_x(b: Boid, cos_a: int) -> int {
    clamp_i(b.position.x - mul_scale_i(b.speed as int, cos_a), COORD_LIMIT as int)
}

/// The tentative y coordinate of an agent advanced one step along its
/// heading, whose sine is `sin_a`.
pub open spec fn cand_y(b: Boid, sin_a: int) -> int {
    clamp_i(b.position.y - mul_scale_i(b.speed as int, sin_a), COORD_LIMIT as int)
}

/// Whether a tentative position at `(cx, cy)` trips any of the four
/// boundary conditions.
pub open spec fn boundary_fires(cx: int, cy: int, cfg: Config) -> bool {
    ||| cx < cfg.buffer
    ||| cy < cfg.buffer
    ||| cx > cfg.width - cfg.buffer
    ||| cy > cfg.height - cfg.buffer
}

/// The heading after a boundary reflection, checked in the fixed priority
/// order left, top, right, bottom: only the first condition that holds
/// fires. Left and right reflect to `pi - h`, top to `2*pi - h`, bottom
/// to `-h`.
pub open spec fn reflected_heading(cx: int, cy: int, cfg: Config, h: int) -> int {
    if cx < cfg.buffer {
        clamp_i(PI_FIXED - h, ANGLE_LIMIT as int)
    } else if cy < cfg.buffer {
        clamp_i(TWO_PI_FIXED - h, ANGLE_LIMIT as int)
    } else if cx > cfg.width - cfg.buffer {
        clamp_i(PI_FIXED - h, ANGLE_LIMIT as int)
    } else {
        clamp_i(-h, ANGLE_LIMIT as int)
    }
}

/// What a correct plan entry for agent `i` holds, given the snapshot `bs`
/// and the cosine and sine of agent `i`'s heading: the candidate position
/// is the projected step; if that candidate trips a boundary condition the
/// heading plan is the reflected heading and steering is skipped; otherwise,
/// with no neighbor in range the heading is left alone, and with neighbors
/// in range the plan carries the offset from the agent to the neighbors'
/// average position — the sums divided by the total agent count, not by the
/// neighbor count, which is this simulation's deliberate averaging policy.
pub open spec fn plan_matches(
    bs: Seq<Boid>,
    cfg: Config,
    i: int,
    cos_a: int,
    sin_a: int,
    p: AgentPlan,
) -> bool {
    let cx = cand_x(bs[i], cos_a);
    let cy = cand_y(bs[i], sin_a);
    let n = bs.len() as int;
    &&& p.candidate.x == cx
    &&& p.candidate.y == cy
    &&& if boundary_fires(cx, cy, cfg) {
        p.heading_plan matches HeadingPlan::Bounded { new_heading } && new_heading
            == reflected_heading(cx, cy, cfg, bs[i].heading as int)
    } else if neighbor_count(bs, i, cfg.radius as int, bs.len()) == 0 {
        p.heading_plan is Drift
    } else {
        p.heading_plan matches HeadingPlan::Steer { dx, dy } && dx == div_trunc_i(
            neighbor_sum_x(bs, i, cfg.radius as int, bs.len()),
            n,
        ) - bs[i].position.x && dy == div_trunc_i(
            neighbor_sum_y(bs, i, cfg.radius as int, bs.len()),
            n,
        ) - bs[i].position.y
    }
}

/// The heading an agent ends the frame with: resolved by the plan, except
/// that a steering plan nudges the old heading a `1/divisor` fraction of
/// the way toward `bearing`, the angle of `(dx, dy)` that the caller
/// computed.
pub open spec fn committed_heading(b: Boid, p: AgentPlan, bearing: int, divisor: int) -> int {
    match p.heading_plan {
        HeadingPlan::Bounded { new_heading } => new_heading as int,
        HeadingPlan::Drift => b.heading as int,
        HeadingPlan::Steer { .. } => clamp_i(
            b.heading + div_trunc_i(bearing - b.heading, divisor),
            ANGLE_LIMIT as int,
        ),
    }
}

/// The flock: the sole owner of the agent collection, which it advances
/// frame by frame. A frame is planned from a frozen snapshot of every
/// agent's state and committed in one pass, so no agent ever reads a
/// half-updated neighbor.
pub struct Flock {
    pub config: Config,
    pub boids: Vec<Boid>,
}

impl Flock {
    /// The configuration is valid, the population fits the sizing bound,
    /// and every agent's state is within the tracked ranges.
    pub open spec fn wf(self) -> bool {
        &&& self.config.valid()
        &&& self.boids@.len() <= MAX_POPULATION
        &&& forall|i: int|
            0 <= i < self.boids@.len() ==> (#[trigger] self.boids@[i]).wf()
    }

    /// Assemble a flock from explicit agents.
    pub fn new(config: Config, boids: Vec<Boid>) -> (f: Flock)
        requires
            config.valid(),
            boids@.len() <= MAX_POPULATION,
            forall|i: int| 0 <= i < boids@.len() ==> (#[trigger] boids@[i]).wf(),
        ensures
            f.config == config,
            f.boids@ == boids@,
            f.wf(),
    {
        Flock { config, boids }
    }

    /// Assemble a flock of `config.population` freshly randomized agents.
    pub fn random(config: Config) -> (f: Flock)
        requires
            config.valid(),
        ensures
            f.config == config,
            f.boids@.len() == config.population,
            f.wf(),
            forall|i: int|
                0 <= i < f.boids@.len() ==> {
                    let b = #[trigger] f.boids@[i];
                    &&& config.spawn_margin <= b.position.x <= config.width - config.spawn_margin
                    &&& config.spawn_margin <= b.position.y <= config.height - config.spawn_margin
                    &&& b.speed == SCALE
                    &&& b.color.alpha == SCALE
                },
    {
        let mut boids: Vec<Boid> = Vec::new();
        let mut k: usize = 0;
        while k < config.population
            invariant
                config.valid(),
                k <= config.population,
                boids@.len() == k,
                forall|i: int|
                    0 <= i < boids@.len() ==> {
                        let b = #[trigger] boids@[i];
                        &&& b.wf()
                        &&& config.spawn_margin <= b.position.x <= config.width
                            - config.spawn_margin
                        &&& config.spawn_margin <= b.position.y <= config.height
                            - config.spawn_margin
                        &&& b.speed == SCALE
                        &&& b.color.alpha == SCALE
                    },
            decreases config.population - k,
        {
            let b = Boid::random(config.width, config.height, config.spawn_margin);
            boids.push(b);
            k = k + 1;
        }
        Flock { config, boids }
    }

    /// Plan one frame from the current snapshot. `trig[i]` carries the
    /// fixed-point cosine and sine of agent `i`'s heading; everything else
    /// — tentative advance, boundary priority, neighbor scan and averaging
    /// — is decided here.
    pub fn update_plan(&self, trig: &Vec<(i64, i64)>) -> (plan: Vec<AgentPlan>)
        requires
            self.wf(),
            trig@.len() == self.boids@.len(),
            forall|i: int|
                0 <= i < trig@.len() ==> -SCALE <= (#[trigger] trig@[i]).0 <= SCALE && -SCALE
                    <= trig@[i].1 <= SCALE,
        ensures
            plan@.len() == self.boids@.len(),
            forall|i: int|
                0 <= i < plan@.len() ==> plan_matches(
                    self.boids@,
                    self.config,
                    i,
                    trig@[i].0 as int,
                    trig@[i].1 as int,
                    #[trigger] plan@[i],
                ),
    {
        let n = self.boids.len();
        let mut plan: Vec<AgentPlan> = Vec::new();
        let mut i: usize = 0;
        while i < n
            invariant
                self.wf(),
                n == self.boids@.len(),
                trig@.len() == n,
                forall|k: int|
                    0 <= k < trig@.len() ==> -SCALE <= (#[trigger] trig@[k]).0 <= SCALE && -SCALE
                        <= trig@[k].1 <= SCALE,
                i <= n,
                plan@.len() == i,
                forall|k: int|
                    0 <= k < i ==> plan_matches(
                        self.boids@,
                        self.config,
                        k,
                        trig@[k].0 as int,
                        trig@[k].1 as int,
                        #[trigger] plan@[k],
                    ),
            decreases n - i,
        {
            let b = self.boids[i];
            let pair = trig[i];
            let cand = project(b.position, pair.0, pair.1, b.speed);
            let hp: HeadingPlan = if cand.x < self.config.buffer {
                HeadingPlan::Bounded { new_heading: crate::geometry::clamp64(PI_FIXED - b.heading, ANGLE_LIMIT) }
            } else if cand.y < self.config.buffer {
                HeadingPlan::Bounded {
                    new_heading: crate::geometry::clamp64(TWO_PI_FIXED - b.heading, ANGLE_LIMIT),
                }
            } else if cand.x > self.config.width - self.config.buffer {
                HeadingPlan::Bounded { new_heading: crate::geometry::clamp64(PI_FIXED - b.heading, ANGLE_LIMIT) }
            } else if cand.y > self.config.height - self.config.buffer {
                HeadingPlan::Bounded { new_heading: crate::geometry::clamp64(0 - b.heading, ANGLE_LIMIT) }
            } else {
                let mut count: usize = 0;
                let mut sum_x: i128 = 0;
                let mut sum_y: i128 = 0;
                let mut j: usize = 0;
                while j < n
                    invariant
                        self.wf(),
                        n == self.boids@.len(),
                        i < n,
                        j <= n,
                        b == self.boids@[i as int],
                        count as int == neighbor_count(
                            self.boids@,
                            i as int,
                            self.config.radius as int,
                            j as nat,
                        ),
                        sum_x as int == neighbor_sum_x(
                            self.boids@,
                            i as int,
                            self.config.radius as int,
                            j as nat,
                        ),
                        sum_y as int == neighbor_sum_y(
                            self.boids@,
                            i as int,
                            self.config.radius as int,
                            j as nat,
                        ),
                        count <= j,
                        -(j as int * COORD_LIMIT as int) <= sum_x as int <= j as int
                            * COORD_LIMIT as int,
                        -(j as int * COORD_LIMIT as int) <= sum_y as int <= j as int
                            * COORD_LIMIT as int,
                    decreases n - j,
                {
                    let other = self.boids[j];
                    if !(other.position == b.position) && in_range(
                        b.position,
                        other.position,
                        self.config.radius,
                    ) {
                        count = count + 1;
                        sum_x = sum_x + (other.position.x as i128);
                        sum_y = sum_y + (other.position.y as i128);
                    }
                    j = j + 1;
                }
                if count > 0 {
                    proof {
                        crate::geometry::lemma_div_trunc_bound(
                            sum_x as int,
                            n as int,
                            COORD_LIMIT as int,
                        );
                        crate::geometry::lemma_div_trunc_bound(
                            sum_y as int,
                            n as int,
                            COORD_LIMIT as int,
                        );
                    }
                    let avg_x = crate::geometry::div_trunc128(sum_x, n as i128);
                    let avg_y = crate::geometry::div_trunc128(sum_y, n as i128);
                    let dx: i64 = (avg_x - (b.position.x as i128)) as i64;
                    let dy: i64 = (avg_y - (b.position.y as i128)) as i64;
                    HeadingPlan::Steer { dx, dy }
                } else {
                    HeadingPlan::Drift
                }
            };
            plan.push(AgentPlan { candidate: cand, heading_plan: hp });
            i = i + 1;
        }
        plan
    }

    /// Commit a planned frame. `bearings[i]` answers agent `i`'s steering
    /// query — the fixed-point angle of its plan's `(dx, dy)` — and is read
    /// only for agents whose plan steers. Every agent's position becomes
    /// its candidate, and its speed and color are carried over untouched,
    /// whatever the plan holds.
    pub fn update_commit(&mut self, plan: &Vec<AgentPlan>, bearings: &Vec<i64>)
        requires
            old(self).wf(),
            plan@.len() == old(self).boids@.len(),
            bearings@.len() == plan@.len(),
            forall|i: int|
                0 <= i < bearings@.len() ==> -ANGLE_LIMIT <= #[trigger] bearings@[i]
                    <= ANGLE_LIMIT,
            forall|i: int|
                0 <= i < plan@.len() ==> {
                    let p = #[trigger] plan@[i];
                    &&& p.candidate.wf()
                    &&& (p.heading_plan matches HeadingPlan::Bounded { new_heading }
                        ==> -ANGLE_LIMIT <= new_heading <= ANGLE_LIMIT)
                },
        ensures
            final(self).config == old(self).config,
            final(self).boids@.len() == old(self).boids@.len(),
            forall|i: int|
                0 <= i < final(self).boids@.len() ==> {
                    let ob = old(self).boids@[i];
                    let nb = #[trigger] final(self).boids@[i];
                    &&& nb.position == plan@[i].candidate
                    &&& nb.speed == ob.speed
                    &&& nb.color == ob.color
                    &&& nb.heading as int == committed_heading(
                        ob,
                        plan@[i],
                        bearings@[i] as int,
                        old(self).config.steer_divisor as int,
                    )
                },
            final(self).wf(),
    {
        let n = self.boids.len();
        let mut new_boids: Vec<Boid> = Vec::new();
        let mut i: usize = 0;
        while i < n
            invariant
                old(self).wf(),
                self == old(self),
                n == self.boids@.len(),
                plan@.len() == n,
                bearings@.len() == n,
                forall|k: int|
                    0 <= k < bearings@.len() ==> -ANGLE_LIMIT <= #[trigger] bearings@[k]
                        <= ANGLE_LIMIT,
                forall|k: int|
                    0 <= k < plan@.len() ==> {
                        let p = #[trigger] plan@[k];
                        &&& p.candidate.wf()
                        &&& (p.heading_plan matches HeadingPlan::Bounded { new_heading }
                            ==> -ANGLE_LIMIT <= new_heading <= ANGLE_LIMIT)
                    },
                i <= n,
                new_boids@.len() == i,
                forall|k: int|
                    0 <= k < i ==> {
                        let ob = self.boids@[k];
                        let nb = #[trigger] new_boids@[k];
                        &&& nb.position == plan@[k].candidate
                        &&& nb.speed == ob.speed
                        &&& nb.color == ob.color
                        &&& nb.wf()
                        &&& nb.heading as int == committed_heading(
                            ob,
                            plan@[k],
                            bearings@[k] as int,
                            self.config.steer_divisor as int,
                        )
                    },
            decreases n - i,
        {
            let ob = self.boids[i];
            let p = plan[i];
            let nh: i64 = match p.heading_plan {
                HeadingPlan::Bounded { new_heading } => new_heading,
                HeadingPlan::Drift => ob.heading,
                HeadingPlan::Steer { dx: _, dy: _ } => {
                    let delta: i64 = bearings[i] - ob.heading;
                    assert(1 as int * (2 * ANGLE_LIMIT as int) <= self.config.steer_divisor as int
                        * (2 * ANGLE_LIMIT as int)) by (nonlinear_arith)
                        requires
                            0 < self.config.steer_divisor,
                    ;
                    proof {
                        crate::geometry::lemma_div_trunc_bound(
                            delta as int,
                            self.config.steer_divisor as int,
                            2 * ANGLE_LIMIT as int,
                        );
                    }
                    let nudge = crate::geometry::div_trunc128(
                        delta as i128,
                        self.config.steer_divisor as i128,
                    );
                    crate::geometry::clamp128((ob.heading as i128) + nudge, ANGLE_LIMIT)
                },
            };
            new_boids.push(
                Boid { position: p.candidate, heading: nh, speed: ob.speed, color: ob.color },
            );
            i = i + 1;
        }
        self.boids = new_boids;
    }
}

/// A tentative position strictly inside the buffered screen rectangle on
/// both axes trips no boundary condition, so such an agent's steering is
/// evaluated that frame.
pub proof fn lemma_interior_steers(cx: int, cy: int, cfg: Config)
    requires
        cfg.buffer < cx < cfg.width - cfg.buffer,
        cfg.buffer < cy < cfg.height - cfg.buffer,
    ensures
        !boundary_fires(cx, cy, cfg),
{
}

/// Boundary priority: a tentative position that violates the left and top
/// conditions at once takes only the left correction, `pi - h`; the top
/// correction does not also apply in the same frame.
pub proof fn lemma_boundary_priority(cx: int, cy: int, cfg: Config, h: int)
    requires
        cx < cfg.buffer,
        cy < cfg.buffer,
    ensures
        boundary_fires(cx, cy, cfg),
        reflected_heading(cx, cy, cfg, h) == clamp_i(PI_FIXED - h, ANGLE_LIMIT as int),
{
}

/// Self-exclusion by position: in a flock of exactly two agents at the
/// very same position, neither counts the other as a neighbor, so neither
/// receives a steering nudge.
pub proof fn lemma_coincident_pair_not_neighbors(bs: Seq<Boid>, radius: int)
    requires
        bs.len() == 2,
        bs[0].position == bs[1].position,
    ensures
        neighbor_count(bs, 0, radius, 2) == 0,
        neighbor_count(bs, 1, radius, 2) == 0,
{
    assert(neighbor_count(bs, 0, radius, 0) == 0);
    assert(neighbor_count(bs, 1, radius, 0) == 0);
    assert(neighbor_count(bs, 0, radius, 1) == 0);
    assert(neighbor_count(bs, 1, radius, 1) == 0);
}

/// An agent with no neighbor in range and no boundary correction keeps its
/// heading: its plan can only be a drift.
pub proof fn lemma_no_neighbors_drifts(
    bs: Seq<Boid>,
    cfg: Config,
    i: int,
    cos_a: int,
    sin_a: int,
    p: AgentPlan,
)
    requires
        0 <= i < bs.len(),
        plan_matches(bs, cfg, i, cos_a, sin_a, p),
        !boundary_fires(cand_x(bs[i], cos_a), cand_y(bs[i], sin_a), cfg),
        neighbor_count(bs, i, cfg.radius as int, bs.len()) == 0,
    ensures
        p.heading_plan is Drift,
{
}

} // verus!

