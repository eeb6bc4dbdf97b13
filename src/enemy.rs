//! The per-enemy simulation. A frame runs in phases so that the world's
//! pathfinder and physics step, which live outside this library, can be
//! consulted in between:
//! `begin_frame`, then `request_path` (and `set_path` with the pathfinder's
//! answer when it asks for one), then `steer` (and the physics step on the
//! velocity it returns), then `finish_frame`. `Enemy::update` runs them in
//! that order, with the world's two services passed in as closures.
use vstd::prelude::*;
use crate::catalog::{EnemyMovement, EnemyState, EnemyType, ProjectileFiring, StateChangeCondition};
use crate::geometry::{
    bounded, difference, dist2, len2, length_squared, scale_vector, towards, valid_point, Point,
    SCALE,
};

verus! {

/// Time an enemy spends emerging from its hole, in milliseconds.
pub const HOLE_TIME: u64 = 1800;

/// Time the hole takes to open before the enemy rises, in milliseconds.
pub const HOLE_EMERGE_TIME: u64 = 700;

/// Time between two pathfinder queries, in milliseconds.
pub const REPATH_TIME: u64 = 2000;

/// Squared distance below which the player is near: a radius of 12 units.
pub const NEAR_DISTANCE_SQUARED: i64 = 144_000_000;

/// Squared distance below which a waypoint counts as reached: 4 units.
pub const WAYPOINT_REACHED_SQUARED: i64 = 16_000_000;

/// Offset from the player's position to its centre, on each axis.
pub const PLAYER_CENTER_OFFSET: i64 = 8 * SCALE;

/// Side of a grid cell.
pub const CELL_SIZE: i64 = 16 * SCALE;

/// A grid cell of the world, as the pathfinder names it.
pub type Cell = (i16, i16);

/// The player as the simulation sees it.
#[derive(Clone, Copy, Debug, PartialEq, Eq, Structural)]
pub struct Player {
    pub pos: Point,
    pub health: i64,
}

/// A projectile as emitted. Its direction is `dir` turned by `turn / turns`
/// of a full circle; `time` is its age in milliseconds.
#[derive(Clone, Copy, Debug, PartialEq, Eq, Structural)]
pub struct Projectile {
    pub kind: usize,
    pub pos: Point,
    pub dir: Point,
    pub turn: u8,
    pub turns: u8,
    pub time: u64,
    pub friendly: bool,
}

/// Largest diameter of the hole an enemy emerges from, in pixels.
pub const MAX_HOLE_DIAMETER: u64 = 20;

/// Width of a full health bar, in pixels.
pub const HEALTH_BAR_WIDTH: i64 = 25;

/// What the renderer draws for an enemy besides its sprite.
#[derive(Clone, Copy, Debug, PartialEq, Eq, Structural)]
pub enum DrawPhase {
    /// The hole opens; no sprite yet.
    Hole { diameter: u64 },
    /// The sprite rises out of the hole; `rise_time` milliseconds of the
    /// rise have passed.
    Rising { diameter: u64, rise_time: u64 },
    /// Out of the hole: the sprite with a health bar of the given width.
    Active { health_bar_width: i64 },
}

/// The renderer's view of an enemy: the clip to sample and at which time,
/// whether to mirror the sprite, and the phase.
#[derive(Clone, Copy, Debug, PartialEq, Eq, Structural)]
pub struct EnemyView {
    pub clip: usize,
    pub clip_time: u64,
    pub flip_x: bool,
    pub phase: DrawPhase,
}

/// The hole's diameter after `elapsed` milliseconds of emergence.
pub open spec fn hole_diameter(elapsed: u64) -> u64 {
    let opened = (elapsed as int) * (MAX_HOLE_DIAMETER as int) / (HOLE_EMERGE_TIME as int);
    if opened >= MAX_HOLE_DIAMETER { MAX_HOLE_DIAMETER } else { opened as u64 }
}

/// The health bar's width: health over maximum health, of the full width,
/// rounded down and held within the bar.
pub open spec fn health_bar(health: i64, max: i64) -> i64 {
    if health <= 0 {
        0
    } else if health >= max {
        HEALTH_BAR_WIDTH
    } else {
        ((health as int) * (HEALTH_BAR_WIDTH as int) / (max as int)) as i64
    }
}

/// One enemy. `direction` is its facing, a vector of length `SCALE` up to
/// rounding; `velocity` is in milli-units per second; times are in
/// milliseconds.
#[derive(Debug)]
pub struct Enemy<'a> {
    pub ty: &'a EnemyType,
    pub pos: Point,
    pub health: i64,
    pub animation_time: u64,
    pub direction: Point,
    pub path: Option<Vec<Cell>>,
    pub time_til_pathfind: u64,
    pub velocity: Point,
    pub emerging: bool,
    pub state: usize,
}

pub open spec fn saturating_add(a: u64, b: u64) -> u64 {
    if a + b > u64::MAX { u64::MAX } else { (a + b) as u64 }
}

pub open spec fn saturating_sub(a: u64, b: u64) -> u64 {
    if a < b { 0 } else { (a - b) as u64 }
}

/// Health after losing `damage`, held within `i64` rather than wrapping.
pub open spec fn after_damage(health: i64, damage: i64) -> i64 {
    if health - damage < i64::MIN {
        i64::MIN
    } else if health - damage > i64::MAX {
        i64::MAX
    } else {
        (health - damage) as i64
    }
}

/// The point the enemy chases: the player's centre.
pub open spec fn chase_target(player: Point) -> Point {
    Point { x: (player.x + PLAYER_CENTER_OFFSET) as i64, y: (player.y + PLAYER_CENTER_OFFSET) as i64 }
}

/// The position of a grid cell.
pub open spec fn waypoint(c: Cell) -> Point {
    Point { x: (c.0 * CELL_SIZE) as i64, y: (c.1 * CELL_SIZE) as i64 }
}

/// The cells of a cached path.
pub open spec fn cells(p: Option<Vec<Cell>>) -> Option<Seq<Cell>> {
    match p {
        Some(v) => Some(v@),
        None => None,
    }
}

/// Whether a pathfinder query is due, with the timer already decreased: at
/// most one per recompute interval, whether or not the last one found a path.
pub open spec fn query_due(timer: u64) -> bool {
    timer == 0
}

/// The vector from `from` to `to`.
pub open spec fn offset(from: Point, to: Point) -> Point {
    Point { x: (to.x - from.x) as i64, y: (to.y - from.y) as i64 }
}

/// The point steered for: the next waypoint of the cached path while
/// pathfinding along one, else the player's centre.
pub open spec fn steer_target_of(movement: EnemyMovement, path: Option<Vec<Cell>>, player: Point) -> Point {
    if movement == EnemyMovement::Pathfind && path is Some && path->0@.len() >= 2 {
        waypoint(path->0@[1])
    } else {
        chase_target(player)
    }
}

/// Whether the enemy at `pos` has come within reach of its next waypoint.
pub open spec fn waypoint_reached(movement: EnemyMovement, path: Option<Vec<Cell>>, pos: Point, player: Point) -> bool {
    &&& movement == EnemyMovement::Pathfind
    &&& path is Some
    &&& path->0@.len() >= 2
    &&& dist2(pos, steer_target_of(movement, path, player)) < WAYPOINT_REACHED_SQUARED
}

/// The cached path once steering has dropped a reached waypoint.
pub open spec fn path_after_steer(
    movement: EnemyMovement,
    path: Option<Vec<Cell>>,
    pos: Point,
    player: Point,
) -> Option<Seq<Cell>> {
    if waypoint_reached(movement, path, pos, player) {
        Some(path->0@.drop_first())
    } else {
        cells(path)
    }
}

/// The velocity a state asks of the physics step to head from `pos` for
/// `target`, or `None` when it holds its position.
pub open spec fn requested_velocity(st: EnemyState, pos: Point, target: Point) -> Option<Point> {
    if st.movement == EnemyMovement::Stationary || target == pos {
        None
    } else {
        Some(towards(offset(pos, target), st.speed as int))
    }
}

/// Whether the physics step clipped the requested velocity.
pub open spec fn wall_hit(requested: Point, resolved: Point) -> bool {
    len2(resolved) < len2(requested)
}

/// Whether a state's transition condition holds.
pub open spec fn condition_met(
    c: StateChangeCondition,
    elapsed: u64,
    clip_duration: u64,
    pos: Point,
    player: Point,
    hit_wall: bool,
) -> bool {
    match c {
        StateChangeCondition::Never => false,
        StateChangeCondition::Always => true,
        StateChangeCondition::HitWall => hit_wall,
        StateChangeCondition::NearPlayer => dist2(pos, player) < NEAR_DISTANCE_SQUARED,
        StateChangeCondition::AnimationFinish => elapsed >= clip_duration,
    }
}

/// The projectiles that a firing pattern emits from `pos` facing `facing`.
pub open spec fn emitted(f: ProjectileFiring, pos: Point, facing: Point) -> Seq<Projectile> {
    match f {
        ProjectileFiring::Nothing => seq![],
        ProjectileFiring::Forwards(kind) => seq![
            Projectile { kind, pos, dir: facing, turn: 0, turns: 1, time: 0, friendly: false },
        ],
        ProjectileFiring::Around(kind, n) => Seq::new(
            n as nat,
            |i: int| Projectile { kind, pos, dir: facing, turn: i as u8, turns: n, time: 0, friendly: false },
        ),
    }
}

/// An animation-finish condition holds exactly when the elapsed time has
/// reached the clip's duration, the duration itself included.
pub proof fn lemma_animation_finish(elapsed: u64, clip_duration: u64, pos: Point, player: Point, hit_wall: bool)
    ensures
        condition_met(StateChangeCondition::AnimationFinish, elapsed, clip_duration, pos, player, hit_wall)
            <==> elapsed >= clip_duration,
        elapsed < clip_duration ==> !condition_met(
            StateChangeCondition::AnimationFinish, elapsed, clip_duration, pos, player, hit_wall),
        condition_met(StateChangeCondition::AnimationFinish, clip_duration, clip_duration, pos, player, hit_wall),
{
}

/// The player is near exactly when the squared distance is below 144 square
/// units; at exactly 144 it is not.
pub proof fn lemma_near_player(elapsed: u64, clip_duration: u64, pos: Point, player: Point, hit_wall: bool)
    ensures
        condition_met(StateChangeCondition::NearPlayer, elapsed, clip_duration, pos, player, hit_wall)
            <==> dist2(pos, player) < 144 * SCALE * SCALE,
        dist2(pos, player) == 144 * SCALE * SCALE ==> !condition_met(
            StateChangeCondition::NearPlayer, elapsed, clip_duration, pos, player, hit_wall),
{
}

/// A wall is hit exactly when the physics step hands back a velocity
/// strictly shorter than the one requested; one of equal length is no hit.
pub proof fn lemma_wall_hit(elapsed: u64, clip_duration: u64, pos: Point, player: Point, requested: Point, resolved: Point)
    ensures
        condition_met(StateChangeCondition::HitWall, elapsed, clip_duration, pos, player, wall_hit(requested, resolved))
            <==> len2(resolved) < len2(requested),
        len2(resolved) == len2(requested) ==> !condition_met(
            StateChangeCondition::HitWall, elapsed, clip_duration, pos, player, wall_hit(requested, resolved)),
{
}

/// A radial burst of four emits four projectiles from the emitter's position,
/// a quarter turn apart starting at the facing direction.
pub proof fn lemma_radial_four(kind: usize, pos: Point, facing: Point)
    ensures
        emitted(ProjectileFiring::Around(kind, 4), pos, facing).len() == 4,
        forall|i: int| 0 <= i < 4 ==> #[trigger] emitted(ProjectileFiring::Around(kind, 4), pos, facing)[i]
            == (Projectile { kind, pos, dir: facing, turn: i as u8, turns: 4, time: 0, friendly: false }),
{
}

/// After a query, whatever it answered, a frame less than the recompute
/// interval later asks for none; the frame that brings the time since the
/// query to the interval or beyond asks for exactly one.
pub proof fn lemma_repath_timer(first: u64, second: u64)
    requires
        first < REPATH_TIME,
        first + second >= REPATH_TIME,
    ensures
        !query_due(saturating_sub(REPATH_TIME, first)),
        query_due(saturating_sub(saturating_sub(REPATH_TIME, first), second)),
{
}

/// Evaluates a transition condition.
pub fn evaluate_transition(
    c: StateChangeCondition,
    elapsed: u64,
    clip_duration: u64,
    pos: Point,
    player: Point,
    hit_wall: bool,
) -> (r: bool)
    requires
        valid_point(pos),
        valid_point(player),
    ensures
        r == condition_met(c, elapsed, clip_duration, pos, player, hit_wall),
{
    match c {
        StateChangeCondition::Never => false,
        StateChangeCondition::Always => true,
        StateChangeCondition::HitWall => hit_wall,
        StateChangeCondition::NearPlayer => {
            let d = difference(pos, player);
            (length_squared(d) as i64) < NEAR_DISTANCE_SQUARED
        },
        StateChangeCondition::AnimationFinish => elapsed >= clip_duration,
    }
}

/// Appends to `projectiles` what the firing pattern emits from `pos`.
pub fn dispatch(f: ProjectileFiring, pos: Point, facing: Point, projectiles: &mut Vec<Projectile>)
    ensures
        final(projectiles)@ == old(projectiles)@ + emitted(f, pos, facing),
{
    match f {
        ProjectileFiring::Nothing => {
            assert(old(projectiles)@ + emitted(f, pos, facing) =~= old(projectiles)@);
        },
        ProjectileFiring::Forwards(kind) => {
            projectiles.push(Projectile { kind, pos, dir: facing, turn: 0, turns: 1, time: 0, friendly: false });
            assert(final(projectiles)@ =~= old(projectiles)@ + emitted(f, pos, facing));
        },
        ProjectileFiring::Around(kind, n) => {
            let mut i: u8 = 0;
            while i < n
                invariant
                    i <= n,
                    f == ProjectileFiring::Around(kind, n),
                    projectiles@ =~= old(projectiles)@ + emitted(f, pos, facing).take(i as int),
                decreases n - i,
            {
                projectiles.push(Projectile { kind, pos, dir: facing, turn: i, turns: n, time: 0, friendly: false });
                assert(emitted(f, pos, facing).take(i + 1) =~= emitted(f, pos, facing).take(i as int).push(
                    Projectile { kind, pos, dir: facing, turn: i, turns: n, time: 0, friendly: false },
                ));
                i += 1;
            }
            assert(emitted(f, pos, facing).take(n as int) =~= emitted(f, pos, facing));
        },
    }
}

impl<'a> Enemy<'a> {
    /// The state the enemy is in.
    pub open spec fn current(self) -> EnemyState {
        self.ty.state_at(self.state as nat)
    }

    pub open spec fn wf(self) -> bool {
        &&& self.ty.wf()
        &&& valid_point(self.pos)
        &&& valid_point(self.velocity)
        &&& bounded(self.direction, SCALE as int)
        &&& self.time_til_pathfind <= REPATH_TIME
    }

    /// The point `steer` heads for.
    pub open spec fn steer_target(self, player: Point) -> Point {
        steer_target_of(self.current().movement, self.path, player)
    }

    /// How a frame moves the enemy once its cached path is `p`: `fin` is
    /// the enemy after steering and the physics step `integrate`, and `hit`
    /// whether that step clipped the requested velocity.
    pub open spec fn moves<G: Fn(Point, Point, u64) -> (Point, Point)>(
        self,
        integrate: G,
        delta_time: u64,
        p: Option<Vec<Cell>>,
        player: Point,
        fin: Enemy<'a>,
        hit: bool,
    ) -> bool {
        let st = self.current();
        let target = steer_target_of(st.movement, p, player);
        &&& cells(fin.path) == path_after_steer(st.movement, p, self.pos, player)
        &&& match requested_velocity(st, self.pos, target) {
            None => {
                &&& fin.pos == self.pos
                &&& fin.velocity == if st.movement == EnemyMovement::Stationary {
                    Point { x: 0, y: 0 }
                } else {
                    self.velocity
                }
                &&& fin.direction == self.direction
                &&& !hit
            },
            Some(v) => {
                &&& fin.direction == towards(offset(self.pos, target), SCALE as int)
                &&& integrate.ensures((self.pos, v, delta_time), (fin.pos, fin.velocity))
                &&& hit == wall_hit(v, fin.velocity)
            },
        }
    }

    /// A new enemy of archetype `ty` at `pos`, at full health, emerging.
    pub fn new(ty: &'a EnemyType, pos: Point) -> (r: Self)
        requires
            ty.wf(),
            valid_point(pos),
        ensures
            r.wf(),
            r.ty == ty,
            r.pos == pos,
            r.health == ty.health,
            r.animation_time == 0,
            r.direction == (Point { x: SCALE, y: 0 }),
            r.path is None,
            r.time_til_pathfind == 0,
            r.velocity == (Point { x: 0, y: 0 }),
            r.emerging,
            r.state == 0,
    {
        Enemy {
            ty,
            pos,
            health: ty.health,
            animation_time: 0,
            direction: Point { x: SCALE, y: 0 },
            path: None,
            time_til_pathfind: 0,
            velocity: Point { x: 0, y: 0 },
            emerging: true,
            state: 0,
        }
    }

    /// The state the enemy is in: its state counter taken modulo the number
    /// of states, always a valid index.
    pub fn current_state(&self) -> (r: EnemyState)
        requires
            self.ty.wf(),
        ensures
            r == self.current(),
            r == self.ty.states@[((self.state as nat) % self.ty.states@.len()) as int],
            0 <= (self.state as nat) % self.ty.states@.len() < self.ty.states@.len(),
            r.wf(),
    {
        self.ty.states[self.state % self.ty.states.len()]
    }

    /// Advances the clock and gates emergence. Returns whether the rest of
    /// the frame is simulated; while the enemy is still emerging nothing but
    /// its clock changes.
    pub fn begin_frame(&mut self, delta_time: u64) -> (simulate: bool)
        ensures
            simulate == !(old(self).emerging && saturating_add(old(self).animation_time, delta_time) < HOLE_TIME),
            *final(self) == (Enemy {
                animation_time: saturating_add(old(self).animation_time, delta_time),
                emerging: old(self).emerging && !simulate,
                ..*old(self)
            }),
    {
        self.animation_time = self.animation_time.saturating_add(delta_time);
        if self.emerging && self.animation_time < HOLE_TIME {
            return false;
        }
        self.emerging = false;
        true
    }

    /// Runs the pathfinding timer. Returns whether the pathfinder is to be
    /// asked for a path from `pos` to the player's centre now; its answer then
    /// goes to `set_path`.
    pub fn request_path(&mut self, delta_time: u64, player: Point) -> (query: bool)
        requires
            old(self).wf(),
            valid_point(player),
        ensures
            final(self).wf(),
            old(self).current().movement == EnemyMovement::Pathfind && chase_target(player) != old(self).pos ==> {
                &&& *final(self) == (Enemy {
                    time_til_pathfind: saturating_sub(old(self).time_til_pathfind, delta_time),
                    ..*old(self)
                })
                &&& query == query_due(final(self).time_til_pathfind)
            },
            !(old(self).current().movement == EnemyMovement::Pathfind && chase_target(player) != old(self).pos) ==> {
                &&& *final(self) == *old(self)
                &&& !query
            },
    {
        let target = Point { x: player.x + PLAYER_CENTER_OFFSET, y: player.y + PLAYER_CENTER_OFFSET };
        if self.current_state().movement != EnemyMovement::Pathfind || target == self.pos {
            return false;
        }
        self.time_til_pathfind = self.time_til_pathfind.saturating_sub(delta_time);
        self.time_til_pathfind == 0
    }

    /// Takes the pathfinder's answer, `None` when it found no path, and
    /// restarts the timer whatever the answer.
    pub fn set_path(&mut self, path: Option<Vec<Cell>>)
        requires
            old(self).wf(),
        ensures
            final(self).wf(),
            *final(self) == (Enemy { path, time_til_pathfind: REPATH_TIME, ..*old(self) }),
    {
        self.path = path;
        self.time_til_pathfind = REPATH_TIME;
    }

    /// Picks the steering target and the velocity for this frame. Returns the
    /// requested velocity, which the physics step then resolves against the
    /// world, or `None` when the enemy holds its position.
    pub fn steer(&mut self, player: Point) -> (requested: Option<Point>)
        requires
            old(self).wf(),
            valid_point(player),
        ensures
            final(self).wf(),
            final(self).ty == old(self).ty,
            final(self).pos == old(self).pos,
            final(self).health == old(self).health,
            final(self).animation_time == old(self).animation_time,
            final(self).time_til_pathfind == old(self).time_til_pathfind,
            final(self).emerging == old(self).emerging,
            final(self).state == old(self).state,
            cells(final(self).path) == path_after_steer(
                old(self).current().movement,
                old(self).path,
                old(self).pos,
                player,
            ),
            requested == requested_velocity(old(self).current(), old(self).pos, old(self).steer_target(player)),
            final(self).direction == if requested is Some {
                towards(offset(old(self).pos, old(self).steer_target(player)), SCALE as int)
            } else {
                old(self).direction
            },
            final(self).velocity == match requested {
                Some(v) => v,
                None => if old(self).current().movement == EnemyMovement::Stationary {
                    Point { x: 0, y: 0 }
                } else {
                    old(self).velocity
                },
            },
    {
        let st = self.current_state();
        let mut target = Point { x: player.x + PLAYER_CENTER_OFFSET, y: player.y + PLAYER_CENTER_OFFSET };
        if st.movement == EnemyMovement::Pathfind {
            let mut reached = false;
            match &self.path {
                Some(p) => {
                    if p.len() >= 2 {
                        let c = p[1];
                        target = Point { x: c.0 as i64 * CELL_SIZE, y: c.1 as i64 * CELL_SIZE };
                        let d = difference(self.pos, target);
                        reached = (length_squared(d) as i64) < WAYPOINT_REACHED_SQUARED;
                    }
                },
                None => {},
            }
            if reached {
                let mut p = self.path.take().unwrap();
                p.remove(0);
                self.path = Some(p);
                assert(self.path->0@ =~= old(self).path->0@.drop_first());
            }
        }
        if st.movement == EnemyMovement::Stationary {
            self.velocity = Point { x: 0, y: 0 };
            return None;
        }
        if target == self.pos {
            return None;
        }
        let d = difference(self.pos, target);
        proof {
            assert(target == old(self).steer_target(player));
            assert(d == offset(old(self).pos, target));
            assert(d.x != 0 || d.y != 0);
            crate::geometry::lemma_len2_positive(d);
        }
        let (facing, _) = scale_vector(d, SCALE);
        let (velocity, _) = scale_vector(d, st.speed);
        self.direction = facing;
        self.velocity = velocity;
        Some(velocity)
    }

    /// The position and velocity after the physics step's answer.
    pub open spec fn moved_to(self, moved: Option<(Point, Point)>) -> (Point, Point) {
        match moved {
            Some(m) => m,
            None => (self.pos, self.velocity),
        }
    }

    /// Whether the state ends this frame, given the physics step's answer.
    pub open spec fn ends_state(
        self,
        moved: Option<(Point, Point)>,
        player: Point,
        clip_durations: Seq<u64>,
    ) -> bool {
        condition_met(
            self.current().change_state,
            self.animation_time,
            clip_durations[self.current().animation_id as int],
            self.moved_to(moved).0,
            player,
            moved is Some && wall_hit(self.velocity, self.moved_to(moved).1),
        )
    }

    /// Takes the physics step's answer, `moved`: the resolved position and
    /// velocity, or `None` when `steer` asked for no motion. Then evaluates
    /// the state's transition condition; when it holds, deals the exit damage
    /// to the player, emits the state's projectiles, moves on to the next
    /// state and restarts the clock. Returns whether the state ended.
    /// `clip_durations` gives each animation clip's length in milliseconds.
    pub fn finish_frame(
        &mut self,
        moved: Option<(Point, Point)>,
        player: &mut Player,
        clip_durations: &Vec<u64>,
        projectiles: &mut Vec<Projectile>,
    ) -> (ended: bool)
        requires
            old(self).wf(),
            old(self).ty.clips_in(clip_durations@.len()),
            old(self).state < usize::MAX,
            valid_point(old(player).pos),
            moved matches Some(m) ==> valid_point(m.0) && valid_point(m.1),
        ensures
            final(self).wf(),
            ended == old(self).ends_state(moved, old(player).pos, clip_durations@),
            final(player).pos == old(player).pos,
            ended ==> {
                &&& *final(self) == (Enemy {
                    pos: old(self).moved_to(moved).0,
                    velocity: old(self).moved_to(moved).1,
                    state: (old(self).state + 1) as usize,
                    animation_time: 0,
                    ..*old(self)
                })
                &&& final(player).health == match old(self).current().damage_on_exit {
                    Some(d) => after_damage(old(player).health, d),
                    None => old(player).health,
                }
                &&& final(projectiles)@ == old(projectiles)@ + emitted(
                    old(self).current().projectile_firing,
                    old(self).moved_to(moved).0,
                    old(self).direction,
                )
            },
            !ended ==> {
                &&& *final(self) == (Enemy {
                    pos: old(self).moved_to(moved).0,
                    velocity: old(self).moved_to(moved).1,
                    ..*old(self)
                })
                &&& final(player).health == old(player).health
                &&& final(projectiles)@ == old(projectiles)@
            },
    {
        let st = self.current_state();
        let mut hit_wall = false;
        match moved {
            Some((pos, velocity)) => {
                let before = length_squared(self.velocity);
                let after = length_squared(velocity);
                hit_wall = after < before;
                self.pos = pos;
                self.velocity = velocity;
            },
            None => {},
        }
        proof {
            assert(st.animation_id < clip_durations@.len());
        }
        let clip_duration = clip_durations[st.animation_id];
        let ended = evaluate_transition(
            st.change_state,
            self.animation_time,
            clip_duration,
            self.pos,
            player.pos,
            hit_wall,
        );
        if ended {
            match st.damage_on_exit {
                Some(damage) => {
                    player.health = if damage >= 0 {
                        if player.health >= i64::MIN + damage { player.health - damage } else { i64::MIN }
                    } else {
                        if player.health <= i64::MAX + damage { player.health - damage } else { i64::MAX }
                    };
                },
                None => {},
            }
            dispatch(st.projectile_firing, self.pos, self.direction, projectiles);
            self.state = self.state + 1;
            self.animation_time = 0;
        }
        ended
    }

    /// Runs one frame: the clock and the emergence gate, then movement, then
    /// the transition, in that order. `pathfind(from, to)` is the world's
    /// path query and `integrate(pos, velocity, delta_time)` its physics
    /// step, which answers with the resolved position and velocity. Returns
    /// whether the state ended.
    pub fn update<F, G>(
        &mut self,
        delta_time: u64,
        player: &mut Player,
        pathfind: F,
        integrate: G,
        clip_durations: &Vec<u64>,
        projectiles: &mut Vec<Projectile>,
    ) -> (ended: bool)
        where
            F: Fn(Point, Point) -> Option<Vec<Cell>>,
            G: Fn(Point, Point, u64) -> (Point, Point),
        requires
            old(self).wf(),
            old(self).ty.clips_in(clip_durations@.len()),
            old(self).state < usize::MAX,
            valid_point(old(player).pos),
            forall|a: Point, b: Point| #[trigger] pathfind.requires((a, b)),
            forall|p: Point, v: Point, t: u64| #[trigger] integrate.requires((p, v, t)),
            forall|p: Point, v: Point, t: u64, r: (Point, Point)|
                #[trigger] integrate.ensures((p, v, t), r) ==> valid_point(r.0) && valid_point(r.1),
        ensures
            final(self).wf(),
            final(self).ty == old(self).ty,
            final(self).health == old(self).health,
            final(player).pos == old(player).pos,
            // still emerging: nothing moves
            old(self).emerging && saturating_add(old(self).animation_time, delta_time) < HOLE_TIME ==> {
                &&& *final(self) == (Enemy {
                    animation_time: saturating_add(old(self).animation_time, delta_time),
                    ..*old(self)
                })
                &&& *final(player) == *old(player)
                &&& final(projectiles)@ == old(projectiles)@
                &&& !ended
            },
            !(old(self).emerging && saturating_add(old(self).animation_time, delta_time) < HOLE_TIME) ==> {
                let t = saturating_add(old(self).animation_time, delta_time);
                let st = old(self).current();
                let target = chase_target(old(player).pos);
                let runs = st.movement == EnemyMovement::Pathfind && target != old(self).pos;
                let timer = if runs {
                    saturating_sub(old(self).time_til_pathfind, delta_time)
                } else {
                    old(self).time_til_pathfind
                };
                let queried = runs && query_due(timer);
                &&& !final(self).emerging
                &&& final(self).time_til_pathfind == if queried { REPATH_TIME } else { timer }
                // the cached path `p` that steering starts from: the
                // pathfinder's answer when it was asked, else the old one
                &&& exists|p: Option<Vec<Cell>>, hit: bool| {
                    &&& if queried {
                        pathfind.ensures((old(self).pos, target), p)
                    } else {
                        p == old(self).path
                    }
                    &&& #[trigger] old(self).moves(integrate, delta_time, p, old(player).pos, *final(self), hit)
                    &&& ended == condition_met(
                        st.change_state,
                        t,
                        clip_durations@[st.animation_id as int],
                        final(self).pos,
                        old(player).pos,
                        hit,
                    )
                }
                &&& final(self).state == if ended { old(self).state + 1 } else { old(self).state as int }
                &&& final(self).animation_time == if ended { 0 } else { t }
            },
            ended ==> {
                &&& final(player).health == match old(self).current().damage_on_exit {
                    Some(d) => after_damage(old(player).health, d),
                    None => old(player).health,
                }
                &&& final(projectiles)@ == old(projectiles)@ + emitted(
                    old(self).current().projectile_firing,
                    final(self).pos,
                    final(self).direction,
                )
            },
            !ended ==> {
                &&& final(player).health == old(player).health
                &&& final(projectiles)@ == old(projectiles)@
            },
    {
        if !self.begin_frame(delta_time) {
            return false;
        }
        let ghost e1 = *self;
        if self.request_path(delta_time, player.pos) {
            let target = Point { x: player.pos.x + PLAYER_CENTER_OFFSET, y: player.pos.y + PLAYER_CENTER_OFFSET };
            let path = pathfind(self.pos, target);
            self.set_path(path);
        }
        let ghost e3 = *self;
        let requested = self.steer(player.pos);
        let ghost e4 = *self;
        let moved = match requested {
            Some(velocity) => Some(integrate(self.pos, velocity, delta_time)),
            None => None,
        };
        let ended = self.finish_frame(moved, player, clip_durations, projectiles);
        proof {
            let hit = moved is Some && wall_hit(e4.velocity, e4.moved_to(moved).1);
            assert(e3.current() == old(self).current());
            assert(old(self).moves(integrate, delta_time, e3.path, old(player).pos, *self, hit));
        }
        ended
    }

    /// The renderer's view of the enemy.
    pub open spec fn view_spec(self) -> EnemyView {
        if self.emerging && self.animation_time < HOLE_TIME {
            EnemyView {
                clip: self.current().animation_id,
                clip_time: self.animation_time,
                flip_x: self.direction.x > 0,
                phase: if self.animation_time > HOLE_EMERGE_TIME {
                    DrawPhase::Rising {
                        diameter: hole_diameter(self.animation_time),
                        rise_time: (self.animation_time - HOLE_EMERGE_TIME) as u64,
                    }
                } else {
                    DrawPhase::Hole { diameter: hole_diameter(self.animation_time) }
                },
            }
        } else {
            EnemyView {
                clip: self.current().animation_id,
                clip_time: self.animation_time,
                flip_x: self.direction.x < 0,
                phase: DrawPhase::Active { health_bar_width: health_bar(self.health, self.ty.health) },
            }
        }
    }

    /// What to draw for the enemy this frame.
    pub fn draw(&self) -> (r: EnemyView)
        requires
            self.ty.wf(),
        ensures
            r == self.view_spec(),
    {
        let clip = self.current_state().animation_id;
        if self.emerging && self.animation_time < HOLE_TIME {
            let opened = self.animation_time * MAX_HOLE_DIAMETER / HOLE_EMERGE_TIME;
            let diameter = if opened >= MAX_HOLE_DIAMETER { MAX_HOLE_DIAMETER } else { opened };
            let phase = if self.animation_time > HOLE_EMERGE_TIME {
                DrawPhase::Rising { diameter, rise_time: self.animation_time - HOLE_EMERGE_TIME }
            } else {
                DrawPhase::Hole { diameter }
            };
            EnemyView { clip, clip_time: self.animation_time, flip_x: self.direction.x > 0, phase }
        } else {
            let width = if self.health <= 0 {
                0
            } else if self.health >= self.ty.health {
                HEALTH_BAR_WIDTH
            } else {
                let w = (self.health as u128) * (HEALTH_BAR_WIDTH as u128) / (self.ty.health as u128);
                assert(w <= 25 && w == (self.health as int) * 25 / (self.ty.health as int)) by (nonlinear_arith)
                    requires
                        w as int == (self.health as int) * 25 / (self.ty.health as int),
                        0 < self.health < self.ty.health;
                w as i64
            };
            EnemyView {
                clip,
                clip_time: self.animation_time,
                flip_x: self.direction.x < 0,
                phase: DrawPhase::Active { health_bar_width: width },
            }
        }
    }
}

} // verus!
