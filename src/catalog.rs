//! The behaviour catalog: enemy archetypes as ordered cycles of behaviour
//! states. Pure data, validated once when built.
use vstd::prelude::*;

verus! {

/// Largest movement speed of a state, in milli-units per second.
pub const MAX_SPEED: i64 = 0x10_0000;

/// Kind of the alien ball projectile.
pub const ALIEN_BALL: usize = 0;

/// The projectiles a state emits when it ends.
#[derive(Clone, Copy, Debug, PartialEq, Eq, Structural)]
pub enum ProjectileFiring {
    /// No projectile.
    Nothing,
    /// One projectile of the given kind along the facing direction.
    Forwards(usize),
    /// The given number of projectiles of the given kind, evenly spread
    /// around the full circle starting at the facing direction.
    Around(usize, u8),
}

/// What ends a state.
#[derive(Clone, Copy, Debug, PartialEq, Eq, Structural)]
pub enum StateChangeCondition {
    Never,
    Always,
    HitWall,
    NearPlayer,
    AnimationFinish,
}

/// How a state moves the enemy.
#[derive(Clone, Copy, Debug, PartialEq, Eq, Structural)]
pub enum EnemyMovement {
    Chase,
    Stationary,
    Pathfind,
}

/// One behaviour state of an archetype.
#[derive(Clone, Copy, Debug, PartialEq, Eq, Structural)]
pub struct EnemyState {
    pub animation_id: usize,
    /// Milli-units per second.
    pub speed: i64,
    pub movement: EnemyMovement,
    pub projectile_firing: ProjectileFiring,
    pub change_state: StateChangeCondition,
    pub damage_on_exit: Option<i64>,
}

/// An archetype: its maximum health and its cycle of states.
#[derive(Clone, Debug)]
pub struct EnemyType {
    pub health: i64,
    pub states: Vec<EnemyState>,
}

impl EnemyState {
    pub open spec fn wf(self) -> bool {
        &&& 0 <= self.speed <= MAX_SPEED
        &&& (self.projectile_firing matches ProjectileFiring::Around(_, n) ==> n >= 1)
    }

    /// Checks the state's speed and firing pattern.
    pub fn is_valid(&self) -> (r: bool)
        ensures
            r == self.wf(),
    {
        let firing_ok = match self.projectile_firing {
            ProjectileFiring::Around(_, n) => n >= 1,
            _ => true,
        };
        0 <= self.speed && self.speed <= MAX_SPEED && firing_ok
    }
}

impl EnemyType {
    /// At least one state, every state valid, positive health.
    pub open spec fn wf(self) -> bool {
        &&& self.health > 0
        &&& self.states@.len() > 0
        &&& forall|i: int| 0 <= i < self.states@.len() ==> (#[trigger] self.states@[i]).wf()
    }

    /// Every state's clip id names one of `clip_count` clips.
    pub open spec fn clips_in(self, clip_count: nat) -> bool {
        forall|i: int| 0 <= i < self.states@.len() ==> (#[trigger] self.states@[i]).animation_id < clip_count
    }

    /// The state that stands at position `index` of the endless cycle.
    pub open spec fn state_at(self, index: nat) -> EnemyState {
        self.states@[(index % self.states@.len()) as int]
    }

    /// Validates the archetype against a clip library of `clip_count` clips.
    pub fn validate(&self, clip_count: usize) -> (r: bool)
        ensures
            r == (self.wf() && self.clips_in(clip_count as nat)),
    {
        if self.health <= 0 || self.states.len() == 0 {
            return false;
        }
        let mut i: usize = 0;
        while i < self.states.len()
            invariant
                i <= self.states@.len(),
                forall|j: int| 0 <= j < i ==> (#[trigger] self.states@[j]).wf()
                    && self.states@[j].animation_id < clip_count,
            decreases self.states@.len() - i,
        {
            if !self.states[i].is_valid() || self.states[i].animation_id >= clip_count {
                return false;
            }
            i += 1;
        }
        true
    }
}

/// The state's index in the cycle is always valid, and stepping past the last
/// state comes back to the first.
pub proof fn lemma_state_cycle(ty: EnemyType, index: nat)
    requires
        ty.wf(),
    ensures
        0 <= index % ty.states@.len() < ty.states@.len(),
        ty.state_at(index).wf(),
        ty.state_at(index + ty.states@.len()) == ty.state_at(index),
        ty.state_at((ty.states@.len() - 1) as nat + 1) == ty.states@[0],
{
    let n = ty.states@.len();
    assert((index + n) % n == index % n) by (nonlinear_arith)
        requires n > 0;
    assert(((n - 1) as nat + 1) % n == 0) by (nonlinear_arith)
        requires n > 0;
    assert(ty.states@[(index % n) as int].wf());
}

fn state(
    animation_id: usize,
    speed: i64,
    movement: EnemyMovement,
    projectile_firing: ProjectileFiring,
    change_state: StateChangeCondition,
    damage_on_exit: Option<i64>,
) -> (r: EnemyState)
    ensures
        r == (EnemyState { animation_id, speed, movement, projectile_firing, change_state, damage_on_exit }),
{
    EnemyState { animation_id, speed, movement, projectile_firing, change_state, damage_on_exit }
}

/// The states of `greeno`.
pub open spec fn greeno_states() -> Seq<EnemyState> {
    seq![
        (EnemyState { animation_id: 0, speed: 25_000, movement: EnemyMovement::Chase, projectile_firing: ProjectileFiring::Nothing, change_state: StateChangeCondition::NearPlayer, damage_on_exit: None }),
        (EnemyState { animation_id: 1, speed: 0, movement: EnemyMovement::Chase, projectile_firing: ProjectileFiring::Nothing, change_state: StateChangeCondition::AnimationFinish, damage_on_exit: Some(15) }),
    ]
}

/// The states of `dog`.
pub open spec fn dog_states() -> Seq<EnemyState> {
    seq![
        (EnemyState { animation_id: 2, speed: 80_000, movement: EnemyMovement::Chase, projectile_firing: ProjectileFiring::Nothing, change_state: StateChangeCondition::NearPlayer, damage_on_exit: None }),
        (EnemyState { animation_id: 3, speed: 0, movement: EnemyMovement::Chase, projectile_firing: ProjectileFiring::Nothing, change_state: StateChangeCondition::AnimationFinish, damage_on_exit: Some(5) }),
    ]
}

/// The states of `shooter`.
pub open spec fn shooter_states() -> Seq<EnemyState> {
    seq![
        (EnemyState { animation_id: 4, speed: 0, movement: EnemyMovement::Chase, projectile_firing: ProjectileFiring::Forwards(ALIEN_BALL), change_state: StateChangeCondition::AnimationFinish, damage_on_exit: None }),
    ]
}

/// The green melee enemy: chases until near, then strikes for 15.
pub fn greeno() -> (r: EnemyType)
    ensures
        r.wf(),
        r.health == 20,
        r.states@ == greeno_states(),
{
    let states = vec![
        state(0, 25_000, EnemyMovement::Chase, ProjectileFiring::Nothing, StateChangeCondition::NearPlayer, None),
        state(1, 0, EnemyMovement::Chase, ProjectileFiring::Nothing, StateChangeCondition::AnimationFinish, Some(15)),
    ];
    EnemyType { health: 20, states }
}

/// The fast dog: chases until near, then bites for 5.
pub fn dog() -> (r: EnemyType)
    ensures
        r.wf(),
        r.health == 9,
        r.states@ == dog_states(),
{
    let states = vec![
        state(2, 80_000, EnemyMovement::Chase, ProjectileFiring::Nothing, StateChangeCondition::NearPlayer, None),
        state(3, 0, EnemyMovement::Chase, ProjectileFiring::Nothing, StateChangeCondition::AnimationFinish, Some(5)),
    ];
    EnemyType { health: 9, states }
}

/// The stationary shooter: fires an alien ball each time its clip ends.
pub fn shooter() -> (r: EnemyType)
    ensures
        r.wf(),
        r.health == 9,
        r.states@ == shooter_states(),
{
    let states = vec![
        state(4, 0, EnemyMovement::Chase, ProjectileFiring::Forwards(ALIEN_BALL), StateChangeCondition::AnimationFinish, None),
    ];
    EnemyType { health: 9, states }
}

/// The archetype catalog, in the order greeno, dog, shooter.
pub fn enemy_types() -> (r: Vec<EnemyType>)
    ensures
        r@.len() == 3,
        forall|i: int| 0 <= i < 3 ==> (#[trigger] r@[i]).wf(),
        r@[0].health == 20 && r@[0].states@ == greeno_states(),
        r@[1].health == 9 && r@[1].states@ == dog_states(),
        r@[2].health == 9 && r@[2].states@ == shooter_states(),
{
    vec![greeno(), dog(), shooter()]
}

} // verus!
