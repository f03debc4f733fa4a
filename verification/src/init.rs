//! Scene initializer.
//!
//! Runs exactly once, before any per-tick system: plans the three startup
//! texture loads, publishes the bullet handle for later systems, and
//! populates the starting world — the unique main camera, the asteroid and
//! the player's ship, each assembled from its facets.
//!
//! Entity creation is atomic from the perspective of later systems: the
//! world is built up privately and handed over complete, so a spawned entity
//! is never observed with a partial facet set.

use vstd::prelude::*;
use crate::components::ControlProfile;
use crate::components::MotionState;
use crate::components::WrapPolicy;
use crate::world::World;
use crate::world::count_true;

verus! {

/// Game configuration loaded at startup: the names of the three texture
/// resources the scene needs.
pub struct GameConfig {
    pub asteroid: String,
    pub ship: String,
    pub bullet: String,
}

/// Texture handles that are needed later on in the game, published as
/// process-wide shared state by the scene initializer (its single writer)
/// and read by later systems.
pub struct TextureHandles {
    /// Handle of the bullet texture, kept for spawning bullets later.
    pub bullet_texture: u64,
}

/// Everything the scene initializer produces: the published texture handles
/// and the populated starting world.
pub struct InitOutput {
    pub texture_handles: TextureHandles,
    pub world: World,
}

/// Toroidal-boundary radius of an asteroid, in thousandths of a unit.
pub const ASTEROID_WRAP_RADIUS: i64 = 128_000;

/// Toroidal-boundary radius of the ship, in thousandths of a unit.
pub const SHIP_WRAP_RADIUS: i64 = 50_000;

/// Ship tuning: maximum linear speed, in thousandths of a unit per second.
pub const SHIP_MAX_SPEED: i64 = 250_000;

/// Ship tuning: maximum turn rate of one half-turn per second — pi radians,
/// rounded to the nearest thousandth of a radian.
pub const SHIP_MAX_TURN_RATE: i64 = 3_142;

/// Ship tuning: acceleration, in thousandths of a unit per second squared.
pub const SHIP_ACCELERATION: i64 = 80;

/// Initial motion of the asteroid: position (-500, 0), velocity (15, -50),
/// spinning at 1 radian per second (all in whole units here; the facet holds
/// thousandths).
pub open spec fn asteroid_spawn_motion() -> MotionState {
    MotionState { x: -500_000i64, y: 0, rot: 0, vx: 15_000, vy: -50_000i64, rot_rate: 1_000 }
}

/// Initial motion of the ship: at rest at the origin.
pub open spec fn ship_spawn_motion() -> MotionState {
    MotionState { x: 0, y: 0, rot: 0, vx: 0, vy: 0, rot_rate: 0 }
}

/// Id of the main camera: the first entity spawned.
pub const CAMERA_ENTITY: usize = 0;

/// Id of the asteroid: the second entity spawned.
pub const ASTEROID_ENTITY: usize = 1;

/// Id of the player's ship: the third entity spawned.
pub const SHIP_ENTITY: usize = 2;

/// Plans the startup texture loads: one request per startup texture, each
/// issued exactly once, in the order asteroid, ship, bullet.  The caller
/// hands each name to the asset-loading collaborator, which returns a handle
/// immediately and resolves it asynchronously.
pub fn load_plan(cfg: GameConfig) -> (r: Vec<String>)
    ensures
        r@.len() == 3,
        r@[0]@ == cfg.asteroid@,
        r@[1]@ == cfg.ship@,
        r@[2]@ == cfg.bullet@,
{
    let GameConfig { asteroid, ship, bullet } = cfg;
    let mut r: Vec<String> = Vec::new();
    r.push(asteroid);
    r.push(ship);
    r.push(bullet);
    r
}

/// Populates the starting scene from the three texture handles the load
/// requests returned.
///
/// The bullet handle is published exactly once, as the one field of the
/// shared [`TextureHandles`] state.  Exactly three entities are created:
/// the main camera (the only entity carrying the main-camera tag), the
/// asteroid — sprite from the asteroid texture, wrap radius 128 units,
/// motion `asteroid_spawn_motion()` — and the player's ship — sprite from
/// the ship texture, wrap radius 50 units, at rest, with the control
/// profile (max speed 250, max turn rate pi, acceleration 0.08) and the
/// ship tag.
pub fn init(asteroid_texture: u64, ship_texture: u64, bullet_texture: u64) -> (r: InitOutput)
    ensures
        r.texture_handles.bullet_texture == bullet_texture,
        r.world.wf(),
        r.world.entity_count() == 3,
        r.world.materials@ == seq![
            None,
            Some(asteroid_texture),
            Some(ship_texture),
        ],
        r.world.motions@ == seq![
            None,
            Some(asteroid_spawn_motion()),
            Some(ship_spawn_motion()),
        ],
        r.world.wraps@ == seq![
            None,
            Some(WrapPolicy { radius: ASTEROID_WRAP_RADIUS }),
            Some(WrapPolicy { radius: SHIP_WRAP_RADIUS }),
        ],
        r.world.controls@ == seq![
            None,
            None,
            Some(ControlProfile {
                max_speed: SHIP_MAX_SPEED,
                max_turn_rate: SHIP_MAX_TURN_RATE,
                acceleration: SHIP_ACCELERATION,
            }),
        ],
        r.world.camera_tags@ == seq![true, false, false],
        r.world.asteroid_tags@ == seq![false, true, false],
        r.world.ship_tags@ == seq![false, false, true],
        count_true(r.world.camera_tags@) == 1,
{
    // Publish the handles that later systems need.
    let texture_handles = TextureHandles { bullet_texture };

    let mut world = World::new();

    // The main camera, tagged as the unique one; projection and view setup
    // is the rendering collaborator's concern.
    let camera = world.spawn();
    world.tag_camera(camera);

    // The asteroid.
    let asteroid = world.spawn();
    world.attach_material(asteroid, asteroid_texture);
    world.attach_wrap(asteroid, WrapPolicy::new(ASTEROID_WRAP_RADIUS));
    world.attach_motion(
        asteroid,
        MotionState::new_in_plane(-500_000, 0, 0, 15_000, -50_000, 1_000),
    );
    world.tag_asteroid(asteroid);

    // The ship.
    let ship = world.spawn();
    world.attach_material(ship, ship_texture);
    world.attach_wrap(ship, WrapPolicy::new(SHIP_WRAP_RADIUS));
    world.attach_motion(ship, MotionState::new_in_plane(0, 0, 0, 0, 0, 0));
    world.attach_control(
        ship,
        ControlProfile::new(SHIP_MAX_SPEED, SHIP_MAX_TURN_RATE, SHIP_ACCELERATION),
    );
    world.tag_ship(ship);

    proof {
        assert(world.camera_tags@ =~= seq![true, false, false]);
        lemma_one_camera_in_startup_tags();
    }

    InitOutput { texture_handles, world }
}

/// Exactly one of the three startup entities carries the main-camera tag.
proof fn lemma_one_camera_in_startup_tags()
    ensures
        count_true(seq![true, false, false]) == 1,
{
    reveal_with_fuel(count_true, 4);
    let s = seq![true, false, false];
    assert(s.drop_last() =~= seq![true, false]);
    assert(seq![true, false].drop_last() =~= seq![true]);
    assert(seq![true].drop_last() =~= Seq::<bool>::empty());
}

} // verus!
