use bevsteroids::components::ControlProfile;
use bevsteroids::components::MotionState;
use bevsteroids::components::WrapPolicy;
use bevsteroids::init::init;
use bevsteroids::init::load_plan;
use bevsteroids::init::ASTEROID_ENTITY;
use bevsteroids::init::CAMERA_ENTITY;
use bevsteroids::init::SHIP_ENTITY;
use bevsteroids::init::GameConfig;

fn sample_config() -> GameConfig {
    GameConfig {
        asteroid: String::from("asteroid.png"),
        ship: String::from("ship.png"),
        bullet: String::from("bullet.png"),
    }
}

#[test]
fn load_plan_requests_each_texture_once() {
    let plan = load_plan(sample_config());
    assert_eq!(
        plan,
        vec![
            String::from("asteroid.png"),
            String::from("ship.png"),
            String::from("bullet.png"),
        ]
    );
}

#[test]
fn bullet_handle_published_once() {
    let out = init(10, 20, 30);
    assert_eq!(out.texture_handles.bullet_texture, 30);
}

#[test]
fn camera_is_unique() {
    let out = init(10, 20, 30);
    assert_eq!(out.world.len(), 3);
    assert_eq!(out.world.count_cameras(), 1);
    assert!(out.world.has_camera_tag(CAMERA_ENTITY));
    assert!(!out.world.has_camera_tag(ASTEROID_ENTITY));
    assert!(!out.world.has_camera_tag(SHIP_ENTITY));
}

#[test]
fn camera_has_no_sprite_facets() {
    let out = init(10, 20, 30);
    assert_eq!(out.world.material_of(CAMERA_ENTITY), None);
    assert_eq!(out.world.motion_of(CAMERA_ENTITY), None);
    assert_eq!(out.world.wrap_of(CAMERA_ENTITY), None);
    assert_eq!(out.world.control_of(CAMERA_ENTITY), None);
}

#[test]
fn asteroid_facets() {
    let out = init(10, 20, 30);
    assert!(out.world.has_asteroid_tag(ASTEROID_ENTITY));
    assert!(!out.world.has_ship_tag(ASTEROID_ENTITY));
    assert_eq!(out.world.material_of(ASTEROID_ENTITY), Some(10));
    assert_eq!(out.world.wrap_of(ASTEROID_ENTITY), Some(WrapPolicy { radius: 128_000 }));
    assert_eq!(
        out.world.motion_of(ASTEROID_ENTITY),
        Some(MotionState {
            x: -500_000,
            y: 0,
            rot: 0,
            vx: 15_000,
            vy: -50_000,
            rot_rate: 1_000,
        })
    );
    assert_eq!(out.world.control_of(ASTEROID_ENTITY), None);
}

#[test]
fn ship_facets() {
    let out = init(10, 20, 30);
    assert!(out.world.has_ship_tag(SHIP_ENTITY));
    assert!(!out.world.has_asteroid_tag(SHIP_ENTITY));
    assert_eq!(out.world.material_of(SHIP_ENTITY), Some(20));
    assert_eq!(out.world.wrap_of(SHIP_ENTITY), Some(WrapPolicy { radius: 50_000 }));
    assert_eq!(
        out.world.motion_of(SHIP_ENTITY),
        Some(MotionState { x: 0, y: 0, rot: 0, vx: 0, vy: 0, rot_rate: 0 })
    );
    assert_eq!(
        out.world.control_of(SHIP_ENTITY),
        Some(ControlProfile {
            max_speed: 250_000,
            max_turn_rate: 3_142,
            acceleration: 80,
        })
    );
}
