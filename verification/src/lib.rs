//! Bootstrap and steady-state update logic of a small arcade-style space
//! game, modelled as verified data and decision functions.
//!
//! Entities are opaque identifiers; behaviour is determined by which facets
//! (motion state, wrap policy, control profile, identity tags) are attached
//! to them.  The scene initializer populates the starting world, and the
//! texture-ready reactor applies a fixed sampling configuration to each
//! texture as its asynchronous load completes.
//!
//! Continuous quantities (positions, velocities, radii, tuning constants)
//! are held in thousandths of a world unit, as integers.

pub mod components;
pub mod init;
pub mod reactor;
pub mod textures;
pub mod world;

pub use components::ControlProfile;
pub use components::MotionState;
pub use components::WrapPolicy;
pub use init::GameConfig;
pub use init::InitOutput;
pub use init::TextureHandles;
pub use init::init;
pub use init::load_plan;
pub use reactor::AssetEvent;
pub use reactor::ReactorError;
pub use reactor::texture_update_sys;
pub use textures::Texture;
pub use textures::TextureAssets;
pub use world::World;
