use bevsteroids::reactor::AssetEvent;
use bevsteroids::reactor::ReactorError;
use bevsteroids::reactor::texture_update_sys;
use bevsteroids::textures::apply_linear_filtering;
use bevsteroids::textures::FilterMode;
use bevsteroids::textures::Texture;
use bevsteroids::textures::TextureAssets;

fn linear(t: &Texture) -> bool {
    t.sampler.min_filter == FilterMode::Linear && t.sampler.mag_filter == FilterMode::Linear
}

#[test]
fn fresh_texture_is_nearest() {
    let t = Texture::new();
    assert_eq!(t.sampler.min_filter, FilterMode::Nearest);
    assert_eq!(t.sampler.mag_filter, FilterMode::Nearest);
}

#[test]
fn linear_filtering_is_idempotent() {
    let mut once = Texture::new();
    apply_linear_filtering(&mut once);
    let mut twice = once;
    apply_linear_filtering(&mut twice);
    assert!(linear(&once));
    assert_eq!(once, twice);
}

#[test]
fn created_applies_linear_filtering() {
    let mut assets = TextureAssets::new();
    assets.register(7, Texture::new());
    let mut queue = vec![AssetEvent::Created { handle: 7 }];
    let r = texture_update_sys(&mut queue, &mut assets);
    assert_eq!(r, Ok(()));
    assert!(linear(&assets.get(7).unwrap()));
}

#[test]
fn ordering_created_modified_created() {
    let mut assets = TextureAssets::new();
    assets.register(1, Texture::new());
    assets.register(2, Texture::new());
    let mut queue = vec![
        AssetEvent::Created { handle: 1 },
        AssetEvent::Modified { handle: 1 },
        AssetEvent::Created { handle: 2 },
    ];
    let r = texture_update_sys(&mut queue, &mut assets);
    assert_eq!(r, Ok(()));
    assert!(linear(&assets.get(1).unwrap()));
    assert!(linear(&assets.get(2).unwrap()));
}

#[test]
fn modified_and_removed_mutate_nothing() {
    let mut assets = TextureAssets::new();
    assets.register(4, Texture::new());
    let mut queue = vec![
        AssetEvent::Modified { handle: 4 },
        AssetEvent::Modified { handle: 99 },
        AssetEvent::Removed { handle: 4 },
        AssetEvent::Removed { handle: 99 },
    ];
    let r = texture_update_sys(&mut queue, &mut assets);
    assert_eq!(r, Ok(()));
    let t = assets.get(4).unwrap();
    assert_eq!(t, Texture::new());
}

#[test]
fn created_for_unregistered_handle_is_fatal() {
    let mut assets = TextureAssets::new();
    assets.register(1, Texture::new());
    let mut queue = vec![AssetEvent::Created { handle: 9 }];
    let r = texture_update_sys(&mut queue, &mut assets);
    assert_eq!(r, Err(ReactorError::MissingTexture { handle: 9 }));
    assert_eq!(assets.get(1).unwrap(), Texture::new());
}

#[test]
fn queue_is_drained() {
    let mut assets = TextureAssets::new();
    assets.register(1, Texture::new());
    let mut queue = vec![
        AssetEvent::Created { handle: 1 },
        AssetEvent::Modified { handle: 1 },
    ];
    let r = texture_update_sys(&mut queue, &mut assets);
    assert_eq!(r, Ok(()));
    assert!(queue.is_empty());

    // A second invocation sees only what was enqueued after the first one;
    // the texture keeps the configuration one application gave it.
    queue.push(AssetEvent::Created { handle: 1 });
    let r2 = texture_update_sys(&mut queue, &mut assets);
    assert_eq!(r2, Ok(()));
    assert!(queue.is_empty());
    assert!(linear(&assets.get(1).unwrap()));
}

#[test]
fn double_fired_created_is_tolerated() {
    let mut assets = TextureAssets::new();
    assets.register(3, Texture::new());
    let mut queue = vec![
        AssetEvent::Created { handle: 3 },
        AssetEvent::Created { handle: 3 },
    ];
    let r = texture_update_sys(&mut queue, &mut assets);
    assert_eq!(r, Ok(()));

    let mut expected = Texture::new();
    apply_linear_filtering(&mut expected);
    assert_eq!(assets.get(3).unwrap(), expected);
}
