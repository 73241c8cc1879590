use strfive_engine::entity::{Entity2D, Entity3D};
use strfive_engine::identity::IdPool;
use strfive_engine::matrix::Mat3;
use strfive_engine::quaternion::Quaternion;
use strfive_engine::texture::{Texture2D, Texture2DMap, UpdateTextures};
use strfive_engine::transformation::Trig;
use strfive_engine::vector::{Vector2, Vector3};
use strfive_engine::EngineError;

fn png_1x1() -> Vec<u8> {
    vec![
        137, 80, 78, 71, 13, 10, 26, 10, 0, 0, 0, 13, 73, 72, 68, 82, 0, 0, 0, 1, 0, 0, 0, 1, 8,
        6, 0, 0, 0, 31, 21, 196, 137, 0, 0, 0, 13, 73, 68, 65, 84, 120, 156, 99, 248, 207, 192,
        240, 31, 0, 5, 0, 1, 255, 137, 153, 61, 29, 0, 0, 0, 0, 73, 69, 78, 68, 174, 66, 96, 130,
    ]
}

fn registry_with_texture(pool: &mut IdPool) -> (Texture2DMap, u32) {
    let mut map = Texture2DMap::new();
    let texture = Texture2D::new(pool, &png_1x1()).unwrap();
    let id = texture.id();
    map.add_texture(texture).unwrap();
    (map, id)
}

fn trig_of(angle: f32) -> Trig {
    Trig { cos: angle.cos().to_bits(), sin: angle.sin().to_bits() }
}

#[test]
fn entity2d_raw_record_at_rest_is_identity() {
    let mut pool = IdPool::new();
    let (map, tex_id) = registry_with_texture(&mut pool);
    let rotation: f32 = 0.0;
    let entity = Entity2D::new(
        &map,
        &mut pool,
        tex_id,
        Vector2 { x: 10, y: 20 },
        rotation.to_bits(),
        trig_of(rotation),
        1.0f32.to_bits(),
        Vector2 { x: 0, y: 0 },
    )
    .unwrap();

    let raw = entity.to_raw();
    assert_eq!(raw.position, Vector2 { x: 10u32, y: 20u32 });
    assert_eq!(raw.origin, Vector2 { x: 0u32, y: 0u32 });

    // rotation == identity 2x2 matrix
    assert_eq!(f32::from_bits(raw.rotation.c0r0), 1.0);
    assert_eq!(f32::from_bits(raw.rotation.c0r1), 0.0);
    assert_eq!(f32::from_bits(raw.rotation.c1r0), 0.0);
    assert_eq!(f32::from_bits(raw.rotation.c1r1), 1.0);

    // scale == identity 2x2 matrix
    assert_eq!(f32::from_bits(raw.scale.c0r0), 1.0);
    assert_eq!(f32::from_bits(raw.scale.c0r1), 0.0);
    assert_eq!(f32::from_bits(raw.scale.c1r0), 0.0);
    assert_eq!(f32::from_bits(raw.scale.c1r1), 1.0);
}

#[test]
fn entity2d_update_recomputes_the_cached_transform() {
    let mut pool = IdPool::new();
    let (map, tex_id) = registry_with_texture(&mut pool);
    let mut entity = Entity2D::new(
        &map,
        &mut pool,
        tex_id,
        Vector2 { x: 0, y: 0 },
        0.0f32.to_bits(),
        trig_of(0.0),
        1.0f32.to_bits(),
        Vector2 { x: 0, y: 0 },
    )
    .unwrap();

    let angle: f32 = std::f32::consts::FRAC_PI_2;
    entity.set_rotation(angle.to_bits());
    entity.set_scale(2.0f32.to_bits());
    // The cached transform is stale until update() runs.
    entity.update(trig_of(angle));

    let raw = entity.to_raw();
    assert_eq!(raw.rotation.c0r0, angle.cos().to_bits());
    assert_eq!(raw.rotation.c1r0, angle.sin().to_bits());
    assert_eq!(f32::from_bits(raw.rotation.c0r1), -angle.sin());
    assert_eq!(raw.rotation.c1r1, angle.cos().to_bits());
    assert_eq!(f32::from_bits(raw.scale.c0r0), 2.0);
    assert_eq!(f32::from_bits(raw.scale.c1r1), 2.0);
    assert_eq!(f32::from_bits(raw.scale.c0r1), 0.0);
}

#[test]
fn entity2d_mutators_replace_the_pose() {
    let mut pool = IdPool::new();
    let (map, tex_id) = registry_with_texture(&mut pool);
    let mut entity = Entity2D::new(
        &map,
        &mut pool,
        tex_id,
        Vector2 { x: 1, y: 2 },
        0.25f32.to_bits(),
        trig_of(0.25),
        1.5f32.to_bits(),
        Vector2 { x: 3, y: 4 },
    )
    .unwrap();

    assert_eq!(entity.position(), Vector2 { x: 1u32, y: 2u32 });
    assert_eq!(f32::from_bits(entity.rotation()), 0.25);
    assert_eq!(f32::from_bits(entity.scale()), 1.5);
    assert_eq!(entity.texture_id(), tex_id);
    assert_eq!(entity.vertices().len(), 4);

    entity.set_position(7, 8);
    entity.set_rotation(0.5f32.to_bits());
    entity.set_scale(3.0f32.to_bits());
    assert_eq!(entity.position(), Vector2 { x: 7u32, y: 8u32 });
    assert_eq!(f32::from_bits(entity.rotation()), 0.5);
    assert_eq!(f32::from_bits(entity.scale()), 3.0);
}

#[test]
fn entity2d_with_unregistered_texture_is_rejected() {
    let mut pool = IdPool::new();
    let (map, tex_id) = registry_with_texture(&mut pool);
    let bogus = tex_id.wrapping_add(1);
    let r = Entity2D::new(
        &map,
        &mut pool,
        bogus,
        Vector2 { x: 0, y: 0 },
        0.0f32.to_bits(),
        trig_of(0.0),
        1.0f32.to_bits(),
        Vector2 { x: 0, y: 0 },
    );
    match r {
        Err(e) => assert_eq!(e, EngineError::InvalidReference),
        Ok(_) => panic!("an unregistered texture id must be rejected"),
    }
}

#[test]
fn entity2d_destroy_releases_its_id() {
    let mut pool = IdPool::new();
    let (map, tex_id) = registry_with_texture(&mut pool);
    let entity = Entity2D::new(
        &map,
        &mut pool,
        tex_id,
        Vector2 { x: 0, y: 0 },
        0.0f32.to_bits(),
        trig_of(0.0),
        1.0f32.to_bits(),
        Vector2 { x: 0, y: 0 },
    )
    .unwrap();
    let id = entity.id();
    assert!(pool.is_allocated(id));
    assert_eq!(entity.destroy(&mut pool), Ok(()));
    assert!(!pool.is_allocated(id));
}

fn identity_mat3() -> Mat3 {
    let one = 1.0f32.to_bits();
    Mat3 {
        c0r0: one,
        c0r1: 0,
        c0r2: 0,
        c1r0: 0,
        c1r1: one,
        c1r2: 0,
        c2r0: 0,
        c2r1: 0,
        c2r2: one,
    }
}

#[test]
fn entity3d_raw_record_embeds_pose_and_scale() {
    let mut pool = IdPool::new();
    let map = Texture2DMap::new();
    let axis = Vector3 { x: 0.0f32.to_bits(), y: 1.0f32.to_bits(), z: 0.0f32.to_bits() };
    let rotation = Quaternion::new(axis, 0.0f32.to_bits(), true);
    let entity = Entity3D::new(
        &map,
        &mut pool,
        None,
        Vector3 { x: 1.0f32.to_bits(), y: 2.0f32.to_bits(), z: 3.0f32.to_bits() },
        2.0f32.to_bits(),
        rotation,
        identity_mat3(),
        Vector3 { x: 0, y: 0, z: 0 },
        Vec::new(),
        Vec::new(),
    )
    .unwrap();

    let raw = entity.to_raw();
    assert_eq!(f32::from_bits(raw.position.x), 1.0);
    assert_eq!(f32::from_bits(raw.position.y), 2.0);
    assert_eq!(f32::from_bits(raw.position.z), 3.0);
    assert_eq!(raw.rotation, identity_mat3());
    // scale == diagonal 3x3 matrix of the factor
    assert_eq!(f32::from_bits(raw.scale.c0r0), 2.0);
    assert_eq!(f32::from_bits(raw.scale.c1r1), 2.0);
    assert_eq!(f32::from_bits(raw.scale.c2r2), 2.0);
    assert_eq!(f32::from_bits(raw.scale.c0r1), 0.0);
    assert_eq!(f32::from_bits(raw.scale.c1r2), 0.0);
    assert_eq!(f32::from_bits(raw.scale.c2r0), 0.0);
}

#[test]
fn entity3d_validates_a_referenced_texture() {
    let mut pool = IdPool::new();
    let (map, tex_id) = registry_with_texture(&mut pool);
    let axis = Vector3 { x: 0, y: 0, z: 0 };
    let q = Quaternion::new(axis, 0, false);

    let ok = Entity3D::new(
        &map,
        &mut pool,
        Some(tex_id),
        Vector3 { x: 0, y: 0, z: 0 },
        1.0f32.to_bits(),
        q,
        identity_mat3(),
        Vector3 { x: 0, y: 0, z: 0 },
        Vec::new(),
        Vec::new(),
    );
    assert!(ok.is_ok());

    let bad = Entity3D::new(
        &map,
        &mut pool,
        Some(tex_id.wrapping_add(1)),
        Vector3 { x: 0, y: 0, z: 0 },
        1.0f32.to_bits(),
        q,
        identity_mat3(),
        Vector3 { x: 0, y: 0, z: 0 },
        Vec::new(),
        Vec::new(),
    );
    match bad {
        Err(e) => assert_eq!(e, EngineError::InvalidReference),
        Ok(_) => panic!("an unregistered texture id must be rejected"),
    }
}

#[test]
fn entity3d_update_caches_the_new_rotation_matrix() {
    let mut pool = IdPool::new();
    let map = Texture2DMap::new();
    let axis = Vector3 { x: 0, y: 1.0f32.to_bits(), z: 0 };
    let q = Quaternion::new(axis, 0, true);
    let mut entity = Entity3D::new(
        &map,
        &mut pool,
        None,
        Vector3 { x: 0, y: 0, z: 0 },
        1.0f32.to_bits(),
        q,
        identity_mat3(),
        Vector3 { x: 0, y: 0, z: 0 },
        Vec::new(),
        Vec::new(),
    )
    .unwrap();

    let mut m = identity_mat3();
    m.c0r1 = 0.5f32.to_bits();
    entity.update(m);
    assert_eq!(entity.to_raw().rotation, m);

    entity.set_scale(4.0f32.to_bits());
    assert_eq!(f32::from_bits(entity.scale()), 4.0);
    let mut rot = *entity.rotation();
    rot.set_rotation(Vector3 { x: 1.0f32.to_bits(), y: 0, z: 0 }, 90.0f32.to_bits());
    entity.set_rotation(rot);
    assert_eq!(f32::from_bits(entity.rotation().angle()), 90.0);
    assert_eq!(f32::from_bits(entity.rotation().axis().x), 1.0);
    assert!(entity.rotation().unit());
}
