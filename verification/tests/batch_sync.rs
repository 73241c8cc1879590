use strfive_engine::batch::Batch2D;
use strfive_engine::entity::Entity2D;
use strfive_engine::identity::IdPool;
use strfive_engine::texture::{Texture2D, Texture2DMap, UpdateTextures};
use strfive_engine::transformation::Trig;
use strfive_engine::vector::Vector2;

fn png_1x1() -> Vec<u8> {
    vec![
        137, 80, 78, 71, 13, 10, 26, 10, 0, 0, 0, 13, 73, 72, 68, 82, 0, 0, 0, 1, 0, 0, 0, 1, 8,
        6, 0, 0, 0, 31, 21, 196, 137, 0, 0, 0, 13, 73, 68, 65, 84, 120, 156, 99, 248, 207, 192,
        240, 31, 0, 5, 0, 1, 255, 137, 153, 61, 29, 0, 0, 0, 0, 73, 69, 78, 68, 174, 66, 96, 130,
    ]
}

fn rest_trig() -> Trig {
    Trig { cos: 1.0f32.to_bits(), sin: 0.0f32.to_bits() }
}

fn make_entity(map: &Texture2DMap, pool: &mut IdPool, tex_id: u32, x: u32, y: u32) -> Entity2D {
    Entity2D::new(
        map,
        pool,
        tex_id,
        Vector2 { x, y },
        0.0f32.to_bits(),
        rest_trig(),
        1.0f32.to_bits(),
        Vector2 { x: 0, y: 0 },
    )
    .unwrap()
}

/// A pool, a registry holding one texture (whose id entities reference),
/// and a batch owning a texture of its own.
fn setup() -> (IdPool, Texture2DMap, u32, Batch2D) {
    let mut pool = IdPool::new();
    let mut map = Texture2DMap::new();
    let batch_texture = Texture2D::new(&mut pool, &png_1x1()).unwrap();
    let batch = Batch2D::new(&mut pool, batch_texture);
    let registered = Texture2D::new(&mut pool, &png_1x1()).unwrap();
    let tex_id = registered.id();
    map.add_texture(registered).unwrap();
    (pool, map, tex_id, batch)
}

#[test]
fn update_builds_six_indices_per_entity() {
    let (mut pool, tmap, tex_id, mut batch) = setup();

    let entities = vec![
        make_entity(&tmap, &mut pool, tex_id, 1, 1),
        make_entity(&tmap, &mut pool, tex_id, 2, 2),
    ];
    let sync = batch.update(&entities);
    assert!(sync.recreate_data);
    assert!(sync.recreate_index);
    assert_eq!(batch.entity_count(), 2);
    assert_eq!(batch.entity_records().len(), 2);
    assert_eq!(batch.vertex_records().len(), 8);
    assert_eq!(
        batch.index_records().as_slice(),
        &[0u16, 1, 2, 0, 2, 3, 4, 5, 6, 4, 6, 7]
    );
    assert_eq!(batch.entity_records()[0].position, Vector2 { x: 1u32, y: 1u32 });
    assert_eq!(batch.entity_records()[1].position, Vector2 { x: 2u32, y: 2u32 });
}

#[test]
fn removing_an_entity_pops_one_index_block() {
    let (mut pool, tmap, tex_id, mut batch) = setup();

    let mut entities = vec![
        make_entity(&tmap, &mut pool, tex_id, 1, 1),
        make_entity(&tmap, &mut pool, tex_id, 2, 2),
    ];
    batch.update(&entities);
    assert_eq!(batch.index_records().len(), 12);

    let removed = entities.pop().unwrap();
    removed.destroy(&mut pool).unwrap();
    let sync = batch.update(&entities);
    assert!(sync.recreate_index);
    assert_eq!(batch.index_records().len(), 6);
    assert_eq!(batch.index_records().as_slice(), &[0u16, 1, 2, 0, 2, 3]);
    assert_eq!(batch.entity_count(), 1);
}

#[test]
fn second_update_with_unchanged_set_overwrites_in_place() {
    let (mut pool, tmap, tex_id, mut batch) = setup();

    let entities = vec![
        make_entity(&tmap, &mut pool, tex_id, 5, 6),
        make_entity(&tmap, &mut pool, tex_id, 7, 8),
    ];
    let first = batch.update(&entities);
    assert!(first.recreate_data, "first use must create the buffers");
    let records_1 = batch.entity_records().clone();
    let vertices_1 = batch.vertex_records().clone();
    let indices_1 = batch.index_records().clone();

    let second = batch.update(&entities);
    assert!(!second.recreate_data, "unchanged set must be overwritten in place");
    assert!(!second.recreate_index);
    assert_eq!(batch.entity_records().as_slice(), records_1.as_slice());
    assert_eq!(batch.vertex_records().as_slice(), vertices_1.as_slice());
    assert_eq!(batch.index_records().as_slice(), indices_1.as_slice());
}

#[test]
fn growing_the_set_appends_index_blocks() {
    let (mut pool, tmap, tex_id, mut batch) = setup();

    let mut entities = vec![make_entity(&tmap, &mut pool, tex_id, 1, 1)];
    batch.update(&entities);
    assert_eq!(batch.index_records().len(), 6);

    entities.push(make_entity(&tmap, &mut pool, tex_id, 2, 2));
    entities.push(make_entity(&tmap, &mut pool, tex_id, 3, 3));
    let sync = batch.update(&entities);
    assert!(sync.recreate_data);
    assert!(sync.recreate_index);
    assert_eq!(
        batch.index_records().as_slice(),
        &[0u16, 1, 2, 0, 2, 3, 4, 5, 6, 4, 6, 7, 8, 9, 10, 8, 10, 11]
    );
    assert_eq!(batch.vertex_records().len(), 12);
}

#[test]
fn index_blocks_follow_the_formula() {
    let (mut pool, tmap, tex_id, mut batch) = setup();

    let mut entities = Vec::new();
    for k in 0..20u32 {
        entities.push(make_entity(&tmap, &mut pool, tex_id, k, k));
    }
    batch.update(&entities);
    let indices = batch.index_records();
    assert_eq!(indices.len(), 6 * 20);
    for k in 0..20u16 {
        let block = &indices[(6 * k) as usize..(6 * k + 6) as usize];
        assert_eq!(block, &[4 * k, 4 * k + 1, 4 * k + 2, 4 * k, 4 * k + 2, 4 * k + 3]);
    }
}

#[test]
fn empty_update_keeps_everything_empty() {
    let (_pool, _map, _tex, mut batch) = setup();
    let entities: Vec<Entity2D> = Vec::new();
    let sync = batch.update(&entities);
    assert!(sync.recreate_data);
    assert!(!sync.recreate_index);
    assert_eq!(batch.entity_count(), 0);
    assert_eq!(batch.index_records().len(), 0);
    assert_eq!(batch.vertex_records().len(), 0);
}

#[test]
fn batch_destroy_releases_its_id() {
    let (mut pool, _map, _tex, batch) = setup();
    let id = batch.id();
    assert!(pool.is_allocated(id));
    assert_eq!(batch.destroy(&mut pool), Ok(()));
    assert!(!pool.is_allocated(id));
}

#[test]
fn batch_exposes_its_texture() {
    let (_pool, _map, _tex, batch) = setup();
    assert_eq!(batch.texture().dimensions(), (1, 1));
    assert_eq!(batch.texture().rgba_buffer().as_slice(), &[255, 0, 0, 255]);
}
