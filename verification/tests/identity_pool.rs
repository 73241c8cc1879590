use strfive_engine::identity::IdPool;
use strfive_engine::EngineError;

#[test]
fn allocate_returns_distinct_ids() {
    let mut pool = IdPool::new();
    let mut seen: Vec<u32> = Vec::new();
    for _ in 0..200 {
        let id = pool.allocate();
        assert!(!seen.contains(&id), "allocate handed out a live id twice");
        seen.push(id);
    }
    assert_eq!(pool.len(), 200);
}

#[test]
fn allocated_ids_are_reported_live() {
    let mut pool = IdPool::new();
    let a = pool.allocate();
    let b = pool.allocate();
    assert!(pool.is_allocated(a));
    assert!(pool.is_allocated(b));
    assert_eq!(pool.len(), 2);
}

#[test]
fn release_frees_exactly_one_id() {
    let mut pool = IdPool::new();
    let a = pool.allocate();
    let b = pool.allocate();
    assert_eq!(pool.release(a), Ok(()));
    assert!(!pool.is_allocated(a));
    assert!(pool.is_allocated(b));
    assert_eq!(pool.len(), 1);
}

#[test]
fn double_release_is_an_invariant_violation() {
    let mut pool = IdPool::new();
    let a = pool.allocate();
    assert_eq!(pool.release(a), Ok(()));
    assert_eq!(pool.release(a), Err(EngineError::InvariantViolation));
}

#[test]
fn release_of_never_allocated_id_fails() {
    let mut pool = IdPool::new();
    assert_eq!(pool.release(12345), Err(EngineError::InvariantViolation));
    assert_eq!(pool.len(), 0);
}
