use iterascope::cache::ResultCache;

/// The words of a reference-orbit input: real numbers by their bits.
fn reference_key(centre: [f64; 2], julia_c: [f64; 2], iterations: u32, pane: usize) -> Vec<u64> {
    vec![
        centre[0].to_bits(),
        centre[1].to_bits(),
        julia_c[0].to_bits(),
        julia_c[1].to_bits(),
        iterations as u64,
        pane as u64,
    ]
}

/// Escape iteration of the critical orbit of `c`, if it escapes.
fn escape_iteration(c: [f64; 2], iterations: u32, bailout: f64) -> Option<u32> {
    let mut z = [0.0f64; 2];
    for iteration in 1..=iterations {
        z = [z[0] * z[0] - z[1] * z[1] + c[0], 2.0 * z[0] * z[1] + c[1]];
        if z[0] * z[0] + z[1] * z[1] > bailout * bailout {
            return Some(iteration);
        }
    }
    None
}

#[test]
fn cache_reuses_an_identical_input() {
    let input = ([-1.0f64, 0.0f64], 64u32, 4.0f64);
    let key = vec![input.0[0].to_bits(), input.0[1].to_bits(), input.1 as u64, input.2.to_bits()];
    let mut cache = ResultCache::new((0usize, None));
    let builds = std::cell::Cell::new(0);
    let build = |_: u64| {
        builds.set(builds.get() + 1);
        (input.1 as usize + 1, escape_iteration(input.0, input.1, input.2))
    };
    assert!(cache.update(key.clone(), build));
    let first_length = cache.value().0;
    assert!(!cache.update(key.clone(), build));
    assert_eq!(cache.value().0, first_length);
    assert!(!cache.update(key, build));
    assert_eq!(cache.value().1, None);
    assert_eq!(builds.get(), 1);
}

#[test]
fn cache_reuses_an_unchanged_reference() {
    let key = reference_key([-0.745, 0.113], [-0.745, 0.113], 256, 0);
    let mut cache = ResultCache::new(0u64);
    cache.update(key.clone(), |revision| revision);
    let first = *cache.value();
    cache.update(key.clone(), |revision| revision);
    let second = *cache.value();
    assert_eq!(first, second);

    cache.update(reference_key([-0.745, 0.114], [-0.745, 0.113], 256, 0), |revision| revision);
    let changed = *cache.value();
    assert_ne!(first, changed);

    cache.invalidate();
    cache.update(key, |revision| revision);
    let invalidated = *cache.value();
    assert_ne!(changed, invalidated);
}

#[test]
fn probe_cache_reuses_an_exact_view() {
    let view = |half_height: f64| {
        vec![(-0.5f64).to_bits(), 0.0f64.to_bits(), half_height.to_bits(), 1.6f64.to_bits(), 64]
    };
    let mut cache = ResultCache::new(0u8);
    assert!(cache.last().is_none());
    cache.update(view(1.45), |_| 3u8);
    assert_eq!(cache.current(&view(1.45)), Some(&3));
    assert!(cache.current(&view(0.725)).is_none());
    assert_eq!(cache.last(), Some(&3));
}

#[test]
fn revisions_count_from_one_and_change_on_each_rebuild() {
    let mut cache = ResultCache::new(String::new());
    assert_eq!(cache.revision(), 0);
    cache.update(vec![1], |revision| revision.to_string());
    assert_eq!((cache.revision(), cache.value().as_str()), (1, "1"));
    cache.update(vec![2], |revision| revision.to_string());
    assert_eq!(cache.revision(), 2);
    assert!(cache.update(vec![1, 0], |revision| revision.to_string()));
    assert!(!cache.update(vec![1, 0], |_| unreachable!()));
    assert_eq!(cache.revision(), 3);
}
