use integral_calc::partition::{partition, SubInterval, THREADS_COUNT};

#[test]
fn partition_gives_one_piece_per_worker() {
    let p = partition(THREADS_COUNT);
    assert_eq!(p.len(), 32);
    for (k, piece) in p.iter().enumerate() {
        assert_eq!(*piece, SubInterval { start: k as u32, end: k as u32 + 1 });
    }
}

#[test]
fn partition_tiles_without_gap_or_overlap() {
    for parts in [1u32, 2, 16, 32] {
        let p = partition(parts);
        assert_eq!(p[0].start, 0);
        assert_eq!(p[p.len() - 1].end, parts);
        for k in 0..p.len() - 1 {
            assert_eq!(p[k].end, p[k + 1].start);
        }
    }
}

#[test]
fn partition_boundaries_agree_as_floats() {
    let (lower, upper) = (-1.25f64, 3.5f64);
    let range = upper - lower;
    let parts = THREADS_COUNT;
    let at = |j: u32| lower + j as f64 * range / parts as f64;
    let p = partition(parts);
    assert_eq!(at(p[0].start), lower);
    assert_eq!(at(p[p.len() - 1].end), upper);
    for k in 0..p.len() - 1 {
        assert_eq!(at(p[k].end).to_bits(), at(p[k + 1].start).to_bits());
    }
}

#[test]
fn partition_of_zero_parts_is_empty() {
    assert!(partition(0).is_empty());
}
