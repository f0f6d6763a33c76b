use membench::sweep::{next_chunk_size, sweep_sizes};

#[test]
fn sweep_64_to_1024_is_the_additive_sequence() {
    let sizes = sweep_sizes(1024);
    let expected: Vec<usize> = (1..=16).map(|i| 64 * i).collect();
    assert_eq!(sizes, expected);
}

#[test]
fn step_is_additive_below_the_crossover() {
    assert_eq!(next_chunk_size(64), 128);
    assert_eq!(next_chunk_size(1024), 1088);
    assert_eq!(next_chunk_size(6336), 6400);
}

#[test]
fn step_is_geometric_past_the_crossover() {
    // from 6400 bytes on, one percent is at least one block
    assert_eq!(next_chunk_size(6400), 6464);
    assert_eq!(next_chunk_size(64000), 64640);
    // one percent of 100000 is 1000; 101000 rounds down to 1578 blocks
    assert_eq!(next_chunk_size(100000), 100992);
}

#[test]
fn sweep_is_empty_below_one_block() {
    assert!(sweep_sizes(63).is_empty());
    assert_eq!(sweep_sizes(64), vec![64]);
}

#[test]
fn sweep_sizes_stay_aligned_and_ascending() {
    let sizes = sweep_sizes(1 << 20);
    assert_eq!(sizes[0], 64);
    for w in sizes.windows(2) {
        assert!(w[0] < w[1]);
        assert_eq!(w[1] % 64, 0);
    }
    assert!(*sizes.last().unwrap() <= 1 << 20);
}
