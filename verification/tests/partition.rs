use fractal_engine::partition::row_progress_permille;
use fractal_engine::partition::worker_rows;

#[test]
fn rows_interleave_by_thread_id() {
    assert_eq!(worker_rows(0, 4, 10), vec![0, 4, 8]);
    assert_eq!(worker_rows(1, 4, 10), vec![1, 5, 9]);
    assert_eq!(worker_rows(2, 4, 10), vec![2, 6]);
    assert_eq!(worker_rows(3, 4, 10), vec![3, 7]);
}

#[test]
fn row_sets_partition_the_image() {
    // The row sets {k, k+T, k+2T, ...} for k = 0..T partition [0, H):
    // no overlaps, full coverage.
    for threads in [1usize, 2, 3, 4, 7, 16] {
        for height in [0usize, 1, 2, 9, 10, 33] {
            let mut seen = vec![0usize; height];
            for thread_id in 0..threads {
                for row in worker_rows(thread_id, threads, height) {
                    assert!(row < height);
                    assert_eq!(row % threads, thread_id);
                    seen[row] += 1;
                }
            }
            assert!(seen.iter().all(|&count| count == 1));
        }
    }
}

#[test]
fn single_thread_owns_every_row() {
    assert_eq!(worker_rows(0, 1, 5), vec![0, 1, 2, 3, 4]);
}

#[test]
fn worker_beyond_height_owns_nothing() {
    assert_eq!(worker_rows(5, 8, 3), Vec::<usize>::new());
}

#[test]
fn progress_is_row_permille() {
    assert_eq!(row_progress_permille(0, 10), 0);
    assert_eq!(row_progress_permille(5, 10), 500);
    assert_eq!(row_progress_permille(9, 10), 900);
    assert_eq!(row_progress_permille(10, 10), 1000);
    assert_eq!(row_progress_permille(1, 3), 333);
    assert_eq!(row_progress_permille(2160, 2160), 1000);
    assert_eq!(row_progress_permille(2159, 2160), 999);
}
