//! Row-interleaved work partitioning and progress accounting.
//!
//! Worker `k` of `t` owns exactly the rows `k, k + t, k + 2t, ...` below the
//! image height. Interleaving spreads expensive rows evenly over the workers,
//! and because the row sets for distinct workers are disjoint and together
//! cover every row, concurrent workers never write the same byte of the
//! shared buffer and no row is left uncomputed.

use vstd::prelude::*;

verus! {

use vstd::arithmetic::div_mod::lemma_div_pos_is_pos;
use vstd::arithmetic::div_mod::lemma_fundamental_div_mod;
use vstd::arithmetic::div_mod::lemma_mod_bound;
use vstd::arithmetic::div_mod::lemma_mod_multiples_vanish;
use vstd::arithmetic::div_mod::lemma_small_mod;
use vstd::arithmetic::mul::lemma_mul_basics;
use vstd::arithmetic::mul::lemma_mul_inequality;
use vstd::arithmetic::mul::lemma_mul_is_commutative;
use vstd::arithmetic::mul::lemma_mul_is_distributive_add_other_way;

/// The rows of an image of the given height that worker `thread_id` of
/// `threads` owns: those whose index is `thread_id` modulo `threads`.
pub open spec fn worker_row_set(thread_id: int, threads: int, height: int) -> Set<int> {
    Set::new(|j: int| 0 <= j < height && j % threads == thread_id)
}

/// Distinct workers own disjoint row sets: a row index has a single residue,
/// so no two workers ever address the same row of the shared buffer.
pub proof fn lemma_partition_disjoint(threads: int, height: int, k1: int, k2: int)
    requires
        threads >= 1,
        k1 != k2,
    ensures
        worker_row_set(k1, threads, height).disjoint(worker_row_set(k2, threads, height)),
{
    assert forall|j: int| worker_row_set(k1, threads, height).contains(j) implies !worker_row_set(
        k2,
        threads,
        height,
    ).contains(j) by {}
}

/// Every row of the image is owned by some worker: row `j` has residue
/// `j % threads`, which is a valid worker index, and `j` lies in that
/// worker's row set.
pub proof fn lemma_partition_covers(threads: int, height: int, j: int)
    requires
        threads >= 1,
        0 <= j < height,
    ensures
        0 <= j % threads < threads,
        worker_row_set(j % threads, threads, height).contains(j),
{
    lemma_mod_bound(j, threads);
}

/// The rows worker `thread_id` of `threads` computes, in increasing order:
/// `thread_id, thread_id + threads, ...`, all below `height` and covering
/// every owned row exactly once.
pub fn worker_rows(thread_id: usize, threads: usize, height: usize) -> (r: Vec<usize>)
    requires
        threads >= 1,
        thread_id < threads,
        height + threads <= usize::MAX,
    ensures
        forall|n: int| 0 <= n < r@.len() ==> r@[n] == thread_id + n * threads,
        forall|n: int|
            0 <= n < r@.len() ==> worker_row_set(
                thread_id as int,
                threads as int,
                height as int,
            ).contains(r@[n] as int),
        thread_id + r@.len() * threads >= height,
        forall|j: int|
            worker_row_set(thread_id as int, threads as int, height as int).contains(j)
                ==> exists|n: int| 0 <= n < r@.len() && r@[n] == j,
{
    let mut rows: Vec<usize> = Vec::new();
    let mut j: usize = thread_id;
    proof {
        lemma_mul_basics(threads as int);
    }
    while j < height
        invariant
            threads >= 1,
            thread_id < threads,
            height + threads <= usize::MAX,
            j == thread_id + rows@.len() * threads,
            j <= height + threads,
            forall|n: int| 0 <= n < rows@.len() ==> rows@[n] == thread_id + n * threads,
            forall|n: int| 0 <= n < rows@.len() ==> rows@[n] < height,
        decreases height + threads - j,
    {
        rows.push(j);
        proof {
            // j + threads == thread_id + (len + 1) * threads
            lemma_mul_is_distributive_add_other_way(
                threads as int,
                rows@.len() as int - 1,
                1,
            );
            lemma_mul_basics(threads as int);
        }
        j = j + threads;
    }
    proof {
        assert forall|n: int| 0 <= n < rows@.len() implies worker_row_set(
            thread_id as int,
            threads as int,
            height as int,
        ).contains(rows@[n] as int) by {
            lemma_mul_is_commutative(n, threads as int);
            lemma_mod_multiples_vanish(n, thread_id as int, threads as int);
            lemma_small_mod(thread_id as nat, threads as nat);
        }
        lemma_worker_rows_complete(thread_id as int, threads as int, height as int, rows@);
    }
    rows
}

/// A list of the rows `thread_id, thread_id + threads, ...` that runs past
/// `height` contains every row that the worker owns.
proof fn lemma_worker_rows_complete(thread_id: int, threads: int, height: int, rows: Seq<usize>)
    requires
        threads >= 1,
        0 <= thread_id < threads,
        thread_id + rows.len() * threads >= height,
        forall|n: int| 0 <= n < rows.len() ==> rows[n] == thread_id + n * threads,
    ensures
        forall|j: int|
            worker_row_set(thread_id, threads, height).contains(j) ==> exists|n: int|
                0 <= n < rows.len() && rows[n] == j,
{
    assert forall|j: int|
        worker_row_set(thread_id, threads, height).contains(j) implies exists|n: int|
        0 <= n < rows.len() && rows[n] == j by {
        lemma_fundamental_div_mod(j, threads);
        lemma_mod_bound(j, threads);
        let q = j / threads;
        lemma_mul_is_commutative(threads, q);
        // j == q * threads + thread_id, so row number q is exactly j.
        assert(j == thread_id + q * threads);
        lemma_div_pos_is_pos(j, threads);
        assert(q < rows.len()) by {
            if q >= rows.len() {
                lemma_mul_inequality(rows.len() as int, q, threads);
            }
        }
        assert(rows[q] == thread_id + q * threads);
    }
}

/// Concurrent workers never write the same byte of the shared pixel buffer:
/// rows owned by distinct workers are distinct, and the bytes of distinct
/// rows occupy disjoint ranges of the row-major buffer. A byte position here
/// is `row * (width_padded * 3) + offset` with the offset inside the row.
pub proof fn lemma_writes_disjoint(
    threads: int,
    height: int,
    width_padded: int,
    k1: int,
    k2: int,
    j1: int,
    j2: int,
    b1: int,
    b2: int,
)
    requires
        threads >= 1,
        k1 != k2,
        width_padded >= 1,
        worker_row_set(k1, threads, height).contains(j1),
        worker_row_set(k2, threads, height).contains(j2),
        0 <= b1 < width_padded * 3,
        0 <= b2 < width_padded * 3,
    ensures
        j1 * (width_padded * 3) + b1 != j2 * (width_padded * 3) + b2,
{
    lemma_partition_disjoint(threads, height, k1, k2);
    assert(j1 != j2);
    lemma_row_ranges_disjoint(width_padded * 3, j1, j2, b1, b2);
}

/// Bytes of distinct rows occupy disjoint ranges: row `j`'s bytes lie in
/// `[j * row_bytes, (j + 1) * row_bytes)`.
proof fn lemma_row_ranges_disjoint(row_bytes: int, j1: int, j2: int, b1: int, b2: int)
    requires
        row_bytes >= 1,
        j1 >= 0,
        j2 >= 0,
        j1 != j2,
        0 <= b1 < row_bytes,
        0 <= b2 < row_bytes,
    ensures
        j1 * row_bytes + b1 != j2 * row_bytes + b2,
{
    if j1 < j2 {
        lemma_mul_is_distributive_add_other_way(row_bytes, j1, 1);
        lemma_mul_basics(row_bytes);
        lemma_mul_inequality(j1 + 1, j2, row_bytes);
    } else {
        lemma_mul_is_distributive_add_other_way(row_bytes, j2, 1);
        lemma_mul_basics(row_bytes);
        lemma_mul_inequality(j2 + 1, j1, row_bytes);
    }
}

/// Progress after finishing the rows before `row`, in permille of the image:
/// `row * 1000 / height`, which stays below 1000 while rows remain.
pub fn row_progress_permille(row: usize, height: usize) -> (r: usize)
    requires
        height >= 1,
        row <= height,
        row * 1000 <= usize::MAX,
    ensures
        r == row as int * 1000 / (height as int),
        r <= 1000,
        row < height ==> r < 1000,
{
    proof {
        lemma_mul_inequality(row as int, height as int, 1000);
        vstd::arithmetic::div_mod::lemma_div_multiples_vanish(1000, height as int);
        if row < height {
            // row * 1000 <= (height - 1) * 1000 < height * 1000
            lemma_mul_inequality(row as int, height as int - 1, 1000);
            vstd::arithmetic::div_mod::lemma_div_is_ordered(
                row as int * 1000,
                height as int * 1000 - 1,
                height as int,
            );
            // height * 1000 - 1 == height * 999 + (height - 1)
            vstd::arithmetic::div_mod::lemma_div_multiples_vanish_fancy(
                999,
                height as int - 1,
                height as int,
            );
        } else {
            vstd::arithmetic::div_mod::lemma_div_is_ordered(
                row as int * 1000,
                height as int * 1000,
                height as int,
            );
        }
    }
    row * 1000 / height
}

} // verus!
