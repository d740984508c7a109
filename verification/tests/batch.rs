use anselm_scribe::batch::{split_chunks, BatchWrite};

fn concat(chunks: &Vec<&[u32]>) -> Vec<u32> {
    let mut all = Vec::new();
    for chunk in chunks {
        all.extend_from_slice(chunk);
    }
    all
}

#[test]
fn chunks_of_three_from_seven_rows() {
    let rows: Vec<u32> = vec![1, 2, 3, 4, 5, 6, 7];
    let chunks = split_chunks(&rows, 3);
    assert_eq!(chunks.len(), 3);
    assert_eq!(chunks[0], &[1, 2, 3]);
    assert_eq!(chunks[1], &[4, 5, 6]);
    assert_eq!(chunks[2], &[7]);
}

#[test]
fn exact_multiple_has_no_short_chunk() {
    let rows: Vec<u32> = vec![1, 2, 3, 4, 5, 6];
    let chunks = split_chunks(&rows, 3);
    assert_eq!(chunks, vec![&[1, 2, 3][..], &[4, 5, 6][..]]);
}

#[test]
fn chunk_size_one_writes_row_by_row() {
    let rows: Vec<u32> = vec![10, 20, 30];
    let chunks = split_chunks(&rows, 1);
    assert_eq!(chunks, vec![&[10][..], &[20][..], &[30][..]]);
}

#[test]
fn chunk_size_zero_writes_row_by_row() {
    let rows: Vec<u32> = vec![10, 20, 30];
    let chunks = split_chunks(&rows, 0);
    assert_eq!(chunks, vec![&[10][..], &[20][..], &[30][..]]);
}

#[test]
fn chunk_larger_than_the_batch_is_one_chunk() {
    let rows: Vec<u32> = vec![1, 2, 3];
    assert_eq!(split_chunks(&rows, 1000), vec![&[1, 2, 3][..]]);
    assert_eq!(split_chunks(&rows, usize::MAX), vec![&[1, 2, 3][..]]);
}

#[test]
fn no_rows_give_no_chunk() {
    let rows: Vec<u32> = vec![];
    assert!(split_chunks(&rows, 3).is_empty());
    assert!(split_chunks(&rows, 0).is_empty());
}

#[test]
fn chunk_count_is_the_ceiling_and_chunks_rebuild_the_rows() {
    for len in 0..40usize {
        let rows: Vec<u32> = (0..len as u32).collect();
        for size in 1..12usize {
            let chunks = split_chunks(&rows, size);
            assert_eq!(chunks.len(), (len + size - 1) / size);
            assert!(chunks.iter().all(|chunk| 1 <= chunk.len() && chunk.len() <= size));
            assert!(chunks.iter().rev().skip(1).all(|chunk| chunk.len() == size));
            assert_eq!(concat(&chunks), rows);
        }
    }
}

#[test]
fn chunks_are_written_in_order_and_once() {
    let mut write = BatchWrite::new(3);
    assert_eq!(write.next_chunk(), Some(0));
    assert!(write.record(true));
    assert_eq!(write.next_chunk(), Some(1));
    assert!(write.record(true));
    assert_eq!(write.next_chunk(), Some(2));
    assert!(!write.record(true));
    assert_eq!(write.next_chunk(), None);
    assert_eq!(write.written(), 3);
    assert!(!write.has_failed());
}

#[test]
fn failed_write_ends_the_batch_without_retry() {
    let mut write = BatchWrite::new(3);
    assert!(write.record(true));
    assert_eq!(write.next_chunk(), Some(1));
    assert!(!write.record(false));
    assert_eq!(write.next_chunk(), None);
    assert!(write.has_failed());
    assert_eq!(write.written(), 1);
    assert!(!write.record(true));
    assert_eq!(write.next_chunk(), None);
    assert_eq!(write.written(), 1);
    assert!(write.has_failed());
}

#[test]
fn batch_without_chunks_is_over_at_once() {
    let mut write = BatchWrite::new(0);
    assert_eq!(write.next_chunk(), None);
    assert!(!write.record(false));
    assert!(!write.has_failed());
    assert_eq!(write.written(), 0);
}

#[test]
fn written_chunks_are_those_before_the_first_failure() {
    for total in 0..5usize {
        for failure in 0..6usize {
            let mut write = BatchWrite::new(total);
            let mut attempts = 0;
            while let Some(index) = write.next_chunk() {
                assert_eq!(index, attempts);
                write.record(index != failure);
                attempts += 1;
            }
            assert_eq!(write.written(), total.min(failure));
            assert_eq!(write.has_failed(), failure < total);
            assert_eq!(attempts, total.min(failure + 1));
        }
    }
}
