use photo_sheet::batch::{count_batches, BatchIter};

#[test]
fn test_iter() {
    let v = vec![1, 2, 3, 4, 5, 6, 7, 8, 9, 10];
    let mut iter = BatchIter::new(v.into_iter(), 4);
    assert_eq!(iter.next(), Some(vec![1, 2, 3, 4]));
    assert_eq!(iter.next(), Some(vec![5, 6, 7, 8]));
    assert_eq!(iter.next(), Some(vec![9, 10]));
    assert_eq!(iter.next(), None);
}

#[test]
fn empty_input_gives_no_batch() {
    let v: Vec<u8> = Vec::new();
    let mut iter = BatchIter::new(v.into_iter(), 3);
    assert_eq!(iter.next(), None);
    assert_eq!(iter.next(), None);
}

#[test]
fn exact_multiple_has_no_short_batch() {
    let v = vec!['a', 'b', 'c', 'd', 'e', 'f'];
    let mut iter = BatchIter::new(v.into_iter(), 3);
    assert_eq!(iter.next(), Some(vec!['a', 'b', 'c']));
    assert_eq!(iter.next(), Some(vec!['d', 'e', 'f']));
    assert_eq!(iter.next(), None);
}

#[test]
fn batch_size_one_gives_single_items() {
    let v = vec![7, 8];
    let mut iter = BatchIter::new(v.into_iter(), 1);
    assert_eq!(iter.next(), Some(vec![7]));
    assert_eq!(iter.next(), Some(vec![8]));
    assert_eq!(iter.next(), None);
}

#[test]
fn batch_size_zero_gives_nothing_and_takes_nothing() {
    let v = vec![1, 2, 3];
    let mut source = v.into_iter();
    {
        let mut iter = BatchIter::new(&mut source, 0);
        assert_eq!(iter.next(), None);
    }
    assert_eq!(source.next(), Some(1));
}

#[test]
fn only_one_batch_is_drawn_at_a_time() {
    let v = vec![1, 2, 3, 4, 5];
    let mut source = v.into_iter();
    {
        let mut iter = BatchIter::new(&mut source, 2);
        assert_eq!(iter.next(), Some(vec![1, 2]));
    }
    assert_eq!(source.next(), Some(3));
}

#[test]
fn batches_join_to_the_input() {
    for size in 1..=7usize {
        for len in 0..=20usize {
            let items: Vec<usize> = (0..len).collect();
            let mut iter = BatchIter::new(items.clone().into_iter(), size);
            let mut joined: Vec<usize> = Vec::new();
            let mut lengths: Vec<usize> = Vec::new();
            while let Some(batch) = iter.next() {
                lengths.push(batch.len());
                joined.extend(batch);
            }
            assert_eq!(joined, items);
            assert_eq!(lengths.len(), (len + size - 1) / size);
            assert_eq!(lengths.len(), count_batches(len, size));
            for (i, n) in lengths.iter().enumerate() {
                assert!(*n >= 1 && *n <= size);
                if i + 1 < lengths.len() {
                    assert_eq!(*n, size);
                }
            }
        }
    }
}

#[test]
fn count_batches_rounds_up() {
    assert_eq!(count_batches(0, 12), 0);
    assert_eq!(count_batches(1, 12), 1);
    assert_eq!(count_batches(12, 12), 1);
    assert_eq!(count_batches(13, 12), 2);
    assert_eq!(count_batches(24, 12), 2);
    assert_eq!(count_batches(25, 12), 3);
    assert_eq!(count_batches(5, 0), 0);
    assert_eq!(count_batches(usize::MAX, 1), usize::MAX);
    assert_eq!(count_batches(usize::MAX, 2), usize::MAX / 2 + 1);
    assert_eq!(count_batches(usize::MAX, usize::MAX), 1);
}
