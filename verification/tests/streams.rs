use game_handler::streams::{frame_chunk, merge_chunks, NEWLINE};

fn chunks(items: &[&str]) -> Vec<Vec<u8>> {
    items.iter().map(|s| s.as_bytes().to_vec()).collect()
}

#[test]
fn framing_appends_one_newline() {
    assert_eq!(frame_chunk(b"abc".to_vec()), b"abc\n".to_vec());
    assert_eq!(frame_chunk(Vec::new()), vec![NEWLINE]);
}

#[test]
fn merging_follows_the_order_of_arrival() {
    let left = chunks(&["out 1", "out 2", "out 3"]);
    let right = chunks(&["err 1", "err 2"]);
    let merged = merge_chunks(&left, &right, &vec![true, false, false, true, true]);
    assert_eq!(merged, chunks(&["out 1\n", "err 1\n", "err 2\n", "out 2\n", "out 3\n"]));
}

#[test]
fn a_stream_at_its_end_leaves_the_other_to_go_on() {
    let left = chunks(&["a"]);
    let right = chunks(&["x", "y", "z"]);
    let merged = merge_chunks(&left, &right, &vec![true, true, true, true]);
    assert_eq!(merged, chunks(&["a\n", "x\n", "y\n", "z\n"]));
}

#[test]
fn picks_that_run_out_let_the_left_stream_go_first() {
    let left = chunks(&["a", "b"]);
    let right = chunks(&["x", "y"]);
    let merged = merge_chunks(&left, &right, &vec![false]);
    assert_eq!(merged, chunks(&["x\n", "a\n", "b\n", "y\n"]));
}

#[test]
fn merging_nothing_gives_nothing() {
    let none: Vec<Vec<u8>> = Vec::new();
    assert!(merge_chunks(&none, &none, &vec![true, false]).is_empty());
    assert_eq!(merge_chunks(&chunks(&["only"]), &none, &Vec::new()), chunks(&["only\n"]));
    assert_eq!(merge_chunks(&none, &chunks(&["only"]), &Vec::new()), chunks(&["only\n"]));
}

#[test]
fn merging_neither_drops_nor_duplicates_a_byte() {
    let left = chunks(&["alpha", "", "gamma"]);
    let right = chunks(&["one", "two", "three", "four"]);
    let schedules: Vec<Vec<bool>> = vec![
        vec![],
        vec![true; 7],
        vec![false; 7],
        vec![true, false, true, false, true, false, true],
        vec![false, false, true, true, false, true, false],
    ];
    for picks in schedules.iter() {
        let merged = merge_chunks(&left, &right, picks);
        assert_eq!(merged.len(), left.len() + right.len());
        let mut from_left = 0;
        let mut from_right = 0;
        for chunk in merged.iter() {
            assert_eq!(chunk.last(), Some(&NEWLINE));
            let body = &chunk[..chunk.len() - 1];
            assert!(!body.contains(&NEWLINE));
            if from_left < left.len() && left[from_left].as_slice() == body {
                from_left += 1;
            } else {
                assert!(from_right < right.len());
                assert_eq!(right[from_right].as_slice(), body);
                from_right += 1;
            }
        }
        assert_eq!(from_left, left.len());
        assert_eq!(from_right, right.len());
        let bytes: usize = merged.iter().map(|c| c.len()).sum();
        let given: usize = left.iter().chain(right.iter()).map(|c| c.len() + 1).sum();
        assert_eq!(bytes, given);
    }
}
