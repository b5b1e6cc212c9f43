use chat_stream::framer::LineFramer;

fn lines_of(chunks: &[&[u8]]) -> Vec<Vec<u8>> {
    let mut framer = LineFramer::new();
    let mut lines: Vec<Vec<u8>> = Vec::new();
    for chunk in chunks {
        lines.extend(framer.push_chunk(chunk));
    }
    if let Some(last) = framer.finish() {
        lines.push(last);
    }
    lines
}

#[test]
fn empty_source_yields_no_lines() {
    let mut framer = LineFramer::new();
    assert_eq!(framer.finish(), None);
}

#[test]
fn empty_chunk_is_a_noop() {
    let mut framer = LineFramer::new();
    assert_eq!(framer.push_chunk(b""), Vec::<Vec<u8>>::new());
    assert_eq!(framer.push_chunk(b"abc"), Vec::<Vec<u8>>::new());
    assert_eq!(framer.push_chunk(b""), Vec::<Vec<u8>>::new());
    assert_eq!(framer.finish(), Some(b"abc".to_vec()));
}

#[test]
fn one_chunk_many_terminators() {
    let mut framer = LineFramer::new();
    let lines = framer.push_chunk(b"one\ntwo\nthree\n");
    assert_eq!(lines, vec![b"one".to_vec(), b"two".to_vec(), b"three".to_vec()]);
    assert_eq!(framer.finish(), None);
}

#[test]
fn consecutive_terminators_yield_empty_lines() {
    let lines = lines_of(&[b"a\n\n\nb\n"]);
    assert_eq!(lines, vec![b"a".to_vec(), b"".to_vec(), b"".to_vec(), b"b".to_vec()]);
}

#[test]
fn split_mid_line_is_reassembled() {
    let lines = lines_of(&[b"he", b"llo\nwo", b"rld\n"]);
    assert_eq!(lines, vec![b"hello".to_vec(), b"world".to_vec()]);
}

#[test]
fn split_mid_character_is_reassembled() {
    // "é" is 0xC3 0xA9; the split falls between its two bytes.
    let lines = lines_of(&[&[0xC3], &[0xA9, b'\n']]);
    assert_eq!(lines, vec![vec![0xC3, 0xA9]]);
}

#[test]
fn final_partial_line_is_emitted_once() {
    let mut framer = LineFramer::new();
    assert_eq!(framer.push_chunk(b"done\ntail"), vec![b"done".to_vec()]);
    assert_eq!(framer.finish(), Some(b"tail".to_vec()));
    assert_eq!(framer.finish(), None);
}

#[test]
fn one_byte_chunks_match_one_big_chunk() {
    let input: &[u8] = b"alpha\nbeta\n\ngamma";
    let whole = lines_of(&[input]);
    let bytes: Vec<&[u8]> = input.chunks(1).collect();
    let tiny = lines_of(&bytes);
    assert_eq!(whole, tiny);
    let pairs: Vec<&[u8]> = input.chunks(2).collect();
    assert_eq!(whole, lines_of(&pairs));
}

#[test]
fn line_count_matches_terminator_count() {
    let input: &[u8] = b"a\nbb\nccc\ntail";
    let terminators = input.iter().filter(|b| **b == b'\n').count();
    let mut framer = LineFramer::new();
    let lines = framer.push_chunk(input);
    assert_eq!(lines.len(), terminators);
    assert!(framer.finish().is_some());
}

#[test]
fn lines_and_tail_round_trip_to_the_input() {
    let input: &[u8] = b"first\nsecond\n\nlast-without-terminator";
    let mut framer = LineFramer::new();
    let lines = framer.push_chunk(input);
    let tail = framer.finish();
    let mut rebuilt: Vec<u8> = Vec::new();
    for line in &lines {
        rebuilt.extend(line);
        rebuilt.push(b'\n');
    }
    if let Some(last) = tail {
        rebuilt.extend(&last);
    }
    assert_eq!(rebuilt, input.to_vec());
}
