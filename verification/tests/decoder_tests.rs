use chat_stream::decoder::{decode_line, RecordDecoder};
use chat_stream::error::ErrorKind;

fn record_line(response: &str, done: bool) -> String {
    format!(
        "{{\"model\":\"m\",\"created_at\":\"t\",\"response\":\"{}\",\"done\":{}}}",
        response, done
    )
}

#[test]
fn decode_line_reads_every_field() {
    let line = "{\"model\":\"qwen3:30B\",\"created_at\":\"2023-08-04T08:52:19Z\",\
                \"response\":\"hi\",\"done\":true,\"total_duration\":42,\
                \"eval_count\":7,\"thinking\":\"hmm\"}";
    let record = decode_line(line.as_bytes()).unwrap();
    assert_eq!(record.model, "qwen3:30B");
    assert_eq!(record.created_at, "2023-08-04T08:52:19Z");
    assert_eq!(record.response, "hi");
    assert!(record.done);
    assert_eq!(record.total_duration, Some(42));
    assert_eq!(record.load_duration, None);
    assert_eq!(record.eval_count, Some(7));
    assert_eq!(record.thinking, Some("hmm".to_string()));
}

#[test]
fn decode_line_rejects_missing_member() {
    let line = "{\"model\":\"m\",\"created_at\":\"t\",\"response\":\"hi\"}";
    assert!(matches!(decode_line(line.as_bytes()), Err(ErrorKind::DecodeError)));
}

#[test]
fn decode_line_rejects_wrong_member_type() {
    let line = "{\"model\":\"m\",\"created_at\":\"t\",\"response\":\"hi\",\"done\":\"yes\"}";
    assert!(matches!(decode_line(line.as_bytes()), Err(ErrorKind::DecodeError)));
}

#[test]
fn decode_line_rejects_non_json() {
    assert!(matches!(decode_line(b"not a record"), Err(ErrorKind::DecodeError)));
}

#[test]
fn records_split_mid_record_decode_in_order() {
    let first = record_line("a", false);
    let second = record_line("b", true);
    let stream = format!("{}\n{}\n", first, second);
    let bytes = stream.as_bytes();
    // The cuts fall inside the first record and inside the second.
    let cuts = [&bytes[..7], &bytes[7..bytes.len() - 9], &bytes[bytes.len() - 9..]];
    let mut decoder = RecordDecoder::new();
    let mut responses: Vec<String> = Vec::new();
    for chunk in cuts {
        let (records, failure) = decoder.on_chunk(chunk);
        assert_eq!(failure, None);
        responses.extend(records.into_iter().map(|r| r.response));
    }
    assert_eq!(responses, vec!["a".to_string(), "b".to_string()]);
}

#[test]
fn empty_lines_are_skipped_not_errors() {
    let stream = format!("\n\n{}\n\n", record_line("only", true));
    let mut decoder = RecordDecoder::new();
    let (records, failure) = decoder.on_chunk(stream.as_bytes());
    assert_eq!(failure, None);
    assert_eq!(records.len(), 1);
    assert_eq!(records[0].response, "only");
}

#[test]
fn decode_error_halts_before_later_lines() {
    let stream = format!(
        "{}\nthis is not a record\n{}\n",
        record_line("first", false),
        record_line("third", true)
    );
    let mut decoder = RecordDecoder::new();
    let (records, failure) = decoder.on_chunk(stream.as_bytes());
    assert_eq!(failure, Some(ErrorKind::DecodeError));
    assert_eq!(records.len(), 1);
    assert_eq!(records[0].response, "first");
}

#[test]
fn terminator_less_tail_decodes_on_end() {
    let stream = record_line("tail", true);
    let mut decoder = RecordDecoder::new();
    let (records, failure) = decoder.on_chunk(stream.as_bytes());
    assert_eq!(failure, None);
    assert!(records.is_empty());
    let (last, end_failure) = decoder.on_end();
    assert_eq!(end_failure, None);
    assert_eq!(last.unwrap().response, "tail");
}

#[test]
fn malformed_tail_is_a_decode_error_on_end() {
    let mut decoder = RecordDecoder::new();
    let (records, failure) = decoder.on_chunk(b"{\"model\":");
    assert!(records.is_empty());
    assert_eq!(failure, None);
    let (last, end_failure) = decoder.on_end();
    assert!(last.is_none());
    assert_eq!(end_failure, Some(ErrorKind::DecodeError));
}
