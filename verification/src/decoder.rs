//! Decodes the framed lines of a generation stream into records.
//!
//! Each non-empty line is one newline-delimited JSON generation record.
//! Empty lines (a trailing blank line before stream end, say) are
//! skipped, never surfaced as a failure. A malformed line yields a decode
//! error, and the record sequence stops there: no resynchronisation.

use vstd::prelude::*;
use crate::error::ErrorKind;
use crate::framer::{byte_views, framed, LineFramer};
use crate::json::{
    json_bool_member, json_get_bool, json_get_str, json_get_u64, json_str_member,
    json_u64_member,
};
use crate::record::{record_views, GenerationResponse, RecordView};

verus! {

/// The record encoded by one line, where the line is a well-formed
/// record: the four required members present with their types, the
/// metric members and the thinking text taken as they stand.
pub open spec fn spec_decode(line: Seq<u8>) -> Option<RecordView> {
    if json_str_member(line, "model"@) is Some && json_str_member(line, "created_at"@) is Some
        && json_str_member(line, "response"@) is Some && json_bool_member(
        line,
        "done"@,
    ) is Some {
        Some(
            RecordView {
                model: json_str_member(line, "model"@)->Some_0,
                created_at: json_str_member(line, "created_at"@)->Some_0,
                response: json_str_member(line, "response"@)->Some_0,
                done: json_bool_member(line, "done"@)->Some_0,
                total_duration: json_u64_member(line, "total_duration"@),
                load_duration: json_u64_member(line, "load_duration"@),
                prompt_eval_count: json_u64_member(line, "prompt_eval_count"@),
                prompt_eval_duration: json_u64_member(line, "prompt_eval_duration"@),
                eval_count: json_u64_member(line, "eval_count"@),
                eval_duration: json_u64_member(line, "eval_duration"@),
                thinking: json_str_member(line, "thinking"@),
            },
        )
    } else {
        None
    }
}

/// Decodes one complete line. Succeeds exactly on the lines that encode
/// a well-formed record, and returns that record; every failure is a
/// decode error.
pub fn decode_line(line: &[u8]) -> (record: Result<GenerationResponse, ErrorKind>)
    ensures
        record is Ok <==> spec_decode(line@) is Some,
        record matches Ok(decoded) ==> decoded@ == spec_decode(line@)->Some_0,
        record matches Err(kind) ==> kind == ErrorKind::DecodeError,
{
    let model = json_get_str(line, "model");
    let created_at = json_get_str(line, "created_at");
    let response = json_get_str(line, "response");
    let done = json_get_bool(line, "done");
    match (model, created_at, response, done) {
        (Some(model), Some(created_at), Some(response), Some(done)) => Ok(
            GenerationResponse {
                model,
                created_at,
                response,
                done,
                total_duration: json_get_u64(line, "total_duration"),
                load_duration: json_get_u64(line, "load_duration"),
                prompt_eval_count: json_get_u64(line, "prompt_eval_count"),
                prompt_eval_duration: json_get_u64(line, "prompt_eval_duration"),
                eval_count: json_get_u64(line, "eval_count"),
                eval_duration: json_get_u64(line, "eval_duration"),
                thinking: json_get_str(line, "thinking"),
            },
        ),
        _ => Err(ErrorKind::DecodeError),
    }
}

/// The records carried by a sequence of lines, in order, and whether a
/// malformed line stops it: empty lines are skipped; the first malformed
/// line halts decoding, and nothing after it is produced.
pub open spec fn decoded_records(lines: Seq<Seq<u8>>) -> (Seq<RecordView>, bool)
    decreases lines.len(),
{
    if lines.len() == 0 {
        (Seq::<RecordView>::empty(), false)
    } else if lines[0].len() == 0 {
        decoded_records(lines.skip(1))
    } else if spec_decode(lines[0]) is Some {
        let rest = decoded_records(lines.skip(1));
        (seq![spec_decode(lines[0])->Some_0] + rest.0, rest.1)
    } else {
        (Seq::<RecordView>::empty(), true)
    }
}

/// Wraps a `LineFramer` and decodes each completed line, halting at the
/// first malformed one. Consuming is destructive: a new source needs a
/// new decoder.
pub struct RecordDecoder {
    framer: LineFramer,
    halted: bool,
}

impl RecordDecoder {
    /// The bytes after the last terminator, waiting for their line.
    pub closed spec fn pending(&self) -> Seq<u8> {
        self.framer.pending()
    }

    /// Whether the stream is over for this decoder: a malformed line was
    /// surfaced, or the source ended.
    pub closed spec fn spec_halted(&self) -> bool {
        self.halted
    }

    /// Whether the stream is over for this decoder; once it is, no
    /// further chunk may be fed to it.
    pub fn halted(&self) -> (halted: bool)
        ensures
            halted == self.spec_halted(),
    {
        self.halted
    }

    pub fn new() -> (decoder: RecordDecoder)
        ensures
            decoder.pending() == Seq::<u8>::empty(),
            !decoder.spec_halted(),
    {
        RecordDecoder { framer: LineFramer::new(), halted: false }
    }

    /// Feeds one chunk of bytes. Returns the records of every line these
    /// bytes complete, in order, and the decode error of the first
    /// malformed line, if one was met — the lines after it are dropped
    /// and the decoder halts.
    pub fn on_chunk(&mut self, chunk: &[u8]) -> (outcome: (
        Vec<GenerationResponse>,
        Option<ErrorKind>,
    ))
        requires
            !old(self).spec_halted(),
        ensures
            ({
                let framing = framed(old(self).pending(), chunk@);
                let decoded = decoded_records(framing.0);
                &&& record_views(outcome.0@) == decoded.0
                &&& (outcome.1 is Some <==> decoded.1)
                &&& (outcome.1 matches Some(kind) ==> kind == ErrorKind::DecodeError)
                &&& final(self).spec_halted() == decoded.1
                &&& final(self).pending() == framing.1
            }),
    {
        let lines = self.framer.push_chunk(chunk);
        let ghost all_lines = byte_views(lines@);
        let ghost decoded = decoded_records(all_lines);
        let mut records: Vec<GenerationResponse> = Vec::new();
        let mut j: usize = 0;
        proof {
            assert(all_lines.skip(0) =~= all_lines);
            assert(record_views(records@) + decoded.0 =~= decoded.0);
        }
        while j < lines.len()
            invariant
                j <= lines.len(),
                !self.halted,
                self.framer.pending() == framed(old(self).pending(), chunk@).1,
                all_lines == byte_views(lines@),
                all_lines == framed(old(self).pending(), chunk@).0,
                decoded == decoded_records(all_lines),
                decoded.0 == record_views(records@) + decoded_records(
                    all_lines.skip(j as int),
                ).0,
                decoded.1 == decoded_records(all_lines.skip(j as int)).1,
            decreases lines.len() - j,
        {
            proof {
                assert(all_lines.skip(j as int)[0] == all_lines[j as int]);
                assert(all_lines.skip(j as int).skip(1) =~= all_lines.skip(j as int + 1));
            }
            let line: &Vec<u8> = &lines[j];
            if line.len() > 0 {
                match decode_line(line.as_slice()) {
                    Ok(record) => {
                        let ghost seen = record_views(records@);
                        records.push(record);
                        proof {
                            assert(record_views(records@) =~= seen.push(record@));
                            assert(seen.push(record@) + decoded_records(
                                all_lines.skip(j as int + 1),
                            ).0 =~= seen + (seq![record@] + decoded_records(
                                all_lines.skip(j as int + 1),
                            ).0));
                        }
                    },
                    Err(_) => {
                        self.halted = true;
                        proof {
                            assert(decoded.0 =~= record_views(records@));
                        }
                        return (records, Some(ErrorKind::DecodeError));
                    },
                }
            }
            j = j + 1;
        }
        proof {
            assert(all_lines.skip(lines.len() as int) =~= Seq::<Seq<u8>>::empty());
            assert(decoded.0 =~= record_views(records@));
        }
        (records, None)
    }

    /// Ends the stream: the pending tail, if non-empty, is decoded once
    /// as the final, terminator-less line. The decoder halts either way.
    pub fn on_end(&mut self) -> (outcome: (Option<GenerationResponse>, Option<ErrorKind>))
        requires
            !old(self).spec_halted(),
        ensures
            final(self).spec_halted(),
            final(self).pending() == Seq::<u8>::empty(),
            old(self).pending().len() == 0 ==> outcome == (
                None::<GenerationResponse>,
                None::<ErrorKind>,
            ),
            old(self).pending().len() > 0 && spec_decode(old(self).pending()) is Some ==> (
                outcome.0 matches Some(record) && record@ == spec_decode(
                    old(self).pending(),
                )->Some_0) && outcome.1 is None,
            old(self).pending().len() > 0 && spec_decode(old(self).pending()) is None
                ==> outcome.0 is None && outcome.1 == Some(ErrorKind::DecodeError),
    {
        self.halted = true;
        match self.framer.finish() {
            None => (None, None),
            Some(line) => {
                match decode_line(line.as_slice()) {
                    Ok(record) => (Some(record), None),
                    Err(kind) => (None, Some(kind)),
                }
            },
        }
    }
}

} // verus!
