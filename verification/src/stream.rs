//! Drives one generation reply from raw byte chunks to session state.
//!
//! The surrounding task reads chunks from the transport and reports each
//! event here; every decision — framing, decoding, folding fragments
//! into the history, and what the request finally settles with — is made
//! in this module. A transport failure, a malformed line, and an end of
//! stream before a record marked done are the three failures; an
//! abandoned consumer stops the stream with no failure at all.

use vstd::prelude::*;
use crate::aggregator::{any_final, folded, fragments_of, ReplyAggregator};
use crate::decoder::{decoded_records, spec_decode, RecordDecoder};
use crate::error::ErrorKind;
use crate::framer::framed;
use crate::session::{message_views, Session};

verus! {

/// Consumes one response stream: frames chunks into lines, decodes the
/// lines into records, folds the fragments into the session's message
/// history, and decides the request's outcome.
pub struct ReplyStream {
    decoder: RecordDecoder,
    aggregator: ReplyAggregator,
    saw_final: bool,
}

impl ReplyStream {
    /// The bytes after the last terminator, waiting for their line.
    pub closed spec fn pending(&self) -> Seq<u8> {
        self.decoder.pending()
    }

    /// Whether this stream is over: settled, or abandoned.
    pub closed spec fn spec_halted(&self) -> bool {
        self.decoder.spec_halted()
    }

    /// Whether a first fragment has been folded into the history.
    pub closed spec fn spec_started(&self) -> bool {
        self.aggregator.spec_started()
    }

    /// Whether a record marked done has been seen.
    pub closed spec fn spec_saw_final(&self) -> bool {
        self.saw_final
    }

    /// Whether this stream is over; once it is, no further event may be
    /// fed to it.
    pub fn halted(&self) -> (halted: bool)
        ensures
            halted == self.spec_halted(),
    {
        self.decoder.halted()
    }

    pub fn new() -> (stream: ReplyStream)
        ensures
            stream.pending() == Seq::<u8>::empty(),
            !stream.spec_halted(),
            !stream.spec_started(),
            !stream.spec_saw_final(),
    {
        ReplyStream {
            decoder: RecordDecoder::new(),
            aggregator: ReplyAggregator::new(),
            saw_final: false,
        }
    }

    /// Consumes one chunk of response bytes: the records of every line
    /// the chunk completes are folded into the history in order. A
    /// malformed line settles the stream with a decode error; the
    /// records before it on this chunk are still folded in, and nothing
    /// after it is.
    pub fn on_chunk(&mut self, session: &mut Session, chunk: &[u8]) -> (failure: Option<
        ErrorKind,
    >)
        requires
            !old(self).spec_halted(),
            old(session).wf(),
            old(self).spec_started() ==> old(session).messages@.len() > 0,
        ensures
            ({
                let framing = framed(old(self).pending(), chunk@);
                let decoded = decoded_records(framing.0);
                &&& final(session).wf()
                &&& message_views(final(session).messages@) == folded(
                    message_views(old(session).messages@),
                    old(self).spec_started(),
                    fragments_of(decoded.0),
                )
                &&& (failure is Some <==> decoded.1)
                &&& (failure matches Some(kind) ==> kind == ErrorKind::DecodeError)
                &&& final(self).spec_halted() == decoded.1
                &&& final(self).pending() == framing.1
                &&& final(self).spec_saw_final() == (old(self).spec_saw_final() || any_final(
                    decoded.0,
                ))
                &&& final(self).spec_started() == (old(self).spec_started() || decoded.0.len()
                    > 0)
                &&& (final(self).spec_started() ==> final(session).messages@.len() > 0)
                &&& final(session).model_list == old(session).model_list
                &&& final(session).selected_model == old(session).selected_model
                &&& final(session).pending_input == old(session).pending_input
            }),
    {
        let (records, failure) = self.decoder.on_chunk(chunk);
        let batch_final = self.aggregator.fold_all(session, &records);
        if batch_final {
            self.saw_final = true;
        }
        failure
    }

    /// Consumes the end of the stream: a non-empty pending tail is
    /// decoded as the final line, then the outcome is decided — success
    /// exactly when a record marked done was seen, a premature
    /// termination otherwise, and a decode error if the tail itself is
    /// malformed.
    pub fn on_end(&mut self, session: &mut Session) -> (outcome: Result<(), ErrorKind>)
        requires
            !old(self).spec_halted(),
            old(session).wf(),
            old(self).spec_started() ==> old(session).messages@.len() > 0,
        ensures
            final(self).spec_halted(),
            final(session).wf(),
            ({
                let tail = old(self).pending();
                &&& tail.len() == 0 ==> final(session).messages == old(session).messages
                    && outcome == (if old(self).spec_saw_final() {
                        Ok::<(), ErrorKind>(())
                    } else {
                        Err::<(), ErrorKind>(ErrorKind::PrematureTermination)
                    })
                &&& tail.len() > 0 && spec_decode(tail) is Some ==> message_views(
                    final(session).messages@,
                ) == folded(
                    message_views(old(session).messages@),
                    old(self).spec_started(),
                    seq![spec_decode(tail)->Some_0.response],
                ) && outcome == (if old(self).spec_saw_final() || spec_decode(
                    tail,
                )->Some_0.done {
                    Ok::<(), ErrorKind>(())
                } else {
                    Err::<(), ErrorKind>(ErrorKind::PrematureTermination)
                })
                &&& tail.len() > 0 && spec_decode(tail) is None ==> final(session).messages
                    == old(session).messages && outcome == Err::<(), ErrorKind>(
                    ErrorKind::DecodeError,
                )
                &&& final(session).model_list == old(session).model_list
                &&& final(session).selected_model == old(session).selected_model
                &&& final(session).pending_input == old(session).pending_input
            }),
    {
        let (last, failure) = self.decoder.on_end();
        match last {
            Some(record) => {
                let ghost tail_fragment = record@.response;
                self.aggregator.fold_record(session, &record);
                if record.done {
                    self.saw_final = true;
                }
                proof {
                    assert(seq![tail_fragment].skip(1) =~= Seq::<Seq<char>>::empty());
                    reveal_with_fuel(folded, 2);
                }
                if self.saw_final {
                    Ok(())
                } else {
                    Err(ErrorKind::PrematureTermination)
                }
            },
            None => {
                match failure {
                    Some(kind) => Err(kind),
                    None => {
                        if self.saw_final {
                            Ok(())
                        } else {
                            Err(ErrorKind::PrematureTermination)
                        }
                    },
                }
            },
        }
    }

    /// Reports a transport failure: the stream settles with it at once;
    /// buffered bytes are discarded and nothing further is folded.
    pub fn on_transport_error(&mut self) -> (outcome: Result<(), ErrorKind>)
        requires
            !old(self).spec_halted(),
        ensures
            final(self).spec_halted(),
            outcome == Err::<(), ErrorKind>(ErrorKind::TransportError),
    {
        let _ = self.decoder.on_end();
        Err(ErrorKind::TransportError)
    }

    /// Stops consuming because the session is no longer reachable: not
    /// a failure — later records are simply never folded.
    pub fn abandon(&mut self)
        requires
            !old(self).spec_halted(),
        ensures
            final(self).spec_halted(),
    {
        let _ = self.decoder.on_end();
    }
}

} // verus!
