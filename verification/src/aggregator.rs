//! Folds a stream of partial-text fragments into one growing reply.
//!
//! The first record appends a new reply entry to the message history;
//! every later record extends the text of that last entry in place — no
//! second entry, and no separator of the aggregator's own: any spacing
//! is the backend's, embedded in the fragments.

use vstd::prelude::*;
use crate::record::{record_views, GenerationResponse, RecordView};
use crate::session::{message_views, Message, MessageView, Session};

verus! {

/// Extra capacity set aside when a reply entry is created, so that the
/// fragments that follow rarely force a reallocation; a policy, not a
/// promise.
const HEADROOM: usize = 1000;

/// Relies on String::try_reserve: room may be set aside for coming
/// appends, and the text itself never changes. A reservation that cannot
/// be made is skipped — growth then happens on append instead.
#[verifier::external_body]
fn reserve_headroom(text: &mut String, headroom: usize)
    ensures
        final(text)@ == old(text)@,
{
    let _ = text.try_reserve(headroom);
}

/// One fold step: the first fragment becomes a new reply entry; a later
/// fragment is appended, unseparated, to the text of the last entry.
pub open spec fn fold_step(messages: Seq<MessageView>, started: bool, fragment: Seq<char>) -> Seq<
    MessageView,
> {
    if !started {
        messages.push(MessageView { sender: "AI"@, text: fragment })
    } else {
        messages.update(
            messages.len() - 1,
            MessageView {
                sender: messages.last().sender,
                text: messages.last().text + fragment,
            },
        )
    }
}

/// The message history after a whole sequence of fragments is folded in,
/// in order.
pub open spec fn folded(
    messages: Seq<MessageView>,
    started: bool,
    fragments: Seq<Seq<char>>,
) -> Seq<MessageView>
    decreases fragments.len(),
{
    if fragments.len() == 0 {
        messages
    } else {
        folded(fold_step(messages, started, fragments[0]), true, fragments.skip(1))
    }
}

/// The fragment texts carried by a sequence of records.
pub open spec fn fragments_of(records: Seq<RecordView>) -> Seq<Seq<char>> {
    records.map_values(|record: RecordView| record.response)
}

/// Whether some record in `records` is marked done.
pub open spec fn any_final(records: Seq<RecordView>) -> bool {
    exists|i: int| 0 <= i < records.len() && records[i].done
}

/// Consumes decoded records and folds their fragments into the session's
/// message history.
pub struct ReplyAggregator {
    started: bool,
}

impl ReplyAggregator {
    /// Whether a first fragment has been folded in: from then on the
    /// last message entry is the growing reply.
    pub closed spec fn spec_started(&self) -> bool {
        self.started
    }

    pub fn new() -> (aggregator: ReplyAggregator)
        ensures
            !aggregator.spec_started(),
    {
        ReplyAggregator { started: false }
    }

    /// Folds one record into the history: a new entry from the first
    /// fragment, in-place extension of the last entry from every later
    /// one.
    pub fn fold_record(&mut self, session: &mut Session, record: &GenerationResponse)
        requires
            old(session).wf(),
            old(self).spec_started() ==> old(session).messages@.len() > 0,
        ensures
            final(session).wf(),
            final(self).spec_started(),
            message_views(final(session).messages@) == fold_step(
                message_views(old(session).messages@),
                old(self).spec_started(),
                record@.response,
            ),
            final(session).messages@.len() > 0,
            final(session).model_list == old(session).model_list,
            final(session).selected_model == old(session).selected_model,
            final(session).pending_input == old(session).pending_input,
    {
        let ghost before = message_views(session.messages@);
        if !self.started {
            self.started = true;
            let mut text = record.response.clone();
            reserve_headroom(&mut text, HEADROOM);
            let entry = Message { sender: String::from_str("AI"), text };
            session.messages.push(entry);
            proof {
                assert(message_views(session.messages@) =~= before.push(
                    (MessageView { sender: "AI"@, text: record@.response }),
                ));
            }
        } else {
            let mut last = session.messages.pop().unwrap();
            last.text.append(record.response.as_str());
            session.messages.push(last);
            proof {
                assert(message_views(session.messages@) =~= before.update(
                    before.len() - 1,
                    (MessageView {
                        sender: before.last().sender,
                        text: before.last().text + record@.response,
                    }),
                ));
            }
        }
    }

    /// Folds a batch of records in order, and reports whether any of
    /// them was marked done.
    pub fn fold_all(
        &mut self,
        session: &mut Session,
        records: &Vec<GenerationResponse>,
    ) -> (saw_final: bool)
        requires
            old(session).wf(),
            old(self).spec_started() ==> old(session).messages@.len() > 0,
        ensures
            final(session).wf(),
            message_views(final(session).messages@) == folded(
                message_views(old(session).messages@),
                old(self).spec_started(),
                fragments_of(record_views(records@)),
            ),
            final(self).spec_started() == (old(self).spec_started() || records@.len() > 0),
            final(self).spec_started() ==> final(session).messages@.len() > 0,
            saw_final == any_final(record_views(records@)),
            final(session).model_list == old(session).model_list,
            final(session).selected_model == old(session).selected_model,
            final(session).pending_input == old(session).pending_input,
    {
        let ghost all = fragments_of(record_views(records@));
        let ghost target = folded(
            message_views(old(session).messages@),
            old(self).spec_started(),
            all,
        );
        let mut saw_final = false;
        let mut k: usize = 0;
        proof {
            assert(all.skip(0) =~= all);
        }
        while k < records.len()
            invariant
                k <= records.len(),
                session.wf(),
                all == fragments_of(record_views(records@)),
                target == folded(
                    message_views(old(session).messages@),
                    old(self).spec_started(),
                    all,
                ),
                folded(message_views(session.messages@), self.spec_started(), all.skip(k as int))
                    == target,
                self.spec_started() == (old(self).spec_started() || k > 0),
                self.spec_started() ==> session.messages@.len() > 0,
                saw_final == any_final(record_views(records@).take(k as int)),
                session.model_list == old(session).model_list,
                session.selected_model == old(session).selected_model,
                session.pending_input == old(session).pending_input,
            decreases records.len() - k,
        {
            let ghost views = record_views(records@);
            proof {
                assert(all.skip(k as int)[0] == all[k as int]);
                assert(all.skip(k as int).skip(1) =~= all.skip(k as int + 1));
                assert(views.take(k as int + 1) =~= views.take(k as int).push(views[k as int]));
            }
            let record = &records[k];
            self.fold_record(session, record);
            if record.done {
                saw_final = true;
            }
            proof {
                if views[k as int].done {
                    assert(views.take(k as int + 1)[k as int].done);
                    assert(any_final(views.take(k as int + 1)));
                } else if any_final(views.take(k as int + 1)) {
                    let i = choose|i: int|
                        0 <= i < views.take(k as int + 1).len() && #[trigger] views.take(
                            k as int + 1,
                        )[i].done;
                    assert(views.take(k as int)[i].done);
                    assert(any_final(views.take(k as int)));
                }
            }
            k = k + 1;
        }
        proof {
            assert(all.skip(records@.len() as int) =~= Seq::<Seq<char>>::empty());
            assert(record_views(records@).take(records@.len() as int) =~= record_views(
                records@,
            ));
        }
        saw_final
    }
}

} // verus!
