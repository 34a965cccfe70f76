//! In-memory model of the relational store.
//!
//! The store owns two append-only tables: raw messages and daily summaries.
//! Fetching a day's messages distinguishes "no rows" from data, and inserting
//! a summary appends one row — re-running a day appends another row rather
//! than upserting. The production store is a relational database driven by
//! the unverified shell; this model is what the pipeline's contracts and the
//! scenario tests run against.

use vstd::prelude::*;
use crate::date::Date;
use crate::message::Message;
use crate::message::MessageView;
use crate::message::msg_views;

verus! {

/// One persisted digest row: the summary text and the calendar day it covers.
#[derive(Debug)]
pub struct Summary {
    pub text: String,
    pub date: Date,
}

/// Mathematical image of a [`Summary`].
pub struct SummaryView {
    pub text: Seq<char>,
    pub date: Date,
}

impl View for Summary {
    type V = SummaryView;

    open spec fn view(&self) -> SummaryView {
        SummaryView { text: self.text@, date: self.date }
    }
}

impl Clone for Summary {
    fn clone(&self) -> (r: Self)
        ensures
            r == *self,
    {
        Summary { text: self.text.clone(), date: self.date }
    }
}

/// The views of a sequence of summaries, element by element.
pub open spec fn sum_views(s: Seq<Summary>) -> Seq<SummaryView> {
    s.map(|i: int, r: Summary| r@)
}

/// Abstract store contents: both tables in insertion order.
pub struct StoreView {
    pub messages: Seq<MessageView>,
    pub summaries: Seq<SummaryView>,
}

/// The messages whose derived calendar day equals `d`, in insertion order.
pub open spec fn msgs_on(ms: Seq<MessageView>, d: Date) -> Seq<MessageView>
    decreases ms.len(),
{
    if ms.len() == 0 {
        Seq::empty()
    } else if ms.last().date == d {
        msgs_on(ms.drop_last(), d).push(ms.last())
    } else {
        msgs_on(ms.drop_last(), d)
    }
}

/// The summary rows whose `date` equals `d`, in insertion order.
pub open spec fn sums_on(ss: Seq<SummaryView>, d: Date) -> Seq<SummaryView>
    decreases ss.len(),
{
    if ss.len() == 0 {
        Seq::empty()
    } else if ss.last().date == d {
        sums_on(ss.drop_last(), d).push(ss.last())
    } else {
        sums_on(ss.drop_last(), d)
    }
}

/// Appending one message changes a day's selection only if the message
/// belongs to that day, and then by exactly that message.
pub proof fn lemma_msgs_on_push(ms: Seq<MessageView>, d: Date, m: MessageView)
    ensures
        m.date == d ==> msgs_on(ms.push(m), d) == msgs_on(ms, d).push(m),
        m.date != d ==> msgs_on(ms.push(m), d) == msgs_on(ms, d),
{
    assert(ms.push(m).drop_last() =~= ms);
    assert(ms.push(m).last() == m);
}

/// Appending one summary row changes a day's selection only if the row is for
/// that day, and then by exactly that row.
pub proof fn lemma_sums_on_push(ss: Seq<SummaryView>, d: Date, s: SummaryView)
    ensures
        s.date == d ==> sums_on(ss.push(s), d) == sums_on(ss, d).push(s),
        s.date != d ==> sums_on(ss.push(s), d) == sums_on(ss, d),
{
    assert(ss.push(s).drop_last() =~= ss);
    assert(ss.push(s).last() == s);
}

/// The message and summary tables, append-only.
pub struct MessageStore {
    messages: Vec<Message>,
    summaries: Vec<Summary>,
}

impl View for MessageStore {
    type V = StoreView;

    closed spec fn view(&self) -> StoreView {
        StoreView { messages: msg_views(self.messages@), summaries: sum_views(self.summaries@) }
    }
}

impl MessageStore {
    /// A fresh store with both tables empty (the in-memory counterpart of
    /// creating the schema).
    pub fn new() -> (s: Self)
        ensures
            s@.messages.len() == 0,
            s@.summaries.len() == 0,
    {
        MessageStore { messages: Vec::new(), summaries: Vec::new() }
    }

    /// Appends one raw message: the ingestion edge, used to populate a store.
    pub fn insert_message(&mut self, m: Message)
        ensures
            final(self)@.messages == old(self)@.messages.push(m@),
            final(self)@.summaries == old(self)@.summaries,
    {
        let ghost before = self.messages@;
        self.messages.push(m);
        proof {
            assert(msg_views(self.messages@) =~= msg_views(before).push(self.messages@.last()@));
        }
    }

    /// All messages of calendar day `date`, or `None` when that day has no
    /// rows — so a quiet day is distinguishable from data.
    pub fn fetch_messages_for_date(&self, date: Date) -> (r: Option<Vec<Message>>)
        ensures
            r is None <==> msgs_on(self@.messages, date).len() == 0,
            r matches Some(v) ==> msg_views(v@) == msgs_on(self@.messages, date) && v@.len() > 0,
    {
        let ghost all = self@.messages;
        let mut out: Vec<Message> = Vec::new();
        let mut i: usize = 0;
        proof {
            assert(all.subrange(0, 0) =~= Seq::<MessageView>::empty());
            assert(msg_views(out@) =~= Seq::<MessageView>::empty());
        }
        while i < self.messages.len()
            invariant
                0 <= i <= self.messages.len(),
                all == self@.messages,
                all.len() == self.messages@.len(),
                msg_views(out@) == msgs_on(all.subrange(0, i as int), date),
            decreases self.messages.len() - i,
        {
            let ghost prefix = all.subrange(0, i as int);
            let m = &self.messages[i];
            proof {
                assert(all[i as int] == self.messages@[i as int]@);
                assert(all.subrange(0, i as int + 1) =~= prefix.push(all[i as int]));
                lemma_msgs_on_push(prefix, date, all[i as int]);
            }
            if m.date == date {
                let ghost out_before = out@;
                out.push(m.clone());
                proof {
                    assert(msg_views(out@) =~= msg_views(out_before).push(all[i as int]));
                }
            }
            i = i + 1;
        }
        proof {
            assert(all.subrange(0, all.len() as int) =~= all);
            assert(msg_views(out@).len() == out@.len());
        }
        if out.len() == 0 {
            None
        } else {
            Some(out)
        }
    }

    /// Appends one summary row for `date`. Append-only: an existing row for
    /// the same day is left in place and a duplicate is added.
    pub fn insert_summary(&mut self, text: String, date: Date)
        ensures
            final(self)@.summaries == old(self)@.summaries.push((SummaryView { text: text@, date })),
            final(self)@.messages == old(self)@.messages,
    {
        let ghost before = self.summaries@;
        self.summaries.push(Summary { text, date });
        proof {
            assert(sum_views(self.summaries@) =~= sum_views(before).push(self.summaries@.last()@));
        }
    }

    /// All summary rows recorded for `date`, in insertion order.
    pub fn summaries_for_date(&self, date: Date) -> (r: Vec<Summary>)
        ensures
            sum_views(r@) == sums_on(self@.summaries, date),
    {
        let ghost all = self@.summaries;
        let mut out: Vec<Summary> = Vec::new();
        let mut i: usize = 0;
        proof {
            assert(all.subrange(0, 0) =~= Seq::<SummaryView>::empty());
            assert(sum_views(out@) =~= Seq::<SummaryView>::empty());
        }
        while i < self.summaries.len()
            invariant
                0 <= i <= self.summaries.len(),
                all == self@.summaries,
                all.len() == self.summaries@.len(),
                sum_views(out@) == sums_on(all.subrange(0, i as int), date),
            decreases self.summaries.len() - i,
        {
            let ghost prefix = all.subrange(0, i as int);
            let s = &self.summaries[i];
            proof {
                assert(all[i as int] == self.summaries@[i as int]@);
                assert(all.subrange(0, i as int + 1) =~= prefix.push(all[i as int]));
                lemma_sums_on_push(prefix, date, all[i as int]);
            }
            if s.date == date {
                let ghost out_before = out@;
                out.push(s.clone());
                proof {
                    assert(sum_views(out@) =~= sum_views(out_before).push(all[i as int]));
                }
            }
            i = i + 1;
        }
        proof {
            assert(all.subrange(0, all.len() as int) =~= all);
        }
        out
    }

    /// How many summary rows exist for `date`.
    pub fn count_summaries_for_date(&self, date: Date) -> (n: usize)
        ensures
            n == sums_on(self@.summaries, date).len(),
    {
        let rows = self.summaries_for_date(date);
        proof {
            assert(sum_views(rows@).len() == rows@.len());
        }
        rows.len()
    }
}

} // verus!
