//! Canonical text form of a day's message batch.
//!
//! Each stored payload is already JSON text, so the batch is serialized as a
//! JSON array: the payloads joined by commas between square brackets. The
//! ordering is the store's insertion order — stable, but not semantically
//! significant. This text is exactly what the summarizer receives, and every
//! payload of the batch appears in it verbatim (see
//! [`lemma_batch_text_complete`]).

use vstd::prelude::*;
use crate::message::Message;
use crate::message::MessageView;
use crate::message::msg_views;

verus! {

/// The payloads of `ms` joined by `,`.
pub open spec fn payload_list(ms: Seq<MessageView>) -> Seq<char>
    decreases ms.len(),
{
    if ms.len() == 0 {
        Seq::empty()
    } else if ms.len() == 1 {
        ms[0].data
    } else {
        payload_list(ms.drop_last()) + seq![','] + ms.last().data
    }
}

/// The canonical serialization of a batch: a JSON array of the payloads.
pub open spec fn batch_text(ms: Seq<MessageView>) -> Seq<char> {
    seq!['['] + payload_list(ms) + seq![']']
}

/// `needle` occurs contiguously somewhere in `hay`.
pub open spec fn has_substring(hay: Seq<char>, needle: Seq<char>) -> bool {
    exists|j: int|
        0 <= j && j + needle.len() <= hay.len() && #[trigger] hay.subrange(
            j,
            j + needle.len() as int,
        ) == needle
}

/// Exhibiting a position where `needle` occurs establishes the occurrence.
pub proof fn lemma_substring_at(hay: Seq<char>, needle: Seq<char>, j: int)
    requires
        0 <= j,
        j + needle.len() <= hay.len(),
        hay.subrange(j, j + needle.len() as int) == needle,
    ensures
        has_substring(hay, needle),
{
}

/// A substring of `a` is a substring of `a + b`.
pub proof fn lemma_substring_extend_right(a: Seq<char>, b: Seq<char>, n: Seq<char>)
    requires
        has_substring(a, n),
    ensures
        has_substring(a + b, n),
{
    let j = choose|j: int|
        0 <= j && j + n.len() <= a.len() && #[trigger] a.subrange(j, j + n.len() as int) == n;
    assert((a + b).subrange(j, j + n.len() as int) =~= a.subrange(j, j + n.len() as int));
}

/// A substring of `b` is a substring of `a + b`.
pub proof fn lemma_substring_extend_left(a: Seq<char>, b: Seq<char>, n: Seq<char>)
    requires
        has_substring(b, n),
    ensures
        has_substring(a + b, n),
{
    let j = choose|j: int|
        0 <= j && j + n.len() <= b.len() && #[trigger] b.subrange(j, j + n.len() as int) == n;
    assert((a + b).subrange(a.len() + j, a.len() + j + n.len() as int) =~= b.subrange(
        j,
        j + n.len() as int,
    ));
}

/// Every payload of the batch occurs verbatim in the joined payload list.
pub proof fn lemma_payload_list_has(ms: Seq<MessageView>, i: int)
    requires
        0 <= i < ms.len(),
    ensures
        has_substring(payload_list(ms), ms[i].data),
    decreases ms.len(),
{
    if ms.len() == 1 {
        assert(ms[i] == ms[0]);
        assert(payload_list(ms).subrange(0, ms[i].data.len() as int) =~= ms[i].data);
        lemma_substring_at(payload_list(ms), ms[i].data, 0);
    } else if i == ms.len() - 1 {
        let p = payload_list(ms.drop_last()) + seq![','];
        let d = ms[i].data;
        assert(ms[i] == ms.last());
        assert(payload_list(ms) == p + d);
        assert(payload_list(ms).subrange(p.len() as int, p.len() + d.len() as int) =~= d);
        lemma_substring_at(payload_list(ms), d, p.len() as int);
    } else {
        lemma_payload_list_has(ms.drop_last(), i);
        assert(ms.drop_last()[i] == ms[i]);
        lemma_substring_extend_right(payload_list(ms.drop_last()), seq![','], ms[i].data);
        lemma_substring_extend_right(
            payload_list(ms.drop_last()) + seq![','],
            ms.last().data,
            ms[i].data,
        );
        assert(payload_list(ms) == (payload_list(ms.drop_last()) + seq![',']) + ms.last().data);
    }
}

/// Every payload of the batch occurs verbatim in the serialized batch.
pub proof fn lemma_batch_text_has(ms: Seq<MessageView>, i: int)
    requires
        0 <= i < ms.len(),
    ensures
        has_substring(batch_text(ms), ms[i].data),
{
    lemma_payload_list_has(ms, i);
    lemma_substring_extend_left(seq!['['], payload_list(ms), ms[i].data);
    lemma_substring_extend_right(seq!['['] + payload_list(ms), seq![']'], ms[i].data);
    assert(batch_text(ms) == (seq!['['] + payload_list(ms)) + seq![']']);
}

/// Law: the text handed to the summarizer contains every message of the
/// batch — no stored message of the day is dropped by serialization.
pub proof fn lemma_batch_text_complete(ms: Seq<MessageView>)
    ensures
        forall|i: int|
            0 <= i < ms.len() ==> has_substring(batch_text(ms), #[trigger] ms[i].data),
{
    assert forall|i: int|
        0 <= i < ms.len() implies has_substring(batch_text(ms), #[trigger] ms[i].data) by {
        lemma_batch_text_has(ms, i);
    }
}

/// Serializes a batch into its canonical text form.
pub fn serialize_batch(batch: &Vec<Message>) -> (r: String)
    ensures
        r@ == batch_text(msg_views(batch@)),
{
    let ghost ms = msg_views(batch@);
    let mut out = String::from_str("[");
    proof {
        reveal_strlit("[");
        assert(ms.subrange(0, 0) =~= Seq::<MessageView>::empty());
        assert(out@ =~= seq!['['] + payload_list(ms.subrange(0, 0)));
    }
    let mut i: usize = 0;
    while i < batch.len()
        invariant
            0 <= i <= batch.len(),
            ms == msg_views(batch@),
            ms.len() == batch@.len(),
            out@ == seq!['['] + payload_list(ms.subrange(0, i as int)),
        decreases batch.len() - i,
    {
        let ghost prefix = ms.subrange(0, i as int);
        proof {
            assert(ms[i as int] == batch@[i as int]@);
            assert(ms.subrange(0, i as int + 1) =~= prefix.push(ms[i as int]));
        }
        if i > 0 {
            out.append(",");
            proof {
                reveal_strlit(",");
                assert(","@ =~= seq![',']);
            }
        }
        out.append(batch[i].data.as_str());
        proof {
            let next = prefix.push(ms[i as int]);
            if i == 0 {
                assert(payload_list(next) == next[0].data);
                assert(out@ =~= seq!['['] + payload_list(next));
            } else {
                assert(next.drop_last() =~= prefix);
                assert(payload_list(next) == payload_list(prefix) + seq![','] + ms[i as int].data);
                assert(out@ =~= seq!['['] + payload_list(next));
            }
        }
        i = i + 1;
    }
    out.append("]");
    proof {
        reveal_strlit("]");
        assert("]"@ =~= seq![']']);
        assert(ms.subrange(0, ms.len() as int) =~= ms);
        assert(out@ =~= batch_text(ms));
    }
    out
}

} // verus!
