//! The order of the table decides, and only the deciding bytes count.

use crate::bytes::ws_end;
use crate::signature::Signature;
use crate::table::signature_table;
use crate::{
    content_type_of, fallback_content_type, first_match, first_match_from, prefix_of, SNIFF_LEN,
};
use vstd::prelude::*;

verus! {

/// Entry `i` of `table` is the first that matches `data`: it matches, and
/// no entry before it does.
pub open spec fn is_first_match(
    table: Seq<Signature>,
    i: int,
    data: Seq<u8>,
    first_non_ws: int,
) -> bool {
    &&& 0 <= i < table.len()
    &&& table[i].matches(data, first_non_ws)
    &&& forall|k: int| 0 <= k < i ==> !(#[trigger] table[k]).matches(data, first_non_ws)
}

/// No entry of `table` matches `data`.
pub open spec fn no_match(table: Seq<Signature>, data: Seq<u8>, first_non_ws: int) -> bool {
    forall|k: int| 0 <= k < table.len() ==> !(#[trigger] table[k]).matches(data, first_non_ws)
}

/// A scan that starts at `from`, with no match before `from`, ends at the
/// first entry that matches, or with nothing where no entry matches.
proof fn lemma_first_match_from(
    table: Seq<Signature>,
    from: int,
    data: Seq<u8>,
    first_non_ws: int,
)
    requires
        0 <= from <= table.len(),
        forall|k: int| 0 <= k < from ==> !(#[trigger] table[k]).matches(data, first_non_ws),
    ensures
        match first_match_from(table, from, data, first_non_ws) {
            Some(ct) => exists|i: int|
                #[trigger] is_first_match(table, i, data, first_non_ws)
                    && ct == table[i].content_type(),
            None => no_match(table, data, first_non_ws),
        },
    decreases table.len() - from,
{
    if from < table.len() {
        if table[from].matches(data, first_non_ws) {
            assert(is_first_match(table, from, data, first_non_ws));
        } else {
            lemma_first_match_from(table, from + 1, data, first_non_ws);
        }
    }
}

/// The dispatcher answers with the content type of the first entry that
/// matches, and with nothing exactly where no entry matches.
pub proof fn lemma_first_match(table: Seq<Signature>, data: Seq<u8>, first_non_ws: int)
    ensures
        match first_match(table, data, first_non_ws) {
            Some(ct) => exists|i: int|
                #[trigger] is_first_match(table, i, data, first_non_ws)
                    && ct == table[i].content_type(),
            None => no_match(table, data, first_non_ws),
        },
{
    lemma_first_match_from(table, 0, data, first_non_ws);
}

/// Where the table gives an answer, it is the content type of the entry
/// returned: the first that matches.
pub proof fn lemma_deciding_entry(table: Seq<Signature>, data: Seq<u8>, first_non_ws: int) -> (i:
    int)
    requires
        first_match(table, data, first_non_ws) is Some,
    ensures
        is_first_match(table, i, data, first_non_ws),
        first_match(table, data, first_non_ws) == Some(table[i].content_type()),
{
    lemma_first_match(table, data, first_non_ws);
    choose|i: int|
        #[trigger] is_first_match(table, i, data, first_non_ws) && first_match(
            table,
            data,
            first_non_ws,
        ) == Some(table[i].content_type())
}

/// Where entry `i` is the first that matches, its content type is the
/// answer.
pub proof fn lemma_first_match_decides(
    table: Seq<Signature>,
    i: int,
    data: Seq<u8>,
    first_non_ws: int,
)
    requires
        is_first_match(table, i, data, first_non_ws),
    ensures
        first_match(table, data, first_non_ws) == Some(table[i].content_type()),
{
    lemma_first_match(table, data, first_non_ws);
    assert(!no_match(table, data, first_non_ws));
    let j = lemma_deciding_entry(table, data, first_non_ws);
    assert(j == i) by {
        if j < i {
            assert(!table[j].matches(data, first_non_ws));
        }
        if i < j {
            assert(!table[i].matches(data, first_non_ws));
        }
    }
}

/// Where no entry matches, the table gives no answer.
pub proof fn lemma_no_match(table: Seq<Signature>, data: Seq<u8>, first_non_ws: int)
    requires
        no_match(table, data, first_non_ws),
    ensures
        first_match(table, data, first_non_ws) is None,
{
    lemma_first_match(table, data, first_non_ws);
}

/// Where two entries match, the later one does not decide: the answer is
/// the content type of the first entry that matches, which stands no later
/// than the earlier of the two.
pub proof fn lemma_earlier_entry_wins(
    table: Seq<Signature>,
    i: int,
    j: int,
    data: Seq<u8>,
    first_non_ws: int,
)
    requires
        0 <= i < j < table.len(),
        table[i].matches(data, first_non_ws),
        table[j].matches(data, first_non_ws),
    ensures
        !is_first_match(table, j, data, first_non_ws),
        exists|k: int|
            0 <= k <= i && #[trigger] is_first_match(table, k, data, first_non_ws) && first_match(
                table,
                data,
                first_non_ws,
            ) == Some(table[k].content_type()),
{
    lemma_first_match(table, data, first_non_ws);
    assert(!no_match(table, data, first_non_ws));
    let k = lemma_deciding_entry(table, data, first_non_ws);
    if i < k {
        assert(!table[i].matches(data, first_non_ws));
    }
}

/// The content type of a buffer is that of the first entry of the table
/// that matches its deciding bytes.
pub proof fn lemma_content_type_of_first_match(data: Seq<u8>, i: int)
    requires
        is_first_match(signature_table(), i, prefix_of(data), ws_end(prefix_of(data))),
    ensures
        content_type_of(data) == signature_table()[i].content_type(),
{
    lemma_first_match_decides(signature_table(), i, prefix_of(data), ws_end(prefix_of(data)));
}

/// The content type of a buffer is the fallback where no entry of the
/// table matches its deciding bytes.
pub proof fn lemma_content_type_of_no_match(data: Seq<u8>)
    requires
        no_match(signature_table(), prefix_of(data), ws_end(prefix_of(data))),
    ensures
        content_type_of(data) == fallback_content_type(),
{
    lemma_no_match(signature_table(), prefix_of(data), ws_end(prefix_of(data)));
}

/// Only the first `SNIFF_LEN` bytes decide: two buffers that are at least
/// that long and agree on those bytes have one content type.
pub proof fn lemma_only_prefix_decides(a: Seq<u8>, b: Seq<u8>)
    requires
        a.len() >= SNIFF_LEN,
        b.len() >= SNIFF_LEN,
        a.take(SNIFF_LEN as int) == b.take(SNIFF_LEN as int),
    ensures
        content_type_of(a) == content_type_of(b),
{
    assert(prefix_of(a) =~= a.take(SNIFF_LEN as int));
    assert(prefix_of(b) =~= b.take(SNIFF_LEN as int));
}

/// Bytes appended after the first `SNIFF_LEN` never change the content
/// type.
pub proof fn lemma_truncation_invariance(data: Seq<u8>, tail: Seq<u8>)
    requires
        data.len() >= SNIFF_LEN,
    ensures
        content_type_of(data + tail) == content_type_of(data),
{
    assert((data + tail).take(SNIFF_LEN as int) =~= data.take(SNIFF_LEN as int));
    lemma_only_prefix_decides(data + tail, data);
}

} // verus!
