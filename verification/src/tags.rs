//! Lists kept as one text: the tags, keywords and picture addresses of a
//! product, with commas between them.
//!
//! Read back, such a text gives its items without the white space around
//! them and without the empty ones, so that `"a, b,,c "` holds `a`, `b` and
//! `c`.

use vstd::prelude::*;
use vstd::string::*;
use crate::text::{char_is_whitespace, is_white_space};

verus! {

/// `text` without the white space at its start.
pub open spec fn trim_start(text: Seq<char>) -> Seq<char>
    decreases text.len(),
{
    if text.len() > 0 && is_white_space(text.first()) {
        trim_start(text.drop_first())
    } else {
        text
    }
}

/// `text` without the white space at its end.
pub open spec fn trim_end(text: Seq<char>) -> Seq<char>
    decreases text.len(),
{
    if text.len() > 0 && is_white_space(text.last()) {
        trim_end(text.drop_last())
    } else {
        text
    }
}

/// `text` without the white space at its start and at its end.
pub open spec fn trimmed(text: Seq<char>) -> Seq<char> {
    trim_end(trim_start(text))
}

/// The pieces of `text` between its commas, from first to last. A text with
/// `n` commas has `n + 1` pieces, some of them empty perhaps.
pub open spec fn pieces(text: Seq<char>) -> Seq<Seq<char>>
    decreases text.len(),
{
    if text.len() == 0 {
        seq![Seq::empty()]
    } else {
        let before = pieces(text.drop_last());
        if text.last() == ',' {
            before.push(Seq::empty())
        } else {
            before.drop_last().push(before.last().push(text.last()))
        }
    }
}

/// The items among `parts`: each part trimmed, those dropped of which nothing
/// is left.
pub open spec fn items_among(parts: Seq<Seq<char>>) -> Seq<Seq<char>>
    decreases parts.len(),
{
    if parts.len() == 0 {
        Seq::empty()
    } else {
        let before = items_among(parts.drop_last());
        let item = trimmed(parts.last());
        if item.len() == 0 {
            before
        } else {
            before.push(item)
        }
    }
}

/// The items of the list that `text` holds.
pub open spec fn list_of(text: Seq<char>) -> Seq<Seq<char>> {
    items_among(pieces(text))
}

/// The items `items` as one text, with a comma between one and the next.
pub open spec fn joined(items: Seq<Seq<char>>) -> Seq<char>
    decreases items.len(),
{
    if items.len() == 0 {
        Seq::empty()
    } else if items.len() == 1 {
        items[0]
    } else {
        joined(items.drop_last()) + seq![','] + items.last()
    }
}

/// White space up to `a` and none at `a` means that trimming the start
/// leaves what begins at `a`.
pub proof fn lemma_trim_start_at(text: Seq<char>, a: int)
    requires
        0 <= a <= text.len(),
        forall|j: int| 0 <= j < a ==> is_white_space(#[trigger] text[j]),
        a < text.len() ==> !is_white_space(text[a]),
    ensures
        trim_start(text) == text.subrange(a, text.len() as int),
    decreases a,
{
    if a > 0 {
        lemma_trim_start_at(text.drop_first(), a - 1);
    }
}

/// White space from `b` on and none before `b` means that trimming the end
/// leaves what ends before `b`.
pub proof fn lemma_trim_end_at(text: Seq<char>, b: int)
    requires
        0 <= b <= text.len(),
        forall|j: int| b <= j < text.len() ==> is_white_space(#[trigger] text[j]),
        b > 0 ==> !is_white_space(text[b - 1]),
    ensures
        trim_end(text) == text.subrange(0, b),
    decreases text.len() - b,
{
    if b < text.len() {
        lemma_trim_end_at(text.drop_last(), b);
    }
}

/// Whether a text can stand as an item of a list: it is not empty, it holds
/// no comma, and it neither begins nor ends with white space.
pub open spec fn is_item(item: Seq<char>) -> bool {
    &&& item.len() > 0
    &&& !is_white_space(item.first())
    &&& !is_white_space(item.last())
    &&& forall|i: int| 0 <= i < item.len() ==> #[trigger] item[i] != ','
}

/// Text without a comma, added to the end of a text, adds to its last piece.
pub proof fn lemma_pieces_append(text: Seq<char>, tail: Seq<char>)
    requires
        forall|i: int| 0 <= i < tail.len() ==> #[trigger] tail[i] != ',',
    ensures
        pieces(text).len() > 0,
        pieces(text + tail) == pieces(text).drop_last().push(pieces(text).last() + tail),
    decreases tail.len(),
{
    lemma_pieces_not_empty(text);
    if tail.len() == 0 {
        assert(text + tail == text);
        assert(pieces(text).last() + tail == pieces(text).last());
        assert(pieces(text).drop_last().push(pieces(text).last()) == pieces(text));
    } else {
        let shorter = tail.drop_last();
        lemma_pieces_append(text, shorter);
        assert((text + tail).drop_last() == text + shorter);
        assert((text + tail).last() == tail.last());
        assert(pieces(text).last() + shorter + seq![tail.last()] == pieces(text).last() + tail);
        let before = pieces(text + shorter);
        assert(before.drop_last() == pieces(text).drop_last());
        assert(before.last().push(tail.last()) == pieces(text).last() + tail);
    }
}

/// Every text has at least one piece.
pub proof fn lemma_pieces_not_empty(text: Seq<char>)
    ensures
        pieces(text).len() > 0,
    decreases text.len(),
{
    if text.len() > 0 {
        lemma_pieces_not_empty(text.drop_last());
    }
}

/// The pieces of a joined list are its items, where no item holds a comma.
pub proof fn lemma_pieces_of_joined(items: Seq<Seq<char>>)
    requires
        items.len() > 0,
        forall|k: int, i: int|
            0 <= k < items.len() && 0 <= i < items[k].len() ==> #[trigger] items[k][i] != ',',
    ensures
        pieces(joined(items)) == items,
    decreases items.len(),
{
    let last = items.last();
    assert forall|i: int| 0 <= i < last.len() implies #[trigger] last[i] != ',' by {
        assert(items[items.len() - 1][i] != ',');
    }
    if items.len() == 1 {
        lemma_pieces_append(Seq::empty(), last);
        assert(Seq::<char>::empty() + last == last);
        assert(pieces(Seq::<char>::empty()) == seq![Seq::<char>::empty()]);
        assert(seq![Seq::<char>::empty()].drop_last().push(Seq::<char>::empty() + last) == items);
    } else {
        let init = items.drop_last();
        assert forall|k: int, i: int| 0 <= k < init.len() && 0 <= i < init[k].len() implies
            #[trigger] init[k][i] != ',' by {
            assert(items[k][i] != ',');
        }
        lemma_pieces_of_joined(init);
        let open = joined(init) + seq![','];
        assert(open.drop_last() == joined(init));
        assert(pieces(open) == init.push(Seq::empty()));
        lemma_pieces_append(open, last);
        assert(init.push(Seq::<char>::empty()).drop_last() == init);
        assert(init.push(Seq::<char>::empty()).last() + last == last);
        assert(init.push(last) == items);
    }
}

/// Items come through the trimming as they are.
pub proof fn lemma_items_kept(items: Seq<Seq<char>>)
    requires
        forall|k: int| 0 <= k < items.len() ==> is_item(#[trigger] items[k]),
    ensures
        items_among(items) == items,
    decreases items.len(),
{
    if items.len() > 0 {
        let init = items.drop_last();
        assert forall|k: int| 0 <= k < init.len() implies is_item(#[trigger] init[k]) by {
            assert(init[k] == items[k]);
        }
        lemma_items_kept(init);
        assert(is_item(items[items.len() - 1]));
        assert(trimmed(items.last()) == items.last());
        assert(init.push(items.last()) == items);
    }
}

/// A list that is written and read back is the list that was written, where
/// its items can stand as items: see [`is_item`].
pub proof fn law_joined_list_reads_back(items: Seq<Seq<char>>)
    requires
        forall|k: int| 0 <= k < items.len() ==> is_item(#[trigger] items[k]),
    ensures
        list_of(joined(items)) == items,
{
    if items.len() == 0 {
        assert(pieces(joined(items)) == seq![Seq::<char>::empty()]);
        assert(seq![Seq::<char>::empty()].drop_last() == Seq::<Seq<char>>::empty());
        assert(trimmed(Seq::<char>::empty()).len() == 0);
        assert(items_among(seq![Seq::<char>::empty()]) == Seq::<Seq<char>>::empty()) by {
            reveal_with_fuel(items_among, 2);
        }
        assert(items == Seq::<Seq<char>>::empty());
    } else {
        assert forall|k: int, i: int| 0 <= k < items.len() && 0 <= i < items[k].len() implies
            #[trigger] items[k][i] != ',' by {
            assert(is_item(items[k]));
        }
        lemma_pieces_of_joined(items);
        lemma_items_kept(items);
    }
}

/// Where the part of the text from `start` to `end` begins and ends once it
/// is trimmed.
fn trim_bounds(text: &str, start: usize, end: usize) -> (bounds: (usize, usize))
    requires
        start <= end <= text@.len(),
    ensures
        start <= bounds.0 <= bounds.1 <= end,
        text@.subrange(bounds.0 as int, bounds.1 as int) == trimmed(
            text@.subrange(start as int, end as int),
        ),
{
    let ghost part = text@.subrange(start as int, end as int);
    let mut a = start;
    while a < end && char_is_whitespace(text.get_char(a))
        invariant
            start <= a <= end <= text@.len(),
            forall|j: int| start <= j < a ==> is_white_space(#[trigger] text@[j]),
        decreases end - a,
    {
        a += 1;
    }
    let mut b = end;
    while b > a && char_is_whitespace(text.get_char(b - 1))
        invariant
            a <= b <= end <= text@.len(),
            forall|j: int| b <= j < end ==> is_white_space(#[trigger] text@[j]),
        decreases b,
    {
        b -= 1;
    }
    proof {
        lemma_trim_start_at(part, a - start);
        lemma_trim_end_at(part.subrange(a - start, part.len() as int), b - a);
    }
    (a, b)
}

/// Adds the part of the text from `start` to `end` to the items, trimmed,
/// unless nothing is left of it.
fn push_item(items: &mut Vec<String>, text: &str, start: usize, end: usize)
    requires
        start <= end <= text@.len(),
    ensures
        final(items).deep_view() == ({
            let item = trimmed(text@.subrange(start as int, end as int));
            if item.len() == 0 {
                old(items).deep_view()
            } else {
                old(items).deep_view().push(item)
            }
        }),
{
    let (a, b) = trim_bounds(text, start, end);
    if a < b {
        let item = String::from_str(text.substring_char(a, b));
        items.push(item);
    }
}

/// Reads the list that `text` holds: see [`list_of`].
pub fn split_list(text: &str) -> (items: Vec<String>)
    ensures
        items.deep_view() == list_of(text@),
{
    let n = text.unicode_len();
    let mut items: Vec<String> = Vec::new();
    let ghost mut done: Seq<Seq<char>> = Seq::empty();
    let mut start: usize = 0;
    let mut i: usize = 0;
    proof {
        assert(text@.subrange(0, 0) =~= Seq::<char>::empty());
    }
    while i < n
        invariant
            n == text@.len(),
            start <= i <= n,
            pieces(text@.take(i as int)) == done.push(text@.subrange(start as int, i as int)),
            items.deep_view() == items_among(done),
        decreases n - i,
    {
        let c = text.get_char(i);
        proof {
            assert(text@.take(i + 1).drop_last() == text@.take(i as int));
        }
        if c == ',' {
            push_item(&mut items, text, start, i);
            proof {
                let part = text@.subrange(start as int, i as int);
                let closed = done.push(part);
                assert(closed.drop_last() == done);
                done = closed;
                assert(text@.subrange(i + 1, i + 1) =~= Seq::<char>::empty());
            }
            start = i + 1;
        } else {
            proof {
                let before = done.push(text@.subrange(start as int, i as int));
                assert(before.last().push(c) == text@.subrange(start as int, i + 1));
            }
        }
        i += 1;
    }
    push_item(&mut items, text, start, n);
    proof {
        assert(text@.take(n as int) == text@);
        let part = text@.subrange(start as int, n as int);
        let closed = done.push(part);
        assert(closed.drop_last() == done);
    }
    items
}

/// Writes the items as one text: see [`joined`].
pub fn join_list(items: &Vec<String>) -> (text: String)
    ensures
        text@ == joined(items.deep_view()),
{
    let mut text = String::new();
    let mut i: usize = 0;
    while i < items.len()
        invariant
            i <= items.len(),
            text@ == joined(items.deep_view().take(i as int)),
        decreases items.len() - i,
    {
        proof {
            let all = items.deep_view();
            assert(all.take(i + 1).drop_last() == all.take(i as int));
            reveal_strlit(",");
        }
        if i > 0 {
            text.append(",");
        }
        text.append(items[i].as_str());
        i += 1;
    }
    assert(items.deep_view().take(i as int) == items.deep_view());
    text
}

} // verus!
