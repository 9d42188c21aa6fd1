use crate::models::poll::text_views;
use vstd::prelude::*;

verus! {

/// The pieces of `text` between its commas, in order. A text without a comma is one
/// piece, the empty text too; a comma at either end leaves an empty piece there.
pub open spec fn split_commas(text: Seq<char>) -> Seq<Seq<char>>
    decreases text.len(),
{
    if text.len() == 0 {
        seq![Seq::empty()]
    } else {
        let before = split_commas(text.drop_last());
        if text.last() == ',' {
            before.push(Seq::empty())
        } else {
            before.update(before.len() - 1, before.last().push(text.last()))
        }
    }
}

/// The pieces put together again, with a comma between each two.
pub open spec fn join_commas(pieces: Seq<Seq<char>>) -> Seq<char>
    decreases pieces.len(),
{
    if pieces.len() == 0 {
        Seq::empty()
    } else if pieces.len() == 1 {
        pieces[0]
    } else {
        join_commas(pieces.drop_last()) + seq![','] + pieces.last()
    }
}

/// Splitting loses nothing and leaves no comma behind: there is at least one piece, no
/// piece holds a comma, and the pieces joined by commas are the text again.
pub proof fn law_split_then_join(text: Seq<char>)
    ensures
        split_commas(text).len() >= 1,
        forall|i: int, j: int|
            0 <= i < split_commas(text).len() && 0 <= j < split_commas(text)[i].len()
                ==> #[trigger] split_commas(text)[i][j] != ',',
        join_commas(split_commas(text)) == text,
    decreases text.len(),
{
    if text.len() > 0 {
        let before = split_commas(text.drop_last());
        let pieces = split_commas(text);
        law_split_then_join(text.drop_last());
        if text.last() == ',' {
            assert(pieces.drop_last() =~= before);
        } else if before.len() > 1 {
            assert(pieces.drop_last() =~= before.drop_last());
            assert(join_commas(pieces) =~= join_commas(before).push(text.last()));
        }
    }
}

/// The origins that a comma-separated list names, in order and as they are written.
pub fn frontend_origins(list: &str) -> (origins: Vec<String>)
    ensures
        text_views(origins@) == split_commas(list@),
{
    let n = list.unicode_len();
    let mut origins: Vec<String> = Vec::new();
    let mut start: usize = 0;
    let mut i: usize = 0;
    assert(list@.subrange(0, 0) =~= Seq::<char>::empty());
    while i < n
        invariant
            n == list@.len(),
            start <= i <= n,
            split_commas(list@.subrange(0, i as int)) == text_views(origins@).push(
                list@.subrange(start as int, i as int),
            ),
        decreases n - i,
    {
        assert(list@.subrange(0, i + 1).drop_last() =~= list@.subrange(0, i as int));
        if list.get_char(i) == ',' {
            origins.push(list.substring_char(start, i).to_owned());
            start = i + 1;
            assert(list@.subrange(start as int, i + 1) =~= Seq::<char>::empty());
        } else {
            assert(list@.subrange(start as int, i + 1) =~= list@.subrange(
                start as int,
                i as int,
            ).push(list@[i as int]));
        }
        i += 1;
    }
    origins.push(list.substring_char(start, n).to_owned());
    assert(list@.subrange(0, n as int) =~= list@);
    origins
}

} // verus!
