//! The labels that every series gets, as configured in one line of text:
//! `label1=value1,label2=value2`.

use vstd::prelude::*;
use crate::literal::push_char;

verus! {

/// The pieces that commas cut a text into. There is always one piece more
/// than there are commas; a piece may be empty.
pub open spec fn pieces(text: Seq<char>) -> Seq<Seq<char>>
    decreases text.len(),
{
    if text.len() == 0 {
        seq![Seq::empty()]
    } else {
        let before = pieces(text.drop_last());
        if text.last() == ',' {
            before.push(Seq::empty())
        } else {
            before.drop_last().push(before.last().push(text.last()))
        }
    }
}

/// The label and the value that the first `=` cuts a piece into; nothing
/// for a piece without `=`.
pub open spec fn cut(piece: Seq<char>) -> Option<(Seq<char>, Seq<char>)>
    decreases piece.len(),
{
    if piece.len() == 0 {
        None
    } else {
        match cut(piece.drop_last()) {
            Some((label, value)) => Some((label, value.push(piece.last()))),
            None => if piece.last() == '=' {
                Some((piece.drop_last(), Seq::empty()))
            } else {
                None
            },
        }
    }
}

/// The labels and values of the pieces that hold `=`, in the order of the
/// pieces. A piece without `=` is dropped.
pub open spec fn cut_all(pieces: Seq<Seq<char>>) -> Seq<(Seq<char>, Seq<char>)>
    decreases pieces.len(),
{
    if pieces.len() == 0 {
        Seq::empty()
    } else {
        match cut(pieces.last()) {
            Some(pair) => cut_all(pieces.drop_last()).push(pair),
            None => cut_all(pieces.drop_last()),
        }
    }
}

/// The labels and values that a configured text gives.
pub open spec fn label_pairs(text: Seq<char>) -> Seq<(Seq<char>, Seq<char>)> {
    cut_all(pieces(text))
}

/// Whether a text holds the character nowhere.
pub open spec fn without(text: Seq<char>, c: char) -> bool {
    forall|i: int| 0 <= i < text.len() ==> text[i] != c
}

/// The pieces of a text, each but the last followed by a comma, in a row.
pub open spec fn rejoined(pieces: Seq<Seq<char>>) -> Seq<char>
    decreases pieces.len(),
{
    if pieces.len() == 0 {
        Seq::empty()
    } else if pieces.len() == 1 {
        pieces[0]
    } else {
        rejoined(pieces.drop_last()) + seq![','] + pieces.last()
    }
}

/// Commas cut a text into pieces that hold no comma and that, put in a row
/// with the commas between them, are the text again.
pub proof fn lemma_pieces_rejoin(text: Seq<char>)
    ensures
        pieces(text).len() >= 1,
        rejoined(pieces(text)) == text,
        forall|k: int| 0 <= k < pieces(text).len() ==> without(#[trigger] pieces(text)[k], ','),
    decreases text.len(),
{
    if text.len() == 0 {
        assert(rejoined(pieces(text)) =~= text);
    } else {
        lemma_pieces_rejoin(text.drop_last());
        let before = pieces(text.drop_last());
        let all = pieces(text);
        assert(text =~= text.drop_last().push(text.last()));
        if text.last() == ',' {
            assert(all.drop_last() =~= before);
            assert(rejoined(all) =~= text);
        } else {
            let grown = before.last().push(text.last());
            assert(all.last() == grown);
            assert(all.drop_last() =~= before.drop_last());
            if before.len() == 1 {
                assert(all[0] == grown);
                assert(rejoined(all) =~= text);
            } else {
                assert(rejoined(all) == rejoined(before.drop_last()) + seq![','] + grown);
                assert(rejoined(all) =~= rejoined(before).push(text.last()));
            }
            assert forall|k: int| 0 <= k < all.len() implies without(#[trigger] all[k], ',') by {
                if k < all.len() - 1 {
                    assert(all[k] == before[k]);
                } else {
                    assert(without(before.last(), ','));
                }
            }
        }
    }
}

/// Where a piece is cut, the label holds no `=`, and label, `=` and value
/// in a row are the piece again; a piece that is not cut holds no `=`.
pub proof fn lemma_cut_at_first(piece: Seq<char>)
    ensures
        match cut(piece) {
            Some((label, value)) => piece == label + seq!['='] + value && without(label, '='),
            None => without(piece, '='),
        },
    decreases piece.len(),
{
    if piece.len() > 0 {
        lemma_cut_at_first(piece.drop_last());
        assert(piece =~= piece.drop_last().push(piece.last()));
        match cut(piece.drop_last()) {
            Some((label, value)) => {
                assert(piece =~= label + seq!['='] + value.push(piece.last()));
            },
            None => {
                if piece.last() == '=' {
                    assert(piece =~= piece.drop_last() + seq!['='] + Seq::<char>::empty());
                } else {
                    assert forall|i: int| 0 <= i < piece.len() implies piece[i] != '=' by {
                        if i < piece.len() - 1 {
                            assert(piece[i] == piece.drop_last()[i]);
                        }
                    }
                }
            },
        }
    }
}

/// The texts of pairs of strings.
pub open spec fn pair_texts(pairs: Seq<(String, String)>) -> Seq<(Seq<char>, Seq<char>)> {
    Seq::new(pairs.len(), |i: int| (pairs[i].0@, pairs[i].1@))
}

/// What a piece under way comes to, from the label and the value read so
/// far and whether its `=` has been read.
spec fn piece_read(piece: Seq<char>, label: Seq<char>, value: Seq<char>, cut_seen: bool) -> bool {
    if cut_seen {
        cut(piece) == Some((label, value))
    } else {
        cut(piece) is None && label =~= piece && value.len() == 0
    }
}

/// Reads the labels and values out of a configured text. The text is cut
/// at every comma, and each piece at its first `=`; a piece without `=` is
/// dropped without a word.
pub fn parse_labels(text: &str) -> (pairs: Vec<(String, String)>)
    ensures
        pair_texts(pairs@) == label_pairs(text@),
{
    let mut pairs: Vec<(String, String)> = Vec::new();
    let mut label = String::new();
    let mut value = String::new();
    let mut cut_seen = false;
    let ghost mut done: Seq<Seq<char>> = Seq::empty();
    let ghost mut piece: Seq<char> = Seq::empty();
    for c in it: text.chars()
        invariant
            it.seq() == text@,
            pieces(text@.take(it.index())) == done.push(piece),
            pair_texts(pairs@) == cut_all(done),
            piece_read(piece, label@, value@, cut_seen),
    {
        assert(text@.take(it.index() + 1).drop_last() == text@.take(it.index()));
        assert(done.push(piece).drop_last() == done);
        if c == ',' {
            proof {
                assert(cut_all(done.push(piece)) == if cut_seen {
                    cut_all(done).push((label@, value@))
                } else {
                    cut_all(done)
                });
                done = done.push(piece);
                piece = Seq::empty();
            }
            if cut_seen {
                let ghost before = pairs@;
                pairs.push((label, value));
                assert(pair_texts(pairs@) == pair_texts(before).push((label@, value@)));
            }
            label = String::new();
            value = String::new();
            cut_seen = false;
        } else {
            proof {
                assert(piece.push(c).drop_last() == piece);
                piece = piece.push(c);
            }
            if cut_seen {
                push_char(&mut value, c);
            } else if c == '=' {
                cut_seen = true;
                assert(value@ =~= Seq::<char>::empty());
            } else {
                push_char(&mut label, c);
            }
            assert(piece_read(piece, label@, value@, cut_seen));
        }
    }
    assert(text@.take(text@.len() as int) == text@);
    proof {
        assert(done.push(piece).drop_last() == done);
    }
    if cut_seen {
        let ghost before = pairs@;
        pairs.push((label, value));
        assert(pair_texts(pairs@) == pair_texts(before).push((label@, value@)));
    }
    pairs
}

/// The map that is filled with the pairs one by one: each label with the
/// value of the last pair that has it.
pub open spec fn label_map(pairs: Seq<(Seq<char>, Seq<char>)>) -> Map<Seq<char>, Seq<char>>
    decreases pairs.len(),
{
    if pairs.len() == 0 {
        Map::empty()
    } else {
        label_map(pairs.drop_last()).insert(pairs.last().0, pairs.last().1)
    }
}

/// Whether one of the pairs from `from` on has the given label.
pub open spec fn labelled_from(pairs: Seq<(Seq<char>, Seq<char>)>, from: int, label: Seq<char>) -> bool {
    exists|j: int| from <= j < pairs.len() && (#[trigger] pairs[j]).0 == label
}

/// Of the first `upto` pairs, those whose label no later pair has, in their
/// order: where a label is given more than once, its last value stands.
pub open spec fn settled(pairs: Seq<(Seq<char>, Seq<char>)>, upto: int) -> Seq<
    (Seq<char>, Seq<char>),
>
    decreases upto,
{
    if upto <= 0 {
        Seq::empty()
    } else {
        let before = settled(pairs, upto - 1);
        if labelled_from(pairs, upto, pairs[upto - 1].0) {
            before
        } else {
            before.push(pairs[upto - 1])
        }
    }
}

/// Whether no two pairs have the same label.
pub open spec fn distinct_labels(pairs: Seq<(Seq<char>, Seq<char>)>) -> bool {
    forall|i: int, j: int|
        0 <= i < j < pairs.len() ==> (#[trigger] pairs[i]).0 != (#[trigger] pairs[j]).0
}

/// Every settled pair is one of the pairs given, and no pair from `upto` on
/// has its label.
proof fn lemma_settled_members(pairs: Seq<(Seq<char>, Seq<char>)>, upto: int)
    requires
        0 <= upto <= pairs.len(),
    ensures
        forall|k: int|
            0 <= k < settled(pairs, upto).len() ==> !labelled_from(
                pairs,
                upto,
                (#[trigger] settled(pairs, upto)[k]).0,
            ),
    decreases upto,
{
    if upto > 0 {
        lemma_settled_members(pairs, upto - 1);
        let before = settled(pairs, upto - 1);
        assert forall|k: int| 0 <= k < settled(pairs, upto).len() implies !labelled_from(
            pairs,
            upto,
            (#[trigger] settled(pairs, upto)[k]).0,
        ) by {
            let label = settled(pairs, upto)[k].0;
            if k < before.len() {
                assert(settled(pairs, upto)[k] == before[k]);
                if labelled_from(pairs, upto, label) {
                    let j = choose|j: int| upto <= j < pairs.len() && (#[trigger] pairs[j]).0 == label;
                    assert(upto - 1 <= j < pairs.len() && pairs[j].0 == label);
                    assert(labelled_from(pairs, upto - 1, before[k].0));
                }
            }
        }
    }
}

/// No two settled pairs have the same label.
pub proof fn lemma_settled_distinct(pairs: Seq<(Seq<char>, Seq<char>)>, upto: int)
    requires
        0 <= upto <= pairs.len(),
    ensures
        distinct_labels(settled(pairs, upto)),
    decreases upto,
{
    if upto > 0 {
        lemma_settled_distinct(pairs, upto - 1);
        lemma_settled_members(pairs, upto - 1);
        let before = settled(pairs, upto - 1);
        assert forall|i: int, j: int| 0 <= i < j < settled(pairs, upto).len() implies (
        #[trigger] settled(pairs, upto)[i]).0 != (#[trigger] settled(pairs, upto)[j]).0 by {
            if j == before.len() {
                assert(settled(pairs, upto)[i] == before[i]);
                assert(!labelled_from(pairs, upto - 1, before[i].0));
                assert(upto - 1 <= upto - 1 < pairs.len());
                assert(pairs[upto - 1].0 != before[i].0);
            } else {
                assert(settled(pairs, upto)[i] == before[i]);
                assert(settled(pairs, upto)[j] == before[j]);
            }
        }
    }
}

/// A label that is given has its last value among the settled pairs.
pub proof fn lemma_last_value_stands(pairs: Seq<(Seq<char>, Seq<char>)>, at: int)
    requires
        0 <= at < pairs.len(),
        !labelled_from(pairs, at + 1, pairs[at].0),
    ensures
        settled(pairs, pairs.len() as int).contains(pairs[at]),
{
    lemma_stays_settled(pairs, at, pairs.len() as int);
}

/// A pair that is settled among the first `at + 1` stays so among more.
proof fn lemma_stays_settled(pairs: Seq<(Seq<char>, Seq<char>)>, at: int, upto: int)
    requires
        0 <= at < upto <= pairs.len(),
        !labelled_from(pairs, at + 1, pairs[at].0),
    ensures
        settled(pairs, upto).contains(pairs[at]),
    decreases upto,
{
    if upto == at + 1 {
        let all = settled(pairs, upto);
        assert(all == settled(pairs, at).push(pairs[at]));
        assert(all[all.len() - 1] == pairs[at]);
    } else {
        lemma_stays_settled(pairs, at, upto - 1);
        let before = settled(pairs, upto - 1);
        let k = choose|k: int| 0 <= k < before.len() && before[k] == pairs[at];
        assert(settled(pairs, upto)[k] == pairs[at]);
    }
}

/// Whether a later pair has the label of the pair at `at`.
fn has_later(pairs: &Vec<(String, String)>, at: usize) -> (later: bool)
    requires
        at < pairs.len(),
    ensures
        later == labelled_from(pair_texts(pairs@), at + 1, pairs[at as int].0@),
{
    let mut j: usize = at + 1;
    while j < pairs.len()
        invariant
            at < j <= pairs.len(),
            forall|k: int| at < k < j ==> (#[trigger] pair_texts(pairs@)[k]).0 != pairs[at as int].0@,
        decreases pairs.len() - j,
    {
        if pairs[j].0 == pairs[at].0 {
            assert(pair_texts(pairs@)[j as int].0 == pairs[at as int].0@);
            return true;
        }
        j += 1;
    }
    false
}

/// Settles the labels: where a label is given more than once, only its last
/// pair is kept, as in a map that is filled pair by pair. The pairs that
/// are kept stay in their order.
pub fn settle_labels(pairs: Vec<(String, String)>) -> (kept: Vec<(String, String)>)
    ensures
        pair_texts(kept@) == settled(pair_texts(pairs@), pairs.len() as int),
        distinct_labels(pair_texts(kept@)),
{
    let mut kept: Vec<(String, String)> = Vec::new();
    let mut i: usize = 0;
    while i < pairs.len()
        invariant
            i <= pairs.len(),
            pair_texts(kept@) == settled(pair_texts(pairs@), i as int),
        decreases pairs.len() - i,
    {
        if !has_later(&pairs, i) {
            let ghost before = kept@;
            kept.push((pairs[i].0.clone(), pairs[i].1.clone()));
            assert(pair_texts(kept@) == pair_texts(before).push(pair_texts(pairs@)[i as int]));
        }
        i += 1;
    }
    proof {
        lemma_settled_distinct(pair_texts(pairs@), pairs.len() as int);
    }
    kept
}

} // verus!
