//! Small operations on text, by characters.

use vstd::prelude::*;

verus! {

/// The pieces joined in order, with nothing between them.
pub open spec fn concat(pieces: Seq<Seq<char>>) -> Seq<char>
    decreases pieces.len(),
{
    if pieces.len() == 0 {
        Seq::empty()
    } else {
        concat(pieces.drop_last()) + pieces.last()
    }
}

/// The length of the first `count` pieces together: where piece `count`
/// begins in the joined text.
pub open spec fn offset(pieces: Seq<Seq<char>>, count: int) -> int {
    concat(pieces.take(count)).len() as int
}

/// Joining one more item's piece appends that piece.
pub proof fn lemma_concat_step<A>(items: Seq<A>, piece: spec_fn(A) -> Seq<char>, i: int)
    requires
        0 <= i < items.len(),
    ensures
        concat(items.take(i + 1).map_values(piece)) == concat(items.take(i).map_values(piece))
            + piece(items[i]),
{
    let longer = items.take(i + 1).map_values(piece);
    assert(longer.drop_last() =~= items.take(i).map_values(piece));
    assert(longer.last() == piece(items[i]));
}

/// The text joined from the first `count` pieces opens the text joined from
/// all of them.
pub proof fn lemma_concat_prefix(pieces: Seq<Seq<char>>, count: int)
    requires
        0 <= count <= pieces.len(),
    ensures
        concat(pieces.take(count)).is_prefix_of(concat(pieces)),
    decreases pieces.len(),
{
    if count == pieces.len() {
        assert(pieces.take(count) =~= pieces);
        assert(concat(pieces).subrange(0, concat(pieces).len() as int) =~= concat(pieces));
    } else {
        let shorter = pieces.drop_last();
        lemma_concat_prefix(shorter, count);
        assert(shorter.take(count) =~= pieces.take(count));
        let part = concat(pieces.take(count));
        assert(part =~= concat(shorter).subrange(0, part.len() as int));
        assert(part =~= concat(pieces).subrange(0, part.len() as int));
    }
}

/// Piece `i` stands in the joined text from its offset on, and the next
/// piece begins where it ends.
pub proof fn lemma_concat_piece(pieces: Seq<Seq<char>>, i: int)
    requires
        0 <= i < pieces.len(),
    ensures
        0 <= offset(pieces, i),
        offset(pieces, i) + pieces[i].len() == offset(pieces, i + 1),
        offset(pieces, i + 1) <= concat(pieces).len(),
        concat(pieces).subrange(offset(pieces, i), offset(pieces, i + 1)) == pieces[i],
{
    let upto = pieces.take(i + 1);
    assert(upto.drop_last() =~= pieces.take(i));
    assert(upto.last() == pieces[i]);
    lemma_concat_prefix(pieces, i + 1);
    let part = concat(upto);
    let before = concat(pieces.take(i));
    assert(part == before + pieces[i]);
    assert(part == concat(pieces).subrange(0, part.len() as int));
    let found = concat(pieces).subrange(offset(pieces, i), offset(pieces, i + 1));
    assert(found.len() == pieces[i].len());
    assert forall|k: int| 0 <= k < found.len() implies found[k] == pieces[i][k] by {
        assert(found[k] == concat(pieces)[before.len() + k]);
        assert(part[before.len() + k] == concat(pieces)[before.len() + k]);
        assert(part[before.len() + k] == pieces[i][k]);
    }
    assert(found =~= pieces[i]);
}

/// Later pieces begin later.
pub proof fn lemma_offsets_ordered(pieces: Seq<Seq<char>>, i: int, j: int)
    requires
        0 <= i <= j <= pieces.len(),
    ensures
        offset(pieces, i) <= offset(pieces, j),
    decreases j - i,
{
    if i < j {
        lemma_concat_piece(pieces, j - 1);
        lemma_offsets_ordered(pieces, i, j - 1);
    }
}

/// Whether `word` stands in `text` at position `at`.
pub open spec fn stands_at(text: Seq<char>, word: Seq<char>, at: int) -> bool {
    0 <= at && at + word.len() <= text.len() && text.subrange(at, at + word.len()) == word
}

/// A word that stands in piece `i` behind a head stands in the joined text,
/// that far behind the offset of the piece.
pub proof fn lemma_word_in_piece(
    pieces: Seq<Seq<char>>,
    i: int,
    head: Seq<char>,
    word: Seq<char>,
    tail: Seq<char>,
)
    requires
        0 <= i < pieces.len(),
        pieces[i] == head + word + tail,
    ensures
        stands_at(concat(pieces), word, offset(pieces, i) + head.len()),
        offset(pieces, i) + head.len() + word.len() <= offset(pieces, i + 1),
{
    lemma_concat_piece(pieces, i);
    let text = concat(pieces);
    let at = offset(pieces, i) + head.len();
    let piece = text.subrange(offset(pieces, i), offset(pieces, i + 1));
    assert forall|k: int| 0 <= k < word.len() implies text.subrange(at, at + word.len())[k]
        == word[k] by {
        assert(piece[head.len() + k] == text[offset(pieces, i) + head.len() + k]);
        assert((head + word + tail)[head.len() + k] == word[k]);
    }
    assert(text.subrange(at, at + word.len()) =~= word);
}

/// Whether `text` begins with `prefix`.
pub fn starts_with(text: &str, prefix: &str) -> (found: bool)
    ensures
        found == prefix@.is_prefix_of(text@),
{
    let wanted = prefix.unicode_len();
    let given = text.unicode_len();
    if wanted > given {
        return false;
    }
    let mut i: usize = 0;
    while i < wanted
        invariant
            i <= wanted <= given,
            wanted == prefix@.len(),
            given == text@.len(),
            forall|j: int| 0 <= j < i ==> prefix@[j] == text@[j],
        decreases wanted - i,
    {
        if prefix.get_char(i) != text.get_char(i) {
            assert(text@.subrange(0, wanted as int)[i as int] != prefix@[i as int]);
            return false;
        }
        i += 1;
    }
    assert(prefix@ =~= text@.subrange(0, wanted as int));
    true
}

/// The text with every occurrence of `from` replaced by `to`. Occurrences
/// are looked for from the start, and the search goes on behind each one
/// that was found. Nothing is replaced where `from` is empty.
pub open spec fn replaced(text: Seq<char>, from: Seq<char>, to: Seq<char>) -> Seq<char>
    decreases text.len(),
{
    if from.len() == 0 || text.len() == 0 {
        text
    } else if from.is_prefix_of(text) {
        to + replaced(text.skip(from.len() as int), from, to)
    } else {
        seq![text[0]] + replaced(text.skip(1), from, to)
    }
}

/// Replaces every occurrence of `from` in `text` by `to`.
pub fn replace_all(text: &str, from: &str, to: &str) -> (result: String)
    ensures
        result@ == replaced(text@, from@, to@),
{
    let given = text.unicode_len();
    let width = from.unicode_len();
    if width == 0 {
        return String::from_str(text);
    }
    let mut result = String::new();
    let mut i: usize = 0;
    assert(text@.skip(0) =~= text@);
    assert(result@ + replaced(text@, from@, to@) =~= replaced(text@, from@, to@));
    while i < given
        invariant
            i <= given,
            given == text@.len(),
            width == from@.len(),
            width > 0,
            replaced(text@, from@, to@) == result@ + replaced(text@.skip(i as int), from@, to@),
        decreases given - i,
    {
        let rest = text.substring_char(i, given);
        assert(rest@ =~= text@.skip(i as int));
        if starts_with(rest, from) {
            result.append(to);
            assert(text@.skip(i as int).skip(width as int) =~= text@.skip(i + width));
            assert(replaced(text@, from@, to@) =~= result@ + replaced(
                text@.skip(i + width),
                from@,
                to@,
            ));
            i += width;
        } else {
            let one = text.substring_char(i, i + 1);
            assert(one@ =~= seq![text@.skip(i as int)[0]]);
            result.append(one);
            assert(text@.skip(i as int).skip(1) =~= text@.skip(i + 1));
            assert(replaced(text@, from@, to@) =~= result@ + replaced(
                text@.skip(i + 1),
                from@,
                to@,
            ));
            i += 1;
        }
    }
    assert(text@.skip(i as int).len() == 0);
    assert(replaced(text@, from@, to@) =~= result@);
    result
}

/// The text without its first `count` characters.
pub fn skip_chars(text: &str, count: usize) -> (rest: String)
    requires
        count <= text@.len(),
    ensures
        rest@ == text@.skip(count as int),
{
    let given = text.unicode_len();
    String::from_str(text.substring_char(count, given))
}

} // verus!
