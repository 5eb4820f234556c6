//! Splitting a token into its dot-separated segments.

use vstd::prelude::*;

verus! {

/// The segment separator of a compact token.
pub open spec fn is_separator(c: char) -> bool {
    c == '.'
}

/// The segments of `token`: the maximal runs of characters between
/// separators, in order. A token without a separator is one segment, and an
/// empty run between, before or after separators is a segment too.
pub open spec fn segments(token: Seq<char>) -> Seq<Seq<char>>
    decreases token.len(),
{
    if token.len() == 0 {
        seq![Seq::empty()]
    } else {
        let before = segments(token.drop_last());
        if is_separator(token.last()) {
            before.push(Seq::empty())
        } else {
            before.drop_last().push(before.last().push(token.last()))
        }
    }
}

/// How many separators `token` holds.
pub open spec fn separator_count(token: Seq<char>) -> nat
    decreases token.len(),
{
    if token.len() == 0 {
        0
    } else if is_separator(token.last()) {
        separator_count(token.drop_last()) + 1
    } else {
        separator_count(token.drop_last())
    }
}

/// The text made of `parts` with one separator between neighbours.
pub open spec fn joined(parts: Seq<Seq<char>>) -> Seq<char>
    decreases parts.len(),
{
    if parts.len() == 0 {
        Seq::empty()
    } else if parts.len() == 1 {
        parts[0]
    } else {
        joined(parts.drop_last()) + seq!['.'] + parts.last()
    }
}

/// Whether no part holds a separator.
pub open spec fn separator_free(parts: Seq<Seq<char>>) -> bool {
    forall|i: int, j: int|
        0 <= i < parts.len() && 0 <= j < parts[i].len() ==> !is_separator(#[trigger] parts[i][j])
}

/// Appends one character to a string.
///
/// Wraps `String::push`, which adds the character at the end and leaves the
/// rest of the string as it was.
#[verifier::external_body]
fn push_char(text: &mut String, c: char)
    ensures
        final(text)@ == old(text)@.push(c),
{
    text.push(c)
}

/// Splits `token` at every separator.
pub fn split_segments(token: &str) -> (parts: Vec<String>)
    ensures
        parts.deep_view() == segments(token@),
{
    let mut done: Vec<String> = Vec::new();
    let mut current = String::new();
    proof {
        assert(token@.take(0) =~= Seq::<char>::empty());
    }
    for c in it: token.chars()
        invariant
            it.seq() == token@,
            done.deep_view().push(current@) == segments(token@.take(it.index() as int)),
    {
        proof {
            let i = it.index() as int;
            assert(token@.take(i + 1).drop_last() =~= token@.take(i));
            assert(token@.take(i + 1).last() == c);
        }
        if c == '.' {
            done.push(current);
            current = String::new();
        } else {
            push_char(&mut current, c);
        }
    }
    proof {
        assert(token@.take(token@.len() as int) =~= token@);
    }
    done.push(current);
    done
}

/// A token has one segment more than it has separators; in particular it
/// always has at least one.
pub proof fn lemma_segment_count(token: Seq<char>)
    ensures
        segments(token).len() == separator_count(token) + 1,
    decreases token.len(),
{
    if token.len() > 0 {
        lemma_segment_count(token.drop_last());
    }
}

/// No segment holds a separator.
pub proof fn lemma_segments_hold_no_separator(token: Seq<char>)
    ensures
        separator_free(segments(token)),
    decreases token.len(),
{
    if token.len() > 0 {
        lemma_segment_count(token.drop_last());
        lemma_segments_hold_no_separator(token.drop_last());
    }
}

/// Joining the segments of a token gives the token back.
pub proof fn lemma_segments_join(token: Seq<char>)
    ensures
        joined(segments(token)) == token,
    decreases token.len(),
{
    if token.len() == 0 {
        assert(joined(segments(token)) =~= token);
    } else {
        let before = segments(token.drop_last());
        let parts = segments(token);
        lemma_segment_count(token.drop_last());
        lemma_segments_join(token.drop_last());
        if is_separator(token.last()) {
            assert(parts.drop_last() =~= before);
            assert(joined(parts) =~= token.drop_last().push(token.last()));
        } else if before.len() == 1 {
            assert(joined(parts) =~= token.drop_last().push(token.last()));
        } else {
            assert(parts.drop_last() =~= before.drop_last());
            assert(joined(parts) =~= joined(before).push(token.last()));
        }
        assert(token.drop_last().push(token.last()) =~= token);
    }
}

/// The segments are the only way to cut a token at its separators: any
/// parts, at least one, that hold no separator and join to the token are
/// its segments.
pub proof fn lemma_segments_unique(token: Seq<char>, parts: Seq<Seq<char>>)
    requires
        parts.len() >= 1,
        separator_free(parts),
        joined(parts) == token,
    ensures
        parts == segments(token),
    decreases token.len(),
{
    let front = parts.drop_last();
    let tail = parts.last();
    if parts.len() == 1 {
        assert(tail == token);
        if token.len() == 0 {
            assert(parts =~~= seq![Seq::<char>::empty()]);
        } else {
            let shorter = seq![tail.drop_last()];
            assert(!is_separator(parts[0][tail.len() - 1]));
            assert forall|i: int, j: int|
                0 <= i < shorter.len() && 0 <= j < shorter[i].len() implies !is_separator(
                #[trigger] shorter[i][j],
            ) by {
                assert(shorter[i][j] == parts[0][j]);
            }
            lemma_segments_unique(token.drop_last(), shorter);
            assert(parts =~~= shorter.drop_last().push(shorter.last().push(token.last())));
        }
    } else {
        assert(token == joined(front) + seq!['.'] + tail);
        assert forall|i: int, j: int|
            0 <= i < front.len() && 0 <= j < front[i].len() implies !is_separator(
            #[trigger] front[i][j],
        ) by {
            assert(front[i][j] == parts[i][j]);
        }
        if tail.len() == 0 {
            assert(token.drop_last() =~= joined(front));
            assert(is_separator(token.last()));
            lemma_segments_unique(token.drop_last(), front);
            assert(parts =~~= front.push(Seq::empty()));
        } else {
            let shorter = front.push(tail.drop_last());
            assert(token.last() == tail.last());
            assert(tail.last() == parts[parts.len() - 1][tail.len() - 1]);
            assert(shorter.drop_last() =~= front);
            assert(token.drop_last() =~= joined(shorter));
            assert forall|i: int, j: int|
                0 <= i < shorter.len() && 0 <= j < shorter[i].len() implies !is_separator(
                #[trigger] shorter[i][j],
            ) by {
                assert(shorter[i][j] == parts[i][j]);
            }
            lemma_segments_unique(token.drop_last(), shorter);
            assert(tail =~= tail.drop_last().push(token.last()));
            assert(parts =~~= shorter.drop_last().push(shorter.last().push(token.last())));
        }
    }
}

} // verus!
