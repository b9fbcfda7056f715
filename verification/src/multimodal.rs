//! Image markers in a user's message.
use crate::text::{characters, matches_at, stands_at, trim, trimmed};
use vstd::prelude::*;

verus! {

/// What an image marker starts with; it ends with a square bracket.
pub const IMAGE_MARKER_START: &'static str = "[IMAGE:";

/// The position of the first `]` of a text, or its length where it has none.
pub open spec fn closing_bracket(s: Seq<char>) -> nat
    decreases s.len(),
{
    if s.len() == 0 || s[0] == ']' {
        0
    } else {
        1 + closing_bracket(s.drop_first())
    }
}

/// What is left of a text without its image markers, and what the markers refer
/// to, in order. A marker that refers to nothing, and one that does not end, is
/// ordinary text.
pub open spec fn image_markers(s: Seq<char>) -> (Seq<char>, Seq<Seq<char>>)
    decreases s.len(),
{
    let start = IMAGE_MARKER_START@.len() as int;
    let inside = s.skip(start);
    let end = start + closing_bracket(inside);
    if s.len() == 0 {
        (Seq::empty(), Seq::empty())
    } else if !stands_at(s, 0, IMAGE_MARKER_START@) {
        let rest = image_markers(s.drop_first());
        (seq![s[0]] + rest.0, rest.1)
    } else if closing_bracket(inside) >= inside.len() {
        (s, Seq::empty())
    } else {
        let reference = trimmed(s.subrange(start, end));
        let rest = image_markers(s.skip(end + 1));
        if reference.len() == 0 {
            (s.take(end + 1) + rest.0, rest.1)
        } else {
            (rest.0, seq![reference] + rest.1)
        }
    }
}

proof fn lemma_closing_bracket(s: Seq<char>)
    ensures
        closing_bracket(s) <= s.len(),
        closing_bracket(s) < s.len() ==> s[closing_bracket(s) as int] == ']',
        forall|i: int| 0 <= i < closing_bracket(s) ==> #[trigger] s[i] != ']',
    decreases s.len(),
{
    if s.len() > 0 && s[0] != ']' {
        lemma_closing_bracket(s.drop_first());
        assert forall|i: int| 0 <= i < closing_bracket(s) implies #[trigger] s[i] != ']' by {
            if i > 0 {
                assert(s[i] == s.drop_first()[i - 1]);
            }
        }
    }
}

/// Splits a message into its text and what its image markers refer to.
pub fn parse_image_markers(content: &str) -> (parsed: (String, Vec<String>))
    ensures
        parsed.0@ == image_markers(content@).0,
        parsed.1.deep_view() == image_markers(content@).1,
{
    let chars = characters(content);
    let marker = characters(IMAGE_MARKER_START);
    let mut cleaned = String::new();
    let mut references: Vec<String> = Vec::new();
    // Everything before `pending` has been sorted out; what stands from there up
    // to `at` is ordinary text.
    let mut pending: usize = 0;
    let mut at: usize = 0;
    proof {
        assert(content@.skip(0) =~= content@);
        assert(content@.subrange(0, 0) =~= Seq::<char>::empty());
        assert(references.deep_view() =~= Seq::<Seq<char>>::empty());
        assert(cleaned@ + content@.subrange(0, 0) + image_markers(content@).0 =~= image_markers(
            content@,
        ).0);
        assert(references.deep_view() + image_markers(content@).1 =~= image_markers(content@).1);
    }
    while at < chars.len()
        invariant
            pending <= at <= chars.len(),
            chars@ == content@,
            marker@ == IMAGE_MARKER_START@,
            image_markers(content@).0 == cleaned@ + content@.subrange(pending as int, at as int)
                + image_markers(content@.skip(at as int)).0,
            image_markers(content@).1 == references.deep_view() + image_markers(
                content@.skip(at as int),
            ).1,
        decreases chars.len() - at,
    {
        let ghost rest = content@.skip(at as int);
        proof {
            assert(stands_at(content@, at as int, marker@) == stands_at(rest, 0, marker@)) by {
                if at + marker@.len() <= content@.len() {
                    assert(content@.subrange(at as int, at + marker@.len()) =~= rest.subrange(
                        0,
                        marker@.len() as int,
                    ));
                }
            }
        }
        if !matches_at(&chars, at, &marker) {
            proof {
                assert(rest.drop_first() =~= content@.skip(at + 1));
                assert(content@.subrange(pending as int, at as int) + (seq![rest[0]]
                    + image_markers(content@.skip(at + 1)).0) =~= content@.subrange(
                    pending as int,
                    at + 1,
                ) + image_markers(content@.skip(at + 1)).0);
                assert(cleaned@ + content@.subrange(pending as int, at as int) + image_markers(
                    rest,
                ).0 =~= cleaned@ + content@.subrange(pending as int, at + 1) + image_markers(
                    content@.skip(at + 1),
                ).0);
            }
            at = at + 1;
        } else {
            let start: usize = at + marker.len();
            let ghost inside = rest.skip(marker@.len() as int);
            let mut end: usize = start;
            proof {
                assert(inside =~= content@.skip(start as int));
                lemma_closing_bracket(inside);
            }
            while end < chars.len() && chars[end] != ']'
                invariant
                    start <= end <= chars.len(),
                    chars@ == content@,
                    inside == content@.skip(start as int),
                    end - start <= closing_bracket(inside),
                    closing_bracket(inside) <= inside.len(),
                    closing_bracket(inside) < inside.len()
                        ==> inside[closing_bracket(inside) as int] == ']',
                    forall|i: int| 0 <= i < closing_bracket(inside) ==> #[trigger] inside[i] != ']',
                decreases chars.len() - end,
            {
                assert(inside[end - start] == chars@[end as int]);
                end = end + 1;
            }
            proof {
                assert(end - start == closing_bracket(inside)) by {
                    if end < chars.len() && end - start < closing_bracket(inside) {
                        assert(inside[end - start] == chars@[end as int]);
                    }
                }
            }
            if end >= chars.len() {
                proof {
                    assert(content@.subrange(pending as int, at as int) + rest
                        =~= content@.subrange(pending as int, chars@.len() as int)
                        + image_markers(content@.skip(chars@.len() as int)).0);
                    assert(cleaned@ + content@.subrange(pending as int, at as int) + rest
                        =~= cleaned@ + content@.subrange(pending as int, chars@.len() as int)
                        + image_markers(content@.skip(chars@.len() as int)).0);
                    assert(image_markers(content@.skip(chars@.len() as int)).1 =~= Seq::<
                        Seq<char>,
                    >::empty());
                }
                at = chars.len();
            } else {
                let reference = trim(content.substring_char(start, end));
                proof {
                    assert(content@.subrange(start as int, end as int) =~= rest.subrange(
                        marker@.len() as int,
                        end - at,
                    ));
                    assert(rest.skip(end - at + 1) =~= content@.skip(end + 1));
                    assert(rest.take(end - at + 1) =~= content@.subrange(at as int, end + 1));
                }
                if reference.is_empty() {
                    proof {
                        let after = image_markers(content@.skip(end + 1)).0;
                        assert(cleaned@ + content@.subrange(pending as int, at as int) + (
                        content@.subrange(at as int, end + 1) + after) =~= cleaned@
                            + content@.subrange(pending as int, end + 1) + after);
                    }
                } else {
                    cleaned.append(content.substring_char(pending, at));
                    let ghost before = references.deep_view();
                    references.push(reference.to_string());
                    pending = end + 1;
                    proof {
                        let after = image_markers(content@.skip(end + 1));
                        assert(content@.subrange(end + 1, end + 1) =~= Seq::<char>::empty());
                        assert(cleaned@ + content@.subrange(end + 1, end + 1) + after.0
                            =~= cleaned@ + after.0);
                        assert(references.deep_view() =~= before.push(reference@));
                        assert(before + (seq![reference@] + after.1) =~= references.deep_view()
                            + after.1);
                    }
                }
                at = end + 1;
            }
        }
    }
    cleaned.append(content.substring_char(pending, at));
    proof {
        assert(content@.skip(at as int) =~= Seq::<char>::empty());
        assert(image_markers(content@).0 =~= cleaned@);
        assert(image_markers(content@).1 =~= references.deep_view());
    }
    (cleaned, references)
}

/// A text in which no marker starts is left as it is and refers to no image.
pub proof fn law_no_marker_no_image(s: Seq<char>)
    requires
        forall|i: int| !stands_at(s, i, IMAGE_MARKER_START@),
    ensures
        image_markers(s).0 == s,
        image_markers(s).1.len() == 0,
    decreases s.len(),
{
    if s.len() > 0 {
        assert(!stands_at(s, 0, IMAGE_MARKER_START@));
        let rest = s.drop_first();
        assert forall|i: int| !stands_at(rest, i, IMAGE_MARKER_START@) by {
            assert(!stands_at(s, i + 1, IMAGE_MARKER_START@));
            let n = IMAGE_MARKER_START@.len();
            if 0 <= i && i + n <= rest.len() {
                assert(rest.subrange(i, i + n) =~= s.subrange(i + 1, i + 1 + n));
            }
        }
        law_no_marker_no_image(rest);
        assert(seq![s[0]] + rest =~= s);
    }
}

/// No reference of a marker is empty.
pub proof fn law_references_not_empty(s: Seq<char>)
    ensures
        forall|i: int|
            0 <= i < image_markers(s).1.len() ==> (#[trigger] image_markers(s).1[i]).len() > 0,
    decreases s.len(),
{
    let start = IMAGE_MARKER_START@.len() as int;
    let end = start + closing_bracket(s.skip(start));
    let references = image_markers(s).1;
    if s.len() == 0 {
    } else if !stands_at(s, 0, IMAGE_MARKER_START@) {
        law_references_not_empty(s.drop_first());
        assert(references == image_markers(s.drop_first()).1);
    } else if closing_bracket(s.skip(start)) >= s.skip(start).len() {
    } else {
        let rest = image_markers(s.skip(end + 1)).1;
        law_references_not_empty(s.skip(end + 1));
        assert forall|i: int| 0 <= i < references.len() implies (#[trigger] references[i]).len()
            > 0 by {
            if trimmed(s.subrange(start, end)).len() == 0 {
                assert(references[i] == rest[i]);
            } else if i > 0 {
                assert(references[i] == rest[i - 1]);
            }
        }
    }
}

/// Whether a text ends inside an image marker.
pub open spec fn unfinished_marker(s: Seq<char>) -> bool
    decreases s.len(),
{
    let start = IMAGE_MARKER_START@.len() as int;
    let inside = s.skip(start);
    if s.len() == 0 {
        false
    } else if !stands_at(s, 0, IMAGE_MARKER_START@) {
        unfinished_marker(s.drop_first())
    } else if closing_bracket(inside) >= inside.len() {
        true
    } else {
        unfinished_marker(s.skip(start + closing_bracket(inside) + 1))
    }
}

proof fn lemma_closing_bracket_in_front(front: Seq<char>, back: Seq<char>)
    requires
        closing_bracket(front) < front.len(),
    ensures
        closing_bracket(front + back) == closing_bracket(front),
    decreases front.len(),
{
    if front[0] != ']' {
        assert((front + back).drop_first() =~= front.drop_first() + back);
        lemma_closing_bracket_in_front(front.drop_first(), back);
    }
}

/// Where no marker is unfinished, what follows with a square bracket is sorted out
/// on its own.
pub proof fn lemma_markers_apart(front: Seq<char>, back: Seq<char>)
    requires
        !unfinished_marker(front),
        back.len() > 0,
        back[0] == '[',
    ensures
        image_markers(front + back).0 == image_markers(front).0 + image_markers(back).0,
        image_markers(front + back).1 == image_markers(front).1 + image_markers(back).1,
    decreases front.len(),
{
    let marker = IMAGE_MARKER_START@;
    let start = marker.len() as int;
    let whole = front + back;
    reveal_strlit("[IMAGE:");
    if front.len() == 0 {
        assert(whole =~= back);
        assert(image_markers(whole).0 =~= image_markers(front).0 + image_markers(back).0);
        assert(image_markers(whole).1 =~= image_markers(front).1 + image_markers(back).1);
    } else if !stands_at(front, 0, marker) {
        assert(!stands_at(whole, 0, marker)) by {
            if stands_at(whole, 0, marker) {
                let window = whole.subrange(0, start);
                if front.len() < start {
                    assert(window[front.len() as int] == '[');
                } else {
                    assert(front.subrange(0, start) =~= window);
                }
            }
        }
        assert(whole.drop_first() =~= front.drop_first() + back);
        lemma_markers_apart(front.drop_first(), back);
        assert(image_markers(whole).0 =~= image_markers(front).0 + image_markers(back).0);
    } else {
        let inside = front.skip(start);
        let end = start + closing_bracket(inside);
        assert(front.subrange(0, start) =~= whole.subrange(0, start));
        assert(whole.skip(start) =~= inside + back);
        lemma_closing_bracket_in_front(inside, back);
        assert(whole.subrange(start, end) =~= front.subrange(start, end));
        assert(whole.skip(end + 1) =~= front.skip(end + 1) + back);
        assert(whole.take(end + 1) =~= front.take(end + 1));
        lemma_markers_apart(front.skip(end + 1), back);
        assert(image_markers(whole).0 =~= image_markers(front).0 + image_markers(back).0);
        assert(image_markers(whole).1 =~= image_markers(front).1 + image_markers(back).1);
    }
}

/// A stretch of text in which no marker starts is kept.
pub proof fn lemma_text_before_markers(s: Seq<char>, n: int)
    requires
        0 <= n <= s.len(),
        forall|i: int| 0 <= i < n ==> !stands_at(s, i, IMAGE_MARKER_START@),
    ensures
        image_markers(s).0 == s.take(n) + image_markers(s.skip(n)).0,
    decreases n,
{
    let marker = IMAGE_MARKER_START@;
    if n > 0 {
        let rest = s.drop_first();
        assert(!stands_at(s, 0, marker));
        assert forall|i: int| 0 <= i < n - 1 implies !stands_at(rest, i, marker) by {
            assert(!stands_at(s, i + 1, marker));
            if i + marker.len() <= rest.len() {
                assert(rest.subrange(i, i + marker.len()) =~= s.subrange(
                    i + 1,
                    i + 1 + marker.len(),
                ));
            }
        }
        lemma_text_before_markers(rest, n - 1);
        assert(rest.skip(n - 1) =~= s.skip(n));
        assert(image_markers(s).0 =~= s.take(n) + image_markers(s.skip(n)).0);
    } else {
        assert(s.skip(0) =~= s);
        assert(image_markers(s).0 =~= s.take(0) + image_markers(s.skip(0)).0);
    }
}

proof fn lemma_references_after_text(s: Seq<char>, n: int)
    requires
        0 <= n <= s.len(),
        forall|i: int| 0 <= i < n ==> !stands_at(s, i, IMAGE_MARKER_START@),
    ensures
        image_markers(s).1 == image_markers(s.skip(n)).1,
    decreases n,
{
    let marker = IMAGE_MARKER_START@;
    if n > 0 {
        let rest = s.drop_first();
        assert(!stands_at(s, 0, marker));
        assert forall|i: int| 0 <= i < n - 1 implies !stands_at(rest, i, marker) by {
            assert(!stands_at(s, i + 1, marker));
            if i + marker.len() <= rest.len() {
                assert(rest.subrange(i, i + marker.len()) =~= s.subrange(
                    i + 1,
                    i + 1 + marker.len(),
                ));
            }
        }
        lemma_references_after_text(rest, n - 1);
        assert(rest.skip(n - 1) =~= s.skip(n));
    } else {
        assert(s.skip(0) =~= s);
    }
}

proof fn lemma_first_closing_bracket(inside: Seq<char>, back: Seq<char>)
    requires
        forall|i: int| 0 <= i < inside.len() ==> #[trigger] inside[i] != ']',
    ensures
        closing_bracket(inside.push(']') + back) == inside.len(),
        closing_bracket(inside) == inside.len(),
    decreases inside.len(),
{
    if inside.len() > 0 {
        let rest = inside.drop_first();
        assert forall|i: int| 0 <= i < rest.len() implies #[trigger] rest[i] != ']' by {
            assert(rest[i] == inside[i + 1]);
        }
        assert(inside[0] != ']');
        assert((inside.push(']') + back).drop_first() =~= rest.push(']') + back);
        lemma_first_closing_bracket(rest, back);
    }
}

/// The first marker of a text, `[IMAGE:` up to the next square bracket, is taken out
/// of it and what it refers to, without the white space around it, is the first of
/// the references. A marker that refers to nothing but white space stays where it is.
/// The rest of the text is treated in the same way.
pub proof fn law_first_marker(front: Seq<char>, reference: Seq<char>, back: Seq<char>)
    requires
        forall|i: int|
            0 <= i < front.len() ==> !stands_at(
                front + "[IMAGE:"@ + reference + seq![']'] + back,
                i,
                "[IMAGE:"@,
            ),
        forall|i: int| 0 <= i < reference.len() ==> #[trigger] reference[i] != ']',
    ensures
        ({
            let marker = "[IMAGE:"@ + reference + seq![']'];
            let split = image_markers(front + marker + back);
            let rest = image_markers(back);
            if trimmed(reference).len() > 0 {
                &&& split.0 == front + rest.0
                &&& split.1 == seq![trimmed(reference)] + rest.1
            } else {
                &&& split.0 == front + marker + rest.0
                &&& split.1 == rest.1
            }
        }),
{
    let start = "[IMAGE:"@;
    reveal_strlit("[IMAGE:");
    let marker = start + reference + seq![']'];
    let whole = front + marker + back;
    let n = front.len() as int;
    assert(whole =~= front + start + reference + seq![']'] + back);
    lemma_text_before_markers(whole, n);
    lemma_references_after_text(whole, n);
    let turn = whole.skip(n);
    assert(turn =~= marker + back);
    assert(whole.take(n) =~= front);
    assert(turn.subrange(0, start.len() as int) =~= start);
    let inside = turn.skip(start.len() as int);
    assert(inside =~= reference.push(']') + back);
    lemma_first_closing_bracket(reference, back);
    let close = start.len() + reference.len() as int;
    assert(turn.subrange(start.len() as int, close) =~= reference);
    assert(turn.skip(close + 1) =~= back);
    assert(turn.take(close + 1) =~= marker);
    let rest = image_markers(back);
    if trimmed(reference).len() > 0 {
        assert(image_markers(whole).0 =~= front + rest.0);
    } else {
        assert(image_markers(whole).0 =~= front + marker + rest.0);
    }
}

/// A marker that does not end is text, with all that follows it.
pub proof fn law_open_marker_is_text(front: Seq<char>, rest: Seq<char>)
    requires
        forall|i: int|
            0 <= i < front.len() ==> !stands_at(front + "[IMAGE:"@ + rest, i, "[IMAGE:"@),
        forall|i: int| 0 <= i < rest.len() ==> #[trigger] rest[i] != ']',
    ensures
        image_markers(front + "[IMAGE:"@ + rest).0 == front + "[IMAGE:"@ + rest,
        image_markers(front + "[IMAGE:"@ + rest).1.len() == 0,
{
    let start = "[IMAGE:"@;
    reveal_strlit("[IMAGE:");
    let whole = front + start + rest;
    let n = front.len() as int;
    lemma_text_before_markers(whole, n);
    lemma_references_after_text(whole, n);
    let turn = whole.skip(n);
    assert(turn =~= start + rest);
    assert(whole.take(n) =~= front);
    assert(turn.subrange(0, start.len() as int) =~= start);
    assert(turn.skip(start.len() as int) =~= rest);
    lemma_first_closing_bracket(rest, Seq::empty());
    assert(image_markers(whole).0 =~= whole);
}

} // verus!
