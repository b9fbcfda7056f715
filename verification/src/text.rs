//! Text as a sequence of characters: comparing, trimming, splitting, joining.
use vstd::prelude::*;

verus! {

/// The characters with the Unicode property `White_Space`.
pub open spec fn white_space(c: char) -> bool {
    ||| '\u{9}' <= c <= '\u{d}'
    ||| c == ' '
    ||| c == '\u{85}'
    ||| c == '\u{a0}'
    ||| c == '\u{1680}'
    ||| '\u{2000}' <= c <= '\u{200a}'
    ||| c == '\u{2028}'
    ||| c == '\u{2029}'
    ||| c == '\u{202f}'
    ||| c == '\u{205f}'
    ||| c == '\u{3000}'
}

/// A text without the white space at its start.
pub open spec fn trimmed_start(s: Seq<char>) -> Seq<char>
    decreases s.len(),
{
    if s.len() > 0 && white_space(s[0]) {
        trimmed_start(s.drop_first())
    } else {
        s
    }
}

/// A text without the white space at its end.
pub open spec fn trimmed_end(s: Seq<char>) -> Seq<char>
    decreases s.len(),
{
    if s.len() > 0 && white_space(s.last()) {
        trimmed_end(s.drop_last())
    } else {
        s
    }
}

/// A text without the white space at its two ends.
pub open spec fn trimmed(s: Seq<char>) -> Seq<char> {
    trimmed_end(trimmed_start(s))
}

/// A text without the run of `c` at its end.
pub open spec fn without_trailing(s: Seq<char>, c: char) -> Seq<char>
    decreases s.len(),
{
    if s.len() > 0 && s.last() == c {
        without_trailing(s.drop_last(), c)
    } else {
        s
    }
}

/// How many characters at the start of a text are no white space.
pub open spec fn word_len(s: Seq<char>) -> nat
    decreases s.len(),
{
    if s.len() > 0 && !white_space(s[0]) {
        1 + word_len(s.drop_first())
    } else {
        0
    }
}

/// The longest pieces of a text that hold no white space, in order.
pub open spec fn words(s: Seq<char>) -> Seq<Seq<char>>
    decreases s.len(),
{
    if s.len() == 0 {
        Seq::empty()
    } else if white_space(s[0]) {
        words(s.drop_first())
    } else {
        proof {
            lemma_word_len(s);
        }
        seq![s.take(word_len(s) as int)] + words(s.skip(word_len(s) as int))
    }
}

/// Pieces of text put one after the other, with `separator` between any two.
pub open spec fn joined(pieces: Seq<Seq<char>>, separator: Seq<char>) -> Seq<char>
    decreases pieces.len(),
{
    if pieces.len() == 0 {
        Seq::empty()
    } else if pieces.len() == 1 {
        pieces[0]
    } else {
        joined(pieces.drop_last(), separator) + separator + pieces.last()
    }
}

/// A text with one space in place of each run of white space, and none at its ends.
pub open spec fn compacted(s: Seq<char>) -> Seq<char> {
    joined(words(s), seq![' '])
}

/// Whether the only white space in a text is single spaces between other characters.
pub open spec fn single_spaced(s: Seq<char>) -> bool {
    forall|i: int|
        0 <= i < s.len() && white_space(#[trigger] s[i]) ==> {
            &&& s[i] == ' '
            &&& 0 < i < s.len() - 1
            &&& !white_space(s[i - 1])
            &&& !white_space(s[i + 1])
        }
}

/// Whether `pattern` stands in `s` at position `at`.
pub open spec fn stands_at(s: Seq<char>, at: int, pattern: Seq<char>) -> bool {
    &&& 0 <= at
    &&& at + pattern.len() <= s.len()
    &&& s.subrange(at, at + pattern.len()) == pattern
}

/// Whether `c` is white space.
pub fn is_white_space(c: char) -> (result: bool)
    ensures
        result == white_space(c),
{
    ('\u{9}' <= c && c <= '\u{d}') || c == ' ' || c == '\u{85}' || c == '\u{a0}' || c
        == '\u{1680}' || ('\u{2000}' <= c && c <= '\u{200a}') || c == '\u{2028}' || c
        == '\u{2029}' || c == '\u{202f}' || c == '\u{205f}' || c == '\u{3000}'
}

/// Whether two texts are the same.
pub fn same_text(a: &str, b: &str) -> (same: bool)
    ensures
        same == (a@ == b@),
{
    a.to_string() == b.to_string()
}

/// The characters of a text.
pub fn characters(s: &str) -> (list: Vec<char>)
    ensures
        list@ == s@,
{
    let mut list: Vec<char> = Vec::new();
    for c in it: s.chars()
        invariant
            it.seq() == s@,
            list@ == s@.take(it.index() as int),
    {
        list.push(c);
    }
    list
}

/// A text without the white space at its two ends.
pub fn trim(s: &str) -> (result: &str)
    ensures
        result@ == trimmed(s@),
{
    let list = characters(s);
    let mut from: usize = 0;
    assert(s@.skip(0) =~= s@);
    while from < list.len() && is_white_space(list[from])
        invariant
            from <= list.len(),
            list@ == s@,
            trimmed_start(s@) == trimmed_start(s@.skip(from as int)),
        decreases list.len() - from,
    {
        proof {
            assert(s@.skip(from as int).drop_first() =~= s@.skip(from + 1));
        }
        from = from + 1;
    }
    let ghost rest = s@.skip(from as int);
    let mut to: usize = list.len();
    assert(s@.subrange(from as int, to as int) =~= rest);
    while from < to && is_white_space(list[to - 1])
        invariant
            from <= to <= list.len(),
            list@ == s@,
            trimmed_end(rest) == trimmed_end(s@.subrange(from as int, to as int)),
        decreases to,
    {
        proof {
            assert(s@.subrange(from as int, to as int).drop_last() =~= s@.subrange(
                from as int,
                to - 1,
            ));
        }
        to = to - 1;
    }
    s.substring_char(from, to)
}

/// A text without the run of `c` at its end.
pub fn trim_end_matches(s: &str, c: char) -> (result: &str)
    ensures
        result@ == without_trailing(s@, c),
{
    let list = characters(s);
    let mut to: usize = list.len();
    assert(s@.take(to as int) =~= s@);
    while 0 < to && list[to - 1] == c
        invariant
            to <= list.len(),
            list@ == s@,
            without_trailing(s@, c) == without_trailing(s@.take(to as int), c),
        decreases to,
    {
        proof {
            assert(s@.take(to as int).drop_last() =~= s@.take(to - 1));
        }
        to = to - 1;
    }
    assert(s@.subrange(0, to as int) =~= s@.take(to as int));
    s.substring_char(0, to)
}

/// The leading word of a text ends at white space or at the end of the text.
pub proof fn lemma_word_len(s: Seq<char>)
    ensures
        word_len(s) <= s.len(),
        forall|i: int| 0 <= i < word_len(s) ==> !white_space(#[trigger] s[i]),
        word_len(s) < s.len() ==> white_space(s[word_len(s) as int]),
        s.len() > 0 && !white_space(s[0]) ==> word_len(s) > 0,
    decreases s.len(),
{
    if s.len() > 0 && !white_space(s[0]) {
        lemma_word_len(s.drop_first());
        assert forall|i: int| 0 <= i < word_len(s) implies !white_space(#[trigger] s[i]) by {
            if i > 0 {
                assert(s[i] == s.drop_first()[i - 1]);
            }
        }
    }
}

proof fn lemma_joined_push(pieces: Seq<Seq<char>>, piece: Seq<char>, separator: Seq<char>)
    ensures
        joined(pieces.push(piece), separator) == if pieces.len() == 0 {
            piece
        } else {
            joined(pieces, separator) + separator + piece
        },
{
    assert(pieces.push(piece).drop_last() =~= pieces);
}

/// The words of a text.
pub fn split_words(s: &str) -> (list: Vec<String>)
    ensures
        list.deep_view() == words(s@),
{
    let chars = characters(s);
    let mut list: Vec<String> = Vec::new();
    let mut at: usize = 0;
    assert(s@.skip(0) =~= s@);
    assert(list.deep_view() + words(s@) =~= words(s@));
    while at < chars.len()
        invariant
            at <= chars.len(),
            chars@ == s@,
            words(s@) == list.deep_view() + words(s@.skip(at as int)),
        decreases chars.len() - at,
    {
        let ghost rest = s@.skip(at as int);
        if is_white_space(chars[at]) {
            assert(rest.drop_first() =~= s@.skip(at + 1));
            at = at + 1;
        } else {
            let start: usize = at;
            proof {
                lemma_word_len(rest);
            }
            while at < chars.len() && !is_white_space(chars[at])
                invariant
                    start <= at <= chars.len(),
                    chars@ == s@,
                    rest == s@.skip(start as int),
                    at - start <= word_len(rest),
                    word_len(rest) <= rest.len(),
                    forall|i: int| 0 <= i < word_len(rest) ==> !white_space(#[trigger] rest[i]),
                    word_len(rest) < rest.len() ==> white_space(rest[word_len(rest) as int]),
                decreases chars.len() - at,
            {
                assert(rest[at - start] == chars@[at as int]);
                at = at + 1;
            }
            assert(at - start == word_len(rest)) by {
                if at < chars.len() && at - start < word_len(rest) {
                    assert(rest[at - start] == chars@[at as int]);
                }
            }
            let word = s.substring_char(start, at).to_string();
            let ghost before = list.deep_view();
            list.push(word);
            proof {
                assert(word@ =~= rest.take(word_len(rest) as int));
                assert(rest.skip(word_len(rest) as int) =~= s@.skip(at as int));
                assert(list.deep_view() =~= before.push(word@));
                assert(before + words(rest) =~= list.deep_view() + words(s@.skip(at as int)));
            }
        }
    }
    assert(s@.skip(at as int) =~= Seq::<char>::empty());
    assert(list.deep_view() =~= words(s@));
    list
}

/// Pieces of text put one after the other, with `separator` between any two.
pub fn join(pieces: &Vec<String>, separator: &str) -> (result: String)
    ensures
        result@ == joined(pieces.deep_view(), separator@),
{
    let mut result = String::new();
    let mut at: usize = 0;
    assert(pieces.deep_view().take(0) =~= Seq::<Seq<char>>::empty());
    while at < pieces.len()
        invariant
            at <= pieces.len(),
            result@ == joined(pieces.deep_view().take(at as int), separator@),
        decreases pieces.len() - at,
    {
        proof {
            let all = pieces.deep_view();
            lemma_joined_push(all.take(at as int), all[at as int], separator@);
            assert(all.take(at as int).push(all[at as int]) =~= all.take(at + 1));
        }
        if at > 0 {
            result.append(separator);
        }
        result.append(pieces[at].as_str());
        at = at + 1;
    }
    assert(pieces.deep_view().take(at as int) =~= pieces.deep_view());
    result
}

/// A text with one space in place of each run of white space, and none at its ends.
pub fn compact(s: &str) -> (result: String)
    ensures
        result@ == compacted(s@),
{
    proof {
        reveal_strlit(" ");
        assert(" "@ =~= seq![' ']);
    }
    join(&split_words(s), " ")
}

/// The words of a text hold no white space, and none is empty.
pub proof fn lemma_words(s: Seq<char>)
    ensures
        forall|i: int|
            0 <= i < words(s).len() ==> (#[trigger] words(s)[i]).len() > 0 && forall|j: int|
                0 <= j < words(s)[i].len() ==> !white_space(#[trigger] words(s)[i][j]),
    decreases s.len(),
{
    if s.len() == 0 {
    } else if white_space(s[0]) {
        lemma_words(s.drop_first());
        assert(words(s) == words(s.drop_first()));
    } else {
        lemma_word_len(s);
        let n = word_len(s) as int;
        let rest = words(s.skip(n));
        lemma_words(s.skip(n));
        assert forall|i: int| 0 <= i < words(s).len() implies (#[trigger] words(s)[i]).len() > 0
            && forall|j: int| 0 <= j < words(s)[i].len() ==> !white_space(#[trigger] words(s)[i][j]) by {
            if i == 0 {
                assert(words(s)[0] == s.take(n));
            } else {
                assert(words(s)[i] == rest[i - 1]);
            }
        }
    }
}

proof fn lemma_joined_single_spaced(pieces: Seq<Seq<char>>)
    requires
        forall|i: int|
            0 <= i < pieces.len() ==> (#[trigger] pieces[i]).len() > 0 && forall|j: int|
                0 <= j < pieces[i].len() ==> !white_space(#[trigger] pieces[i][j]),
    ensures
        single_spaced(joined(pieces, seq![' '])),
        pieces.len() > 0 ==> {
            &&& joined(pieces, seq![' ']).len() > 0
            &&& !white_space(joined(pieces, seq![' '])[0])
            &&& !white_space(joined(pieces, seq![' ']).last())
        },
    decreases pieces.len(),
{
    if pieces.len() == 1 {
        assert(pieces[0].len() > 0);
        assert(!white_space(pieces[0][0]));
        assert(!white_space(pieces[0][pieces[0].len() - 1]));
    } else if pieces.len() > 1 {
        let front = pieces.drop_last();
        let back = pieces.last();
        let whole = joined(pieces, seq![' ']);
        lemma_joined_single_spaced(front);
        assert(back == pieces[pieces.len() - 1]);
        assert(!white_space(back[0]) && !white_space(back[back.len() - 1]));
        let n = joined(front, seq![' ']).len() as int;
        assert forall|i: int| 0 <= i < whole.len() && white_space(#[trigger] whole[i]) implies {
            &&& whole[i] == ' '
            &&& 0 < i < whole.len() - 1
            &&& !white_space(whole[i - 1])
            &&& !white_space(whole[i + 1])
        } by {
            if i < n {
                assert(whole[i] == joined(front, seq![' '])[i]);
            } else if i > n {
                assert(whole[i] == back[i - n - 1]);
            }
        }
    }
}

/// What is left of the white space of a compacted text is single spaces between
/// its words.
pub proof fn law_compacted_single_spaced(s: Seq<char>)
    ensures
        single_spaced(compacted(s)),
{
    lemma_words(s);
    lemma_joined_single_spaced(words(s));
}

proof fn lemma_word_len_before_space(front: Seq<char>, back: Seq<char>)
    ensures
        word_len(front + seq![' '] + back) == word_len(front),
    decreases front.len(),
{
    let whole = front + seq![' '] + back;
    if front.len() > 0 && !white_space(front[0]) {
        assert(whole.drop_first() =~= front.drop_first() + seq![' '] + back);
        lemma_word_len_before_space(front.drop_first(), back);
    }
}

proof fn lemma_words_around_space(front: Seq<char>, back: Seq<char>)
    ensures
        words(front + seq![' '] + back) == words(front) + words(back),
    decreases front.len(),
{
    let whole = front + seq![' '] + back;
    if front.len() == 0 {
        assert(whole.drop_first() =~= back);
        assert(words(whole) =~= words(front) + words(back));
    } else if white_space(front[0]) {
        assert(whole.drop_first() =~= front.drop_first() + seq![' '] + back);
        lemma_words_around_space(front.drop_first(), back);
    } else {
        lemma_word_len(front);
        lemma_word_len_before_space(front, back);
        let n = word_len(front) as int;
        assert(whole.take(n) =~= front.take(n));
        assert(whole.skip(n) =~= front.skip(n) + seq![' '] + back);
        lemma_words_around_space(front.skip(n), back);
        assert(words(whole) =~= words(front) + words(back));
    }
}

proof fn lemma_words_of_joined(pieces: Seq<Seq<char>>)
    requires
        forall|i: int|
            0 <= i < pieces.len() ==> (#[trigger] pieces[i]).len() > 0 && forall|j: int|
                0 <= j < pieces[i].len() ==> !white_space(#[trigger] pieces[i][j]),
    ensures
        words(joined(pieces, seq![' '])) == pieces,
    decreases pieces.len(),
{
    if pieces.len() > 0 {
        let last = pieces.last();
        assert(last == pieces[pieces.len() - 1]);
        assert(words(last) =~= seq![last]) by {
            lemma_word_len(last);
            assert(!white_space(last[0]));
            assert(word_len(last) == last.len());
            assert(last.take(last.len() as int) =~= last);
            assert(last.skip(last.len() as int) =~= Seq::<char>::empty());
            assert(words(Seq::<char>::empty()) =~= Seq::<Seq<char>>::empty());
        }
        if pieces.len() > 1 {
            lemma_words_of_joined(pieces.drop_last());
            lemma_words_around_space(joined(pieces.drop_last(), seq![' ']), last);
        }
        assert(words(joined(pieces, seq![' '])) =~= pieces);
    }
}

/// A compacted text has the words of the text, and compacting it again changes
/// nothing.
pub proof fn law_compacted_keeps_words(s: Seq<char>)
    ensures
        words(compacted(s)) == words(s),
        compacted(compacted(s)) == compacted(s),
{
    lemma_words(s);
    lemma_words_of_joined(words(s));
}

/// Whether `pattern` stands in `chars` at position `at`.
pub fn matches_at(chars: &Vec<char>, at: usize, pattern: &Vec<char>) -> (result: bool)
    requires
        at <= chars.len(),
    ensures
        result == stands_at(chars@, at as int, pattern@),
{
    if chars.len() - at < pattern.len() {
        return false;
    }
    let mut i: usize = 0;
    while i < pattern.len()
        invariant
            i <= pattern.len(),
            at + pattern.len() <= chars.len(),
            chars@.subrange(at as int, at + i) =~= pattern@.take(i as int),
        decreases pattern.len() - i,
    {
        if chars[at + i] != pattern[i] {
            assert(chars@.subrange(at as int, at + pattern.len())[i as int] != pattern@[i as int]);
            return false;
        }
        i = i + 1;
    }
    assert(pattern@.take(i as int) =~= pattern@);
    true
}

/// Whether `piece` stands anywhere in `s`.
pub open spec fn holds(s: Seq<char>, piece: Seq<char>) -> bool {
    exists|at: int| stands_at(s, at, piece)
}

/// What starts and ends with something other than white space is not trimmed away.
pub proof fn lemma_trimmed_holds(s: Seq<char>, piece: Seq<char>)
    requires
        holds(s, piece),
        piece.len() > 0,
        !white_space(piece[0]),
        !white_space(piece.last()),
    ensures
        holds(trimmed(s), piece),
{
    lemma_trimmed_start_holds(s, piece);
    lemma_trimmed_end_holds(trimmed_start(s), piece);
}

proof fn lemma_trimmed_start_holds(s: Seq<char>, piece: Seq<char>)
    requires
        holds(s, piece),
        piece.len() > 0,
        !white_space(piece[0]),
    ensures
        holds(trimmed_start(s), piece),
    decreases s.len(),
{
    if s.len() > 0 && white_space(s[0]) {
        let at = choose|at: int| stands_at(s, at, piece);
        let rest = s.drop_first();
        assert(s.subrange(at, at + piece.len())[0] == s[at]);
        assert(rest.subrange(at - 1, at - 1 + piece.len()) =~= s.subrange(at, at + piece.len()));
        assert(stands_at(rest, at - 1, piece));
        lemma_trimmed_start_holds(rest, piece);
    }
}

proof fn lemma_trimmed_end_holds(s: Seq<char>, piece: Seq<char>)
    requires
        holds(s, piece),
        piece.len() > 0,
        !white_space(piece.last()),
    ensures
        holds(trimmed_end(s), piece),
    decreases s.len(),
{
    if s.len() > 0 && white_space(s.last()) {
        let at = choose|at: int| stands_at(s, at, piece);
        let rest = s.drop_last();
        let n = piece.len() as int;
        assert(s.subrange(at, at + n)[n - 1] == s[at + n - 1]);
        assert(rest.subrange(at, at + n) =~= s.subrange(at, at + n));
        assert(stands_at(rest, at, piece));
        lemma_trimmed_end_holds(rest, piece);
    }
}

/// Whether `t` is what is left of `s` from `from` on, with white space alone in
/// front of it and behind it.
pub open spec fn cut_out(s: Seq<char>, t: Seq<char>, from: int) -> bool {
    &&& stands_at(s, from, t)
    &&& forall|i: int| 0 <= i < from ==> white_space(#[trigger] s[i])
    &&& forall|i: int| from + t.len() <= i < s.len() ==> white_space(#[trigger] s[i])
}

proof fn lemma_trimmed_start_cut(s: Seq<char>) -> (n: int)
    ensures
        0 <= n <= s.len(),
        trimmed_start(s) == s.skip(n),
        forall|i: int| 0 <= i < n ==> white_space(#[trigger] s[i]),
        n < s.len() ==> !white_space(s[n]),
    decreases s.len(),
{
    if s.len() > 0 && white_space(s[0]) {
        let rest = s.drop_first();
        let n = lemma_trimmed_start_cut(rest);
        assert(s.skip(n + 1) =~= rest.skip(n));
        assert forall|i: int| 0 <= i < n + 1 implies white_space(#[trigger] s[i]) by {
            if i > 0 {
                assert(s[i] == rest[i - 1]);
            }
        }
        n + 1
    } else {
        assert(s.skip(0) =~= s);
        0
    }
}

proof fn lemma_trimmed_end_cut(s: Seq<char>) -> (n: int)
    ensures
        0 <= n <= s.len(),
        trimmed_end(s) == s.take(n),
        forall|i: int| n <= i < s.len() ==> white_space(#[trigger] s[i]),
        n > 0 ==> !white_space(s[n - 1]),
    decreases s.len(),
{
    if s.len() > 0 && white_space(s.last()) {
        let rest = s.drop_last();
        let n = lemma_trimmed_end_cut(rest);
        assert(s.take(n) =~= rest.take(n));
        assert forall|i: int| n <= i < s.len() implies white_space(#[trigger] s[i]) by {
            if i < rest.len() {
                assert(s[i] == rest[i]);
            }
        }
        n
    } else {
        assert(s.take(s.len() as int) =~= s);
        s.len() as int
    }
}

/// Trimming cuts a piece out of the text: all that is lost is white space at the two
/// ends, and none is left there.
pub proof fn law_trimming_loses_only_outer_space(s: Seq<char>)
    ensures
        exists|from: int| cut_out(s, trimmed(s), from),
        trimmed(s).len() > 0 ==> !white_space(trimmed(s)[0]) && !white_space(trimmed(s).last()),
        trimmed(s).len() == 0 <==> forall|i: int| 0 <= i < s.len() ==> white_space(#[trigger] s[i]),
{
    let from = lemma_trimmed_start_cut(s);
    let rest = trimmed_start(s);
    let n = lemma_trimmed_end_cut(rest);
    let t = trimmed(s);
    assert(s.subrange(from, from + n) =~= t);
    assert forall|i: int| from + n <= i < s.len() implies white_space(#[trigger] s[i]) by {
        assert(s[i] == rest[i - from]);
    }
    assert(cut_out(s, t, from));
    if t.len() > 0 {
        assert(rest[0] == s[from]);
        assert(t[0] == s[from] && t.last() == rest[n - 1]);
    } else {
        assert forall|i: int| 0 <= i < s.len() implies white_space(#[trigger] s[i]) by {}
    }
}

proof fn lemma_word_len_before_white(front: Seq<char>, c: char, back: Seq<char>)
    requires
        white_space(c),
    ensures
        word_len(front.push(c) + back) == word_len(front),
    decreases front.len(),
{
    let whole = front.push(c) + back;
    if front.len() > 0 && !white_space(front[0]) {
        assert(whole.drop_first() =~= front.drop_first().push(c) + back);
        lemma_word_len_before_white(front.drop_first(), c, back);
    }
}

/// White space splits words: what stands on its two sides has its own words, in
/// order.
pub proof fn law_white_space_splits_words(front: Seq<char>, c: char, back: Seq<char>)
    requires
        white_space(c),
    ensures
        words(front.push(c) + back) == words(front) + words(back),
    decreases front.len(),
{
    let whole = front.push(c) + back;
    if front.len() == 0 {
        assert(whole.drop_first() =~= back);
        assert(words(whole) =~= words(front) + words(back));
    } else if white_space(front[0]) {
        assert(whole.drop_first() =~= front.drop_first().push(c) + back);
        law_white_space_splits_words(front.drop_first(), c, back);
    } else {
        lemma_word_len(front);
        lemma_word_len_before_white(front, c, back);
        let n = word_len(front) as int;
        assert(whole.take(n) =~= front.take(n));
        assert(whole.skip(n) =~= front.skip(n).push(c) + back);
        law_white_space_splits_words(front.skip(n), c, back);
        assert(words(whole) =~= words(front) + words(back));
    }
}

/// A text without white space is one word, and an empty one is none.
pub proof fn law_text_without_space_is_one_word(s: Seq<char>)
    requires
        forall|i: int| 0 <= i < s.len() ==> !white_space(#[trigger] s[i]),
    ensures
        words(s) == if s.len() > 0 {
            seq![s]
        } else {
            Seq::empty()
        },
{
    if s.len() > 0 {
        lemma_word_len(s);
        assert(!white_space(s[0]));
        assert(word_len(s) == s.len());
        assert(s.take(s.len() as int) =~= s);
        assert(s.skip(s.len() as int) =~= Seq::<char>::empty());
        assert(words(Seq::<char>::empty()) =~= Seq::<Seq<char>>::empty());
        assert(words(s) =~= seq![s]);
    }
}

/// Joining two lists of pieces joins what each of them joins to; one piece is left as
/// it is.
pub proof fn law_joined_in_order(front: Seq<Seq<char>>, back: Seq<Seq<char>>, separator: Seq<char>)
    requires
        front.len() > 0,
        back.len() > 0,
    ensures
        joined(front + back, separator) == joined(front, separator) + separator + joined(
            back,
            separator,
        ),
        front.len() == 1 ==> joined(front, separator) == front[0],
        joined(Seq::empty(), separator).len() == 0,
    decreases back.len(),
{
    let whole = front + back;
    assert(whole.last() == back.last());
    if back.len() == 1 {
        assert(whole.drop_last() =~= front);
    } else {
        assert(whole.drop_last() =~= front + back.drop_last());
        law_joined_in_order(front, back.drop_last(), separator);
        assert(joined(whole, separator) =~= joined(front, separator) + separator + joined(
            back,
            separator,
        ));
    }
}

/// What is taken off the end of a text is a run of the one character, all of it.
pub proof fn law_only_the_run_is_taken_off(s: Seq<char>, c: char)
    ensures
        ({
            let left = without_trailing(s, c);
            &&& left.len() <= s.len()
            &&& left == s.take(left.len() as int)
            &&& left.len() > 0 ==> left.last() != c
            &&& forall|i: int| left.len() <= i < s.len() ==> #[trigger] s[i] == c
        }),
    decreases s.len(),
{
    if s.len() > 0 && s.last() == c {
        let rest = s.drop_last();
        law_only_the_run_is_taken_off(rest, c);
        let n = without_trailing(rest, c).len() as int;
        assert(s.take(n) =~= rest.take(n));
        assert forall|i: int| n <= i < s.len() implies #[trigger] s[i] == c by {
            if i < rest.len() {
                assert(s[i] == rest[i]);
            }
        }
    } else {
        assert(s.take(s.len() as int) =~= s);
    }
}

/// White space is what Unicode calls so, by the numbers of the characters.
pub proof fn law_white_space_by_number(c: char)
    ensures
        white_space(c) <==> {
            let n = c as u32;
            ||| 9 <= n <= 13
            ||| n == 32
            ||| n == 0x85
            ||| n == 0xa0
            ||| n == 0x1680
            ||| 0x2000 <= n <= 0x200a
            ||| n == 0x2028
            ||| n == 0x2029
            ||| n == 0x202f
            ||| n == 0x205f
            ||| n == 0x3000
        },
{
}

} // verus!
