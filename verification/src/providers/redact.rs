//! Keeping API keys out of error messages.
use crate::text::{
    characters, compact, compacted, joined, matches_at, stands_at, white_space, word_len, words,
};
use vstd::prelude::*;

verus! {

/// What an API key starts with.
pub const KEY_START: &'static str = "sk-";

/// What stands in place of an API key.
pub const REDACTED: &'static str = "[REDACTED]";

/// A character that can stand in an API key.
pub open spec fn key_char(c: char) -> bool {
    ||| 'a' <= c <= 'z'
    ||| 'A' <= c <= 'Z'
    ||| '0' <= c <= '9'
    ||| c == '-'
    ||| c == '_'
    ||| c == '.'
    ||| c == ':'
}

/// Whether an API key stands in `s` at position `at`: its start and at least one
/// character more.
pub open spec fn key_at(s: Seq<char>, at: int) -> bool {
    &&& stands_at(s, at, KEY_START@)
    &&& at + KEY_START@.len() < s.len()
    &&& key_char(s[at + KEY_START@.len()])
}

/// Whether an API key stands anywhere in `s`.
pub open spec fn holds_key(s: Seq<char>) -> bool {
    exists|at: int| key_at(s, at)
}

/// How many characters at the start of a text can stand in an API key.
pub open spec fn key_len(s: Seq<char>) -> nat
    decreases s.len(),
{
    if s.len() > 0 && key_char(s[0]) {
        1 + key_len(s.drop_first())
    } else {
        0
    }
}

/// How long the API key is that starts a text.
pub open spec fn token_len(s: Seq<char>) -> nat {
    KEY_START@.len() + key_len(s.skip(KEY_START@.len() as int))
}

/// A text with each API key replaced.
pub open spec fn redacted(s: Seq<char>) -> Seq<char>
    decreases s.len(),
{
    if s.len() == 0 {
        Seq::empty()
    } else if key_at(s, 0) {
        proof {
            lemma_key_len(s.skip(KEY_START@.len() as int));
        }
        REDACTED@ + redacted(s.skip(token_len(s) as int))
    } else {
        seq![s[0]] + redacted(s.drop_first())
    }
}

/// The characters of a key end at one that cannot stand in it, or at the end of
/// the text.
pub proof fn lemma_key_len(s: Seq<char>)
    ensures
        key_len(s) <= s.len(),
        forall|i: int| 0 <= i < key_len(s) ==> key_char(#[trigger] s[i]),
        key_len(s) < s.len() ==> !key_char(s[key_len(s) as int]),
        s.len() > 0 && key_char(s[0]) ==> key_len(s) > 0,
    decreases s.len(),
{
    if s.len() > 0 && key_char(s[0]) {
        lemma_key_len(s.drop_first());
        assert forall|i: int| 0 <= i < key_len(s) implies key_char(#[trigger] s[i]) by {
            if i > 0 {
                assert(s[i] == s.drop_first()[i - 1]);
            }
        }
    }
}

fn is_key_char(c: char) -> (result: bool)
    ensures
        result == key_char(c),
{
    ('a' <= c && c <= 'z') || ('A' <= c && c <= 'Z') || ('0' <= c && c <= '9') || c == '-' || c
        == '_' || c == '.' || c == ':'
}

proof fn lemma_key_at_skip(s: Seq<char>, at: int)
    requires
        0 <= at <= s.len(),
    ensures
        key_at(s, at) == key_at(s.skip(at), 0),
{
    let n = KEY_START@.len();
    if at + n <= s.len() {
        assert(s.subrange(at, at + n) =~= s.skip(at).subrange(0, n as int));
    }
}

/// Replaces each API key in a text that came from an API.
pub fn sanitize_api_error(input: &str) -> (clean: String)
    ensures
        clean@ == redacted(input@),
        !holds_key(clean@),
{
    let chars = characters(input);
    let key_start = characters(KEY_START);
    let mut clean = String::new();
    // What stands from `pending` up to `at` holds no start of a key.
    let mut pending: usize = 0;
    let mut at: usize = 0;
    proof {
        assert(input@.skip(0) =~= input@);
        assert(clean@ + input@.subrange(0, 0) + redacted(input@) =~= redacted(input@));
    }
    while at < chars.len()
        invariant
            pending <= at <= chars.len(),
            chars@ == input@,
            key_start@ == KEY_START@,
            redacted(input@) == clean@ + input@.subrange(pending as int, at as int) + redacted(
                input@.skip(at as int),
            ),
        decreases chars.len() - at,
    {
        let ghost rest = input@.skip(at as int);
        proof {
            lemma_key_at_skip(input@, at as int);
        }
        if matches_at(&chars, at, &key_start) && chars.len() - at > key_start.len()
            && is_key_char(chars[at + key_start.len()]) {
            let inside: usize = at + key_start.len();
            let mut end: usize = inside;
            let ghost tail = rest.skip(KEY_START@.len() as int);
            proof {
                assert(tail =~= input@.skip(inside as int));
                lemma_key_len(tail);
            }
            while end < chars.len() && is_key_char(chars[end])
                invariant
                    inside <= end <= chars.len(),
                    chars@ == input@,
                    tail == input@.skip(inside as int),
                    end - inside <= key_len(tail),
                    key_len(tail) <= tail.len(),
                    forall|i: int| 0 <= i < key_len(tail) ==> key_char(#[trigger] tail[i]),
                    key_len(tail) < tail.len() ==> !key_char(tail[key_len(tail) as int]),
                decreases chars.len() - end,
            {
                assert(tail[end - inside] == chars@[end as int]);
                end = end + 1;
            }
            proof {
                assert(end - inside == key_len(tail)) by {
                    if end < chars.len() && end - inside < key_len(tail) {
                        assert(tail[end - inside] == chars@[end as int]);
                    }
                }
            }
            clean.append(input.substring_char(pending, at));
            clean.append(REDACTED);
            proof {
                assert(rest.skip(token_len(rest) as int) =~= input@.skip(end as int));
                assert(input@.subrange(end as int, end as int) =~= Seq::<char>::empty());
                assert(redacted(input@) =~= clean@ + input@.subrange(end as int, end as int)
                    + redacted(input@.skip(end as int)));
            }
            pending = end;
            at = end;
        } else {
            proof {
                assert(rest.drop_first() =~= input@.skip(at + 1));
                assert(redacted(input@) =~= clean@ + input@.subrange(pending as int, at + 1)
                    + redacted(input@.skip(at + 1)));
            }
            at = at + 1;
        }
    }
    clean.append(input.substring_char(pending, at));
    proof {
        assert(input@.skip(at as int) =~= Seq::<char>::empty());
        assert(redacted(input@) =~= clean@);
        law_redacted_holds_no_key(input@);
    }
    clean
}

/// No API key is left in a text once its keys have been replaced.
pub proof fn law_redacted_holds_no_key(s: Seq<char>)
    ensures
        !holds_key(redacted(s)),
    decreases s.len(),
{
    reveal_strlit("sk-");
    reveal_strlit("[REDACTED]");
    let out = redacted(s);
    if s.len() == 0 {
        assert forall|at: int| !key_at(out, at) by {}
    } else if key_at(s, 0) {
        lemma_key_len(s.skip(KEY_START@.len() as int));
        let rest = s.skip(token_len(s) as int);
        law_redacted_holds_no_key(rest);
        assert forall|at: int| !key_at(out, at) by {
            if key_at(out, at) {
                assert(out.subrange(at, at + 3)[0] == 's');
                assert(out[at] == 's');
                assert(at >= REDACTED@.len());
                lemma_key_at_suffix(REDACTED@, redacted(rest), at);
                assert(key_at(redacted(rest), at - REDACTED@.len()));
            }
        }
    } else {
        let rest = s.drop_first();
        law_redacted_holds_no_key(rest);
        assert forall|at: int| !key_at(out, at) by {
            if key_at(out, at) {
                if at > 0 {
                    lemma_key_at_suffix(seq![s[0]], redacted(rest), at);
                    assert(key_at(redacted(rest), at - 1));
                } else {
                    // The four characters in question were there before.
                    let window = out.subrange(0, 3);
                    assert(window[0] == 's' && window[1] == 'k' && window[2] == '-');
                    lemma_redacted_head(rest);
                    assert(redacted(rest)[0] == 'k');
                    lemma_redacted_head(rest.drop_first());
                    assert(redacted(rest).drop_first()[0] == '-');
                    lemma_redacted_head(rest.drop_first().drop_first());
                    assert(redacted(rest).drop_first().drop_first()[0] == out[3]);
                    assert(s[0] == 's' && s[1] == 'k' && s[2] == '-' && s[3] == out[3]);
                    assert(s.subrange(0, 3) =~= KEY_START@);
                    assert(key_at(s, 0));
                }
            }
        }
    }
}

proof fn lemma_key_at_suffix(front: Seq<char>, back: Seq<char>, at: int)
    requires
        at >= front.len(),
    ensures
        key_at(front + back, at) == key_at(back, at - front.len()),
{
    let n = KEY_START@.len();
    if at + n <= front.len() + back.len() {
        assert((front + back).subrange(at, at + n) =~= back.subrange(
            at - front.len(),
            at - front.len() + n,
        ));
    }
}

/// A redacted text that does not start with a square bracket starts as the text did.
proof fn lemma_redacted_head(s: Seq<char>)
    requires
        redacted(s).len() > 0,
        redacted(s)[0] != '[',
    ensures
        s.len() > 0,
        redacted(s)[0] == s[0],
        redacted(s).drop_first() == redacted(s.drop_first()),
{
    reveal_strlit("[REDACTED]");
    if s.len() > 0 {
        assert(!key_at(s, 0));
        assert(redacted(s).drop_first() =~= redacted(s.drop_first()));
    }
}

/// A response body as an error message quotes it: its API keys replaced, its white
/// space compacted.
pub open spec fn snippet(body: Seq<char>) -> Seq<char> {
    compacted(redacted(body))
}

/// Makes a response body fit for an error message.
pub fn sanitized_snippet(body: &str) -> (quoted: String)
    ensures
        quoted@ == snippet(body@),
{
    compact(sanitize_api_error(body).as_str())
}

/// The quoted body holds no API key, on one line, with single spaces.
pub proof fn law_snippet_holds_no_key(body: Seq<char>)
    ensures
        !holds_key(snippet(body)),
        crate::text::single_spaced(snippet(body)),
{
    law_redacted_holds_no_key(body);
    crate::text::law_compacted_single_spaced(redacted(body));
    lemma_words_hold_no_key(redacted(body));
    lemma_joined_holds_no_key(words(redacted(body)));
}

proof fn lemma_part_holds_no_key(s: Seq<char>, from: int, to: int)
    requires
        !holds_key(s),
        0 <= from <= to <= s.len(),
    ensures
        !holds_key(s.subrange(from, to)),
{
    let part = s.subrange(from, to);
    let n = KEY_START@.len();
    assert forall|at: int| !key_at(part, at) by {
        if key_at(part, at) {
            assert(part.subrange(at, at + n) =~= s.subrange(from + at, from + at + n));
            assert(key_at(s, from + at));
        }
    }
}

proof fn lemma_words_hold_no_key(s: Seq<char>)
    requires
        !holds_key(s),
    ensures
        forall|i: int| 0 <= i < words(s).len() ==> !holds_key(#[trigger] words(s)[i]),
    decreases s.len(),
{
    if s.len() == 0 {
    } else if white_space(s[0]) {
        lemma_part_holds_no_key(s, 1, s.len() as int);
        lemma_words_hold_no_key(s.drop_first());
        assert(words(s) == words(s.drop_first()));
    } else {
        crate::text::lemma_word_len(s);
        let n = word_len(s) as int;
        let rest = words(s.skip(n));
        lemma_part_holds_no_key(s, 0, n);
        lemma_part_holds_no_key(s, n, s.len() as int);
        lemma_words_hold_no_key(s.skip(n));
        assert forall|i: int| 0 <= i < words(s).len() implies !holds_key(#[trigger] words(s)[i]) by {
            if i > 0 {
                assert(words(s)[i] == rest[i - 1]);
            }
        }
    }
}

proof fn lemma_joined_holds_no_key(pieces: Seq<Seq<char>>)
    requires
        forall|i: int| 0 <= i < pieces.len() ==> !holds_key(#[trigger] pieces[i]),
    ensures
        !holds_key(joined(pieces, seq![' '])),
    decreases pieces.len(),
{
    reveal_strlit("sk-");
    let whole = joined(pieces, seq![' ']);
    if pieces.len() == 0 {
        assert forall|at: int| !key_at(whole, at) by {}
    } else if pieces.len() > 1 {
        lemma_joined_holds_no_key(pieces.drop_last());
        let front = joined(pieces.drop_last(), seq![' ']);
        let back = pieces.last();
        let n = front.len() as int;
        assert(!holds_key(pieces[pieces.len() - 1]));
        assert forall|at: int| !key_at(whole, at) by {
            if key_at(whole, at) {
                let window = whole.subrange(at, at + 3);
                assert(window[0] == whole[at] && window[1] == whole[at + 1] && window[2]
                    == whole[at + 2]);
                assert(whole[n] == ' ');
                if at > n {
                    lemma_key_at_suffix(front + seq![' '], back, at);
                    assert(key_at(back, at - n - 1));
                } else {
                    assert(at + 3 < n);
                    assert(front.subrange(at, at + 3) =~= window);
                    assert(key_at(front, at));
                }
            }
        }
    }
}

/// Two texts without API keys make none where they meet at a character that cannot
/// stand in one.
pub proof fn lemma_apart_hold_no_key(front: Seq<char>, back: Seq<char>)
    requires
        !holds_key(front),
        !holds_key(back),
        front.len() > 0 ==> back.len() > 0 ==> !key_char(front.last()) || !key_char(back[0]),
    ensures
        !holds_key(front + back),
{
    reveal_strlit("sk-");
    let whole = front + back;
    let n = front.len() as int;
    assert forall|at: int| !key_at(whole, at) by {
        if key_at(whole, at) {
            let window = whole.subrange(at, at + 3);
            assert(window[0] == whole[at] && window[1] == whole[at + 1] && window[2] == whole[at
                + 2]);
            if at >= n {
                lemma_key_at_suffix(front, back, at);
                assert(key_at(back, at - n));
            } else if at + 3 < n {
                assert(front.subrange(at, at + 3) =~= window);
                assert(key_at(front, at));
            } else {
                assert(whole[n - 1] == front.last() && whole[n] == back[0]);
            }
        }
    }
}

/// A text without a hyphen holds no API key.
pub proof fn lemma_no_hyphen_no_key(s: Seq<char>)
    requires
        forall|i: int| 0 <= i < s.len() ==> #[trigger] s[i] != '-',
    ensures
        !holds_key(s),
{
    reveal_strlit("sk-");
    assert forall|at: int| !key_at(s, at) by {
        if key_at(s, at) {
            assert(s.subrange(at, at + 3)[2] == s[at + 2]);
        }
    }
}

proof fn lemma_redacted_after_text(s: Seq<char>, n: int)
    requires
        0 <= n <= s.len(),
        forall|i: int| 0 <= i < n ==> !key_at(s, i),
    ensures
        redacted(s) == s.take(n) + redacted(s.skip(n)),
    decreases n,
{
    if n > 0 {
        let rest = s.drop_first();
        assert(!key_at(s, 0));
        assert forall|i: int| 0 <= i < n - 1 implies !key_at(rest, i) by {
            assert(!key_at(s, i + 1));
            lemma_key_at_skip(s, i + 1);
            lemma_key_at_skip(rest, i);
            assert(rest.skip(i) =~= s.skip(i + 1));
        }
        lemma_redacted_after_text(rest, n - 1);
        assert(rest.skip(n - 1) =~= s.skip(n));
        assert(redacted(s) =~= s.take(n) + redacted(s.skip(n)));
    } else {
        assert(s.skip(0) =~= s);
        assert(redacted(s) =~= s.take(0) + redacted(s.skip(0)));
    }
}

proof fn lemma_key_len_of_token(token: Seq<char>, back: Seq<char>)
    requires
        forall|i: int| 0 <= i < token.len() ==> key_char(#[trigger] token[i]),
        back.len() > 0 ==> !key_char(back[0]),
    ensures
        key_len(token + back) == token.len(),
    decreases token.len(),
{
    if token.len() > 0 {
        let rest = token.drop_first();
        assert(key_char(token[0]));
        assert((token + back).drop_first() =~= rest + back);
        assert forall|i: int| 0 <= i < rest.len() implies key_char(#[trigger] rest[i]) by {
            assert(rest[i] == token[i + 1]);
        }
        lemma_key_len_of_token(rest, back);
    } else {
        assert(token + back =~= back);
    }
}

/// A text in which no API key stands is left as it is.
pub proof fn law_text_without_keys_is_kept(s: Seq<char>)
    requires
        !holds_key(s),
    ensures
        redacted(s) == s,
{
    assert forall|i: int| 0 <= i < s.len() implies !key_at(s, i) by {}
    lemma_redacted_after_text(s, s.len() as int);
    assert(redacted(s) =~= s);
}

/// The first API key of a text, `sk-` and all the characters of a key that follow it,
/// is replaced by `[REDACTED]`; what stands in front of it is kept, and the rest is
/// treated in the same way.
pub proof fn law_first_key_is_replaced(front: Seq<char>, token: Seq<char>, back: Seq<char>)
    requires
        forall|i: int| 0 <= i < front.len() ==> !key_at(front + "sk-"@ + token + back, i),
        token.len() > 0,
        forall|i: int| 0 <= i < token.len() ==> key_char(#[trigger] token[i]),
        back.len() > 0 ==> !key_char(back[0]),
    ensures
        redacted(front + "sk-"@ + token + back) == front + "[REDACTED]"@ + redacted(back),
{
    reveal_strlit("sk-");
    let start = "sk-"@;
    let whole = front + start + token + back;
    let n = front.len() as int;
    lemma_redacted_after_text(whole, n);
    let rest = whole.skip(n);
    assert(whole.take(n) =~= front);
    assert(rest =~= start + token + back);
    assert(rest.subrange(0, 3) =~= start);
    assert(rest[3] == token[0]);
    assert(key_at(rest, 0));
    assert(rest.skip(3) =~= token + back);
    lemma_key_len_of_token(token, back);
    assert(rest.skip(token_len(rest) as int) =~= back);
    assert(redacted(whole) =~= front + "[REDACTED]"@ + redacted(back));
}

/// The characters of a key are the letters and digits of ASCII and four signs.
pub proof fn law_key_characters(c: char)
    ensures
        key_char(c) <==> {
            let code = c as u32;
            48 <= code <= 58 || 65 <= code <= 90 || 97 <= code <= 122 || code == 45 || code == 46
                || code == 95
        },
{
}

/// A quoted body has the words of the redacted body, in order.
pub proof fn law_snippet_keeps_words(body: Seq<char>)
    ensures
        words(snippet(body)) == words(redacted(body)),
{
    crate::text::law_compacted_keeps_words(redacted(body));
}

} // verus!
