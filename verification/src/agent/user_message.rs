//! What the agent puts around a user's message before the model sees it.
use vstd::prelude::*;

verus! {

/// A decimal digit.
pub open spec fn digit(c: char) -> bool {
    '0' <= c <= '9'
}

/// Whether two decimal digits stand at `at` and make a number from `low` to `high`.
pub open spec fn two_digits(s: Seq<char>, at: int, low: int, high: int) -> bool {
    &&& 0 <= at
    &&& at + 2 <= s.len()
    &&& digit(s[at])
    &&& digit(s[at + 1])
    &&& low <= (s[at] as int - '0' as int) * 10 + (s[at + 1] as int - '0' as int) <= high
}

/// A year of `len` characters: four digits, or a sign and at least four digits.
pub open spec fn year(s: Seq<char>, len: int) -> bool {
    &&& 4 <= len <= s.len()
    &&& if digit(s[0]) {
        len == 4
    } else {
        len >= 5 && (s[0] == '+' || s[0] == '-')
    }
    &&& forall|i: int| 1 <= i < len ==> digit(#[trigger] s[i])
}

/// How far a time zone is from UTC, up to the end of the text: a sign, the hours and
/// the minutes, and the seconds where there are any.
pub open spec fn zone_at(s: Seq<char>, at: int) -> bool {
    &&& 0 <= at
    &&& s.len() == at + 6 || s.len() == at + 9
    &&& s[at] == '+' || s[at] == '-'
    &&& two_digits(s, at + 1, 0, 23)
    &&& s[at + 3] == ':'
    &&& two_digits(s, at + 4, 0, 59)
    &&& s.len() == at + 9 ==> s[at + 6] == ':' && two_digits(s, at + 7, 1, 59)
}

/// A year, a month, a day, an hour, a minute and a second, then a time zone, as in
/// `2026-04-17 10:00:00 +02:00`. `year_len` is the length of the year. In a leap
/// second the seconds are 60.
pub open spec fn timestamp_with(s: Seq<char>, year_len: int) -> bool {
    &&& year_len + 16 <= s.len()
    &&& year(s, year_len)
    &&& s[year_len] == '-'
    &&& two_digits(s, year_len + 1, 1, 12)
    &&& s[year_len + 3] == '-'
    &&& two_digits(s, year_len + 4, 1, 31)
    &&& s[year_len + 6] == ' '
    &&& two_digits(s, year_len + 7, 0, 23)
    &&& s[year_len + 9] == ':'
    &&& two_digits(s, year_len + 10, 0, 59)
    &&& s[year_len + 12] == ':'
    &&& two_digits(s, year_len + 13, 0, 60)
    &&& s[year_len + 15] == ' '
    &&& zone_at(s, year_len + 16)
}

/// A text of the form that [`format_now`] gives.
pub open spec fn timestamp(s: Seq<char>) -> bool {
    exists|year_len: int| timestamp_with(s, year_len)
}

/// Calls `chrono::Local::now` and gives the moment's `format` with the pattern as
/// a text. Claimed of every moment and every time zone: the fields come in the
/// pattern's order, zero-padded and within their ranges, with its separators between
/// them, and the zone is written as its distance from UTC. Which moment it is stays
/// open. `Local::now` panics where the machine's clock stands before
/// 1970.
#[verifier::external_body]
fn local_time(pattern: &str) -> (text: String)
    requires
        pattern@ == "%Y-%m-%d %H:%M:%S %Z"@,
    ensures
        timestamp(text@),
{
    chrono::Local::now().format(pattern).to_string()
}

/// The local time now, in the form that stands in front of a user's message.
pub fn format_now() -> (text: String)
    ensures
        timestamp(text@),
{
    local_time("%Y-%m-%d %H:%M:%S %Z")
}

/// A user's message with the time in front of it, and the memory context in front
/// of that.
pub open spec fn enriched(now: Seq<char>, raw: Seq<char>, mem_context: Seq<char>) -> Seq<char> {
    mem_context + seq!['['] + now + seq![']', ' '] + raw
}

/// Builds the user-message content that is sent to the model.
///
/// The time of the turn (`[now]`) stands here and not in the system message, so
/// that the system message is the same, byte for byte, from turn to turn and a
/// provider that caches prompts by their prefix can reuse it.
///
/// `mem_context` is what the caller wants to stand in front of it all; it may be
/// empty.
pub fn enrich_user_message(now: &str, raw: &str, mem_context: &str) -> (message: String)
    ensures
        message@ == enriched(now@, raw@, mem_context@),
{
    let mut message = String::new();
    if !mem_context.is_empty() {
        message.append(mem_context);
    }
    message.append("[");
    message.append(now);
    message.append("] ");
    message.append(raw);
    proof {
        reveal_strlit("[");
        reveal_strlit("] ");
        assert(message@ =~= enriched(now@, raw@, mem_context@));
    }
    message
}

/// The user's own words stand unchanged at the end of the message, behind the
/// time in square brackets.
pub proof fn law_enriched_ends_with_raw(now: Seq<char>, raw: Seq<char>, mem_context: Seq<char>)
    ensures
        ({
            let message = enriched(now, raw, mem_context);
            let front = mem_context.len() + now.len() + 3;
            &&& message.len() == front + raw.len()
            &&& message.skip(front as int) == raw
            &&& message.subrange(mem_context.len() as int, front as int) == seq!['['] + now + seq![
                ']',
                ' ',
            ]
        }),
{
    let message = enriched(now, raw, mem_context);
    let front = mem_context.len() + now.len() + 3;
    assert(message.skip(front as int) =~= raw);
    assert(message.subrange(mem_context.len() as int, front as int) =~= seq!['['] + now + seq![
        ']',
        ' ',
    ]);
}

/// A memory context changes nothing of the message but what stands in front.
pub proof fn law_context_only_prepends(now: Seq<char>, raw: Seq<char>, mem_context: Seq<char>)
    ensures
        enriched(now, raw, mem_context) == mem_context + enriched(now, raw, Seq::empty()),
{
    assert(enriched(now, raw, mem_context) =~= mem_context + enriched(now, raw, Seq::empty()));
}

/// A timestamp of a year without a sign has its separators in fixed places and
/// digits before the zone everywhere else.
pub proof fn law_separators_stand_fixed(s: Seq<char>)
    requires
        timestamp(s),
        digit(s[0]),
    ensures
        s.len() == 26 || s.len() == 29,
        s[4] == '-' && s[7] == '-' && s[10] == ' ' && s[13] == ':' && s[16] == ':' && s[19] == ' ',
        forall|i: int|
            0 <= i < 19 && i != 4 && i != 7 && i != 10 && i != 13 && i != 16 ==> digit(
                #[trigger] s[i],
            ),
{
    let year_len = choose|year_len: int| timestamp_with(s, year_len);
    assert(year_len == 4);
    assert forall|i: int|
        0 <= i < 19 && i != 4 && i != 7 && i != 10 && i != 13 && i != 16 implies digit(
        #[trigger] s[i],
    ) by {
        assert(i < 4 || i == 5 || i == 6 || i == 8 || i == 9 || i == 11 || i == 12 || i == 14 || i
            == 15 || i == 17 || i == 18);
    }
}

/// No square bracket stands in a timestamp.
pub proof fn lemma_timestamp_without_brackets(s: Seq<char>)
    requires
        timestamp(s),
    ensures
        forall|i: int| 0 <= i < s.len() ==> #[trigger] s[i] != '[',
        s.len() > 0 && s[0] != 'I',
{
    let n = choose|year_len: int| timestamp_with(s, year_len);
    assert forall|i: int| 0 <= i < s.len() implies #[trigger] s[i] != '[' by {
        let k = i - n;
        assert(i < n || k == 0 || k == 1 || k == 2 || k == 3 || k == 4 || k == 5 || k == 6 || k == 7
            || k == 8 || k == 9 || k == 10 || k == 11 || k == 12 || k == 13 || k == 14 || k == 15
            || k == 16 || k == 17 || k == 18 || k == 19 || k == 20 || k == 21 || k == 22 || k == 23
            || k == 24);
    }
}

} // verus!
