//! What a message says, as the API takes it.
use crate::agent::user_message::{
    enriched, law_context_only_prepends, lemma_timestamp_without_brackets, timestamp,
};
use crate::multimodal::{
    image_markers, law_no_marker_no_image, lemma_markers_apart, lemma_text_before_markers,
    parse_image_markers, unfinished_marker, IMAGE_MARKER_START,
};
use crate::providers::openrouter::OpenRouterProvider;
use crate::providers::traits::{ChatMessage, ChatMessageView};
use crate::providers::wire::{
    CacheControl, ContentView, ImageUrlPart, MessageContent, MessagePart, PartView,
};
use crate::text::{
    holds, law_trimming_loses_only_outer_space, lemma_trimmed_holds, same_text, stands_at, trim,
    trimmed, white_space,
};
use vstd::prelude::*;

verus! {

/// A text part that asks for no caching.
pub open spec fn plain_part(text: Seq<char>) -> PartView {
    PartView::Text { text, cache_control: None }
}

/// A text part that ends what is to be cached.
pub open spec fn cached_part(text: Seq<char>) -> PartView {
    PartView::Text { text, cache_control: Some("ephemeral"@) }
}

/// Whether a stable prefix counts: it is there, and it is not blank.
pub open spec fn has_stable_prefix(stable_prefix: Option<Seq<char>>) -> bool {
    stable_prefix is Some && trimmed(stable_prefix->0).len() > 0
}

/// What a system message says. The stable prefix, where there is one that is not
/// blank, is a part of its own with the mark for the cache; what changes follows
/// it without a mark, unless it is empty.
pub open spec fn system_content(
    stable_prefix: Option<Seq<char>>,
    content: Seq<char>,
) -> ContentView {
    if has_stable_prefix(stable_prefix) {
        ContentView::Parts(
            if content.len() > 0 {
                seq![cached_part(stable_prefix->0), plain_part(content)]
            } else {
                seq![cached_part(stable_prefix->0)]
            },
        )
    } else {
        ContentView::Parts(seq![cached_part(content)])
    }
}

/// The part that shows an image.
pub open spec fn image_part(url: Seq<char>) -> PartView {
    PartView::ImageUrl { url }
}

/// What a message of any role but `system` says. In a user's message each image
/// marker becomes a part behind the text.
pub open spec fn other_content(role: Seq<char>, content: Seq<char>) -> ContentView {
    let text = trimmed(image_markers(content).0);
    let images = image_markers(content).1;
    if role != "user"@ || images.len() == 0 {
        ContentView::Text(content)
    } else {
        ContentView::Parts(
            (if text.len() > 0 {
                seq![plain_part(text)]
            } else {
                Seq::empty()
            }) + images.map_values(|url: Seq<char>| image_part(url)),
        )
    }
}

/// What a message says.
pub open spec fn message_content(message: ChatMessageView) -> ContentView {
    if message.role == "system"@ {
        system_content(message.stable_prefix, message.content)
    } else {
        other_content(message.role, message.content)
    }
}

impl OpenRouterProvider {
    /// Builds what a system message says, with the end of what is to be cached
    /// between the stable prefix and the rest. Where the prefix is blank or there
    /// is none, all of the content is to be cached.
    pub fn system_message_content(stable_prefix: Option<&str>, content: &str) -> (said:
        MessageContent)
        ensures
            said.deep_view() == system_content(stable_prefix.deep_view(), content@),
    {
        let mut blocks: Vec<MessagePart> = Vec::new();
        match stable_prefix {
            Some(stable) => {
                if !trim(stable).is_empty() {
                    blocks.push(
                        MessagePart::Text {
                            text: stable.to_string(),
                            cache_control: Some(CacheControl::ephemeral()),
                        },
                    );
                    // A part without a text is refused by some of the models.
                    if !content.is_empty() {
                        blocks.push(
                            MessagePart::Text { text: content.to_string(), cache_control: None },
                        );
                    }
                    proof {
                        if content@.len() > 0 {
                            assert(blocks.deep_view() =~= seq![
                                cached_part(stable@),
                                plain_part(content@),
                            ]);
                        } else {
                            assert(blocks.deep_view() =~= seq![cached_part(stable@)]);
                        }
                    }
                    return MessageContent::Parts(blocks);
                }
            },
            None => {},
        }
        blocks.push(
            MessagePart::Text {
                text: content.to_string(),
                cache_control: Some(CacheControl::ephemeral()),
            },
        );
        assert(blocks.deep_view() =~= seq![cached_part(content@)]);
        MessageContent::Parts(blocks)
    }

    /// Builds what a message of any role but `system` says. A system message goes
    /// through [`OpenRouterProvider::system_message_content`], so that it keeps its
    /// mark for the cache.
    pub fn to_message_content(role: &str, content: &str) -> (said: MessageContent)
        requires
            role@ != "system"@,
        ensures
            said.deep_view() == other_content(role@, content@),
    {
        if !same_text(role, "user") {
            return MessageContent::Text(content.to_string());
        }
        let (cleaned_text, image_refs) = parse_image_markers(content);
        if image_refs.is_empty() {
            return MessageContent::Text(content.to_string());
        }
        let ghost images = image_markers(content@).1;
        let ghost text = trimmed(image_markers(content@).0);
        let ghost front: Seq<PartView> = if text.len() > 0 {
            seq![plain_part(text)]
        } else {
            Seq::empty()
        };
        let mut parts: Vec<MessagePart> = Vec::new();
        let trimmed_text = trim(cleaned_text.as_str());
        if !trimmed_text.is_empty() {
            parts.push(MessagePart::Text { text: trimmed_text.to_string(), cache_control: None });
        }
        let mut at: usize = 0;
        assert(parts.deep_view() =~= front + images.take(0).map_values(
            |url: Seq<char>| image_part(url),
        ));
        while at < image_refs.len()
            invariant
                at <= image_refs.len(),
                image_refs.deep_view() == images,
                parts.deep_view() == front + images.take(at as int).map_values(
                    |url: Seq<char>| image_part(url),
                ),
            decreases image_refs.len() - at,
        {
            let ghost before = parts.deep_view();
            parts.push(
                MessagePart::ImageUrl { image_url: ImageUrlPart { url: image_refs[at].clone() } },
            );
            proof {
                assert(images[at as int] == image_refs@[at as int]@);
                assert(parts.deep_view() =~= before.push(image_part(images[at as int])));
                assert(parts.deep_view() =~= front + images.take(at + 1).map_values(
                    |url: Seq<char>| image_part(url),
                ));
            }
            at = at + 1;
        }
        assert(images.take(at as int) =~= images);
        MessageContent::Parts(parts)
    }

    /// Builds what a message of any role says.
    pub(crate) fn content_of(message: &ChatMessage) -> (said: MessageContent)
        ensures
            said.deep_view() == message_content(message.deep_view()),
    {
        if same_text(message.role.as_str(), "system") {
            let stable_prefix = match &message.stable_prefix {
                Some(stable) => Some(stable.as_str()),
                None => None,
            };
            Self::system_message_content(stable_prefix, message.content.as_str())
        } else {
            Self::to_message_content(message.role.as_str(), message.content.as_str())
        }
    }
}

/// The text of a part; none of an image.
pub open spec fn part_text(part: PartView) -> Seq<char> {
    match part {
        PartView::Text { text, .. } => text,
        PartView::ImageUrl { .. } => Seq::empty(),
    }
}

/// Whether a part asks for caching.
pub open spec fn marked(part: PartView) -> bool {
    part matches PartView::Text { cache_control: Some(_), .. }
}

/// A system message has one mark for the cache, an ephemeral one, and it stands on
/// the first part.
pub proof fn law_system_has_one_mark(stable_prefix: Option<Seq<char>>, content: Seq<char>)
    ensures
        ({
            let said = system_content(stable_prefix, content);
            &&& said is Parts
            &&& said->Parts_0.len() > 0
            &&& said->Parts_0[0] == cached_part(part_text(said->Parts_0[0]))
            &&& forall|i: int|
                0 <= i < said->Parts_0.len() ==> (marked(#[trigger] said->Parts_0[i]) <==> i == 0)
        }),
{
}

/// The mark for the cache covers the stable prefix and nothing else: what changes
/// stands behind it.
pub proof fn law_mark_covers_stable_prefix(stable_prefix: Seq<char>, content: Seq<char>)
    requires
        has_stable_prefix(Some(stable_prefix)),
    ensures
        ({
            let parts = system_content(Some(stable_prefix), content)->Parts_0;
            &&& parts[0] == cached_part(stable_prefix)
            &&& parts.skip(1) == if content.len() > 0 {
                seq![plain_part(content)]
            } else {
                Seq::empty()
            }
        }),
{
    let parts = system_content(Some(stable_prefix), content)->Parts_0;
    if content.len() > 0 {
        assert(parts.skip(1) =~= seq![plain_part(content)]);
    } else {
        assert(parts.skip(1) =~= Seq::<PartView>::empty());
    }
}

/// What is cached of a system message with a stable prefix does not change with
/// the rest of the message.
pub proof fn law_cached_part_does_not_change(
    stable_prefix: Seq<char>,
    content: Seq<char>,
    other_content: Seq<char>,
)
    requires
        has_stable_prefix(Some(stable_prefix)),
    ensures
        system_content(Some(stable_prefix), content)->Parts_0[0] == system_content(
            Some(stable_prefix),
            other_content,
        )->Parts_0[0],
{
}

/// No part of a system message with a stable prefix is an empty text.
pub proof fn law_no_empty_part(stable_prefix: Seq<char>, content: Seq<char>)
    requires
        has_stable_prefix(Some(stable_prefix)),
    ensures
        ({
            let parts = system_content(Some(stable_prefix), content)->Parts_0;
            forall|i: int| 0 <= i < parts.len() ==> part_text(#[trigger] parts[i]).len() > 0
        }),
{
    assert(stable_prefix.len() > 0) by {
        if stable_prefix.len() == 0 {
            assert(trimmed(stable_prefix) == stable_prefix);
        }
    }
}

/// A blank stable prefix counts as none.
pub proof fn law_blank_prefix_counts_as_none(stable_prefix: Option<Seq<char>>, content: Seq<char>)
    requires
        !has_stable_prefix(stable_prefix),
    ensures
        system_content(stable_prefix, content) == system_content(None, content),
        system_content(stable_prefix, content) == ContentView::Parts(seq![cached_part(content)]),
{
}

/// No message but the system's asks for caching.
pub proof fn law_only_system_is_marked(role: Seq<char>, content: Seq<char>)
    ensures
        other_content(role, content) matches ContentView::Parts(parts) ==> forall|i: int|
            0 <= i < parts.len() ==> !marked(#[trigger] parts[i]),
{
}

/// A message in which no image marker starts is a plain text.
pub proof fn law_text_stays_text(role: Seq<char>, content: Seq<char>)
    requires
        forall|i: int| !stands_at(content, i, IMAGE_MARKER_START@),
    ensures
        other_content(role, content) == ContentView::Text(content),
{
    law_no_marker_no_image(content);
}

/// What a message says in words.
pub open spec fn said_text(said: ContentView) -> Seq<char> {
    match said {
        ContentView::Text(text) => text,
        ContentView::Parts(parts) => if parts.len() > 0 {
            part_text(parts[0])
        } else {
            Seq::empty()
        },
    }
}

/// The time of a turn reaches the model with the user's message, whether or not
/// there are images in it. Left out are a memory context that ends inside an image
/// marker, and a time in which one starts.
pub proof fn law_time_reaches_the_model(now: Seq<char>, raw: Seq<char>, mem_context: Seq<char>)
    requires
        !unfinished_marker(mem_context),
        forall|i: int|
            0 <= i < now.len() + 3 ==> !stands_at(
                enriched(now, raw, Seq::empty()),
                i,
                IMAGE_MARKER_START@,
            ),
    ensures
        holds(
            said_text(other_content("user"@, enriched(now, raw, mem_context))),
            seq!['['] + now + seq![']'],
        ),
{
    let piece = seq!['['] + now + seq![']'];
    let turn = enriched(now, raw, Seq::empty());
    let content = enriched(now, raw, mem_context);
    let n = now.len() as int + 3;
    let front = image_markers(mem_context).0;
    let shown_at = front.len() as int;
    let written_at = mem_context.len() as int;
    let len = piece.len() as int;
    let text = image_markers(content).0;
    law_context_only_prepends(now, raw, mem_context);
    assert(turn[0] == '[');
    lemma_markers_apart(mem_context, turn);
    lemma_text_before_markers(turn, n);
    assert(text.subrange(shown_at, shown_at + len) =~= piece);
    assert(stands_at(text, shown_at, piece));
    lemma_trimmed_holds(text, piece);
    let at = choose|at: int| stands_at(trimmed(text), at, piece);
    assert(trimmed(text).len() >= piece.len());
    assert(content.subrange(written_at, written_at + len) =~= piece);
    assert(stands_at(content, written_at, piece));
}

/// The time that the agent puts in front of a user's message reaches the model,
/// whatever the user wrote. Left out is a memory context that ends inside an image
/// marker.
pub proof fn law_timestamp_reaches_the_model(
    now: Seq<char>,
    raw: Seq<char>,
    mem_context: Seq<char>,
)
    requires
        timestamp(now),
        !unfinished_marker(mem_context),
    ensures
        holds(
            said_text(other_content("user"@, enriched(now, raw, mem_context))),
            seq!['['] + now + seq![']'],
        ),
{
    let turn = enriched(now, raw, Seq::empty());
    lemma_timestamp_without_brackets(now);
    reveal_strlit("[IMAGE:");
    assert forall|i: int| 0 <= i < now.len() + 3 implies !stands_at(
        turn,
        i,
        IMAGE_MARKER_START@,
    ) by {
        if stands_at(turn, i, IMAGE_MARKER_START@) {
            let window = turn.subrange(i, i + 7);
            assert(window[0] == turn[i] && window[1] == turn[i + 1]);
            if i == 0 {
                assert(turn[1] == now[0]);
            } else if i <= now.len() {
                assert(turn[i] == now[i - 1]);
            }
        }
    }
    law_time_reaches_the_model(now, raw, mem_context);
}

/// A stable prefix in which there is anything but white space comes first and asks
/// for caching. The rest of the message follows it and does not, unless it is empty.
pub proof fn law_prefix_then_rest(message: ChatMessageView, prefix: Seq<char>, at: int)
    requires
        message.role == "system"@,
        message.stable_prefix == Some(prefix),
        0 <= at < prefix.len(),
        !white_space(prefix[at]),
    ensures
        ({
            let said = message_content(message);
            let parts = said->Parts_0;
            &&& said is Parts
            &&& said == system_content(Some(prefix), message.content)
            &&& parts.len() == if message.content.len() > 0 {
                2int
            } else {
                1
            }
            &&& parts[0] == (PartView::Text { text: prefix, cache_control: Some("ephemeral"@) })
            &&& message.content.len() > 0 ==> parts[1] == (PartView::Text {
                text: message.content,
                cache_control: None,
            })
        }),
{
    law_trimming_loses_only_outer_space(prefix);
}

/// A system message without a stable prefix, or with one that is nothing but white
/// space, is one part, and all of it asks for caching.
pub proof fn law_message_without_prefix(message: ChatMessageView)
    requires
        message.role == "system"@,
        message.stable_prefix matches Some(prefix) ==> forall|i: int|
            0 <= i < prefix.len() ==> white_space(#[trigger] prefix[i]),
    ensures
        ({
            let said = message_content(message);
            &&& said is Parts
            &&& said == system_content(message.stable_prefix, message.content)
            &&& said->Parts_0.len() == 1
            &&& said->Parts_0[0] == (PartView::Text {
                text: message.content,
                cache_control: Some("ephemeral"@),
            })
        }),
{
    if message.stable_prefix is Some {
        law_trimming_loses_only_outer_space(message.stable_prefix->0);
    }
}

/// A message that is neither the system's nor the user's says its content as it is,
/// image markers included.
pub proof fn law_others_say_their_content(message: ChatMessageView)
    requires
        message.role != "system"@,
        message.role != "user"@,
    ensures
        message_content(message) == ContentView::Text(message.content),
        other_content(message.role, message.content) == ContentView::Text(message.content),
{
}

/// A user's message with images shows them behind its words, each by its reference
/// and in order. The words come without the white space around them, and not at all
/// where there are none. Without images it says its content as it is.
pub proof fn law_images_follow_the_words(message: ChatMessageView)
    requires
        message.role == "user"@,
    ensures
        ({
            let said = message_content(message);
            let words = trimmed(image_markers(message.content).0);
            let images = image_markers(message.content).1;
            let parts = said->Parts_0;
            let shown = if words.len() > 0 {
                1int
            } else {
                0
            };
            &&& said == other_content("user"@, message.content)
            &&& images.len() == 0 ==> said == ContentView::Text(message.content)
            &&& images.len() > 0 ==> {
                &&& said is Parts
                &&& parts.len() == shown + images.len()
                &&& words.len() > 0 ==> parts[0] == (PartView::Text {
                    text: words,
                    cache_control: None,
                })
                &&& forall|i: int|
                    0 <= i < images.len() ==> parts[shown + i] == (PartView::ImageUrl {
                        url: #[trigger] images[i],
                    })
            }
        }),
{
    reveal_strlit("user");
    reveal_strlit("system");
    assert("user"@.len() == 4 && "system"@.len() == 6);
}

} // verus!
