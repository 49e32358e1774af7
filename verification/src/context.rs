//! What the model sees: the system prompt, the session summary and the active
//! transcript, and how large that is.

use vstd::prelude::*;
use vstd::string::StrSliceExecFns;

use crate::memory::StoredMessage;
use crate::model::{message_text, ChatMessage, ChatMessageView};
use crate::text::{chars_eq_str, push_str};

verus! {

/// The heading that introduces the session summary.
pub open spec fn summary_heading() -> Seq<char> {
    "Session memory summary:\n"@
}

/// The views of the messages of stored records.
pub open spec fn stored_views(stored: Seq<StoredMessage>) -> Seq<ChatMessageView> {
    stored.map_values(|s: StoredMessage| s.message@)
}

/// The views of a sequence of messages.
pub open spec fn message_views(ms: Seq<ChatMessage>) -> Seq<ChatMessageView> {
    ms.map_values(|m: ChatMessage| m@)
}

/// A system message with the given content.
pub open spec fn system_view(content: Seq<char>) -> ChatMessageView {
    ChatMessageView {
        role: "system"@,
        content: Some(content),
        reasoning_content: None,
        tool_calls: None,
        tool_call_id: None,
    }
}

/// The context sent to the model: the system prompt, then the summary (only
/// when there is one) as a second system message, then the stored messages.
pub open spec fn context_spec(
    system_prompt: Seq<char>,
    summary: Seq<char>,
    stored: Seq<StoredMessage>,
) -> Seq<ChatMessageView> {
    seq![system_view(system_prompt)] + (if summary.len() > 0 {
        seq![system_view(summary_heading() + summary)]
    } else {
        Seq::empty()
    }) + stored_views(stored)
}

/// Assembles the messages sent to the model.
pub fn build_context(system_prompt: &str, summary: &str, stored: &[StoredMessage]) -> (r: Vec<
    ChatMessage,
>)
    ensures
        message_views(r@) == context_spec(system_prompt@, summary@, stored@),
{
    let mut messages: Vec<ChatMessage> = Vec::new();
    messages.push(ChatMessage::system(system_prompt));
    if summary.unicode_len() > 0 {
        let mut text = crate::model::owned("Session memory summary:\n");
        push_str(&mut text, summary);
        messages.push(ChatMessage::system(text.as_str()));
    }
    let ghost head = message_views(messages@);
    assert(head =~= seq![system_view(system_prompt@)] + (if summary@.len() > 0 {
        seq![system_view(summary_heading() + summary@)]
    } else {
        Seq::<ChatMessageView>::empty()
    }));
    let mut i: usize = 0;
    while i < stored.len()
        invariant
            i <= stored.len(),
            messages@.len() == head.len() + i,
            forall|k: int| 0 <= k < head.len() ==> (#[trigger] messages@[k])@ == head[k],
            forall|k: int|
                0 <= k < i ==> (#[trigger] messages@[head.len() + k])@ == stored@[k].message@,
        decreases stored.len() - i,
    {
        messages.push(stored[i].message.copy());
        i = i + 1;
    }
    assert(message_views(messages@) =~= head + stored_views(stored@)) by {
        assert forall|k: int| head.len() <= k < messages@.len() implies (#[trigger] messages@[k])@
            == stored@[k - head.len()].message@ by {
            assert(messages@[head.len() + (k - head.len())] == messages@[k]);
        }
    }
    messages
}

/// The sum of the wire-text lengths of the first `n` messages.
pub open spec fn text_length_sum(ms: Seq<ChatMessageView>, n: int) -> nat
    decreases n,
{
    if n <= 0 || n > ms.len() {
        0
    } else {
        text_length_sum(ms, n - 1) + message_text(ms[n - 1]).len()
    }
}

/// The prompt-size estimate: the number of characters of the messages' wire
/// texts, saturated at `usize::MAX`.
pub open spec fn estimate_spec(ms: Seq<ChatMessageView>) -> nat {
    let total = text_length_sum(ms, ms.len() as int);
    if total <= usize::MAX {
        total
    } else {
        usize::MAX as nat
    }
}

/// The text-length sum of the first `n` messages depends on those messages
/// alone.
proof fn lemma_text_length_sum_prefix(s: Seq<ChatMessageView>, t: Seq<ChatMessageView>, n: int)
    requires
        0 <= n <= s.len(),
        n <= t.len(),
        forall|k: int| 0 <= k < n ==> s[k] == t[k],
    ensures
        text_length_sum(s, n) == text_length_sum(t, n),
    decreases n,
{
    if n > 0 {
        lemma_text_length_sum_prefix(s, t, n - 1);
    }
}

/// The text-length sum of two lists put together is the sum of theirs.
proof fn lemma_text_length_sum_concat(a: Seq<ChatMessageView>, b: Seq<ChatMessageView>)
    ensures
        text_length_sum(a + b, (a + b).len() as int) == text_length_sum(a, a.len() as int)
            + text_length_sum(b, b.len() as int),
    decreases b.len(),
{
    if b.len() == 0 {
        assert(a + b =~= a);
    } else {
        let c = b.drop_last();
        lemma_text_length_sum_concat(a, c);
        lemma_text_length_sum_prefix(a + b, a + c, (a + c).len() as int);
        lemma_text_length_sum_prefix(b, c, c.len() as int);
        assert((a + b)[(a + b).len() - 1] == b[b.len() - 1]);
    }
}

/// What `estimate_tokens` returns adds up: no messages give 0, one message
/// counts the characters of its wire text, and two lists put together give
/// the sum of their estimates, saturated at `usize::MAX`.
pub proof fn law_estimate_additive(a: Seq<ChatMessage>, b: Seq<ChatMessage>, m: ChatMessage)
    ensures
        estimate_spec(message_views(Seq::empty())) == 0,
        estimate_spec(message_views(seq![m])) == if message_text(m@).len() <= usize::MAX {
            message_text(m@).len()
        } else {
            usize::MAX as nat
        },
        estimate_spec(message_views(a + b)) == if estimate_spec(message_views(a)) + estimate_spec(
            message_views(b),
        ) <= usize::MAX {
            estimate_spec(message_views(a)) + estimate_spec(message_views(b))
        } else {
            usize::MAX as nat
        },
{
    let va = message_views(a);
    let vb = message_views(b);
    assert(message_views(a + b) =~= va + vb);
    assert(message_views(seq![m]) =~= seq![m@]);
    assert(message_views(Seq::empty()) =~= Seq::<ChatMessageView>::empty());
    lemma_text_length_sum_concat(va, vb);
    assert(text_length_sum(seq![m@], 0) == 0);
}

/// Estimates the prompt size of a list of messages by counting the characters
/// of their serialized form.
pub fn estimate_tokens(messages: &[ChatMessage]) -> (r: usize)
    ensures
        r as nat == estimate_spec(message_views(messages@)),
{
    let ghost views = message_views(messages@);
    let mut total: usize = 0;
    let mut saturated = false;
    let mut i: usize = 0;
    while i < messages.len()
        invariant
            i <= messages.len(),
            views == message_views(messages@),
            !saturated ==> total as nat == text_length_sum(views, i as int),
            saturated ==> total == usize::MAX && text_length_sum(views, i as int) > usize::MAX,
        decreases messages.len() - i,
    {
        let text = messages[i].to_json_text();
        let n = text.as_str().unicode_len();
        assert(text_length_sum(views, i + 1) == text_length_sum(views, i as int) + n);
        if !saturated {
            if total > usize::MAX - n {
                saturated = true;
                total = usize::MAX;
            } else {
                total = total + n;
            }
        }
        i = i + 1;
    }
    total
}

/// The number of user messages among stored records.
pub open spec fn user_count(stored: Seq<StoredMessage>) -> nat
    decreases stored.len(),
{
    if stored.len() == 0 {
        0
    } else {
        user_count(stored.drop_last()) + if is_user(stored.last()) {
            1nat
        } else {
            0nat
        }
    }
}

/// Whether a stored record is a user message.
pub open spec fn is_user(s: StoredMessage) -> bool {
    s.message.role@ == "user"@
}

pub proof fn lemma_user_count_split(stored: Seq<StoredMessage>, i: int)
    requires
        0 <= i <= stored.len(),
    ensures
        user_count(stored) == user_count(stored.take(i)) + user_count(stored.skip(i)),
    decreases stored.len(),
{
    if i < stored.len() {
        lemma_user_count_split(stored.drop_last(), i);
        assert(stored.drop_last().take(i) =~= stored.take(i));
        assert(stored.skip(i).drop_last() =~= stored.drop_last().skip(i));
        assert(stored.skip(i).last() == stored.last());
    } else {
        assert(stored.take(i) =~= stored);
        assert(stored.skip(i) =~= Seq::<StoredMessage>::empty());
    }
}

/// Where the transcript splits so that the later part holds the last
/// `keep_turns` user turns: a user message with exactly `keep_turns` user
/// messages from it to the end.
pub open spec fn is_turn_cut(stored: Seq<StoredMessage>, keep_turns: nat, cut: int) -> bool {
    &&& 0 <= cut < stored.len()
    &&& is_user(stored[cut])
    &&& user_count(stored.skip(cut)) == keep_turns
}

/// Whether a stored record is a user message (executable).
pub fn stored_is_user(s: &StoredMessage) -> (r: bool)
    ensures
        r == is_user(*s),
{
    chars_eq_str(&crate::text::chars_of(s.message.role.as_str()), "user")
}

/// Splits the transcript into the completed turns that may be summarized and
/// the last `keep_turns` user turns, which stay verbatim. There is no split
/// when the transcript holds no more than `keep_turns` user messages.
pub fn split_complete_turns(stored: &[StoredMessage], keep_turns: usize) -> (r: Option<
    (&[StoredMessage], &[StoredMessage]),
>)
    requires
        keep_turns > 0 || user_count(stored@) == 0,
    ensures
        match r {
            None => user_count(stored@) <= keep_turns,
            Some((old, recent)) => user_count(stored@) > keep_turns && is_turn_cut(
                stored@,
                keep_turns as nat,
                old@.len() as int,
            ) && old@ == stored@.take(old@.len() as int) && recent@ == stored@.skip(
                old@.len() as int,
            ),
        },
{
    let mut total: usize = 0;
    let mut i: usize = 0;
    while i < stored.len()
        invariant
            i <= stored.len(),
            total as nat == user_count(stored@.take(i as int)),
            total <= i,
        decreases stored.len() - i,
    {
        assert(stored@.take(i + 1).drop_last() =~= stored@.take(i as int));
        if stored_is_user(&stored[i]) {
            total = total + 1;
        }
        i = i + 1;
    }
    assert(stored@.take(stored.len() as int) =~= stored@);
    if total <= keep_turns {
        return None;
    }
    let mut count: usize = 0;
    let mut j: usize = stored.len();
    loop
        invariant
            j <= stored.len(),
            count as nat == user_count(stored@.skip(j as int)),
            count < keep_turns,
            total as nat == user_count(stored@),
            total > keep_turns,
        decreases j,
    {
        proof {
            lemma_user_count_split(stored@, j as int);
            if j == 0 {
                assert(stored@.skip(0) =~= stored@);
            }
        }
        let k = j - 1;
        assert(stored@.skip(k as int).drop_last() =~= stored@.skip(k as int).take(
            stored@.len() - k - 1,
        ));
        proof {
            lemma_user_count_split(stored@.skip(k as int), 1);
            assert(stored@.skip(k as int).skip(1) =~= stored@.skip(j as int));
            assert(stored@.skip(k as int).take(1) =~= seq![stored@[k as int]]);
            assert(user_count(seq![stored@[k as int]]) == if is_user(stored@[k as int]) {
                1nat
            } else {
                0nat
            }) by {
                assert(seq![stored@[k as int]].drop_last() =~= Seq::<StoredMessage>::empty());
                assert(seq![stored@[k as int]].last() == stored@[k as int]);
                assert(user_count(Seq::<StoredMessage>::empty()) == 0);
            }
        }
        if stored_is_user(&stored[k]) {
            if count + 1 == keep_turns {
                let (old, recent) = stored.split_at(k);
                return Some((old, recent));
            }
            count = count + 1;
        }
        j = k;
    }
}

} // verus!
