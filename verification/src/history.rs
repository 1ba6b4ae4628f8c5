//! The history of a conversation, and how it is cut back for a fork.

use vstd::prelude::*;

use crate::chars;
use crate::protocol::{ContentItem, ResponseItem};

verus! {

/// A message whose role is `user`.
pub open spec fn is_user_message(item: ResponseItem) -> bool {
    item matches ResponseItem::Message { role, .. } && role@ == "user"@
}

/// How many of `items` are messages of the user.
pub open spec fn user_count(items: Seq<ResponseItem>) -> nat
    decreases items.len(),
{
    if items.len() == 0 {
        0
    } else {
        user_count(items.drop_last()) + if is_user_message(items.last()) {
            1nat
        } else {
            0nat
        }
    }
}

/// What is left of `items` once items were taken from its end until `n` messages
/// of the user are gone.
pub open spec fn truncated(items: Seq<ResponseItem>, n: nat) -> Seq<ResponseItem>
    decreases items.len(),
{
    if n == 0 || items.len() == 0 {
        items
    } else if is_user_message(items.last()) {
        truncated(items.drop_last(), (n - 1) as nat)
    } else {
        truncated(items.drop_last(), n)
    }
}

fn is_user(item: &ResponseItem) -> (r: bool)
    ensures
        r == is_user_message(*item),
{
    match item {
        ResponseItem::Message { role, .. } => chars::same_text(role.as_str(), "user"),
        _ => false,
    }
}

/// Drops the last `n` messages of the user and everything that follows the
/// first of them. Messages of the assistant and other items do not count. Where
/// there are fewer than `n` such messages nothing is left.
pub fn truncate_after_dropping_last_messages(items: Vec<ResponseItem>, n: usize) -> (r: Vec<
    ResponseItem,
>)
    ensures
        r@ == truncated(items@, n as nat),
        r@.is_prefix_of(items@),
        n == 0 ==> r@ == items@,
        n > user_count(items@) ==> r@ == Seq::<ResponseItem>::empty(),
        0 < n <= user_count(items@) ==> {
            &&& r@.len() < items@.len()
            &&& is_user_message(items@[r@.len() as int])
            &&& user_count(items@.skip(r@.len() as int)) == n
        },
{
    proof {
        law_truncation_cuts_at_a_user_message(items@, n as nat);
    }
    if n == 0 || items.is_empty() {
        return items;
    }
    let mut items = items;
    let ghost whole = items@;
    let mut count: usize = 0;
    let mut end: usize = items.len();
    assert(whole.take(end as int) =~= whole);
    while end > 0 && count < n
        invariant
            items@ == whole,
            end <= whole.len(),
            count <= n,
            truncated(whole.take(end as int), (n - count) as nat) == truncated(whole, n as nat),
        decreases end,
    {
        proof {
            assert(whole.take(end as int).drop_last() =~= whole.take(end - 1));
            assert(whole.take(end as int).last() == whole[end - 1]);
        }
        end = end - 1;
        if is_user(&items[end]) {
            count = count + 1;
        }
    }
    items.truncate(end);
    assert(items@ =~= whole.take(end as int));
    items
}

// ---------------------------------------------------------------------------
// Laws
// ---------------------------------------------------------------------------

proof fn lemma_user_count_concat(a: Seq<ResponseItem>, b: Seq<ResponseItem>)
    ensures
        user_count(a + b) == user_count(a) + user_count(b),
    decreases b.len(),
{
    if b.len() == 0 {
        assert(a + b =~= a);
    } else {
        lemma_user_count_concat(a, b.drop_last());
        assert((a + b).drop_last() =~= a + b.drop_last());
    }
}

/// What is left is a beginning of the history. It is all of it where nothing is
/// to be dropped, and nothing where there are too few messages of the user;
/// otherwise the cut stands at a message of the user from which on there are
/// exactly as many as were to be dropped.
pub proof fn law_truncation_cuts_at_a_user_message(items: Seq<ResponseItem>, n: nat)
    ensures
        truncated(items, n).is_prefix_of(items),
        n == 0 ==> truncated(items, n) == items,
        n > user_count(items) ==> truncated(items, n) == Seq::<ResponseItem>::empty(),
        0 < n <= user_count(items) ==> {
            let end = truncated(items, n).len() as int;
            &&& end < items.len()
            &&& is_user_message(items[end])
            &&& user_count(items.skip(end)) == n
        },
    decreases items.len(),
{
    if n == 0 || items.len() == 0 {
        assert(items.subrange(0, items.len() as int) =~= items);
    } else {
        let m = if is_user_message(items.last()) {
            (n - 1) as nat
        } else {
            n
        };
        let init = items.drop_last();
        law_truncation_cuts_at_a_user_message(init, m);
        let kept = truncated(init, m);
        let end = kept.len() as int;
        assert(kept == truncated(items, n));
        assert(kept =~= items.subrange(0, end));
        if n <= user_count(items) {
            assert(items.skip(end) =~= init.skip(end) + seq![items.last()]);
            lemma_user_count_concat(init.skip(end), seq![items.last()]);
            assert(user_count(seq![items.last()]) == (if is_user_message(items.last()) {
                1nat
            } else {
                0nat
            })) by {
                reveal_with_fuel(user_count, 2);
            }
            if m == 0 {
                assert(init.skip(end) =~= Seq::<ResponseItem>::empty());
            }
        }
    }
}

/// Dropping `a` messages and then `b` is dropping `a + b` at once.
pub proof fn law_truncations_compose(items: Seq<ResponseItem>, a: nat, b: nat)
    ensures
        truncated(truncated(items, a), b) == truncated(items, a + b),
    decreases items.len(),
{
    if a > 0 && items.len() > 0 {
        if is_user_message(items.last()) {
            law_truncations_compose(items.drop_last(), (a - 1) as nat, b);
        } else {
            law_truncations_compose(items.drop_last(), a, b);
        }
    }
}

/// What is left holds as many messages of the user fewer as were dropped, or
/// none.
pub proof fn law_truncation_drops_user_messages(items: Seq<ResponseItem>, n: nat)
    ensures
        user_count(truncated(items, n)) == (if n <= user_count(items) {
            (user_count(items) - n) as nat
        } else {
            0nat
        }),
{
    law_truncation_cuts_at_a_user_message(items, n);
    let kept = truncated(items, n);
    let end = kept.len() as int;
    if 0 < n <= user_count(items) {
        assert(items =~= kept + items.skip(end));
        lemma_user_count_concat(kept, items.skip(end));
    }
}

/// A message of the user, with all that follows it up to the next one.
pub struct Exchange {
    pub id: Option<String>,
    pub role: String,
    pub content: Vec<ContentItem>,
    pub answers: Seq<ResponseItem>,
}

/// No item is a message in the role of the user.
pub open spec fn without_user(items: Seq<ResponseItem>) -> bool {
    forall|i: int|
        0 <= i < items.len() ==> !(#[trigger] items[i] matches ResponseItem::Message {
            role,
            ..
        } && role@ == seq!['u', 's', 'e', 'r'])
}

/// Every exchange opens with a message in the role of the user and holds no
/// other.
pub open spec fn are_exchanges(exchanges: Seq<Exchange>) -> bool {
    forall|i: int|
        0 <= i < exchanges.len() ==> (#[trigger] exchanges[i]).role@ == seq!['u', 's', 'e', 'r']
            && without_user(exchanges[i].answers)
}

/// The history that begins with `preamble` and goes on with `exchanges`.
pub open spec fn history_of(
    preamble: Seq<ResponseItem>,
    exchanges: Seq<Exchange>,
) -> Seq<ResponseItem>
    decreases exchanges.len(),
{
    if exchanges.len() == 0 {
        preamble
    } else {
        let last = exchanges.last();
        history_of(preamble, exchanges.drop_last()).push(
            ResponseItem::Message { id: last.id, role: last.role, content: last.content },
        ) + last.answers
    }
}

proof fn lemma_answers_do_not_count(items: Seq<ResponseItem>, answers: Seq<ResponseItem>, n: nat)
    requires
        without_user(answers),
        n > 0,
    ensures
        truncated(items + answers, n) == truncated(items, n),
        user_count(items + answers) == user_count(items),
    decreases answers.len(),
{
    reveal_strlit("user");
    assert("user"@ =~= seq!['u', 's', 'e', 'r']);
    if answers.len() == 0 {
        assert(items + answers =~= items);
    } else {
        let init = answers.drop_last();
        assert forall|i: int| 0 <= i < init.len() implies !(
        #[trigger] init[i] matches ResponseItem::Message { role, .. } && role@ == seq![
            'u',
            's',
            'e',
            'r',
        ]) by {
            assert(init[i] == answers[i]);
        }
        lemma_answers_do_not_count(items, init, n);
        assert((items + answers).drop_last() =~= items + init);
        assert((items + answers).last() == answers[answers.len() - 1]);
    }
}

pub(crate) proof fn lemma_exchanges_are_dropped(
    preamble: Seq<ResponseItem>,
    exchanges: Seq<Exchange>,
    n: nat,
)
    requires
        without_user(preamble),
        are_exchanges(exchanges),
    ensures
        truncated(history_of(preamble, exchanges), n) == (if n <= exchanges.len() {
            history_of(preamble, exchanges.take(exchanges.len() - n))
        } else {
            Seq::<ResponseItem>::empty()
        }),
        user_count(history_of(preamble, exchanges)) == exchanges.len(),
    decreases exchanges.len(),
{
    reveal_strlit("user");
    assert("user"@ =~= seq!['u', 's', 'e', 'r']);
    let none = Seq::<ResponseItem>::empty();
    assert(exchanges.take(exchanges.len() as int) =~= exchanges);
    if exchanges.len() == 0 {
        lemma_answers_do_not_count(none, preamble, 1);
        if n > 0 {
            lemma_answers_do_not_count(none, preamble, n);
        }
        assert(none + preamble =~= preamble);
    } else {
        let init = exchanges.drop_last();
        let last = exchanges.last();
        assert(exchanges[exchanges.len() - 1] == last);
        assert forall|i: int| 0 <= i < init.len() implies (#[trigger] init[i]).role@ == seq![
            'u',
            's',
            'e',
            'r',
        ] && without_user(init[i].answers) by {
            assert(init[i] == exchanges[i]);
        }
        let question = ResponseItem::Message {
            id: last.id,
            role: last.role,
            content: last.content,
        };
        let asked = history_of(preamble, init).push(question);
        assert(asked.drop_last() =~= history_of(preamble, init));
        lemma_answers_do_not_count(asked, last.answers, 1);
        lemma_exchanges_are_dropped(preamble, init, 0);
        if n > 0 {
            lemma_answers_do_not_count(asked, last.answers, n);
            lemma_exchanges_are_dropped(preamble, init, (n - 1) as nat);
            if n <= exchanges.len() {
                assert(init.take(init.len() - (n - 1)) =~= exchanges.take(exchanges.len() - n));
            }
        }
    }
}

/// Dropping `n` messages of the user drops the last `n` exchanges whole, and
/// nothing else; where there are fewer exchanges nothing is left. An exchange is
/// opened by any message in the role of the user, whatever its id and its
/// content, and by nothing else.
pub proof fn law_last_exchanges_are_dropped(
    items: Vec<ResponseItem>,
    n: usize,
    r: Vec<ResponseItem>,
    preamble: Seq<ResponseItem>,
    exchanges: Seq<Exchange>,
)
    requires
        call_ensures(truncate_after_dropping_last_messages, (items, n), r),
        items@ == history_of(preamble, exchanges),
        without_user(preamble),
        are_exchanges(exchanges),
    ensures
        n <= exchanges.len() ==> r@ == history_of(preamble, exchanges.take(exchanges.len() - n)),
        n > exchanges.len() ==> r@.len() == 0,
{
    lemma_exchanges_are_dropped(preamble, exchanges, n as nat);
}

/// Taking back the last message of the user gives the history from before it,
/// whatever the message holds.
pub proof fn law_last_user_message_can_be_taken_back(
    before: Seq<ResponseItem>,
    id: Option<String>,
    role: String,
    content: Vec<ContentItem>,
    n: nat,
)
    requires
        role@ == seq!['u', 's', 'e', 'r'],
    ensures
        truncated(before.push(ResponseItem::Message { id, role, content }), n + 1) == truncated(
            before,
            n,
        ),
        truncated(before.push(ResponseItem::Message { id, role, content }), 1) == before,
        user_count(before.push(ResponseItem::Message { id, role, content })) == user_count(before)
            + 1,
{
    reveal_strlit("user");
    assert("user"@ =~= seq!['u', 's', 'e', 'r']);
    assert(before.push(ResponseItem::Message { id, role, content }).drop_last() =~= before);
    assert(truncated(before, 0) == before);
}

} // verus!
