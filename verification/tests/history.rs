use codex::history::truncate_after_dropping_last_messages;
use codex::protocol::{ContentItem, ReasoningItemReasoningSummary, ResponseItem};

fn user_msg(text: &str) -> ResponseItem {
    ResponseItem::Message {
        id: None,
        role: "user".to_string(),
        content: vec![ContentItem::OutputText { text: text.to_string() }],
    }
}

fn assistant_msg(text: &str) -> ResponseItem {
    ResponseItem::Message {
        id: None,
        role: "assistant".to_string(),
        content: vec![ContentItem::OutputText { text: text.to_string() }],
    }
}

#[test]
fn drops_from_last_user_only() {
    let items = vec![
        user_msg("u1"),
        assistant_msg("a1"),
        assistant_msg("a2"),
        user_msg("u2"),
        assistant_msg("a3"),
        ResponseItem::Reasoning {
            id: "r1".to_string(),
            summary: vec![ReasoningItemReasoningSummary::SummaryText { text: "s".to_string() }],
            content: None,
            encrypted_content: None,
        },
        ResponseItem::FunctionCall {
            id: None,
            name: "tool".to_string(),
            arguments: "{}".to_string(),
            call_id: "c1".to_string(),
        },
        assistant_msg("a4"),
    ];

    let truncated = truncate_after_dropping_last_messages(items.clone(), 1);
    assert_eq!(truncated, vec![items[0].clone(), items[1].clone(), items[2].clone()]);

    let truncated2 = truncate_after_dropping_last_messages(items, 2);
    assert!(truncated2.is_empty());
}

#[test]
fn dropping_nothing_keeps_all() {
    let items = vec![assistant_msg("a1"), user_msg("u1")];
    assert_eq!(truncate_after_dropping_last_messages(items.clone(), 0), items);
    assert!(truncate_after_dropping_last_messages(Vec::new(), 0).is_empty());
    assert!(truncate_after_dropping_last_messages(Vec::new(), 3).is_empty());
}

#[test]
fn too_few_user_messages_leave_nothing() {
    let items = vec![assistant_msg("a0"), user_msg("u1"), assistant_msg("a1")];
    assert_eq!(truncate_after_dropping_last_messages(items.clone(), 1), vec![assistant_msg("a0")]);
    assert!(truncate_after_dropping_last_messages(items.clone(), 2).is_empty());
    assert!(truncate_after_dropping_last_messages(items, usize::MAX).is_empty());
    assert!(truncate_after_dropping_last_messages(vec![assistant_msg("a")], 1).is_empty());
}

#[test]
fn only_the_exact_role_counts() {
    let mut shout = user_msg("x");
    if let ResponseItem::Message { role, .. } = &mut shout {
        *role = "USER".to_string();
    }
    let other = ResponseItem::Other { json: "{\"role\":\"user\"}".to_string() };
    let items = vec![user_msg("u1"), user_msg("u2"), shout, other];
    assert_eq!(truncate_after_dropping_last_messages(items, 1), vec![user_msg("u1")]);
}

#[test]
fn dropping_twice_is_dropping_the_sum() {
    let items = vec![
        assistant_msg("a0"),
        user_msg("u1"),
        assistant_msg("a1"),
        user_msg("u2"),
        user_msg("u3"),
        assistant_msg("a3"),
    ];
    for a in 0..5 {
        for b in 0..5 {
            let once = truncate_after_dropping_last_messages(items.clone(), a);
            assert_eq!(
                truncate_after_dropping_last_messages(once, b),
                truncate_after_dropping_last_messages(items.clone(), a + b)
            );
        }
    }
}
