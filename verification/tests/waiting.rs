use holy_maiden_bot::modules::conversation::{
    check_message, Begin, ChatKind, Conversation, Delivery, Expectation, PendingWait, Update,
    UpdateKind,
};

fn text_reply(sender: i64, chat_kind: ChatKind, reply_to: Option<i32>) -> Update {
    Update {
        chat_id: 1,
        chat_kind,
        sender_id: Some(sender),
        kind: UpdateKind::Message,
        has_text: true,
        has_media: false,
        has_photo: false,
        reply_to,
    }
}

fn press(sender: i64) -> Update {
    Update {
        chat_id: 1,
        chat_kind: ChatKind::Group,
        sender_id: Some(sender),
        kind: UpdateKind::Button,
        has_text: false,
        has_media: false,
        has_photo: false,
        reply_to: None,
    }
}

#[test]
fn zero_timeout_returns_at_once() {
    let mut conversation = Conversation::new();
    assert_eq!(conversation.ask_message(5, 10, 1000, 0), Begin::TimedOut);
    assert_eq!(conversation.ask_photo(5, 10, 1000, 0), Begin::TimedOut);
    assert_eq!(conversation.wait_for_update(5, 1000, 0), Begin::TimedOut);
    assert_eq!(conversation.waiting(5), None);
    assert_eq!(conversation.deliver(&press(5), true, 1000), Delivery::NoWait);
}

#[test]
fn wait_is_registered_with_its_deadline() {
    let mut conversation = Conversation::new();
    assert_eq!(conversation.ask_message(5, 10, 1000, 15), Begin::Waiting);
    assert_eq!(
        conversation.waiting(5),
        Some(PendingWait {
            requester_id: 5,
            expectation: Expectation::Text { prompt_id: 10 },
            deadline: 1015
        })
    );
}

#[test]
fn deadline_stops_at_the_largest_time() {
    let mut conversation = Conversation::new();
    assert_eq!(conversation.wait_for_update(5, u64::MAX - 1, 10), Begin::Waiting);
    assert_eq!(conversation.waiting(5).unwrap().deadline, u64::MAX);
}

#[test]
fn second_wait_for_the_same_user_is_refused() {
    let mut conversation = Conversation::new();
    assert_eq!(conversation.wait_for_update(5, 0, 10), Begin::Waiting);
    assert_eq!(conversation.ask_photo(5, 3, 0, 30), Begin::Busy);
    assert_eq!(conversation.waiting(5).unwrap().expectation, Expectation::Anything);
    assert_eq!(conversation.waiting(5).unwrap().deadline, 10);
}

#[test]
fn two_waits_resolve_independently() {
    let mut conversation = Conversation::new();
    assert_eq!(conversation.wait_for_update(1, 0, 10), Begin::Waiting);
    assert_eq!(conversation.wait_for_update(2, 0, 10), Begin::Waiting);
    assert_eq!(conversation.deliver(&press(2), false, 1), Delivery::Rejected);
    assert_eq!(conversation.deliver(&press(1), true, 2), Delivery::Matched);
    assert!(conversation.waiting(2).is_some());
    assert_eq!(conversation.waiting(1), None);
    assert_eq!(conversation.deliver(&press(3), true, 3), Delivery::NoWait);
    assert_eq!(conversation.deliver(&press(2), true, 4), Delivery::Matched);
    assert_eq!(conversation.waiting(2), None);
}

#[test]
fn two_waits_resolve_in_the_other_order_too() {
    let mut conversation = Conversation::new();
    assert_eq!(conversation.wait_for_update(1, 0, 10), Begin::Waiting);
    assert_eq!(conversation.wait_for_update(2, 0, 10), Begin::Waiting);
    assert_eq!(conversation.deliver(&press(2), true, 1), Delivery::Matched);
    assert_eq!(conversation.deliver(&press(1), true, 2), Delivery::Matched);
    assert_eq!(conversation.waiting(1), None);
    assert_eq!(conversation.waiting(2), None);
}

#[test]
fn first_matching_update_wins() {
    let mut conversation = Conversation::new();
    assert_eq!(conversation.ask_message(5, 10, 0, 15), Begin::Waiting);
    assert_eq!(conversation.deliver(&press(5), true, 1), Delivery::Rejected);
    assert_eq!(
        conversation.deliver(&text_reply(5, ChatKind::Group, Some(9)), true, 2),
        Delivery::Rejected
    );
    assert_eq!(
        conversation.deliver(&text_reply(5, ChatKind::Group, Some(10)), true, 3),
        Delivery::Matched
    );
    assert_eq!(
        conversation.deliver(&text_reply(5, ChatKind::Group, Some(10)), true, 4),
        Delivery::NoWait
    );
}

#[test]
fn update_without_sender_is_no_candidate() {
    let mut conversation = Conversation::new();
    assert_eq!(conversation.wait_for_update(5, 0, 10), Begin::Waiting);
    let mut update = press(5);
    update.sender_id = None;
    assert_eq!(conversation.candidate(&update), None);
    assert_eq!(conversation.deliver(&update, true, 1), Delivery::NoWait);
    assert!(conversation.candidate(&press(5)).is_some());
    assert_eq!(conversation.candidate(&press(6)), None);
}

#[test]
fn late_update_retires_the_wait() {
    let mut conversation = Conversation::new();
    assert_eq!(conversation.wait_for_update(5, 100, 10), Begin::Waiting);
    assert_eq!(conversation.deliver(&press(5), true, 110), Delivery::Expired);
    assert_eq!(conversation.waiting(5), None);
    assert_eq!(conversation.deliver(&press(5), true, 111), Delivery::NoWait);
}

#[test]
fn timer_retires_only_an_expired_wait() {
    let mut conversation = Conversation::new();
    assert_eq!(conversation.wait_for_update(5, 100, 10), Begin::Waiting);
    assert!(!conversation.timeout(5, 109));
    assert!(conversation.waiting(5).is_some());
    assert!(conversation.timeout(5, 110));
    assert_eq!(conversation.waiting(5), None);
    assert!(!conversation.timeout(5, 111));
    assert!(!conversation.timeout(6, 111));
}

#[test]
fn cancel_is_idempotent() {
    let mut conversation = Conversation::new();
    assert_eq!(conversation.wait_for_update(5, 0, 10), Begin::Waiting);
    assert!(conversation.cancel(5));
    assert!(!conversation.cancel(5));
    assert_eq!(conversation.deliver(&press(5), true, 1), Delivery::NoWait);
    assert_eq!(conversation.wait_for_update(5, 0, 10), Begin::Waiting);
}

#[test]
fn prompt_is_answered_by_reply_in_groups() {
    assert!(check_message(ChatKind::User, None, 10));
    assert!(check_message(ChatKind::User, Some(3), 10));
    assert!(check_message(ChatKind::Group, Some(10), 10));
    assert!(!check_message(ChatKind::Group, Some(11), 10));
    assert!(!check_message(ChatKind::Group, None, 10));
    assert!(!check_message(ChatKind::Channel, Some(10), 10));
}

#[test]
fn text_answer_has_text_and_no_media() {
    let expectation = Expectation::Text { prompt_id: 10 };
    let mut update = text_reply(5, ChatKind::User, None);
    assert!(expectation.admits(&update));
    update.has_media = true;
    assert!(!expectation.admits(&update));
    update.has_media = false;
    update.has_text = false;
    assert!(!expectation.admits(&update));
    assert!(!expectation.admits(&press(5)));
    assert!(Expectation::Anything.admits(&press(5)));
}

#[test]
fn photo_answer_has_a_photo() {
    let expectation = Expectation::Photo { prompt_id: 10 };
    let mut update = text_reply(5, ChatKind::Group, Some(10));
    assert!(!expectation.admits(&update));
    update.has_media = true;
    update.has_photo = true;
    assert!(expectation.admits(&update));
    update.reply_to = Some(11);
    assert!(!expectation.admits(&update));
}
