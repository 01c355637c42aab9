use bot_actions::{BotAPI, SendOutcome};

#[test]
fn new_handle_has_nothing_pending() {
    let api = BotAPI::new();
    assert_eq!(api.len(), 0);
    assert!(api.next_send().is_none());
}

#[test]
fn send_message_queues_in_order() {
    let mut api = BotAPI::new();
    api.send_message(1, "one", 11, 0);
    api.send_message(2, "two", 22, 16);
    assert_eq!(api.len(), 2);
    let first = api.next_send().unwrap();
    assert_eq!((first.chat_id, first.text.as_str(), first.reply_to, first.flag), (1, "one", 11, 0));
}

#[test]
fn failed_send_is_not_retried() {
    let mut api = BotAPI::new();
    api.send_message(1, "one", 11, 16);
    api.send_message(2, "two", 22, 16);
    api.complete(SendOutcome::Failed);
    assert_eq!(api.len(), 1);
    assert_eq!(api.next_send().unwrap().text, "two");
}

#[test]
fn delivered_and_failed_settle_alike() {
    let mut a = BotAPI::new();
    let mut b = BotAPI::new();
    for api in [&mut a, &mut b] {
        api.send_message(3, "x", 1, 16);
        api.send_message(4, "y", 2, 16);
    }
    a.complete(SendOutcome::Delivered);
    b.complete(SendOutcome::Failed);
    assert_eq!(a.len(), b.len());
    assert_eq!(a.next_send().unwrap().chat_id, b.next_send().unwrap().chat_id);
    assert_eq!(a.next_send().unwrap().text, b.next_send().unwrap().text);
}

#[test]
fn complete_with_nothing_pending_is_harmless() {
    let mut api = BotAPI::new();
    api.complete(SendOutcome::Failed);
    api.complete(SendOutcome::Delivered);
    assert_eq!(api.len(), 0);
}
