use llama_chat::event_log::{
    clear_global_status, conversation_key_of, event_from_row, event_level, get_events,
    get_global_status, log_event, restore_events, set_global_status, ConversationEvent,
    EventStore, MAX_EVENTS_PER_CONVERSATION,
};

#[test]
fn logged_events_come_back_in_order() {
    let mut store = EventStore::new();
    let (key, ev) = log_event(&mut store, "chat1.txt", "generation", "started", 1000);
    assert_eq!(key, "chat1");
    assert_eq!(ev.timestamp, 1000);
    assert_eq!(ev.event_type, "generation");
    log_event(&mut store, "chat1", "tool", "ran", 2000);
    let events = get_events(&store, "chat1.txt");
    assert_eq!(events.len(), 2);
    assert_eq!(events[0].message, "started");
    assert_eq!(events[1].message, "ran");
    assert_eq!(events[1].timestamp, 2000);
    assert!(get_events(&store, "other").is_empty());
}

#[test]
fn only_the_newest_events_are_kept() {
    let mut store = EventStore::new();
    for i in 0..(MAX_EVENTS_PER_CONVERSATION as i64 + 5) {
        log_event(&mut store, "c", "e", &i.to_string(), i);
    }
    let events = get_events(&store, "c");
    assert_eq!(events.len(), MAX_EVENTS_PER_CONVERSATION);
    assert_eq!(events[0].message, "5");
    assert_eq!(events[events.len() - 1].message, "1004");
}

#[test]
fn conversation_keys_drop_txt_suffixes() {
    assert_eq!(conversation_key_of("a.txt.txt"), "a");
    assert_eq!(conversation_key_of("a.txtx"), "a.txtx");
    assert_eq!(conversation_key_of(".txt"), "");
    assert_eq!(conversation_key_of("abc"), "abc");
}

#[test]
fn restored_events_are_remembered() {
    let mut store = EventStore::new();
    let loaded = vec![ConversationEvent { timestamp: 5000, event_type: "x".to_string(), message: "m".to_string() }];
    let back = restore_events(&mut store, "c.txt", loaded);
    assert_eq!(back.len(), 1);
    assert_eq!(get_events(&store, "c")[0].message, "m");
    let back = restore_events(&mut store, "d", Vec::new());
    assert!(back.is_empty());
    assert!(get_events(&store, "d").is_empty());
}

#[test]
fn stored_rows() {
    assert_eq!(event_level("tool"), "event:tool");
    let ev = event_from_row("event:tool", "msg".to_string(), 12);
    assert_eq!(ev.event_type, "tool");
    assert_eq!(ev.timestamp, 12000);
    assert_eq!(event_from_row("info", "m".to_string(), 1).event_type, "info");
}

#[test]
fn global_status() {
    let mut status: Option<String> = None;
    set_global_status(&mut status, "compacting");
    assert_eq!(get_global_status(&status), Some("compacting".to_string()));
    set_global_status(&mut status, "");
    assert_eq!(get_global_status(&status), None);
    set_global_status(&mut status, "x");
    clear_global_status(&mut status);
    assert_eq!(get_global_status(&status), None);
}
