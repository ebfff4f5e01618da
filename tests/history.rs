use chat_history::{ChannelId, ChatHistory, ChatPrune, Message};

const WHITE: [f32; 4] = [1.0, 1.0, 1.0, 1.0];
const RED: [f32; 4] = [0.7, 0.2, 0.1, 1.0];
const BLUE: [f32; 4] = [0.2, 0.4, 0.9, 1.0];

fn two_channels(prune: ChatPrune) -> ChatHistory<[f32; 4]> {
    let channels = vec![(String::from("General"), WHITE), (String::from("Combat"), RED)];
    let messages: [(&str, ChannelId); 0] = [];
    ChatHistory::from_existing(&channels, &messages, prune)
}

fn numbered(n: usize) -> Vec<u8> {
    format!("message {}", n).into_bytes()
}

fn payloads(ms: &[Message]) -> Vec<Vec<u8>> {
    ms.iter().map(|m| m.payload.clone()).collect()
}

fn send_numbered(h: &mut ChatHistory<[f32; 4]>, from: usize, to: usize) {
    for n in from..=to {
        h.send_message(ChannelId::new(1), &numbered(n));
    }
}

fn expected(from: usize, to: usize) -> Vec<Vec<u8>> {
    (from..=to).map(numbered).collect()
}

#[test]
fn prune_keeps_the_ten_newest_of_fifteen() {
    let mut h = two_channels(ChatPrune { enabled: true, length: 10 });
    send_numbered(&mut h, 1, 15);
    h.prune();
    assert_eq!(payloads(h.iter_history()), expected(6, 15));
    assert_eq!(payloads(h.iter_backup()), expected(1, 5));
}

#[test]
fn restore_after_prune_shows_all_fifteen() {
    let mut h = two_channels(ChatPrune { enabled: true, length: 10 });
    send_numbered(&mut h, 1, 15);
    h.prune();
    h.restore();
    assert_eq!(payloads(h.iter_history()), expected(1, 15));
    assert!(h.iter_backup().is_empty());
}

#[test]
fn rename_second_channel() {
    let mut h = two_channels(ChatPrune { enabled: false, length: 0 });
    assert!(h.rename_channel(ChannelId::new(1), "Skirmish"));
    assert_eq!(
        h.channel_names(),
        vec![(String::from("General"), WHITE), (String::from("Skirmish"), RED)]
    );
}

#[test]
fn rename_unknown_channel_fails() {
    let mut h = two_channels(ChatPrune { enabled: false, length: 0 });
    let before = h.channel_names();
    assert!(!h.rename_channel(ChannelId::new(99), "X"));
    assert_eq!(h.channel_names(), before);
}

#[test]
fn prune_disabled_keeps_all_twenty() {
    let mut h = two_channels(ChatPrune { enabled: false, length: 5 });
    send_numbered(&mut h, 1, 20);
    h.prune();
    assert_eq!(payloads(h.iter_history()), expected(1, 20));
    assert!(h.iter_backup().is_empty());
}

#[test]
fn backup_then_history_is_send_order() {
    let mut h = two_channels(ChatPrune { enabled: true, length: 3 });
    send_numbered(&mut h, 1, 5);
    h.prune();
    send_numbered(&mut h, 6, 8);
    h.prune();
    h.restore();
    h.set_prune(true, 2);
    h.prune();
    send_numbered(&mut h, 9, 9);
    h.prune();
    let mut all = payloads(h.iter_backup());
    all.extend(payloads(h.iter_history()));
    assert_eq!(all, expected(1, 9));
    assert_eq!(payloads(h.iter_history()), expected(8, 9));
}

#[test]
fn restore_twice_equals_restore_once() {
    let mut h = two_channels(ChatPrune { enabled: true, length: 4 });
    send_numbered(&mut h, 1, 7);
    h.prune();
    h.restore();
    let once_log = payloads(h.iter_history());
    h.restore();
    assert_eq!(payloads(h.iter_history()), once_log);
    assert!(h.iter_backup().is_empty());
    assert_eq!(once_log, expected(1, 7));
}

#[test]
fn prune_bounds_the_log() {
    for length in 0..8usize {
        let mut h = two_channels(ChatPrune { enabled: true, length });
        send_numbered(&mut h, 1, 6);
        h.prune();
        assert!(h.iter_history().len() <= length);
        assert_eq!(h.iter_history().len() + h.iter_backup().len(), 6);
    }
}

#[test]
fn prune_to_zero_empties_the_log() {
    let mut h = two_channels(ChatPrune { enabled: true, length: 0 });
    send_numbered(&mut h, 1, 3);
    h.prune();
    assert!(h.iter_history().is_empty());
    assert_eq!(payloads(h.iter_backup()), expected(1, 3));
}

#[test]
fn prune_within_bound_is_a_no_op() {
    let mut h = two_channels(ChatPrune { enabled: true, length: 10 });
    send_numbered(&mut h, 1, 10);
    h.prune();
    assert_eq!(payloads(h.iter_history()), expected(1, 10));
    assert!(h.iter_backup().is_empty());
}

#[test]
fn restore_with_empty_archive_changes_nothing() {
    let mut h = two_channels(ChatPrune { enabled: false, length: 0 });
    send_numbered(&mut h, 1, 2);
    h.restore();
    assert_eq!(payloads(h.iter_history()), expected(1, 2));
    assert!(h.iter_backup().is_empty());
}

#[test]
fn registering_twice_keeps_the_first() {
    let mut h = two_channels(ChatPrune { enabled: false, length: 0 });
    h.add_channel(ChannelId::new(2), "Whisper", BLUE);
    let once = h.channel_names();
    h.add_channel(ChannelId::new(2), "Other", WHITE);
    assert_eq!(h.channel_names(), once);
    assert_eq!(once.len(), 3);
    assert_eq!(once[2], (String::from("Whisper"), BLUE));
}

#[test]
fn registering_a_known_id_is_a_no_op() {
    let mut h = two_channels(ChatPrune { enabled: false, length: 0 });
    let before = h.channel_names();
    h.add_channel(ChannelId::new(0), "Renamed", BLUE);
    assert_eq!(h.channel_names(), before);
}

#[test]
fn lookup_finds_registered_channels_only() {
    let h = two_channels(ChatPrune { enabled: false, length: 0 });
    let c = h.lookup_channel(ChannelId::new(1)).unwrap();
    assert_eq!(c.id, ChannelId::new(1));
    assert_eq!(c.name, "Combat");
    assert_eq!(c.text_color, RED);
    assert!(h.lookup_channel(ChannelId::new(2)).is_none());
}

#[test]
fn lookup_mut_changes_the_colour_in_place() {
    let mut h = two_channels(ChatPrune { enabled: false, length: 0 });
    h.lookup_channel_mut(ChannelId::new(0)).unwrap().text_color = BLUE;
    assert_eq!(
        h.channel_names(),
        vec![(String::from("General"), BLUE), (String::from("Combat"), RED)]
    );
    assert!(h.lookup_channel_mut(ChannelId::new(7)).is_none());
}

#[test]
fn from_existing_seeds_ids_messages_and_does_not_prune() {
    let channels = vec![(String::from("General"), WHITE), (String::from("Combat"), RED)];
    let messages = [("hello", ChannelId::new(0)), ("hit", ChannelId::new(1)), ("bye", ChannelId::new(0))];
    let h = ChatHistory::from_existing(&channels, &messages, ChatPrune { enabled: true, length: 1 });
    assert_eq!(h.lookup_channel(ChannelId::new(0)).unwrap().name, "General");
    assert_eq!(h.lookup_channel(ChannelId::new(1)).unwrap().name, "Combat");
    assert_eq!(
        payloads(h.iter_history()),
        vec![b"hello".to_vec(), b"hit".to_vec(), b"bye".to_vec()]
    );
    assert_eq!(h.iter_history()[1].channel_id, ChannelId::new(1));
    assert!(h.iter_backup().is_empty());
    assert_eq!(h.get_prune(), ChatPrune { enabled: true, length: 1 });
}

#[test]
fn set_prune_moves_no_message() {
    let mut h = two_channels(ChatPrune { enabled: false, length: 0 });
    send_numbered(&mut h, 1, 4);
    h.set_prune(true, 1);
    assert_eq!(h.get_prune(), ChatPrune { enabled: true, length: 1 });
    assert_eq!(payloads(h.iter_history()), expected(1, 4));
    assert!(h.iter_backup().is_empty());
}

#[test]
fn messages_for_unknown_channels_are_kept() {
    let mut h = two_channels(ChatPrune { enabled: false, length: 0 });
    h.send_message(ChannelId::new(42), &[0xff, 0x00]);
    assert_eq!(h.iter_history().len(), 1);
    assert_eq!(h.iter_history()[0].channel_id, ChannelId::new(42));
    assert_eq!(h.iter_history()[0].payload, vec![0xff, 0x00]);
}
