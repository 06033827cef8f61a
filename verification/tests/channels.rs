use cthulhu_bot::commands::channel::{
    load_channels, load_channels_json, save_channels, save_channels_json, BotJoinCommand, BotLeaveCommand, ChannelStore,
};
use cthulhu_bot::commands::CommandInput;

fn input(channel: u64) -> CommandInput {
    CommandInput {
        command: "봇입장".to_string(),
        user_id: 1,
        channel_id: channel,
        nickname: "n".to_string(),
        options: vec![],
    }
}

#[test]
fn join_then_leave() {
    let mut store = ChannelStore::new();
    let r = BotJoinCommand.execute(&mut store, &input(10));
    let e = r.embed.unwrap();
    assert_eq!(e.title, "봇 활성화");
    assert_eq!(e.description.unwrap(), "✅ 이 채널에서 봇이 작동합니다.");
    assert!(store.contains(10));
    assert!(!store.contains(11));
    let r = BotLeaveCommand.execute(&mut store, &input(10));
    let e = r.embed.unwrap();
    assert_eq!(e.title, "봇 비활성화");
    assert_eq!(e.description.unwrap(), "💤 이 채널에서 더 이상 봇이 작동하지 않습니다.");
    assert!(!store.contains(10));
}

#[test]
fn join_twice_is_once() {
    let mut store = ChannelStore::new();
    BotJoinCommand.execute(&mut store, &input(10));
    BotJoinCommand.execute(&mut store, &input(10));
    assert_eq!(save_channels(&store), vec![10]);
}

#[test]
fn channels_save_and_load_back() {
    let store = load_channels(vec![3, 1, 3, 2]);
    let mut saved = save_channels(&store);
    saved.sort();
    assert_eq!(saved, vec![1, 2, 3]);
    let again = load_channels(saved);
    assert!(again.contains(1) && again.contains(2) && again.contains(3));
    assert!(!again.contains(4));
}

#[test]
fn join_leave_names() {
    assert_eq!(BotJoinCommand.name(), "봇입장");
    assert_eq!(BotLeaveCommand.name(), "봇퇴장");
    assert_eq!(BotJoinCommand.create().description, "이 채널에서 봇이 작동하도록 활성화합니다.");
}

#[test]
fn channels_file_reads_and_writes_json() {
    let store = load_channels_json(Some("[3, 1, 3]"));
    assert!(store.contains(3));
    assert!(store.contains(1));
    assert!(!store.contains(2));
    assert_eq!(save_channels(&store).len(), 2);
    assert!(!load_channels_json(Some("not json")).contains(3));
    assert!(!load_channels_json(Some("[-1]")).contains(1));
    assert!(load_channels_json(None).list().is_empty());
    let mut one = ChannelStore::new();
    one.insert(5);
    assert_eq!(save_channels_json(&one), "[\n  5\n]");
    assert_eq!(save_channels_json(&ChannelStore::new()), "[]");
    let two = save_channels_json(&store);
    assert!(two == "[\n  3,\n  1\n]" || two == "[\n  1,\n  3\n]");
    let back = load_channels_json(Some(two.as_str()));
    assert!(back.contains(3) && back.contains(1));
    assert_eq!(back.list().len(), 2);
}
