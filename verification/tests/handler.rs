use cthulhu_bot::commands::channel::ChannelStore;
use cthulhu_bot::commands::create_sheet::{CharacterSheet, SheetStore};
use cthulhu_bot::handler::BotHandler;

fn setup() -> (ChannelStore, SheetStore) {
    let mut channels = ChannelStore::new();
    channels.insert(100);
    let mut sheets = SheetStore::new();
    sheets.insert(1, CharacterSheet { name: "Kim".to_string(), ..CharacterSheet::default() });
    sheets.insert(2, CharacterSheet::default());
    (channels, sheets)
}

#[test]
fn relays_character_talk() {
    let (channels, sheets) = setup();
    let p = BotHandler::message(false, "안녕", Some("http://a/b.png".to_string()), 100, 1, &channels, &sheets).unwrap();
    assert_eq!(p.username, "Kim");
    assert_eq!(p.content, "안녕");
    assert_eq!(p.avatar_url, Some("http://a/b.png".to_string()));
}

#[test]
fn does_not_relay_others() {
    let (channels, sheets) = setup();
    assert!(BotHandler::message(true, "hi", None, 100, 1, &channels, &sheets).is_none());
    for text in ["/roll", "!x", "(ooc)"] {
        assert!(BotHandler::message(false, text, None, 100, 1, &channels, &sheets).is_none());
    }
    assert!(BotHandler::message(false, "hi", None, 200, 1, &channels, &sheets).is_none());
    assert!(BotHandler::message(false, "hi", None, 100, 2, &channels, &sheets).is_none());
    assert!(BotHandler::message(false, "hi", None, 100, 3, &channels, &sheets).is_none());
    assert!(BotHandler::message(false, "", None, 100, 1, &channels, &sheets).is_some());
}

#[test]
fn inactive_channel_only_allows_join() {
    let (channels, _) = setup();
    let n = BotHandler::interaction_create("sk7", 200, &channels).unwrap();
    assert!(n.ephemeral);
    assert_eq!(
        n.content.unwrap(),
        "이 채널에서는 봇이 비활성화되어 있습니다. `/봇입장`을 입력해 활성화해주세요."
    );
    assert!(BotHandler::interaction_create("봇입장", 200, &channels).is_none());
    assert!(BotHandler::interaction_create("봇퇴장", 200, &channels).is_some());
    assert!(BotHandler::interaction_create("sk7", 100, &channels).is_none());
}
