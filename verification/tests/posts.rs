use cthulhu_bot::commands::desc::DescCommand;
use cthulhu_bot::commands::npc::NpcCommand;
use cthulhu_bot::commands::{CommandInput, CommandOption, InteractionUtil, OptionValue};

fn input(options: Vec<(&str, OptionValue)>) -> CommandInput {
    CommandInput {
        command: "x".to_string(),
        user_id: 1,
        channel_id: 2,
        nickname: "Nick".to_string(),
        options: options
            .into_iter()
            .map(|(n, v)| CommandOption { name: n.to_string(), value: v })
            .collect(),
    }
}

#[test]
fn narration_posts() {
    let n = DescCommand.execute(&input(vec![("내용", OptionValue::Text("바람이 분다".to_string()))]));
    assert_eq!(n.first.username, "\u{200B}\u{200B}");
    assert_eq!(n.first.content, "***바람이 분다***");
    assert_eq!(n.first.avatar_url, None);
    assert_eq!(n.fallback.username, "내레이션");
    assert_eq!(n.fallback.content, "***바람이 분다***");
}

#[test]
fn npc_post() {
    let p = NpcCommand.execute(&input(vec![
        ("이름", OptionValue::Text("경비원".to_string())),
        ("대사", OptionValue::Text("멈춰!".to_string())),
    ]));
    assert_eq!(p.username, "경비원");
    assert_eq!(p.content, "멈춰!");
}

#[test]
fn option_lookup_takes_first_match() {
    let i = input(vec![
        ("a", OptionValue::Integer(5_000_000_000)),
        ("b", OptionValue::Text("x".to_string())),
        ("a", OptionValue::Integer(1)),
    ]);
    assert_eq!(i.get_int_option("a".to_string()), Some(5_000_000_000i64 as i32));
    assert_eq!(i.get_string_option("b".to_string()), Some("x"));
    assert_eq!(i.get_string_option("c".to_string()), None);
    assert_eq!(i.get_nickname(), "Nick");
    assert!(i.has_integer("a"));
    assert!(!i.has_text("a"));
    assert!(i.has_text("b"));
}

#[test]
fn optional_options_may_be_absent() {
    let i = input(vec![("a", OptionValue::Integer(3)), ("b", OptionValue::Text("x".to_string())), ("c", OptionValue::Other)]);
    assert!(i.text_or_absent_at("b"));
    assert!(i.text_or_absent_at("z"));
    assert!(!i.text_or_absent_at("a"));
    assert!(!i.text_or_absent_at("c"));
    assert!(i.integer_or_absent_at("a"));
    assert!(i.integer_or_absent_at("z"));
    assert!(!i.integer_or_absent_at("b"));
    assert!(!i.integer_or_absent_at("c"));
    assert!(!i.has_integer("z"));
    assert!(!i.has_text("z"));
}
