use cthulhu_bot::commands::{BotCommandManager, CommandKind, CommandStatus};
use cthulhu_bot::logging::BotEventCounter;

#[test]
fn finds_registered_commands() {
    assert_eq!(BotCommandManager::find_command("sk7"), Some(CommandKind::Sk7));
    assert_eq!(BotCommandManager::find_command("cs"), Some(CommandKind::CreateSheet));
    assert_eq!(BotCommandManager::find_command("봇입장"), Some(CommandKind::BotJoin));
    assert_eq!(BotCommandManager::find_command("roll"), None);
    assert_eq!(BotCommandManager::find_command(""), None);
}

#[test]
fn registered_names_are_distinct() {
    let kinds = BotCommandManager::registered();
    let mut names: Vec<&str> = kinds.iter().map(|k| k.name()).collect();
    let n = names.len();
    names.sort();
    names.dedup();
    assert_eq!(names.len(), n);
    let specs = BotCommandManager::register_all();
    assert_eq!(specs.len(), n);
    for (k, s) in kinds.iter().zip(specs.iter()) {
        assert_eq!(k.name(), s.name);
    }
}

#[test]
fn error_reply() {
    let r = BotCommandManager::reply_error("문제".to_string());
    let e = r.embed.unwrap();
    assert!(!r.ephemeral);
    assert_eq!(e.title, "ERROR");
    assert_eq!(e.fields[0].name, "Message");
    assert_eq!(e.fields[0].value, "문제");
    assert_eq!(e.colour, Some(0xE74C3C));
}

#[test]
fn complete_counts_and_reports_errors() {
    let mut counter = BotEventCounter::new();
    assert!(BotCommandManager::complete(&mut counter, "sk7", CommandStatus::Done).is_none());
    let r = BotCommandManager::complete(&mut counter, "sk7", CommandStatus::Failed("x".to_string())).unwrap();
    assert_eq!(r.embed.unwrap().fields[0].value, "x");
    assert_eq!(counter.count("sk7"), 2);
}
