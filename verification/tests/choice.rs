use cthulhu_bot::commands::choice::ChooseCommand;
use cthulhu_bot::commands::{CommandInput, CommandOption, OptionValue};
use cthulhu_bot::text::split_text;

fn input(choices: &str) -> CommandInput {
    CommandInput {
        command: "choose".to_string(),
        user_id: 1,
        channel_id: 2,
        nickname: "Alice".to_string(),
        options: vec![CommandOption { name: "선택지".to_string(), value: OptionValue::Text(choices.to_string()) }],
    }
}

#[test]
fn split_at_commas() {
    assert_eq!(split_text("사과,바나나,포도", ','), vec!["사과", "바나나", "포도"]);
    assert_eq!(split_text("", ','), vec![""]);
    assert_eq!(split_text(",,", ','), vec!["", "", ""]);
    assert_eq!(split_text("a, b", ','), vec!["a", " b"]);
}

#[test]
fn split_then_join_gives_text_back() {
    for s in ["", ",", "a,b,,c", "사과,바나나"] {
        assert_eq!(split_text(s, ',').join(","), s);
    }
}

#[test]
fn choose_picks_one_of_the_pieces() {
    let mut picked = std::collections::HashSet::new();
    for _ in 0..200 {
        let e = ChooseCommand.execute(&input("사과,바나나,포도")).embed.unwrap();
        assert_eq!(e.title, "Alice의 선택");
        assert_eq!(e.fields[0].value, "선택지: 사과, 바나나, 포도");
        assert!(["**사과**", "**바나나**", "**포도**"].contains(&e.fields[0].name.as_str()));
        picked.insert(e.fields[0].name.clone());
    }
    assert!(picked.len() > 1);
}

#[test]
fn choose_single_and_empty() {
    let e = ChooseCommand.execute(&input("하나")).embed.unwrap();
    assert_eq!(e.fields[0].name, "**하나**");
    let e = ChooseCommand.execute(&input("")).embed.unwrap();
    assert_eq!(e.fields[0].name, "****");
    assert_eq!(e.fields[0].value, "선택지: ");
}

#[test]
fn choose_declaration() {
    assert_eq!(ChooseCommand.name(), "choose");
    let spec = ChooseCommand.create();
    assert_eq!(spec.options[0].name, "선택지");
    assert!(spec.options[0].required);
}
