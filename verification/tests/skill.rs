use cthulhu_bot::commands::skill::{Rulebook, SkBRPCommand, SkDGCommand, Sk7Command, SkillGrade, SkillHelper};
use cthulhu_bot::commands::{CommandInput, CommandOption, OptionValue};

fn input_with(options: Vec<(&str, OptionValue)>) -> CommandInput {
    CommandInput {
        command: "sk7".to_string(),
        user_id: 7,
        channel_id: 9,
        nickname: "Alice".to_string(),
        options: options
            .into_iter()
            .map(|(n, v)| CommandOption { name: n.to_string(), value: v })
            .collect(),
    }
}

fn judge(rule: Rulebook, roll: i32, chance: i32) -> (SkillGrade, String, String) {
    let j = SkillHelper::judge(rule, roll, chance);
    (j.grade, j.label, j.detail)
}

#[test]
fn coc7_grades_and_lines() {
    assert_eq!(
        judge(Rulebook::Coc7, 1, 50),
        (SkillGrade::Critical, ":star::crown::star: **대성공!!!**".to_string(), "1 <= 50".to_string())
    );
    assert_eq!(
        judge(Rulebook::Coc7, 10, 50),
        (SkillGrade::Extreme, ":crown: **극단적 성공!**".to_string(), "10 <= 50 / 5".to_string())
    );
    assert_eq!(
        judge(Rulebook::Coc7, 25, 50),
        (SkillGrade::Hard, ":o: **어려운 성공!**".to_string(), "25 <= 50 / 2".to_string())
    );
    assert_eq!(
        judge(Rulebook::Coc7, 40, 50),
        (SkillGrade::Regular, ":o: **보통 성공**".to_string(), "40 <= 50".to_string())
    );
    assert_eq!(
        judge(Rulebook::Coc7, 60, 50),
        (SkillGrade::Failure, ":x: **실패**".to_string(), "60 > 50".to_string())
    );
    assert_eq!(
        judge(Rulebook::Coc7, 97, 40),
        (SkillGrade::CriticalFailure, ":skull: **대실패!!!**".to_string(), "97 >= 40".to_string())
    );
    assert_eq!(judge(Rulebook::Coc7, 97, 60).0, SkillGrade::Failure);
}

#[test]
fn coc7_hundred_fumbles_below_two_hundred() {
    assert_eq!(
        judge(Rulebook::Coc7, 100, 150),
        (SkillGrade::CriticalFailure, ":skull: **대실패!!!**".to_string(), "100 >= 150".to_string())
    );
    assert_eq!(judge(Rulebook::Coc7, 100, 200).0, SkillGrade::Hard);
    assert_eq!(judge(Rulebook::Coc7, 100, 500).0, SkillGrade::Extreme);
}

#[test]
fn coc7_negative_chance_never_succeeds() {
    for roll in 1..=100 {
        let g = judge(Rulebook::Coc7, roll, -7).0;
        assert!(g == SkillGrade::Failure || g == SkillGrade::CriticalFailure);
    }
}

#[test]
fn coc7_success_matches_chance() {
    for chance in [0, 1, 30, 49, 50, 99, 100, 150, 199, 200] {
        for roll in 1..=100 {
            let g = judge(Rulebook::Coc7, roll, chance).0;
            let success = matches!(
                g,
                SkillGrade::Critical | SkillGrade::Extreme | SkillGrade::Hard | SkillGrade::Regular
            );
            assert_eq!(success, roll <= chance && !(roll == 100 && chance < 200));
        }
    }
}

#[test]
fn delta_green_grades_and_lines() {
    assert_eq!(
        judge(Rulebook::DeltaGreen, 1, 30),
        (SkillGrade::Critical, ":star::crown::star: **대성공!!!**".to_string(), "1 <= 30".to_string())
    );
    assert_eq!(
        judge(Rulebook::DeltaGreen, 4, 30),
        (SkillGrade::Special, ":crown: **대성공!**".to_string(), "4 <= 30".to_string())
    );
    assert_eq!(
        judge(Rulebook::DeltaGreen, 22, 30),
        (SkillGrade::Special, ":crown: **대성공!**".to_string(), "22 <= 30".to_string())
    );
    assert_eq!(
        judge(Rulebook::DeltaGreen, 23, 30),
        (SkillGrade::Regular, ":o: **보통 성공**".to_string(), "23 <= 30".to_string())
    );
    assert_eq!(
        judge(Rulebook::DeltaGreen, 100, 30),
        (SkillGrade::Fumble, ":fire::skull::fire: **펌블!!!**".to_string(), "100 > 30".to_string())
    );
    assert_eq!(
        judge(Rulebook::DeltaGreen, 97, 30),
        (SkillGrade::CriticalFailure, ":skull: **대실패!!!**".to_string(), "97 > 30".to_string())
    );
    assert_eq!(
        judge(Rulebook::DeltaGreen, 50, 30),
        (SkillGrade::Failure, ":x: **실패**".to_string(), "50 > 30".to_string())
    );
    assert_eq!(judge(Rulebook::DeltaGreen, 99, 99).0, SkillGrade::Special);
    assert_eq!(judge(Rulebook::DeltaGreen, 100, 100).0, SkillGrade::Regular);
}

#[test]
fn brp_grades_and_lines() {
    assert_eq!(
        judge(Rulebook::Brp, 3, 50),
        (SkillGrade::Critical, ":star::crown::star: **대성공!!!**".to_string(), "3 <= 50".to_string())
    );
    assert_eq!(
        judge(Rulebook::Brp, 10, 50),
        (SkillGrade::Special, ":crown: **특수 성공!**".to_string(), "10 <= 50".to_string())
    );
    assert_eq!(
        judge(Rulebook::Brp, 40, 50),
        (SkillGrade::Regular, ":o: **보통 성공**".to_string(), "40 <= 50".to_string())
    );
    assert_eq!(
        judge(Rulebook::Brp, 97, 50),
        (SkillGrade::Failure, ":x: **실패**".to_string(), "97 > 50".to_string())
    );
    assert_eq!(
        judge(Rulebook::Brp, 98, 50),
        (SkillGrade::CriticalFailure, ":skull: **대실패!!!**".to_string(), "98 > 50".to_string())
    );
}

#[test]
fn brp_zero_chance_roll_of_one_is_critical() {
    // (0 - 1) / 20 rounds toward zero, so the critical threshold stays at 1.
    assert_eq!(judge(Rulebook::Brp, 1, 0).0, SkillGrade::Critical);
    assert_eq!(judge(Rulebook::Brp, 2, 0).0, SkillGrade::Failure);
}

#[test]
fn skill_report_title_and_field() {
    let e = SkillHelper::report(Rulebook::Coc7, "Alice", "Listen", 10, 50);
    assert_eq!(e.title, "Alice의 Listen 판정");
    assert_eq!(e.description, None);
    assert_eq!(e.fields.len(), 1);
    assert_eq!(e.fields[0].name, ":crown: **극단적 성공!**");
    assert_eq!(e.fields[0].value, "10 <= 50 / 5");
    assert!(!e.fields[0].inline);
}

#[test]
fn skill_commands_roll_within_range() {
    let input = input_with(vec![("chance", OptionValue::Integer(50))]);
    let mut seen_rolls = std::collections::HashSet::new();
    for _ in 0..300 {
        let r = Sk7Command.execute(&input);
        let e = r.embed.unwrap();
        assert!(!r.ephemeral);
        assert_eq!(e.title, "Alice의 기능 판정");
        seen_rolls.insert(e.fields[0].value.clone());
    }
    // A generator that always gave the same value would show a single line.
    assert!(seen_rolls.len() > 5);
}

#[test]
fn skill_commands_use_comment() {
    let input = input_with(vec![
        ("chance", OptionValue::Integer(70)),
        ("comment", OptionValue::Text("도서관".to_string())),
    ]);
    let dg = SkDGCommand.execute(&input).embed.unwrap();
    assert_eq!(dg.title, "Alice의 도서관 판정");
    let brp = SkBRPCommand.execute(&input).embed.unwrap();
    assert_eq!(brp.title, "Alice의 도서관 판정");
}

#[test]
fn skill_command_names() {
    assert_eq!(Sk7Command.name(), "sk7");
    assert_eq!(SkDGCommand.name(), "skdg");
    assert_eq!(SkBRPCommand.name(), "skbrp");
    let spec = Sk7Command.create();
    assert_eq!(spec.options.len(), 2);
    assert_eq!(spec.options[0].name, "chance");
    assert!(spec.options[0].required);
    assert!(!spec.options[1].required);
}
