use cthulhu_bot::commands::opposed::{Op7Command, Op7Progress, Op7Tie, OpposedRoll};
use cthulhu_bot::commands::roll_result::RollResult;
use cthulhu_bot::commands::{CommandInput, CommandOption, OptionValue};

fn roll(text: &str, result: RollResult) -> OpposedRoll {
    OpposedRoll { text: text.to_string(), result }
}

#[test]
fn judge_dice_without_bonus() {
    let r = Op7Command::judge_dice(50, 0, 5, &vec![2]);
    assert_eq!(r.text, ":star: 25 <= 50 / 2");
    assert_eq!(r.result, RollResult::HardSuccess(50));
    let r = Op7Command::judge_dice(50, 0, 5, &vec![0]);
    assert_eq!(r.text, ":trophy: 5 <= 50 / 5");
    assert_eq!(r.result, RollResult::ExtremeSuccess(50));
}

#[test]
fn judge_dice_double_zero_reads_hundred() {
    let r = Op7Command::judge_dice(99, 0, 0, &vec![0]);
    assert_eq!(r.text, ":x: 100 > 99");
    assert_eq!(r.result, RollResult::Failure(99));
}

#[test]
fn bonus_die_takes_lowest() {
    let r = Op7Command::judge_dice(50, 1, 0, &vec![0, 3]);
    assert_eq!(r.text, ":o: min([100, 30]) = 30 <= 50");
    assert_eq!(r.result, RollResult::Success(50));
}

#[test]
fn penalty_die_takes_highest() {
    let r = Op7Command::judge_dice(50, -1, 7, &vec![0, 9]);
    assert_eq!(r.text, ":x: max([7, 97]) = 97 > 50");
    assert_eq!(r.result, RollResult::Failure(50));
}

#[test]
fn roll_result_ordering() {
    assert!(RollResult::ExtremeSuccess(10) > RollResult::HardSuccess(90));
    assert!(RollResult::HardSuccess(10) > RollResult::Success(90));
    assert!(RollResult::Success(10) > RollResult::Failure(90));
    assert!(RollResult::Success(60) > RollResult::Success(50));
    assert!(RollResult::Failure(40) < RollResult::Failure(50));
    assert_eq!(
        RollResult::Success(50).partial_cmp(&RollResult::Success(50)),
        Some(std::cmp::Ordering::Equal)
    );
    assert_eq!(RollResult::Failure(3).to_string(), "실패");
    assert_eq!(RollResult::ExtremeSuccess(3).to_string(), "극단적 성공");
}

#[test]
fn settle_announces_winner_first() {
    let p = Op7Command::settle(
        "힘겨루기",
        "A",
        "B",
        roll(":o: 40 <= 50", RollResult::Success(50)),
        roll(":star: 20 <= 60 / 2", RollResult::HardSuccess(60)),
    );
    match p {
        Op7Progress::Decided(e) => {
            assert_eq!(e.title, "힘겨루기");
            assert_eq!(e.fields[0].name, ":first_place: B");
            assert_eq!(e.fields[0].value, ":star: 20 <= 60 / 2");
            assert_eq!(e.fields[1].name, ":second_place: A");
            assert_eq!(e.fields[1].value, ":o: 40 <= 50");
        }
        Op7Progress::Tied(_) => panic!("expected a decision"),
    }
}

#[test]
fn settle_ignores_player_order() {
    let a = || roll(":o: 40 <= 50", RollResult::Success(50));
    let b = || roll(":x: 70 > 60", RollResult::Failure(60));
    let p1 = Op7Command::settle("c", "A", "B", a(), b());
    let p2 = Op7Command::settle("c", "B", "A", b(), a());
    match (p1, p2) {
        (Op7Progress::Decided(x), Op7Progress::Decided(y)) => {
            assert_eq!(x.fields[0].name, y.fields[0].name);
            assert_eq!(x.fields[1].value, y.fields[1].value);
        }
        _ => panic!("expected decisions"),
    }
}

#[test]
fn equal_outcomes_tie_and_lower_roll_breaks_it() {
    let p = Op7Command::settle(
        "c",
        "A",
        "B",
        roll(":o: 40 <= 50", RollResult::Success(50)),
        roll(":o: 45 <= 50", RollResult::Success(50)),
    );
    let tie = match p {
        Op7Progress::Tied(t) => t,
        Op7Progress::Decided(_) => panic!("expected a tie"),
    };
    assert_eq!(tie.text1, ":o: 40 <= 50");
    let again = Op7Command::tie_round(tie, 42, 42);
    let tie = match again {
        Op7Progress::Tied(t) => t,
        Op7Progress::Decided(_) => panic!("equal rolls keep the tie"),
    };
    assert_eq!(tie.text1, ":o: 40 <= 50, 42");
    assert_eq!(tie.text2, ":o: 45 <= 50, 42");
    match Op7Command::tie_round(tie, 70, 30) {
        Op7Progress::Decided(e) => {
            assert_eq!(e.fields[0].name, ":first_place: B");
            assert_eq!(e.fields[0].value, ":o: 45 <= 50, 42, 30");
            assert_eq!(e.fields[1].value, ":o: 40 <= 50, 42, 70");
        }
        Op7Progress::Tied(_) => panic!("expected a decision"),
    }
}

#[test]
fn roll_dice_uses_one_tens_die_per_bonus() {
    for _ in 0..50 {
        let r = Op7Command::roll_dice(50, 2);
        assert!(r.text.contains("min(["));
        let list = &r.text[r.text.find("[").unwrap() + 1..r.text.find("]").unwrap()];
        assert_eq!(list.split(", ").count(), 3);
        for face in list.split(", ") {
            let v: i32 = face.parse().unwrap();
            assert!((1..=100).contains(&v));
        }
    }
}

#[test]
fn break_tie_appends_rolls() {
    let tie = Op7Tie {
        comment: "c".to_string(),
        name1: "A".to_string(),
        name2: "B".to_string(),
        text1: "x".to_string(),
        text2: "y".to_string(),
    };
    match Op7Command::break_tie(tie) {
        Op7Progress::Decided(e) => {
            assert!(e.fields[0].value.starts_with("x, ") || e.fields[0].value.starts_with("y, "));
        }
        Op7Progress::Tied(t) => {
            assert!(t.text1.starts_with("x, "));
            assert!(t.text2.starts_with("y, "));
        }
    }
}

#[test]
fn execute_reads_defaults() {
    let input = CommandInput {
        command: "op7".to_string(),
        user_id: 1,
        channel_id: 2,
        nickname: "N".to_string(),
        options: vec![
            CommandOption { name: "status1".to_string(), value: OptionValue::Integer(50) },
            CommandOption { name: "status2".to_string(), value: OptionValue::Integer(50) },
        ],
    };
    match Op7Command.execute(&input) {
        Op7Progress::Decided(e) => {
            assert_eq!(e.title, "대항 판정");
            assert!(e.fields[0].name == ":first_place: 참가자 1" || e.fields[0].name == ":first_place: 참가자 2");
        }
        Op7Progress::Tied(t) => {
            assert_eq!(t.comment, "대항 판정");
            assert_eq!(t.name1, "참가자 1");
            assert_eq!(t.name2, "참가자 2");
        }
    }
}

#[test]
fn op7_declaration() {
    let spec = Op7Command.create();
    assert_eq!(spec.name, "op7");
    assert_eq!(spec.options.len(), 7);
    assert!(spec.options[0].required && spec.options[1].required);
    assert!(!spec.options[2].required);
}

fn rank(r: RollResult) -> u8 {
    match r {
        RollResult::ExtremeSuccess(_) => 3,
        RollResult::HardSuccess(_) => 2,
        RollResult::Success(_) => 1,
        RollResult::Failure(_) => 0,
    }
}

#[test]
fn more_status_or_bonus_is_never_worse_on_the_same_dice() {
    let draws = vec![6, 1, 9];
    let mut last_rank = 0;
    for (status, bonus) in [(40, -2), (40, -1), (40, 0), (40, 1), (60, 1), (60, 2)] {
        let used: Vec<i32> = draws[..1 + (bonus as i32).unsigned_abs() as usize].to_vec();
        let r = Op7Command::judge_dice(status, bonus, 5, &used);
        assert!(rank(r.result) >= last_rank);
        last_rank = rank(r.result);
    }
    assert_eq!(rank(Op7Command::judge_dice(40, -2, 5, &vec![6, 1, 9]).result), 0);
    assert_eq!(rank(Op7Command::judge_dice(60, 2, 5, &vec![6, 1, 9]).result), 2);
}
