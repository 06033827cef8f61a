use cthulhu_bot::commands::create_sheet::{
    load_sheets, save_sheets, CSCommand, CharacterSheet, Characteristics, EditNameCommand, EditStatCommand,
    SheetStore, ShowSheetCommand, Stat,
};
use cthulhu_bot::commands::{CommandInput, CommandOption, OptionValue};

const NO_SHEET: &str = "저장된 캐릭터 시트가 없습니다. `/cs` 명령어로 먼저 시트를 생성해 주세요.";

fn input(user: u64, options: Vec<(&str, OptionValue)>) -> CommandInput {
    CommandInput {
        command: "test".to_string(),
        user_id: user,
        channel_id: 1,
        nickname: "닉네임".to_string(),
        options: options
            .into_iter()
            .map(|(n, v)| CommandOption { name: n.to_string(), value: v })
            .collect(),
    }
}

fn cs_input(user: u64, name: &str, con: i64, siz: i64, pow: i64) -> CommandInput {
    let mut opts = vec![("이름", OptionValue::Text(name.to_string()))];
    for (k, v) in [
        ("근력", 60),
        ("건강", con),
        ("크기", siz),
        ("민첩", 70),
        ("외모", 50),
        ("지능", 65),
        ("정신", pow),
        ("교육", 75),
        ("운", 45),
    ] {
        opts.push((k, OptionValue::Integer(v)));
    }
    input(user, opts)
}

#[test]
fn create_sheet_derives_points() {
    let s = CharacterSheet::create(
        "Kim".to_string(),
        Characteristics {
            str_val: 60,
            con_val: 50,
            siz_val: 60,
            dex_val: 70,
            app_val: 50,
            int_val: 65,
            pow_val: 65,
            edu_val: 75,
            luck: 45,
        },
    );
    assert_eq!((s.hp, s.hp_max), (11, 11));
    assert_eq!((s.mp, s.mp_max), (13, 13));
    assert_eq!(s.san, 65);
    assert_eq!(s.name, "Kim");
}

#[test]
fn create_sheet_rounds_toward_zero() {
    let s = CharacterSheet::create(
        String::new(),
        Characteristics {
            str_val: 0,
            con_val: -15,
            siz_val: 0,
            dex_val: 0,
            app_val: 0,
            int_val: 0,
            pow_val: -7,
            edu_val: 0,
            luck: 0,
        },
    );
    assert_eq!(s.hp_max, -1);
    assert_eq!(s.mp_max, -1);
}

#[test]
fn cs_command_saves_and_shows() {
    let mut store = SheetStore::new();
    let r = CSCommand.execute(&mut store, &cs_input(5, "Kim", 50, 60, 65));
    let e = r.embed.unwrap();
    assert!(!r.ephemeral);
    assert_eq!(e.title, "탐사자: Kim");
    assert_eq!(e.fields.len(), 12);
    assert_eq!(e.fields[0].name, ":muscle: 근력");
    assert_eq!(e.fields[0].value, "60");
    assert_eq!(e.fields[8].name, ":heart: 체력");
    assert_eq!(e.fields[8].value, "11/11");
    assert_eq!(e.fields[9].value, "13/13");
    assert_eq!(e.fields[11].name, ":brain: 이성");
    assert_eq!(e.fields[11].value, "65");
    assert!(e.fields.iter().all(|f| f.inline));
    assert_eq!(store.len(), 1);
    assert_eq!(store.get(5).unwrap().hp, 11);
}

#[test]
fn cs_with_the_eight_characteristics_only() {
    let mut store = SheetStore::new();
    let mut opts = Vec::new();
    for (k, v) in [("근력", 60), ("건강", 60), ("크기", 65), ("민첩", 70), ("외모", 50), ("지능", 65), ("정신", 50), ("교육", 75)] {
        opts.push((k, OptionValue::Integer(v)));
    }
    let r = CSCommand.execute(&mut store, &input(9, opts));
    let e = r.embed.unwrap();
    assert_eq!(e.title, "탐사자: 닉네임");
    assert_eq!(e.fields[8].value, "12/12");
    assert_eq!(e.fields[10].value, "0");
    let s = store.get(9).unwrap();
    assert_eq!(s.name, "");
    assert_eq!(s.luck, 0);
    assert_eq!(s.san, 50);
}

#[test]
fn cs_declaration() {
    let spec = CSCommand.create();
    assert_eq!(CSCommand.name(), "cs");
    assert_eq!(spec.name, "cs");
    let required: Vec<&str> = spec.options.iter().filter(|o| o.required).map(|o| o.name.as_str()).collect();
    assert_eq!(required, vec!["근력", "건강", "크기", "민첩", "외모", "지능", "정신", "교육"]);
    assert_eq!(spec.options.len(), 10);
    assert!(!spec.options[8].required && spec.options[8].name == "이름");
    assert!(!spec.options[9].required && spec.options[9].name == "운");
}

#[test]
fn show_sheet_after_create() {
    let mut store = SheetStore::new();
    CSCommand.execute(&mut store, &cs_input(5, "Kim", 50, 60, 65));
    let r = ShowSheetCommand.execute(&store, &input(5, vec![]));
    assert!(r.ephemeral);
    assert_eq!(r.embed.unwrap().title, "탐사자: Kim");
}

#[test]
fn show_sheet_without_sheet() {
    let store = SheetStore::new();
    let r = ShowSheetCommand.execute(&store, &input(5, vec![]));
    assert!(r.ephemeral);
    assert!(r.embed.is_none());
    assert_eq!(r.content.unwrap(), NO_SHEET);
}

#[test]
fn show_sheet_uses_nickname_for_unnamed_sheet() {
    let mut store = SheetStore::new();
    CSCommand.execute(&mut store, &cs_input(5, "", 50, 60, 65));
    let r = ShowSheetCommand.execute(&store, &input(5, vec![]));
    assert_eq!(r.embed.unwrap().title, "탐사자: 닉네임");
}

#[test]
fn edit_name_creates_blank_sheet() {
    let mut store = SheetStore::new();
    let r = EditNameCommand.execute(&mut store, &input(3, vec![("이름", OptionValue::Text("Lee".to_string()))]));
    let e = r.embed.unwrap();
    assert_eq!(e.title, "캐릭터 이름 설정 완료");
    assert_eq!(
        e.description.unwrap(),
        "캐릭터 이름이 **이름 없음**에서 **Lee**(으)로 변경되었습니다.\n이제 일반 채팅을 입력하면 이 캐릭터 이름으로 자동 출력됩니다."
    );
    let s = store.get(3).unwrap();
    assert_eq!(s.name, "Lee");
    assert_eq!(s.str_val, 0);
}

#[test]
fn edit_name_keeps_stats() {
    let mut store = SheetStore::new();
    CSCommand.execute(&mut store, &cs_input(3, "Kim", 50, 60, 65));
    let r = EditNameCommand.execute(&mut store, &input(3, vec![("이름", OptionValue::Text("Park".to_string()))]));
    assert!(r.embed.unwrap().description.unwrap().starts_with("캐릭터 이름이 **Kim**에서 **Park**"));
    let s = store.get(3).unwrap();
    assert_eq!(s.name, "Park");
    assert_eq!(s.pow_val, 65);
}

#[test]
fn edit_stat_reports_change() {
    let mut store = SheetStore::new();
    CSCommand.execute(&mut store, &cs_input(3, "Kim", 50, 60, 65));
    let r = EditStatCommand
        .execute(
            &mut store,
            &input(3, vec![("특성치", OptionValue::Text("dex".to_string())), ("수치", OptionValue::Integer(80))]),
        )
        .unwrap();
    let e = r.embed.unwrap();
    assert_eq!(e.title, "Kim의 특성치 수정 완료");
    assert_eq!(e.description.unwrap(), "**민첩** 수치 변경: **70** -> **80**");
    assert_eq!(store.get(3).unwrap().dex_val, 80);
    assert_eq!(store.get(3).unwrap().str_val, 60);
}

#[test]
fn edit_stat_madness_threshold() {
    let mut store = SheetStore::new();
    CSCommand.execute(&mut store, &cs_input(3, "Kim", 50, 60, 65));
    let edit = |store: &mut SheetStore, v: i64| {
        EditStatCommand
            .execute(
                store,
                &input(3, vec![("특성치", OptionValue::Text("san".to_string())), ("수치", OptionValue::Integer(v))]),
            )
            .unwrap()
            .embed
            .unwrap()
            .description
            .unwrap()
    };
    assert_eq!(edit(&mut store, 52), "**이성** 수치 변경: **65** -> **52**");
    assert_eq!(
        edit(&mut store, 51),
        "**이성** 수치 변경: **52** -> **51**\n\n:warning: **이성이 정신 스탯의 80% 미만으로 떨어져 광기에 걸렸습니다!**"
    );
}

#[test]
fn edit_stat_refused() {
    let mut store = SheetStore::new();
    let args = vec![("특성치", OptionValue::Text("dex".to_string())), ("수치", OptionValue::Integer(80))];
    assert_eq!(EditStatCommand.execute(&mut store, &input(3, args)).err().unwrap(), NO_SHEET);
    CSCommand.execute(&mut store, &cs_input(3, "Kim", 50, 60, 65));
    let bad = vec![("특성치", OptionValue::Text("foo".to_string())), ("수치", OptionValue::Integer(80))];
    assert_eq!(EditStatCommand.execute(&mut store, &input(3, bad)).err().unwrap(), NO_SHEET);
    assert_eq!(store.get(3).unwrap().dex_val, 70);
}

#[test]
fn stat_keys_parse() {
    assert_eq!(Stat::parse("luck"), Some(Stat::Luck));
    assert_eq!(Stat::parse("hp"), Some(Stat::Hp));
    assert_eq!(Stat::parse("HP"), None);
    assert_eq!(Stat::San.label(), "이성");
}

#[test]
fn sheets_save_and_load_back() {
    let mut store = SheetStore::new();
    CSCommand.execute(&mut store, &cs_input(3, "Kim", 50, 60, 65));
    CSCommand.execute(&mut store, &cs_input(4, "Lee", 40, 40, 40));
    let saved = save_sheets(&store);
    assert_eq!(saved.len(), 2);
    let mut keys: Vec<String> = saved.iter().map(|(k, _)| k.clone()).collect();
    keys.sort();
    assert_eq!(keys, vec!["3".to_string(), "4".to_string()]);
    let loaded = load_sheets(saved);
    assert_eq!(loaded.len(), 2);
    assert_eq!(loaded.get(3).unwrap().name, "Kim");
    assert_eq!(loaded.get(4).unwrap().hp_max, 8);
}

#[test]
fn load_sheets_keeps_last_entry() {
    let a = CharacterSheet { name: "A".to_string(), ..CharacterSheet::default() };
    let b = CharacterSheet { name: "B".to_string(), ..CharacterSheet::default() };
    let store = load_sheets(vec![("1".to_string(), a), ("1".to_string(), b)]);
    assert_eq!(store.len(), 1);
    assert_eq!(store.get(1).unwrap().name, "B");
}

#[test]
fn load_sheets_keeps_other_keys_aside() {
    let sheet = |name: &str| CharacterSheet { name: name.to_string(), ..CharacterSheet::default() };
    let store = load_sheets(vec![
        ("007".to_string(), sheet("zero")),
        ("+8".to_string(), sheet("plus")),
        ("abc".to_string(), sheet("letters")),
        ("".to_string(), sheet("empty")),
        ("18446744073709551616".to_string(), sheet("too big")),
        ("18446744073709551615".to_string(), sheet("largest")),
        ("0".to_string(), sheet("zero id")),
    ]);
    assert_eq!(store.len(), 2);
    assert_eq!(store.get(u64::MAX).unwrap().name, "largest");
    assert_eq!(store.get(0).unwrap().name, "zero id");
    assert!(store.get(7).is_none());
    assert!(store.get(8).is_none());
    let saved = save_sheets(&store);
    assert_eq!(saved.len(), 7);
    let kept: Vec<(&str, &str)> = saved[2..].iter().map(|(k, s)| (k.as_str(), s.name.as_str())).collect();
    assert_eq!(
        kept,
        vec![("007", "zero"), ("+8", "plus"), ("abc", "letters"), ("", "empty"), ("18446744073709551616", "too big")]
    );
}

#[test]
fn edit_stat_declaration_has_choices() {
    let spec = EditStatCommand.create();
    assert_eq!(spec.name, "특성치수정");
    assert_eq!(spec.options[0].choices.len(), 12);
    assert_eq!(spec.options[0].choices[11], ("이성".to_string(), "san".to_string()));
    assert_eq!(CSCommand.create().options.len(), 10);
}

#[test]
fn cs_with_an_empty_name_keeps_it_in_the_title() {
    let mut store = SheetStore::new();
    let r = CSCommand.execute(&mut store, &cs_input(4, "", 50, 60, 65));
    assert_eq!(r.embed.unwrap().title, "탐사자: ");
    assert_eq!(store.get(4).unwrap().name, "");
}

#[test]
fn edit_stat_twice_is_once() {
    let mut store = SheetStore::new();
    CSCommand.execute(&mut store, &cs_input(3, "Kim", 50, 60, 65));
    let args = input(3, vec![("특성치", OptionValue::Text("luck".to_string())), ("수치", OptionValue::Integer(30))]);
    EditStatCommand.execute(&mut store, &args).unwrap();
    let first = save_sheets(&store);
    let r = EditStatCommand.execute(&mut store, &args).unwrap();
    assert_eq!(r.embed.unwrap().description.unwrap(), "**운** 수치 변경: **30** -> **30**");
    let second = save_sheets(&store);
    assert_eq!(first.len(), second.len());
    assert_eq!(store.get(3).unwrap().luck, 30);
    assert_eq!(first[0].1.luck, second[0].1.luck);
}
