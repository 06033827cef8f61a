use vstd::prelude::*;

use crate::dice::roll_die;
use crate::commands::{int_value, text_or_absent, text_value, CommandInput, InteractionUtil, OptionValue};
use crate::embed::{cat2, cat3, cat4, embed_reply, field, public_embed, Embed, EmbedField, EmbedView, Reply, ReplyView};
use crate::text::{int_text, int_to_string, tdiv};

use crate::commands::spec::{command, option, option_view, CommandSpec, CommandSpecView, OptionKind, OptionSpec};

verus! {

/// The three rulebooks that the skill commands follow.
#[derive(PartialEq, Eq, Structural, Clone, Copy, Debug)]
pub enum Rulebook {
    /// Call of Cthulhu 7th Edition.
    Coc7,
    /// Delta Green.
    DeltaGreen,
    /// Basic Roleplaying 2023.
    Brp,
}

/// How a skill roll turned out.
#[derive(PartialEq, Eq, Structural, Clone, Copy, Debug)]
pub enum SkillGrade {
    /// A roll of 1 (BRP: at or under a twentieth of the skill).
    Critical,
    /// 7th Edition: at or under a fifth of the skill.
    Extreme,
    /// 7th Edition: at or under half of the skill.
    Hard,
    /// Delta Green: 5 or under, or a double, and at or under the skill;
    /// BRP: at or under a fifth of the skill.
    Special,
    /// At or under the skill.
    Regular,
    /// Delta Green: a roll of 100 above the skill.
    Fumble,
    /// A very high roll that fails badly.
    CriticalFailure,
    /// Over the skill.
    Failure,
}

/// The grade of a d100 `roll` against `chance` under Call of Cthulhu 7th Edition.
pub open spec fn coc7_grade(roll: int, chance: int) -> SkillGrade {
    if roll == 1 && roll <= chance {
        SkillGrade::Critical
    } else if roll <= tdiv(chance, 5) {
        SkillGrade::Extreme
    } else if roll <= tdiv(chance, 2) {
        SkillGrade::Hard
    } else if roll == 100 || (roll > 95 && chance < 50) {
        SkillGrade::CriticalFailure
    } else if roll <= chance {
        SkillGrade::Regular
    } else {
        SkillGrade::Failure
    }
}

/// The grade of a d100 `roll` against `chance` under Delta Green.
pub open spec fn dg_grade(roll: int, chance: int) -> SkillGrade {
    if roll == 1 && roll <= chance {
        SkillGrade::Critical
    } else if roll <= 5 && roll <= chance {
        SkillGrade::Special
    } else if tdiv(roll, 10) == roll % 10 && roll <= chance {
        SkillGrade::Special
    } else if roll == 100 && roll > chance {
        SkillGrade::Fumble
    } else if roll > 95 && roll > chance {
        SkillGrade::CriticalFailure
    } else if roll <= chance {
        SkillGrade::Regular
    } else {
        SkillGrade::Failure
    }
}

/// The lowest roll that fumbles under BRP 2023: `min(96 + (chance - 1) / 20, 100)`.
pub open spec fn brp_fumble_floor(chance: int) -> int {
    let f = 96 + tdiv(chance - 1, 20);
    if f < 100 { f } else { 100 }
}

/// The grade of a d100 `roll` against `chance` under BRP 2023.
pub open spec fn brp_grade(roll: int, chance: int) -> SkillGrade {
    if roll <= tdiv(chance - 1, 20) + 1 {
        SkillGrade::Critical
    } else if roll <= tdiv(chance - 1, 5) + 1 {
        SkillGrade::Special
    } else if roll >= brp_fumble_floor(chance) && roll > chance {
        SkillGrade::CriticalFailure
    } else if roll <= chance {
        SkillGrade::Regular
    } else {
        SkillGrade::Failure
    }
}

pub open spec fn grade_of(rule: Rulebook, roll: int, chance: int) -> SkillGrade {
    match rule {
        Rulebook::Coc7 => coc7_grade(roll, chance),
        Rulebook::DeltaGreen => dg_grade(roll, chance),
        Rulebook::Brp => brp_grade(roll, chance),
    }
}

/// The headline that the bot shows for a grade.
pub open spec fn grade_label(rule: Rulebook, grade: SkillGrade) -> Seq<char> {
    match grade {
        SkillGrade::Critical => ":star::crown::star: **대성공!!!**"@,
        SkillGrade::Extreme => ":crown: **극단적 성공!**"@,
        SkillGrade::Hard => ":o: **어려운 성공!**"@,
        SkillGrade::Special => if rule == Rulebook::Brp {
            ":crown: **특수 성공!**"@
        } else {
            ":crown: **대성공!**"@
        },
        SkillGrade::Regular => ":o: **보통 성공**"@,
        SkillGrade::Fumble => ":fire::skull::fire: **펌블!!!**"@,
        SkillGrade::CriticalFailure => ":skull: **대실패!!!**"@,
        SkillGrade::Failure => ":x: **실패**"@,
    }
}

/// `a <= b`, written out.
pub open spec fn at_most_text(a: int, b: int) -> Seq<char> {
    int_text(a) + " <= "@ + int_text(b)
}

/// `a > b`, written out.
pub open spec fn above_text(a: int, b: int) -> Seq<char> {
    int_text(a) + " > "@ + int_text(b)
}

/// The line under the headline: how the roll compares with the skill.
pub open spec fn grade_detail(rule: Rulebook, grade: SkillGrade, roll: int, chance: int) -> Seq<char> {
    match rule {
        Rulebook::Coc7 => match grade {
            SkillGrade::Critical => "1 <= "@ + int_text(chance),
            SkillGrade::Extreme => at_most_text(roll, chance) + " / 5"@,
            SkillGrade::Hard => at_most_text(roll, chance) + " / 2"@,
            SkillGrade::CriticalFailure => int_text(roll) + " >= "@ + int_text(chance),
            SkillGrade::Regular => at_most_text(roll, chance),
            _ => above_text(roll, chance),
        },
        Rulebook::DeltaGreen => match grade {
            SkillGrade::Critical => "1 <= "@ + int_text(chance),
            SkillGrade::Fumble => "100 > "@ + int_text(chance),
            SkillGrade::CriticalFailure => above_text(roll, chance),
            SkillGrade::Failure => above_text(roll, chance),
            _ => at_most_text(roll, chance),
        },
        Rulebook::Brp => match grade {
            SkillGrade::CriticalFailure => above_text(roll, chance),
            SkillGrade::Failure => above_text(roll, chance),
            _ => at_most_text(roll, chance),
        },
    }
}

/// The result of one skill roll: its grade and the two lines the bot shows.
pub struct SkillJudgement {
    pub grade: SkillGrade,
    pub label: String,
    pub detail: String,
}

/// What a judgement of `roll` against `chance` under `rule` holds.
pub open spec fn judged(j: SkillJudgement, rule: Rulebook, roll: int, chance: int) -> bool {
    &&& j.grade == grade_of(rule, roll, chance)
    &&& j.label@ == grade_label(rule, j.grade)
    &&& j.detail@ == grade_detail(rule, j.grade, roll, chance)
}

/// The title of a skill roll embed: `"{nickname}의 {comment} 판정"`.
pub open spec fn skill_title(nickname: Seq<char>, comment: Seq<char>) -> Seq<char> {
    nickname + "의 "@ + comment + " 판정"@
}

/// The embed that reports a skill roll.
pub open spec fn skill_embed(
    rule: Rulebook,
    nickname: Seq<char>,
    comment: Seq<char>,
    roll: int,
    chance: int,
) -> EmbedView {
    let grade = grade_of(rule, roll, chance);
    EmbedView {
        title: skill_title(nickname, comment),
        description: None,
        fields: seq![(grade_label(rule, grade), grade_detail(rule, grade, roll, chance), false)],
        colour: None,
    }
}

/// The comment that a skill roll shows when the user gave none.
pub open spec fn default_comment() -> Seq<char> {
    "기능"@
}

/// The comment given, or the default one.
pub open spec fn comment_or_default(comment: Option<&str>) -> Seq<char> {
    match comment {
        Some(c) => c@,
        None => default_comment(),
    }
}

fn label_of(rule: Rulebook, grade: SkillGrade) -> (s: &'static str)
    ensures
        s@ == grade_label(rule, grade),
{
    match grade {
        SkillGrade::Critical => ":star::crown::star: **대성공!!!**",
        SkillGrade::Extreme => ":crown: **극단적 성공!**",
        SkillGrade::Hard => ":o: **어려운 성공!**",
        SkillGrade::Special => if rule == Rulebook::Brp {
            ":crown: **특수 성공!**"
        } else {
            ":crown: **대성공!**"
        },
        SkillGrade::Regular => ":o: **보통 성공**",
        SkillGrade::Fumble => ":fire::skull::fire: **펌블!!!**",
        SkillGrade::CriticalFailure => ":skull: **대실패!!!**",
        SkillGrade::Failure => ":x: **실패**",
    }
}

fn at_most(a: i32, b: i32) -> (s: String)
    ensures
        s@ == at_most_text(a as int, b as int),
{
    let x = int_to_string(a as i64);
    let y = int_to_string(b as i64);
    cat3(x.as_str(), " <= ", y.as_str())
}

fn above(a: i32, b: i32) -> (s: String)
    ensures
        s@ == above_text(a as int, b as int),
{
    let x = int_to_string(a as i64);
    let y = int_to_string(b as i64);
    cat3(x.as_str(), " > ", y.as_str())
}

fn detail_of(rule: Rulebook, grade: SkillGrade, roll: i32, chance: i32) -> (s: String)
    ensures
        s@ == grade_detail(rule, grade, roll as int, chance as int),
{
    match rule {
        Rulebook::Coc7 => match grade {
            SkillGrade::Critical => {
                let c = int_to_string(chance as i64);
                cat2("1 <= ", c.as_str())
            },
            SkillGrade::Extreme => {
                let t = at_most(roll, chance);
                cat2(t.as_str(), " / 5")
            },
            SkillGrade::Hard => {
                let t = at_most(roll, chance);
                cat2(t.as_str(), " / 2")
            },
            SkillGrade::CriticalFailure => {
                let x = int_to_string(roll as i64);
                let y = int_to_string(chance as i64);
                cat3(x.as_str(), " >= ", y.as_str())
            },
            SkillGrade::Regular => at_most(roll, chance),
            _ => above(roll, chance),
        },
        Rulebook::DeltaGreen => match grade {
            SkillGrade::Critical => {
                let c = int_to_string(chance as i64);
                cat2("1 <= ", c.as_str())
            },
            SkillGrade::Fumble => {
                let c = int_to_string(chance as i64);
                cat2("100 > ", c.as_str())
            },
            SkillGrade::CriticalFailure => above(roll, chance),
            SkillGrade::Failure => above(roll, chance),
            _ => at_most(roll, chance),
        },
        Rulebook::Brp => match grade {
            SkillGrade::CriticalFailure => above(roll, chance),
            SkillGrade::Failure => above(roll, chance),
            _ => at_most(roll, chance),
        },
    }
}

/// A helper for skill rolls.
pub struct SkillHelper;

impl SkillHelper {
    /// Grades `roll` against `chance` under Call of Cthulhu 7th Edition.
    pub fn grade_7th(roll: i32, chance: i32) -> (g: SkillGrade)
        ensures
            g == coc7_grade(roll as int, chance as int),
    {
        if roll == 1 && roll <= chance {
            SkillGrade::Critical
        } else if roll <= chance / 5 {
            SkillGrade::Extreme
        } else if roll <= chance / 2 {
            SkillGrade::Hard
        } else if roll == 100 || (roll > 95 && chance < 50) {
            SkillGrade::CriticalFailure
        } else if roll <= chance {
            SkillGrade::Regular
        } else {
            SkillGrade::Failure
        }
    }

    /// Grades `roll` against `chance` under Delta Green.
    pub fn grade_dg(roll: i32, chance: i32) -> (g: SkillGrade)
        ensures
            g == dg_grade(roll as int, chance as int),
    {
        if roll == 1 && roll <= chance {
            SkillGrade::Critical
        } else if roll <= 5 && roll <= chance {
            SkillGrade::Special
        } else if roll / 10 == roll % 10 && roll <= chance {
            SkillGrade::Special
        } else if roll == 100 && roll > chance {
            SkillGrade::Fumble
        } else if roll > 95 && roll > chance {
            SkillGrade::CriticalFailure
        } else if roll <= chance {
            SkillGrade::Regular
        } else {
            SkillGrade::Failure
        }
    }

    /// Grades `roll` against `chance` under BRP 2023.
    pub fn grade_brp(roll: i32, chance: i32) -> (g: SkillGrade)
        requires
            chance > i32::MIN,
        ensures
            g == brp_grade(roll as int, chance as int),
    {
        let floor = if 96 + (chance - 1) / 20 < 100 { 96 + (chance - 1) / 20 } else { 100 };
        if roll <= (chance - 1) / 20 + 1 {
            SkillGrade::Critical
        } else if roll <= (chance - 1) / 5 + 1 {
            SkillGrade::Special
        } else if roll >= floor && roll > chance {
            SkillGrade::CriticalFailure
        } else if roll <= chance {
            SkillGrade::Regular
        } else {
            SkillGrade::Failure
        }
    }

    /// Grades `roll` against `chance` under `rule` and writes the two lines the bot shows.
    pub fn judge(rule: Rulebook, roll: i32, chance: i32) -> (j: SkillJudgement)
        requires
            rule == Rulebook::Brp ==> chance > i32::MIN,
        ensures
            judged(j, rule, roll as int, chance as int),
    {
        let grade = match rule {
            Rulebook::Coc7 => Self::grade_7th(roll, chance),
            Rulebook::DeltaGreen => Self::grade_dg(roll, chance),
            Rulebook::Brp => Self::grade_brp(roll, chance),
        };
        let label = String::from_str(label_of(rule, grade));
        let detail = detail_of(rule, grade, roll, chance);
        SkillJudgement { grade, label, detail }
    }

    /// The embed that reports `roll` against `chance` for `nickname`, under the title
    /// `"{nickname}의 {comment} 판정"`.
    pub fn report(rule: Rulebook, nickname: &str, comment: &str, roll: i32, chance: i32) -> (e: Embed)
        requires
            rule == Rulebook::Brp ==> chance > i32::MIN,
        ensures
            e@ == skill_embed(rule, nickname@, comment@, roll as int, chance as int),
    {
        let j = Self::judge(rule, roll, chance);
        let title = cat4(nickname, "의 ", comment, " 판정");
        let mut fields: Vec<EmbedField> = Vec::new();
        fields.push(field(j.label, j.detail, false));
        let e = Embed { title, description: None, fields, colour: None };
        assert(e@.fields =~= skill_embed(rule, nickname@, comment@, roll as int, chance as int).fields);
        e
    }

    /// Rolls a d100 for `nickname` against `chance` under `rule`; `comment` names
    /// the skill and defaults to `"기능"`.
    pub fn execute(rule: Rulebook, nickname: &str, chance: i32, comment: Option<&str>) -> (e: Embed)
        requires
            rule == Rulebook::Brp ==> chance > i32::MIN,
        ensures
            exists|roll: int|
                1 <= roll <= 100 && e@ == #[trigger] skill_embed(
                    rule,
                    nickname@,
                    comment_or_default(comment),
                    roll,
                    chance as int,
                ),
    {
        let shown = match comment {
            Some(c) => c,
            None => "기능",
        };
        assert(shown@ == comment_or_default(comment));
        let roll = roll_die(1, 100);
        let e = Self::report(rule, nickname, shown, roll, chance);
        assert(e@ == skill_embed(rule, nickname@, comment_or_default(comment), roll as int, chance as int));
        e
    }
}

/// The comment a skill roll shows for an invocation: the `comment` option, else `"기능"`.
pub open spec fn shown_comment(input: CommandInput) -> Seq<char> {
    match text_value(input.option("comment"@)) {
        Some(t) => t,
        None => default_comment(),
    }
}

/// The skill value an invocation gives in its `chance` option.
pub open spec fn chance_of(input: CommandInput) -> i32 {
    int_value(input.option("chance"@)).unwrap()
}

/// Whether an invocation of a skill command carries what the command reads: an integer
/// `chance` and, if any, a text `comment`.
pub open spec fn skill_input_ok(input: CommandInput) -> bool {
    &&& input.option("chance"@) matches Some(OptionValue::Integer(_))
    &&& text_or_absent(input.option("comment"@))
}

/// The replies a skill command may give to an invocation: one for each d100 roll.
pub open spec fn skill_reply(rule: Rulebook, input: CommandInput, r: ReplyView) -> bool {
    exists|roll: int|
        1 <= roll <= 100 && r == embed_reply(
            #[trigger] skill_embed(rule, input.nickname@, shown_comment(input), roll, chance_of(input) as int),
        )
}

impl SkillHelper {
    /// Reads the options of a skill command and rolls under `rule`.
    pub fn run(rule: Rulebook, input: &CommandInput) -> (r: Reply)
        requires
            skill_input_ok(*input),
            rule == Rulebook::Brp ==> chance_of(*input) > i32::MIN,
        ensures
            skill_reply(rule, *input, r@),
    {
        let chance = match input.get_int_option(String::from_str("chance")) {
            Some(c) => c,
            None => 0,
        };
        let comment = input.get_string_option(String::from_str("comment"));
        let nickname = input.get_nickname();
        let e = Self::execute(rule, nickname.as_str(), chance, comment);
        assert(comment_or_default(comment) == shown_comment(*input));
        public_embed(e)
    }
}

/// A command that does a skill roll. It follows Call of Cthulhu 7th Edition.
pub struct Sk7Command;

/// A command that does a skill roll. It follows Delta Green.
pub struct SkDGCommand;

/// A command that does a skill roll. It follows the BRP 2023 rule book.
pub struct SkBRPCommand;

impl Sk7Command {
    /// Does a skill roll following Call of Cthulhu 7th Edition.
    pub fn execute(&self, input: &CommandInput) -> (r: Reply)
        requires
            skill_input_ok(*input),
        ensures
            skill_reply(Rulebook::Coc7, *input, r@),
    {
        SkillHelper::run(Rulebook::Coc7, input)
    }
}

impl SkDGCommand {
    /// Does a skill roll following Delta Green.
    pub fn execute(&self, input: &CommandInput) -> (r: Reply)
        requires
            skill_input_ok(*input),
        ensures
            skill_reply(Rulebook::DeltaGreen, *input, r@),
    {
        SkillHelper::run(Rulebook::DeltaGreen, input)
    }
}

impl SkBRPCommand {
    /// Does a skill roll following BRP 2023.
    pub fn execute(&self, input: &CommandInput) -> (r: Reply)
        requires
            skill_input_ok(*input),
            chance_of(*input) > i32::MIN,
        ensures
            skill_reply(Rulebook::Brp, *input, r@),
    {
        SkillHelper::run(Rulebook::Brp, input)
    }
}

} // verus!

verus! {

/// Whether a grade counts as a success.
pub open spec fn is_success(g: SkillGrade) -> bool {
    match g {
        SkillGrade::Critical | SkillGrade::Extreme | SkillGrade::Hard | SkillGrade::Special
        | SkillGrade::Regular => true,
        _ => false,
    }
}

/// Under Call of Cthulhu 7th Edition a d100 roll succeeds exactly when it is at or
/// under the skill, except that a 100 is a fumble unless the skill is 200 or more.
pub proof fn coc7_success_iff_at_most_chance(roll: int, chance: int)
    requires
        1 <= roll <= 100,
    ensures
        is_success(coc7_grade(roll, chance)) <==> (roll <= chance && !(roll == 100 && chance < 200)),
{
}

/// The Call of Cthulhu 7th Edition grades in plain arithmetic, for a d100 roll: a 1 is a
/// critical success against a skill of at least 1; otherwise the roll is extreme when five
/// times it is at most the skill (at or under a fifth of the skill, rounded down), hard when
/// only twice it is (at or under half); a 100, or a roll over 95 against a skill under 50, is
/// a fumble; a roll at or under the skill is a regular success and any other roll a failure.
pub proof fn coc7_grade_thresholds(roll: int, chance: int)
    requires
        1 <= roll <= 100,
    ensures
        (coc7_grade(roll, chance) == SkillGrade::Critical) <==> (roll == 1 && 1 <= chance),
        (coc7_grade(roll, chance) == SkillGrade::Extreme) <==> (2 <= roll && 5 * roll <= chance),
        (coc7_grade(roll, chance) == SkillGrade::Hard) <==> (2 <= roll && chance < 5 * roll && 2 * roll <= chance),
        (coc7_grade(roll, chance) == SkillGrade::CriticalFailure) <==> (chance < 2 * roll && (roll == 100 || (
        95 < roll && chance < 50))),
        (coc7_grade(roll, chance) == SkillGrade::Regular) <==> (2 <= roll && chance < 2 * roll && roll <= chance
            && roll < 100 && !(95 < roll && chance < 50)),
        (coc7_grade(roll, chance) == SkillGrade::Failure) <==> (chance < roll && roll < 100 && !(95 < roll
            && chance < 50)),
{
    if chance >= 0 {
        assert(roll <= chance / 5 <==> 5 * roll <= chance);
        assert(roll <= chance / 2 <==> 2 * roll <= chance);
    } else {
        assert((-chance) / 5 >= 0);
        assert((-chance) / 2 >= 0);
    }
}

/// The Delta Green grades in plain arithmetic, for a d100 roll: a 1 at or under the skill is a
/// critical success; a roll of 5 or under, or a double (11, 22, ..., 99), at or under the
/// skill is a special success; a 100 over the skill is a fumble, any other roll over 95 and
/// over the skill a critical failure; other rolls at or under the skill succeed and the rest
/// fail.
pub proof fn dg_grade_thresholds(roll: int, chance: int)
    requires
        1 <= roll <= 100,
    ensures
        (dg_grade(roll, chance) == SkillGrade::Critical) <==> (roll == 1 && 1 <= chance),
        (dg_grade(roll, chance) == SkillGrade::Special) <==> (2 <= roll && roll <= chance && (roll <= 5 || (roll
            % 11 == 0 && roll < 100))),
        (dg_grade(roll, chance) == SkillGrade::Fumble) <==> (roll == 100 && chance < 100),
        (dg_grade(roll, chance) == SkillGrade::CriticalFailure) <==> (95 < roll && roll < 100 && chance < roll),
        (dg_grade(roll, chance) == SkillGrade::Regular) <==> (roll <= chance && 5 < roll && roll % 11 != 0
            && roll < 100) || (roll == 100 && 100 <= chance),
        (dg_grade(roll, chance) == SkillGrade::Failure) <==> (chance < roll && roll <= 95),
{
    assert(tdiv(roll, 10) == roll / 10);
    assert((roll / 10 == roll % 10 && roll < 100) <==> (roll % 11 == 0 && roll < 100 && roll > 0)) by {
        let q = roll / 10;
        let r = roll % 10;
        assert(roll == 10 * q + r);
    }
}

/// The BRP 2023 grades in plain arithmetic, for a d100 roll against a skill of at least 1: a
/// critical success at or under a twentieth of the skill rounded up (`20 * roll <= skill + 19`),
/// a special success at or under a fifth rounded up (`5 * roll <= skill + 4`); a roll over the
/// skill is a fumble from `96 + (skill - 1) / 20` (at most 100) up; other rolls at or under the
/// skill succeed and the rest fail.
pub proof fn brp_grade_thresholds(roll: int, chance: int)
    requires
        1 <= roll <= 100,
        1 <= chance,
    ensures
        (brp_grade(roll, chance) == SkillGrade::Critical) <==> 20 * roll <= chance + 19,
        (brp_grade(roll, chance) == SkillGrade::Special) <==> (chance + 19 < 20 * roll && 5 * roll <= chance + 4),
        (brp_grade(roll, chance) == SkillGrade::CriticalFailure) <==> (chance < roll && (96 + (chance - 1) / 20
            <= roll || roll == 100)),
        (brp_grade(roll, chance) == SkillGrade::Regular) <==> (chance + 4 < 5 * roll && roll <= chance),
        (brp_grade(roll, chance) == SkillGrade::Failure) <==> (chance < roll && roll < 96 + (chance - 1) / 20
            && roll < 100),
{
    assert(tdiv(chance - 1, 20) == (chance - 1) / 20);
    assert(tdiv(chance - 1, 5) == (chance - 1) / 5);
    assert(roll <= (chance - 1) / 20 + 1 <==> 20 * roll <= chance + 19);
    assert(roll <= (chance - 1) / 5 + 1 <==> 5 * roll <= chance + 4);
}

/// Under Call of Cthulhu 7th Edition a roll of 1 is a critical success whenever the skill is
/// at least 1.
pub proof fn coc7_one_is_critical(chance: int)
    requires
        chance >= 1,
    ensures
        coc7_grade(1, chance) == SkillGrade::Critical,
{
}

/// Under Delta Green a d100 roll succeeds exactly when it is at or under the skill.
pub proof fn dg_success_iff_at_most_chance(roll: int, chance: int)
    requires
        1 <= roll <= 100,
    ensures
        is_success(dg_grade(roll, chance)) <==> roll <= chance,
{
}

/// Under BRP 2023 a d100 roll against a skill of at least 1 succeeds exactly when it is at or
/// under the skill.
pub proof fn brp_success_iff_at_most_chance(roll: int, chance: int)
    requires
        1 <= roll <= 100,
        chance >= 1,
    ensures
        is_success(brp_grade(roll, chance)) <==> roll <= chance,
{
}

} // verus!

verus! {

/// How `/sk7` is declared.
pub open spec fn sk7_spec() -> CommandSpecView {
    CommandSpecView {
        name: "sk7"@,
        description: "크툴루의 부름 7판 룰에 따라 기능 판정을 합니다."@,
        options: seq![
            option_view(OptionKind::Integer, "chance"@, "기능 수치"@, true),
            option_view(OptionKind::Text, "comment"@, "판정 설명"@, false)
        ],
    }
}

impl Sk7Command {
    /// Gets a name of the command.
    pub fn name(&self) -> (s: &'static str)
        ensures
            s@ == sk7_spec().name,
    {
        "sk7"
    }

    /// How the command is declared to Discord.
    pub fn create(&self) -> (c: CommandSpec)
        ensures
            c@ == sk7_spec(),
    {
        let mut options: Vec<OptionSpec> = Vec::new();
        options.push(option(OptionKind::Integer, "chance", "기능 수치", true));
        options.push(option(OptionKind::Text, "comment", "판정 설명", false));
        let c = command(self.name(), "크툴루의 부름 7판 룰에 따라 기능 판정을 합니다.", options);
        assert(c@.options =~= sk7_spec().options);
        c
    }
}

/// How `/skdg` is declared.
pub open spec fn skdg_spec() -> CommandSpecView {
    CommandSpecView {
        name: "skdg"@,
        description: "델타 그린 룰에 따라 기능 판정을 합니다."@,
        options: seq![
            option_view(OptionKind::Integer, "chance"@, "기능 수치"@, true),
            option_view(OptionKind::Text, "comment"@, "판정 설명"@, false)
        ],
    }
}

impl SkDGCommand {
    /// Gets a name of the command.
    pub fn name(&self) -> (s: &'static str)
        ensures
            s@ == skdg_spec().name,
    {
        "skdg"
    }

    /// How the command is declared to Discord.
    pub fn create(&self) -> (c: CommandSpec)
        ensures
            c@ == skdg_spec(),
    {
        let mut options: Vec<OptionSpec> = Vec::new();
        options.push(option(OptionKind::Integer, "chance", "기능 수치", true));
        options.push(option(OptionKind::Text, "comment", "판정 설명", false));
        let c = command(self.name(), "델타 그린 룰에 따라 기능 판정을 합니다.", options);
        assert(c@.options =~= skdg_spec().options);
        c
    }
}

/// How `/skbrp` is declared.
pub open spec fn skbrp_spec() -> CommandSpecView {
    CommandSpecView {
        name: "skbrp"@,
        description: "BRP 2023 룰에 따라 기능 판정을 합니다."@,
        options: seq![
            option_view(OptionKind::Integer, "chance"@, "기능 수치"@, true),
            option_view(OptionKind::Text, "comment"@, "판정 설명"@, false)
        ],
    }
}

impl SkBRPCommand {
    /// Gets a name of the command.
    pub fn name(&self) -> (s: &'static str)
        ensures
            s@ == skbrp_spec().name,
    {
        "skbrp"
    }

    /// How the command is declared to Discord.
    pub fn create(&self) -> (c: CommandSpec)
        ensures
            c@ == skbrp_spec(),
    {
        let mut options: Vec<OptionSpec> = Vec::new();
        options.push(option(OptionKind::Integer, "chance", "기능 수치", true));
        options.push(option(OptionKind::Text, "comment", "판정 설명", false));
        let c = command(self.name(), "BRP 2023 룰에 따라 기능 판정을 합니다.", options);
        assert(c@.options =~= skbrp_spec().options);
        c
    }
}

} // verus!
