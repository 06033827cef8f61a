use vstd::prelude::*;

use crate::commands::roll_result::{beats, RollResult};
use crate::commands::{integer_or_absent, int_or, text_or, text_or_absent, CommandInput, InteractionUtil, OptionValue};
use crate::dice::roll_die;
use crate::embed::{cat2, cat3, field, Embed, EmbedField, EmbedView, FieldView};
use crate::text::{i32_to_string, int_text, join_seq, join_texts, tdiv, texts_of};

use crate::commands::spec::{command, option, option_view, CommandSpec, CommandSpecView, OptionKind, OptionSpec};

verus! {

/// A command to do an opposed roll following the Call of Cthulhu 7th Edition.
pub struct Op7Command;

/// The face of a percentile roll made of a tens die and a units die: `tens * 10 + units`,
/// where `00` reads as 100.
pub open spec fn die_face(units: int, tens: int) -> int {
    if tens * 10 + units == 0 {
        100
    } else {
        tens * 10 + units
    }
}

/// The faces of the percentile rolls that share the units die `units`.
pub open spec fn faces(units: int, tens: Seq<i32>) -> Seq<int> {
    tens.map_values(|t: i32| die_face(units, t as int))
}

/// The smallest element of a non-empty sequence.
pub open spec fn seq_min(s: Seq<int>) -> int
    decreases s.len(),
{
    if s.len() <= 1 {
        s[0]
    } else {
        let m = seq_min(s.drop_last());
        if s.last() < m {
            s.last()
        } else {
            m
        }
    }
}

/// The largest element of a non-empty sequence.
pub open spec fn seq_max(s: Seq<int>) -> int
    decreases s.len(),
{
    if s.len() <= 1 {
        s[0]
    } else {
        let m = seq_max(s.drop_last());
        if s.last() > m {
            s.last()
        } else {
            m
        }
    }
}

/// The face that counts: the only one without bonus or penalty dice, the lowest with
/// bonus dice (`bonus > 0`), the highest with penalty dice (`bonus < 0`).
pub open spec fn chosen_face(bonus: int, f: Seq<int>) -> int {
    if bonus == 0 {
        f[0]
    } else if bonus > 0 {
        seq_min(f)
    } else {
        seq_max(f)
    }
}

/// The faces, written out and separated by `", "`.
pub open spec fn faces_text(f: Seq<int>) -> Seq<char> {
    join_seq(f.map_values(|x: int| int_text(x)), ", "@)
}

/// How the chosen face is written: the face alone, or `min([..]) = m` / `max([..]) = m`.
pub open spec fn chosen_text(bonus: int, f: Seq<int>) -> Seq<char> {
    if bonus == 0 {
        int_text(f[0])
    } else if bonus > 0 {
        "min(["@ + faces_text(f) + "]) = "@ + int_text(seq_min(f))
    } else {
        "max(["@ + faces_text(f) + "]) = "@ + int_text(seq_max(f))
    }
}

/// The outcome of a face against a characteristic.
pub open spec fn opposed_result(face: int, status: i32) -> RollResult {
    if face <= tdiv(status as int, 5) {
        RollResult::ExtremeSuccess(status)
    } else if face <= tdiv(status as int, 2) {
        RollResult::HardSuccess(status)
    } else if face <= status {
        RollResult::Success(status)
    } else {
        RollResult::Failure(status)
    }
}

/// The line that reports a face written as `shown` against a characteristic.
pub open spec fn opposed_line(shown: Seq<char>, face: int, status: int) -> Seq<char> {
    if face <= tdiv(status, 5) {
        ":trophy: "@ + shown + " <= "@ + int_text(status) + " / 5"@
    } else if face <= tdiv(status, 2) {
        ":star: "@ + shown + " <= "@ + int_text(status) + " / 2"@
    } else if face <= status {
        ":o: "@ + shown + " <= "@ + int_text(status)
    } else {
        ":x: "@ + shown + " > "@ + int_text(status)
    }
}

/// One side of an opposed roll: the report line and the outcome.
pub struct OpposedRoll {
    pub text: String,
    pub result: RollResult,
}

impl View for OpposedRoll {
    type V = (Seq<char>, RollResult);

    open spec fn view(&self) -> (Seq<char>, RollResult) {
        (self.text@, self.result)
    }
}

/// What one side of an opposed roll reports, given the units die and the tens dice.
pub open spec fn opposed_roll(status: i32, bonus: int, units: int, tens: Seq<i32>) -> (
    Seq<char>,
    RollResult,
) {
    let f = faces(units, tens);
    let face = chosen_face(bonus, f);
    (opposed_line(chosen_text(bonus, f), face, status as int), opposed_result(face, status))
}

/// Whether `tens` and `units` are dice that one side may have rolled with `bonus`:
/// one units die and `1 + |bonus|` tens dice, all showing 0 to 9.
pub open spec fn valid_dice(bonus: int, units: int, tens: Seq<i32>) -> bool {
    &&& 0 <= units <= 9
    &&& tens.len() == 1 + (if bonus < 0 { -bonus } else { bonus })
    &&& forall|i: int| 0 <= i < tens.len() ==> 0 <= #[trigger] tens[i] <= 9
}

/// Whether `r` is a report that one side may get when rolling against `status` with `bonus`.
pub open spec fn possible_roll(status: i32, bonus: int, r: (Seq<char>, RollResult)) -> bool {
    exists|units: int, tens: Seq<i32>|
        valid_dice(bonus, units, tens) && r == #[trigger] opposed_roll(status, bonus, units, tens)
}

/// The players still tie: what the tie-break needs to go on.
pub struct Op7Tie {
    pub comment: String,
    pub name1: String,
    pub name2: String,
    pub text1: String,
    pub text2: String,
}

pub struct TieView {
    pub comment: Seq<char>,
    pub name1: Seq<char>,
    pub name2: Seq<char>,
    pub text1: Seq<char>,
    pub text2: Seq<char>,
}

impl View for Op7Tie {
    type V = TieView;

    open spec fn view(&self) -> TieView {
        TieView {
            comment: self.comment@,
            name1: self.name1@,
            name2: self.name2@,
            text1: self.text1@,
            text2: self.text2@,
        }
    }
}

/// Where an opposed roll stands: decided, with the embed that announces it, or still tied.
pub enum Op7Progress {
    Decided(Embed),
    Tied(Op7Tie),
}

pub enum ProgressView {
    Decided(EmbedView),
    Tied(TieView),
}

impl View for Op7Progress {
    type V = ProgressView;

    open spec fn view(&self) -> ProgressView {
        match self {
            Op7Progress::Decided(e) => ProgressView::Decided(e@),
            Op7Progress::Tied(t) => ProgressView::Tied(t@),
        }
    }
}

/// The embed that announces the winner (first place) and the loser (second place).
pub open spec fn announcement(
    comment: Seq<char>,
    name1: Seq<char>,
    name2: Seq<char>,
    text1: Seq<char>,
    text2: Seq<char>,
    player1_won: bool,
) -> EmbedView {
    let first: FieldView = (
        ":first_place: "@ + (if player1_won { name1 } else { name2 }),
        if player1_won { text1 } else { text2 },
        false,
    );
    let second: FieldView = (
        ":second_place: "@ + (if player1_won { name2 } else { name1 }),
        if player1_won { text2 } else { text1 },
        false,
    );
    EmbedView { title: comment, description: None, fields: seq![first, second], colour: None }
}

/// The state after both sides rolled: player 1 wins if their outcome beats player 2's; equal
/// outcomes tie.
pub open spec fn settled(
    comment: Seq<char>,
    name1: Seq<char>,
    name2: Seq<char>,
    roll1: (Seq<char>, RollResult),
    roll2: (Seq<char>, RollResult),
) -> ProgressView {
    if roll1.1 == roll2.1 {
        ProgressView::Tied(
            TieView { comment, name1, name2, text1: roll1.0, text2: roll2.0 },
        )
    } else {
        ProgressView::Decided(
            announcement(comment, name1, name2, roll1.0, roll2.0, beats(roll1.1, roll2.1)),
        )
    }
}

/// The state after one tie-break round in which player 1 rolled `a` and player 2 rolled `b`:
/// each roll is appended to its player's line, and the lower roll wins unless they are equal.
pub open spec fn after_tie_round(tie: TieView, a: int, b: int) -> ProgressView {
    let text1 = tie.text1 + ", "@ + int_text(a);
    let text2 = tie.text2 + ", "@ + int_text(b);
    if a != b {
        ProgressView::Decided(announcement(tie.comment, tie.name1, tie.name2, text1, text2, a < b))
    } else {
        ProgressView::Tied(TieView { text1, text2, ..tie })
    }
}

fn copy_text(s: &String) -> (r: String)
    ensures
        r@ == s@,
{
    s.clone()
}

impl Op7Command {
    /// Reports one side's roll, given the units die `units` and the tens dice `tens`.
    pub fn judge_dice(status: i32, bonus: i32, units: i32, tens: &Vec<i32>) -> (r: OpposedRoll)
        requires
            0 <= units <= 9,
            tens.len() >= 1,
            forall|i: int| 0 <= i < tens.len() ==> 0 <= #[trigger] tens@[i] <= 9,
        ensures
            r@ == opposed_roll(status, bonus as int, units as int, tens@),
    {
        let ghost f = faces(units as int, tens@);
        let n = tens.len();
        let mut fs: Vec<i32> = Vec::new();
        let mut shown: Vec<String> = Vec::new();
        let mut i: usize = 0;
        while i < n
            invariant
                n == tens.len(),
                i <= n,
                f == faces(units as int, tens@),
                0 <= units <= 9,
                forall|k: int| 0 <= k < tens.len() ==> 0 <= #[trigger] tens@[k] <= 9,
                fs@.len() == i,
                forall|k: int| 0 <= k < i ==> fs@[k] == f[k],
                texts_of(shown@) =~= f.take(i as int).map_values(|x: int| int_text(x)),
            decreases n - i,
        {
            let t = tens[i];
            let v = t * 10 + units;
            let face = if v == 0 { 100 } else { v };
            fs.push(face);
            let s = i32_to_string(face);
            shown.push(s);
            i = i + 1;
            assert(f.take(i as int).map_values(|x: int| int_text(x)) =~= f.take((i - 1) as int).map_values(
                |x: int| int_text(x),
            ).push(int_text(face as int)));
        }
        assert(f.take(n as int) =~= f);
        assert(texts_of(shown@) =~= f.map_values(|x: int| int_text(x)));
        assert(shown@[0]@ == texts_of(shown@)[0]);
        let mut lo = fs[0];
        let mut hi = fs[0];
        let mut j: usize = 1;
        while j < n
            invariant
                n == fs@.len(),
                n == f.len(),
                1 <= j <= n,
                forall|k: int| 0 <= k < n ==> fs@[k] == f[k],
                lo == seq_min(f.take(j as int)),
                hi == seq_max(f.take(j as int)),
            decreases n - j,
        {
            assert(f.take((j + 1) as int).drop_last() =~= f.take(j as int));
            if fs[j] < lo {
                lo = fs[j];
            }
            if fs[j] > hi {
                hi = fs[j];
            }
            j = j + 1;
        }
        assert(f.take(n as int) =~= f);
        let face = if bonus == 0 { fs[0] } else if bonus > 0 { lo } else { hi };
        let shown_text = if bonus == 0 {
            copy_text(&shown[0])
        } else {
            let list = join_texts(&shown, ", ");
            let pick = i32_to_string(face);
            if bonus > 0 {
                let head = cat3("min([", list.as_str(), "]) = ");
                cat2(head.as_str(), pick.as_str())
            } else {
                let head = cat3("max([", list.as_str(), "]) = ");
                cat2(head.as_str(), pick.as_str())
            }
        };
        assert(shown_text@ == chosen_text(bonus as int, f));
        let st = i32_to_string(status);
        if face <= status / 5 {
            let a = cat3(":trophy: ", shown_text.as_str(), " <= ");
            let b = cat3(a.as_str(), st.as_str(), " / 5");
            OpposedRoll { text: b, result: RollResult::ExtremeSuccess(status) }
        } else if face <= status / 2 {
            let a = cat3(":star: ", shown_text.as_str(), " <= ");
            let b = cat3(a.as_str(), st.as_str(), " / 2");
            OpposedRoll { text: b, result: RollResult::HardSuccess(status) }
        } else if face <= status {
            let a = cat3(":o: ", shown_text.as_str(), " <= ");
            let b = cat2(a.as_str(), st.as_str());
            OpposedRoll { text: b, result: RollResult::Success(status) }
        } else {
            let a = cat3(":x: ", shown_text.as_str(), " > ");
            let b = cat2(a.as_str(), st.as_str());
            OpposedRoll { text: b, result: RollResult::Failure(status) }
        }
    }

    /// Rolls one side: a units die and `1 + |bonus|` tens dice, then reports the face that
    /// counts against `status`.
    pub fn roll_dice(status: i32, bonus: i32) -> (r: OpposedRoll)
        requires
            i32::MIN + 1 < bonus < i32::MAX,
        ensures
            possible_roll(status, bonus as int, r@),
    {
        let units = roll_die(0, 9);
        let magnitude: i32 = if bonus < 0 { -bonus } else { bonus };
        let count: usize = (magnitude + 1) as usize;
        let mut tens: Vec<i32> = Vec::new();
        let mut k: usize = 0;
        while k < count
            invariant
                k <= count,
                count == magnitude + 1,
                tens@.len() == k,
                forall|i: int| 0 <= i < tens@.len() ==> 0 <= #[trigger] tens@[i] <= 9,
            decreases count - k,
        {
            let t = roll_die(0, 9);
            tens.push(t);
            k = k + 1;
        }
        let r = Self::judge_dice(status, bonus, units, &tens);
        assert(valid_dice(bonus as int, units as int, tens@));
        assert(r@ == opposed_roll(status, bonus as int, units as int, tens@));
        r
    }

    /// The embed that announces the winner and the loser.
    pub fn announce(
        comment: &str,
        name1: &str,
        name2: &str,
        text1: &str,
        text2: &str,
        player1_won: bool,
    ) -> (e: Embed)
        ensures
            e@ == announcement(comment@, name1@, name2@, text1@, text2@, player1_won),
    {
        let (winner, loser) = if player1_won { (name1, name2) } else { (name2, name1) };
        let (wtext, ltext) = if player1_won { (text1, text2) } else { (text2, text1) };
        let mut fields: Vec<EmbedField> = Vec::new();
        fields.push(field(cat2(":first_place: ", winner), String::from_str(wtext), false));
        fields.push(field(cat2(":second_place: ", loser), String::from_str(ltext), false));
        let e = Embed { title: String::from_str(comment), description: None, fields, colour: None };
        assert(e@.fields =~= announcement(comment@, name1@, name2@, text1@, text2@, player1_won).fields);
        e
    }

    /// Compares the two sides: announces the winner, or reports a tie when the outcomes are
    /// the same.
    pub fn settle(
        comment: &str,
        name1: &str,
        name2: &str,
        roll1: OpposedRoll,
        roll2: OpposedRoll,
    ) -> (p: Op7Progress)
        ensures
            p@ == settled(comment@, name1@, name2@, roll1@, roll2@),
    {
        if roll1.result == roll2.result {
            Op7Progress::Tied(
                Op7Tie {
                    comment: String::from_str(comment),
                    name1: String::from_str(name1),
                    name2: String::from_str(name2),
                    text1: roll1.text,
                    text2: roll2.text,
                },
            )
        } else {
            let player1_won = roll1.result > roll2.result;
            Op7Progress::Decided(
                Self::announce(
                    comment,
                    name1,
                    name2,
                    roll1.text.as_str(),
                    roll2.text.as_str(),
                    player1_won,
                ),
            )
        }
    }

    /// Plays one tie-break round with the rolls `a` (player 1) and `b` (player 2).
    pub fn tie_round(tie: Op7Tie, a: i32, b: i32) -> (p: Op7Progress)
        ensures
            p@ == after_tie_round(tie@, a as int, b as int),
    {
        let sa = i32_to_string(a);
        let sb = i32_to_string(b);
        let text1 = cat3(tie.text1.as_str(), ", ", sa.as_str());
        let text2 = cat3(tie.text2.as_str(), ", ", sb.as_str());
        if a != b {
            Op7Progress::Decided(
                Self::announce(
                    tie.comment.as_str(),
                    tie.name1.as_str(),
                    tie.name2.as_str(),
                    text1.as_str(),
                    text2.as_str(),
                    a < b,
                ),
            )
        } else {
            let t = Op7Tie { comment: tie.comment, name1: tie.name1, name2: tie.name2, text1, text2 };
            assert(t@ == TieView { text1: text1@, text2: text2@, ..tie@ });
            Op7Progress::Tied(t)
        }
    }

    /// Breaks a tie: each player rolls a d100 and the lower roll wins; equal rolls tie again.
    pub fn break_tie(tie: Op7Tie) -> (p: Op7Progress)
        ensures
            exists|a: int, b: int|
                1 <= a <= 100 && 1 <= b <= 100 && p@ == #[trigger] after_tie_round(tie@, a, b),
    {
        let ghost before = tie@;
        let a = roll_die(1, 100);
        let b = roll_die(1, 100);
        let p = Self::tie_round(tie, a, b);
        assert(p@ == after_tie_round(before, a as int, b as int));
        p
    }

    /// Both sides roll; the better outcome wins and equal outcomes tie.
    pub fn contest(
        comment: &str,
        name1: &str,
        name2: &str,
        status1: i32,
        bonus1: i32,
        status2: i32,
        bonus2: i32,
    ) -> (p: Op7Progress)
        requires
            i32::MIN + 1 < bonus1 < i32::MAX,
            i32::MIN + 1 < bonus2 < i32::MAX,
        ensures
            exists|r1: (Seq<char>, RollResult), r2: (Seq<char>, RollResult)|
                possible_roll(status1, bonus1 as int, r1) && possible_roll(status2, bonus2 as int, r2)
                    && p@ == #[trigger] settled(comment@, name1@, name2@, r1, r2),
    {
        let roll1 = Self::roll_dice(status1, bonus1);
        let roll2 = Self::roll_dice(status2, bonus2);
        let ghost (v1, v2) = (roll1@, roll2@);
        let p = Self::settle(comment, name1, name2, roll1, roll2);
        assert(p@ == settled(comment@, name1@, name2@, v1, v2));
        p
    }
}

} // verus!

verus! {

/// Whether an invocation of `/op7` carries what the command reads: integer characteristics
/// `status1` and `status2`, optional integer `bonus1` and `bonus2` (with a magnitude below
/// `i32::MAX`), and optional text `name1`, `name2` and `comment`.
pub open spec fn op7_input_ok(input: CommandInput) -> bool {
    &&& input.option("status1"@) matches Some(OptionValue::Integer(_))
    &&& input.option("status2"@) matches Some(OptionValue::Integer(_))
    &&& integer_or_absent(input.option("bonus1"@))
    &&& integer_or_absent(input.option("bonus2"@))
    &&& i32::MIN + 1 < int_or(input.option("bonus1"@), 0) < i32::MAX
    &&& i32::MIN + 1 < int_or(input.option("bonus2"@), 0) < i32::MAX
    &&& text_or_absent(input.option("name1"@))
    &&& text_or_absent(input.option("name2"@))
    &&& text_or_absent(input.option("comment"@))
}

/// The states that `/op7` may reach after both sides rolled once.
pub open spec fn op7_outcome(input: CommandInput, p: ProgressView) -> bool {
    let comment = text_or(input.option("comment"@), "대항 판정"@);
    let name1 = text_or(input.option("name1"@), "참가자 1"@);
    let name2 = text_or(input.option("name2"@), "참가자 2"@);
    exists|r1: (Seq<char>, RollResult), r2: (Seq<char>, RollResult)|
        possible_roll(int_or(input.option("status1"@), 0), int_or(input.option("bonus1"@), 0) as int, r1)
            && possible_roll(int_or(input.option("status2"@), 0), int_or(input.option("bonus2"@), 0) as int, r2)
            && p == #[trigger] settled(comment, name1, name2, r1, r2)
}

impl Op7Command {
    /// Reads the options of `/op7` and lets both sides roll. A tie is broken by
    /// `break_tie`, called until the roll is decided.
    pub fn execute(&self, input: &CommandInput) -> (p: Op7Progress)
        requires
            op7_input_ok(*input),
        ensures
            op7_outcome(*input, p@),
    {
        let status1 = match input.get_int_option(String::from_str("status1")) {
            Some(v) => v,
            None => 0,
        };
        let status2 = match input.get_int_option(String::from_str("status2")) {
            Some(v) => v,
            None => 0,
        };
        let bonus1 = match input.get_int_option(String::from_str("bonus1")) {
            Some(v) => v,
            None => 0,
        };
        let bonus2 = match input.get_int_option(String::from_str("bonus2")) {
            Some(v) => v,
            None => 0,
        };
        let name1 = match input.get_string_option(String::from_str("name1")) {
            Some(v) => v,
            None => "참가자 1",
        };
        let name2 = match input.get_string_option(String::from_str("name2")) {
            Some(v) => v,
            None => "참가자 2",
        };
        let comment = match input.get_string_option(String::from_str("comment")) {
            Some(v) => v,
            None => "대항 판정",
        };
        Self::contest(comment, name1, name2, status1, bonus1, status2, bonus2)
    }
}

/// Every percentile face lies between 1 and 100.
pub proof fn die_face_in_range(units: int, tens: int)
    requires
        0 <= units <= 9,
        0 <= tens <= 9,
    ensures
        1 <= die_face(units, tens) <= 100,
{
}

proof fn seq_min_at_most_each(s: Seq<int>, i: int)
    requires
        0 <= i < s.len(),
    ensures
        seq_min(s) <= s[i],
    decreases s.len(),
{
    if s.len() > 1 && i < s.len() - 1 {
        seq_min_at_most_each(s.drop_last(), i);
    }
}

proof fn seq_max_at_least_each(s: Seq<int>, i: int)
    requires
        0 <= i < s.len(),
    ensures
        seq_max(s) >= s[i],
    decreases s.len(),
{
    if s.len() > 1 && i < s.len() - 1 {
        seq_max_at_least_each(s.drop_last(), i);
    }
}

/// A lower face never gives a worse outcome against the same characteristic.
pub proof fn lower_face_never_worse(lower: int, higher: int, status: i32)
    requires
        lower <= higher,
    ensures
        !beats(opposed_result(higher, status), opposed_result(lower, status)),
{
}

/// Bonus dice never make a side's outcome worse than its first tens die alone would, and
/// penalty dice never make it better.
pub proof fn bonus_dice_help_penalty_dice_hurt(status: i32, bonus: int, units: int, tens: Seq<i32>)
    requires
        valid_dice(bonus, units, tens),
    ensures
        bonus > 0 ==> !beats(
            opposed_result(die_face(units, tens[0] as int), status),
            opposed_roll(status, bonus, units, tens).1,
        ),
        bonus < 0 ==> !beats(
            opposed_roll(status, bonus, units, tens).1,
            opposed_result(die_face(units, tens[0] as int), status),
        ),
{
    let f = faces(units, tens);
    seq_min_at_most_each(f, 0);
    seq_max_at_least_each(f, 0);
    if bonus > 0 {
        lower_face_never_worse(seq_min(f), f[0], status);
    }
    if bonus < 0 {
        lower_face_never_worse(f[0], seq_max(f), status);
    }
}

/// How many tens dice one side rolls with `bonus`: one, plus one per bonus or penalty die.
pub open spec fn dice_count(bonus: int) -> int {
    1 + (if bonus < 0 { -bonus } else { bonus })
}

/// The tens dice one side uses out of a run of draws: the first `dice_count(bonus)` of them.
pub open spec fn dice_used(bonus: int, draws: Seq<i32>) -> Seq<i32> {
    draws.take(dice_count(bonus))
}

proof fn seq_min_longer_prefix(s: Seq<int>, k1: int, k2: int)
    requires
        1 <= k1 <= k2 <= s.len(),
    ensures
        seq_min(s.take(k2)) <= seq_min(s.take(k1)),
    decreases s.len(),
{
    if k2 < s.len() {
        seq_min_longer_prefix(s.drop_last(), k1, k2);
        assert(s.drop_last().take(k2) =~= s.take(k2));
        assert(s.drop_last().take(k1) =~= s.take(k1));
    } else {
        assert(s.take(k2) =~= s);
        if k1 < k2 {
            let n = s.len() - 1;
            seq_min_longer_prefix(s.drop_last(), k1, n);
            assert(s.drop_last().take(n) =~= s.drop_last());
            assert(s.drop_last().take(k1) =~= s.take(k1));
        }
    }
}

proof fn seq_max_longer_prefix(s: Seq<int>, k1: int, k2: int)
    requires
        1 <= k1 <= k2 <= s.len(),
    ensures
        seq_max(s.take(k2)) >= seq_max(s.take(k1)),
    decreases s.len(),
{
    if k2 < s.len() {
        seq_max_longer_prefix(s.drop_last(), k1, k2);
        assert(s.drop_last().take(k2) =~= s.take(k2));
        assert(s.drop_last().take(k1) =~= s.take(k1));
    } else {
        assert(s.take(k2) =~= s);
        if k1 < k2 {
            let n = s.len() - 1;
            seq_max_longer_prefix(s.drop_last(), k1, n);
            assert(s.drop_last().take(n) =~= s.drop_last());
            assert(s.drop_last().take(k1) =~= s.take(k1));
        }
    }
}

proof fn tdiv_monotone(a: int, b: int, d: int)
    requires
        a <= b,
        0 < d,
    ensures
        tdiv(a, d) <= tdiv(b, d),
{
    broadcast use vstd::arithmetic::div_mod::lemma_div_is_ordered;
    if a >= 0 {
        assert(a / d <= b / d);
    } else if b < 0 {
        assert((-b) / d <= (-a) / d);
    } else {
        assert(0int / d <= (-a) / d);
        assert(0int / d <= b / d);
        assert(0int / d == 0);
    }
}

/// A lower face against a higher characteristic never gives a worse outcome.
pub proof fn lower_face_higher_status_never_worse(face: int, status: i32, face2: int, status2: i32)
    requires
        face2 <= face,
        status <= status2,
    ensures
        opposed_result(face2, status2).rank() >= opposed_result(face, status).rank(),
{
    tdiv_monotone(status as int, status2 as int, 5);
    tdiv_monotone(status as int, status2 as int, 2);
}

/// With the same dice, a higher characteristic or more bonus dice (or fewer penalty dice) never
/// gives a higher face that counts, nor a worse outcome. Both sides read one run of draws: the
/// units die `units` and the tens dice `draws`, of which each uses as many as its bonus asks.
pub proof fn more_status_or_bonus_never_worse(
    status: i32,
    bonus: int,
    status2: i32,
    bonus2: int,
    units: int,
    draws: Seq<i32>,
)
    requires
        status <= status2,
        bonus <= bonus2,
        0 <= units <= 9,
        forall|i: int| 0 <= i < draws.len() ==> 0 <= #[trigger] draws[i] <= 9,
        dice_count(bonus) <= draws.len(),
        dice_count(bonus2) <= draws.len(),
    ensures
        chosen_face(bonus2, faces(units, dice_used(bonus2, draws))) <= chosen_face(
            bonus,
            faces(units, dice_used(bonus, draws)),
        ),
        opposed_roll(status2, bonus2, units, dice_used(bonus2, draws)).1.rank() >= opposed_roll(
            status,
            bonus,
            units,
            dice_used(bonus, draws),
        ).1.rank(),
{
    let f = faces(units, draws);
    let n1 = dice_count(bonus);
    let n2 = dice_count(bonus2);
    assert(faces(units, dice_used(bonus, draws)) =~= f.take(n1));
    assert(faces(units, dice_used(bonus2, draws)) =~= f.take(n2));
    let d1 = chosen_face(bonus, f.take(n1));
    let d2 = chosen_face(bonus2, f.take(n2));
    assert(f.take(1).len() == 1);
    assert(seq_min(f.take(1)) == f[0]);
    assert(seq_max(f.take(1)) == f[0]);
    // each choice compared with the first face
    if bonus > 0 {
        seq_min_longer_prefix(f, 1, n1);
    }
    if bonus < 0 {
        seq_max_longer_prefix(f, 1, n1);
    }
    if bonus2 > 0 {
        seq_min_longer_prefix(f, 1, n2);
    }
    if bonus2 < 0 {
        seq_max_longer_prefix(f, 1, n2);
    }
    if bonus > 0 && bonus2 > 0 {
        seq_min_longer_prefix(f, n1, n2);
    }
    if bonus < 0 && bonus2 < 0 {
        seq_max_longer_prefix(f, n2, n1);
    }
    assert(d2 <= d1);
    lower_face_higher_status_never_worse(d1, status, d2, status2);
}

/// The outcome of a face against a characteristic, in plain arithmetic: extreme when five times
/// the face is at most the characteristic (the face is at or under a fifth of it, rounded
/// down), hard when only twice the face is, a regular success when the face is at or under the
/// characteristic, else a failure; the outcome carries the characteristic. The report line
/// names the same threshold.
pub proof fn opposed_result_thresholds(face: int, status: i32, shown: Seq<char>)
    requires
        1 <= face <= 100,
    ensures
        opposed_result(face, status).status() == status,
        (opposed_result(face, status) is ExtremeSuccess) <==> 5 * face <= status,
        (opposed_result(face, status) is HardSuccess) <==> (status < 5 * face && 2 * face <= status),
        (opposed_result(face, status) is Success) <==> (status < 2 * face && face <= status),
        (opposed_result(face, status) is Failure) <==> status < face,
        5 * face <= status ==> opposed_line(shown, face, status as int) == ":trophy: "@ + shown + " <= "@
            + int_text(status as int) + " / 5"@,
        (status < 5 * face && 2 * face <= status) ==> opposed_line(shown, face, status as int) == ":star: "@
            + shown + " <= "@ + int_text(status as int) + " / 2"@,
        (status < 2 * face && face <= status) ==> opposed_line(shown, face, status as int) == ":o: "@ + shown
            + " <= "@ + int_text(status as int),
        status < face ==> opposed_line(shown, face, status as int) == ":x: "@ + shown + " > "@ + int_text(
            status as int,
        ),
{
    let st = status as int;
    if st >= 0 {
        assert(face <= st / 5 <==> 5 * face <= st);
        assert(face <= st / 2 <==> 2 * face <= st);
        assert(tdiv(st, 5) == st / 5);
        assert(tdiv(st, 2) == st / 2);
    } else {
        assert((-st) / 5 >= 0);
        assert((-st) / 2 >= 0);
        assert(tdiv(st, 5) <= 0);
        assert(tdiv(st, 2) <= 0);
    }
}

/// One side's outcome is graded on the face that counts: the only face without bonus or
/// penalty dice, the lowest face with bonus dice, the highest with penalty dice.
pub proof fn opposed_roll_uses_counted_face(status: i32, bonus: int, units: int, tens: Seq<i32>)
    requires
        valid_dice(bonus, units, tens),
    ensures
        ({
            let face = chosen_face(bonus, faces(units, tens));
            &&& 1 <= face <= 100
            &&& bonus == 0 ==> face == die_face(units, tens[0] as int)
            &&& bonus > 0 ==> (forall|i: int| 0 <= i < tens.len() ==> face <= die_face(units, #[trigger] tens[i] as int))
            &&& bonus < 0 ==> (forall|i: int| 0 <= i < tens.len() ==> face >= die_face(units, #[trigger] tens[i] as int))
            &&& exists|i: int| 0 <= i < tens.len() && face == die_face(units, #[trigger] tens[i] as int)
            &&& opposed_roll(status, bonus, units, tens).1 == opposed_result(face, status)
            &&& (opposed_roll(status, bonus, units, tens).1 is ExtremeSuccess) <==> 5 * face <= status
            &&& (opposed_roll(status, bonus, units, tens).1 is Failure) <==> status < face
        }),
{
    let f = faces(units, tens);
    assert forall|i: int| 0 <= i < tens.len() implies 1 <= #[trigger] f[i] <= 100 by {
        die_face_in_range(units, tens[i] as int);
    }
    assert forall|i: int| 0 <= i < tens.len() implies seq_min(f) <= die_face(units, #[trigger] tens[i] as int) by {
        seq_min_at_most_each(f, i);
    }
    assert forall|i: int| 0 <= i < tens.len() implies seq_max(f) >= die_face(units, #[trigger] tens[i] as int) by {
        seq_max_at_least_each(f, i);
    }
    seq_min_is_one(f);
    seq_max_is_one(f);
    let face = chosen_face(bonus, f);
    let k = choose|k: int| 0 <= k < f.len() && f[k] == face;
    assert(face == die_face(units, tens[k] as int));
    opposed_result_thresholds(face, status, Seq::empty());
}

proof fn seq_min_is_one(s: Seq<int>)
    requires
        s.len() >= 1,
    ensures
        exists|k: int| 0 <= k < s.len() && s[k] == seq_min(s),
    decreases s.len(),
{
    if s.len() > 1 {
        seq_min_is_one(s.drop_last());
        let k = choose|k: int| 0 <= k < s.drop_last().len() && s.drop_last()[k] == seq_min(s.drop_last());
        assert(s[k] == s.drop_last()[k]);
        assert(s[s.len() - 1] == s.last());
    } else {
        assert(s[0] == seq_min(s));
    }
}

proof fn seq_max_is_one(s: Seq<int>)
    requires
        s.len() >= 1,
    ensures
        exists|k: int| 0 <= k < s.len() && s[k] == seq_max(s),
    decreases s.len(),
{
    if s.len() > 1 {
        seq_max_is_one(s.drop_last());
        let k = choose|k: int| 0 <= k < s.drop_last().len() && s.drop_last()[k] == seq_max(s.drop_last());
        assert(s[k] == s.drop_last()[k]);
        assert(s[s.len() - 1] == s.last());
    } else {
        assert(s[0] == seq_max(s));
    }
}

/// After both sides rolled, the side whose outcome beats the other's is announced first with its
/// line and the other second; equal outcomes tie and keep both lines for the tie-break.
pub proof fn settle_announces_the_better_side(
    comment: Seq<char>,
    name1: Seq<char>,
    name2: Seq<char>,
    roll1: (Seq<char>, RollResult),
    roll2: (Seq<char>, RollResult),
)
    ensures
        beats(roll1.1, roll2.1) ==> (settled(comment, name1, name2, roll1, roll2) matches ProgressView::Decided(e)
            && e.title == comment && e.fields.len() == 2 && e.fields[0] == (":first_place: "@ + name1, roll1.0, false)
            && e.fields[1] == (":second_place: "@ + name2, roll2.0, false)),
        beats(roll2.1, roll1.1) ==> (settled(comment, name1, name2, roll1, roll2) matches ProgressView::Decided(e)
            && e.title == comment && e.fields.len() == 2 && e.fields[0] == (":first_place: "@ + name2, roll2.0, false)
            && e.fields[1] == (":second_place: "@ + name1, roll1.0, false)),
        roll1.1 == roll2.1 ==> settled(comment, name1, name2, roll1, roll2) == ProgressView::Tied(
            TieView { comment, name1, name2, text1: roll1.0, text2: roll2.0 },
        ),
{
    crate::commands::roll_result::result_order_antisymmetric(roll1.1, roll2.1);
    crate::commands::roll_result::result_order_equal_iff_same(roll1.1, roll2.1);
}

/// Naming the players the other way round announces the same winner: when the outcomes
/// differ, swapping the players and their rolls gives the same embed.
pub proof fn settle_ignores_player_order(
    comment: Seq<char>,
    name1: Seq<char>,
    name2: Seq<char>,
    roll1: (Seq<char>, RollResult),
    roll2: (Seq<char>, RollResult),
)
    requires
        roll1.1 != roll2.1,
    ensures
        settled(comment, name1, name2, roll1, roll2) == settled(comment, name2, name1, roll2, roll1),
{
    crate::commands::roll_result::beats_exactly_one_way(roll1.1, roll2.1);
}

/// In a tie-break round the lower roll wins, and equal rolls keep the tie.
pub proof fn tie_round_lower_roll_wins(tie: TieView, a: int, b: int)
    ensures
        a < b ==> (after_tie_round(tie, a, b) matches ProgressView::Decided(e)
            && e.fields[0].0 == ":first_place: "@ + tie.name1),
        b < a ==> (after_tie_round(tie, a, b) matches ProgressView::Decided(e)
            && e.fields[0].0 == ":first_place: "@ + tie.name2),
        a == b ==> after_tie_round(tie, a, b) is Tied,
{
}

} // verus!

verus! {

/// How `/op7` is declared.
pub open spec fn op7_spec() -> CommandSpecView {
    CommandSpecView {
        name: "op7"@,
        description: "크툴루의 부름 7판 룰에 따라 대항 판정을 합니다."@,
        options: seq![
            option_view(OptionKind::Integer, "status1"@, "참가자 1의 특성치 (예: 근력 대항일 경우 근력 값)"@, true),
            option_view(OptionKind::Integer, "status2"@, "참가자 2의 특성치 (예: 민첩 대항일 경우 민첩 값)"@, true),
            option_view(OptionKind::Integer, "bonus1"@, "참가자 1의 보너스/패널티 주사위 (예: +1은 보너스, -1은 패널티)"@, false),
            option_view(OptionKind::Integer, "bonus2"@, "참가자 2의 보너스/패널티 주사위 (예: +1은 보너스, -1은 패널티)"@, false),
            option_view(OptionKind::Text, "name1"@, "참가자 1의 이름"@, false),
            option_view(OptionKind::Text, "name2"@, "참가자 2의 이름"@, false),
            option_view(OptionKind::Text, "comment"@, "판정 설명"@, false)
        ],
    }
}

impl Op7Command {
    /// Gets a name of the command.
    pub fn name(&self) -> (s: &'static str)
        ensures
            s@ == op7_spec().name,
    {
        "op7"
    }

    /// How the command is declared to Discord.
    pub fn create(&self) -> (c: CommandSpec)
        ensures
            c@ == op7_spec(),
    {
        let mut options: Vec<OptionSpec> = Vec::new();
        options.push(option(OptionKind::Integer, "status1", "참가자 1의 특성치 (예: 근력 대항일 경우 근력 값)", true));
        options.push(option(OptionKind::Integer, "status2", "참가자 2의 특성치 (예: 민첩 대항일 경우 민첩 값)", true));
        options.push(option(OptionKind::Integer, "bonus1", "참가자 1의 보너스/패널티 주사위 (예: +1은 보너스, -1은 패널티)", false));
        options.push(option(OptionKind::Integer, "bonus2", "참가자 2의 보너스/패널티 주사위 (예: +1은 보너스, -1은 패널티)", false));
        options.push(option(OptionKind::Text, "name1", "참가자 1의 이름", false));
        options.push(option(OptionKind::Text, "name2", "참가자 2의 이름", false));
        options.push(option(OptionKind::Text, "comment", "판정 설명", false));
        let c = command(self.name(), "크툴루의 부름 7판 룰에 따라 대항 판정을 합니다.", options);
        assert(c@.options =~= op7_spec().options);
        c
    }
}

} // verus!
