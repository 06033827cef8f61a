use vstd::prelude::*;
use vstd::string::StrSliceExecFns;

use crate::embed::{cat2, cat3};
use crate::text::{
    chars_of, int_text, int_to_string, pad_to, padded, split_not_empty, split_on, split_text,
    texts_of,
};

verus! {

/// A handler for the log.
pub struct Logger;

/// The importance of a log record, most important first.
#[derive(PartialEq, Eq, Structural, Clone, Copy, Debug)]
pub enum LogLevel {
    Error,
    Warn,
    Info,
    Debug,
    Trace,
}

/// The name of a level, as the log shows it.
pub open spec fn level_name(l: LogLevel) -> Seq<char> {
    match l {
        LogLevel::Error => "ERROR"@,
        LogLevel::Warn => "WARN"@,
        LogLevel::Info => "INFO"@,
        LogLevel::Debug => "DEBUG"@,
        LogLevel::Trace => "TRACE"@,
    }
}

impl LogLevel {
    /// The name of the level.
    pub fn as_str(&self) -> (s: &'static str)
        ensures
            s@ == level_name(*self),
    {
        match self {
            LogLevel::Error => "ERROR",
            LogLevel::Warn => "WARN",
            LogLevel::Info => "INFO",
            LogLevel::Debug => "DEBUG",
            LogLevel::Trace => "TRACE",
        }
    }
}

/// A line without the carriage return that may end it.
pub open spec fn strip_cr(l: Seq<char>) -> Seq<char> {
    if l.len() > 0 && l.last() == '\r' {
        l.drop_last()
    } else {
        l
    }
}

/// The lines of a text, as `str::lines` gives them: split at `\n`, a `\r` before a `\n`
/// dropped, and no empty line after a final `\n`.
pub open spec fn text_lines(s: Seq<char>) -> Seq<Seq<char>> {
    let p = split_on(s, '\n');
    let ended = p.drop_last().map_values(|l: Seq<char>| strip_cr(l));
    if p.last().len() == 0 {
        ended
    } else {
        ended.push(p.last())
    }
}

/// The texts one after the other.
pub open spec fn concat_all(parts: Seq<Seq<char>>) -> Seq<char>
    decreases parts.len(),
{
    if parts.len() == 0 {
        Seq::empty()
    } else {
        concat_all(parts.drop_last()) + parts.last()
    }
}

/// One line of the log: the date padded to 35 characters, the level padded to 5 in brackets,
/// then the text.
pub open spec fn log_line(date: Seq<char>, level: Seq<char>, line: Seq<char>) -> Seq<char> {
    padded(date, 35) + " ["@ + padded(level, 5) + "] "@ + line + "\n"@
}

/// What the log gets for a record: one log line per line of the message.
pub open spec fn record_text(date: Seq<char>, level: Seq<char>, message: Seq<char>) -> Seq<char> {
    concat_all(text_lines(message).map_values(|l: Seq<char>| log_line(date, level, l)))
}

fn strip_cr_text(s: &String) -> (r: String)
    ensures
        r@ == strip_cr(s@),
{
    let n = s.as_str().unicode_len();
    if n > 0 && s.as_str().get_char(n - 1) == '\r' {
        String::from_str(s.as_str().substring_char(0, n - 1))
    } else {
        s.clone()
    }
}

/// The lines of `s`, as `str::lines` gives them.
pub fn lines_of(s: &str) -> (lines: Vec<String>)
    ensures
        texts_of(lines@) == text_lines(s@),
{
    let pieces = split_text(s, '\n');
    proof {
        split_not_empty(s@, '\n');
    }
    let ghost p = split_on(s@, '\n');
    let n = pieces.len();
    let mut out: Vec<String> = Vec::new();
    let mut i: usize = 0;
    while i + 1 < n
        invariant
            n == pieces@.len(),
            n >= 1,
            p == texts_of(pieces@),
            i < n,
            texts_of(out@) == p.take(i as int).map_values(|l: Seq<char>| strip_cr(l)),
        decreases n - i,
    {
        assert(pieces@[i as int]@ == p[i as int]);
        let ghost before = out@;
        let line = strip_cr_text(&pieces[i]);
        out.push(line);
        assert(texts_of(out@) =~= texts_of(before).push(strip_cr(p[i as int])));
        assert(p.take((i + 1) as int).map_values(|l: Seq<char>| strip_cr(l)) =~= p.take(i as int).map_values(
            |l: Seq<char>| strip_cr(l),
        ).push(strip_cr(p[i as int])));
        i = i + 1;
    }
    assert(p.take(i as int) =~= p.drop_last());
    assert(pieces@[n - 1]@ == p.last());
    if !pieces[n - 1].as_str().is_empty() {
        out.push(pieces[n - 1].clone());
        assert(texts_of(out@) =~= p.drop_last().map_values(|l: Seq<char>| strip_cr(l)).push(p.last()));
    }
    out
}

impl Logger {
    /// The text the log gets for a record of `level` with `message`, stamped with `date`.
    pub fn format_record(date: &str, level: LogLevel, message: &str) -> (s: String)
        ensures
            s@ == record_text(date@, level_name(level), message@),
    {
        let d = pad_to(date, 35);
        let l = pad_to(level.as_str(), 5);
        let head = cat3(d.as_str(), " [", l.as_str());
        let prefix = cat2(head.as_str(), "] ");
        let lines = lines_of(message);
        let ghost parts = text_lines(message@).map_values(
            |x: Seq<char>| log_line(date@, level_name(level), x),
        );
        let n = lines.len();
        let mut out = String::new();
        let mut i: usize = 0;
        while i < n
            invariant
                n == lines@.len(),
                i <= n,
                texts_of(lines@) == text_lines(message@),
                parts == text_lines(message@).map_values(
                    |x: Seq<char>| log_line(date@, level_name(level), x),
                ),
                prefix@ == padded(date@, 35) + " ["@ + padded(level_name(level), 5) + "] "@,
                out@ == concat_all(parts.take(i as int)),
            decreases n - i,
        {
            out.append(prefix.as_str());
            out.append(lines[i].as_str());
            out.append("\n");
            i = i + 1;
            assert(parts.take(i as int).drop_last() =~= parts.take((i - 1) as int));
            assert(out@ =~= concat_all(parts.take(i as int)));
        }
        assert(parts.take(n as int) =~= parts);
        out
    }

    /// Whether a record from `target` belongs in this bot's log: only targets under the
    /// bot's package name `package` do.
    pub fn enabled(target: &str, package: &str) -> (r: bool)
        ensures
            r == package@.is_prefix_of(target@),
    {
        let t = chars_of(target);
        let p = chars_of(package);
        if p.len() > t.len() {
            return false;
        }
        let mut i: usize = 0;
        while i < p.len()
            invariant
                t@ == target@,
                p@ == package@,
                p@.len() <= t@.len(),
                i <= p@.len(),
                forall|j: int| 0 <= j < i ==> p@[j] == t@[j],
            decreases p@.len() - i,
        {
            if p[i] != t[i] {
                return false;
            }
            i = i + 1;
        }
        true
    }

    /// Whether a record goes to standard error when there is no log file yet: warnings and
    /// errors do, the rest goes to standard output.
    pub fn to_stderr(level: LogLevel) -> (r: bool)
        ensures
            r == (level == LogLevel::Error || level == LogLevel::Warn),
    {
        match level {
            LogLevel::Error | LogLevel::Warn => true,
            _ => false,
        }
    }
}

/// The report of a fatal error: the error's message, then one `  because:` line for each
/// cause, outermost first.
pub open spec fn error_report_text(chain: Seq<Seq<char>>) -> Seq<char> {
    chain[0] + "\n"@ + concat_all(chain.drop_first().map_values(|c: Seq<char>| "  because: "@ + c + "\n"@))
}

impl Logger {
    /// Writes the report of a fatal error from the messages of its chain of causes.
    pub fn error_report(chain: &Vec<String>) -> (s: String)
        requires
            chain@.len() >= 1,
        ensures
            s@ == error_report_text(texts_of(chain@)),
    {
        let ghost c = texts_of(chain@);
        let ghost rest = c.drop_first().map_values(|x: Seq<char>| "  because: "@ + x + "\n"@);
        let mut out = cat2(chain[0].as_str(), "\n");
        let ghost head = out@;
        let n = chain.len();
        let mut i: usize = 1;
        while i < n
            invariant
                n == chain@.len(),
                1 <= i <= n,
                c == texts_of(chain@),
                rest == c.drop_first().map_values(|x: Seq<char>| "  because: "@ + x + "\n"@),
                head == c[0] + "\n"@,
                out@ == head + concat_all(rest.take((i - 1) as int)),
            decreases n - i,
        {
            out.append("  because: ");
            out.append(chain[i].as_str());
            out.append("\n");
            i = i + 1;
            assert(rest.take((i - 1) as int).drop_last() =~= rest.take((i - 2) as int));
            assert(out@ =~= head + concat_all(rest.take((i - 1) as int)));
        }
        assert(rest.take((n - 1) as int) =~= rest);
        out
    }

    /// The notice printed to standard error before the bot stops on a fatal error.
    pub fn fatal_notice(report: &str) -> (s: String)
        ensures
            s@ == "\n[치명적 오류 발생 - 봇 종료됨]\n"@ + report@ + "\n"@,
    {
        cat3("\n[치명적 오류 발생 - 봇 종료됨]\n", report, "\n")
    }
}

/// Calls `chrono::Utc::now()` and returns its UNIX timestamp in seconds
/// (`DateTime::timestamp`) with the nanoseconds past that second
/// (`DateTime::timestamp_subsec_nanos`). Claimed: the seconds are not negative and the
/// nanoseconds are below one second, as `Utc::now` builds the time from the `Duration` since the
/// epoch, whose seconds are unsigned (a count beyond `i64` would make the call panic) and whose
/// sub-second part is below one second.
/// The time itself is left open: it is the clock's. `Utc::now` panics when the system clock
/// reads a time before the epoch; nothing here rules that out.
#[verifier::external_body]
fn utc_now() -> (t: (i64, u32))
    ensures
        t.0 >= 0,
        t.1 < 1_000_000_000,
{
    let now = chrono::Utc::now();
    (now.timestamp(), now.timestamp_subsec_nanos())
}

/// The nanoseconds from the instant `secs` seconds and `nanos` nanoseconds after the UNIX
/// epoch to the next midnight (00:00:00 UTC).
pub open spec fn nanos_to_midnight(secs: int, nanos: int) -> int {
    (86400 - secs % 86400) * 1_000_000_000 - nanos
}

impl Logger {
    /// The time from an instant to the next report time (00:00:00 UTC), in nanoseconds. An
    /// instant inside a leap second (`nanos` of a second or more) has none: the start of the
    /// next day cannot be formed from it.
    pub fn delay_until_midnight(secs: i64, nanos: u32) -> (r: Option<u64>)
        requires
            nanos < 2_000_000_000,
        ensures
            nanos >= 1_000_000_000 ==> r is None,
            nanos < 1_000_000_000 ==> r == Some(nanos_to_midnight(secs as int, nanos as int) as u64),
            r matches Some(d) ==> 0 < d <= 86_400_000_000_000,
    {
        if nanos >= 1_000_000_000 {
            return None;
        }
        let r = secs % 86400;
        let day_secs: u64 = if r < 0 { (r + 86400) as u64 } else { r as u64 };
        assert(day_secs == (secs as int) % 86400);
        let left: u64 = (86400 - day_secs) * 1_000_000_000 - nanos as u64;
        Some(left)
    }

    /// Calculates the duration until the next report time (00:00:00 UTC), in nanoseconds.
    pub fn duration_to_next_report() -> (r: Option<u64>)
        ensures
            r matches Some(d) && exists|secs: int, nanos: int|
                0 <= nanos < 1_000_000_000 && d == #[trigger] nanos_to_midnight(secs, nanos),
    {
        let (secs, nanos) = utc_now();
        let r = Self::delay_until_midnight(secs, nanos);
        assert(r matches Some(d) && d == nanos_to_midnight(secs as int, nanos as int));
        r
    }

    /// How long the daily report waits, after its hour of rest, before it reports: until the
    /// next midnight UTC, or 23 hours when that cannot be worked out.
    pub fn wait_before_report() -> (r: u64)
        ensures
            exists|secs: int, nanos: int|
                0 <= nanos < 1_000_000_000 && r == #[trigger] nanos_to_midnight(secs, nanos),
    {
        match Self::duration_to_next_report() {
            Some(d) => d,
            None => 82_800_000_000_000,
        }
    }
}

/// Counters of the events: how many times each command ran since the last report, in the
/// order the commands first ran.
pub struct BotEventCounter {
    entries: Vec<(String, u32)>,
}

/// The counts as plain values.
pub open spec fn counts_of(entries: Seq<(String, u32)>) -> Seq<(Seq<char>, u32)> {
    entries.map_values(|e: (String, u32)| (e.0@, e.1))
}

/// Whether no name is counted twice.
pub open spec fn names_distinct(c: Seq<(Seq<char>, u32)>) -> bool {
    forall|i: int, j: int| 0 <= i < j < c.len() ==> c[i].0 != c[j].0
}

/// How many times `name` was counted.
pub open spec fn count_of(c: Seq<(Seq<char>, u32)>, name: Seq<char>) -> int {
    if exists|i: int| 0 <= i < c.len() && #[trigger] c[i].0 == name {
        c[choose|i: int| 0 <= i < c.len() && #[trigger] c[i].0 == name].1 as int
    } else {
        0
    }
}

/// The counts after counting `name` once more.
pub open spec fn counted(c: Seq<(Seq<char>, u32)>, name: Seq<char>) -> Seq<(Seq<char>, u32)> {
    if exists|i: int| 0 <= i < c.len() && #[trigger] c[i].0 == name {
        let i = choose|i: int| 0 <= i < c.len() && #[trigger] c[i].0 == name;
        c.update(i, (name, (c[i].1 + 1) as u32))
    } else {
        c.push((name, 1u32))
    }
}

/// The body of the usage report: one `  {name}: {count}` line per counted command, or
/// `  Nothing` when none ran.
pub open spec fn report_body(c: Seq<(Seq<char>, u32)>) -> Seq<char> {
    if c.len() == 0 {
        "  Nothing"@
    } else {
        concat_all(c.map_values(|e: (Seq<char>, u32)| "  "@ + e.0 + ": "@ + int_text(e.1 as int) + "\n"@))
    }
}

/// The usage report as it is logged.
pub open spec fn usage_report(c: Seq<(Seq<char>, u32)>) -> Seq<char> {
    "Usage report\n"@ + report_body(c)
}

impl View for BotEventCounter {
    type V = Seq<(Seq<char>, u32)>;

    closed spec fn view(&self) -> Seq<(Seq<char>, u32)> {
        counts_of(self.entries@)
    }
}

impl BotEventCounter {
    #[verifier::type_invariant]
    spec fn well_formed(self) -> bool {
        names_distinct(counts_of(self.entries@))
    }

    /// Counters with nothing counted.
    pub fn new() -> (c: BotEventCounter)
        ensures
            c@ == Seq::<(Seq<char>, u32)>::empty(),
            names_distinct(c@),
    {
        let c = BotEventCounter { entries: Vec::new() };
        assert(c@ =~= Seq::<(Seq<char>, u32)>::empty());
        c
    }

    /// How many times `name` was counted since the last report.
    pub fn count(&self, name: &str) -> (n: u32)
        ensures
            n == count_of(self@, name@),
            names_distinct(self@),
    {
        proof {
            use_type_invariant(self);
        }
        let key = String::from_str(name);
        let n = self.entries.len();
        let mut i: usize = 0;
        while i < n
            invariant
                n == self.entries@.len(),
                i <= n,
                key@ == name@,
                names_distinct(self@),
                self@ == counts_of(self.entries@),
                forall|j: int| 0 <= j < i ==> self@[j].0 != name@,
            decreases n - i,
        {
            if self.entries[i].0 == key {
                assert(self@[i as int].0 == name@);
                return self.entries[i].1;
            }
            i = i + 1;
        }
        0
    }

    /// Counts one more run of the command `name`.
    pub fn increment(&mut self, name: &str)
        requires
            count_of(old(self)@, name@) < u32::MAX,
        ensures
            final(self)@ == counted(old(self)@, name@),
            names_distinct(old(self)@),
            names_distinct(final(self)@),
            count_of(final(self)@, name@) == count_of(old(self)@, name@) + 1,
            forall|other: Seq<char>| other != name@ ==> #[trigger] count_of(final(self)@, other) == count_of(old(self)@, other),
    {
        proof {
            use_type_invariant(&*self);
            increment_counts_once(self@, name@, name@);
            assert forall|other: Seq<char>| other != name@ implies #[trigger] count_of(counted(self@, name@), other)
                == count_of(self@, other) by {
                increment_counts_once(self@, name@, other);
            }
        }
        let key = String::from_str(name);
        let n = self.entries.len();
        let mut i: usize = 0;
        while i < n
            invariant
                n == self.entries@.len(),
                i <= n,
                key@ == name@,
                names_distinct(counts_of(self.entries@)),
                count_of(counts_of(self.entries@), name@) < u32::MAX,
                self.entries@ == old(self).entries@,
                forall|j: int| 0 <= j < i ==> counts_of(self.entries@)[j].0 != name@,
                names_distinct(counted(old(self)@, name@)),
                count_of(counted(old(self)@, name@), name@) == count_of(old(self)@, name@) + 1,
                forall|other: Seq<char>| other != name@ ==> #[trigger] count_of(counted(old(self)@, name@), other)
                    == count_of(old(self)@, other),
            decreases n - i,
        {
            if self.entries[i].0 == key {
                let c = self.entries[i].1;
                proof {
                    let v = counts_of(self.entries@);
                    assert(v[i as int].0 == name@);
                    let k = choose|k: int| 0 <= k < v.len() && #[trigger] v[k].0 == name@;
                    assert(k == i);
                }
                let mut entries: Vec<(String, u32)> = Vec::new();
                std::mem::swap(&mut entries, &mut self.entries);
                entries.set(i, (key, c + 1));
                proof {
                    assert(counts_of(entries@) =~= counted(counts_of(old(self).entries@), name@));
                }
                self.entries = entries;
                return;
            }
            i = i + 1;
        }
        let mut entries: Vec<(String, u32)> = Vec::new();
        std::mem::swap(&mut entries, &mut self.entries);
        entries.push((key, 1));
        proof {
            assert(counts_of(entries@) =~= counted(counts_of(old(self).entries@), name@));
        }
        self.entries = entries;
    }

    /// Reports the counters and resets them: returns the usage report to log and leaves
    /// nothing counted.
    pub fn report_to_log(&mut self) -> (report: String)
        ensures
            report@ == usage_report(old(self)@),
            names_distinct(old(self)@),
            final(self)@ == Seq::<(Seq<char>, u32)>::empty(),
    {
        proof {
            use_type_invariant(&*self);
        }
        let ghost c = self@;
        let ghost lines = c.map_values(
            |e: (Seq<char>, u32)| "  "@ + e.0 + ": "@ + int_text(e.1 as int) + "\n"@,
        );
        let n = self.entries.len();
        let mut body = String::new();
        let mut i: usize = 0;
        while i < n
            invariant
                n == self.entries@.len(),
                i <= n,
                c == counts_of(self.entries@),
                lines == c.map_values(
                    |e: (Seq<char>, u32)| "  "@ + e.0 + ": "@ + int_text(e.1 as int) + "\n"@,
                ),
                body@ == concat_all(lines.take(i as int)),
            decreases n - i,
        {
            let count = int_to_string(self.entries[i].1 as i64);
            body.append("  ");
            body.append(self.entries[i].0.as_str());
            body.append(": ");
            body.append(count.as_str());
            body.append("\n");
            i = i + 1;
            assert(lines.take(i as int).drop_last() =~= lines.take((i - 1) as int));
            assert(body@ =~= concat_all(lines.take(i as int)));
        }
        assert(lines.take(n as int) =~= lines);
        let report = if n == 0 {
            String::from_str("Usage report\n  Nothing")
        } else {
            cat2("Usage report\n", body.as_str())
        };
        proof {
            if n == 0 {
                reveal_strlit("Usage report\n  Nothing");
                reveal_strlit("Usage report\n");
                reveal_strlit("  Nothing");
                assert(report@ =~= usage_report(c));
            }
        }
        self.entries = Vec::new();
        assert(self@ =~= Seq::<(Seq<char>, u32)>::empty());
        report
    }
}

/// Counting a command raises its count by one and leaves every other count as it was.
pub proof fn increment_counts_once(c: Seq<(Seq<char>, u32)>, name: Seq<char>, other: Seq<char>)
    requires
        names_distinct(c),
        count_of(c, name) < u32::MAX,
    ensures
        names_distinct(counted(c, name)),
        count_of(counted(c, name), name) == count_of(c, name) + 1,
        other != name ==> count_of(counted(c, name), other) == count_of(c, other),
{
    let d = counted(c, name);
    if exists|i: int| 0 <= i < c.len() && #[trigger] c[i].0 == name {
        let i = choose|i: int| 0 <= i < c.len() && #[trigger] c[i].0 == name;
        assert(d[i].0 == name);
        let k = choose|k: int| 0 <= k < d.len() && #[trigger] d[k].0 == name;
        assert(k == i);
        if exists|j: int| 0 <= j < c.len() && #[trigger] c[j].0 == other {
            let j = choose|j: int| 0 <= j < c.len() && #[trigger] c[j].0 == other;
            assert(d[j].0 == other);
        }
        if exists|j: int| 0 <= j < d.len() && #[trigger] d[j].0 == other {
            let j = choose|j: int| 0 <= j < d.len() && #[trigger] d[j].0 == other;
            assert(c[j].0 == other || j == i);
        }
    } else {
        assert(d[c.len() as int].0 == name);
        if exists|j: int| 0 <= j < c.len() && #[trigger] c[j].0 == other {
            let j = choose|j: int| 0 <= j < c.len() && #[trigger] c[j].0 == other;
            assert(d[j].0 == other);
        }
        if exists|j: int| 0 <= j < d.len() && #[trigger] d[j].0 == other {
            let j = choose|j: int| 0 <= j < d.len() && #[trigger] d[j].0 == other;
            assert(c[j].0 == other || j == c.len());
        }
    }
}

/// After a report nothing is counted: every count starts again from zero.
pub proof fn report_resets_counts(name: Seq<char>)
    ensures
        count_of(Seq::<(Seq<char>, u32)>::empty(), name) == 0,
        usage_report(Seq::<(Seq<char>, u32)>::empty()) == "Usage report\n"@ + "  Nothing"@,
{
}

proof fn split_without_separator(s: Seq<char>, sep: char)
    requires
        forall|i: int| 0 <= i < s.len() ==> s[i] != sep,
    ensures
        split_on(s, sep) == seq![s],
    decreases s.len(),
{
    if s.len() > 0 {
        split_without_separator(s.drop_last(), sep);
        assert(s[s.len() - 1] != sep);
        assert(s.drop_last().push(s.last()) =~= s);
        assert(seq![s.drop_last()].update(0, s.drop_last().push(s.last())) =~= seq![s]);
    } else {
        assert(s =~= Seq::<char>::empty());
    }
}

/// A message of one line without a line break becomes exactly one log line, and an empty
/// message leaves nothing in the log.
pub proof fn one_line_message_one_log_line(date: Seq<char>, level: Seq<char>, message: Seq<char>)
    requires
        forall|i: int| 0 <= i < message.len() ==> message[i] != '\n',
    ensures
        message.len() > 0 ==> record_text(date, level, message) == log_line(date, level, message),
        message.len() == 0 ==> record_text(date, level, message) == Seq::<char>::empty(),
{
    split_without_separator(message, '\n');
    let p = split_on(message, '\n');
    assert(p.drop_last() =~= Seq::<Seq<char>>::empty());
    let lines = text_lines(message);
    if message.len() > 0 {
        assert(lines =~= seq![message]);
        let parts = lines.map_values(|l: Seq<char>| log_line(date, level, l));
        assert(parts.drop_last() =~= Seq::<Seq<char>>::empty());
        assert(parts.last() == log_line(date, level, message));
        assert(concat_all(parts.drop_last()) =~= Seq::<char>::empty());
        assert(record_text(date, level, message) =~= log_line(date, level, message));
    } else {
        assert(lines =~= Seq::<Seq<char>>::empty());
    }
}

} // verus!
