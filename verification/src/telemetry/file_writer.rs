//! Naming and rotation of the JSONL files that log lines and spans are
//! written to. The file handles themselves are kept by the application;
//! this state decides which file each write goes to.

use vstd::prelude::*;
use vstd::string::StrSliceExecFns;
use crate::text::{lemma_digit_char_value, lemma_dec_digits_value, owned, push_char, push_str, push_decimal_padded, digit_char, dec_digits, zero_pad, is_digit, digits_value, all_digits};
use crate::telemetry::builder::Rotation;

verus! {

/// A local date and time, as plain values, with its ISO 8601 week date.
#[derive(Clone, Copy, Debug)]
pub struct LocalDateTime {
    pub year: i32,
    pub month: u8,
    pub day: u8,
    pub hour: u8,
    pub minute: u8,
    pub iso_year: i32,
    pub iso_week: u8,
}

impl LocalDateTime {
    /// Fields within their calendar ranges.
    pub open spec fn wf(&self) -> bool {
        &&& 1 <= self.month <= 12
        &&& 1 <= self.day <= 31
        &&& self.hour <= 23
        &&& self.minute <= 59
        &&& 1 <= self.iso_week <= 53
        &&& self.year > i32::MIN
        &&& self.iso_year > i32::MIN
    }
}

/// How a rotated file name joins prefix, slot and suffix.
#[derive(Clone, Copy, Debug, PartialEq, Eq, Structural)]
pub enum NamingScheme {
    /// `{prefix}_{slot}_{suffix}.jsonl`, slots with two-digit years (`%y`).
    Compact,
    /// `{prefix}_{slot}.{suffix}.jsonl`, slots with full years (`%Y`).
    Dotted,
}

// ── Formatting of slots ────────────────────────────────────────────────────

/// Two decimal digits of `n < 100`, zero-padded (`%m`, `%d`, `%H`, `%M`, `%y`, `%V`).
pub open spec fn two_digits(n: nat) -> Seq<char> {
    seq![digit_char(n / 10), digit_char(n % 10)]
}

/// A year as `%Y` prints it: four zero-padded digits within `0..=9999`,
/// else a sign and at least four digits.
pub open spec fn year_digits(y: int) -> Seq<char> {
    if 0 <= y <= 9999 {
        zero_pad(dec_digits(y as nat), 4)
    } else if y > 9999 {
        seq!['+'] + zero_pad(dec_digits(y as nat), 4)
    } else {
        seq!['-'] + zero_pad(dec_digits((-y) as nat), 4)
    }
}

/// The period a write falls in, as text: `%y%m%d%H%M` (minutely),
/// `%y%m%d%H` (hourly), `%y%m%d` (daily) with two-digit years in the
/// compact scheme and four-digit years in the dotted one; `%GW%V`
/// (weekly); nothing for `Never`.
pub open spec fn slot_text(scheme: NamingScheme, rotation: Rotation, dt: LocalDateTime) -> Seq<char> {
    let year = match scheme {
        NamingScheme::Compact => two_digits((dt.year as int % 100) as nat),
        NamingScheme::Dotted => year_digits(dt.year as int),
    };
    let date = year + two_digits(dt.month as nat) + two_digits(dt.day as nat);
    match rotation {
        Rotation::Never => Seq::empty(),
        Rotation::Weekly => year_digits(dt.iso_year as int) + seq!['W'] + two_digits(dt.iso_week as nat),
        Rotation::Daily => date,
        Rotation::Hourly => date + two_digits(dt.hour as nat),
        Rotation::Minutely => date + two_digits(dt.hour as nat) + two_digits(dt.minute as nat),
    }
}

/// The name of the file for `slot`.
pub open spec fn file_name(
    scheme: NamingScheme,
    rotation: Rotation,
    prefix: Seq<char>,
    suffix: Seq<char>,
    slot: Seq<char>,
) -> Seq<char> {
    match rotation {
        Rotation::Never => prefix + seq!['_'] + suffix + ".jsonl"@,
        _ => match scheme {
            NamingScheme::Compact => prefix + seq!['_'] + slot + seq!['_'] + suffix + ".jsonl"@,
            NamingScheme::Dotted => prefix + seq!['_'] + slot + seq!['.'] + suffix + ".jsonl"@,
        },
    }
}

/// `dir` joined with `name` as a Unix path: an absolute `name` replaces
/// `dir`; otherwise a `/` is put between them unless `dir` is empty or
/// already ends with one.
pub open spec fn join_path(dir: Seq<char>, name: Seq<char>) -> Seq<char> {
    if name.len() > 0 && name[0] == '/' {
        name
    } else if dir.len() == 0 || dir.last() == '/' {
        dir + name
    } else {
        dir + seq!['/'] + name
    }
}

fn push_two_digits(out: &mut String, n: u8)
    requires
        n < 100,
    ensures
        final(out)@ == old(out)@ + two_digits(n as nat),
{
    let tens = ((48u8 + n / 10) as u8) as char;
    let ones = ((48u8 + n % 10) as u8) as char;
    push_char(out, tens);
    push_char(out, ones);
    assert(out@ =~= old(out)@ + two_digits(n as nat));
}

fn push_year(out: &mut String, y: i32)
    requires
        y > i32::MIN,
    ensures
        final(out)@ == old(out)@ + year_digits(y as int),
{
    if 0 <= y && y <= 9999 {
        push_decimal_padded(out, y as u64, 4);
    } else if y > 9999 {
        push_char(out, '+');
        push_decimal_padded(out, y as u64, 4);
        assert(out@ =~= old(out)@ + year_digits(y as int));
    } else {
        push_char(out, '-');
        let a: i32 = -y;
        push_decimal_padded(out, a as u64, 4);
        assert(out@ =~= old(out)@ + year_digits(y as int));
    }
}

fn year_mod_100(y: i32) -> (r: u8)
    ensures
        r as int == y as int % 100,
        r < 100,
{
    let m: i32 = y % 100;
    if m < 0 {
        (m + 100) as u8
    } else {
        m as u8
    }
}

// ── The rotating file ──────────────────────────────────────────────────────

/// What a write needs done to the open file before the bytes go out.
#[derive(Debug)]
pub enum WriteStep {
    /// Keep writing to the open file.
    Reuse,
    /// Reopen `path` if no file exists there any more.
    Probe(String),
    /// Close the open file, if any, and open (append to) `path`.
    Reopen(String),
}

/// The model of a write step.
pub enum StepSpec {
    Reuse,
    Probe(Seq<char>),
    Reopen(Seq<char>),
}

impl View for WriteStep {
    type V = StepSpec;

    open spec fn view(&self) -> StepSpec {
        match self {
            WriteStep::Reuse => StepSpec::Reuse,
            WriteStep::Probe(p) => StepSpec::Probe(p@),
            WriteStep::Reopen(p) => StepSpec::Reopen(p@),
        }
    }
}

/// A single rotated file with a configurable prefix and suffix: where it
/// lives, how it is named, the period of the file last opened, and how
/// many writes it has taken.
#[derive(Debug)]
pub struct RollingFileWriter {
    pub dir: String,
    pub prefix: String,
    pub suffix: String,
    pub rotation: Rotation,
    pub scheme: NamingScheme,
    pub slot: Option<String>,
    pub write_count: u64,
}

impl RollingFileWriter {
    pub open spec fn slot_view(&self) -> Option<Seq<char>> {
        match self.slot {
            Some(s) => Some(s@),
            None => None,
        }
    }

    /// The full path of the file for `slot`.
    pub open spec fn path_for(&self, slot: Seq<char>) -> Seq<char> {
        join_path(self.dir@, file_name(self.scheme, self.rotation, self.prefix@, self.suffix@, slot))
    }

    /// Same configuration; only the slot and the write count may differ.
    pub open spec fn same_file_config(&self, other: &Self) -> bool {
        &&& self.dir@ == other.dir@
        &&& self.prefix@ == other.prefix@
        &&& self.suffix@ == other.suffix@
        &&& self.rotation == other.rotation
        &&& self.scheme == other.scheme
    }

    /// A writer with no file opened yet, named in the compact scheme.
    pub fn new(dir: &str, prefix: &str, suffix: &str, rotation: Rotation) -> (w: Self)
        ensures
            w.dir@ == dir@,
            w.prefix@ == prefix@,
            w.suffix@ == suffix@,
            w.rotation == rotation,
            w.scheme == NamingScheme::Compact,
            w.slot is None,
            w.write_count == 0,
    {
        RollingFileWriter::with_scheme(dir, prefix, suffix, rotation, NamingScheme::Compact)
    }

    /// A writer with no file opened yet, named in the given scheme.
    pub fn with_scheme(dir: &str, prefix: &str, suffix: &str, rotation: Rotation, scheme: NamingScheme) -> (w: Self)
        ensures
            w.dir@ == dir@,
            w.prefix@ == prefix@,
            w.suffix@ == suffix@,
            w.rotation == rotation,
            w.scheme == scheme,
            w.slot is None,
            w.write_count == 0,
    {
        RollingFileWriter {
            dir: owned(dir),
            prefix: owned(prefix),
            suffix: owned(suffix),
            rotation,
            scheme,
            slot: None,
            write_count: 0,
        }
    }

    /// The period `dt` falls in, as it appears in file names.
    pub fn slot(&self, dt: &LocalDateTime) -> (s: String)
        requires
            dt.wf(),
        ensures
            s@ == slot_text(self.scheme, self.rotation, *dt),
    {
        let mut s = String::new();
        match self.rotation {
            Rotation::Never => {
                assert(s@ =~= slot_text(self.scheme, self.rotation, *dt));
                return s;
            },
            Rotation::Weekly => {
                push_year(&mut s, dt.iso_year);
                push_char(&mut s, 'W');
                push_two_digits(&mut s, dt.iso_week);
                assert(s@ =~= slot_text(self.scheme, self.rotation, *dt));
                return s;
            },
            _ => {},
        }
        match self.scheme {
            NamingScheme::Compact => push_two_digits(&mut s, year_mod_100(dt.year)),
            NamingScheme::Dotted => push_year(&mut s, dt.year),
        }
        push_two_digits(&mut s, dt.month);
        push_two_digits(&mut s, dt.day);
        match self.rotation {
            Rotation::Hourly => {
                push_two_digits(&mut s, dt.hour);
            },
            Rotation::Minutely => {
                push_two_digits(&mut s, dt.hour);
                push_two_digits(&mut s, dt.minute);
            },
            _ => {},
        }
        assert(s@ =~= slot_text(self.scheme, self.rotation, *dt));
        s
    }

    /// The full path of the file for `slot` (the slot is ignored with
    /// `Never` rotation).
    pub fn filename(&self, slot: &str) -> (p: String)
        ensures
            p@ == self.path_for(slot@),
            self.rotation == Rotation::Never ==> p@ == join_path(self.dir@,
                self.prefix@ + seq!['_'] + self.suffix@ + ".jsonl"@),
            (self.rotation != Rotation::Never && self.scheme == NamingScheme::Compact) ==> p@ == join_path(
                self.dir@, self.prefix@ + seq!['_'] + slot@ + seq!['_'] + self.suffix@ + ".jsonl"@),
            (self.rotation != Rotation::Never && self.scheme == NamingScheme::Dotted) ==> p@ == join_path(
                self.dir@, self.prefix@ + seq!['_'] + slot@ + seq!['.'] + self.suffix@ + ".jsonl"@),
    {
        let mut name = String::new();
        push_str(&mut name, self.prefix.as_str());
        push_char(&mut name, '_');
        match self.rotation {
            Rotation::Never => {},
            _ => {
                push_str(&mut name, slot);
                match self.scheme {
                    NamingScheme::Compact => push_char(&mut name, '_'),
                    NamingScheme::Dotted => push_char(&mut name, '.'),
                }
            },
        }
        push_str(&mut name, self.suffix.as_str());
        push_str(&mut name, ".jsonl");
        assert(name@ =~= file_name(self.scheme, self.rotation, self.prefix@, self.suffix@, slot@));
        join(self.dir.as_str(), name.as_str())
    }

    /// Decide what the next write needs: count the write, and move to a
    /// new file when the period has changed; every hundredth write, check
    /// that the open file still exists; open one if none is open.
    pub fn begin_write(&mut self, now: &LocalDateTime, file_open: bool) -> (step: WriteStep)
        requires
            old(self).write_count < u64::MAX,
            now.wf(),
        ensures
            final(self).same_file_config(old(self)),
            final(self).write_count == old(self).write_count + 1,
            ({
                let check = (old(self).write_count + 1) % 100 == 0;
                if old(self).rotation == Rotation::Never {
                    let path = old(self).path_for(Seq::empty());
                    &&& final(self).slot_view() == old(self).slot_view()
                    &&& step@ == (if !file_open {
                        StepSpec::Reopen(path)
                    } else if check {
                        StepSpec::Probe(path)
                    } else {
                        StepSpec::Reuse
                    })
                } else {
                    let s = slot_text(old(self).scheme, old(self).rotation, *now);
                    let path = old(self).path_for(s);
                    &&& final(self).slot_view() == Some(s)
                    &&& step@ == (if old(self).slot_view() != Some(s) || !file_open {
                        StepSpec::Reopen(path)
                    } else if check {
                        StepSpec::Probe(path)
                    } else {
                        StepSpec::Reuse
                    })
                }
            }),
    {
        self.write_count = self.write_count + 1;
        let check = self.write_count % 100 == 0;
        match self.rotation {
            Rotation::Never => {
                let path = self.filename("");
                if !file_open {
                    WriteStep::Reopen(path)
                } else if check {
                    WriteStep::Probe(path)
                } else {
                    WriteStep::Reuse
                }
            },
            _ => {
                let s = self.slot(now);
                let changed = match &self.slot {
                    Some(cur) => !(*cur == s),
                    None => true,
                };
                let path = self.filename(s.as_str());
                if changed {
                    self.slot = Some(s);
                    WriteStep::Reopen(path)
                } else if !file_open {
                    WriteStep::Reopen(path)
                } else if check {
                    WriteStep::Probe(path)
                } else {
                    WriteStep::Reuse
                }
            },
        }
    }
}

/// File names: without rotation `{prefix}_{suffix}.jsonl` in both schemes;
/// with rotation the slot follows `{prefix}_` and precedes `_{suffix}.jsonl`
/// (compact) or `.{suffix}.jsonl` (dotted).
pub proof fn lemma_file_name_shapes(scheme: NamingScheme, rotation: Rotation, prefix: Seq<char>, suffix: Seq<char>, slot: Seq<char>)
    ensures
        rotation == Rotation::Never ==> file_name(scheme, rotation, prefix, suffix, slot)
            == prefix + seq!['_'] + suffix + ".jsonl"@,
        (rotation != Rotation::Never && scheme == NamingScheme::Compact) ==> file_name(scheme, rotation, prefix, suffix, slot)
            == prefix + seq!['_'] + slot + seq!['_'] + suffix + ".jsonl"@,
        (rotation != Rotation::Never && scheme == NamingScheme::Dotted) ==> file_name(scheme, rotation, prefix, suffix, slot)
            == prefix + seq!['_'] + slot + seq!['.'] + suffix + ".jsonl"@,
{
}

/// With `Never` rotation every write goes to the same file, whatever the slot.
pub proof fn lemma_never_single_file(w: RollingFileWriter, s1: Seq<char>, s2: Seq<char>)
    requires
        w.rotation == Rotation::Never,
    ensures
        w.path_for(s1) == w.path_for(s2),
{
}

proof fn lemma_join_injective(dir: Seq<char>, n1: Seq<char>, n2: Seq<char>)
    requires
        n1.len() > 0,
        n2.len() > 0,
        n1[0] == n2[0],
        n1 != n2,
    ensures
        join_path(dir, n1) != join_path(dir, n2),
{
    if n1[0] != '/' {
        let sep: Seq<char> = if dir.len() == 0 || dir.last() == '/' { Seq::empty() } else { seq!['/'] };
        let p1 = dir + sep + n1;
        let p2 = dir + sep + n2;
        assert(join_path(dir, n1) =~= p1);
        assert(join_path(dir, n2) =~= p2);
        if p1 == p2 {
            assert(p1.skip((dir.len() + sep.len()) as int) =~= n1);
            assert(p2.skip((dir.len() + sep.len()) as int) =~= n2);
        }
    }
}

/// Rotated files of different periods are different files: two slots of
/// the same length that differ give different paths.
pub proof fn lemma_distinct_slots_distinct_paths(w: RollingFileWriter, s1: Seq<char>, s2: Seq<char>)
    requires
        w.rotation != Rotation::Never,
        s1.len() == s2.len(),
        s1 != s2,
    ensures
        w.path_for(s1) != w.path_for(s2),
{
    let n1 = file_name(w.scheme, w.rotation, w.prefix@, w.suffix@, s1);
    let n2 = file_name(w.scheme, w.rotation, w.prefix@, w.suffix@, s2);
    let head = w.prefix@ + seq!['_'];
    let mid: Seq<char> = match w.scheme {
        NamingScheme::Compact => seq!['_'],
        NamingScheme::Dotted => seq!['.'],
    };
    let tail = mid + w.suffix@ + ".jsonl"@;
    assert(n1 =~= head + s1 + tail);
    assert(n2 =~= head + s2 + tail);
    assert(n1 != n2) by {
        if n1 == n2 {
            assert(n1.subrange(head.len() as int, (head.len() + s1.len()) as int) =~= s1);
            assert(n2.subrange(head.len() as int, (head.len() + s2.len()) as int) =~= s2);
        }
    }
    assert(n1[0] == n2[0]) by {
        if w.prefix@.len() > 0 {
            assert(n1[0] == w.prefix@[0]);
            assert(n2[0] == w.prefix@[0]);
        } else {
            assert(n1[0] == '_');
            assert(n2[0] == '_');
        }
    }
    lemma_join_injective(w.dir@, n1, n2);
}

/// Slots in the compact scheme have a fixed length for each rotation:
/// 10 characters minutely, 8 hourly, 6 daily.
pub proof fn lemma_compact_slot_length(rotation: Rotation, dt: LocalDateTime)
    requires
        dt.wf(),
    ensures
        rotation == Rotation::Minutely ==> slot_text(NamingScheme::Compact, rotation, dt).len() == 10,
        rotation == Rotation::Hourly ==> slot_text(NamingScheme::Compact, rotation, dt).len() == 8,
        rotation == Rotation::Daily ==> slot_text(NamingScheme::Compact, rotation, dt).len() == 6,
        rotation == Rotation::Never ==> slot_text(NamingScheme::Compact, rotation, dt).len() == 0,
{
}

// ── Laws between slots ─────────────────────────────────────────────────────

/// Whether two times fall in the same period of a rotation, as far as the
/// naming scheme can tell: the compact scheme keeps only the year modulo 100.
pub open spec fn same_period(scheme: NamingScheme, rotation: Rotation, a: LocalDateTime, b: LocalDateTime) -> bool {
    let same_year = match scheme {
        NamingScheme::Compact => a.year as int % 100 == b.year as int % 100,
        NamingScheme::Dotted => a.year == b.year,
    };
    let same_day = same_year && a.month == b.month && a.day == b.day;
    match rotation {
        Rotation::Never => true,
        Rotation::Weekly => a.iso_year == b.iso_year && a.iso_week == b.iso_week,
        Rotation::Daily => same_day,
        Rotation::Hourly => same_day && a.hour == b.hour,
        Rotation::Minutely => same_day && a.hour == b.hour && a.minute == b.minute,
    }
}

/// `a` is not later than `b`, comparing year, month, day, hour and minute
/// in that order.
pub open spec fn not_later(a: LocalDateTime, b: LocalDateTime) -> bool {
    a.year < b.year || (a.year == b.year && (a.month < b.month || (a.month == b.month && (a.day < b.day
        || (a.day == b.day && (a.hour < b.hour || (a.hour == b.hour && a.minute <= b.minute)))))))
}

/// The years whose slots the scheme orders by time: one century
/// (2000–2099) for the two-digit years of the compact scheme, 0–9999 for
/// the four-digit years of the dotted one.
pub open spec fn ordered_year(scheme: NamingScheme, y: i32) -> bool {
    match scheme {
        NamingScheme::Compact => 2000 <= y <= 2099,
        NamingScheme::Dotted => 0 <= y <= 9999,
    }
}

proof fn lemma_zeros_value(k: nat)
    ensures
        all_digits(Seq::new(k, |_i: int| '0')),
        digits_value(Seq::new(k, |_i: int| '0')) == 0,
    decreases k,
{
    if k > 0 {
        lemma_zeros_value((k - 1) as nat);
        assert(Seq::new(k, |_i: int| '0').drop_last() =~= Seq::new((k - 1) as nat, |_i: int| '0'));
    }
}

proof fn lemma_value_after_zeros(k: nat, s: Seq<char>)
    ensures
        digits_value(Seq::new(k, |_i: int| '0') + s) == digits_value(s),
    decreases s.len(),
{
    let z = Seq::new(k, |_i: int| '0');
    if s.len() == 0 {
        assert(z + s =~= z);
        lemma_zeros_value(k);
    } else {
        lemma_value_after_zeros(k, s.drop_last());
        assert((z + s).drop_last() =~= z + s.drop_last());
        assert((z + s).last() == s.last());
    }
}

/// The digits of a zero-padded decimal representation, and their value.
proof fn lemma_padded_value(n: nat, w: nat)
    ensures
        all_digits(zero_pad(dec_digits(n), w)),
        digits_value(zero_pad(dec_digits(n), w)) == n,
        zero_pad(dec_digits(n), w).len() >= w,
        n < 10000 && w == 4 ==> zero_pad(dec_digits(n), w).len() == 4,
{
    lemma_dec_digits_value(n);
    lemma_dec_digits_len(n);
    let d = dec_digits(n);
    if d.len() < w {
        let k = (w - d.len()) as nat;
        lemma_value_after_zeros(k, d);
        lemma_zeros_value(k);
        let p = Seq::new(k, |_i: int| '0') + d;
        assert forall|i: int| 0 <= i < p.len() implies is_digit(#[trigger] p[i]) by {
            if i >= k {
                assert(p[i] == d[i - k]);
            }
        }
    }
}

proof fn lemma_dec_digits_len(n: nat)
    ensures
        dec_digits(n).len() >= 1,
        n < 10 ==> dec_digits(n).len() <= 1,
        n < 100 ==> dec_digits(n).len() <= 2,
        n < 1000 ==> dec_digits(n).len() <= 3,
        n < 10000 ==> dec_digits(n).len() <= 4,
    decreases n,
{
    if n >= 10 {
        lemma_dec_digits_len(n / 10);
    }
}

proof fn lemma_two_digits_value(n: nat)
    requires
        n < 100,
    ensures
        all_digits(two_digits(n)),
        two_digits(n).len() == 2,
        digits_value(two_digits(n)) == n,
{
    lemma_digit_char_value(n / 10);
    lemma_digit_char_value(n % 10);
    let t = two_digits(n);
    let u = t.drop_last();
    assert(u =~= seq![digit_char(n / 10)]);
    assert(u.drop_last() =~= Seq::<char>::empty());
    assert(digits_value(u.drop_last()) == 0);
    assert(u.last() == digit_char(n / 10));
    assert(digits_value(u) == n / 10);
    assert(t.last() == digit_char(n % 10));
    assert(digits_value(t) == (n / 10) * 10 + n % 10);
}

/// Appending two digits multiplies the value by 100 and adds them.
proof fn lemma_value_append_two(s: Seq<char>, n: nat)
    requires
        n < 100,
        all_digits(s),
    ensures
        all_digits(s + two_digits(n)),
        digits_value(s + two_digits(n)) == digits_value(s) * 100 + n,
{
    lemma_digit_char_value(n / 10);
    lemma_digit_char_value(n % 10);
    let t = s + two_digits(n);
    let u = t.drop_last();
    assert(u =~= s.push(digit_char(n / 10)));
    assert(u.drop_last() =~= s);
    assert(u.last() == digit_char(n / 10));
    assert(t.last() == digit_char(n % 10));
    let v = digits_value(s);
    assert(digits_value(u) == v * 10 + n / 10);
    assert(digits_value(t) == digits_value(u) * 10 + n % 10);
    assert((v * 10 + n / 10) * 10 + n % 10 == v * 100 + n) by (nonlinear_arith);
    assert forall|i: int| 0 <= i < t.len() implies is_digit(#[trigger] t[i]) by {
        if i < s.len() {
            assert(t[i] == s[i]);
        }
    }
}

proof fn lemma_split_eq(a1: Seq<char>, b1: Seq<char>, a2: Seq<char>, b2: Seq<char>)
    requires
        b1.len() == b2.len(),
        a1 + b1 == a2 + b2,
    ensures
        a1 == a2,
        b1 == b2,
{
    assert(a1 =~= (a1 + b1).subrange(0, a1.len() as int));
    assert(a2 =~= (a2 + b2).subrange(0, a2.len() as int));
    assert(b1 =~= (a1 + b1).subrange(a1.len() as int, (a1 + b1).len() as int));
    assert(b2 =~= (a2 + b2).subrange(a2.len() as int, (a2 + b2).len() as int));
}

proof fn lemma_two_digits_injective(a: nat, b: nat)
    requires
        a < 100,
        b < 100,
        two_digits(a) == two_digits(b),
    ensures
        a == b,
{
    lemma_two_digits_value(a);
    lemma_two_digits_value(b);
}

proof fn lemma_year_digits_parts(y: int)
    ensures
        year_digits(y).len() >= 4,
        0 <= y <= 9999 ==> is_digit(year_digits(y)[0]) && digits_value(year_digits(y)) == y
            && all_digits(year_digits(y)) && year_digits(y).len() == 4,
        y > 9999 ==> year_digits(y)[0] == '+' && digits_value(year_digits(y).drop_first()) == y,
        y < 0 ==> year_digits(y)[0] == '-' && digits_value(year_digits(y).drop_first()) == -y,
{
    let yd = year_digits(y);
    if 0 <= y <= 9999 {
        lemma_padded_value(y as nat, 4);
    } else if y > 9999 {
        lemma_padded_value(y as nat, 4);
        assert(yd.drop_first() =~= zero_pad(dec_digits(y as nat), 4));
    } else {
        lemma_padded_value((-y) as nat, 4);
        assert(yd.drop_first() =~= zero_pad(dec_digits((-y) as nat), 4));
    }
}

proof fn lemma_year_digits_injective(a: int, b: int)
    requires
        year_digits(a) == year_digits(b),
    ensures
        a == b,
{
    lemma_year_digits_parts(a);
    lemma_year_digits_parts(b);
}

/// Within one scheme, the daily slot of a time is followed by two digits of
/// the hour to give its hourly slot, and that by two digits of the minute to
/// give its minutely slot: each is a prefix of the next.
pub proof fn lemma_slot_prefixes(scheme: NamingScheme, dt: LocalDateTime)
    ensures
        slot_text(scheme, Rotation::Hourly, dt) == slot_text(scheme, Rotation::Daily, dt) + two_digits(dt.hour as nat),
        slot_text(scheme, Rotation::Minutely, dt) == slot_text(scheme, Rotation::Hourly, dt) + two_digits(dt.minute as nat),
        slot_text(scheme, Rotation::Daily, dt).is_prefix_of(slot_text(scheme, Rotation::Hourly, dt)),
        slot_text(scheme, Rotation::Hourly, dt).is_prefix_of(slot_text(scheme, Rotation::Minutely, dt)),
{
    let d = slot_text(scheme, Rotation::Daily, dt);
    let h = slot_text(scheme, Rotation::Hourly, dt);
    let m = slot_text(scheme, Rotation::Minutely, dt);
    assert(h =~= d + two_digits(dt.hour as nat));
    assert(m =~= h + two_digits(dt.minute as nat));
    assert(h.subrange(0, d.len() as int) =~= d);
    assert(m.subrange(0, h.len() as int) =~= h);
}

/// Two times get the same slot exactly when they fall in the same period.
pub proof fn lemma_same_slot_same_period(scheme: NamingScheme, rotation: Rotation, a: LocalDateTime, b: LocalDateTime)
    requires
        a.wf(),
        b.wf(),
    ensures
        (slot_text(scheme, rotation, a) == slot_text(scheme, rotation, b)) <==> same_period(scheme, rotation, a, b),
{
    let sa = slot_text(scheme, rotation, a);
    let sb = slot_text(scheme, rotation, b);
    if sa == sb {
        let ya = match scheme {
            NamingScheme::Compact => two_digits((a.year as int % 100) as nat),
            NamingScheme::Dotted => year_digits(a.year as int),
        };
        let yb = match scheme {
            NamingScheme::Compact => two_digits((b.year as int % 100) as nat),
            NamingScheme::Dotted => year_digits(b.year as int),
        };
        let da = ya + two_digits(a.month as nat) + two_digits(a.day as nat);
        let db = yb + two_digits(b.month as nat) + two_digits(b.day as nat);
        let ha = da + two_digits(a.hour as nat);
        let hb = db + two_digits(b.hour as nat);
        match rotation {
            Rotation::Never => {},
            Rotation::Weekly => {
                let wa = year_digits(a.iso_year as int) + seq!['W'];
                let wb = year_digits(b.iso_year as int) + seq!['W'];
                lemma_split_eq(wa, two_digits(a.iso_week as nat), wb, two_digits(b.iso_week as nat));
                lemma_two_digits_injective(a.iso_week as nat, b.iso_week as nat);
                lemma_split_eq(year_digits(a.iso_year as int), seq!['W'], year_digits(b.iso_year as int), seq!['W']);
                lemma_year_digits_injective(a.iso_year as int, b.iso_year as int);
            },
            _ => {
                if rotation == Rotation::Minutely {
                    lemma_split_eq(ha, two_digits(a.minute as nat), hb, two_digits(b.minute as nat));
                    lemma_two_digits_injective(a.minute as nat, b.minute as nat);
                }
                if rotation == Rotation::Minutely || rotation == Rotation::Hourly {
                    lemma_split_eq(da, two_digits(a.hour as nat), db, two_digits(b.hour as nat));
                    lemma_two_digits_injective(a.hour as nat, b.hour as nat);
                }
                assert(da == db);
                lemma_split_eq(ya + two_digits(a.month as nat), two_digits(a.day as nat),
                    yb + two_digits(b.month as nat), two_digits(b.day as nat));
                lemma_two_digits_injective(a.day as nat, b.day as nat);
                lemma_split_eq(ya, two_digits(a.month as nat), yb, two_digits(b.month as nat));
                lemma_two_digits_injective(a.month as nat, b.month as nat);
                match scheme {
                    NamingScheme::Compact => {
                        lemma_two_digits_injective((a.year as int % 100) as nat, (b.year as int % 100) as nat);
                    },
                    NamingScheme::Dotted => {
                        lemma_year_digits_injective(a.year as int, b.year as int);
                    },
                }
            },
        }
    }
}

proof fn lemma_lex_step(v1: int, x1: int, v2: int, x2: int)
    requires
        0 <= x1 < 100,
        0 <= x2 < 100,
    ensures
        v1 < v2 ==> v1 * 100 + x1 < v2 * 100 + x2,
        v1 == v2 && x1 <= x2 ==> v1 * 100 + x1 <= v2 * 100 + x2,
        v1 == v2 && x1 < x2 ==> v1 * 100 + x1 < v2 * 100 + x2,
{
    if v1 < v2 {
        assert(v1 * 100 + 100 <= v2 * 100) by (nonlinear_arith)
            requires v1 < v2;
    }
}

/// The digits of the year part of a slot and their value, for the years
/// the scheme orders.
proof fn lemma_year_part_value(scheme: NamingScheme, y: i32)
    requires
        ordered_year(scheme, y),
    ensures
        ({
            let part = match scheme {
                NamingScheme::Compact => two_digits((y as int % 100) as nat),
                NamingScheme::Dotted => year_digits(y as int),
            };
            &&& all_digits(part)
            &&& part.len() == match scheme { NamingScheme::Compact => 2int, NamingScheme::Dotted => 4int }
            &&& digits_value(part) == match scheme { NamingScheme::Compact => y - 2000, NamingScheme::Dotted => y as int }
        }),
{
    match scheme {
        NamingScheme::Compact => {
            assert(y as int % 100 == y - 2000);
            lemma_two_digits_value((y as int % 100) as nat);
        },
        NamingScheme::Dotted => {
            lemma_year_digits_parts(y as int);
        },
    }
}

/// `a` comes no later than `b` in text order (character by character,
/// a proper prefix first).
pub open spec fn text_not_after(a: Seq<char>, b: Seq<char>) -> bool
    decreases a.len(),
{
    if a.len() == 0 {
        true
    } else if b.len() == 0 {
        false
    } else if a[0] != b[0] {
        a[0] < b[0]
    } else {
        text_not_after(a.drop_first(), b.drop_first())
    }
}

spec fn pow10(n: nat) -> nat
    decreases n,
{
    if n == 0 {
        1
    } else {
        pow10((n - 1) as nat) * 10
    }
}

proof fn lemma_digits_value_bound(s: Seq<char>)
    requires
        all_digits(s),
    ensures
        digits_value(s) < pow10(s.len()),
    decreases s.len(),
{
    if s.len() > 0 {
        let t = s.drop_last();
        assert(all_digits(t)) by {
            assert forall|i: int| 0 <= i < t.len() implies is_digit(#[trigger] t[i]) by {
                assert(t[i] == s[i]);
            }
        }
        lemma_digits_value_bound(t);
        assert(is_digit(s[s.len() - 1]));
        let v = digits_value(t);
        let d = ((s.last() as nat) - 48) as nat;
        let p = pow10(t.len());
        assert(v * 10 + d < p * 10) by (nonlinear_arith)
            requires v < p, d < 10;
    }
}

proof fn lemma_digits_value_front(s: Seq<char>)
    requires
        s.len() >= 1,
    ensures
        digits_value(s) == ((s[0] as nat) - 48) as nat * pow10((s.len() - 1) as nat) + digits_value(s.drop_first()),
    decreases s.len(),
{
    let d0 = ((s[0] as nat) - 48) as nat;
    if s.len() == 1 {
        assert(s.drop_last() =~= Seq::<char>::empty());
        assert(s.drop_first() =~= Seq::<char>::empty());
        assert(digits_value(s.drop_last()) == 0);
        assert(digits_value(s.drop_first()) == 0);
        assert(pow10(0) == 1);
        assert(s.last() == s[0]);
        assert(digits_value(s) == d0);
        assert(d0 * pow10(0) == d0);
    } else {
        let t = s.drop_last();
        lemma_digits_value_front(t);
        assert(t[0] == s[0]);
        assert(s.drop_first().drop_last() =~= t.drop_first());
        assert(s.drop_first().last() == s.last());
        let dl = ((s.last() as nat) - 48) as nat;
        let p = pow10((t.len() - 1) as nat);
        let r = digits_value(t.drop_first());
        assert(pow10((s.len() - 1) as nat) == p * 10);
        assert(digits_value(s) == digits_value(t) * 10 + dl);
        assert(digits_value(s.drop_first()) == digits_value(s.drop_first().drop_last()) * 10 + dl);
        assert(digits_value(s.drop_first()) == r * 10 + dl);
        assert(digits_value(t) == d0 * p + r);
        assert((d0 * p + r) * 10 + dl == d0 * (p * 10) + (r * 10 + dl)) by (nonlinear_arith);
        assert(digits_value(s) == d0 * pow10((s.len() - 1) as nat) + digits_value(s.drop_first()));
    }
}

/// Of two strings of digits of one length, the one of no greater value
/// comes no later in text order.
proof fn lemma_value_order_is_text_order(a: Seq<char>, b: Seq<char>)
    requires
        all_digits(a),
        all_digits(b),
        a.len() == b.len(),
        digits_value(a) <= digits_value(b),
    ensures
        text_not_after(a, b),
    decreases a.len(),
{
    if a.len() > 0 {
        lemma_digits_value_front(a);
        lemma_digits_value_front(b);
        let ra = a.drop_first();
        let rb = b.drop_first();
        assert(all_digits(ra)) by {
            assert forall|i: int| 0 <= i < ra.len() implies is_digit(#[trigger] ra[i]) by {
                assert(ra[i] == a[i + 1]);
            }
        }
        assert(all_digits(rb)) by {
            assert forall|i: int| 0 <= i < rb.len() implies is_digit(#[trigger] rb[i]) by {
                assert(rb[i] == b[i + 1]);
            }
        }
        lemma_digits_value_bound(ra);
        lemma_digits_value_bound(rb);
        assert(is_digit(a[0]) && is_digit(b[0]));
        let da = ((a[0] as nat) - 48) as nat;
        let db = ((b[0] as nat) - 48) as nat;
        let p = pow10((a.len() - 1) as nat);
        let va = digits_value(ra);
        let vb = digits_value(rb);
        if a[0] != b[0] {
            if da > db {
                assert(da * p + va > db * p + vb) by (nonlinear_arith)
                    requires da > db, vb < p, va >= 0;
            }
        } else {
            lemma_value_order_is_text_order(ra, rb);
        }
    }
}

/// Slots grow with time: with daily, hourly or minutely rotation, for the
/// years the scheme orders, every slot is a string of digits of one
/// length, and of two times the one not later has the slot of no greater
/// value (so its slot also comes first in text order).
pub proof fn lemma_slots_grow(scheme: NamingScheme, rotation: Rotation, a: LocalDateTime, b: LocalDateTime)
    requires
        a.wf(),
        b.wf(),
        rotation == Rotation::Daily || rotation == Rotation::Hourly || rotation == Rotation::Minutely,
        ordered_year(scheme, a.year),
        ordered_year(scheme, b.year),
        not_later(a, b),
    ensures
        all_digits(slot_text(scheme, rotation, a)),
        all_digits(slot_text(scheme, rotation, b)),
        slot_text(scheme, rotation, a).len() == slot_text(scheme, rotation, b).len(),
        digits_value(slot_text(scheme, rotation, a)) <= digits_value(slot_text(scheme, rotation, b)),
        text_not_after(slot_text(scheme, rotation, a), slot_text(scheme, rotation, b)),
{
    lemma_year_part_value(scheme, a.year);
    lemma_year_part_value(scheme, b.year);
    let ya = match scheme {
        NamingScheme::Compact => two_digits((a.year as int % 100) as nat),
        NamingScheme::Dotted => year_digits(a.year as int),
    };
    let yb = match scheme {
        NamingScheme::Compact => two_digits((b.year as int % 100) as nat),
        NamingScheme::Dotted => year_digits(b.year as int),
    };
    lemma_value_append_two(ya, a.month as nat);
    lemma_value_append_two(yb, b.month as nat);
    let ma = ya + two_digits(a.month as nat);
    let mb = yb + two_digits(b.month as nat);
    lemma_value_append_two(ma, a.day as nat);
    lemma_value_append_two(mb, b.day as nat);
    let da = ma + two_digits(a.day as nat);
    let db = mb + two_digits(b.day as nat);
    lemma_value_append_two(da, a.hour as nat);
    lemma_value_append_two(db, b.hour as nat);
    let ha = da + two_digits(a.hour as nat);
    let hb = db + two_digits(b.hour as nat);
    lemma_value_append_two(ha, a.minute as nat);
    lemma_value_append_two(hb, b.minute as nat);
    lemma_two_digits_value(a.month as nat);
    lemma_two_digits_value(b.month as nat);
    lemma_two_digits_value(a.day as nat);
    lemma_two_digits_value(b.day as nat);
    lemma_two_digits_value(a.hour as nat);
    lemma_two_digits_value(b.hour as nat);
    lemma_two_digits_value(a.minute as nat);
    lemma_two_digits_value(b.minute as nat);
    lemma_lex_step(digits_value(ya) as int, a.month as int, digits_value(yb) as int, b.month as int);
    lemma_lex_step(digits_value(ma) as int, a.day as int, digits_value(mb) as int, b.day as int);
    lemma_lex_step(digits_value(da) as int, a.hour as int, digits_value(db) as int, b.hour as int);
    lemma_lex_step(digits_value(ha) as int, a.minute as int, digits_value(hb) as int, b.minute as int);
    lemma_value_order_is_text_order(slot_text(scheme, rotation, a), slot_text(scheme, rotation, b));
}

/// `dir` joined with `name` (see `join_path`).
pub fn join(dir: &str, name: &str) -> (p: String)
    ensures
        p@ == join_path(dir@, name@),
{
    let n = name.unicode_len();
    if n > 0 && name.get_char(0) == '/' {
        return owned(name);
    }
    let d = dir.unicode_len();
    let mut p = owned(dir);
    if d > 0 && dir.get_char(d - 1) != '/' {
        push_char(&mut p, '/');
    }
    push_str(&mut p, name);
    assert(p@ =~= join_path(dir@, name@));
    p
}

} // verus!
