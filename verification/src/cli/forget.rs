//! `soma forget`: which episodes are to be forgotten.
//!
//! Forgotten episodes stay in the store, stamped and with a reason, so that references to
//! them hold; recall passes over them.
use crate::number::{decimal_int, law_signed_decimal_reads_back, parse_i64, parsed_integer};
use crate::outcome::outcome;
use crate::path::{join, joined_path};
use crate::storage::StorageError;
use crate::text::{cat2, cat3, of_chars};
use vstd::prelude::*;
use vstd::string::*;
use vstd::utf8::{encode_utf8, is_ascii_chars, is_ascii_chars_encode_utf8};

verus! {

/// The flags of one `soma forget` call.
#[derive(Debug)]
pub struct ForgetArgs {
    pub episode: Option<i64>,
    pub project: Option<String>,
    pub before: Option<String>,
    pub reason: Option<String>,
}

/// Where the episodes are kept.
#[derive(Debug)]
pub struct ForgetContext {
    pub db_path: String,
}

/// Why the command failed.
#[derive(Debug)]
pub enum ForgetError {
    Path(String),
    Storage(StorageError),
    BadInput(String),
}

/// What a `ForgetError` holds.
pub enum ForgetFault {
    Path(Seq<char>),
    Storage(Seq<char>),
    BadInput(Seq<char>),
}

impl DeepView for ForgetError {
    type V = ForgetFault;

    open spec fn deep_view(&self) -> ForgetFault {
        match self {
            ForgetError::Path(m) => ForgetFault::Path(m@),
            ForgetError::Storage(e) => ForgetFault::Storage(e.message@),
            ForgetError::BadInput(m) => ForgetFault::BadInput(m@),
        }
    }
}

impl ForgetError {
    /// The message of the error.
    pub fn message(&self) -> (r: String)
        ensures
            r@ == match self.deep_view() {
                ForgetFault::Path(m) => "path: "@ + m,
                ForgetFault::Storage(m) => "storage: "@ + m,
                ForgetFault::BadInput(m) => "bad input: "@ + m,
            },
    {
        match self {
            ForgetError::Path(m) => cat2("path: ", m.as_str()),
            ForgetError::Storage(e) => cat2("storage: ", e.message.as_str()),
            ForgetError::BadInput(m) => cat2("bad input: ", m.as_str()),
        }
    }
}

impl From<StorageError> for ForgetError {
    fn from(value: StorageError) -> (r: Self) {
        ForgetError::Storage(value)
    }
}

impl vstd::std_specs::convert::FromSpecImpl<StorageError> for ForgetError {
    open spec fn obeys_from_spec() -> bool {
        true
    }

    open spec fn from_spec(value: StorageError) -> Self {
        ForgetError::Storage(value)
    }
}

/// How many episodes were forgotten.
#[derive(Debug, Clone, Copy)]
pub struct ForgetOutcome {
    pub forgotten_count: u64,
}

/// The exit code of an error: bad input, store and paths each have their own.
pub fn exit_code_for(e: &ForgetError) -> (r: i32)
    ensures
        r == match e.deep_view() {
            ForgetFault::BadInput(_) => 1i32,
            ForgetFault::Storage(_) => 2i32,
            ForgetFault::Path(_) => 3i32,
        },
{
    match e {
        ForgetError::BadInput(_) => 1,
        ForgetError::Storage(_) => 2,
        ForgetError::Path(_) => 3,
    }
}

// ---------------------------------------------------------------------------
// Times
// ---------------------------------------------------------------------------

/// Days from the first of January 1970 to a day, in the Gregorian calendar continued
/// both ways. Years are counted from March on, so that the leap day comes last: `a`
/// years bring `365 * a` days and one more for each leap year among them, `k` months from
/// March on bring `(153 * k + 2) / 5`.
pub open spec fn days_from_epoch(year: int, month: int, day: int) -> int {
    let a = if month <= 2 {
        year - 1
    } else {
        year
    };
    let k = if month > 2 {
        month - 3
    } else {
        month + 9
    };
    365 * a + a / 4 - a / 100 + a / 400 + (153 * k + 2) / 5 + day - 1 - 719468
}

/// A leap year.
pub open spec fn is_leap(year: int) -> bool {
    year % 4 == 0 && (year % 100 != 0 || year % 400 == 0)
}

/// The number of days in a month.
pub open spec fn month_len(year: int, month: int) -> int {
    if month == 2 {
        if is_leap(year) {
            29
        } else {
            28
        }
    } else if month == 4 || month == 6 || month == 9 || month == 11 {
        30
    } else {
        31
    }
}

/// The day after.
pub open spec fn next_day(year: int, month: int, day: int) -> (int, int, int) {
    if day < month_len(year, month) {
        (year, month, day + 1)
    } else if month < 12 {
        (year, month + 1, 1)
    } else {
        (year + 1, 1, 1)
    }
}

proof fn lemma_year(a: int)
    ensures
        (a + 1) / 4 == a / 4 + (if (a + 1) % 4 == 0 {
            1int
        } else {
            0
        }),
        (a + 1) / 100 == a / 100 + (if (a + 1) % 100 == 0 {
            1int
        } else {
            0
        }),
        (a + 1) / 400 == a / 400 + (if (a + 1) % 400 == 0 {
            1int
        } else {
            0
        }),
        (a + 1) % 400 == 0 ==> (a + 1) % 100 == 0,
        (a + 1) % 100 == 0 ==> (a + 1) % 4 == 0,
{
}

/// The count of days begins at 1970-01-01, and goes up by one from each day of the
/// calendar to the next.
pub proof fn law_days_follow_the_calendar(year: int, month: int, day: int)
    requires
        1 <= month <= 12,
        1 <= day <= month_len(year, month),
    ensures
        days_from_epoch(1970, 1, 1) == 0,
        ({
            let (y, m, d) = next_day(year, month, day);
            days_from_epoch(y, m, d) == days_from_epoch(year, month, day) + 1
        }),
{
    lemma_year(year - 1);
    if day == month_len(year, month) {
        assert(month == 1 || month == 2 || month == 3 || month == 4 || month == 5 || month == 6
            || month == 7 || month == 8 || month == 9 || month == 10 || month == 11 || month
            == 12);
    }
}

/// The bytes of a field, as characters.
pub open spec fn field(b: Seq<u8>, from: int, to: int) -> Seq<char> {
    b.subrange(from, to).map_values(|x: u8| x as char)
}

/// The number in a field.
pub open spec fn field_value(b: Seq<u8>, from: int, to: int) -> Option<int> {
    parsed_integer(field(b, from, to), i64::MIN as int, i64::MAX as int)
}

/// The bytes stand as in `YYYY-MM-DDThh:mm:ssZ`.
pub open spec fn has_form(b: Seq<u8>) -> bool {
    b.len() == 20 && b[4] == 45 && b[7] == 45 && b[10] == 84 && b[13] == 58 && b[16] == 58 && b[19]
        == 90
}

/// Seconds from the epoch to a time of day.
pub open spec fn seconds_of(
    year: int,
    month: int,
    day: int,
    hour: int,
    minute: int,
    second: int,
) -> int {
    days_from_epoch(year, month, day) * 86400 + hour * 3600 + minute * 60 + second
}

/// The seconds that a text in the long form stands for, or the message of what is wrong
/// with it.
pub open spec fn form_seconds(b: Seq<u8>) -> Result<int, Seq<char>> {
    if field_value(b, 0, 4) is None {
        Err("--before year parse fail"@)
    } else if field_value(b, 5, 7) is None {
        Err("--before month parse fail"@)
    } else if field_value(b, 8, 10) is None {
        Err("--before day parse fail"@)
    } else if field_value(b, 11, 13) is None {
        Err("--before hour parse fail"@)
    } else if field_value(b, 14, 16) is None {
        Err("--before minute parse fail"@)
    } else if field_value(b, 17, 19) is None {
        Err("--before second parse fail"@)
    } else {
        Ok(
            seconds_of(
                field_value(b, 0, 4)->0,
                field_value(b, 5, 7)->0,
                field_value(b, 8, 10)->0,
                field_value(b, 11, 13)->0,
                field_value(b, 14, 16)->0,
                field_value(b, 17, 19)->0,
            ),
        )
    }
}

pub const BEFORE_FORMS: &'static str =
    "--before: expected unix-ns integer or `YYYY-MM-DDThh:mm:ssZ`, got `";

/// The nanoseconds from the epoch that a text stands for: a number, or a time in the
/// long form.
pub open spec fn time_of(s: Seq<char>) -> Result<int, ForgetFault> {
    match parsed_integer(s, i64::MIN as int, i64::MAX as int) {
        Some(n) => Ok(n),
        None => if !has_form(encode_utf8(s)) {
            Err(ForgetFault::BadInput(BEFORE_FORMS@ + s + "`"@))
        } else {
            match form_seconds(encode_utf8(s)) {
                Ok(secs) => Ok(secs * 1_000_000_000),
                Err(m) => Err(ForgetFault::BadInput(m)),
            }
        },
    }
}

/// The time that a text stands for, if it stands for one, can be told in nanoseconds: it
/// lies between the years 1677 and 2262.
pub open spec fn time_fits(s: Seq<char>) -> bool {
    time_of(s) matches Ok(t) ==> i64::MIN <= t <= i64::MAX
}

proof fn lemma_small_field(s: Seq<char>)
    requires
        s.len() <= 4,
        parsed_integer(s, i64::MIN as int, i64::MAX as int) is Some,
    ensures
        -999 <= parsed_integer(s, i64::MIN as int, i64::MAX as int)->0 <= 9999,
        s.len() <= 2 ==> -9 <= parsed_integer(s, i64::MIN as int, i64::MAX as int)->0 <= 99,
{
    reveal_with_fuel(crate::number::digits_value, 5);
}

fn parse_field(b: &[u8], from: usize, to: usize) -> (r: Option<i64>)
    requires
        from <= to <= b@.len(),
        to - from <= 4,
    ensures
        match r {
            Some(i) => field_value(b@, from as int, to as int) == Some(i as int) && -999 <= i
                <= 9999 && (to - from <= 2 ==> -9 <= i <= 99),
            None => field_value(b@, from as int, to as int) is None,
        },
{
    let mut cs: Vec<char> = Vec::new();
    let mut i: usize = from;
    while i < to
        invariant
            from <= i <= to <= b@.len(),
            cs@ =~= field(b@, from as int, to as int).take(i - from),
        decreases to - i,
    {
        cs.push(b[i] as char);
        i = i + 1;
    }
    assert(cs@ =~= field(b@, from as int, to as int));
    let text = of_chars(&cs);
    let r = parse_i64(text.as_str());
    proof {
        if r is Some {
            lemma_small_field(text@);
        }
    }
    r
}

fn bad<T>(message: &str) -> (r: Result<T, ForgetError>)
    ensures
        r matches Err(e) && e.deep_view() == ForgetFault::BadInput(message@),
{
    Err(ForgetError::BadInput(message.to_string()))
}

/// The seconds that a text in the long form stands for.
fn parse_form(b: &[u8]) -> (r: Result<i64, ForgetError>)
    requires
        b@.len() == 20,
    ensures
        match r {
            Ok(secs) => form_seconds(b@) == Ok::<int, Seq<char>>(secs as int),
            Err(e) => form_seconds(b@) matches Err(m) && e.deep_view() == ForgetFault::BadInput(m),
        },
{
    let year: i64 = match parse_field(b, 0, 4) {
        Some(v) => v,
        None => return bad("--before year parse fail"),
    };
    let month: i64 = match parse_field(b, 5, 7) {
        Some(v) => v,
        None => return bad("--before month parse fail"),
    };
    let day: i64 = match parse_field(b, 8, 10) {
        Some(v) => v,
        None => return bad("--before day parse fail"),
    };
    let hour: i64 = match parse_field(b, 11, 13) {
        Some(v) => v,
        None => return bad("--before hour parse fail"),
    };
    let minute: i64 = match parse_field(b, 14, 16) {
        Some(v) => v,
        None => return bad("--before minute parse fail"),
    };
    let second: i64 = match parse_field(b, 17, 19) {
        Some(v) => v,
        None => return bad("--before second parse fail"),
    };
    let y: i64 = if month <= 2 { year - 1 } else { year };
    // Rust divides towards zero: a negative year is moved down first.
    let era: i64 = if y >= 0 { y / 400 } else { -((399 - y) / 400) };
    let yoe: i64 = y - era * 400;
    assert(0 <= yoe < 400 && era == (y as int) / 400);
    let m_adj: i64 = if month > 2 { month - 3 } else { month + 9 };
    let doy: i64 = (153 * m_adj + 2) / 5 + day - 1;
    let doe: i64 = yoe * 365 + yoe / 4 - yoe / 100 + doy;
    let days: i64 = era * 146097 + doe - 719468;
    assert(days == days_from_epoch(year as int, month as int, day as int)) by {
        let a = y as int;
        let e = era as int;
        let r = yoe as int;
        assert(a == 400 * e + r);
        assert(a / 4 == 100 * e + r / 4);
        assert(a / 100 == 4 * e + r / 100);
        assert(a / 400 == e);
    }
    Ok(days * 86400 + hour * 3600 + minute * 60 + second)
}

/// Whether the time that a text stands for can be told in nanoseconds.
pub fn ts_fits(s: &str) -> (r: bool)
    ensures
        r == time_fits(s@),
{
    if parse_i64(s).is_some() {
        return true;
    }
    let b = s.as_bytes();
    if !formed(b) {
        return true;
    }
    match parse_form(b) {
        Ok(secs) => {
            let ns: i128 = (secs as i128) * 1_000_000_000;
            i64::MIN as i128 <= ns && ns <= i64::MAX as i128
        },
        Err(_) => true,
    }
}

fn formed(b: &[u8]) -> (r: bool)
    ensures
        r == has_form(b@),
{
    b.len() == 20 && b[4] == 45 && b[7] == 45 && b[10] == 84 && b[13] == 58 && b[16] == 58 && b[19]
        == 90
}

/// The nanoseconds from the epoch that a text stands for: a number, or a time in the
/// form `YYYY-MM-DDThh:mm:ssZ`.
pub fn parse_ts_to_ns(s: &str) -> (r: Result<i64, ForgetError>)
    requires
        time_fits(s@),
    ensures
        match r {
            Ok(t) => time_of(s@) == Ok::<int, ForgetFault>(t as int),
            Err(e) => time_of(s@) == Err::<int, ForgetFault>(e.deep_view()),
        },
{
    match parse_i64(s) {
        Some(n) => return Ok(n),
        None => {},
    }
    let b = s.as_bytes();
    if !formed(b) {
        return Err(ForgetError::BadInput(cat3(BEFORE_FORMS, s, "`")));
    }
    match parse_form(b) {
        Ok(secs) => Ok(secs * 1_000_000_000),
        Err(e) => Err(e),
    }
}

// ---------------------------------------------------------------------------
// The command
// ---------------------------------------------------------------------------

/// Which episodes are to be forgotten.
#[derive(Debug)]
pub enum ForgetTarget {
    Episode(i64),
    Project(String),
    Before(i64),
}

/// What a `ForgetTarget` holds.
pub enum TargetView {
    Episode(i64),
    Project(Seq<char>),
    Before(int),
}

impl DeepView for ForgetTarget {
    type V = TargetView;

    open spec fn deep_view(&self) -> TargetView {
        match self {
            ForgetTarget::Episode(id) => TargetView::Episode(*id),
            ForgetTarget::Project(p) => TargetView::Project(p@),
            ForgetTarget::Before(t) => TargetView::Before(*t as int),
        }
    }
}

/// Which episodes are to be forgotten, and the reason that is stored with them.
#[derive(Debug)]
pub struct ForgetPlan {
    pub target: ForgetTarget,
    pub reason: String,
}

pub const ONE_TARGET: &'static str = "exactly one of --episode / --project / --before is required";

/// What the flags ask to be forgotten: exactly one of them must say it.
pub open spec fn forget_target(
    episode: Option<i64>,
    project: Option<Seq<char>>,
    before: Option<Seq<char>>,
) -> Result<TargetView, ForgetFault> {
    match (episode, project, before) {
        (Some(id), None, None) => Ok(TargetView::Episode(id)),
        (None, Some(p), None) => Ok(TargetView::Project(p)),
        (None, None, Some(s)) => match time_of(s) {
            Ok(t) => Ok(TargetView::Before(t)),
            Err(f) => Err(f),
        },
        _ => Err(ForgetFault::BadInput(ONE_TARGET@)),
    }
}

/// What is to be forgotten, once the store is open. `forget_outcome` tells what came of
/// it.
pub fn run_forget(args: &ForgetArgs, opened: Result<(), StorageError>) -> (r: Result<
    ForgetPlan,
    ForgetError,
>)
    requires
        args.before matches Some(s) ==> time_fits(s@),
    ensures
        match opened {
            Err(e) => r matches Err(x) && x.deep_view() == ForgetFault::Storage(e.message@),
            Ok(_) => match forget_target(
                args.episode,
                args.project.deep_view(),
                args.before.deep_view(),
            ) {
                Err(f) => r matches Err(x) && x.deep_view() == f,
                Ok(t) => r matches Ok(p) && p.target.deep_view() == t && p.reason@ == (
                match args.reason.deep_view() {
                    Some(s) => s,
                    None => "user-request"@,
                }),
            },
        },
{
    match opened {
        Err(e) => return Err(ForgetError::Storage(e)),
        Ok(_) => {},
    }
    let reason = match &args.reason {
        Some(s) => s.clone(),
        None => "user-request".to_string(),
    };
    let target = match (&args.episode, &args.project, &args.before) {
        (Some(id), None, None) => ForgetTarget::Episode(*id),
        (None, Some(p), None) => ForgetTarget::Project(p.clone()),
        (None, None, Some(s)) => match parse_ts_to_ns(s.as_str()) {
            Ok(t) => ForgetTarget::Before(t),
            Err(e) => return Err(e),
        },
        _ => return bad(ONE_TARGET),
    };
    Ok(ForgetPlan { target, reason })
}

/// What the store did: whether one episode was there to be forgotten, or how many were.
#[derive(Debug, Clone, Copy)]
pub enum Forgotten {
    One(bool),
    Many(u64),
}

/// How many episodes were forgotten.
pub fn forget_outcome(done: Result<Forgotten, StorageError>) -> (r: Result<
    ForgetOutcome,
    ForgetError,
>)
    ensures
        match done {
            Ok(Forgotten::One(b)) => r matches Ok(o) && o.forgotten_count == (if b {
                1
            } else {
                0int
            }),
            Ok(Forgotten::Many(n)) => r matches Ok(o) && o.forgotten_count == n,
            Err(e) => r matches Err(x) && x.deep_view() == ForgetFault::Storage(e.message@),
        },
{
    match done {
        Ok(Forgotten::One(b)) => Ok(ForgetOutcome { forgotten_count: if b { 1 } else { 0 } }),
        Ok(Forgotten::Many(n)) => Ok(ForgetOutcome { forgotten_count: n }),
        Err(e) => Err(ForgetError::Storage(e)),
    }
}

/// Where the store is: as chosen, else as the variable `SOMA_DB` says, else below the
/// home directory.
pub open spec fn store_place(
    cli: Option<Seq<char>>,
    env: Option<Seq<char>>,
    home: Option<Seq<char>>,
) -> Result<Seq<char>, ForgetFault> {
    if cli is Some {
        Ok(cli->0)
    } else if env is Some && env->0.len() > 0 {
        Ok(env->0)
    } else {
        match home {
            Some(h) => Ok(joined_path(joined_path(h, ".soma"@), "soma.db"@)),
            None => Err(ForgetFault::Path("home dir not resolvable"@)),
        }
    }
}

pub fn resolve_db_path(
    cli_override: Option<&str>,
    env: Option<&str>,
    home: Option<&str>,
) -> (r: Result<String, ForgetError>)
    ensures
        outcome(r) == store_place(cli_override.deep_view(), env.deep_view(), home.deep_view()),
{
    if let Some(p) = cli_override {
        return Ok(p.to_string());
    }
    if let Some(e) = env {
        if !e.is_empty() {
            return Ok(e.to_string());
        }
    }
    match home {
        Some(h) => Ok(join(join(h, ".soma").as_str(), "soma.db")),
        None => Err(ForgetError::Path("home dir not resolvable".to_string())),
    }
}

// ---------------------------------------------------------------------------
// Laws
// ---------------------------------------------------------------------------

/// Days from the epoch to the first day of a year, counted year by year: 365 for each, and
/// one more where the year is divisible by 4 and not by 100, or by 400.
pub open spec fn days_to_year(year: int) -> int
    decreases
            if year >= 1970 {
                year - 1970
            } else {
                1970 - year
            },
{
    if year == 1970 {
        0
    } else if year > 1970 {
        days_to_year(year - 1) + if (year - 1) % 4 == 0 && ((year - 1) % 100 != 0 || (year - 1) % 400
            == 0) {
            366int
        } else {
            365
        }
    } else {
        days_to_year(year + 1) - if year % 4 == 0 && (year % 100 != 0 || year % 400 == 0) {
            366int
        } else {
            365
        }
    }
}

proof fn lemma_year_start(year: int)
    ensures
        days_from_epoch(year, 1, 1) == days_to_year(year),
    decreases
            if year >= 1970 {
                year - 1970
            } else {
                1970 - year
            },
{
    if year > 1970 {
        lemma_year_start(year - 1);
        lemma_year(year - 2);
    } else if year < 1970 {
        lemma_year_start(year + 1);
        lemma_year(year - 1);
    }
}

proof fn lemma_two_digits(b: Seq<u8>, from: int)
    requires
        0 <= from,
        from + 2 <= b.len(),
        48 <= b[from] <= 57,
        48 <= b[from + 1] <= 57,
    ensures
        field_value(b, from, from + 2) == Some(10 * (b[from] - 48) + (b[from + 1] - 48)),
{
    let f = field(b, from, from + 2);
    assert(f.len() == 2);
    assert(f[0] as u32 == b[from] as u32 && f[1] as u32 == b[from + 1] as u32);
    assert(f[0] != '+' && f[0] != '-');
    assert(crate::number::all_digits(f));
    reveal_with_fuel(crate::number::digits_value, 3);
    assert(f.drop_last().drop_last() =~= Seq::empty());
    assert(f.drop_last().last() == f[0]);
}

proof fn lemma_four_digits(b: Seq<u8>)
    requires
        4 <= b.len(),
        48 <= b[0] <= 57,
        48 <= b[1] <= 57,
        48 <= b[2] <= 57,
        48 <= b[3] <= 57,
    ensures
        field_value(b, 0, 4) == Some(
            1000 * (b[0] - 48) + 100 * (b[1] - 48) + 10 * (b[2] - 48) + (b[3] - 48),
        ),
{
    let f = field(b, 0, 4);
    assert(f.len() == 4);
    assert(f[0] as u32 == b[0] as u32 && f[1] as u32 == b[1] as u32 && f[2] as u32 == b[2] as u32
        && f[3] as u32 == b[3] as u32);
    assert(f[0] != '+' && f[0] != '-');
    assert(crate::number::all_digits(f));
    reveal_with_fuel(crate::number::digits_value, 5);
    assert(f.drop_last().drop_last().drop_last().drop_last() =~= Seq::empty());
    assert(f.drop_last().last() == f[2]);
    assert(f.drop_last().drop_last().last() == f[1]);
    assert(f.drop_last().drop_last().drop_last().last() == f[0]);
}

/// A text in the form `YYYY-MM-DDThh:mm:ssZ`.
pub open spec fn is_stamp(t: Seq<char>) -> bool {
    &&& t.len() == 20
    &&& t[4] == '-' && t[7] == '-' && t[10] == 'T' && t[13] == ':' && t[16] == ':' && t[19] == 'Z'
    &&& forall|i: int|
        0 <= i < 20 && i != 4 && i != 7 && i != 10 && i != 13 && i != 16 && i != 19 ==> '0' <= (
        #[trigger] t[i]) && t[i] <= '9'
}

/// The number that the two digits at a place make.
pub open spec fn two_digits(t: Seq<char>, i: int) -> int {
    10 * (t[i] as int - '0' as int) + (t[i + 1] as int - '0' as int)
}

proof fn lemma_stamp(t: Seq<char>)
    requires
        is_stamp(t),
    ensures
        ({
            let b = encode_utf8(t);
            let year = 100 * two_digits(t, 0) + two_digits(t, 2);
            &&& has_form(b)
            &&& parsed_integer(t, i64::MIN as int, i64::MAX as int) is None
            &&& form_seconds(b) == Ok::<int, Seq<char>>(
                seconds_of(
                    year,
                    two_digits(t, 5),
                    two_digits(t, 8),
                    two_digits(t, 11),
                    two_digits(t, 14),
                    two_digits(t, 17),
                ),
            )
        }),
{
    assert(is_ascii_chars(t)) by {
        assert forall|i: int| 0 <= i < t.len() implies '\0' <= (#[trigger] t[i]) && t[i]
            <= '\u{7f}' by {}
    }
    is_ascii_chars_encode_utf8(t);
    let b = encode_utf8(t);
    assert(b.len() == 20);
    assert(b[4] == t[4] as u8 && b[7] == t[7] as u8 && b[10] == t[10] as u8 && b[13] == t[13] as u8
        && b[16] == t[16] as u8 && b[19] == t[19] as u8);
    crate::number::law_numerals_hold_digits_only(t, 4, i64::MIN as int, i64::MAX as int);
    assert(b[0] == t[0] as u8 && b[1] == t[1] as u8 && b[2] == t[2] as u8 && b[3] == t[3] as u8);
    assert(b[5] == t[5] as u8 && b[6] == t[6] as u8 && b[8] == t[8] as u8 && b[9] == t[9] as u8);
    assert(b[11] == t[11] as u8 && b[12] == t[12] as u8 && b[14] == t[14] as u8 && b[15]
        == t[15] as u8);
    assert(b[17] == t[17] as u8 && b[18] == t[18] as u8);
    lemma_four_digits(b);
    lemma_two_digits(b, 5);
    lemma_two_digits(b, 8);
    lemma_two_digits(b, 11);
    lemma_two_digits(b, 14);
    lemma_two_digits(b, 17);
}

/// Days from the first day of a year to the first day of a month: January has 31, February
/// 28 or 29 in a leap year, March 31, and so on.
pub open spec fn days_to_month(year: int, month: int) -> int {
    let leap = if year % 4 == 0 && (year % 100 != 0 || year % 400 == 0) {
        1int
    } else {
        0
    };
    if month == 1 {
        0
    } else if month == 2 {
        31
    } else if month == 3 {
        59 + leap
    } else if month == 4 {
        90 + leap
    } else if month == 5 {
        120 + leap
    } else if month == 6 {
        151 + leap
    } else if month == 7 {
        181 + leap
    } else if month == 8 {
        212 + leap
    } else if month == 9 {
        243 + leap
    } else if month == 10 {
        273 + leap
    } else if month == 11 {
        304 + leap
    } else {
        334 + leap
    }
}

/// Days are counted as the calendar has them: the days of the years before, the days of the
/// months before, and the days before in the month.
pub proof fn law_days_are_counted_by_years_and_months(year: int, month: int, day: int)
    requires
        1 <= month <= 12,
    ensures
        days_from_epoch(year, month, day) == days_to_year(year) + days_to_month(year, month) + day
            - 1,
{
    lemma_year_start(year);
    lemma_year(year - 1);
}

/// A time in the form `YYYY-MM-DDThh:mm:ssZ` stands for its nanoseconds from the epoch:
/// 1_000_000_000 for each second, 60 seconds for each minute, 3600 for each hour, 86400 for
/// each day of the calendar. With `--before` alone, that very number is the limit.
pub proof fn law_before_takes_the_time_of_a_stamp(t: Seq<char>)
    requires
        is_stamp(t),
        1 <= two_digits(t, 5) <= 12,
    ensures
        ({
            let year = 100 * two_digits(t, 0) + two_digits(t, 2);
            let month = two_digits(t, 5);
            let days = days_to_year(year) + days_to_month(year, month) + two_digits(t, 8) - 1;
            let seconds = 86_400 * days + 3600 * two_digits(t, 11) + 60 * two_digits(t, 14)
                + two_digits(t, 17);
            &&& time_of(t) == Ok::<int, ForgetFault>(1_000_000_000 * seconds)
            &&& forget_target(None, None, Some(t)) == Ok::<TargetView, ForgetFault>(
                TargetView::Before(1_000_000_000 * seconds),
            )
        }),
{
    lemma_stamp(t);
    law_days_are_counted_by_years_and_months(
        100 * two_digits(t, 0) + two_digits(t, 2),
        two_digits(t, 5),
        two_digits(t, 8),
    );
}

/// A number stands for itself. With `--before` alone, it is the limit.
pub proof fn law_before_takes_a_number_as_it_is(n: int)
    requires
        i64::MIN <= n <= i64::MAX,
    ensures
        time_of(decimal_int(n)) == Ok::<int, ForgetFault>(n),
        forget_target(None, None, Some(decimal_int(n))) == Ok::<TargetView, ForgetFault>(
            TargetView::Before(n),
        ),
{
    law_signed_decimal_reads_back(n, i64::MIN as int, i64::MAX as int);
}

/// Of two times in the long form the later one gives the larger limit: 1_000_000_000 larger
/// for each second between them, on the same day or from one day to the next.
pub proof fn law_later_times_give_larger_limits(t: Seq<char>, u: Seq<char>)
    requires
        is_stamp(t),
        is_stamp(u),
        1 <= two_digits(t, 5) <= 12,
        1 <= two_digits(t, 8) <= month_len(
            100 * two_digits(t, 0) + two_digits(t, 2),
            two_digits(t, 5),
        ),
    ensures
        ({
            let day = (
                100 * two_digits(t, 0) + two_digits(t, 2),
                two_digits(t, 5),
                two_digits(t, 8),
            );
            let other = (
                100 * two_digits(u, 0) + two_digits(u, 2),
                two_digits(u, 5),
                two_digits(u, 8),
            );
            let apart = 3600 * (two_digits(u, 11) - two_digits(t, 11)) + 60 * (two_digits(u, 14)
                - two_digits(t, 14)) + (two_digits(u, 17) - two_digits(t, 17));
            let a = forget_target(None, None, Some(t))->Ok_0->Before_0;
            let b = forget_target(None, None, Some(u))->Ok_0->Before_0;
            &&& other == day ==> b - a == 1_000_000_000 * apart
            &&& other == next_day(day.0, day.1, day.2) ==> b - a == 1_000_000_000 * (86_400 + apart)
        }),
{
    lemma_stamp(t);
    lemma_stamp(u);
    law_days_follow_the_calendar(
        100 * two_digits(t, 0) + two_digits(t, 2),
        two_digits(t, 5),
        two_digits(t, 8),
    );
}

/// A text that is neither a number nor in the long form is refused, and so is every call
/// that does not name exactly one target.
pub proof fn law_one_target_is_forgotten(
    episode: Option<i64>,
    project: Option<Seq<char>>,
    before: Option<Seq<char>>,
)
    ensures
        match forget_target(episode, project, before) {
            Ok(TargetView::Episode(id)) => episode == Some(id) && project is None && before is None,
            Ok(TargetView::Project(p)) => episode is None && project == Some(p) && before is None,
            Ok(TargetView::Before(t)) => episode is None && project is None && before is Some
                && time_of(before->0) == Ok::<int, ForgetFault>(t),
            Err(f) => f is BadInput,
        },
        episode is Some && project is None && before is None ==> forget_target(
            episode,
            project,
            before,
        ) == Ok::<TargetView, ForgetFault>(TargetView::Episode(episode->0)),
        episode is None && project is Some && before is None ==> forget_target(
            episode,
            project,
            before,
        ) == Ok::<TargetView, ForgetFault>(TargetView::Project(project->0)),
        (episode is Some && project is Some) || (episode is Some && before is Some) || (project
            is Some && before is Some) || (episode is None && project is None && before is None)
            ==> forget_target(episode, project, before) is Err,
        before is Some && encode_utf8(before->0).len() != 20 && parsed_integer(
            before->0,
            i64::MIN as int,
            i64::MAX as int,
        ) is None ==> time_of(before->0) is Err,
{
}

/// The store is where the flag says; without a flag where the variable says, unless it is
/// empty; else at `.soma/soma.db` in the home directory, and nowhere without one.
pub proof fn law_chosen_store_comes_first(
    cli: Option<Seq<char>>,
    env: Option<Seq<char>>,
    home: Option<Seq<char>>,
)
    ensures
        cli is Some ==> store_place(cli, env, home) == Ok::<Seq<char>, ForgetFault>(cli->0),
        cli is None && env is Some && env->0.len() > 0 ==> store_place(cli, env, home) == Ok::<
            Seq<char>,
            ForgetFault,
        >(env->0),
        cli is None && (env is None || env->0.len() == 0) && home is Some ==> store_place(
            cli,
            env,
            home,
        ) == Ok::<Seq<char>, ForgetFault>(
            joined_path(joined_path(home->0, ".soma"@), "soma.db"@),
        ),
        cli is None && (env is None || env->0.len() == 0) && home is None ==> store_place(
            cli,
            env,
            home,
        ) is Err,
{
}

}
