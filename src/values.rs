//! Database values as the table layer sees them, and their rendering as text:
//! dates in ISO form, integers in decimal, everything else as it is.
use vstd::prelude::*;
use crate::text::{push_char, chars_of, contains, find, lemma_find_from};

verus! {

/// One value of a result row: what the driver hands over, less floating point.
#[derive(Clone, Debug, PartialEq, Eq)]
pub enum Cell {
    Null,
    Text(String),
    Int(i64),
    UInt(u64),
    Date { year: i32, month: u32, day: u32 },
}

/// How a column's values are rendered, from its SQL type.
#[derive(Clone, Copy, Debug, PartialEq, Eq, Structural)]
pub enum ColumnKind {
    Date,
    Integer,
    Text,
}

/// A value of a column could not be read as the column's type asks.
#[derive(Clone, Copy, Debug, PartialEq, Eq, Structural)]
pub enum CoerceError {
    /// The value does not have the shape of the column's type.
    WrongShape,
    /// There is no type for the value's position in the row.
    NoColumnType,
    /// The lookup found no row.
    MissingRow,
}

/// The kind of a column whose SQL type is `tag`: a type naming `date` renders as a
/// date, else one naming `int` as an integer, else as text.
pub open spec fn kind_of(tag: Seq<char>) -> ColumnKind {
    if contains(tag, "date"@) {
        ColumnKind::Date
    } else if contains(tag, "int"@) {
        ColumnKind::Integer
    } else {
        ColumnKind::Text
    }
}

/// The rendering kind of a column type.
pub fn column_kind(tag: &str) -> (r: ColumnKind)
    ensures
        r == kind_of(tag@),
{
    let t = chars_of(tag);
    let date = chars_of("date");
    let int_pat = chars_of("int");
    let d = find(&t, &date, 0);
    proof { lemma_find_from(t@, date@, 0); }
    if d.is_some() {
        return ColumnKind::Date;
    }
    let i = find(&t, &int_pat, 0);
    proof { lemma_find_from(t@, int_pat@, 0); }
    if i.is_some() {
        ColumnKind::Integer
    } else {
        ColumnKind::Text
    }
}

/// The earliest and latest years that chrono's dates cover.
pub const MIN_YEAR: i32 = -262143;
pub const MAX_YEAR: i32 = 262142;

/// Leap years of the proleptic Gregorian calendar.
pub open spec fn is_leap(y: int) -> bool {
    y % 4 == 0 && (y % 100 != 0 || y % 400 == 0)
}

/// The number of days of month `m` in year `y`.
pub open spec fn days_in_month(y: int, m: int) -> int {
    if m == 2 {
        if is_leap(y) { 29 } else { 28 }
    } else if m == 4 || m == 6 || m == 9 || m == 11 {
        30
    } else {
        31
    }
}

/// Whether year, month and day name a calendar date that chrono can hold.
pub open spec fn valid_date(y: int, m: int, d: int) -> bool {
    MIN_YEAR <= y <= MAX_YEAR && 1 <= m <= 12 && 1 <= d <= days_in_month(y, m)
}

/// The decimal digit character of `n` (for `0 <= n < 10`).
pub open spec fn digit(n: int) -> char {
    ((n + 48) as u8) as char
}

/// `n` in two decimal digits (for `0 <= n < 100`).
pub open spec fn two_digits(n: int) -> Seq<char> {
    seq![digit(n / 10), digit(n % 10)]
}

/// `n` in at least four decimal digits (for `n >= 0`).
pub open spec fn four_digits(n: int) -> Seq<char> {
    if n < 10000 {
        two_digits(n / 100) + two_digits(n % 100)
    } else {
        decimal(n)
    }
}

/// The year of an ISO date: four digits for the years 0 to 9999, otherwise a
/// sign and at least four digits.
pub open spec fn year_text(y: int) -> Seq<char> {
    if 0 <= y <= 9999 {
        four_digits(y)
    } else if y < 0 {
        seq!['-'] + four_digits(-y)
    } else {
        seq!['+'] + four_digits(y)
    }
}

/// A date in ISO form, `YYYY-MM-DD`.
pub open spec fn iso_date(y: int, m: int, d: int) -> Seq<char> {
    year_text(y) + seq!['-'] + two_digits(m) + seq!['-'] + two_digits(d)
}

/// Relies on `chrono::NaiveDate::from_ymd_opt`, which is `None` exactly for days
/// that do not exist or lie outside chrono's years, and on the date's `Display`,
/// which writes `YYYY-MM-DD`, with a sign and at least four digits for a year
/// outside 0 to 9999.
#[verifier::external_body]
pub(crate) fn date_text(year: i32, month: u32, day: u32) -> (r: Option<String>)
    ensures
        r is Some <==> valid_date(year as int, month as int, day as int),
        r matches Some(t) ==> t@ == iso_date(year as int, month as int, day as int),
{
    chrono::NaiveDate::from_ymd_opt(year, month, day).map(|d| d.to_string())
}

/// The decimal form of an integer: digits, after a minus sign when negative.
pub open spec fn decimal(n: int) -> Seq<char>
    decreases (if n < 0 { -n + 1 } else { n }),
{
    if n < 0 {
        seq!['-'] + decimal(-n)
    } else if n < 10 {
        seq![digit(n)]
    } else {
        decimal(n / 10) + seq![digit(n % 10)]
    }
}

/// The decimal form of an integer.
pub fn int_text(n: i64) -> (r: String)
    ensures
        r@ == decimal(n as int),
{
    let neg = n < 0;
    let mut m: u64 = if neg { (0 - (n as i128)) as u64 } else { n as u64 };
    let ghost magnitude: int = if neg { -(n as int) } else { n as int };
    // digits from the least significant on
    let mut rev: Vec<char> = Vec::new();
    let ghost mut low: Seq<char> = Seq::empty();
    while m >= 10
        invariant
            magnitude >= 0,
            decimal(magnitude) == decimal(m as int) + low,
            rev@.len() == low.len(),
            forall|i: int| 0 <= i < low.len() ==> #[trigger] low[i] == rev@[low.len() - 1 - i],
        decreases m,
    {
        let d = (m % 10) as u8;
        let c = (d + 48) as char;
        proof {
            assert(decimal(m as int) == decimal(m as int / 10) + seq![digit(m as int % 10)]);
            let next = seq![c] + low;
            assert(decimal(magnitude) =~= decimal(m as int / 10) + next);
            low = next;
        }
        rev.push(c);
        m = m / 10;
    }
    let last = ((m as u8) + 48) as char;
    let ghost digits = seq![last] + low;
    assert(decimal(m as int) == seq![digit(m as int)]);
    assert(decimal(magnitude) == digits);
    let mut out = String::new();
    if neg {
        push_char(&mut out, '-');
    }
    let ghost head = out@;
    push_char(&mut out, last);
    let mut j: usize = rev.len();
    while j > 0
        invariant
            j <= rev@.len(),
            rev@.len() == low.len(),
            digits == seq![last] + low,
            forall|i: int| 0 <= i < low.len() ==> #[trigger] low[i] == rev@[low.len() - 1 - i],
            out@ == head + digits.subrange(0, 1 + rev@.len() - j),
        decreases j,
    {
        j -= 1;
        push_char(&mut out, rev[j]);
        proof {
            let k = rev@.len() - 1 - j;
            assert(low[k as int] == rev@[j as int]);
            assert(digits.subrange(0, 1 + rev@.len() - j) =~= digits.subrange(0, 1 + k).push(rev@[j as int]));
        }
    }
    assert(digits.subrange(0, digits.len() as int) == digits);
    proof {
        if neg {
            assert(head == seq!['-']);
        } else {
            assert(head == Seq::<char>::empty());
        }
    }
    out
}

/// The text of a value in a column of kind `kind`, or why it has none. A date
/// column takes a calendar date, an integer column an integer that fits in 32
/// bits, any other column text.
pub open spec fn coerce_spec(kind: ColumnKind, cell: Cell) -> Option<Seq<char>> {
    match kind {
        ColumnKind::Date => match cell {
            Cell::Date { year, month, day } => if valid_date(year as int, month as int, day as int) {
                Some(iso_date(year as int, month as int, day as int))
            } else {
                None
            },
            _ => None,
        },
        ColumnKind::Integer => match cell {
            Cell::Int(n) => if i32::MIN <= n <= i32::MAX { Some(decimal(n as int)) } else { None },
            Cell::UInt(n) => if n <= i32::MAX { Some(decimal(n as int)) } else { None },
            _ => None,
        },
        ColumnKind::Text => match cell {
            Cell::Text(s) => Some(s@),
            _ => None,
        },
    }
}

/// The text of a value in a column of kind `kind`.
pub fn coerce(kind: ColumnKind, cell: &Cell) -> (r: Result<String, CoerceError>)
    ensures
        r matches Ok(t) ==> coerce_spec(kind, *cell) == Some(t@),
        r is Err ==> coerce_spec(kind, *cell) is None,
{
    match kind {
        ColumnKind::Date => match cell {
            Cell::Date { year, month, day } => match date_text(*year, *month, *day) {
                Some(t) => Ok(t),
                None => Err(CoerceError::WrongShape),
            },
            _ => Err(CoerceError::WrongShape),
        },
        ColumnKind::Integer => match cell {
            Cell::Int(n) => if i32::MIN as i64 <= *n && *n <= i32::MAX as i64 {
                Ok(int_text(*n))
            } else {
                Err(CoerceError::WrongShape)
            },
            Cell::UInt(n) => if *n <= i32::MAX as u64 {
                Ok(int_text(*n as i64))
            } else {
                Err(CoerceError::WrongShape)
            },
            _ => Err(CoerceError::WrongShape),
        },
        ColumnKind::Text => match cell {
            Cell::Text(s) => Ok(s.clone()),
            _ => Err(CoerceError::WrongShape),
        },
    }
}

/// Appends the text of a value to a row being rendered.
pub fn push_value(column_type: &str, value: &Cell, row: &mut Vec<String>) -> (r: Result<(), CoerceError>)
    ensures
        r is Ok <==> coerce_spec(kind_of(column_type@), *value) is Some,
        r is Ok ==> final(row)@.len() == old(row)@.len() + 1
            && final(row)@.drop_last() == old(row)@
            && Some(final(row)@.last()@) == coerce_spec(kind_of(column_type@), *value),
        r is Err ==> final(row)@ == old(row)@,
{
    let kind = column_kind(column_type);
    match coerce(kind, value) {
        Ok(t) => {
            row.push(t);
            Ok(())
        },
        Err(e) => Err(e),
    }
}

/// The texts of a row whose columns have the SQL types `types`, in order, or
/// `None` when a value does not fit its column or has no column type.
pub open spec fn render_row_spec(types: Seq<Seq<char>>, row: Seq<Cell>) -> Option<Seq<Seq<char>>>
    decreases row.len(),
{
    if row.len() == 0 {
        Some(Seq::empty())
    } else if types.len() < row.len() {
        None
    } else {
        match render_row_spec(types, row.drop_last()) {
            None => None,
            Some(init) => match coerce_spec(kind_of(types[row.len() - 1]), row.last()) {
                None => None,
                Some(t) => Some(init.push(t)),
            },
        }
    }
}

/// Renders each value of a row by the type of its column, matched by position.
pub fn render_row(types: &Vec<String>, row: &Vec<Cell>) -> (r: Result<Vec<String>, CoerceError>)
    ensures
        r is Ok <==> render_row_spec(types@.map_values(|t: String| t@), row@) is Some,
        r matches Ok(v) ==> render_row_spec(types@.map_values(|t: String| t@), row@)
            == Some(v@.map_values(|t: String| t@)),
{
    let ghost tv = types@.map_values(|t: String| t@);
    if types.len() < row.len() {
        proof {
            lemma_short_types(tv, row@);
        }
        return Err(CoerceError::NoColumnType);
    }
    let mut out: Vec<String> = Vec::new();
    let mut i: usize = 0;
    while i < row.len()
        invariant
            i <= row@.len() <= types@.len(),
            tv == types@.map_values(|t: String| t@),
            render_row_spec(tv, row@.subrange(0, i as int)) == Some(out@.map_values(|t: String| t@)),
        decreases row@.len() - i,
    {
        let ghost before = out@;
        let ghost prefix = row@.subrange(0, i + 1);
        assert(prefix.drop_last() == row@.subrange(0, i as int));
        match push_value(types[i].as_str(), &row[i], &mut out) {
            Ok(()) => {
                assert(out@.map_values(|t: String| t@) == before.map_values(|t: String| t@).push(out@.last()@));
            },
            Err(e) => {
                proof {
                    lemma_render_prefix_fails(tv, row@, i as int + 1);
                }
                return Err(e);
            },
        }
        i += 1;
    }
    assert(row@.subrange(0, row@.len() as int) == row@);
    Ok(out)
}

proof fn lemma_short_types(types: Seq<Seq<char>>, row: Seq<Cell>)
    requires
        types.len() < row.len(),
    ensures
        render_row_spec(types, row) is None,
{
}

/// Once a prefix of the row fails to render, the whole row does.
proof fn lemma_render_prefix_fails(types: Seq<Seq<char>>, row: Seq<Cell>, n: int)
    requires
        0 < n <= row.len() <= types.len(),
        render_row_spec(types, row.subrange(0, n)) is None,
    ensures
        render_row_spec(types, row) is None,
    decreases row.len() - n,
{
    if n < row.len() {
        let next = row.subrange(0, n + 1);
        assert(next.drop_last() == row.subrange(0, n));
        lemma_render_prefix_fails(types, row, n + 1);
    } else {
        assert(row.subrange(0, n) == row);
    }
}

} // verus!
