use vstd::prelude::*;
use crate::fields::{entry_models, key_at, keys_unique, FieldMap};
use crate::schema::{ColumnDef, TableDef};
use crate::dispatch::text3;
use crate::text::{same_text, to_upper, upper_of};
use crate::value::{db_value_to_proto, wire_canonical, wire_meaning, DbValue, Val, WireValue};

verus! {

/// A value of a schema file's seed data.
#[derive(Debug, Clone)]
pub enum TomlValue {
    Integer(i64),
    /// A float, as its IEEE-754 binary64 bit pattern.
    Float(u64),
    String(String),
    Boolean(bool),
    /// A date, an array or a table, with the name of its kind.
    Other(String),
}

/// The name of a value's kind, for messages.
pub open spec fn toml_kind(v: TomlValue) -> Seq<char> {
    match v {
        TomlValue::Integer(_) => "integer"@,
        TomlValue::Float(_) => "float"@,
        TomlValue::String(_) => "string"@,
        TomlValue::Boolean(_) => "boolean"@,
        TomlValue::Other(k) => k@,
    }
}

/// The storage value of a seed value in a column of the given type, read
/// in any letter case; `CURRENT_TIMESTAMP` in a timestamp column is `now`.
pub open spec fn toml_cell(v: TomlValue, expected: Seq<char>, now: i64) -> Result<Val, Seq<char>> {
    let u = upper_of(expected);
    let mismatch = Err("Type mismatch: cannot convert "@ + toml_kind(v) + " to "@ + expected);
    match v {
        TomlValue::Integer(i) => if u == "INTEGER"@ {
            Ok(Val::Integer(i))
        } else if u == "TIMESTAMP"@ {
            Ok(Val::Timestamp(i))
        } else {
            mismatch
        },
        TomlValue::Float(b) => if u == "REAL"@ {
            Ok(Val::Real(b))
        } else {
            mismatch
        },
        TomlValue::String(s) => if u == "TEXT"@ {
            Ok(Val::Text(s@))
        } else if u == "TIMESTAMP"@ && s@ == "CURRENT_TIMESTAMP"@ {
            Ok(Val::Timestamp(now))
        } else {
            mismatch
        },
        TomlValue::Boolean(b) => if u == "BOOLEAN"@ {
            Ok(Val::Boolean(b))
        } else {
            mismatch
        },
        TomlValue::Other(_) => mismatch,
    }
}

fn kind_name(v: &TomlValue) -> (r: &str)
    ensures
        r@ == toml_kind(*v),
{
    match v {
        TomlValue::Integer(_) => "integer",
        TomlValue::Float(_) => "float",
        TomlValue::String(_) => "string",
        TomlValue::Boolean(_) => "boolean",
        TomlValue::Other(k) => k.as_str(),
    }
}

pub open spec fn val_result(r: Result<DbValue, String>) -> Result<Val, Seq<char>> {
    match r {
        Ok(v) => Ok(v@),
        Err(e) => Err(e@),
    }
}

/// The storage value of a seed value in a column of type `expected_type`,
/// with `now` for the current time.
pub fn toml_value_to_db_at(value: &TomlValue, expected_type: &str, now: i64) -> (r: Result<
    DbValue,
    String,
>)
    ensures
        val_result(r) == toml_cell(*value, expected_type@, now),
{
    let upper = to_upper(expected_type);
    let u = upper.as_str();
    let converted = match value {
        TomlValue::Integer(i) => if same_text(u, "INTEGER") {
            Some(DbValue::Integer(*i))
        } else if same_text(u, "TIMESTAMP") {
            Some(DbValue::Timestamp(*i))
        } else {
            None
        },
        TomlValue::Float(b) => if same_text(u, "REAL") {
            Some(DbValue::Real(*b))
        } else {
            None
        },
        TomlValue::String(s) => if same_text(u, "TEXT") {
            Some(DbValue::Text(s.clone()))
        } else if same_text(u, "TIMESTAMP") && same_text(s.as_str(), "CURRENT_TIMESTAMP") {
            Some(DbValue::Timestamp(now))
        } else {
            None
        },
        TomlValue::Boolean(b) => if same_text(u, "BOOLEAN") {
            Some(DbValue::Boolean(*b))
        } else {
            None
        },
        TomlValue::Other(_) => None,
    };
    match converted {
        Some(v) => Ok(v),
        None => {
            let mut msg = text3("Type mismatch: cannot convert ", kind_name(value), " to ");
            msg.append(expected_type);
            Err(msg)
        },
    }
}

/// Relies on `chrono::Utc::now`: the current time, in whole seconds since
/// the Unix epoch; nothing is promised of its value.
#[verifier::external_body]
fn now_timestamp() -> i64 {
    chrono::Utc::now().timestamp()
}

/// The storage value of a seed value in a column of type `expected_type`;
/// `CURRENT_TIMESTAMP` reads the clock.
pub fn toml_value_to_db(value: &TomlValue, expected_type: &str) -> (r: Result<DbValue, String>)
    ensures
        exists|now: i64| val_result(r) == toml_cell(*value, expected_type@, now),
{
    let now = now_timestamp();
    toml_value_to_db_at(value, expected_type, now)
}

/// The wire value of a seed value in a column of type `expected_type`.
pub fn toml_value_to_proto(value: &TomlValue, expected_type: &str) -> (r: Result<WireValue, String>)
    ensures
        exists|now: i64|
            match (r, #[trigger] toml_cell(*value, expected_type@, now)) {
                (Ok(w), Ok(v)) => wire_meaning(w) == v && wire_canonical(w),
                (Err(e), Err(m)) => e@ == m,
                _ => false,
            },
{
    match toml_value_to_db(value, expected_type) {
        Ok(v) => Ok(db_value_to_proto(v)),
        Err(e) => Err(e),
    }
}

/// The characters of `s` after every leading `c` is taken off.
pub open spec fn strip_front(s: Seq<char>, c: char) -> Seq<char>
    decreases s.len(),
{
    if s.len() > 0 && s[0] == c {
        strip_front(s.drop_first(), c)
    } else {
        s
    }
}

/// The characters of `s` after every trailing `c` is taken off.
pub open spec fn strip_back(s: Seq<char>, c: char) -> Seq<char>
    decreases s.len(),
{
    if s.len() > 0 && s.last() == c {
        strip_back(s.drop_last(), c)
    } else {
        s
    }
}

/// `s` with every leading and trailing `c` taken off.
pub open spec fn trim_char(s: Seq<char>, c: char) -> Seq<char> {
    strip_back(strip_front(s, c), c)
}

/// Takes every leading and trailing `c` off `s`.
pub fn trim_matches_char(s: &str, c: char) -> (r: &str)
    ensures
        r@ == trim_char(s@, c),
{
    let mut cur = s;
    while cur.unicode_len() > 0 && cur.get_char(0) == c
        invariant
            strip_front(cur@, c) == strip_front(s@, c),
        decreases cur@.len(),
    {
        let n = cur.unicode_len();
        let next = cur.substring_char(1, n);
        assert(next@ =~= cur@.drop_first());
        cur = next;
    }
    let ghost front = cur@;
    while cur.unicode_len() > 0 && cur.get_char(cur.unicode_len() - 1) == c
        invariant
            strip_back(cur@, c) == strip_back(front, c),
            front == strip_front(s@, c),
        decreases cur@.len(),
    {
        let n = cur.unicode_len();
        let next = cur.substring_char(0, n - 1);
        assert(next@ =~= cur@.drop_last());
        cur = next;
    }
    cur
}

pub open spec fn is_ascii_digit(c: char) -> bool {
    '0' <= c && c <= '9'
}

/// The number that a string of ASCII digits writes in decimal.
pub open spec fn digits_value(s: Seq<char>) -> int
    decreases s.len(),
{
    if s.len() == 0 {
        0
    } else {
        digits_value(s.drop_last()) * 10 + (s.last() as int - '0' as int)
    }
}

/// What `str::parse::<i64>` reads: an optional `+` or `-`, then one or
/// more ASCII digits, and nothing else, within the range of `i64`.
pub open spec fn i64_from_decimal(s: Seq<char>) -> Option<i64> {
    let negative = s.len() > 0 && s[0] == '-';
    let digits = if s.len() > 0 && (s[0] == '-' || s[0] == '+') {
        s.drop_first()
    } else {
        s
    };
    let value = if negative {
        -digits_value(digits)
    } else {
        digits_value(digits)
    };
    if digits.len() > 0 && (forall|i: int| 0 <= i < digits.len() ==> is_ascii_digit(
        #[trigger] digits[i],
    )) && i64::MIN <= value <= i64::MAX {
        Some(value as i64)
    } else {
        None
    }
}

/// Relies on `str::parse::<i64>` (`i64::from_str`): it accepts exactly an
/// optional sign followed by decimal digits whose value fits.
#[verifier::external_body]
fn parse_i64(s: &str) -> (r: Option<i64>)
    ensures
        r == i64_from_decimal(s@),
{
    s.parse::<i64>().ok()
}

/// What one column contributes to a seed row.
pub enum Seed {
    Skip,
    Put(Val),
    Fail(Seq<char>),
}

/// The value that a column's default gives, when no value is given. The
/// column type is matched exactly here; `reading` is what reading the
/// default as a real number gave.
pub open spec fn default_cell(col_type: Seq<char>, d: Seq<char>, now: i64, reading: Option<u64>) -> Option<Val> {
    if d == "CURRENT_TIMESTAMP"@ {
        Some(Val::Timestamp(now))
    } else if d == "true"@ {
        Some(Val::Boolean(true))
    } else if d == "false"@ {
        Some(Val::Boolean(false))
    } else if col_type == "INTEGER"@ {
        match i64_from_decimal(d) {
            Some(i) => Some(Val::Integer(i)),
            None => None,
        }
    } else if col_type == "REAL"@ {
        match reading {
            Some(b) => Some(Val::Real(b)),
            None => None,
        }
    } else if col_type == "TEXT"@ {
        Some(Val::Text(trim_char(trim_char(d, '\''), '"')))
    } else {
        None
    }
}

/// Whether a column's default is read as a real number.
pub open spec fn reads_real_default(col: ColumnDef, given: Option<TomlValue>) -> bool {
    &&& !col.auto_increment
    &&& given is None
    &&& col.default is Some
    &&& col.default->Some_0@ != "CURRENT_TIMESTAMP"@
    &&& col.default->Some_0@ != "true"@
    &&& col.default->Some_0@ != "false"@
    &&& col.col_type@ != "INTEGER"@
    &&& col.col_type@ == "REAL"@
}

/// What a column contributes to a seed row: nothing when it auto-increments,
/// the given value converted, else its default, else nothing when it is
/// nullable and a failure when it is not.
pub open spec fn column_seed(col: ColumnDef, given: Option<TomlValue>, now: i64, reading: Option<u64>) -> Seed {
    if col.auto_increment {
        Seed::Skip
    } else {
        match given {
            Some(v) => match toml_cell(v, col.col_type@, now) {
                Ok(x) => Seed::Put(x),
                Err(m) => Seed::Fail(m),
            },
            None => match col.default {
                Some(d) => match default_cell(col.col_type@, d@, now, reading) {
                    Some(x) => Seed::Put(x),
                    None => Seed::Skip,
                },
                None => if col.nullable {
                    Seed::Skip
                } else {
                    Seed::Fail("Missing required field '"@ + col.name@ + "' and no default value"@)
                },
            },
        }
    }
}

/// The seed value given for a column in a row of seed data.
pub open spec fn given_for(row: Seq<(Seq<char>, TomlValue)>, name: Seq<char>) -> Option<TomlValue> {
    match key_at(row, name) {
        Some(i) => Some(row[i].1),
        None => None,
    }
}

/// The entries of a seed row, built column by column; the first failure
/// ends it.
pub open spec fn seed_row(
    cols: Seq<ColumnDef>,
    row: Seq<(Seq<char>, TomlValue)>,
    now: i64,
    reals: Seq<Option<u64>>,
) -> Result<Seq<(Seq<char>, Val)>, Seq<char>>
    decreases cols.len(),
{
    if cols.len() == 0 {
        Ok(Seq::empty())
    } else {
        let last = cols.last();
        match seed_row(cols.drop_last(), row, now, reals) {
            Err(e) => Err(e),
            Ok(prev) => match column_seed(last, given_for(row, last.name@), now, reals[cols.len() - 1]) {
                Seed::Skip => Ok(prev),
                Seed::Put(v) => Ok(prev.push((last.name@, v))),
                Seed::Fail(m) => Err(m),
            },
        }
    }
}

pub open spec fn column_names_unique(cols: Seq<ColumnDef>) -> bool {
    forall|i: int, j: int| 0 <= i < j < cols.len() ==> cols[i].name@ != cols[j].name@
}

/// Whether the columns of a table have distinct names.
pub fn has_distinct_column_names(table_def: &TableDef) -> (r: bool)
    ensures
        r == column_names_unique(table_def.columns@),
{
    let mut j: usize = 0;
    while j < table_def.columns.len()
        invariant
            j <= table_def.columns.len(),
            forall|a: int, b: int| 0 <= a < b < table_def.columns@.len() && a < j ==> table_def.columns@[a].name@ != table_def.columns@[b].name@,
        decreases table_def.columns.len() - j,
    {
        let mut k: usize = j + 1;
        while k < table_def.columns.len()
            invariant
                j < table_def.columns.len(),
                j + 1 <= k <= table_def.columns.len(),
                forall|a: int, b: int| 0 <= a < b < table_def.columns@.len() && a < j ==> table_def.columns@[a].name@ != table_def.columns@[b].name@,
                forall|b: int| j < b < k ==> table_def.columns@[j as int].name@ != table_def.columns@[b].name@,
            decreases table_def.columns.len() - k,
        {
            if same_text(table_def.columns[j].name.as_str(), table_def.columns[k].name.as_str()) {
                assert(table_def.columns@[j as int].name@ == table_def.columns@[k as int].name@);
                assert(!column_names_unique(table_def.columns@)) by {
                    if column_names_unique(table_def.columns@) {
                        assert(table_def.columns@[j as int].name@ != table_def.columns@[k as int].name@);
                    }
                }
                return false;
            }
            k = k + 1;
        }
        j = j + 1;
    }
    true
}

/// The readings of REAL defaults that `parse_real` may give for the columns.
pub open spec fn real_readings<F: Fn(&str) -> Option<u64>>(
    parse_real: F,
    cols: Seq<ColumnDef>,
    row: Seq<(Seq<char>, TomlValue)>,
    reals: Seq<Option<u64>>,
) -> bool {
    &&& reals.len() <= cols.len()
    &&& forall|i: int|
        0 <= i < reals.len() && reads_real_default(#[trigger] cols[i], given_for(row, cols[i].name@))
            ==> exists|d: &str|
            d@ == cols[i].default->Some_0@ && parse_real.ensures((d,), reals[i])
}

pub open spec fn field_result(r: Result<FieldMap<DbValue>, String>) -> Result<Seq<(Seq<char>, Val)>, Seq<char>> {
    match r {
        Ok(m) => Ok(entry_models(m.entries())),
        Err(e) => Err(e@),
    }
}

/// Builds one row of seed data for a table, given the time `now` and a
/// reader of real numbers for REAL defaults.
pub fn prepare_insert_data_db_at<F: Fn(&str) -> Option<u64>>(
    table_def: &TableDef,
    row_data: &FieldMap<TomlValue>,
    now: i64,
    parse_real: F,
) -> (r: Result<FieldMap<DbValue>, String>)
    requires
        column_names_unique(table_def.columns@),
        row_data.wf(),
        forall|d: &str| parse_real.requires((d,)),
    ensures
        r matches Ok(m) ==> m.wf(),
        exists|reals: Seq<Option<u64>>|
            real_readings(parse_real, table_def.columns@, row_data.entries(), reals) && (r is Ok
                ==> reals.len() == table_def.columns@.len()) && field_result(r) == seed_row(
                table_def.columns@,
                row_data.entries(),
                now,
                reals,
            ),
{
    let cols = &table_def.columns;
    let ghost row = row_data.entries();
    let mut values: FieldMap<DbValue> = FieldMap::new();
    let ghost mut reals: Seq<Option<u64>> = Seq::empty();
    let mut i: usize = 0;
    proof {
        assert(cols@.take(0) =~= Seq::<ColumnDef>::empty());
        assert(entry_models(values.entries()) =~= Seq::<(Seq<char>, Val)>::empty());
    }
    while i < cols.len()
        invariant
            i <= cols.len(),
            cols == &table_def.columns,
            row == row_data.entries(),
            row_data.wf(),
            values.wf(),
            column_names_unique(cols@),
            forall|d: &str| parse_real.requires((d,)),
            reals.len() == i,
            forall|k: int|
                0 <= k < i && reads_real_default(#[trigger] cols@[k], given_for(row, cols@[k].name@))
                    ==> exists|d: &str|
                    d@ == cols@[k].default->Some_0@ && parse_real.ensures((d,), reals[k]),
            seed_row(cols@.take(i as int), row, now, reals) == Ok::<Seq<(Seq<char>, Val)>, Seq<char>>(
                entry_models(values.entries()),
            ),
            forall|k: int|
                0 <= k < values.entries().len() ==> exists|c: int|
                    0 <= c < i && (#[trigger] values.entries()[k]).0 == cols@[c].name@,
        decreases cols.len() - i,
    {
        let col = &cols[i];
        let ghost given = given_for(row, col.name@);
        let ghost mut reading: Option<u64> = None;
        let ghost mut arg: Option<&str> = None;
        let outcome: Result<Option<DbValue>, String> = if col.auto_increment {
            Ok(None)
        } else {
            match row_data.get(col.name.as_str()) {
                Some(v) => {
                    match toml_value_to_db_at(v, col.col_type.as_str(), now) {
                        Ok(x) => Ok(Some(x)),
                        Err(e) => Err(e),
                    }
                },
                None => match &col.default {
                    Some(d) => {
                        let ds = d.as_str();
                        if same_text(ds, "CURRENT_TIMESTAMP") {
                            Ok(Some(DbValue::Timestamp(now)))
                        } else if same_text(ds, "true") {
                            Ok(Some(DbValue::Boolean(true)))
                        } else if same_text(ds, "false") {
                            Ok(Some(DbValue::Boolean(false)))
                        } else if same_text(col.col_type.as_str(), "INTEGER") {
                            match parse_i64(ds) {
                                Some(n) => Ok(Some(DbValue::Integer(n))),
                                None => Ok(None),
                            }
                        } else if same_text(col.col_type.as_str(), "REAL") {
                            let got = parse_real(ds);
                            proof {
                                reading = got;
                                arg = Some(ds);
                            }
                            match got {
                                Some(b) => Ok(Some(DbValue::Real(b))),
                                None => Ok(None),
                            }
                        } else if same_text(col.col_type.as_str(), "TEXT") {
                            let t = trim_matches_char(trim_matches_char(ds, '\''), '"');
                            Ok(Some(DbValue::Text(String::from_str(t))))
                        } else {
                            Ok(None)
                        }
                    },
                    None => if col.nullable {
                        Ok(None)
                    } else {
                        Err(text3("Missing required field '", col.name.as_str(), "' and no default value"))
                    },
                },
            }
        };
        proof {
            let ghost_reals = reals.push(reading);
            assert(cols@.take(i + 1).drop_last() =~= cols@.take(i as int));
            assert(cols@.take(i + 1).last() == cols@[i as int]);
            assert forall|k: int| 0 <= k < i implies ghost_reals[k] == reals[k] by {}
            lemma_seed_row_reals(cols@.take(i as int), row, now, reals, ghost_reals);
            if reads_real_default(cols@[i as int], given_for(row, cols@[i as int].name@)) {
                let d = arg->Some_0;
                assert(d@ == cols@[i as int].default->Some_0@ && parse_real.ensures((d,), ghost_reals[i as int]));
            }
            reals = ghost_reals;
        }
        match outcome {
            Err(e) => {
                proof {
                    lemma_seed_row_err_stays(cols@, (i + 1) as nat, row, now, reals, e@);
                }
                return Err(e);
            },
            Ok(Some(v)) => {
                proof {
                    assert(key_at(values.entries(), col.name@) is None) by {
                        if exists|k: int| 0 <= k < values.entries().len() && values.entries()[k].0 == col.name@ {
                            let k = choose|k: int| 0 <= k < values.entries().len() && values.entries()[k].0 == col.name@;
                            let c = choose|c: int| 0 <= c < i && values.entries()[k].0 == cols@[c].name@;
                            assert(cols@[c].name@ == cols@[i as int].name@);
                        }
                    }
                }
                let ghost before = values.entries();
                values.insert(col.name.clone(), v);
                proof {
                    assert(entry_models(values.entries()) =~= entry_models(before).push((col.name@, v@)));
                    assert forall|k: int| 0 <= k < values.entries().len() implies exists|c: int|
                        0 <= c < i + 1 && (#[trigger] values.entries()[k]).0 == cols@[c].name@ by {
                        if k < before.len() {
                            assert(values.entries()[k] == before[k]);
                        } else {
                            assert(values.entries()[k].0 == cols@[i as int].name@);
                        }
                    }
                }
            },
            Ok(None) => {},
        }
        i = i + 1;
    }
    proof {
        assert(cols@.take(i as int) =~= cols@);
    }
    Ok(values)
}

proof fn lemma_seed_row_reals(
    cols: Seq<ColumnDef>,
    row: Seq<(Seq<char>, TomlValue)>,
    now: i64,
    a: Seq<Option<u64>>,
    b: Seq<Option<u64>>,
)
    requires
        a.len() >= cols.len(),
        b.len() >= cols.len(),
        forall|k: int| 0 <= k < cols.len() ==> a[k] == b[k],
    ensures
        seed_row(cols, row, now, a) == seed_row(cols, row, now, b),
    decreases cols.len(),
{
    if cols.len() > 0 {
        lemma_seed_row_reals(cols.drop_last(), row, now, a, b);
    }
}

proof fn lemma_seed_row_err_stays(
    cols: Seq<ColumnDef>,
    n: nat,
    row: Seq<(Seq<char>, TomlValue)>,
    now: i64,
    reals: Seq<Option<u64>>,
    e: Seq<char>,
)
    requires
        n <= cols.len(),
        seed_row(cols.take(n as int), row, now, reals) == Err::<Seq<(Seq<char>, Val)>, Seq<char>>(e),
    ensures
        seed_row(cols, row, now, reals) == Err::<Seq<(Seq<char>, Val)>, Seq<char>>(e),
    decreases cols.len() - n,
{
    if n < cols.len() {
        assert(cols.take(n + 1 as int).drop_last() =~= cols.take(n as int));
        lemma_seed_row_err_stays(cols, n + 1, row, now, reals, e);
    } else {
        assert(cols.take(n as int) =~= cols);
    }
}

/// Builds one row of seed data for a table in storage form, reading the
/// clock for `CURRENT_TIMESTAMP`.
pub fn prepare_insert_data_db<F: Fn(&str) -> Option<u64>>(
    table_def: &TableDef,
    row_data: &FieldMap<TomlValue>,
    parse_real: F,
) -> (r: Result<FieldMap<DbValue>, String>)
    requires
        column_names_unique(table_def.columns@),
        row_data.wf(),
        forall|d: &str| parse_real.requires((d,)),
    ensures
        r matches Ok(m) ==> m.wf(),
        exists|now: i64, reals: Seq<Option<u64>>|
            real_readings(parse_real, table_def.columns@, row_data.entries(), reals) && (r is Ok
                ==> reals.len() == table_def.columns@.len()) && field_result(r) == #[trigger] seed_row(
                table_def.columns@,
                row_data.entries(),
                now,
                reals,
            ),
{
    let now = now_timestamp();
    prepare_insert_data_db_at(table_def, row_data, now, parse_real)
}

/// The wire form of each entry, keys kept.
pub open spec fn wire_entries(s: Seq<(Seq<char>, WireValue)>) -> Seq<(Seq<char>, Val)> {
    s.map_values(|e: (Seq<char>, WireValue)| (e.0, wire_meaning(e.1)))
}

/// Builds one row of seed data for a table in wire form, reading the clock
/// for `CURRENT_TIMESTAMP`.
pub fn prepare_insert_data<F: Fn(&str) -> Option<u64>>(
    table_def: &TableDef,
    row_data: &FieldMap<TomlValue>,
    parse_real: F,
) -> (r: Result<FieldMap<WireValue>, String>)
    requires
        column_names_unique(table_def.columns@),
        row_data.wf(),
        forall|d: &str| parse_real.requires((d,)),
    ensures
        r matches Ok(m) ==> m.wf(),
        exists|now: i64, reals: Seq<Option<u64>>|
            real_readings(parse_real, table_def.columns@, row_data.entries(), reals) && (r is Ok
                ==> reals.len() == table_def.columns@.len()) && match (r, #[trigger] seed_row(
                table_def.columns@,
                row_data.entries(),
                now,
                reals,
            )) {
                (Ok(m), Ok(s)) => wire_entries(m.entries()) == s,
                (Err(e), Err(m)) => e@ == m,
                _ => false,
            },
{
    match prepare_insert_data_db(table_def, row_data, parse_real) {
        Err(e) => Err(e),
        Ok(m) => {
            let ghost src = m.entries();
            let mut out: FieldMap<WireValue> = FieldMap::new();
            let mut rest = m.into_entries();
            let ghost mut taken: int = 0;
            while rest.len() > 0
                invariant
                    0 <= taken <= src.len(),
                    keys_unique(src),
                    rest@.len() == src.len() - taken,
                    forall|k: int|
                        0 <= k < rest@.len() ==> (#[trigger] rest@[k]).0@ == src[taken + k].0
                            && rest@[k].1 == src[taken + k].1,
                    out.wf(),
                    out.entries().len() == taken,
                    forall|k: int|
                        0 <= k < taken ==> (#[trigger] out.entries()[k]).0 == src[k].0
                            && wire_meaning(out.entries()[k].1) == src[k].1@,
                decreases rest.len(),
            {
                let (k, v) = rest.remove(0);
                proof {
                    assert(key_at(out.entries(), k@) is None) by {
                        if exists|j: int| 0 <= j < out.entries().len() && out.entries()[j].0 == k@ {
                            let j = choose|j: int| 0 <= j < out.entries().len() && out.entries()[j].0 == k@;
                            assert(src[j].0 == src[taken].0);
                        }
                    }
                }
                out.insert(k, db_value_to_proto(v));
                proof {
                    taken = taken + 1;
                }
            }
            proof {
                assert(wire_entries(out.entries()) =~= entry_models(src));
            }
            Ok(out)
        },
    }
}

} // verus!
