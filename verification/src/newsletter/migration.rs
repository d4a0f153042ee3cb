//! Importing subscriber lists exported from other newsletter services.
//!
//! A row of an export becomes a field map (column name to value); the
//! standard columns of the source say where the email, name, status, date
//! and tags are, with fallbacks by name. The parsing of CSV rows, the field
//! lookups and the status mapping are stated here as spec functions.
use vstd::prelude::*;
use crate::newsletter::database::{Subscriber, SubscriberStatus};
use crate::utils::{join_strings, string_views, tags_of, Utils};
use crate::time::{now, Timestamp};
use crate::text::{
    join, join_all, push_str, text_lines, lines_vec, views,
    chars_of, lowercase, push_char, push_dec, dec, str_eq, string_of, to_lowercase, trim, trim_vec,
};

verus! {

/// The services an export can come from.
#[derive(Clone, Copy, PartialEq, Eq, Structural, Debug)]
pub enum MigrationSource {
    Mailchimp,
    ConvertKit,
    Substack,
    Beehiiv,
    Generic,
    Json,
}

/// Why an import step failed.
#[derive(Debug)]
pub enum MigrationError {
    /// The source name is not one of the supported ones (as given).
    UnsupportedSource(String),
    /// No email value was found in a row.
    MissingEmail,
    /// The email value has no `@` (the value).
    InvalidEmail(String),
    /// A JSON export is not JSON.
    InvalidJson,
    /// A JSON export is neither a list nor an object.
    NotSubscriberJson,
}

/// The text that an import error is reported with.
pub open spec fn migration_error_text(e: MigrationError) -> Seq<char> {
    match e {
        MigrationError::UnsupportedSource(n) => "Unsupported migration source: "@ + n@,
        MigrationError::MissingEmail => "Email field is required"@,
        MigrationError::InvalidEmail(v) => "Invalid email format: "@ + v@,
        MigrationError::InvalidJson => "Invalid JSON format"@,
        MigrationError::NotSubscriberJson => "JSON must be an object or array of objects"@,
    }
}

impl MigrationError {
    /// The message of the error.
    pub fn message(&self) -> (res: String)
        ensures
            res@ == migration_error_text(*self),
    {
        let mut out = String::new();
        match self {
            MigrationError::UnsupportedSource(n) => {
                push_str(&mut out, "Unsupported migration source: ");
                push_str(&mut out, n.as_str());
            },
            MigrationError::MissingEmail => push_str(&mut out, "Email field is required"),
            MigrationError::InvalidEmail(v) => {
                push_str(&mut out, "Invalid email format: ");
                push_str(&mut out, v.as_str());
            },
            MigrationError::InvalidJson => push_str(&mut out, "Invalid JSON format"),
            MigrationError::NotSubscriberJson => push_str(&mut out, "JSON must be an object or array of objects"),
        }
        out
    }
}

/// The source with the given lower-case name; `csv` is another name for
/// the generic format.
pub open spec fn source_named(n: Seq<char>) -> Option<MigrationSource> {
    if n == "mailchimp"@ {
        Some(MigrationSource::Mailchimp)
    } else if n == "convertkit"@ {
        Some(MigrationSource::ConvertKit)
    } else if n == "substack"@ {
        Some(MigrationSource::Substack)
    } else if n == "beehiiv"@ {
        Some(MigrationSource::Beehiiv)
    } else if n == "generic"@ || n == "csv"@ {
        Some(MigrationSource::Generic)
    } else if n == "json"@ {
        Some(MigrationSource::Json)
    } else {
        None
    }
}

/// The name a source is listed under.
pub open spec fn source_name(s: MigrationSource) -> Seq<char> {
    match s {
        MigrationSource::Mailchimp => "mailchimp"@,
        MigrationSource::ConvertKit => "convertkit"@,
        MigrationSource::Substack => "substack"@,
        MigrationSource::Beehiiv => "beehiiv"@,
        MigrationSource::Generic => "generic"@,
        MigrationSource::Json => "json"@,
    }
}

/// Every source is read back from the name it is listed under.
pub proof fn law_source_name_round_trip(s: MigrationSource)
    ensures
        source_named(source_name(s)) == Some(s),
{
    reveal_strlit("mailchimp");
    reveal_strlit("convertkit");
    reveal_strlit("substack");
    reveal_strlit("beehiiv");
    reveal_strlit("generic");
    reveal_strlit("csv");
    reveal_strlit("json");
    let n = source_name(s);
    assert(n.len() > 0);
    assert("mailchimp"@[0] == 'm' && "convertkit"@[0] == 'c' && "substack"@[0] == 's' && "beehiiv"@[0] == 'b'
        && "generic"@[0] == 'g' && "csv"@[0] == 'c' && "json"@[0] == 'j');
    assert("convertkit"@.len() != "csv"@.len());
}

/// The name of a source as its `Debug` form shows it.
pub open spec fn source_label(s: MigrationSource) -> Seq<char> {
    match s {
        MigrationSource::Mailchimp => "Mailchimp"@,
        MigrationSource::ConvertKit => "ConvertKit"@,
        MigrationSource::Substack => "Substack"@,
        MigrationSource::Beehiiv => "Beehiiv"@,
        MigrationSource::Generic => "Generic"@,
        MigrationSource::Json => "Json"@,
    }
}

impl MigrationSource {
    /// The source with the given lower-case name, if any.
    pub fn from_lowercase(name: &str) -> (res: Option<MigrationSource>)
        ensures
            res == source_named(name@),
    {
        if str_eq(name, "mailchimp") {
            Some(MigrationSource::Mailchimp)
        } else if str_eq(name, "convertkit") {
            Some(MigrationSource::ConvertKit)
        } else if str_eq(name, "substack") {
            Some(MigrationSource::Substack)
        } else if str_eq(name, "beehiiv") {
            Some(MigrationSource::Beehiiv)
        } else if str_eq(name, "generic") || str_eq(name, "csv") {
            Some(MigrationSource::Generic)
        } else if str_eq(name, "json") {
            Some(MigrationSource::Json)
        } else {
            None
        }
    }

    /// Parse migration source from string, ignoring case.
    pub fn from_str(s: &str) -> (res: Result<MigrationSource, MigrationError>)
        ensures
            match source_named(lowercase(s@)) {
                Some(src) => res matches Ok(r) && r == src,
                None => res matches Err(MigrationError::UnsupportedSource(g)) && g@ == s@,
            },
    {
        let lower = to_lowercase(s);
        match MigrationSource::from_lowercase(lower.as_str()) {
            Some(src) => Ok(src),
            None => Err(MigrationError::UnsupportedSource(s.to_owned())),
        }
    }

    /// Get all supported sources as strings.
    pub fn all_sources() -> (res: Vec<&'static str>)
        ensures
            res@.len() == 6,
            res@[0]@ == "mailchimp"@,
            res@[1]@ == "convertkit"@,
            res@[2]@ == "substack"@,
            res@[3]@ == "beehiiv"@,
            res@[4]@ == "generic"@,
            res@[5]@ == "json"@,
            forall|i: int| 0 <= i < res@.len() ==> source_named(#[trigger] res@[i]@) is Some,
    {
        vec!["mailchimp", "convertkit", "substack", "beehiiv", "generic", "json"]
    }

    /// The `Debug` name of the source.
    pub fn label(&self) -> (res: &'static str)
        ensures
            res@ == source_label(*self),
    {
        match self {
            MigrationSource::Mailchimp => "Mailchimp",
            MigrationSource::ConvertKit => "ConvertKit",
            MigrationSource::Substack => "Substack",
            MigrationSource::Beehiiv => "Beehiiv",
            MigrationSource::Generic => "Generic",
            MigrationSource::Json => "Json",
        }
    }
}

/// The standard columns of an export.
#[derive(Clone, Copy, PartialEq, Eq, Structural, Debug)]
pub enum Column {
    Email,
    Name,
    Status,
    Date,
    Tags,
}

/// The column an export of `source` keeps each standard field in.
pub open spec fn default_column(source: MigrationSource, col: Column) -> Option<Seq<char>> {
    match source {
        MigrationSource::Mailchimp => match col {
            Column::Email => Some("Email Address"@),
            Column::Name => Some("FNAME"@),
            Column::Status => Some("Member Status"@),
            Column::Date => Some("Timestamp Signup"@),
            Column::Tags => Some("Tags"@),
        },
        MigrationSource::ConvertKit => match col {
            Column::Email => Some("email"@),
            Column::Name => Some("first_name"@),
            Column::Status => Some("state"@),
            Column::Date => Some("created_at"@),
            Column::Tags => Some("tags"@),
        },
        MigrationSource::Substack => match col {
            Column::Email => Some("email"@),
            Column::Name => Some("name"@),
            Column::Status => Some("subscription_status"@),
            Column::Date => Some("created_at"@),
            Column::Tags => None,
        },
        MigrationSource::Beehiiv => match col {
            Column::Email => Some("email"@),
            Column::Name => Some("name"@),
            Column::Status => Some("status"@),
            Column::Date => Some("created"@),
            Column::Tags => Some("tags"@),
        },
        MigrationSource::Generic => match col {
            Column::Email => Some("email"@),
            Column::Name => Some("name"@),
            _ => None,
        },
        MigrationSource::Json => match col {
            Column::Email => Some("email"@),
            Column::Name => Some("name"@),
            Column::Status => Some("status"@),
            Column::Date => Some("created_at"@),
            Column::Tags => Some("tags"@),
        },
    }
}

/// The text of an optional string.
pub open spec fn opt_view(o: Option<String>) -> Option<Seq<char>> {
    match o {
        Some(s) => Some(s@),
        None => None,
    }
}

/// How to read an export.
pub struct MigrationConfig {
    pub source: MigrationSource,
    pub file_path: String,
    pub email_column: Option<String>,
    pub name_column: Option<String>,
    pub status_column: Option<String>,
    pub date_column: Option<String>,
    pub tags_column: Option<String>,
    pub custom_mappings: Vec<(String, String)>,
    pub skip_header: bool,
    pub delimiter: char,
}

/// The configured column of a standard field.
pub open spec fn column_of(c: MigrationConfig, col: Column) -> Option<Seq<char>> {
    match col {
        Column::Email => opt_view(c.email_column),
        Column::Name => opt_view(c.name_column),
        Column::Status => opt_view(c.status_column),
        Column::Date => opt_view(c.date_column),
        Column::Tags => opt_view(c.tags_column),
    }
}

fn some_str(s: &str) -> (res: Option<String>)
    ensures
        opt_view(res) == Some(s@),
{
    Some(s.to_owned())
}

fn make_config(
    source: MigrationSource,
    file_path: String,
    cols: (Option<String>, Option<String>, Option<String>, Option<String>, Option<String>),
    skip_header: bool,
) -> (res: MigrationConfig)
    ensures
        res.source == source,
        res.file_path == file_path,
        opt_view(res.email_column) == opt_view(cols.0),
        opt_view(res.name_column) == opt_view(cols.1),
        opt_view(res.status_column) == opt_view(cols.2),
        opt_view(res.date_column) == opt_view(cols.3),
        opt_view(res.tags_column) == opt_view(cols.4),
        res.custom_mappings@.len() == 0,
        res.skip_header == skip_header,
        res.delimiter == ',',
{
    let (e, n, s, d, t) = cols;
    MigrationConfig {
        source,
        file_path,
        email_column: e,
        name_column: n,
        status_column: s,
        date_column: d,
        tags_column: t,
        custom_mappings: Vec::new(),
        skip_header,
        delimiter: ',',
    }
}

impl MigrationConfig {
    /// The default configuration for an export of `source`: its standard
    /// columns, no custom mappings, a header row except for JSON, and
    /// commas between fields.
    pub fn for_source(source: MigrationSource, file_path: String) -> (res: MigrationConfig)
        ensures
            res.source == source,
            res.file_path == file_path,
            forall|col: Column| #[trigger] column_of(res, col) == default_column(source, col),
            res.custom_mappings@.len() == 0,
            res.skip_header == (source != MigrationSource::Json),
            res.delimiter == ',',
    {
        let res = match source {
            MigrationSource::Mailchimp => make_config(
                source,
                file_path,
                (
                    some_str("Email Address"),
                    some_str("FNAME"),
                    some_str("Member Status"),
                    some_str("Timestamp Signup"),
                    some_str("Tags"),
                ),
                true,
            ),
            MigrationSource::ConvertKit => make_config(
                source,
                file_path,
                (
                    some_str("email"),
                    some_str("first_name"),
                    some_str("state"),
                    some_str("created_at"),
                    some_str("tags"),
                ),
                true,
            ),
            MigrationSource::Substack => make_config(
                source,
                file_path,
                (
                    some_str("email"),
                    some_str("name"),
                    some_str("subscription_status"),
                    some_str("created_at"),
                    None,
                ),
                true,
            ),
            MigrationSource::Beehiiv => make_config(
                source,
                file_path,
                (
                    some_str("email"),
                    some_str("name"),
                    some_str("status"),
                    some_str("created"),
                    some_str("tags"),
                ),
                true,
            ),
            MigrationSource::Generic => make_config(
                source,
                file_path,
                (some_str("email"), some_str("name"), None, None, None),
                true,
            ),
            MigrationSource::Json => make_config(
                source,
                file_path,
                (
                    some_str("email"),
                    some_str("name"),
                    some_str("status"),
                    some_str("created_at"),
                    some_str("tags"),
                ),
                false,
            ),
        };
        assert forall|col: Column| #[trigger] column_of(res, col) == default_column(source, col) by {
            match col {
                Column::Email => {},
                Column::Name => {},
                Column::Status => {},
                Column::Date => {},
                Column::Tags => {},
            }
        }
        res
    }
}

// ---------------------------------------------------------------------------
// CSV rows
// ---------------------------------------------------------------------------

/// The fields of a CSV row from index `i` on, given the fields found so
/// far, the open field and whether a quote is open: a quote toggles quoting
/// (two quotes inside quotes stand for one), the delimiter outside quotes
/// ends a field, and every field is trimmed.
pub open spec fn csv_from(
    l: Seq<char>,
    i: int,
    fields: Seq<Seq<char>>,
    cur: Seq<char>,
    in_quotes: bool,
    delim: char,
) -> Seq<Seq<char>>
    decreases l.len() - i,
{
    if i < 0 || i >= l.len() {
        fields.push(trim(cur))
    } else if l[i] == '"' {
        if in_quotes && i + 1 < l.len() && l[i + 1] == '"' {
            csv_from(l, i + 2, fields, cur.push('"'), in_quotes, delim)
        } else {
            csv_from(l, i + 1, fields, cur, !in_quotes, delim)
        }
    } else if l[i] == delim && !in_quotes {
        csv_from(l, i + 1, fields.push(trim(cur)), Seq::empty(), in_quotes, delim)
    } else {
        csv_from(l, i + 1, fields, cur.push(l[i]), in_quotes, delim)
    }
}

/// The fields of a CSV row.
pub open spec fn csv_fields(l: Seq<char>, delim: char) -> Seq<Seq<char>> {
    csv_from(l, 0, Seq::empty(), Seq::empty(), false, delim)
}

/// Splits a CSV row into trimmed fields, honouring double quotes.
pub fn parse_csv_line(line: &str, delimiter: char) -> (res: Vec<String>)
    ensures
        string_views(res@) == csv_fields(line@, delimiter),
{
    let l = chars_of(line);
    let n = l.len();
    let mut fields: Vec<String> = Vec::new();
    let mut cur: Vec<char> = Vec::new();
    let mut in_quotes = false;
    let mut i: usize = 0;
    assert(string_views(fields@) =~= Seq::<Seq<char>>::empty());
    assert(cur@ =~= Seq::<char>::empty());
    while i < n
        invariant
            n == l@.len(),
            l@ == line@,
            i <= n,
            csv_fields(line@, delimiter) == csv_from(l@, i as int, string_views(fields@), cur@, in_quotes, delimiter),
        decreases n - i,
    {
        let c = l[i];
        let ghost fv = string_views(fields@);
        let ghost cv = cur@;
        if c == '"' {
            if in_quotes && i + 1 < n && l[i + 1] == '"' {
                cur.push('"');
                i += 2;
            } else {
                in_quotes = !in_quotes;
                i += 1;
            }
        } else if c == delimiter && !in_quotes {
            let t = trim_vec(&cur);
            fields.push(string_of(&t));
            assert(string_views(fields@) =~= fv.push(trim(cv)));
            cur = Vec::new();
            assert(cur@ =~= Seq::<char>::empty());
            i += 1;
        } else {
            cur.push(c);
            i += 1;
        }
    }
    let ghost fv = string_views(fields@);
    let t = trim_vec(&cur);
    fields.push(string_of(&t));
    assert(string_views(fields@) =~= fv.push(trim(cur@)));
    fields
}

// ---------------------------------------------------------------------------
// Field maps
// ---------------------------------------------------------------------------

/// A field map as column names and values, in the order the columns came.
pub open spec fn fields_view(m: Seq<(String, String)>) -> Seq<(Seq<char>, Seq<char>)> {
    m.map_values(|e: (String, String)| (e.0@, e.1@))
}

/// The value stored under `k`.
pub open spec fn lookup(m: Seq<(Seq<char>, Seq<char>)>, k: Seq<char>) -> Option<Seq<char>>
    decreases m.len(),
{
    if m.len() == 0 {
        None
    } else if m[0].0 == k {
        Some(m[0].1)
    } else {
        lookup(m.skip(1), k)
    }
}

/// The map with `k` set to `v`: an existing entry keeps its place, a new
/// one goes last.
pub open spec fn map_insert(m: Seq<(Seq<char>, Seq<char>)>, k: Seq<char>, v: Seq<char>) -> Seq<(Seq<char>, Seq<char>)>
    decreases m.len(),
{
    if m.len() == 0 {
        seq![(k, v)]
    } else if m[0].0 == k {
        seq![(k, v)] + m.skip(1)
    } else {
        seq![m[0]] + map_insert(m.skip(1), k, v)
    }
}

/// The index of the first entry with key `k`, if any.
fn find_key(m: &Vec<(String, String)>, k: &String) -> (res: Option<usize>)
    ensures
        match res {
            Some(i) => i < m@.len() && m@[i as int].0@ == k@
                && forall|j: int| 0 <= j < i ==> m@[j].0@ != k@,
            None => forall|j: int| 0 <= j < m@.len() ==> m@[j].0@ != k@,
        },
{
    let mut i: usize = 0;
    while i < m.len()
        invariant
            i <= m@.len(),
            forall|j: int| 0 <= j < i ==> m@[j].0@ != k@,
        decreases m.len() - i,
    {
        if m[i].0 == *k {
            return Some(i);
        }
        i += 1;
    }
    None
}

proof fn lemma_lookup_first(m: Seq<(Seq<char>, Seq<char>)>, k: Seq<char>, i: int)
    requires
        0 <= i <= m.len(),
        forall|j: int| 0 <= j < i ==> m[j].0 != k,
    ensures
        lookup(m, k) == lookup(m.skip(i), k),
        i < m.len() && m[i].0 == k ==> lookup(m, k) == Some(m[i].1),
        i == m.len() ==> lookup(m, k) is None,
        i < m.len() && m[i].0 == k ==> map_insert(m, k, m[i].1) == m,
    decreases i,
{
    if i > 0 {
        lemma_lookup_first(m.skip(1), k, i - 1);
        assert(m.skip(1).skip(i - 1) =~= m.skip(i));
        if i < m.len() && m[i].0 == k {
            assert(m =~= seq![m[0]] + m.skip(1));
        }
    } else {
        assert(m.skip(0) =~= m);
        if m.len() > 0 && m[0].0 == k {
            assert(m =~= seq![(k, m[0].1)] + m.skip(1));
        }
    }
}

proof fn lemma_map_insert_at(m: Seq<(Seq<char>, Seq<char>)>, k: Seq<char>, v: Seq<char>, i: int)
    requires
        0 <= i <= m.len(),
        forall|j: int| 0 <= j < i ==> m[j].0 != k,
        i < m.len() ==> m[i].0 == k,
    ensures
        map_insert(m, k, v) == if i < m.len() { m.update(i, (k, v)) } else { m.push((k, v)) },
    decreases i,
{
    if i > 0 {
        lemma_map_insert_at(m.skip(1), k, v, i - 1);
        if i < m.len() {
            assert(seq![m[0]] + m.skip(1).update(i - 1, (k, v)) =~= m.update(i, (k, v)));
        } else {
            assert(seq![m[0]] + m.skip(1).push((k, v)) =~= m.push((k, v)));
        }
    } else {
        if m.len() > 0 {
            assert(seq![(k, v)] + m.skip(1) =~= m.update(0, (k, v)));
        } else {
            assert(seq![(k, v)] =~= m.push((k, v)));
        }
    }
}

/// Sets `k` to `v` in a field map, as a map insertion does.
pub fn field_insert(m: &mut Vec<(String, String)>, k: String, v: String)
    ensures
        fields_view(final(m)@) == map_insert(fields_view(old(m)@), k@, v@),
{
    let ghost fv = fields_view(m@);
    let found = find_key(m, &k);
    let ghost kv = k@;
    let ghost vv = v@;
    match found {
        Some(i) => {
            proof { lemma_map_insert_at(fv, kv, vv, i as int); }
            m.set(i, (k, v));
            assert(fields_view(m@) =~= fv.update(i as int, (kv, vv)));
        },
        None => {
            proof { lemma_map_insert_at(fv, kv, vv, fv.len() as int); }
            m.push((k, v));
            assert(fields_view(m@) =~= fv.push((kv, vv)));
        },
    }
}

/// A read gives back the last write to the same key, and a write leaves the
/// other keys as they were.
pub proof fn law_field_map_read_after_write(
    m: Seq<(Seq<char>, Seq<char>)>,
    k: Seq<char>,
    v: Seq<char>,
    k2: Seq<char>,
)
    ensures
        lookup(map_insert(m, k, v), k) == Some(v),
        k2 != k ==> lookup(map_insert(m, k, v), k2) == lookup(m, k2),
    decreases m.len(),
{
    if m.len() > 0 && m[0].0 != k {
        law_field_map_read_after_write(m.skip(1), k, v, k2);
        let r = seq![m[0]] + map_insert(m.skip(1), k, v);
        assert(r.skip(1) =~= map_insert(m.skip(1), k, v));
        assert(r[0] == m[0]);
    } else if m.len() > 0 {
        let r = seq![(k, v)] + m.skip(1);
        assert(r.skip(1) =~= m.skip(1));
        assert(r[0] == (k, v));
    } else {
        let r = seq![(k, v)];
        assert(r.skip(1) =~= Seq::<(Seq<char>, Seq<char>)>::empty());
        assert(r[0] == (k, v));
        assert(lookup(r.skip(1), k2) is None);
    }
}

/// The value of `k` in the map, if there is one.
pub fn field_get(m: &Vec<(String, String)>, k: &String) -> (res: Option<usize>)
    ensures
        match res {
            Some(i) => i < m@.len() && lookup(fields_view(m@), k@) == Some(m@[i as int].1@),
            None => lookup(fields_view(m@), k@) is None,
        },
{
    let ghost fv = fields_view(m@);
    let found = find_key(m, k);
    proof {
        match found {
            Some(i) => { lemma_lookup_first(fv, k@, i as int); },
            None => { lemma_lookup_first(fv, k@, fv.len() as int); },
        }
    }
    found
}

/// A present, non-empty value.
pub open spec fn filled(o: Option<Seq<char>>) -> Option<Seq<char>> {
    match o {
        Some(v) => if v.len() > 0 { Some(v) } else { None },
        None => None,
    }
}

/// The first non-empty value whose key is `lk` when lower-cased.
pub open spec fn ci_match(m: Seq<(Seq<char>, Seq<char>)>, lk: Seq<char>) -> Option<Seq<char>>
    decreases m.len(),
{
    if m.len() == 0 {
        None
    } else if lowercase(m[0].0) == lk && m[0].1.len() > 0 {
        Some(m[0].1)
    } else {
        ci_match(m.skip(1), lk)
    }
}

/// The value of a standard field: the configured column if it holds a
/// value, else the field's plain name, else the first key equal to that
/// name up to case.
pub open spec fn field_value(
    m: Seq<(Seq<char>, Seq<char>)>,
    primary: Option<Seq<char>>,
    fallback: Seq<char>,
) -> Option<Seq<char>> {
    let p = match primary {
        Some(c) => filled(lookup(m, c)),
        None => None,
    };
    if p is Some {
        p
    } else if filled(lookup(m, fallback)) is Some {
        filled(lookup(m, fallback))
    } else {
        ci_match(m, lowercase(fallback))
    }
}

fn filled_get(m: &Vec<(String, String)>, k: &String) -> (res: Option<String>)
    ensures
        opt_view(res) == filled(lookup(fields_view(m@), k@)),
{
    match field_get(m, k) {
        Some(i) => {
            if m[i].1.as_str().unicode_len() > 0 {
                Some(m[i].1.clone())
            } else {
                assert(m@[i as int].1@.len() == 0);
                None
            }
        },
        None => None,
    }
}

/// Get field value with fallback options.
pub fn get_field_value(fields: &Vec<(String, String)>, primary_column: &Option<String>, fallback_key: &str) -> (res: Option<String>)
    ensures
        opt_view(res) == field_value(fields_view(fields@), opt_view(*primary_column), fallback_key@),
{
    let ghost fv = fields_view(fields@);
    if let Some(column) = primary_column {
        let p = filled_get(fields, column);
        if p.is_some() {
            return p;
        }
    }
    let fb = fallback_key.to_owned();
    let f = filled_get(fields, &fb);
    if f.is_some() {
        return f;
    }
    let lower_fb = to_lowercase(fallback_key);
    let lf = chars_of(lower_fb.as_str());
    let mut i: usize = 0;
    assert(fv.skip(0) =~= fv);
    let ghost target = field_value(fv, opt_view(*primary_column), fallback_key@);
    assert(target == ci_match(fv, lf@));
    while i < fields.len()
        invariant
            i <= fields@.len(),
            fv == fields_view(fields@),
            target == field_value(fv, opt_view(*primary_column), fallback_key@),
            target == ci_match(fv, lf@),
            lf@ == lowercase(fallback_key@),
            ci_match(fv, lf@) == ci_match(fv.skip(i as int), lf@),
        decreases fields.len() - i,
    {
        let lk = to_lowercase(fields[i].0.as_str());
        let lkv = chars_of(lk.as_str());
        assert(fv.skip(i as int)[0] == fv[i as int]);
        if crate::text::vec_eq(&lkv, &lf) && fields[i].1.as_str().unicode_len() > 0 {
            return Some(fields[i].1.clone());
        }
        assert(fv.skip(i as int).skip(1) =~= fv.skip(i + 1));
        i += 1;
    }
    assert(fv.skip(i as int).len() == 0);
    None
}

/// Whether `key` is one of the configured standard columns.
pub open spec fn is_standard(c: MigrationConfig, key: Seq<char>) -> bool {
    exists|col: Column| #[trigger] column_of(c, col) == Some(key)
}

fn column_is(col: &Option<String>, key: &str) -> (res: bool)
    ensures
        res == (opt_view(*col) == Some(key@)),
{
    match col {
        Some(c) => str_eq(c.as_str(), key),
        None => false,
    }
}

/// Check if field is a standard field.
pub fn is_standard_field(key: &str, config: &MigrationConfig) -> (res: bool)
    ensures
        res == is_standard(*config, key@),
{
    let r = column_is(&config.email_column, key) || column_is(&config.name_column, key)
        || column_is(&config.status_column, key) || column_is(&config.date_column, key)
        || column_is(&config.tags_column, key);
    proof {
        if r {
            if opt_view(config.email_column) == Some(key@) {
                assert(column_of(*config, Column::Email) == Some(key@));
            } else if opt_view(config.name_column) == Some(key@) {
                assert(column_of(*config, Column::Name) == Some(key@));
            } else if opt_view(config.status_column) == Some(key@) {
                assert(column_of(*config, Column::Status) == Some(key@));
            } else if opt_view(config.date_column) == Some(key@) {
                assert(column_of(*config, Column::Date) == Some(key@));
            } else {
                assert(column_of(*config, Column::Tags) == Some(key@));
            }
        } else {
            assert forall|col: Column| #[trigger] column_of(*config, col) != Some(key@) by {
                match col {
                    Column::Email => {},
                    Column::Name => {},
                    Column::Status => {},
                    Column::Date => {},
                    Column::Tags => {},
                }
            }
        }
    }
    r
}

// ---------------------------------------------------------------------------
// Status mapping
// ---------------------------------------------------------------------------

/// The status of an imported subscriber, from the lower-cased status text of
/// the export.
pub open spec fn status_for(source: MigrationSource, s: Option<Seq<char>>) -> SubscriberStatus {
    match (source, s) {
        (MigrationSource::Mailchimp, Some(s)) => if s == "subscribed"@ {
            SubscriberStatus::Approved
        } else if s == "unsubscribed"@ || s == "cleaned"@ {
            SubscriberStatus::Declined
        } else {
            SubscriberStatus::Pending
        },
        (MigrationSource::ConvertKit, Some(s)) => if s == "active"@ || s == "subscribed"@ {
            SubscriberStatus::Approved
        } else if s == "unsubscribed"@ || s == "cancelled"@ {
            SubscriberStatus::Declined
        } else {
            SubscriberStatus::Pending
        },
        (MigrationSource::Substack, Some(s)) => if s == "active"@ || s == "subscribed"@ {
            SubscriberStatus::Approved
        } else if s == "unsubscribed"@ {
            SubscriberStatus::Declined
        } else {
            SubscriberStatus::Pending
        },
        (MigrationSource::Beehiiv, Some(s)) => if s == "active"@ || s == "subscribed"@ {
            SubscriberStatus::Approved
        } else if s == "unsubscribed"@ {
            SubscriberStatus::Declined
        } else {
            SubscriberStatus::Pending
        },
        (_, Some(s)) => if s == "active"@ || s == "subscribed"@ || s == "approved"@ {
            SubscriberStatus::Approved
        } else if s == "unsubscribed"@ || s == "declined"@ || s == "cancelled"@ {
            SubscriberStatus::Declined
        } else {
            SubscriberStatus::Pending
        },
        (_, None) => SubscriberStatus::Pending,
    }
}

/// The status for a lower-cased status text.
pub fn status_for_lowercase(source: MigrationSource, status: Option<&str>) -> (res: SubscriberStatus)
    ensures
        res == status_for(source, match status { Some(s) => Some(s@), None => None }),
{
    match status {
        None => SubscriberStatus::Pending,
        Some(s) => {
            let subscribed = str_eq(s, "subscribed");
            let active = str_eq(s, "active");
            let unsubscribed = str_eq(s, "unsubscribed");
            let cancelled = str_eq(s, "cancelled");
            match source {
                MigrationSource::Mailchimp => if subscribed {
                    SubscriberStatus::Approved
                } else if unsubscribed || str_eq(s, "cleaned") {
                    SubscriberStatus::Declined
                } else {
                    SubscriberStatus::Pending
                },
                MigrationSource::ConvertKit => if active || subscribed {
                    SubscriberStatus::Approved
                } else if unsubscribed || cancelled {
                    SubscriberStatus::Declined
                } else {
                    SubscriberStatus::Pending
                },
                MigrationSource::Substack | MigrationSource::Beehiiv => if active || subscribed {
                    SubscriberStatus::Approved
                } else if unsubscribed {
                    SubscriberStatus::Declined
                } else {
                    SubscriberStatus::Pending
                },
                _ => if active || subscribed || str_eq(s, "approved") {
                    SubscriberStatus::Approved
                } else if unsubscribed || str_eq(s, "declined") || cancelled {
                    SubscriberStatus::Declined
                } else {
                    SubscriberStatus::Pending
                },
            }
        },
    }
}

/// Map external status to internal status, ignoring case.
pub fn map_subscriber_status(status: &Option<String>, source: MigrationSource) -> (res: SubscriberStatus)
    ensures
        res == status_for(source, match *status { Some(s) => Some(lowercase(s@)), None => None }),
{
    match status {
        Some(s) => {
            let lower = to_lowercase(s.as_str());
            status_for_lowercase(source, Some(lower.as_str()))
        },
        None => status_for_lowercase(source, None),
    }
}

/// Whatever the source, `subscribed` and `active` count as approved except
/// that Mailchimp knows no `active`, `unsubscribed` as declined, and a
/// missing status as pending.
pub proof fn law_status_mapping(source: MigrationSource)
    ensures
        status_for(source, Some("subscribed"@)) == SubscriberStatus::Approved,
        source != MigrationSource::Mailchimp ==> status_for(source, Some("active"@)) == SubscriberStatus::Approved,
        status_for(source, Some("unsubscribed"@)) == SubscriberStatus::Declined,
        status_for(source, None) == SubscriberStatus::Pending,
{
    law_status_words(source, "subscribed"@);
}

/// The status words of the exports, as lower-cased text.
pub open spec fn status_words() -> Seq<Seq<char>> {
    seq!["subscribed"@, "unsubscribed"@, "active"@, "cleaned"@, "cancelled"@, "approved"@, "declined"@]
}

proof fn lemma_status_words_differ()
    ensures
        forall|i: int, j: int| 0 <= i < j < status_words().len() ==> #[trigger] status_words()[i] != #[trigger] status_words()[j],
{
    reveal_strlit("subscribed");
    reveal_strlit("unsubscribed");
    reveal_strlit("active");
    reveal_strlit("cleaned");
    reveal_strlit("cancelled");
    reveal_strlit("approved");
    reveal_strlit("declined");
    let w = status_words();
    assert(w.len() == 7);
    assert(w[0] == "subscribed"@ && w[1] == "unsubscribed"@ && w[2] == "active"@ && w[3] == "cleaned"@
        && w[4] == "cancelled"@ && w[5] == "approved"@ && w[6] == "declined"@);
    assert(w[5][0] != w[6][0]);
    assert forall|i: int, j: int| 0 <= i < j < w.len() implies #[trigger] w[i] != #[trigger] w[j] by {
        if i == 5 && j == 6 {
        } else {
            assert(w[i].len() != w[j].len());
        }
    }
}

/// Each service's own status words, every one of them: Mailchimp's
/// `subscribed` is approved and its `unsubscribed` and `cleaned` declined
/// (it has no `active`); ConvertKit's `active` and `subscribed` are
/// approved and its `unsubscribed` and `cancelled` declined; Substack and
/// Beehiiv approve `active` and `subscribed`, decline `unsubscribed` and
/// know no `cancelled`; CSV and JSON exports also approve `approved` and
/// decline `declined` and `cancelled`. Any word that is not one of these
/// leaves a subscriber pending, whatever the source.
pub proof fn law_status_words(source: MigrationSource, other: Seq<char>)
    ensures
        status_for(MigrationSource::Mailchimp, Some("subscribed"@)) == SubscriberStatus::Approved,
        status_for(MigrationSource::Mailchimp, Some("unsubscribed"@)) == SubscriberStatus::Declined,
        status_for(MigrationSource::Mailchimp, Some("cleaned"@)) == SubscriberStatus::Declined,
        status_for(MigrationSource::Mailchimp, Some("active"@)) == SubscriberStatus::Pending,
        status_for(MigrationSource::Mailchimp, Some("cancelled"@)) == SubscriberStatus::Pending,
        status_for(MigrationSource::ConvertKit, Some("active"@)) == SubscriberStatus::Approved,
        status_for(MigrationSource::ConvertKit, Some("subscribed"@)) == SubscriberStatus::Approved,
        status_for(MigrationSource::ConvertKit, Some("unsubscribed"@)) == SubscriberStatus::Declined,
        status_for(MigrationSource::ConvertKit, Some("cancelled"@)) == SubscriberStatus::Declined,
        status_for(MigrationSource::ConvertKit, Some("cleaned"@)) == SubscriberStatus::Pending,
        status_for(MigrationSource::Substack, Some("active"@)) == SubscriberStatus::Approved,
        status_for(MigrationSource::Substack, Some("subscribed"@)) == SubscriberStatus::Approved,
        status_for(MigrationSource::Substack, Some("unsubscribed"@)) == SubscriberStatus::Declined,
        status_for(MigrationSource::Substack, Some("cancelled"@)) == SubscriberStatus::Pending,
        status_for(MigrationSource::Beehiiv, Some("active"@)) == SubscriberStatus::Approved,
        status_for(MigrationSource::Beehiiv, Some("subscribed"@)) == SubscriberStatus::Approved,
        status_for(MigrationSource::Beehiiv, Some("unsubscribed"@)) == SubscriberStatus::Declined,
        status_for(MigrationSource::Beehiiv, Some("cancelled"@)) == SubscriberStatus::Pending,
        source == MigrationSource::Generic || source == MigrationSource::Json ==> {
            &&& status_for(source, Some("active"@)) == SubscriberStatus::Approved
            &&& status_for(source, Some("subscribed"@)) == SubscriberStatus::Approved
            &&& status_for(source, Some("approved"@)) == SubscriberStatus::Approved
            &&& status_for(source, Some("unsubscribed"@)) == SubscriberStatus::Declined
            &&& status_for(source, Some("declined"@)) == SubscriberStatus::Declined
            &&& status_for(source, Some("cancelled"@)) == SubscriberStatus::Declined
            &&& status_for(source, Some("cleaned"@)) == SubscriberStatus::Pending
        },
        !status_words().contains(other) ==> status_for(source, Some(other)) == SubscriberStatus::Pending,
        status_for(source, None) == SubscriberStatus::Pending,
{
    lemma_status_words_differ();
    let w = status_words();
    assert(w[0] == "subscribed"@ && w[1] == "unsubscribed"@ && w[2] == "active"@ && w[3] == "cleaned"@
        && w[4] == "cancelled"@ && w[5] == "approved"@ && w[6] == "declined"@);
    if !w.contains(other) {
        assert(other != w[0] && other != w[1] && other != w[2] && other != w[3] && other != w[4]
            && other != w[5] && other != w[6]) by {
            if other == w[0] { assert(w.contains(other)); }
            if other == w[1] { assert(w.contains(other)); }
            if other == w[2] { assert(w.contains(other)); }
            if other == w[3] { assert(w.contains(other)); }
            if other == w[4] { assert(w.contains(other)); }
            if other == w[5] { assert(w.contains(other)); }
            if other == w[6] { assert(w.contains(other)); }
        }
    }
}

// ---------------------------------------------------------------------------
// Dates
// ---------------------------------------------------------------------------

/// What `chrono::NaiveDateTime::parse_from_str(s, fmt)` gives, read as UTC.
pub uninterp spec fn naive_datetime_parse(s: Seq<char>, fmt: Seq<char>) -> Option<Timestamp>;

/// What `chrono::NaiveDate::parse_from_str(s, fmt)` gives, at midnight UTC.
pub uninterp spec fn naive_date_parse(s: Seq<char>, fmt: Seq<char>) -> Option<Timestamp>;

/// What `chrono::DateTime::parse_from_rfc3339(s)` gives, moved to UTC.
pub uninterp spec fn rfc3339_parse(s: Seq<char>) -> Option<Timestamp>;

/// Parses a date and time with a `chrono` format and reads it as UTC. The
/// result is named `naive_datetime_parse`; the format language is chrono's.
#[verifier::external_body]
pub(crate) fn parse_naive_datetime(s: &str, fmt: &str) -> (res: Option<Timestamp>)
    ensures
        res == naive_datetime_parse(s@, fmt@),
{
    match chrono::NaiveDateTime::parse_from_str(s, fmt) {
        Ok(dt) => {
            let u = dt.and_utc();
            Some(Timestamp { secs: u.timestamp(), nanos: u.timestamp_subsec_nanos() })
        },
        Err(_) => None,
    }
}

/// Parses a date with a `chrono` format, taken at midnight UTC. The result
/// is named `naive_date_parse`.
#[verifier::external_body]
fn parse_naive_date(s: &str, fmt: &str) -> (res: Option<Timestamp>)
    ensures
        res == naive_date_parse(s@, fmt@),
{
    match chrono::NaiveDate::parse_from_str(s, fmt) {
        Ok(d) => {
            let u = d.and_time(chrono::NaiveTime::MIN).and_utc();
            Some(Timestamp { secs: u.timestamp(), nanos: u.timestamp_subsec_nanos() })
        },
        Err(_) => None,
    }
}

/// Parses an RFC 3339 date and time and moves it to UTC. The result is
/// named `rfc3339_parse`.
#[verifier::external_body]
fn parse_rfc3339(s: &str) -> (res: Option<Timestamp>)
    ensures
        res == rfc3339_parse(s@),
{
    match chrono::DateTime::parse_from_rfc3339(s) {
        Ok(dt) => {
            let u = dt.with_timezone(&chrono::Utc);
            Some(Timestamp { secs: u.timestamp(), nanos: u.timestamp_subsec_nanos() })
        },
        Err(_) => None,
    }
}

/// The date formats tried, in order.
pub open spec fn date_formats() -> Seq<Seq<char>> {
    seq![
        "%Y-%m-%d %H:%M:%S"@,
        "%Y-%m-%dT%H:%M:%S"@,
        "%Y-%m-%dT%H:%M:%SZ"@,
        "%Y-%m-%dT%H:%M:%S%.3fZ"@,
        "%Y-%m-%d"@,
        "%m/%d/%Y"@,
        "%d/%m/%Y"@,
        "%m-%d-%Y"@,
        "%d-%m-%Y"@,
    ]
}

/// The first reading of `s` from format `k` on: for each format a date and
/// time, then a date alone; after the formats, RFC 3339.
pub open spec fn date_from(s: Seq<char>, k: int) -> Option<Timestamp>
    decreases 9 - k,
{
    if k < 0 || k >= 9 {
        rfc3339_parse(s)
    } else if naive_datetime_parse(s, date_formats()[k]) is Some {
        naive_datetime_parse(s, date_formats()[k])
    } else if naive_date_parse(s, date_formats()[k]) is Some {
        naive_date_parse(s, date_formats()[k])
    } else {
        date_from(s, k + 1)
    }
}

/// Parse date string in various formats.
pub fn parse_date(date_str: &str) -> (res: Option<Timestamp>)
    ensures
        res == date_from(date_str@, 0),
{
    let formats: Vec<&str> = vec![
        "%Y-%m-%d %H:%M:%S",
        "%Y-%m-%dT%H:%M:%S",
        "%Y-%m-%dT%H:%M:%SZ",
        "%Y-%m-%dT%H:%M:%S%.3fZ",
        "%Y-%m-%d",
        "%m/%d/%Y",
        "%d/%m/%Y",
        "%m-%d-%Y",
        "%d-%m-%Y",
    ];
    let mut k: usize = 0;
    while k < 9
        invariant
            k <= 9,
            formats@.len() == 9,
            forall|j: int| 0 <= j < 9 ==> #[trigger] formats@[j]@ == date_formats()[j],
            date_from(date_str@, 0) == date_from(date_str@, k as int),
        decreases 9 - k,
    {
        let f = formats[k];
        let dt = parse_naive_datetime(date_str, f);
        if dt.is_some() {
            return dt;
        }
        let d = parse_naive_date(date_str, f);
        if d.is_some() {
            return d;
        }
        k += 1;
    }
    parse_rfc3339(date_str)
}

// ---------------------------------------------------------------------------
// Subscribers from rows
// ---------------------------------------------------------------------------

/// A subscriber as read from an export, before it becomes a subscriber.
#[derive(Debug)]
pub struct ImportedSubscriber {
    pub email: String,
    pub name: Option<String>,
    pub status: Option<String>,
    pub subscribed_at: Option<Timestamp>,
    pub tags: Vec<String>,
    pub custom_fields: Vec<(String, String)>,
}

/// An imported subscriber as plain values.
pub struct ImportedView {
    pub email: Seq<char>,
    pub name: Option<Seq<char>>,
    pub status: Option<Seq<char>>,
    pub subscribed_at: Option<Timestamp>,
    pub tags: Seq<Seq<char>>,
    pub custom_fields: Seq<(Seq<char>, Seq<char>)>,
}

/// The plain values of an imported subscriber.
pub open spec fn imported_view(i: ImportedSubscriber) -> ImportedView {
    ImportedView {
        email: i.email@,
        name: opt_view(i.name),
        status: opt_view(i.status),
        subscribed_at: i.subscribed_at,
        tags: string_views(i.tags@),
        custom_fields: fields_view(i.custom_fields@),
    }
}

/// Why a row gives no subscriber.
pub enum RowError {
    MissingEmail,
    InvalidEmail(Seq<char>),
}

/// The non-standard fields with a value, in order.
pub open spec fn custom_fields_of(m: Seq<(Seq<char>, Seq<char>)>, c: MigrationConfig) -> Seq<(Seq<char>, Seq<char>)>
    decreases m.len(),
{
    if m.len() == 0 {
        m
    } else {
        let r = custom_fields_of(m.drop_last(), c);
        if !is_standard(c, m.last().0) && m.last().1.len() > 0 {
            r.push(m.last())
        } else {
            r
        }
    }
}

/// The subscriber a field map describes: the email is required and must
/// hold an `@`; name, status, date and tags are optional; a date that no
/// format reads is left out; the tags are comma separated; the other
/// non-empty fields are kept as custom fields.
pub open spec fn subscriber_of(m: Seq<(Seq<char>, Seq<char>)>, c: MigrationConfig) -> Result<ImportedView, RowError> {
    let email = field_value(m, column_of(c, Column::Email), "email"@);
    match email {
        None => Err(RowError::MissingEmail),
        Some(e) => if !e.contains('@') {
            Err(RowError::InvalidEmail(e))
        } else {
            let date = field_value(m, column_of(c, Column::Date), "date"@);
            let tags = field_value(m, column_of(c, Column::Tags), "tags"@);
            Ok(ImportedView {
                email: e,
                name: field_value(m, column_of(c, Column::Name), "name"@),
                status: field_value(m, column_of(c, Column::Status), "status"@),
                subscribed_at: match date {
                    Some(d) => date_from(d, 0),
                    None => None,
                },
                tags: match tags {
                    Some(t) => tags_of(t),
                    None => Seq::empty(),
                },
                custom_fields: custom_fields_of(m, c),
            })
        },
    }
}

fn custom_fields(fields: &Vec<(String, String)>, config: &MigrationConfig) -> (res: Vec<(String, String)>)
    ensures
        fields_view(res@) == custom_fields_of(fields_view(fields@), *config),
{
    let ghost fv = fields_view(fields@);
    let mut res: Vec<(String, String)> = Vec::new();
    let mut i: usize = 0;
    while i < fields.len()
        invariant
            i <= fields@.len(),
            fv == fields_view(fields@),
            fields_view(res@) == custom_fields_of(fv.take(i as int), *config),
        decreases fields.len() - i,
    {
        assert(fv.take(i + 1).drop_last() =~= fv.take(i as int));
        assert(fv.take(i + 1).last() == fv[i as int]);
        let ghost before = fields_view(res@);
        if !is_standard_field(fields[i].0.as_str(), config) && fields[i].1.as_str().unicode_len() > 0 {
            let e = (fields[i].0.clone(), fields[i].1.clone());
            res.push(e);
            assert(fields_view(res@) =~= before.push(fv[i as int]));
        }
        i += 1;
    }
    assert(fv.take(fields@.len() as int) =~= fv);
    res
}

/// Extract subscriber data from field mapping.
pub fn extract_subscriber_from_fields(fields: &Vec<(String, String)>, config: &MigrationConfig) -> (res: Result<ImportedSubscriber, MigrationError>)
    ensures
        match subscriber_of(fields_view(fields@), *config) {
            Ok(v) => res matches Ok(imp) && imported_view(imp) == v,
            Err(RowError::MissingEmail) => res matches Err(MigrationError::MissingEmail),
            Err(RowError::InvalidEmail(e)) => res matches Err(MigrationError::InvalidEmail(g)) && g@ == e,
        },
{
    let email = match get_field_value(fields, &config.email_column, "email") {
        Some(e) => e,
        None => {
            return Err(MigrationError::MissingEmail);
        },
    };
    let ev = chars_of(email.as_str());
    if !crate::text::contains_char(&ev, '@') {
        return Err(MigrationError::InvalidEmail(email));
    }
    let name = get_field_value(fields, &config.name_column, "name");
    let status = get_field_value(fields, &config.status_column, "status");
    let date_str = get_field_value(fields, &config.date_column, "date");
    let tags_str = get_field_value(fields, &config.tags_column, "tags");
    let subscribed_at = match &date_str {
        Some(d) => parse_date(d.as_str()),
        None => None,
    };
    let tags = match &tags_str {
        Some(t) => Utils::parse_tags(t.as_str()),
        None => Vec::new(),
    };
    let custom = custom_fields(fields, config);
    let imp = ImportedSubscriber { email, name, status, subscribed_at, tags, custom_fields: custom };
    assert(tags_str is None ==> string_views(imp.tags@) =~= Seq::<Seq<char>>::empty());
    Ok(imp)
}

/// The field map of a row: by header when there are headers (a header
/// without a value is left out), else by position (`"0"`, `"1"`, ...).
pub open spec fn row_map(headers: Seq<Seq<char>>, fields: Seq<Seq<char>>) -> Seq<(Seq<char>, Seq<char>)> {
    if headers.len() > 0 {
        header_map(headers, fields, headers.len())
    } else {
        position_map(fields, fields.len())
    }
}

/// The field map from the first `n` headers.
pub open spec fn header_map(headers: Seq<Seq<char>>, fields: Seq<Seq<char>>, n: nat) -> Seq<(Seq<char>, Seq<char>)>
    decreases n,
{
    if n == 0 {
        Seq::empty()
    } else {
        let m = header_map(headers, fields, (n - 1) as nat);
        if n - 1 < fields.len() {
            map_insert(m, headers[n - 1], fields[n - 1])
        } else {
            m
        }
    }
}

/// The field map from the first `n` fields, keyed by position.
pub open spec fn position_map(fields: Seq<Seq<char>>, n: nat) -> Seq<(Seq<char>, Seq<char>)>
    decreases n,
{
    if n == 0 {
        Seq::empty()
    } else {
        map_insert(position_map(fields, (n - 1) as nat), dec((n - 1) as nat), fields[n - 1])
    }
}

/// The field map of a CSV row.
pub fn row_fields(headers: &Vec<String>, fields: &Vec<String>) -> (res: Vec<(String, String)>)
    ensures
        fields_view(res@) == row_map(string_views(headers@), string_views(fields@)),
{
    let ghost hv = string_views(headers@);
    let ghost fv = string_views(fields@);
    let mut m: Vec<(String, String)> = Vec::new();
    if headers.len() > 0 {
        let mut i: usize = 0;
        while i < headers.len()
            invariant
                i <= headers@.len(),
                hv == string_views(headers@),
                fv == string_views(fields@),
                fields_view(m@) == header_map(hv, fv, i as nat),
            decreases headers.len() - i,
        {
            if i < fields.len() {
                field_insert(&mut m, headers[i].clone(), fields[i].clone());
            }
            i += 1;
        }
    } else {
        let mut i: usize = 0;
        while i < fields.len()
            invariant
                i <= fields@.len(),
                fv == string_views(fields@),
                fields_view(m@) == position_map(fv, i as nat),
            decreases fields.len() - i,
        {
            let mut key = String::new();
            push_dec(&mut key, i as u128);
            field_insert(&mut m, key, fields[i].clone());
            i += 1;
        }
    }
    m
}

/// Parse a CSV subscriber from line and headers.
pub fn parse_csv_subscriber(line: &str, headers: &Vec<String>, config: &MigrationConfig) -> (res: Result<ImportedSubscriber, MigrationError>)
    ensures
        match subscriber_of(row_map(string_views(headers@), csv_fields(line@, config.delimiter)), *config) {
            Ok(v) => res matches Ok(imp) && imported_view(imp) == v,
            Err(RowError::MissingEmail) => res matches Err(MigrationError::MissingEmail),
            Err(RowError::InvalidEmail(e)) => res matches Err(MigrationError::InvalidEmail(g)) && g@ == e,
        },
{
    let fields = parse_csv_line(line, config.delimiter);
    let m = row_fields(headers, &fields);
    extract_subscriber_from_fields(&m, config)
}

// ---------------------------------------------------------------------------
// Subscribers from imported rows
// ---------------------------------------------------------------------------

/// The `Debug` text of a string: quoted, with escapes.
pub uninterp spec fn debug_quoted(s: Seq<char>) -> Seq<char>;

/// Formats a string with `Debug` (`format!("{:?}", s)`). The result is
/// named `debug_quoted`; std's escaping rules are not restated.
#[verifier::external_body]
fn debug_text(s: &str) -> (res: String)
    ensures
        res@ == debug_quoted(s@),
{
    format!("{:?}", s)
}

/// One entry of a map as `Debug` shows it.
pub open spec fn debug_entry(e: (Seq<char>, Seq<char>)) -> Seq<char> {
    debug_quoted(e.0) + ": "@ + debug_quoted(e.1)
}

/// A field map as the `Debug` form of a map shows it, entries in order.
pub open spec fn debug_fields(m: Seq<(Seq<char>, Seq<char>)>) -> Seq<char> {
    "{"@ + join(m.map_values(|e: (Seq<char>, Seq<char>)| debug_entry(e)), ", "@) + "}"@
}

/// The notes kept with an imported subscriber: where it came from, its
/// tags and its custom fields.
pub open spec fn migration_notes(
    source: MigrationSource,
    tags: Seq<Seq<char>>,
    custom: Seq<(Seq<char>, Seq<char>)>,
) -> Seq<char> {
    "Migrated from "@ + source_label(source)
        + (if tags.len() > 0 { " | Tags: "@ + join(tags, ", "@) } else { Seq::empty() })
        + (if custom.len() > 0 { " | Custom fields: "@ + debug_fields(custom) } else { Seq::empty() })
}

fn debug_fields_text(m: &Vec<(String, String)>) -> (res: String)
    ensures
        res@ == debug_fields(fields_view(m@)),
{
    let ghost fv = fields_view(m@);
    let ghost entries = fv.map_values(|e: (Seq<char>, Seq<char>)| debug_entry(e));
    let mut parts: Vec<Vec<char>> = Vec::new();
    let mut i: usize = 0;
    while i < m.len()
        invariant
            i <= m@.len(),
            fv == fields_view(m@),
            entries == fv.map_values(|e: (Seq<char>, Seq<char>)| debug_entry(e)),
            views(parts@) == entries.take(i as int),
        decreases m.len() - i,
    {
        let mut t = debug_text(m[i].0.as_str());
        push_str(&mut t, ": ");
        let v = debug_text(m[i].1.as_str());
        push_str(&mut t, v.as_str());
        let tv = chars_of(t.as_str());
        let ghost before = views(parts@);
        parts.push(tv);
        assert(views(parts@) =~= before.push(entries[i as int]));
        assert(entries.take(i + 1) =~= entries.take(i as int).push(entries[i as int]));
        i += 1;
    }
    assert(entries.take(m@.len() as int) =~= entries);
    let sep = chars_of(", ");
    let body = crate::text::join_all(&parts, &sep);
    let mut res = String::new();
    push_str(&mut res, "{");
    push_str(&mut res, body.as_str());
    push_str(&mut res, "}");
    res
}

/// The notes for an imported subscriber.
pub fn migration_notes_text(source: MigrationSource, tags: &Vec<String>, custom: &Vec<(String, String)>) -> (res: String)
    ensures
        res@ == migration_notes(source, string_views(tags@), fields_view(custom@)),
{
    let mut notes = String::new();
    push_str(&mut notes, "Migrated from ");
    push_str(&mut notes, source.label());
    let ghost n1 = notes@;
    if tags.len() > 0 {
        push_str(&mut notes, " | Tags: ");
        let j = join_strings(tags, ", ");
        push_str(&mut notes, j.as_str());
    }
    let ghost n2 = notes@;
    if custom.len() > 0 {
        push_str(&mut notes, " | Custom fields: ");
        let d = debug_fields_text(custom);
        push_str(&mut notes, d.as_str());
    }
    assert(notes@ =~= migration_notes(source, string_views(tags@), fields_view(custom@)));
    notes
}

/// Convert imported subscriber to database subscriber: the status mapped
/// from the export, the subscription date kept (or now when there is
/// none), approval at that date for approved subscribers, and the origin
/// in the notes and the source id.
pub fn import_subscriber(imported: &ImportedSubscriber, source: MigrationSource) -> (res: Subscriber)
    ensures
        res.id == Some(0i64),
        res.email@ == imported.email@,
        res.status == status_for(source, match imported.status { Some(s) => Some(lowercase(s@)), None => None }),
        imported.subscribed_at is Some ==> res.subscribed_at == imported.subscribed_at.unwrap(),
        res.approved_at == if res.status == SubscriberStatus::Approved { Some(res.subscribed_at) } else { None },
        opt_view(res.source_email_id) == Some("migration-"@ + source_label(source)),
        opt_view(res.notes) == Some(migration_notes(source, string_views(imported.tags@), fields_view(imported.custom_fields@))),
{
    let status = map_subscriber_status(&imported.status, source);
    let subscribed_at = match imported.subscribed_at {
        Some(t) => t,
        None => now(),
    };
    let notes = migration_notes_text(source, &imported.tags, &imported.custom_fields);
    let mut sid = String::new();
    push_str(&mut sid, "migration-");
    push_str(&mut sid, source.label());
    Subscriber {
        id: Some(0i64),
        email: imported.email.clone(),
        status,
        subscribed_at,
        approved_at: if status == SubscriberStatus::Approved { Some(subscribed_at) } else { None },
        source_email_id: Some(sid),
        notes: Some(notes),
    }
}

// ---------------------------------------------------------------------------
// Whole CSV exports
// ---------------------------------------------------------------------------

/// The header fields of an export's lines.
pub open spec fn csv_header(lines: Seq<Seq<char>>, c: MigrationConfig) -> Seq<Seq<char>> {
    if c.skip_header && lines.len() > 0 {
        csv_fields(lines[0], c.delimiter)
    } else {
        Seq::empty()
    }
}

/// The data lines of an export.
pub open spec fn csv_data(lines: Seq<Seq<char>>, c: MigrationConfig) -> Seq<Seq<char>> {
    if c.skip_header && lines.len() > 0 {
        lines.skip(1)
    } else {
        lines
    }
}

/// What a data line gives.
pub open spec fn row_result(line: Seq<char>, headers: Seq<Seq<char>>, c: MigrationConfig) -> Result<ImportedView, RowError> {
    subscriber_of(row_map(headers, csv_fields(line, c.delimiter)), c)
}

/// The subscribers of the first data lines: blank lines are passed over
/// and lines that give no subscriber are left out.
pub open spec fn csv_imports(data: Seq<Seq<char>>, headers: Seq<Seq<char>>, c: MigrationConfig) -> Seq<ImportedView>
    decreases data.len(),
{
    if data.len() == 0 {
        Seq::empty()
    } else {
        let r = csv_imports(data.drop_last(), headers, c);
        let l = data.last();
        if trim(l).len() == 0 {
            r
        } else {
            match row_result(l, headers, c) {
                Ok(v) => r.push(v),
                Err(_) => r,
            }
        }
    }
}

/// The numbers (from 1) of the data lines that give no subscriber.
pub open spec fn csv_failures(data: Seq<Seq<char>>, headers: Seq<Seq<char>>, c: MigrationConfig) -> Seq<nat>
    decreases data.len(),
{
    if data.len() == 0 {
        Seq::empty()
    } else {
        let r = csv_failures(data.drop_last(), headers, c);
        let l = data.last();
        if trim(l).len() > 0 && row_result(l, headers, c) is Err {
            r.push(data.len())
        } else {
            r
        }
    }
}

/// The subscribers read from an export and the lines that failed.
pub struct CsvImport {
    pub subscribers: Vec<ImportedSubscriber>,
    /// Numbers (from 1, among the data lines) of lines that gave no
    /// subscriber, with the reason.
    pub warnings: Vec<(usize, MigrationError)>,
}

/// The imported views of a vector of imported subscribers.
pub open spec fn imported_views(v: Seq<ImportedSubscriber>) -> Seq<ImportedView> {
    v.map_values(|i: ImportedSubscriber| imported_view(i))
}

/// Reads the subscribers of a CSV export's text: the header row when the
/// configuration has one, then one subscriber per non-blank data line.
pub fn parse_csv_text(content: &str, config: &MigrationConfig) -> (res: CsvImport)
    ensures
        imported_views(res.subscribers@) == csv_imports(
            csv_data(text_lines(content@), *config),
            csv_header(text_lines(content@), *config),
            *config,
        ),
        res.warnings@.map_values(|w: (usize, MigrationError)| w.0 as nat) == csv_failures(
            csv_data(text_lines(content@), *config),
            csv_header(text_lines(content@), *config),
            *config,
        ),
{
    let cv = chars_of(content);
    let lines = lines_vec(&cv);
    let ghost lv = text_lines(content@);
    let mut headers: Vec<String> = Vec::new();
    let mut start: usize = 0;
    if config.skip_header && lines.len() > 0 {
        let h = string_of(&lines[0]);
        headers = parse_csv_line(h.as_str(), config.delimiter);
        start = 1;
    }
    let ghost hv = string_views(headers@);
    let ghost data = csv_data(lv, *config);
    assert(hv == csv_header(lv, *config));
    assert(data =~= views(lines@).skip(start as int));
    let mut subs: Vec<ImportedSubscriber> = Vec::new();
    let mut warnings: Vec<(usize, MigrationError)> = Vec::new();
    let mut i: usize = start;
    while i < lines.len()
        invariant
            start <= i <= lines@.len(),
            start <= 1,
            views(lines@) == lv,
            data == lv.skip(start as int),
            hv == string_views(headers@),
            imported_views(subs@) == csv_imports(data.take(i - start), hv, *config),
            warnings@.map_values(|w: (usize, MigrationError)| w.0 as nat) == csv_failures(data.take(i - start), hv, *config),
        decreases lines.len() - i,
    {
        let ghost d1 = data.take(i + 1 - start);
        assert(d1.drop_last() =~= data.take(i - start));
        assert(d1.last() == lines@[i as int]@);
        assert(d1.len() == i + 1 - start);
        let t = trim_vec(&lines[i]);
        if t.len() > 0 {
            let line = string_of(&lines[i]);
            let ghost before_s = imported_views(subs@);
            let ghost before_w = warnings@.map_values(|w: (usize, MigrationError)| w.0 as nat);
            match parse_csv_subscriber(line.as_str(), &headers, config) {
                Ok(s) => {
                    subs.push(s);
                    assert(imported_views(subs@) =~= before_s.push(imported_view(s)));
                },
                Err(e) => {
                    let num = i + 1 - start;
                    warnings.push((num, e));
                    assert(warnings@.map_values(|w: (usize, MigrationError)| w.0 as nat) =~= before_w.push(num as nat));
                },
            }
        }
        i += 1;
    }
    assert(data.take(lines@.len() - start) =~= data);
    CsvImport { subscribers: subs, warnings }
}

// ---------------------------------------------------------------------------
// Import tallies
// ---------------------------------------------------------------------------

/// The tally of an import run.
pub struct MigrationResult {
    pub total_processed: usize,
    pub successfully_imported: usize,
    pub skipped_duplicates: usize,
    pub errors: Vec<String>,
    pub imported_subscribers: Vec<Subscriber>,
}

impl MigrationResult {
    /// An empty tally for `total` rows.
    pub fn new(total: usize) -> (res: MigrationResult)
        ensures
            res.total_processed == total,
            res.successfully_imported == 0,
            res.skipped_duplicates == 0,
            res.errors@.len() == 0,
            res.imported_subscribers@.len() == 0,
    {
        MigrationResult {
            total_processed: total,
            successfully_imported: 0,
            skipped_duplicates: 0,
            errors: Vec::new(),
            imported_subscribers: Vec::new(),
        }
    }

    /// Counts a subscriber that was already known.
    pub fn record_duplicate(&mut self)
        requires
            old(self).skipped_duplicates < usize::MAX,
        ensures
            final(self).skipped_duplicates == old(self).skipped_duplicates + 1,
            final(self).successfully_imported == old(self).successfully_imported,
            final(self).total_processed == old(self).total_processed,
            final(self).errors@ == old(self).errors@,
            final(self).imported_subscribers@ == old(self).imported_subscribers@,
    {
        self.skipped_duplicates = self.skipped_duplicates + 1;
    }

    /// Counts and keeps a subscriber that was stored.
    pub fn record_imported(&mut self, subscriber: Subscriber)
        requires
            old(self).successfully_imported < usize::MAX,
        ensures
            final(self).successfully_imported == old(self).successfully_imported + 1,
            final(self).imported_subscribers@ == old(self).imported_subscribers@.push(subscriber),
            final(self).skipped_duplicates == old(self).skipped_duplicates,
            final(self).total_processed == old(self).total_processed,
            final(self).errors@ == old(self).errors@,
    {
        self.successfully_imported = self.successfully_imported + 1;
        self.imported_subscribers.push(subscriber);
    }

    /// Records an error message.
    pub fn record_error(&mut self, message: String)
        ensures
            final(self).errors@ == old(self).errors@.push(message),
            final(self).successfully_imported == old(self).successfully_imported,
            final(self).skipped_duplicates == old(self).skipped_duplicates,
            final(self).total_processed == old(self).total_processed,
            final(self).imported_subscribers@ == old(self).imported_subscribers@,
    {
        self.errors.push(message);
    }
}

/// The message for a subscriber that could not be stored.
pub fn save_failure_message(email: &str, detail: &str) -> (res: String)
    ensures
        res@ == "Failed to save "@ + email@ + ": "@ + detail@,
{
    let mut m = String::new();
    push_str(&mut m, "Failed to save ");
    push_str(&mut m, email);
    push_str(&mut m, ": ");
    push_str(&mut m, detail);
    m
}

/// The message for a failed duplicate check.
pub fn database_failure_message(email: &str, detail: &str) -> (res: String)
    ensures
        res@ == "Database error for "@ + email@ + ": "@ + detail@,
{
    let mut m = String::new();
    push_str(&mut m, "Database error for ");
    push_str(&mut m, email);
    push_str(&mut m, ": ");
    push_str(&mut m, detail);
    m
}

// ---------------------------------------------------------------------------
// JSON exports
// ---------------------------------------------------------------------------

/// A member value of an object in a JSON export, as far as the importer
/// reads it: a string, a number as JSON writes it, a boolean, a list (with
/// the text of each item that is a string), or anything else.
pub enum JsonField {
    Str(String),
    Num(String),
    Bool(bool),
    List(Vec<Option<String>>),
    Other,
}

/// A JSON export: a list whose items are objects (their members in order)
/// or other values (`None`), one object, or any other value.
pub enum JsonExport {
    List(Vec<Option<Vec<(String, JsonField)>>>),
    One(Vec<(String, JsonField)>),
    Other,
}

/// A member value as plain values.
pub enum JsonFieldView {
    Str(Seq<char>),
    Num(Seq<char>),
    Bool(bool),
    List(Seq<Option<Seq<char>>>),
    Other,
}

/// A JSON export as plain values.
pub enum JsonExportView {
    List(Seq<Option<Seq<(Seq<char>, JsonFieldView)>>>),
    One(Seq<(Seq<char>, JsonFieldView)>),
    Other,
}

/// The views of optional strings.
pub open spec fn opt_views(v: Seq<Option<String>>) -> Seq<Option<Seq<char>>> {
    v.map_values(|o: Option<String>| opt_view(o))
}

/// The plain values of a member value.
pub open spec fn json_field_view(f: JsonField) -> JsonFieldView {
    match f {
        JsonField::Str(s) => JsonFieldView::Str(s@),
        JsonField::Num(s) => JsonFieldView::Num(s@),
        JsonField::Bool(b) => JsonFieldView::Bool(b),
        JsonField::List(l) => JsonFieldView::List(opt_views(l@)),
        JsonField::Other => JsonFieldView::Other,
    }
}

/// The plain values of an object's members.
pub open spec fn json_members_view(m: Seq<(String, JsonField)>) -> Seq<(Seq<char>, JsonFieldView)> {
    m.map_values(|e: (String, JsonField)| (e.0@, json_field_view(e.1)))
}

/// The plain values of a list item.
pub open spec fn json_item_view(i: Option<Vec<(String, JsonField)>>) -> Option<Seq<(Seq<char>, JsonFieldView)>> {
    match i {
        Some(m) => Some(json_members_view(m@)),
        None => None,
    }
}

/// The plain values of an export.
pub open spec fn json_export_view(e: JsonExport) -> JsonExportView {
    match e {
        JsonExport::List(items) => JsonExportView::List(
            items@.map_values(|i: Option<Vec<(String, JsonField)>>| json_item_view(i)),
        ),
        JsonExport::One(m) => JsonExportView::One(json_members_view(m@)),
        JsonExport::Other => JsonExportView::Other,
    }
}

/// What `serde_json::from_str` reads from a text as a `serde_json::Value`,
/// in the library's form; `None` where the text is not JSON.
pub uninterp spec fn json_export(text: Seq<char>) -> Option<JsonExportView>;

/// The library's form of a JSON value that is an object member: one arm
/// per variant of `serde_json::Value` (a number by its `Display`, a list by
/// `Value::as_str` of each item). It claims nothing; `read_json_export`
/// states what an export is.
#[verifier::external_body]
fn json_field_of(v: &serde_json::Value) -> (res: JsonField) {
    match v {
        serde_json::Value::String(s) => JsonField::Str(s.clone()),
        serde_json::Value::Number(n) => JsonField::Num(n.to_string()),
        serde_json::Value::Bool(b) => JsonField::Bool(*b),
        serde_json::Value::Array(a) => JsonField::List(a.iter().map(|x| x.as_str().map(|t| t.to_string())).collect()),
        _ => JsonField::Other,
    }
}

/// An object member in the library's form. It claims nothing.
#[verifier::external_body]
fn json_member_of(kv: (&String, &serde_json::Value)) -> (res: (String, JsonField)) {
    (kv.0.clone(), json_field_of(kv.1))
}

/// A list item in the library's form: its members when it is an object,
/// `None` otherwise. It claims nothing.
#[verifier::external_body]
fn json_item_of(v: &serde_json::Value) -> (res: Option<Vec<(String, JsonField)>>) {
    match v {
        serde_json::Value::Object(o) => Some(o.iter().map(json_member_of).collect()),
        _ => None,
    }
}

/// Reads a JSON export with `serde_json::from_str` into a
/// `serde_json::Value` and hands it over in the library's form; `None`
/// where serde_json reports an error. The result is named `json_export`;
/// JSON's grammar and serde_json's reading of numbers are not restated.
#[verifier::external_body]
pub fn read_json_export(text: &str) -> (res: Option<JsonExport>)
    ensures
        match res {
            Some(e) => json_export(text@) == Some(json_export_view(e)),
            None => json_export(text@) is None,
        },
{
    match serde_json::from_str::<serde_json::Value>(text) {
        Ok(serde_json::Value::Array(items)) => Some(JsonExport::List(items.iter().map(json_item_of).collect())),
        Ok(serde_json::Value::Object(o)) => Some(JsonExport::One(o.iter().map(json_member_of).collect())),
        Ok(_) => Some(JsonExport::Other),
        Err(_) => None,
    }
}

/// The texts of the items that are strings, in order.
pub open spec fn present_texts(l: Seq<Option<Seq<char>>>) -> Seq<Seq<char>>
    decreases l.len(),
{
    if l.len() == 0 {
        Seq::empty()
    } else {
        let r = present_texts(l.drop_last());
        match l.last() {
            Some(t) => r.push(t),
            None => r,
        }
    }
}

/// The text a member value gives a field: strings as they are, numbers as
/// JSON writes them, `true` or `false`, the strings of a list joined with
/// commas; nothing for other values.
pub open spec fn json_field_text_spec(f: JsonFieldView) -> Option<Seq<char>> {
    match f {
        JsonFieldView::Str(s) => Some(s),
        JsonFieldView::Num(s) => Some(s),
        JsonFieldView::Bool(b) => Some(if b { "true"@ } else { "false"@ }),
        JsonFieldView::List(l) => Some(join(present_texts(l), ","@)),
        JsonFieldView::Other => None,
    }
}

/// The text a member value gives a field, if any.
pub fn json_field_text(f: &JsonField) -> (res: Option<String>)
    ensures
        opt_view(res) == json_field_text_spec(json_field_view(*f)),
{
    match f {
        JsonField::Str(s) => Some(s.clone()),
        JsonField::Num(s) => Some(s.clone()),
        JsonField::Bool(b) => {
            let mut out = String::new();
            if *b {
                push_str(&mut out, "true");
            } else {
                push_str(&mut out, "false");
            }
            Some(out)
        },
        JsonField::List(l) => {
            let mut parts: Vec<Vec<char>> = Vec::new();
            let mut i: usize = 0;
            while i < l.len()
                invariant
                    i <= l@.len(),
                    views(parts@) == present_texts(opt_views(l@).take(i as int)),
                decreases l.len() - i,
            {
                assert(opt_views(l@).take(i + 1).drop_last() =~= opt_views(l@).take(i as int));
                match &l[i] {
                    Some(t) => {
                        let ghost before = views(parts@);
                        parts.push(chars_of(t.as_str()));
                        assert(views(parts@) =~= before.push(t@));
                    },
                    None => {},
                }
                i += 1;
            }
            assert(opt_views(l@).take(l@.len() as int) =~= opt_views(l@));
            let sep: Vec<char> = vec![','];
            proof { reveal_strlit(","); }
            assert(sep@ =~= ","@);
            Some(join_all(&parts, &sep))
        },
        JsonField::Other => None,
    }
}

/// The field map of an object's members: each member with a text, in
/// order, as a map insertion does.
pub open spec fn json_object_fields(m: Seq<(Seq<char>, JsonFieldView)>) -> Seq<(Seq<char>, Seq<char>)>
    decreases m.len(),
{
    if m.len() == 0 {
        Seq::empty()
    } else {
        let r = json_object_fields(m.drop_last());
        match json_field_text_spec(m.last().1) {
            Some(t) => map_insert(r, m.last().0, t),
            None => r,
        }
    }
}

/// The field map of an object's members.
pub fn json_object_fields_of(m: &Vec<(String, JsonField)>) -> (res: Vec<(String, String)>)
    ensures
        fields_view(res@) == json_object_fields(json_members_view(m@)),
{
    let mut out: Vec<(String, String)> = Vec::new();
    let mut i: usize = 0;
    while i < m.len()
        invariant
            i <= m@.len(),
            fields_view(out@) == json_object_fields(json_members_view(m@).take(i as int)),
        decreases m.len() - i,
    {
        assert(json_members_view(m@).take(i + 1).drop_last() =~= json_members_view(m@).take(i as int));
        match json_field_text(&m[i].1) {
            Some(t) => field_insert(&mut out, m[i].0.clone(), t),
            None => {},
        }
        i += 1;
    }
    assert(json_members_view(m@).take(m@.len() as int) =~= json_members_view(m@));
    out
}

/// The field map of a list item: none for an item that is not an object.
pub open spec fn json_item_fields(i: Option<Seq<(Seq<char>, JsonFieldView)>>) -> Seq<(Seq<char>, Seq<char>)> {
    match i {
        Some(m) => json_object_fields(m),
        None => Seq::empty(),
    }
}

/// The subscribers of a list's items, in order; an item that gives no
/// subscriber is skipped.
pub open spec fn json_list_imports(items: Seq<Option<Seq<(Seq<char>, JsonFieldView)>>>, c: MigrationConfig) -> Seq<ImportedView>
    decreases items.len(),
{
    if items.len() == 0 {
        Seq::empty()
    } else {
        let r = json_list_imports(items.drop_last(), c);
        match subscriber_of(json_item_fields(items.last()), c) {
            Ok(v) => r.push(v),
            Err(_) => r,
        }
    }
}

/// What an import of a JSON export gives: for a list, the subscribers of
/// its items; for one object, its subscriber or why it gives none; for any
/// other value, an error.
pub open spec fn json_import_is(e: JsonExportView, c: MigrationConfig, res: Result<Vec<ImportedSubscriber>, MigrationError>) -> bool {
    match e {
        JsonExportView::List(items) => res matches Ok(v) && imported_views(v@) == json_list_imports(items, c),
        JsonExportView::One(m) => match subscriber_of(json_object_fields(m), c) {
            Ok(s) => res matches Ok(v) && imported_views(v@) == seq![s],
            Err(RowError::MissingEmail) => res matches Err(MigrationError::MissingEmail),
            Err(RowError::InvalidEmail(x)) => res matches Err(MigrationError::InvalidEmail(g)) && g@ == x,
        },
        JsonExportView::Other => res matches Err(MigrationError::NotSubscriberJson),
    }
}

/// The subscribers of a JSON export.
pub fn subscribers_from_json(e: &JsonExport, config: &MigrationConfig) -> (res: Result<Vec<ImportedSubscriber>, MigrationError>)
    ensures
        json_import_is(json_export_view(*e), *config, res),
{
    match e {
        JsonExport::List(items) => {
            let ghost iv = items@.map_values(|i: Option<Vec<(String, JsonField)>>| json_item_view(i));
            let mut out: Vec<ImportedSubscriber> = Vec::new();
            let mut i: usize = 0;
            while i < items.len()
                invariant
                    i <= items@.len(),
                    iv == items@.map_values(|i: Option<Vec<(String, JsonField)>>| json_item_view(i)),
                    imported_views(out@) == json_list_imports(iv.take(i as int), *config),
                decreases items.len() - i,
            {
                assert(iv.take(i + 1).drop_last() =~= iv.take(i as int));
                let fields = match &items[i] {
                    Some(m) => json_object_fields_of(m),
                    None => Vec::new(),
                };
                assert(fields_view(fields@) == json_item_fields(iv.take(i + 1).last()));
                match extract_subscriber_from_fields(&fields, config) {
                    Ok(s) => {
                        let ghost before = imported_views(out@);
                        out.push(s);
                        assert(imported_views(out@) =~= before.push(imported_view(s)));
                    },
                    Err(_) => {},
                }
                i += 1;
            }
            assert(iv.take(items@.len() as int) =~= iv);
            Ok(out)
        },
        JsonExport::One(m) => {
            let fields = json_object_fields_of(m);
            match extract_subscriber_from_fields(&fields, config) {
                Ok(s) => {
                    let v = vec![s];
                    assert(imported_views(v@) =~= seq![imported_view(s)]);
                    Ok(v)
                },
                Err(err) => Err(err),
            }
        },
        JsonExport::Other => Err(MigrationError::NotSubscriberJson),
    }
}

/// Reads the subscribers of a JSON export's text: `InvalidJson` where the
/// text is not JSON, else as `subscribers_from_json`.
pub fn parse_json_subscribers(text: &str, config: &MigrationConfig) -> (res: Result<Vec<ImportedSubscriber>, MigrationError>)
    ensures
        match json_export(text@) {
            None => res matches Err(MigrationError::InvalidJson),
            Some(e) => json_import_is(e, *config, res),
        },
{
    match read_json_export(text) {
        None => Err(MigrationError::InvalidJson),
        Some(e) => subscribers_from_json(&e, config),
    }
}

} // verus!
