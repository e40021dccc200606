//! Extracting the batch's names from tabular data: find the name column
//! among the headers, then collect the trimmed, non-empty name fields in row
//! order. Reading and record-splitting the file is the caller's business;
//! this module works on the parsed cells.

use vstd::prelude::*;
use vstd::string::StrSliceExecFns;
use vstd::string::StringExecFns;

use crate::color::eq_ignore_case;
use crate::color::eq_ignore_case_spec;

verus! {

/// Unicode whitespace, as `str::trim` strips it from cell values.
pub open spec fn is_white_space(c: char) -> bool {
    c == ' ' || ('\u{9}' <= c && c <= '\u{d}') || c == '\u{85}' || c == '\u{a0}'
        || c == '\u{1680}' || ('\u{2000}' <= c && c <= '\u{200a}') || c == '\u{2028}'
        || c == '\u{2029}' || c == '\u{202f}' || c == '\u{205f}' || c == '\u{3000}'
}

pub open spec fn trim_start_seq(s: Seq<char>) -> Seq<char>
    decreases s.len(),
{
    if s.len() > 0 && is_white_space(s[0]) {
        trim_start_seq(s.drop_first())
    } else {
        s
    }
}

pub open spec fn trim_end_seq(s: Seq<char>) -> Seq<char>
    decreases s.len(),
{
    if s.len() > 0 && is_white_space(s.last()) {
        trim_end_seq(s.drop_last())
    } else {
        s
    }
}

/// A cell value with its leading and trailing whitespace stripped.
pub open spec fn trimmed(s: Seq<char>) -> Seq<char> {
    trim_end_seq(trim_start_seq(s))
}

fn is_space_char(c: char) -> (r: bool)
    ensures
        r == is_white_space(c),
{
    let u = c as u32;
    u == 0x20 || (0x9 <= u && u <= 0xd) || u == 0x85 || u == 0xa0 || u == 0x1680 || (0x2000 <= u
        && u <= 0x200a) || u == 0x2028 || u == 0x2029 || u == 0x202f || u == 0x205f || u == 0x3000
}

/// Strip leading and trailing whitespace.
pub fn trim_str(s: &str) -> (r: String)
    ensures
        r@ == trimmed(s@),
{
    let n = s.unicode_len();
    let mut start: usize = 0;
    proof {
        assert(s@.subrange(0, n as int) =~= s@);
    }
    loop
        invariant
            n == s@.len(),
            start <= n,
            trim_start_seq(s@) == trim_start_seq(s@.subrange(start as int, n as int)),
        ensures
            start <= n,
            trim_start_seq(s@) == s@.subrange(start as int, n as int),
        decreases n - start,
    {
        if start >= n {
            proof {
                assert(s@.subrange(start as int, n as int) =~= Seq::<char>::empty());
            }
            break;
        }
        let c = s.get_char(start);
        if !is_space_char(c) {
            break;
        }
        proof {
            assert(s@.subrange(start as int, n as int).drop_first() =~= s@.subrange(
                start + 1,
                n as int,
            ));
        }
        start = start + 1;
    }
    let mut end: usize = n;
    loop
        invariant
            n == s@.len(),
            start <= end <= n,
            trim_start_seq(s@) == s@.subrange(start as int, n as int),
            trim_end_seq(s@.subrange(start as int, n as int)) == trim_end_seq(
                s@.subrange(start as int, end as int),
            ),
        ensures
            start <= end <= n,
            trim_start_seq(s@) == s@.subrange(start as int, n as int),
            trimmed(s@) == s@.subrange(start as int, end as int),
        decreases end,
    {
        if end <= start {
            proof {
                assert(s@.subrange(start as int, end as int) =~= Seq::<char>::empty());
            }
            break;
        }
        let c = s.get_char(end - 1);
        if !is_space_char(c) {
            break;
        }
        proof {
            assert(s@.subrange(start as int, end as int).drop_last() =~= s@.subrange(
                start as int,
                end - 1,
            ));
        }
        end = end - 1;
    }
    s.substring_char(start, end).to_owned()
}

/// Whether a header cell names the name column: its trimmed value is `name`,
/// compared case-insensitively.
pub open spec fn is_name_header(h: Seq<char>) -> bool {
    eq_ignore_case_spec(trimmed(h), "name"@)
}

/// The index of the first header naming the name column, if any.
pub open spec fn first_name_col(hs: Seq<Seq<char>>) -> Option<int>
    decreases hs.len(),
{
    if hs.len() == 0 {
        None
    } else if is_name_header(hs[0]) {
        Some(0int)
    } else {
        match first_name_col(hs.drop_first()) {
            Some(i) => Some(i + 1),
            None => None,
        }
    }
}

proof fn lemma_first_name_col_some(hs: Seq<Seq<char>>, i: int)
    requires
        0 <= i < hs.len(),
        is_name_header(hs[i]),
        forall|j: int| 0 <= j < i ==> !is_name_header(#[trigger] hs[j]),
    ensures
        first_name_col(hs) == Some(i),
    decreases hs.len(),
{
    if i > 0 {
        lemma_first_name_col_some(hs.drop_first(), i - 1);
    }
}

proof fn lemma_first_name_col_none(hs: Seq<Seq<char>>)
    requires
        forall|j: int| 0 <= j < hs.len() ==> !is_name_header(#[trigger] hs[j]),
    ensures
        first_name_col(hs) is None,
    decreases hs.len(),
{
    if hs.len() > 0 {
        lemma_first_name_col_none(hs.drop_first());
    }
}

/// Look for the name column among the headers (first match wins).
pub fn find_name_column(headers: &Vec<String>) -> (r: Option<usize>)
    ensures
        match r {
            Some(i) => first_name_col(headers.deep_view()) == Some(i as int),
            None => first_name_col(headers.deep_view()) is None,
        },
{
    let ghost hs = headers.deep_view();
    let n = headers.len();
    for i in 0..n
        invariant
            n == headers@.len(),
            hs == headers.deep_view(),
            hs.len() == n,
            forall|j: int| 0 <= j < i ==> !is_name_header(#[trigger] hs[j]),
    {
        let t = trim_str(headers[i].as_str());
        proof {
            assert(hs[i as int] == headers@[i as int]@);
        }
        if eq_ignore_case(t.as_str(), "name") {
            proof {
                lemma_first_name_col_some(hs, i as int);
            }
            return Some(i);
        }
    }
    proof {
        lemma_first_name_col_none(hs);
    }
    None
}

/// The names a sheet yields for a given name column: for each row that has
/// that column, the trimmed field, kept when non-empty, in row order.
pub open spec fn cleaned_names(rows: Seq<Seq<Seq<char>>>, col: int) -> Seq<Seq<char>>
    decreases rows.len(),
{
    if rows.len() == 0 {
        Seq::empty()
    } else {
        let prev = cleaned_names(rows.drop_last(), col);
        let row = rows.last();
        if 0 <= col < row.len() && trimmed(row[col]).len() > 0 {
            prev.push(trimmed(row[col]))
        } else {
            prev
        }
    }
}

/// Why no batch can be made from the sheet.
#[derive(Clone, Copy, Debug, PartialEq, Eq, Structural)]
pub enum NamesError {
    /// No header names the name column.
    NoNameColumn,
    /// The name column holds no non-empty value.
    NoValidNames,
}

/// The description a sheet-level failure is reported with.
pub open spec fn names_error_text(e: NamesError) -> Seq<char> {
    match e {
        NamesError::NoNameColumn => "no name column found"@,
        NamesError::NoValidNames => "no valid names found"@,
    }
}

impl NamesError {
    /// A short description for reporting.
    pub fn message(&self) -> (r: String)
        ensures
            r@ == names_error_text(*self),
    {
        match self {
            NamesError::NoNameColumn => String::from_str("no name column found"),
            NamesError::NoValidNames => String::from_str("no valid names found"),
        }
    }
}

/// Extract the batch's names from a parsed sheet: reject a sheet without a
/// name column, collect the trimmed non-empty name fields in row order, and
/// reject a sheet that yields none.
pub fn extract_names(headers: &Vec<String>, rows: &Vec<Vec<String>>) -> (r: Result<
    Vec<String>,
    NamesError,
>)
    ensures
        ({
            let hs = headers.deep_view();
            let rws = rows.deep_view();
            match r {
                Ok(names) => first_name_col(hs) matches Some(c) && names.deep_view()
                    == cleaned_names(rws, c) && names@.len() > 0,
                Err(NamesError::NoNameColumn) => first_name_col(hs) is None,
                Err(NamesError::NoValidNames) => first_name_col(hs) matches Some(c)
                    && cleaned_names(rws, c).len() == 0,
            }
        }),
{
    let ghost rws = rows.deep_view();
    let col = match find_name_column(headers) {
        Some(c) => c,
        None => {
            return Err(NamesError::NoNameColumn);
        },
    };
    let mut names: Vec<String> = Vec::new();
    let n = rows.len();
    for i in 0..n
        invariant
            n == rows@.len(),
            rws == rows.deep_view(),
            rws.len() == n,
            first_name_col(headers.deep_view()) == Some(col as int),
            names.deep_view() == cleaned_names(rws.take(i as int), col as int),
    {
        let ghost names_before = names.deep_view();
        let row = &rows[i];
        proof {
            assert(rws[i as int] == rows@[i as int].deep_view());
            assert(rws.take(i + 1).drop_last() =~= rws.take(i as int));
            assert(rws.take(i + 1).last() == rws[i as int]);
        }
        if col < row.len() {
            let t = trim_str(row[col].as_str());
            proof {
                assert(rws[i as int][col as int] == rows@[i as int]@[col as int]@);
            }
            if t.unicode_len() > 0 {
                names.push(t);
                proof {
                    assert(names.deep_view() =~= names_before.push(
                        trimmed(rws[i as int][col as int]),
                    ));
                }
            }
        }
    }
    proof {
        assert(rws.take(n as int) =~= rws);
    }
    if names.len() == 0 {
        return Err(NamesError::NoValidNames);
    }
    Ok(names)
}

} // verus!
