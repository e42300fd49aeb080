//! The evidence-tracked compatibility matrix against Sound Blaster Command.
//!
//! The matrix is a tab-separated table with a header line and seven fields
//! per row: area, feature, status, Linux mechanism, current evidence,
//! remaining gate and source.

use vstd::prelude::*;
use vstd::string::*;

use crate::text;
use crate::text::{owned, push_decimal, push_str, str_eq};

verus! {

/// How far a Command feature is supported on Linux.
#[derive(Clone, Copy, Debug, PartialEq, Eq, Structural)]
pub enum FeatureSupport {
    Verified,
    Substituted,
    Deferred,
    Unsupported,
}

/// The status a table cell or command-line argument names.
pub open spec fn support_from_text(value: Seq<char>) -> Option<FeatureSupport> {
    if value == "verified"@ {
        Some(FeatureSupport::Verified)
    } else if value == "intentionally substituted"@ || value == "substituted"@ {
        Some(FeatureSupport::Substituted)
    } else if value == "deferred"@ {
        Some(FeatureSupport::Deferred)
    } else if value == "unsupported"@ {
        Some(FeatureSupport::Unsupported)
    } else {
        None
    }
}

/// The name a status is printed under.
pub open spec fn support_label(s: FeatureSupport) -> Seq<char> {
    match s {
        FeatureSupport::Verified => "verified"@,
        FeatureSupport::Substituted => "intentionally substituted"@,
        FeatureSupport::Deferred => "deferred"@,
        FeatureSupport::Unsupported => "unsupported"@,
    }
}

/// What a status means for a user.
pub open spec fn support_description(s: FeatureSupport) -> Seq<char> {
    match s {
        FeatureSupport::Verified => "Works and has passed its current acceptance evidence"@,
        FeatureSupport::Substituted => "Uses a documented Linux-native equivalent"@,
        FeatureSupport::Deferred => "Implemented or exposed, but still needs acceptance evidence"@,
        FeatureSupport::Unsupported => "Has no verified safe Linux mechanism"@,
    }
}

impl FeatureSupport {
    /// Every status, in order of decreasing support.
    pub const ALL: [FeatureSupport; 4] = [
        FeatureSupport::Verified,
        FeatureSupport::Substituted,
        FeatureSupport::Deferred,
        FeatureSupport::Unsupported,
    ];

    /// The status a table cell or command-line argument names.
    pub fn parse(value: &str) -> (r: Option<Self>)
        ensures
            r == support_from_text(value@),
    {
        if str_eq(value, "verified") {
            Some(FeatureSupport::Verified)
        } else if str_eq(value, "intentionally substituted") || str_eq(value, "substituted") {
            Some(FeatureSupport::Substituted)
        } else if str_eq(value, "deferred") {
            Some(FeatureSupport::Deferred)
        } else if str_eq(value, "unsupported") {
            Some(FeatureSupport::Unsupported)
        } else {
            None
        }
    }

    /// What this status means for a user.
    pub fn description(self) -> (r: &'static str)
        ensures
            r@ == support_description(self),
    {
        match self {
            FeatureSupport::Verified => "Works and has passed its current acceptance evidence",
            FeatureSupport::Substituted => "Uses a documented Linux-native equivalent",
            FeatureSupport::Deferred => "Implemented or exposed, but still needs acceptance evidence",
            FeatureSupport::Unsupported => "Has no verified safe Linux mechanism",
        }
    }

    /// The name this status is printed under.
    pub fn label(self) -> (r: &'static str)
        ensures
            r@ == support_label(self),
    {
        match self {
            FeatureSupport::Verified => "verified",
            FeatureSupport::Substituted => "intentionally substituted",
            FeatureSupport::Deferred => "deferred",
            FeatureSupport::Unsupported => "unsupported",
        }
    }
}

/// Parsing the printed name of a status gives the status back.
pub proof fn lemma_label_parses_back(s: FeatureSupport)
    ensures
        support_from_text(support_label(s)) == Some(s),
{
    reveal_strlit("verified");
    reveal_strlit("intentionally substituted");
    reveal_strlit("deferred");
    reveal_strlit("unsupported");
    reveal_strlit("substituted");
    assert("verified"@.len() == 8);
    assert("intentionally substituted"@.len() == 25);
    assert("deferred"@.len() == 8);
    assert("unsupported"@.len() == 11);
    assert("substituted"@.len() == 11);
    assert("verified"@[0] != "deferred"@[0]);
    assert("unsupported"@[0] != "substituted"@[0]);
}

/// One row of the compatibility matrix.
#[derive(Clone, Copy, Debug, Eq, PartialEq)]
pub struct FeatureParity {
    pub area: &'static str,
    pub feature: &'static str,
    pub support: FeatureSupport,
    pub linux_mechanism: &'static str,
    pub current_evidence: &'static str,
    pub remaining_gate: &'static str,
    pub source: &'static str,
}

/// The pieces of `s` between occurrences of `sep` (`str::split`).
pub open spec fn split_on(s: Seq<char>, sep: char) -> Seq<Seq<char>>
    decreases s.len(),
{
    match text::find_from(s, seq![sep], 0) {
        Some(i) => if 0 <= i < s.len() {
            seq![s.subrange(0, i)] + split_on(s.subrange(i + 1, s.len() as int), sep)
        } else {
            seq![s]
        },
        None => seq![s],
    }
}

/// A table line holds exactly seven fields and a known status.
pub open spec fn is_feature_row(line: Seq<char>) -> bool {
    let fields = split_on(line, '\t');
    fields.len() == 7 && support_from_text(fields[2]) is Some
}

/// The row a well-formed table line describes.
pub open spec fn feature_row_matches(row: FeatureParity, line: Seq<char>) -> bool {
    let fields = split_on(line, '\t');
    &&& row.area@ == fields[0]
    &&& row.feature@ == fields[1]
    &&& Some(row.support) == support_from_text(fields[2])
    &&& row.linux_mechanism@ == fields[3]
    &&& row.current_evidence@ == fields[4]
    &&& row.remaining_gate@ == fields[5]
    &&& row.source@ == fields[6]
}

/// Splits a line at its first tab: the field before it and the rest after it.
fn next_field(line: &'static str) -> (r: (&'static str, Option<&'static str>))
    ensures
        split_on(line@, '\t') == (match r.1 {
            Some(rest) => seq![r.0@] + split_on(rest@, '\t'),
            None => seq![r.0@],
        }),
        r.1 matches Some(rest) ==> rest@.len() < line@.len(),
{
    let n = line.unicode_len();
    proof {
        text::lemma_find_from_bounds(line@, seq!['\t'], 0);
        reveal_strlit("\t");
        assert("\t"@ =~= seq!['\t']);
    }
    match text::find(line, "\t") {
        Some(i) => {
            let field = line.substring_char(0, i);
            let rest = line.substring_char(i + 1, n);
            (field, Some(rest))
        },
        None => (line, None),
    }
}

/// Parses one line of the table.
pub fn parse_row(line: &'static str) -> (r: FeatureParity)
    requires
        is_feature_row(line@),
    ensures
        feature_row_matches(r, line@),
{
    let ghost fields = split_on(line@, '\t');
    let (area, rest) = next_field(line);
    let rest = rest.unwrap();
    let (feature, rest) = next_field(rest);
    let rest = rest.unwrap();
    let (status, rest) = next_field(rest);
    let rest = rest.unwrap();
    let (linux_mechanism, rest) = next_field(rest);
    let rest = rest.unwrap();
    let (current_evidence, rest) = next_field(rest);
    let rest = rest.unwrap();
    let (remaining_gate, rest) = next_field(rest);
    let rest = rest.unwrap();
    let (source, rest) = next_field(rest);
    assert(rest is None);
    let support = FeatureSupport::parse(status).unwrap();
    FeatureParity {
        area,
        feature,
        support,
        linux_mechanism,
        current_evidence,
        remaining_gate,
        source,
    }
}

/// `line` without one trailing carriage return.
pub open spec fn strip_cr(line: Seq<char>) -> Seq<char> {
    if line.len() > 0 && line.last() == '\r' {
        line.drop_last()
    } else {
        line
    }
}

/// The lines of a text as `str::lines` yields them: split after each line
/// feed, the feed and a carriage return just before it removed, and no empty
/// last line for a text that ends with a line feed.
pub open spec fn lines_of(s: Seq<char>) -> Seq<Seq<char>>
    decreases s.len(),
{
    if s.len() == 0 {
        Seq::empty()
    } else {
        match text::find_from(s, seq!['\n'], 0) {
            Some(i) => if 0 <= i < s.len() {
                seq![strip_cr(s.subrange(0, i))] + lines_of(s.subrange(i + 1, s.len() as int))
            } else {
                seq![s]
            },
            None => seq![s],
        }
    }
}

/// Splits off the first line of a non-empty text.
fn next_line(s: &'static str) -> (r: (&'static str, &'static str))
    requires
        s@.len() > 0,
    ensures
        lines_of(s@) == seq![r.0@] + lines_of(r.1@),
        r.1@.len() < s@.len(),
{
    let n = s.unicode_len();
    proof {
        text::lemma_find_from_bounds(s@, seq!['\n'], 0);
        reveal_strlit("\n");
        assert("\n"@ =~= seq!['\n']);
    }
    match text::find(s, "\n") {
        Some(i) => {
            let line = if i > 0 && s.get_char(i - 1) == '\r' {
                s.substring_char(0, i - 1)
            } else {
                s.substring_char(0, i)
            };
            let rest = s.substring_char(i + 1, n);
            proof {
                let whole = s@.subrange(0, i as int);
                if i > 0 && s@[i - 1] == '\r' {
                    assert(whole.drop_last() =~= s@.subrange(0, i - 1));
                }
            }
            (line, rest)
        },
        None => {
            let rest = s.substring_char(n, n);
            assert(rest@.len() == 0);
            (s, rest)
        },
    }
}

/// Every line after the header is a well-formed row.
pub open spec fn is_feature_table(table: Seq<char>) -> bool {
    forall|i: int| 1 <= i < lines_of(table).len() ==> is_feature_row(#[trigger] lines_of(table)[i])
}

/// The rows of a compatibility table, skipping its header line.
pub fn feature_parity(table: &'static str) -> (r: Vec<FeatureParity>)
    requires
        is_feature_table(table@),
    ensures
        lines_of(table@).len() == 0 ==> r@.len() == 0,
        lines_of(table@).len() > 0 ==> r@.len() == lines_of(table@).len() - 1,
        forall|i: int| 0 <= i < r@.len() ==> feature_row_matches(r@[i], lines_of(table@)[i + 1]),
{
    let mut rows: Vec<FeatureParity> = Vec::new();
    if table.unicode_len() == 0 {
        return rows;
    }
    let (_, mut rest) = next_line(table);
    let ghost all = lines_of(table@);
    while rest.unicode_len() > 0
        invariant
            all == lines_of(table@),
            is_feature_table(table@),
            all.len() > 0,
            rows@.len() + 1 + lines_of(rest@).len() == all.len(),
            lines_of(rest@) == all.subrange(rows@.len() + 1int, all.len() as int),
            forall|i: int| 0 <= i < rows@.len() ==> feature_row_matches(rows@[i], all[i + 1]),
        decreases rest@.len(),
    {
        let ghost before = rest@;
        let (line, next) = next_line(rest);
        assert(lines_of(before)[0] == line@);
        assert(all[rows@.len() + 1int] == line@);
        let row = parse_row(line);
        rows.push(row);
        assert(lines_of(next@) =~= lines_of(before).subrange(1, lines_of(before).len() as int));
        rest = next;
    }
    assert(lines_of(rest@).len() == 0);
    rows
}

/// Pieces of text as character sequences.
pub open spec fn pieces_view(v: Seq<&'static str>) -> Seq<Seq<char>> {
    v.map_values(|f: &'static str| f@)
}

/// Whether a line is a row of seven fields with a known status.
fn is_row(line: &'static str) -> (r: bool)
    ensures
        r == is_feature_row(line@),
{
    let mut fields: Vec<&'static str> = Vec::new();
    let mut rest: Option<&'static str> = Some(line);
    assert(pieces_view(fields@) =~= Seq::<Seq<char>>::empty());
    assert(Seq::<Seq<char>>::empty() + split_on(line@, '\t') =~= split_on(line@, '\t'));
    while rest.is_some()
        invariant
            rest matches Some(piece) ==> pieces_view(fields@) + split_on(piece@, '\t') == split_on(line@, '\t'),
            rest is None ==> pieces_view(fields@) == split_on(line@, '\t'),
        decreases match rest {
            Some(piece) => piece@.len() + 1,
            None => 0,
        },
    {
        let piece = rest.unwrap();
        let (field, next) = next_field(piece);
        let ghost before = pieces_view(fields@);
        fields.push(field);
        assert(pieces_view(fields@) =~= before.push(field@));
        match next {
            Some(more) => {
                assert(before + split_on(piece@, '\t') =~= pieces_view(fields@) + split_on(more@, '\t'));
            },
            None => {
                assert(before + split_on(piece@, '\t') =~= pieces_view(fields@));
            },
        }
        rest = next;
    }
    fields.len() == 7 && FeatureSupport::parse(fields[2]).is_some()
}

/// The first line at or after `i` that is not a well-formed row.
pub open spec fn first_bad_line(lines: Seq<Seq<char>>, i: int) -> Option<int>
    decreases lines.len() - i,
{
    if i < 0 || i >= lines.len() {
        None
    } else if !is_feature_row(lines[i]) {
        Some(i)
    } else {
        first_bad_line(lines, i + 1)
    }
}

proof fn lemma_first_bad_line(lines: Seq<Seq<char>>, i: int)
    requires
        0 <= i,
    ensures
        first_bad_line(lines, i) is None <==> forall|j: int| i <= j < lines.len() ==> is_feature_row(#[trigger] lines[j]),
        first_bad_line(lines, i) matches Some(k) ==> i <= k < lines.len() && !is_feature_row(lines[k]),
    decreases lines.len() - i,
{
    if i < lines.len() && is_feature_row(lines[i]) {
        lemma_first_bad_line(lines, i + 1);
    }
}

proof fn lemma_lines_len(s: Seq<char>)
    ensures
        lines_of(s).len() <= s.len(),
    decreases s.len(),
{
    if s.len() > 0 {
        text::lemma_find_from_bounds(s, seq!['\n'], 0);
        match text::find_from(s, seq!['\n'], 0) {
            Some(i) => if 0 <= i < s.len() {
                lemma_lines_len(s.subrange(i + 1, s.len() as int));
            },
            None => {},
        }
    }
}

/// The message for a table line that is not a row.
pub open spec fn bad_line_text(k: nat) -> Seq<char> {
    "feature table line "@ + text::decimal(k) + " is not a row of seven fields with a known status"@
}

/// Checks that every line after the header of a compatibility table is a
/// row of seven tab-separated fields with a known status, as
/// `feature_parity` needs; otherwise names the first line, counted from 1,
/// that is not.
pub fn check_feature_table(table: &'static str) -> (r: Result<(), String>)
    ensures
        r is Ok <==> is_feature_table(table@),
        r matches Err(m) ==> (first_bad_line(lines_of(table@), 1) matches Some(k) && m@ == bad_line_text(
            (k + 1) as nat,
        )),
{
    let ghost all = lines_of(table@);
    proof {
        lemma_first_bad_line(all, 1);
    }
    if table.unicode_len() == 0 {
        return Ok(());
    }
    proof {
        lemma_lines_len(table@);
    }
    let total = table.unicode_len();
    let (_, mut rest) = next_line(table);
    let mut index: usize = 1;
    while rest.unicode_len() > 0
        invariant
            all == lines_of(table@),
            all.len() <= total,
            all.len() > 0,
            index as int + lines_of(rest@).len() == all.len(),
            1 <= index,
            lines_of(rest@) == all.subrange(index as int, all.len() as int),
            first_bad_line(all, 1) == first_bad_line(all, index as int),
        decreases rest@.len(),
    {
        let ghost before = rest@;
        let (line, next) = next_line(rest);
        assert(lines_of(before)[0] == line@);
        assert(all[index as int] == line@);
        assert(index < all.len());
        if !is_row(line) {
            let mut m = owned("feature table line ");
            push_decimal(&mut m, (index + 1) as u64);
            push_str(&mut m, " is not a row of seven fields with a known status");
            proof {
                lemma_first_bad_line(all, 1);
            }
            return Err(m);
        }
        assert(lines_of(next@) =~= lines_of(before).subrange(1, lines_of(before).len() as int));
        rest = next;
        index = index + 1;
    }
    assert(lines_of(rest@).len() == 0);
    assert(first_bad_line(all, index as int) is None);
    proof {
        lemma_first_bad_line(all, 1);
    }
    Ok(())
}

/// The rows with status `s`, in table order.
pub open spec fn rows_with(fs: Seq<FeatureParity>, s: FeatureSupport) -> Seq<FeatureParity>
    decreases fs.len(),
{
    if fs.len() == 0 {
        Seq::empty()
    } else {
        rows_with(fs.drop_last(), s) + if fs.last().support == s {
            seq![fs.last()]
        } else {
            Seq::<FeatureParity>::empty()
        }
    }
}

/// The lines that describe one row in the report.
pub open spec fn row_report_text(f: FeatureParity) -> Seq<char> {
    "  "@ + f.area@ + " · "@ + f.feature@ + "\n"@ + "    Linux: "@ + f.linux_mechanism@ + "\n"@
        + "    Evidence: "@ + f.current_evidence@ + "\n"@ + "    Remaining: "@ + f.remaining_gate@ + "\n"@
}

/// The lines that describe each row, in order.
pub open spec fn rows_report_text(fs: Seq<FeatureParity>) -> Seq<char>
    decreases fs.len(),
{
    if fs.len() == 0 {
        Seq::empty()
    } else {
        rows_report_text(fs.drop_last()) + row_report_text(fs.last())
    }
}

/// The summary line of one status: its name and how many rows have it.
pub open spec fn count_line(fs: Seq<FeatureParity>, s: FeatureSupport) -> Seq<char> {
    "  "@ + support_label(s) + ": "@ + text::decimal(rows_with(fs, s).len()) + "\n"@
}

/// The section of one status: a heading with its count and meaning, then
/// every row that has it.
pub open spec fn section_text(fs: Seq<FeatureParity>, s: FeatureSupport) -> Seq<char> {
    "\n"@ + support_label(s) + " ("@ + text::decimal(rows_with(fs, s).len()) + ") — "@
        + support_description(s) + "\n"@ + rows_report_text(rows_with(fs, s))
}

/// The section of a status when the report shows it.
pub open spec fn shown_section(fs: Seq<FeatureParity>, s: FeatureSupport, filter: Option<FeatureSupport>) -> Seq<char> {
    if filter is Some && filter != Some(s) {
        Seq::empty()
    } else {
        section_text(fs, s)
    }
}

/// The compatibility report: the number of rows, a count per status, then
/// the section of each status, or of the one `filter` selects.
pub open spec fn status_report_text(fs: Seq<FeatureParity>, filter: Option<FeatureSupport>) -> Seq<char> {
    "Sound Blaster Command feature compatibility ("@ + text::decimal(fs.len()) + " tracked)\n"@
        + count_line(fs, FeatureSupport::Verified) + count_line(fs, FeatureSupport::Substituted)
        + count_line(fs, FeatureSupport::Deferred) + count_line(fs, FeatureSupport::Unsupported)
        + shown_section(fs, FeatureSupport::Verified, filter) + shown_section(fs, FeatureSupport::Substituted, filter)
        + shown_section(fs, FeatureSupport::Deferred, filter) + shown_section(fs, FeatureSupport::Unsupported, filter)
}

/// Appends the lines that describe one row.
fn push_row_report(out: &mut String, f: &FeatureParity)
    ensures
        final(out)@ == old(out)@ + row_report_text(*f),
{
    push_str(out, "  ");
    push_str(out, f.area);
    push_str(out, " · ");
    push_str(out, f.feature);
    push_str(out, "\n");
    push_str(out, "    Linux: ");
    push_str(out, f.linux_mechanism);
    push_str(out, "\n");
    push_str(out, "    Evidence: ");
    push_str(out, f.current_evidence);
    push_str(out, "\n");
    push_str(out, "    Remaining: ");
    push_str(out, f.remaining_gate);
    push_str(out, "\n");
}

/// Appends the rows with status `s` and returns how many there are.
fn push_rows_with(out: &mut String, features: &[FeatureParity], s: FeatureSupport, describe: bool) -> (r: usize)
    ensures
        r as int == rows_with(features@, s).len(),
        final(out)@ == old(out)@ + if describe {
            rows_report_text(rows_with(features@, s))
        } else {
            Seq::empty()
        },
{
    let mut count: usize = 0;
    let mut i: usize = 0;
    while i < features.len()
        invariant
            i <= features@.len(),
            count as int == rows_with(features@.take(i as int), s).len(),
            count <= i,
            out@ == old(out)@ + if describe {
                rows_report_text(rows_with(features@.take(i as int), s))
            } else {
                Seq::empty()
            },
        decreases features.len() - i,
    {
        let f = features[i];
        let ghost before = rows_with(features@.take(i as int), s);
        assert(features@.take(i + 1).drop_last() =~= features@.take(i as int));
        assert(features@.take(i + 1).last() == f);
        if f.support == s {
            count = count + 1;
            if describe {
                push_row_report(out, &f);
                proof {
                    let after = rows_with(features@.take(i + 1), s);
                    assert(after =~= before.push(f));
                    assert(after.drop_last() =~= before);
                    assert(rows_report_text(after) == rows_report_text(before) + row_report_text(f));
                }
            }
            assert(rows_with(features@.take(i + 1), s) =~= before.push(f));
        } else {
            assert(rows_with(features@.take(i + 1), s) =~= before);
        }
        i += 1;
    }
    assert(features@.take(features@.len() as int) =~= features@);
    count
}

/// Appends the summary line of one status.
fn push_count_line(out: &mut String, features: &[FeatureParity], s: FeatureSupport)
    ensures
        final(out)@ == old(out)@ + count_line(features@, s),
{
    let mut scratch = String::new();
    let count = push_rows_with(&mut scratch, features, s, false);
    push_str(out, "  ");
    push_str(out, s.label());
    push_str(out, ": ");
    push_decimal(out, count as u64);
    push_str(out, "\n");
}

/// Appends the section of one status when the report shows it.
fn push_section(out: &mut String, features: &[FeatureParity], s: FeatureSupport, filter: Option<FeatureSupport>)
    ensures
        final(out)@ == old(out)@ + shown_section(features@, s, filter),
{
    let shown = match filter {
        Some(selected) => selected == s,
        None => true,
    };
    if !shown {
        assert(shown_section(features@, s, filter) =~= Seq::<char>::empty());
        return;
    }
    let mut rows = String::new();
    let count = push_rows_with(&mut rows, features, s, true);
    push_str(out, "\n");
    push_str(out, s.label());
    push_str(out, " (");
    push_decimal(out, count as u64);
    push_str(out, ") — ");
    push_str(out, s.description());
    push_str(out, "\n");
    push_str(out, rows.as_str());
}

/// The compatibility report of `features`: the number of rows, a count per
/// status, then the section of each status, or only of `filter`'s.
pub fn feature_status_report(features: &[FeatureParity], filter: Option<FeatureSupport>) -> (r: String)
    ensures
        r@ == status_report_text(features@, filter),
{
    let mut out = owned("Sound Blaster Command feature compatibility (");
    push_decimal(&mut out, features.len() as u64);
    push_str(&mut out, " tracked)\n");
    push_count_line(&mut out, features, FeatureSupport::Verified);
    push_count_line(&mut out, features, FeatureSupport::Substituted);
    push_count_line(&mut out, features, FeatureSupport::Deferred);
    push_count_line(&mut out, features, FeatureSupport::Unsupported);
    push_section(&mut out, features, FeatureSupport::Verified, filter);
    push_section(&mut out, features, FeatureSupport::Substituted, filter);
    push_section(&mut out, features, FeatureSupport::Deferred, filter);
    push_section(&mut out, features, FeatureSupport::Unsupported, filter);
    out
}

/// The compatibility summary of `features`: how many are tracked and how
/// many have each status.
pub open spec fn compatibility_summary_text(fs: Seq<FeatureParity>) -> Seq<char> {
    text::decimal(fs.len()) + " tracked features\nVerified: "@ + text::decimal(
        rows_with(fs, FeatureSupport::Verified).len(),
    ) + "\nLinux-native equivalents: "@ + text::decimal(rows_with(fs, FeatureSupport::Substituted).len())
        + "\nPending acceptance: "@ + text::decimal(rows_with(fs, FeatureSupport::Deferred).len())
        + "\nUnavailable: "@ + text::decimal(rows_with(fs, FeatureSupport::Unsupported).len())
}

/// The compatibility summary the window shows: how many features are
/// tracked and how many have each status.
pub fn compatibility_summary(features: &[FeatureParity]) -> (r: String)
    ensures
        r@ == compatibility_summary_text(features@),
{
    let mut scratch = String::new();
    let verified = push_rows_with(&mut scratch, features, FeatureSupport::Verified, false);
    let substituted = push_rows_with(&mut scratch, features, FeatureSupport::Substituted, false);
    let deferred = push_rows_with(&mut scratch, features, FeatureSupport::Deferred, false);
    let unsupported = push_rows_with(&mut scratch, features, FeatureSupport::Unsupported, false);
    let mut out = String::new();
    push_decimal(&mut out, features.len() as u64);
    push_str(&mut out, " tracked features\nVerified: ");
    push_decimal(&mut out, verified as u64);
    push_str(&mut out, "\nLinux-native equivalents: ");
    push_decimal(&mut out, substituted as u64);
    push_str(&mut out, "\nPending acceptance: ");
    push_decimal(&mut out, deferred as u64);
    push_str(&mut out, "\nUnavailable: ");
    push_decimal(&mut out, unsupported as u64);
    proof {
        assert(out@ =~= compatibility_summary_text(features@));
    }
    out
}

} // verus!
