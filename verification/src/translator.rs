//! The line-oriented catalog-entry scanner.
//!
//! A catalog file is a sequence of text lines. The scanner recognizes
//! singular records (a `msgid ` line followed by a `msgstr` line) and
//! plural records (a `msgid ` line, a `msgid_plural` line and two indexed
//! `msgstr[..]` slot lines), decides which of them need translation, and
//! rewrites their translation slots once the translated texts are known.
//! The network call that produces a translation is not made here: callers
//! collect the records that [`scan_catalog`] returns, translate each key
//! through the client, and hand the results to [`apply_translations`].

use vstd::prelude::*;
use vstd::seq_lib::*;
use vstd::string::*;

use crate::chars::clone_chars;
use crate::chars::copy_range;
use crate::chars::push_chars;
use crate::languages::iso_to_name;
use crate::languages::language_name_spec;
use crate::openai::AiRequest;

verus! {

/// Whether the line declares a singular key: it starts with `msgid `.
pub open spec fn is_msgid_line(l: Seq<char>) -> bool {
    l.len() >= 6 && l[0] == 'm' && l[1] == 's' && l[2] == 'g' && l[3] == 'i' && l[4] == 'd'
        && l[5] == ' '
}

/// Whether the line declares a translation slot: it starts with `msgstr`.
pub open spec fn is_msgstr_line(l: Seq<char>) -> bool {
    l.len() >= 6 && l[0] == 'm' && l[1] == 's' && l[2] == 'g' && l[3] == 's' && l[4] == 't'
        && l[5] == 'r'
}

/// Whether the line declares a plural key: it starts with `msgid_plural`.
pub open spec fn is_msgid_plural_line(l: Seq<char>) -> bool {
    l.len() >= 12 && l[0] == 'm' && l[1] == 's' && l[2] == 'g' && l[3] == 'i' && l[4] == 'd'
        && l[5] == '_' && l[6] == 'p' && l[7] == 'l' && l[8] == 'u' && l[9] == 'r' && l[10] == 'a'
        && l[11] == 'l'
}

/// Whether the line declares the first plural slot: it starts with
/// `msgstr[0]`.
pub open spec fn is_msgstr0_line(l: Seq<char>) -> bool {
    l.len() >= 9 && l[0] == 'm' && l[1] == 's' && l[2] == 'g' && l[3] == 's' && l[4] == 't'
        && l[5] == 'r' && l[6] == '[' && l[7] == '0' && l[8] == ']'
}

/// Returns true if the line is a msgid declaration.
pub fn is_msgid(line: &Vec<char>) -> (r: bool)
    ensures
        r == is_msgid_line(line@),
{
    line.len() >= 6 && line[0] == 'm' && line[1] == 's' && line[2] == 'g' && line[3] == 'i'
        && line[4] == 'd' && line[5] == ' '
}

fn is_msgstr(line: &Vec<char>) -> (r: bool)
    ensures
        r == is_msgstr_line(line@),
{
    line.len() >= 6 && line[0] == 'm' && line[1] == 's' && line[2] == 'g' && line[3] == 's'
        && line[4] == 't' && line[5] == 'r'
}

fn is_msgid_plural(line: &Vec<char>) -> (r: bool)
    ensures
        r == is_msgid_plural_line(line@),
{
    line.len() >= 12 && line[0] == 'm' && line[1] == 's' && line[2] == 'g' && line[3] == 'i'
        && line[4] == 'd' && line[5] == '_' && line[6] == 'p' && line[7] == 'l' && line[8] == 'u'
        && line[9] == 'r' && line[10] == 'a' && line[11] == 'l'
}

fn is_msgstr0(line: &Vec<char>) -> (r: bool)
    ensures
        r == is_msgstr0_line(line@),
{
    line.len() >= 9 && line[0] == 'm' && line[1] == 's' && line[2] == 'g' && line[3] == 's'
        && line[4] == 't' && line[5] == 'r' && line[6] == '[' && line[7] == '0' && line[8] == ']'
}

/// A catalog line whose quoted payload could not be located: it holds
/// fewer than two quote characters.
pub struct MalformedLineError {
    pub line: Vec<char>,
}

/// The quoted payload of a catalog line: the text between the first and
/// the last quote character, or nothing when no pair of quote characters
/// can be located.
pub open spec fn extract_spec(l: Seq<char>) -> Option<Seq<char>> {
    match (l.index_of_first('"'), l.index_of_last('"')) {
        (Some(qs), Some(qe)) => if qs < qe {
            Some(l.subrange(qs + 1, qe))
        } else {
            None
        },
        _ => None,
    }
}

/// Extracts the string from a catalog line like `msgid "text"`: the text
/// between the first and the last quote character. A line without a pair
/// of quote characters is malformed.
pub fn extract_po_string(line: &Vec<char>) -> (r: Result<Vec<char>, MalformedLineError>)
    ensures
        match r {
            Ok(p) => extract_spec(line@) == Some(p@),
            Err(e) => extract_spec(line@) is None && e.line@ == line@,
        },
{
    let ghost l = line@;
    let mut k: usize = 0;
    let mut fq: usize = 0;
    let mut lq: usize = 0;
    let mut found = false;
    while k < line.len()
        invariant
            k <= line.len(),
            l == line@,
            found ==> fq <= lq < k && l[fq as int] == '"' && l[lq as int] == '"' && (forall|j: int|
                0 <= j < fq ==> l[j] != '"') && (forall|j: int| lq < j < k ==> l[j] != '"'),
            !found ==> forall|j: int| 0 <= j < k ==> l[j] != '"',
        decreases line.len() - k,
    {
        if line[k] == '"' {
            if !found {
                fq = k;
                found = true;
            }
            lq = k;
        }
        k = k + 1;
    }
    proof {
        l.index_of_first_ensures('"');
        l.index_of_last_ensures('"');
    }
    if !found {
        return Err(MalformedLineError { line: clone_chars(line) });
    }
    if fq == lq {
        return Err(MalformedLineError { line: clone_chars(line) });
    }
    let mut p: Vec<char> = Vec::new();
    copy_range(&mut p, line, fq + 1, lq);
    proof {
        assert(Seq::<char>::empty() + l.subrange(fq + 1, lq as int) =~= l.subrange(
            fq + 1,
            lq as int,
        ));
        assert(l.index_of_first('"') == Some(fq as int));
        assert(l.index_of_last('"') == Some(lq as int));
    }
    Ok(p)
}

/// One catalog record that needs translation, as the scanner found it:
/// the line where it starts, the key text to translate, and the current
/// contents of its translation slots.
pub enum CatalogRecord {
    Singular { at: usize, key: Vec<char>, current: Vec<char> },
    Plural { at: usize, plural_key: Vec<char>, slot0: Vec<char>, slot1: Vec<char> },
}

/// The mathematical shape of a catalog record.
pub enum RecordModel {
    Singular { at: int, key: Seq<char>, current: Seq<char> },
    Plural { at: int, plural_key: Seq<char>, slot0: Seq<char>, slot1: Seq<char> },
}

impl View for CatalogRecord {
    type V = RecordModel;

    open spec fn view(&self) -> RecordModel {
        match self {
            CatalogRecord::Singular { at, key, current } => RecordModel::Singular {
                at: *at as int,
                key: key@,
                current: current@,
            },
            CatalogRecord::Plural { at, plural_key, slot0, slot1 } => RecordModel::Plural {
                at: *at as int,
                plural_key: plural_key@,
                slot0: slot0@,
                slot1: slot1@,
            },
        }
    }
}

/// The views of a sequence of scanned records.
pub open spec fn records_view(rs: Seq<CatalogRecord>) -> Seq<RecordModel> {
    rs.map_values(|r: CatalogRecord| r@)
}

/// The line where a record starts.
pub open spec fn rec_at(r: RecordModel) -> int {
    match r {
        RecordModel::Singular { at, .. } => at,
        RecordModel::Plural { at, .. } => at,
    }
}

/// How many lines a record spans: two for a singular record, four for a
/// plural record.
pub open spec fn rec_span(r: RecordModel) -> int {
    match r {
        RecordModel::Singular { .. } => 2,
        RecordModel::Plural { .. } => 4,
    }
}

/// Whether a record needs translation: some translation slot is empty, or
/// force mode re-translates everything.
pub open spec fn needs_translation(r: RecordModel, force: bool) -> bool {
    force || match r {
        RecordModel::Singular { current, .. } => current.len() == 0,
        RecordModel::Plural { slot0, slot1, .. } => slot0.len() == 0 || slot1.len() == 0,
    }
}

/// A rewritten singular slot line: `msgstr "<t>"`.
pub open spec fn render_msgstr(t: Seq<char>) -> Seq<char> {
    seq!['m', 's', 'g', 's', 't', 'r', ' ', '"'] + t + seq!['"']
}

/// A rewritten first plural slot line: `msgstr[0] "<t>"`.
pub open spec fn render_msgstr0(t: Seq<char>) -> Seq<char> {
    seq!['m', 's', 'g', 's', 't', 'r', '[', '0', ']', ' ', '"'] + t + seq!['"']
}

/// A rewritten second plural slot line: `msgstr[1] "<t>"`.
pub open spec fn render_msgstr1(t: Seq<char>) -> Seq<char> {
    seq!['m', 's', 'g', 's', 't', 'r', '[', '1', ']', ' ', '"'] + t + seq!['"']
}

/// The views of a file's lines.
pub open spec fn lines_view(ls: Seq<Vec<char>>) -> Seq<Seq<char>> {
    ls.map_values(|l: Vec<char>| l@)
}

/// A line with one trailing carriage return removed: line splitting
/// treats a carriage return before a line feed as part of the ending.
pub open spec fn strip_cr(l: Seq<char>) -> Seq<char> {
    if l.len() > 0 && l[l.len() - 1] == '\r' {
        l.drop_last()
    } else {
        l
    }
}

/// The position of the first line feed at or after `i`, or the end of
/// the text.
pub open spec fn first_nl(s: Seq<char>, i: int) -> int
    decreases s.len() - i,
{
    if i < 0 || i >= s.len() {
        s.len() as int
    } else if s[i] == '\n' {
        i
    } else {
        first_nl(s, i + 1)
    }
}

/// The lines of the text from position `i` on: split at line feeds, a
/// carriage return before a line feed dropped, and a final line ending
/// producing no empty last line.
pub open spec fn split_lines_from(s: Seq<char>, i: int) -> Seq<Seq<char>>
    decreases s.len() - i,
{
    if i >= s.len() {
        Seq::empty()
    } else {
        let p = first_nl(s, i);
        if i <= p < s.len() {
            seq![strip_cr(s.subrange(i, p))] + split_lines_from(s, p + 1)
        } else {
            seq![strip_cr(s.subrange(i, s.len() as int))]
        }
    }
}

/// The lines of a text.
pub open spec fn split_lines_spec(s: Seq<char>) -> Seq<Seq<char>> {
    split_lines_from(s, 0)
}

/// The lines rejoined with single line feeds, without a trailing one.
pub open spec fn join_lines_spec(ls: Seq<Seq<char>>) -> Seq<char>
    decreases ls.len(),
{
    if ls.len() == 0 {
        Seq::empty()
    } else if ls.len() == 1 {
        ls[0]
    } else {
        ls[0] + seq!['\n'] + join_lines_spec(ls.drop_first())
    }
}

/// Splits a file's content into its lines: lines end at a line feed or
/// at a carriage return followed by a line feed, and a final line ending
/// yields no empty last line.
pub fn split_lines(content: &Vec<char>) -> (r: Vec<Vec<char>>)
    ensures
        lines_view(r@) == split_lines_spec(content@),
{
    let ghost s = content@;
    let mut out: Vec<Vec<char>> = Vec::new();
    let mut i: usize = 0;
    proof {
        assert(lines_view(out@) + split_lines_from(s, 0) =~= split_lines_from(s, 0));
    }
    while i < content.len()
        invariant
            i <= content.len(),
            s == content@,
            lines_view(out@) + split_lines_from(s, i as int) == split_lines_from(s, 0),
        decreases content.len() - i,
    {
        let mut p = i;
        while p < content.len() && content[p] != '\n'
            invariant
                i <= p <= content.len(),
                s == content@,
                first_nl(s, i as int) == first_nl(s, p as int),
            decreases content.len() - p,
        {
            p = p + 1;
        }
        proof {
            assert(first_nl(s, i as int) == p as int);
        }
        let end = if p > i && content[p - 1] == '\r' {
            p - 1
        } else {
            p
        };
        let mut seg: Vec<char> = Vec::new();
        copy_range(&mut seg, content, i, end);
        proof {
            assert(seg@ =~= strip_cr(s.subrange(i as int, p as int)));
        }
        let ghost prev = out@;
        out.push(seg);
        proof {
            assert(lines_view(prev.push(seg)) =~= lines_view(prev) + seq![seg@]);
            if (p as int) < s.len() {
                assert(lines_view(prev) + (seq![seg@] + split_lines_from(s, p + 1)) =~= lines_view(
                    prev.push(seg),
                ) + split_lines_from(s, p + 1));
            } else {
                assert(seg@ =~= strip_cr(s.subrange(i as int, s.len() as int)));
                assert(lines_view(prev) + seq![seg@] =~= lines_view(prev.push(seg))
                    + Seq::<Seq<char>>::empty());
            }
        }
        if p < content.len() {
            i = p + 1;
        } else {
            i = p;
        }
    }
    proof {
        assert(split_lines_from(s, i as int) =~= Seq::<Seq<char>>::empty());
        assert(lines_view(out@) + Seq::<Seq<char>>::empty() =~= lines_view(out@));
    }
    out
}

/// Rejoins a file's lines with single line feeds, as the rewritten file
/// is stored.
pub fn join_lines(lines: &Vec<Vec<char>>) -> (r: Vec<char>)
    ensures
        r@ == join_lines_spec(lines_view(lines@)),
{
    let ghost lv = lines_view(lines@);
    let mut out: Vec<char> = Vec::new();
    let mut k: usize = 0;
    proof {
        assert(lv.skip(0) =~= lv);
        assert(out@ + join_lines_spec(lv) =~= join_lines_spec(lv));
    }
    while k < lines.len()
        invariant
            k <= lines.len(),
            lv == lines_view(lines@),
            lv.len() == lines@.len(),
            out@ + join_lines_spec(lv.skip(k as int)) == join_lines_spec(lv),
        decreases lines.len() - k,
    {
        let ghost tail = lv.skip(k as int);
        proof {
            assert(tail[0] == lv[k as int]);
            assert(tail.drop_first() =~= lv.skip(k + 1));
            assert(lv[k as int] == lines@[k as int]@);
        }
        let ghost before = out@;
        push_chars(&mut out, &lines[k]);
        if k + 1 < lines.len() {
            out.push('\n');
            proof {
                assert(out@ =~= before + (lv[k as int] + seq!['\n']));
                assert(join_lines_spec(tail) == lv[k as int] + seq!['\n'] + join_lines_spec(
                    lv.skip(k + 1),
                ));
                assert(before + (lv[k as int] + seq!['\n'] + join_lines_spec(lv.skip(k + 1)))
                    =~= (before + (lv[k as int] + seq!['\n'])) + join_lines_spec(lv.skip(k + 1)));
            }
        } else {
            proof {
                assert(tail.len() == 1);
                assert(join_lines_spec(tail) == lv[k as int]);
                assert(lv.skip(k + 1) =~= Seq::<Seq<char>>::empty());
                assert(out@ + join_lines_spec(lv.skip(k + 1)) =~= out@);
            }
        }
        k = k + 1;
    }
    proof {
        assert(lv.skip(lv.len() as int) =~= Seq::<Seq<char>>::empty());
        assert(out@ + join_lines_spec(Seq::<Seq<char>>::empty()) =~= out@);
    }
    out
}

proof fn lemma_first_nl_past(s: Seq<char>, i: int, p: int)
    requires
        0 <= i <= p <= s.len(),
        forall|j: int| i <= j < p ==> s[j] != '\n',
        p < s.len() ==> s[p] == '\n',
    ensures
        first_nl(s, i) == if p < s.len() {
            p
        } else {
            s.len() as int
        },
    decreases p - i,
{
    if i < p {
        lemma_first_nl_past(s, i + 1, p);
    }
}

proof fn lemma_first_nl_props(s: Seq<char>, i: int)
    requires
        0 <= i <= s.len(),
    ensures
        i <= first_nl(s, i) <= s.len(),
        first_nl(s, i) < s.len() ==> s[first_nl(s, i)] == '\n',
        forall|j: int| i <= j < first_nl(s, i) ==> s[j] != '\n',
    decreases s.len() - i,
{
    if i < s.len() && s[i] != '\n' {
        lemma_first_nl_props(s, i + 1);
    }
}

proof fn lemma_split_shift(s: Seq<char>, i: int)
    requires
        0 <= i <= s.len(),
    ensures
        split_lines_from(s, i) == split_lines_spec(s.subrange(i, s.len() as int)),
    decreases s.len() - i,
{
    let t = s.subrange(i, s.len() as int);
    if i >= s.len() {
        assert(t.len() == 0);
    } else {
        lemma_first_nl_props(s, i);
        let p = first_nl(s, i);
        let q = p - i;
        lemma_first_nl_past(t, 0, q);
        assert(first_nl(t, 0) == if q < t.len() {
            q
        } else {
            t.len() as int
        });
        if p < s.len() {
            assert(t.subrange(0, q) =~= s.subrange(i, p));
            lemma_split_shift(s, p + 1);
            lemma_split_shift(t, q + 1);
            assert(t.subrange(q + 1, t.len() as int) =~= s.subrange(p + 1, s.len() as int));
        } else {
            assert(t.subrange(0, t.len() as int) =~= t);
            assert(s.subrange(i, s.len() as int) =~= t);
        }
    }
}

/// Lines that a join stores losslessly: none holds a line feed or ends
/// with a carriage return, and the last one is not empty.
pub open spec fn joinable_lines(ls: Seq<Seq<char>>) -> bool {
    (forall|k: int| 0 <= k < ls.len() ==> !ls[k].contains('\n')) && (forall|k: int|
        0 <= k < ls.len() && ls[k].len() > 0 ==> ls[k][ls[k].len() - 1] != '\r') && (ls.len() > 0
        ==> ls[ls.len() - 1].len() > 0)
}

/// Splitting a joined file recovers its lines: storing a rewritten
/// catalog and reading it back yields the same lines, as long as no line
/// holds a line feed or ends with a carriage return and the last line is
/// not empty.
pub proof fn lemma_join_then_split(ls: Seq<Seq<char>>)
    requires
        joinable_lines(ls),
    ensures
        split_lines_spec(join_lines_spec(ls)) == ls,
    decreases ls.len(),
{
    if ls.len() == 0 {
    } else if ls.len() == 1 {
        let s = ls[0];
        lemma_first_nl_past(s, 0, s.len() as int);
        assert(s.subrange(0, s.len() as int) =~= s);
        assert(strip_cr(s) == s);
        assert(split_lines_spec(join_lines_spec(ls)) =~= ls);
    } else {
        let h = ls[0];
        let rest = ls.drop_first();
        let s = join_lines_spec(ls);
        assert(s == h + seq!['\n'] + join_lines_spec(rest));
        assert(forall|k: int| 0 <= k < rest.len() ==> rest[k] == ls[k + 1]);
        lemma_join_then_split(rest);
        assert(forall|j: int| 0 <= j < h.len() ==> s[j] == h[j]);
        assert(s[h.len() as int] == '\n');
        lemma_first_nl_past(s, 0, h.len() as int);
        assert(s.subrange(0, h.len() as int) =~= h);
        assert(strip_cr(h) == h);
        lemma_split_shift(s, h.len() as int + 1);
        assert(s.subrange(h.len() as int + 1, s.len() as int) =~= join_lines_spec(rest));
        assert(split_lines_spec(s) == seq![h] + rest);
        assert(seq![h] + rest =~= ls);
    }
}

/// Whether line `i` starts a singular record: a `msgid ` line directly
/// followed by a `msgstr` line.
pub open spec fn singular_shape(d: Seq<Seq<char>>, i: int) -> bool {
    is_msgid_line(d[i]) && i + 1 < d.len() && is_msgstr_line(d[i + 1])
}

/// Whether line `i` starts a plural record: a `msgid ` line followed by a
/// `msgid_plural` line, a `msgstr[0]` line and one more slot line.
pub open spec fn plural_shape(d: Seq<Seq<char>>, i: int) -> bool {
    is_msgid_line(d[i]) && i + 3 < d.len() && is_msgid_plural_line(d[i + 1]) && is_msgstr0_line(
        d[i + 2],
    )
}

/// The records that a scan of the lines from position `i` on finds to
/// need translation, or the first line whose quoted payload could not be
/// located. Recognized records are skipped whole: two lines for a
/// singular record, four for a plural record; any other line advances the
/// scan by one.
pub open spec fn scan_spec(d: Seq<Seq<char>>, force: bool, i: int) -> Result<
    Seq<RecordModel>,
    Seq<char>,
>
    decreases d.len() - i,
{
    if i >= d.len() {
        Ok(Seq::empty())
    } else if singular_shape(d, i) {
        match extract_spec(d[i]) {
            None => Err(d[i]),
            Some(key) => match extract_spec(d[i + 1]) {
                None => Err(d[i + 1]),
                Some(cur) => match scan_spec(d, force, i + 2) {
                    Err(e) => Err(e),
                    Ok(rest) => {
                        let r = RecordModel::Singular { at: i, key, current: cur };
                        if needs_translation(r, force) {
                            Ok(seq![r] + rest)
                        } else {
                            Ok(rest)
                        }
                    },
                },
            },
        }
    } else if plural_shape(d, i) {
        match extract_spec(d[i + 1]) {
            None => Err(d[i + 1]),
            Some(pkey) => match extract_spec(d[i + 2]) {
                None => Err(d[i + 2]),
                Some(s0) => match extract_spec(d[i + 3]) {
                    None => Err(d[i + 3]),
                    Some(s1) => match scan_spec(d, force, i + 4) {
                        Err(e) => Err(e),
                        Ok(rest) => {
                            let r = RecordModel::Plural {
                                at: i,
                                plural_key: pkey,
                                slot0: s0,
                                slot1: s1,
                            };
                            if needs_translation(r, force) {
                                Ok(seq![r] + rest)
                            } else {
                                Ok(rest)
                            }
                        },
                    },
                },
            },
        }
    } else {
        scan_spec(d, force, i + 1)
    }
}

/// Walks the file's lines and collects the records that need translation:
/// every recognized record with an empty translation slot, or every
/// recognized record when force mode is set. A recognized record line
/// without a locatable quoted payload aborts the whole scan.
pub fn scan_catalog(lines: &Vec<Vec<char>>, force: bool) -> (r: Result<
    Vec<CatalogRecord>,
    MalformedLineError,
>)
    ensures
        match r {
            Ok(recs) => scan_spec(lines_view(lines@), force, 0) == Ok::<Seq<RecordModel>, Seq<char>>(records_view(recs@)),
            Err(e) => scan_spec(lines_view(lines@), force, 0) == Err::<Seq<RecordModel>, Seq<char>>(e.line@),
        },
{
    let ghost d = lines_view(lines@);
    let mut recs: Vec<CatalogRecord> = Vec::new();
    let mut i: usize = 0;
    while i < lines.len()
        invariant
            i <= lines.len(),
            d == lines_view(lines@),
            d.len() == lines@.len(),
            scan_spec(d, force, i as int) is Ok ==> scan_spec(d, force, 0) == Ok::<
                Seq<RecordModel>,
                Seq<char>,
            >(records_view(recs@) + scan_spec(d, force, i as int)->Ok_0),
            scan_spec(d, force, i as int) is Err ==> scan_spec(d, force, 0) == scan_spec(
                d,
                force,
                i as int,
            ),
        decreases lines.len() - i,
    {
        proof {
            assert(d[i as int] == lines@[i as int]@);
            assert(d[i + 1] == lines@[i + 1]@ || i + 1 >= d.len());
        }
        if is_msgid(&lines[i]) && lines.len() - i > 1 && is_msgstr(&lines[i + 1]) {
            let ghost i0 = i as int;
            assert(singular_shape(d, i0));
            let key = match extract_po_string(&lines[i]) {
                Ok(k) => k,
                Err(e) => {
                    return Err(e);
                },
            };
            let cur = match extract_po_string(&lines[i + 1]) {
                Ok(c) => c,
                Err(e) => {
                    return Err(e);
                },
            };
            let needed = force || cur.len() == 0;
            let ghost m = RecordModel::Singular { at: i0, key: key@, current: cur@ };
            if needed {
                let rec = CatalogRecord::Singular { at: i, key, current: cur };
                proof {
                    let ghost prev = recs@;
                    assert(rec@ == m);
                    assert(records_view(prev.push(rec)) =~= records_view(prev) + seq![m]);
                }
                let ghost prev = recs@;
                recs.push(rec);
                proof {
                    if scan_spec(d, force, i0 + 2) is Ok {
                        let rest2 = scan_spec(d, force, i0 + 2)->Ok_0;
                        assert(scan_spec(d, force, i0) == Ok::<Seq<RecordModel>, Seq<char>>(
                            seq![m] + rest2,
                        ));
                        assert(records_view(prev) + (seq![m] + rest2) =~= records_view(prev.push(rec))
                            + rest2);
                    }
                }
            }
            i = i + 2;
        } else if is_msgid(&lines[i]) && lines.len() - i > 3 && is_msgid_plural(&lines[i + 1])
            && is_msgstr0(&lines[i + 2]) {
            let ghost i0 = i as int;
            proof {
                assert(d[i0 + 2] == lines@[i0 + 2]@);
                assert(d[i0 + 3] == lines@[i0 + 3]@);
            }
            assert(plural_shape(d, i0));
            assert(!singular_shape(d, i0));
            let pkey = match extract_po_string(&lines[i + 1]) {
                Ok(k) => k,
                Err(e) => {
                    return Err(e);
                },
            };
            let s0 = match extract_po_string(&lines[i + 2]) {
                Ok(c) => c,
                Err(e) => {
                    return Err(e);
                },
            };
            let s1 = match extract_po_string(&lines[i + 3]) {
                Ok(c) => c,
                Err(e) => {
                    return Err(e);
                },
            };
            let needed = force || s0.len() == 0 || s1.len() == 0;
            let ghost m = RecordModel::Plural {
                at: i0,
                plural_key: pkey@,
                slot0: s0@,
                slot1: s1@,
            };
            if needed {
                let rec = CatalogRecord::Plural { at: i, plural_key: pkey, slot0: s0, slot1: s1 };
                proof {
                    let ghost prev = recs@;
                    assert(rec@ == m);
                    assert(records_view(prev.push(rec)) =~= records_view(prev) + seq![m]);
                }
                let ghost prev = recs@;
                recs.push(rec);
                proof {
                    if scan_spec(d, force, i0 + 4) is Ok {
                        let rest2 = scan_spec(d, force, i0 + 4)->Ok_0;
                        assert(scan_spec(d, force, i0) == Ok::<Seq<RecordModel>, Seq<char>>(
                            seq![m] + rest2,
                        ));
                        assert(records_view(prev) + (seq![m] + rest2) =~= records_view(prev.push(rec))
                            + rest2);
                    }
                }
            }
            i = i + 4;
        } else {
            i = i + 1;
        }
    }
    proof {
        assert(scan_spec(d, force, i as int) == Ok::<Seq<RecordModel>, Seq<char>>(Seq::empty()));
        assert(records_view(recs@) + Seq::<RecordModel>::empty() =~= records_view(recs@));
    }
    Ok(recs)
}

/// Whether a record's lines lie inside the file.
pub open spec fn rec_in_bounds(d: Seq<Seq<char>>, r: RecordModel) -> bool {
    0 <= rec_at(r) && rec_at(r) + rec_span(r) <= d.len()
}

/// Whether the records lie inside the file, in scan order and without
/// overlapping line spans — the shape in which [`scan_catalog`] finds
/// them.
pub open spec fn records_ordered(d: Seq<Seq<char>>, rs: Seq<RecordModel>) -> bool {
    (forall|k: int| 0 <= k < rs.len() ==> rec_in_bounds(d, rs[k])) && (forall|k1: int, k2: int|
        0 <= k1 < k2 < rs.len() ==> rec_at(rs[k1]) + rec_span(rs[k1]) <= rec_at(rs[k2]))
}

/// The file after one record's translation slots are overwritten with the
/// translated text `t`: a singular record's `msgstr` line is replaced,
/// and both slot lines of a plural record receive the same text.
pub open spec fn apply_one(d: Seq<Seq<char>>, r: RecordModel, t: Seq<char>) -> Seq<Seq<char>> {
    match r {
        RecordModel::Singular { at, .. } => d.update(at + 1, render_msgstr(t)),
        RecordModel::Plural { at, .. } => d.update(at + 2, render_msgstr0(t)).update(
            at + 3,
            render_msgstr1(t),
        ),
    }
}

/// The file after every record's translation slots are overwritten with
/// the matching translated text.
pub open spec fn apply_spec(d: Seq<Seq<char>>, rs: Seq<RecordModel>, ts: Seq<Seq<char>>) -> Seq<
    Seq<char>,
>
    decreases rs.len(),
{
    if rs.len() == 0 {
        d
    } else {
        apply_spec(apply_one(d, rs[0], ts[0]), rs.drop_first(), ts.drop_first())
    }
}

/// Overwriting records keeps the number of lines.
pub proof fn lemma_apply_spec_len(d: Seq<Seq<char>>, rs: Seq<RecordModel>, ts: Seq<Seq<char>>)
    requires
        forall|k: int| 0 <= k < rs.len() ==> rec_in_bounds(d, rs[k]),
    ensures
        apply_spec(d, rs, ts).len() == d.len(),
    decreases rs.len(),
{
    if rs.len() > 0 {
        let d1 = apply_one(d, rs[0], ts[0]);
        assert(d1.len() == d.len());
        assert(forall|k: int| 0 <= k < rs.drop_first().len() ==> rs.drop_first()[k] == rs[k + 1]);
        lemma_apply_spec_len(d1, rs.drop_first(), ts.drop_first());
    }
}

proof fn lemma_apply_snoc(
    d: Seq<Seq<char>>,
    rs: Seq<RecordModel>,
    ts: Seq<Seq<char>>,
    r: RecordModel,
    t: Seq<char>,
)
    requires
        ts.len() == rs.len(),
    ensures
        apply_spec(d, rs.push(r), ts.push(t)) == apply_one(apply_spec(d, rs, ts), r, t),
    decreases rs.len(),
{
    if rs.len() == 0 {
        assert(rs.push(r)[0] == r);
        assert(rs.push(r).drop_first() =~= Seq::<RecordModel>::empty());
        assert(ts.push(t).drop_first() =~= Seq::<Seq<char>>::empty());
        assert(apply_spec(
            apply_one(d, r, t),
            Seq::<RecordModel>::empty(),
            Seq::<Seq<char>>::empty(),
        ) == apply_one(d, r, t));
        assert(apply_spec(d, rs.push(r), ts.push(t)) == apply_one(d, r, t));
    } else {
        assert(rs.push(r).drop_first() =~= rs.drop_first().push(r));
        assert(ts.push(t).drop_first() =~= ts.drop_first().push(t));
        assert(rs.push(r)[0] == rs[0]);
        assert(ts.push(t)[0] == ts[0]);
        lemma_apply_snoc(apply_one(d, rs[0], ts[0]), rs.drop_first(), ts.drop_first(), r, t);
    }
}

/// Rewrites the translation slots of the scanned records with the
/// translated texts, one text per record, and counts the records changed.
/// The count is per record: a plural record's two slots count once.
pub fn apply_translations(
    lines: &Vec<Vec<char>>,
    recs: &Vec<CatalogRecord>,
    translations: &Vec<Vec<char>>,
) -> (r: (Vec<Vec<char>>, usize))
    requires
        records_ordered(lines_view(lines@), records_view(recs@)),
        translations@.len() == recs@.len(),
    ensures
        lines_view(r.0@) == apply_spec(
            lines_view(lines@),
            records_view(recs@),
            lines_view(translations@),
        ),
        r.0@.len() == lines@.len(),
        r.1 == recs@.len(),
{
    let ghost d = lines_view(lines@);
    let ghost rsv = records_view(recs@);
    let ghost tsv = lines_view(translations@);
    let mut out: Vec<Vec<char>> = Vec::new();
    let mut j: usize = 0;
    while j < lines.len()
        invariant
            j <= lines.len(),
            d == lines_view(lines@),
            lines_view(out@) == d.subrange(0, j as int),
            out@.len() == j,
        decreases lines.len() - j,
    {
        let copied = clone_chars(&lines[j]);
        out.push(copied);
        proof {
            assert(lines_view(out@) =~= d.subrange(0, j + 1));
        }
        j = j + 1;
    }
    proof {
        assert(d.subrange(0, d.len() as int) =~= d);
    }
    let mut k: usize = 0;
    while k < recs.len()
        invariant
            k <= recs.len(),
            translations@.len() == recs@.len(),
            d == lines_view(lines@),
            rsv == records_view(recs@),
            tsv == lines_view(translations@),
            records_ordered(d, rsv),
            rsv.len() == recs@.len(),
            tsv.len() == recs@.len(),
            out@.len() == d.len(),
            lines_view(out@) == apply_spec(d, rsv.subrange(0, k as int), tsv.subrange(0, k as int)),
        decreases recs.len() - k,
    {
        let ghost rsk = rsv.subrange(0, k as int);
        let ghost tsk = tsv.subrange(0, k as int);
        proof {
            assert(forall|m: int| 0 <= m < rsk.len() ==> rsk[m] == rsv[m]);
            lemma_apply_spec_len(d, rsk, tsk);
            assert(rsv.subrange(0, k + 1) =~= rsk.push(rsv[k as int]));
            assert(tsv.subrange(0, k + 1) =~= tsk.push(tsv[k as int]));
            lemma_apply_snoc(d, rsk, tsk, rsv[k as int], tsv[k as int]);
            assert(rsv[k as int] == recs@[k as int]@);
            assert(tsv[k as int] == translations@[k as int]@);
            assert(rec_in_bounds(d, rsv[k as int]));
        }
        match &recs[k] {
            CatalogRecord::Singular { at, .. } => {
                let total = out.len();
                proof {
                    assert(rec_at(rsv[k as int]) == *at as int);
                    assert(rec_span(rsv[k as int]) == 2);
                    assert(*at as int + 2 <= total as int);
                }
                let newline = render_msgstr_line(&translations[k]);
                out.set(*at + 1, newline);
                proof {
                    assert(lines_view(out@) =~= apply_one(
                        apply_spec(d, rsk, tsk),
                        rsv[k as int],
                        tsv[k as int],
                    ));
                }
            },
            CatalogRecord::Plural { at, .. } => {
                let total = out.len();
                proof {
                    assert(rec_at(rsv[k as int]) == *at as int);
                    assert(rec_span(rsv[k as int]) == 4);
                    assert(*at as int + 4 <= total as int);
                }
                let n0 = render_msgstr_slot_line('0', &translations[k]);
                let n1 = render_msgstr_slot_line('1', &translations[k]);
                out.set(*at + 2, n0);
                out.set(*at + 3, n1);
                proof {
                    assert(n0@ == render_msgstr0(tsv[k as int]));
                    assert(n1@ == render_msgstr1(tsv[k as int]));
                    assert(lines_view(out@) =~= apply_one(
                        apply_spec(d, rsk, tsk),
                        rsv[k as int],
                        tsv[k as int],
                    ));
                }
            },
        }
        k = k + 1;
    }
    proof {
        assert(rsv.subrange(0, rsv.len() as int) =~= rsv);
        assert(tsv.subrange(0, tsv.len() as int) =~= tsv);
    }
    let count = recs.len();
    (out, count)
}

fn render_msgstr_line(t: &Vec<char>) -> (r: Vec<char>)
    ensures
        r@ == render_msgstr(t@),
{
    let mut r: Vec<char> = Vec::new();
    r.push('m');
    r.push('s');
    r.push('g');
    r.push('s');
    r.push('t');
    r.push('r');
    r.push(' ');
    r.push('"');
    proof {
        assert(r@ =~= seq!['m', 's', 'g', 's', 't', 'r', ' ', '"']);
    }
    push_chars(&mut r, t);
    r.push('"');
    proof {
        assert(r@ =~= render_msgstr(t@));
    }
    r
}

fn render_msgstr_slot_line(idx: char, t: &Vec<char>) -> (r: Vec<char>)
    ensures
        r@ == seq!['m', 's', 'g', 's', 't', 'r', '[', idx, ']', ' ', '"'] + t@ + seq!['"'],
{
    let mut r: Vec<char> = Vec::new();
    r.push('m');
    r.push('s');
    r.push('g');
    r.push('s');
    r.push('t');
    r.push('r');
    r.push('[');
    r.push(idx);
    r.push(']');
    r.push(' ');
    r.push('"');
    proof {
        assert(r@ =~= seq!['m', 's', 'g', 's', 't', 'r', '[', idx, ']', ' ', '"']);
    }
    push_chars(&mut r, t);
    r.push('"');
    proof {
        assert(r@ =~= seq!['m', 's', 'g', 's', 't', 'r', '[', idx, ']', ' ', '"'] + t@
            + seq!['"']);
    }
    r
}

/// Whether line `j` is a translation slot of the record: the `msgstr`
/// line of a singular record, or one of the two indexed slot lines of a
/// plural record.
pub open spec fn is_slot_of(r: RecordModel, j: int) -> bool {
    match r {
        RecordModel::Singular { at, .. } => j == at + 1,
        RecordModel::Plural { at, .. } => j == at + 2 || j == at + 3,
    }
}

/// Whether line `j` is a translation slot of some record in `rs`.
pub open spec fn is_slot_line(rs: Seq<RecordModel>, j: int) -> bool {
    exists|k: int| 0 <= k < rs.len() && is_slot_of(rs[k], j)
}

/// Whether the record's translation slots in the rewritten file hold the
/// rendered text `t`.
pub open spec fn slots_rendered(dout: Seq<Seq<char>>, r: RecordModel, t: Seq<char>) -> bool {
    match r {
        RecordModel::Singular { at, .. } => dout[at + 1] == render_msgstr(t),
        RecordModel::Plural { at, .. } => dout[at + 2] == render_msgstr0(t) && dout[at + 3]
            == render_msgstr1(t),
    }
}

/// Rewriting touches exactly the translation slots: a singular record's
/// single `msgstr` line and a plural record's two indexed slot lines
/// receive the rendered translated text, both plural slots the same text,
/// and every other line — the key and plural-key lines among them — is
/// left as it was.
pub proof fn lemma_apply_touches_only_slots(
    d: Seq<Seq<char>>,
    rs: Seq<RecordModel>,
    ts: Seq<Seq<char>>,
)
    requires
        records_ordered(d, rs),
        ts.len() == rs.len(),
    ensures
        apply_spec(d, rs, ts).len() == d.len(),
        forall|j: int|
            0 <= j < d.len() && !is_slot_line(rs, j) ==> apply_spec(d, rs, ts)[j] == d[j],
        forall|k: int| 0 <= k < rs.len() ==> slots_rendered(apply_spec(d, rs, ts), rs[k], ts[k]),
        forall|k: int|
            0 <= k < rs.len() ==> apply_spec(d, rs, ts)[rec_at(rs[k])] == d[rec_at(rs[k])],
        forall|k: int|
            0 <= k < rs.len() && rs[k] is Plural ==> apply_spec(d, rs, ts)[rec_at(rs[k]) + 1]
                == d[rec_at(rs[k]) + 1],
    decreases rs.len(),
{
    lemma_apply_spec_len(d, rs, ts);
    let res = apply_spec(d, rs, ts);
    if rs.len() == 0 {
    } else {
        let r0 = rs[0];
        let t0 = ts[0];
        let d1 = apply_one(d, r0, t0);
        let rs1 = rs.drop_first();
        let ts1 = ts.drop_first();
        assert(forall|m: int| 0 <= m < rs1.len() ==> rs1[m] == rs[m + 1]);
        assert(forall|m: int| 0 <= m < ts1.len() ==> ts1[m] == ts[m + 1]);
        assert(records_ordered(d1, rs1));
        lemma_apply_touches_only_slots(d1, rs1, ts1);
        assert(res == apply_spec(d1, rs1, ts1));

        // a line that is a slot of no record in rs is also a slot of no
        // record in the tail, and apply_one leaves it alone
        assert forall|j: int| 0 <= j < d.len() && !is_slot_line(rs, j) implies res[j] == d[j] by {
            assert(!is_slot_of(rs[0], j));
            if is_slot_line(rs1, j) {
                let m = choose|m: int| 0 <= m < rs1.len() && is_slot_of(rs1[m], j);
                assert(is_slot_of(rs[m + 1], j));
                assert(is_slot_line(rs, j));
            }
            assert(d1[j] == d[j]);
        }

        // the slots of the first record are rendered by apply_one and no
        // later record touches them
        assert forall|j: int| is_slot_of(r0, j) implies !is_slot_line(rs1, j) by {
            assert(rec_at(r0) + 1 <= j < rec_at(r0) + rec_span(r0));
            if is_slot_line(rs1, j) {
                let m = choose|m: int| 0 <= m < rs1.len() && is_slot_of(rs1[m], j);
                assert(rs1[m] == rs[m + 1]);
                assert(rec_at(r0) + rec_span(r0) <= rec_at(rs[m + 1]));
                assert(j >= rec_at(rs[m + 1]) + 1);
            }
        }
        match r0 {
            RecordModel::Singular { at, .. } => {
                assert(is_slot_of(r0, at + 1));
                assert(!is_slot_line(rs1, at + 1));
                assert(d1[at + 1] == render_msgstr(t0));
                assert(res[at + 1] == d1[at + 1]);
            },
            RecordModel::Plural { at, .. } => {
                assert(is_slot_of(r0, at + 2));
                assert(is_slot_of(r0, at + 3));
                assert(!is_slot_line(rs1, at + 2));
                assert(!is_slot_line(rs1, at + 3));
                assert(d1[at + 2] == render_msgstr0(t0));
                assert(d1[at + 3] == render_msgstr1(t0));
                assert(res[at + 2] == d1[at + 2]);
                assert(res[at + 3] == d1[at + 3]);
            },
        }
        assert(slots_rendered(res, r0, t0));

        // the remaining records are rendered by the induction hypothesis
        assert forall|k: int| 1 <= k < rs.len() implies slots_rendered(res, rs[k], ts[k]) by {
            assert(rs1[k - 1] == rs[k]);
            assert(ts1[k - 1] == ts[k]);
        }

        // key lines are never slots, so the clause above leaves them alone
        assert forall|k: int| 0 <= k < rs.len() implies !is_slot_line(rs, rec_at(rs[k])) by {
            lemma_key_line_is_no_slot(d, rs, k, rec_at(rs[k]));
        }
        assert forall|k: int| 0 <= k < rs.len() && rs[k] is Plural implies !is_slot_line(
            rs,
            rec_at(rs[k]) + 1,
        ) by {
            lemma_key_line_is_no_slot(d, rs, k, rec_at(rs[k]) + 1);
        }
    }
}

/// A line of record `k` that lies before its first translation slot is a
/// slot of no record at all.
proof fn lemma_key_line_is_no_slot(d: Seq<Seq<char>>, rs: Seq<RecordModel>, k: int, j: int)
    requires
        records_ordered(d, rs),
        0 <= k < rs.len(),
        rec_at(rs[k]) <= j,
        j < rec_at(rs[k]) + rec_span(rs[k]),
        !is_slot_of(rs[k], j),
    ensures
        !is_slot_line(rs, j),
{
    if is_slot_line(rs, j) {
        let m = choose|m: int| 0 <= m < rs.len() && is_slot_of(rs[m], j);
        assert(rec_at(rs[m]) + 1 <= j < rec_at(rs[m]) + rec_span(rs[m]));
        if m < k {
            assert(rec_at(rs[m]) + rec_span(rs[m]) <= rec_at(rs[k]));
        } else if m > k {
            assert(rec_at(rs[k]) + rec_span(rs[k]) <= rec_at(rs[m]));
        }
    }
}

/// Whether every record that a scan from position `i` on recognizes is
/// well formed and fully populated: its quoted payloads can be located
/// and none of its translation slots is empty.
pub open spec fn catalog_complete(d: Seq<Seq<char>>, i: int) -> bool
    decreases d.len() - i,
{
    if i >= d.len() {
        true
    } else if singular_shape(d, i) {
        extract_spec(d[i]) is Some && extract_spec(d[i + 1]) is Some && extract_spec(
            d[i + 1],
        )->Some_0.len() > 0 && catalog_complete(d, i + 2)
    } else if plural_shape(d, i) {
        extract_spec(d[i + 1]) is Some && extract_spec(d[i + 2]) is Some && extract_spec(
            d[i + 3],
        ) is Some && extract_spec(d[i + 2])->Some_0.len() > 0 && extract_spec(
            d[i + 3],
        )->Some_0.len() > 0 && catalog_complete(d, i + 4)
    } else {
        catalog_complete(d, i + 1)
    }
}

/// A catalog whose records are all fully populated scans to no pending
/// records when force mode is unset, and rewriting nothing leaves the
/// file unchanged: the scan is idempotent on complete catalogs.
pub proof fn lemma_complete_catalog_unchanged(d: Seq<Seq<char>>, i: int)
    requires
        catalog_complete(d, i),
    ensures
        scan_spec(d, false, i) == Ok::<Seq<RecordModel>, Seq<char>>(Seq::empty()),
        apply_spec(d, Seq::empty(), Seq::empty()) == d,
    decreases d.len() - i,
{
    if i >= d.len() {
    } else if singular_shape(d, i) {
        lemma_complete_catalog_unchanged(d, i + 2);
    } else if plural_shape(d, i) {
        lemma_complete_catalog_unchanged(d, i + 4);
    } else {
        lemma_complete_catalog_unchanged(d, i + 1);
    }
}

/// How many records a scan from position `i` on recognizes, whatever
/// their translation state.
pub open spec fn record_count(d: Seq<Seq<char>>, i: int) -> int
    decreases d.len() - i,
{
    if i >= d.len() {
        0
    } else if singular_shape(d, i) {
        1 + record_count(d, i + 2)
    } else if plural_shape(d, i) {
        1 + record_count(d, i + 4)
    } else {
        record_count(d, i + 1)
    }
}

/// With force mode set, a scan that succeeds returns every recognized
/// record, whatever its prior translation state: the changed count equals
/// the number of well-formed records.
pub proof fn lemma_force_counts_all_records(d: Seq<Seq<char>>, i: int)
    requires
        scan_spec(d, true, i) is Ok,
    ensures
        scan_spec(d, true, i)->Ok_0.len() == record_count(d, i),
    decreases d.len() - i,
{
    if i >= d.len() {
    } else if singular_shape(d, i) {
        lemma_force_counts_all_records(d, i + 2);
    } else if plural_shape(d, i) {
        lemma_force_counts_all_records(d, i + 4);
    } else {
        lemma_force_counts_all_records(d, i + 1);
    }
}

/// The records of a successful scan lie inside the file, in scan order
/// and without overlap, from the scan's start position on: what
/// [`scan_catalog`] returns is fit to hand to [`apply_translations`].
pub proof fn lemma_scan_records_ordered(d: Seq<Seq<char>>, force: bool, i: int)
    requires
        0 <= i,
        scan_spec(d, force, i) is Ok,
    ensures
        records_ordered(d, scan_spec(d, force, i)->Ok_0),
        forall|k: int|
            0 <= k < scan_spec(d, force, i)->Ok_0.len() ==> rec_at(
                scan_spec(d, force, i)->Ok_0[k],
            ) >= i,
    decreases d.len() - i,
{
    if i >= d.len() {
    } else if singular_shape(d, i) {
        lemma_scan_records_ordered(d, force, i + 2);
        let rs = scan_spec(d, force, i)->Ok_0;
        let rest = scan_spec(d, force, i + 2)->Ok_0;
        if rs.len() != rest.len() {
            assert(rs == seq![
                RecordModel::Singular {
                    at: i,
                    key: extract_spec(d[i])->Some_0,
                    current: extract_spec(d[i + 1])->Some_0,
                },
            ] + rest);
            assert(forall|k: int| 1 <= k < rs.len() ==> rs[k] == rest[k - 1]);
        }
    } else if plural_shape(d, i) {
        lemma_scan_records_ordered(d, force, i + 4);
        let rs = scan_spec(d, force, i)->Ok_0;
        let rest = scan_spec(d, force, i + 4)->Ok_0;
        if rs.len() != rest.len() {
            assert(rs == seq![
                RecordModel::Plural {
                    at: i,
                    plural_key: extract_spec(d[i + 1])->Some_0,
                    slot0: extract_spec(d[i + 2])->Some_0,
                    slot1: extract_spec(d[i + 3])->Some_0,
                },
            ] + rest);
            assert(forall|k: int| 1 <= k < rs.len() ==> rs[k] == rest[k - 1]);
        }
    } else {
        lemma_scan_records_ordered(d, force, i + 1);
    }
}

/// The instruction string for translating a catalog key into the given
/// language.
pub open spec fn translation_instructions_spec(language: Seq<char>) -> Seq<char> {
    "You are a professional translator for gettext messages. You will translate the message to "@
        + language + ". You must preserve placeholder, written in the format `%{placeholder}`."@
}

/// Builds the instruction string that asks for a translation into the
/// given language while keeping `%{...}` placeholders intact.
pub fn build_translation_instructions(language: &str) -> (r: String)
    ensures
        r@ == translation_instructions_spec(language@),
{
    let mut r =
        "You are a professional translator for gettext messages. You will translate the message to ".to_owned();
    r.append(language);
    r.append(". You must preserve placeholder, written in the format `%{placeholder}`.");
    r
}

/// The prompt that carries one catalog key to the service.
pub open spec fn translation_prompt_spec(input: Seq<char>, language: Seq<char>) -> Seq<char> {
    "Translate this gettext message to "@ + language
        + ", preserving placeholders like `%{...}`.\n\n\t\tImportant:\n\t\t- If it's already in "@
        + language
        + ", just return the original text.\n\t\t- Just return the translation, do not add any other text or comments.\n\n\t\tText to translate:\n\t\t\""@
        + input + "\""@
}

/// Builds the prompt that asks for one text to be translated into the
/// given language.
pub fn build_translation_prompt(input: &str, lang: &str) -> (r: String)
    ensures
        r@ == translation_prompt_spec(input@, lang@),
{
    let mut r = "Translate this gettext message to ".to_owned();
    r.append(lang);
    r.append(
        ", preserving placeholders like `%{...}`.\n\n\t\tImportant:\n\t\t- If it's already in ",
    );
    r.append(lang);
    r.append(
        ", just return the original text.\n\t\t- Just return the translation, do not add any other text or comments.\n\n\t\tText to translate:\n\t\t\"",
    );
    r.append(input);
    r.append("\"");
    r
}

/// Builds the full request for translating one catalog key into the
/// language that the two-letter code names: the code is resolved through
/// the lookup table, and instructions and prompt are phrased with the
/// resolved language name.
pub fn build_catalog_request(msg: &str, iso_code: &str) -> (r: AiRequest)
    ensures
        r.model@ == "gpt-4o-mini"@,
        r.instructions@ == translation_instructions_spec(language_name_spec(iso_code@)),
        r.input@ == translation_prompt_spec(msg@, language_name_spec(iso_code@)),
{
    let language = iso_to_name(iso_code);
    let instructions = build_translation_instructions(language);
    let prompt = build_translation_prompt(msg, language);
    AiRequest::new(instructions, prompt)
}

} // verus!
