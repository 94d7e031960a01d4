//! The inline literal scanner.
//!
//! It recognizes call-like constructs `gettext("...")` — optionally with
//! trailing arguments — inside arbitrary source text, in an
//! escaped-quote-aware way, and rebuilds the text with each quoted
//! payload replaced by its translation. Matches are non-overlapping and
//! found left to right; the rebuild splices the translated texts into the
//! match's own payload range, so a payload that recurs verbatim elsewhere
//! is never touched. As in the catalog scanner, the network
//! call happens outside the library: callers translate the payloads that
//! [`find_gettext_matches`] locates and hand the results to
//! [`apply_inline_translations`].

use vstd::prelude::*;
use vstd::string::*;

use crate::chars::copy_range;
use crate::chars::push_chars;
use crate::chars::range_eq;
use crate::openai::AiRequest;
use crate::translator::lines_view;

verus! {

/// The whitespace characters the call pattern accepts between its
/// tokens: the characters with the Unicode White_Space property.
pub open spec fn is_ws_char(c: char) -> bool {
    c == ' ' || c == '\t' || c == '\n' || c == '\x0b' || c == '\x0c' || c == '\r' || c == '\u{85}'
        || c == '\u{a0}' || c == '\u{1680}' || c == '\u{2000}' || c == '\u{2001}' || c == '\u{2002}'
        || c == '\u{2003}' || c == '\u{2004}' || c == '\u{2005}' || c == '\u{2006}' || c
        == '\u{2007}' || c == '\u{2008}' || c == '\u{2009}' || c == '\u{200a}' || c == '\u{2028}'
        || c == '\u{2029}' || c == '\u{202f}' || c == '\u{205f}' || c == '\u{3000}'
}

fn is_ws(c: char) -> (r: bool)
    ensures
        r == is_ws_char(c),
{
    c == ' ' || c == '\t' || c == '\n' || c == '\x0b' || c == '\x0c' || c == '\r' || c == '\u{85}'
        || c == '\u{a0}' || c == '\u{1680}' || c == '\u{2000}' || c == '\u{2001}' || c == '\u{2002}'
        || c == '\u{2003}' || c == '\u{2004}' || c == '\u{2005}' || c == '\u{2006}' || c
        == '\u{2007}' || c == '\u{2008}' || c == '\u{2009}' || c == '\u{200a}' || c == '\u{2028}'
        || c == '\u{2029}' || c == '\u{202f}' || c == '\u{205f}' || c == '\u{3000}'
}

/// The first position at or after `i` that does not hold a whitespace
/// character, or the end of the text.
pub open spec fn skip_ws(s: Seq<char>, i: int) -> int
    decreases s.len() - i,
{
    if 0 <= i < s.len() && is_ws_char(s[i]) {
        skip_ws(s, i + 1)
    } else {
        i
    }
}

proof fn lemma_skip_ws(s: Seq<char>, i: int)
    requires
        0 <= i <= s.len(),
    ensures
        i <= skip_ws(s, i) <= s.len(),
        skip_ws(s, i) < s.len() ==> !is_ws_char(s[skip_ws(s, i)]),
    decreases s.len() - i,
{
    if i < s.len() && is_ws_char(s[i]) {
        lemma_skip_ws(s, i + 1);
    }
}

/// The position of the quote that closes a payload started at `i`:
/// a backslash escapes the following character, and an unescaped quote
/// ends the payload. Nothing is returned when the text ends first, or
/// when a backslash is followed by a line break or nothing at all.
pub open spec fn payload_close(s: Seq<char>, i: int) -> Option<int>
    decreases s.len() - i,
{
    if i < 0 || i >= s.len() {
        None
    } else if s[i] == '"' {
        Some(i)
    } else if s[i] == '\\' {
        if i + 1 < s.len() && s[i + 1] != '\n' {
            payload_close(s, i + 2)
        } else {
            None
        }
    } else {
        payload_close(s, i + 1)
    }
}

proof fn lemma_payload_close(s: Seq<char>, i: int)
    requires
        0 <= i,
        payload_close(s, i) is Some,
    ensures
        i <= payload_close(s, i)->Some_0 < s.len(),
        s[payload_close(s, i)->Some_0] == '"',
    decreases s.len() - i,
{
    if i < s.len() && s[i] != '"' {
        if s[i] == '\\' {
            lemma_payload_close(s, i + 2);
        } else {
            lemma_payload_close(s, i + 1);
        }
    }
}

/// The position of the first closing parenthesis at or after `i`.
pub open spec fn close_paren(s: Seq<char>, i: int) -> Option<int>
    decreases s.len() - i,
{
    if i < 0 || i >= s.len() {
        None
    } else if s[i] == ')' {
        Some(i)
    } else {
        close_paren(s, i + 1)
    }
}

proof fn lemma_close_paren(s: Seq<char>, i: int)
    requires
        0 <= i,
        close_paren(s, i) is Some,
    ensures
        i <= close_paren(s, i)->Some_0 < s.len(),
        s[close_paren(s, i)->Some_0] == ')',
    decreases s.len() - i,
{
    if i < s.len() && s[i] != ')' {
        lemma_close_paren(s, i + 1);
    }
}

/// Whether the text holds the word `gettext` starting at position `i`.
pub open spec fn is_gettext_at(s: Seq<char>, i: int) -> bool {
    0 <= i && i + 7 <= s.len() && s[i] == 'g' && s[i + 1] == 'e' && s[i + 2] == 't' && s[i + 3]
        == 't' && s[i + 4] == 'e' && s[i + 5] == 'x' && s[i + 6] == 't'
}

fn gettext_at(content: &Vec<char>, i: usize) -> (r: bool)
    requires
        i <= content.len(),
    ensures
        r == is_gettext_at(content@, i as int),
{
    content.len() - i >= 7 && content[i] == 'g' && content[i + 1] == 'e' && content[i + 2] == 't'
        && content[i + 3] == 't' && content[i + 4] == 'e' && content[i + 5] == 'x' && content[i
        + 6] == 't'
}

/// One recognized inline literal: where the whole call construct starts
/// and ends, and where its quoted payload lies. The payload is
/// `content[payload_start..payload_end]`, without its quotes.
pub struct InlineMatch {
    pub start: usize,
    pub payload_start: usize,
    pub payload_end: usize,
    pub end: usize,
}

/// The mathematical shape of an inline match.
pub struct MatchModel {
    pub start: int,
    pub payload_start: int,
    pub payload_end: int,
    pub end: int,
}

impl View for InlineMatch {
    type V = MatchModel;

    open spec fn view(&self) -> MatchModel {
        MatchModel {
            start: self.start as int,
            payload_start: self.payload_start as int,
            payload_end: self.payload_end as int,
            end: self.end as int,
        }
    }
}

/// The views of a sequence of matches.
pub open spec fn matches_view(ms: Seq<InlineMatch>) -> Seq<MatchModel> {
    ms.map_values(|m: InlineMatch| m@)
}

/// The match of the call pattern starting exactly at position `i`, if
/// any: the word `gettext`, an opening parenthesis, a quoted
/// escaped-quote-aware payload, optionally a comma with trailing
/// arguments, and a closing parenthesis, with whitespace allowed between
/// the tokens.
pub open spec fn match_at(s: Seq<char>, i: int) -> Option<MatchModel> {
    if !is_gettext_at(s, i) {
        None
    } else {
        let j1 = skip_ws(s, i + 7);
        if j1 < s.len() && s[j1] == '(' {
            let j2 = skip_ws(s, j1 + 1);
            if j2 < s.len() && s[j2] == '"' {
                match payload_close(s, j2 + 1) {
                    None => None,
                    Some(pe) => {
                        let j3 = skip_ws(s, pe + 1);
                        if j3 < s.len() && s[j3] == ')' {
                            Some(
                                MatchModel {
                                    start: i,
                                    payload_start: j2 + 1,
                                    payload_end: pe,
                                    end: j3 + 1,
                                },
                            )
                        } else if j3 < s.len() && s[j3] == ',' {
                            match close_paren(s, j3 + 1) {
                                None => None,
                                Some(cp) => Some(
                                    MatchModel {
                                        start: i,
                                        payload_start: j2 + 1,
                                        payload_end: pe,
                                        end: cp + 1,
                                    },
                                ),
                            }
                        } else {
                            None
                        }
                    },
                }
            } else {
                None
            }
        } else {
            None
        }
    }
}

/// A match starts where it was sought and its positions lie in order
/// inside the text.
pub proof fn lemma_match_at_bounds(s: Seq<char>, i: int)
    requires
        match_at(s, i) is Some,
    ensures
        ({
            let m = match_at(s, i)->Some_0;
            m.start == i && i + 7 < m.payload_start && m.payload_start <= m.payload_end
                && m.payload_end < m.end && m.end <= s.len()
        }),
{
    let j1 = skip_ws(s, i + 7);
    lemma_skip_ws(s, i + 7);
    let j2 = skip_ws(s, j1 + 1);
    lemma_skip_ws(s, j1 + 1);
    let pe = payload_close(s, j2 + 1)->Some_0;
    lemma_payload_close(s, j2 + 1);
    let j3 = skip_ws(s, pe + 1);
    lemma_skip_ws(s, pe + 1);
    if j3 < s.len() && s[j3] == ')' {
    } else {
        lemma_close_paren(s, j3 + 1);
    }
}

/// All matches of the call pattern at or after position `i`, found left
/// to right without overlap: the earliest match is taken and the search
/// resumes where it ends.
pub open spec fn find_matches_spec(s: Seq<char>, i: int) -> Seq<MatchModel>
    decreases s.len() - i,
{
    if i >= s.len() {
        Seq::empty()
    } else {
        match match_at(s, i) {
            Some(m) => if i < m.end <= s.len() {
                seq![m] + find_matches_spec(s, m.end)
            } else {
                seq![m]
            },
            None => find_matches_spec(s, i + 1),
        }
    }
}

/// Whether the matches lie in order at or after `from`, with payload
/// ranges inside the text — the shape in which [`find_gettext_matches`]
/// returns them.
pub open spec fn wf_matches(s: Seq<char>, ms: Seq<MatchModel>, from: int) -> bool
    decreases ms.len(),
{
    if ms.len() == 0 {
        0 <= from <= s.len()
    } else {
        0 <= from <= ms[0].payload_start && ms[0].payload_start <= ms[0].payload_end <= s.len()
            && wf_matches(s, ms.drop_first(), ms[0].payload_end)
    }
}

proof fn lemma_wf_matches_widen(s: Seq<char>, ms: Seq<MatchModel>, from: int, from2: int)
    requires
        wf_matches(s, ms, from2),
        0 <= from <= from2,
    ensures
        wf_matches(s, ms, from),
{
}

/// What a scan finds is well formed.
pub proof fn lemma_find_matches_wf(s: Seq<char>, i: int)
    requires
        0 <= i <= s.len(),
    ensures
        wf_matches(s, find_matches_spec(s, i), i),
    decreases s.len() - i,
{
    if i >= s.len() {
    } else {
        match match_at(s, i) {
            Some(m) => {
                lemma_match_at_bounds(s, i);
                lemma_find_matches_wf(s, m.end);
                let rest = find_matches_spec(s, m.end);
                lemma_wf_matches_widen(s, rest, m.payload_end, m.end);
                let all = seq![m] + rest;
                assert(all[0] == m);
                assert(all.drop_first() =~= rest);
            },
            None => {
                lemma_find_matches_wf(s, i + 1);
                lemma_wf_matches_widen(s, find_matches_spec(s, i + 1), i, i + 1);
            },
        }
    }
}

/// The quoted payload of a match.
pub open spec fn payload_of(s: Seq<char>, m: MatchModel) -> Seq<char> {
    s.subrange(m.payload_start, m.payload_end)
}

/// The text from position `from` on, with each match's payload replaced
/// by the matching translated text: the pieces between the payload ranges
/// are kept and the translations are spliced in.
pub open spec fn splice_spec(
    s: Seq<char>,
    ms: Seq<MatchModel>,
    ts: Seq<Seq<char>>,
    from: int,
) -> Seq<char>
    decreases ms.len(),
{
    if ms.len() == 0 {
        s.subrange(from, s.len() as int)
    } else {
        s.subrange(from, ms[0].payload_start) + ts[0] + splice_spec(
            s,
            ms.drop_first(),
            ts.drop_first(),
            ms[0].payload_end,
        )
    }
}

/// Whether some translated text differs from the payload it replaces.
pub open spec fn any_changed(s: Seq<char>, ms: Seq<MatchModel>, ts: Seq<Seq<char>>) -> bool {
    exists|k: int| 0 <= k < ms.len() && ts[k] != payload_of(s, ms[k])
}

/// Splicing each match's own payload back reproduces the text: a scan
/// whose translations all echo their payloads changes nothing.
pub proof fn lemma_splice_identity(
    s: Seq<char>,
    ms: Seq<MatchModel>,
    ts: Seq<Seq<char>>,
    from: int,
)
    requires
        wf_matches(s, ms, from),
        ts.len() == ms.len(),
        forall|k: int| 0 <= k < ms.len() ==> ts[k] == payload_of(s, ms[k]),
    ensures
        splice_spec(s, ms, ts, from) == s.subrange(from, s.len() as int),
        !any_changed(s, ms, ts),
    decreases ms.len(),
{
    if ms.len() == 0 {
    } else {
        let m0 = ms[0];
        assert(forall|k: int|
            0 <= k < ms.drop_first().len() ==> ms.drop_first()[k] == ms[k + 1]);
        assert(forall|k: int|
            0 <= k < ts.drop_first().len() ==> ts.drop_first()[k] == ts[k + 1]);
        lemma_splice_identity(s, ms.drop_first(), ts.drop_first(), m0.payload_end);
        assert(ts[0] == s.subrange(m0.payload_start, m0.payload_end));
        assert(s.subrange(from, m0.payload_start) + s.subrange(m0.payload_start, m0.payload_end)
            + s.subrange(m0.payload_end, s.len() as int) =~= s.subrange(from, s.len() as int));
    }
}

fn skip_ws_exec(content: &Vec<char>, i: usize) -> (r: usize)
    requires
        i <= content.len(),
    ensures
        r == skip_ws(content@, i as int),
        r <= content.len(),
{
    let mut j = i;
    while j < content.len() && is_ws(content[j])
        invariant
            i <= j <= content.len(),
            skip_ws(content@, i as int) == skip_ws(content@, j as int),
        decreases content.len() - j,
    {
        j = j + 1;
    }
    j
}

fn payload_close_exec(content: &Vec<char>, i: usize) -> (r: Option<usize>)
    requires
        i <= content.len(),
    ensures
        match r {
            Some(pe) => payload_close(content@, i as int) == Some(pe as int),
            None => payload_close(content@, i as int) is None,
        },
{
    let mut j = i;
    while j < content.len()
        invariant
            i <= j <= content.len(),
            payload_close(content@, i as int) == payload_close(content@, j as int),
        decreases content.len() - j,
    {
        let c = content[j];
        if c == '"' {
            return Some(j);
        } else if c == '\\' {
            if j + 1 < content.len() && content[j + 1] != '\n' {
                j = j + 2;
            } else {
                return None;
            }
        } else {
            j = j + 1;
        }
    }
    None
}

fn close_paren_exec(content: &Vec<char>, i: usize) -> (r: Option<usize>)
    requires
        i <= content.len(),
    ensures
        match r {
            Some(cp) => close_paren(content@, i as int) == Some(cp as int),
            None => close_paren(content@, i as int) is None,
        },
{
    let mut j = i;
    while j < content.len()
        invariant
            i <= j <= content.len(),
            close_paren(content@, i as int) == close_paren(content@, j as int),
        decreases content.len() - j,
    {
        if content[j] == ')' {
            return Some(j);
        }
        j = j + 1;
    }
    None
}

fn match_at_exec(content: &Vec<char>, i: usize) -> (r: Option<InlineMatch>)
    requires
        i <= content.len(),
    ensures
        match r {
            Some(m) => match_at(content@, i as int) == Some(m@),
            None => match_at(content@, i as int) is None,
        },
{
    if !gettext_at(content, i) {
        return None;
    }
    let j1 = skip_ws_exec(content, i + 7);
    if !(j1 < content.len() && content[j1] == '(') {
        return None;
    }
    let j2 = skip_ws_exec(content, j1 + 1);
    if !(j2 < content.len() && content[j2] == '"') {
        return None;
    }
    let pe = match payload_close_exec(content, j2 + 1) {
        Some(pe) => pe,
        None => {
            return None;
        },
    };
    proof {
        lemma_payload_close(content@, j2 + 1);
    }
    let j3 = skip_ws_exec(content, pe + 1);
    if j3 < content.len() && content[j3] == ')' {
        Some(InlineMatch { start: i, payload_start: j2 + 1, payload_end: pe, end: j3 + 1 })
    } else if j3 < content.len() && content[j3] == ',' {
        match close_paren_exec(content, j3 + 1) {
            Some(cp) => {
                proof {
                    lemma_close_paren(content@, j3 + 1);
                }
                Some(InlineMatch { start: i, payload_start: j2 + 1, payload_end: pe, end: cp + 1 })
            },
            None => None,
        }
    } else {
        None
    }
}

/// Finds every `gettext("...")` construct in the text, left to right and
/// without overlap.
pub fn find_gettext_matches(content: &Vec<char>) -> (ms: Vec<InlineMatch>)
    ensures
        matches_view(ms@) == find_matches_spec(content@, 0),
        wf_matches(content@, matches_view(ms@), 0),
{
    let ghost s = content@;
    let mut ms: Vec<InlineMatch> = Vec::new();
    let mut i: usize = 0;
    while i < content.len()
        invariant
            i <= content.len(),
            s == content@,
            matches_view(ms@) + find_matches_spec(s, i as int) == find_matches_spec(s, 0),
        decreases content.len() - i,
    {
        match match_at_exec(content, i) {
            Some(m) => {
                proof {
                    lemma_match_at_bounds(s, i as int);
                }
                let e = m.end;
                let ghost prev = ms@;
                ms.push(m);
                proof {
                    assert(matches_view(prev.push(m)) =~= matches_view(prev) + seq![m@]);
                    let rest = find_matches_spec(s, e as int);
                    assert(matches_view(prev) + (seq![m@] + rest) =~= matches_view(prev.push(m))
                        + rest);
                }
                i = e;
            },
            None => {
                i = i + 1;
            },
        }
    }
    proof {
        assert(find_matches_spec(s, i as int) == Seq::<MatchModel>::empty());
        assert(matches_view(ms@) + Seq::<MatchModel>::empty() =~= matches_view(ms@));
        lemma_find_matches_wf(s, 0);
    }
    ms
}

/// The payload text of one match, ready to be translated.
pub fn match_payload(content: &Vec<char>, m: &InlineMatch) -> (r: Vec<char>)
    requires
        m@.payload_start <= m@.payload_end <= content@.len(),
    ensures
        r@ == payload_of(content@, m@),
{
    let mut r: Vec<char> = Vec::new();
    copy_range(&mut r, content, m.payload_start, m.payload_end);
    proof {
        assert(Seq::<char>::empty() + payload_of(content@, m@) =~= payload_of(content@, m@));
    }
    r
}

/// Rebuilds the text with each match's payload replaced by the matching
/// translated text, splicing by payload ranges, and reports whether
/// anything differs from the original.
pub fn apply_inline_translations(
    content: &Vec<char>,
    ms: &Vec<InlineMatch>,
    translations: &Vec<Vec<char>>,
) -> (r: (Vec<char>, bool))
    requires
        wf_matches(content@, matches_view(ms@), 0),
        translations@.len() == ms@.len(),
    ensures
        r.0@ == splice_spec(content@, matches_view(ms@), lines_view(translations@), 0),
        r.1 == any_changed(content@, matches_view(ms@), lines_view(translations@)),
{
    let ghost s = content@;
    let ghost msv = matches_view(ms@);
    let ghost tsv = lines_view(translations@);
    let mut out: Vec<char> = Vec::new();
    let mut changed = false;
    let mut from: usize = 0;
    let mut k: usize = 0;
    proof {
        assert(msv.skip(0) =~= msv);
        assert(tsv.skip(0) =~= tsv);
        assert(Seq::<char>::empty() + splice_spec(s, msv, tsv, 0) =~= splice_spec(s, msv, tsv, 0));
    }
    while k < ms.len()
        invariant
            k <= ms.len(),
            ms@.len() == translations@.len(),
            s == content@,
            msv == matches_view(ms@),
            tsv == lines_view(translations@),
            msv.len() == ms@.len(),
            tsv.len() == ms@.len(),
            wf_matches(s, msv.skip(k as int), from as int),
            from <= content.len(),
            out@ + splice_spec(s, msv.skip(k as int), tsv.skip(k as int), from as int)
                == splice_spec(s, msv, tsv, 0),
            changed == exists|j: int| 0 <= j < k && tsv[j] != payload_of(s, msv[j]),
        decreases ms.len() - k,
    {
        let ghost tail = msv.skip(k as int);
        let ghost ttail = tsv.skip(k as int);
        proof {
            assert(tail[0] == msv[k as int]);
            assert(ttail[0] == tsv[k as int]);
            assert(tail.drop_first() =~= msv.skip(k + 1));
            assert(ttail.drop_first() =~= tsv.skip(k + 1));
            assert(msv[k as int] == ms@[k as int]@);
            assert(tsv[k as int] == translations@[k as int]@);
        }
        let ps = ms[k].payload_start;
        let pe = ms[k].payload_end;
        let ghost before = out@;
        copy_range(&mut out, content, from, ps);
        push_chars(&mut out, &translations[k]);
        let eq = range_eq(content, ps, pe, &translations[k]);
        if !eq {
            changed = true;
        }
        proof {
            assert(out@ =~= before + (s.subrange(from as int, ps as int) + tsv[k as int]));
            assert(splice_spec(s, tail, ttail, from as int) == s.subrange(from as int, ps as int)
                + tsv[k as int] + splice_spec(s, msv.skip(k + 1), tsv.skip(k + 1), pe as int));
            assert(before + (s.subrange(from as int, ps as int) + tsv[k as int] + splice_spec(
                s,
                msv.skip(k + 1),
                tsv.skip(k + 1),
                pe as int,
            )) =~= (before + (s.subrange(from as int, ps as int) + tsv[k as int])) + splice_spec(
                s,
                msv.skip(k + 1),
                tsv.skip(k + 1),
                pe as int,
            ));
        }
        from = pe;
        k = k + 1;
    }
    proof {
        assert(msv.skip(msv.len() as int) =~= Seq::<MatchModel>::empty());
        assert(tsv.skip(tsv.len() as int) =~= Seq::<Seq<char>>::empty());
    }
    let here = content.len();
    copy_range(&mut out, content, from, here);
    (out, changed)
}

/// The instruction string for translating an inline literal to English.
pub open spec fn inline_instructions_spec() -> Seq<char> {
    "You are a professional translator for gettext messages. You will translate the message to English. You must preserve placeholder, written in the format `%{placeholder}`."@
}

/// The prompt that carries one inline literal to the service.
pub open spec fn inline_prompt_spec(input: Seq<char>) -> Seq<char> {
    "Translate this gettext message to English, preserving placeholders like `%{...}`.\n\n\t\tImportant:\n\t\t- If it's already in English, just return the original text.\n\t\t- Just return the translation, do not add any other text or comments.\n\n\t\tText to translate:\n\t\t\""@
        + input + "\""@
}

/// Builds the prompt that asks for one inline literal to be translated
/// to English.
pub fn build_translation_prompt(input: &str) -> (r: String)
    ensures
        r@ == inline_prompt_spec(input@),
{
    let mut r =
        "Translate this gettext message to English, preserving placeholders like `%{...}`.\n\n\t\tImportant:\n\t\t- If it's already in English, just return the original text.\n\t\t- Just return the translation, do not add any other text or comments.\n\n\t\tText to translate:\n\t\t\"".to_owned();
    r.append(input);
    r.append("\"");
    r
}

/// Builds the full request for translating one inline literal to
/// English.
pub fn build_translation_request(prompt: String) -> (r: AiRequest)
    ensures
        r.model@ == "gpt-4o-mini"@,
        r.instructions@ == inline_instructions_spec(),
        r.input@ == prompt@,
{
    AiRequest::new(
        "You are a professional translator for gettext messages. You will translate the message to English. You must preserve placeholder, written in the format `%{placeholder}`.".to_owned(),
        prompt,
    )
}

} // verus!
