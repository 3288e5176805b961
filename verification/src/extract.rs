//! What is read out of the lines of the piped stream.
//!
//! The version path keeps the first line that has the shape of a version
//! line; the normal path collects every diagnostic code, in the order in
//! which the codes appear. A line that is no text is passed over.

use crate::dispatch::RunPath;
use crate::pattern::{
    error_codes_from, error_codes_in, first_match_groups, is_code_at, regex_captures,
    regex_error_codes, BRACKETED_CODE_LEN, ERROR_CODE_PATTERN, VERSION_PATTERN,
};
use crate::text::{text_of_bytes, utf8_text};
use vstd::prelude::*;

verus! {

/// The three parts of a version line.
#[derive(Clone, Debug, PartialEq, Eq)]
pub struct VersionInfo {
    pub version: String,
    pub version_hash: String,
    pub build_date: String,
}

/// A [`VersionInfo`] with its texts as characters.
pub struct VersionModel {
    pub version: Seq<char>,
    pub version_hash: Seq<char>,
    pub build_date: Seq<char>,
}

impl View for VersionInfo {
    type V = VersionModel;

    open spec fn view(&self) -> VersionModel {
        VersionModel {
            version: self.version@,
            version_hash: self.version_hash@,
            build_date: self.build_date@,
        }
    }
}

impl DeepView for VersionInfo {
    type V = VersionModel;

    open spec fn deep_view(&self) -> VersionModel {
        self@
    }
}

/// What has been read out of a stream so far.
#[derive(Clone, Debug, PartialEq, Eq)]
pub struct Findings {
    /// The first version line, once one has been seen.
    pub version: Option<VersionInfo>,
    /// The diagnostic codes, in the order of their appearance.
    pub errors: Vec<String>,
}

/// [`Findings`] with their texts as characters.
pub struct FindingsModel {
    pub version: Option<VersionModel>,
    pub errors: Seq<Seq<char>>,
}

impl View for Findings {
    type V = FindingsModel;

    open spec fn view(&self) -> FindingsModel {
        FindingsModel { version: self.version.deep_view(), errors: self.errors.deep_view() }
    }
}

impl DeepView for Findings {
    type V = FindingsModel;

    open spec fn deep_view(&self) -> FindingsModel {
        self@
    }
}

/// Nothing found yet.
pub open spec fn no_findings() -> FindingsModel {
    FindingsModel { version: None, errors: Seq::empty() }
}

/// The text of group `i`, empty where the match has no such group or the
/// group took no part in it.
pub open spec fn group_text(groups: Seq<Option<Seq<char>>>, i: int) -> Seq<char> {
    if 0 <= i < groups.len() {
        match groups[i] {
            Some(text) => text,
            None => Seq::empty(),
        }
    } else {
        Seq::empty()
    }
}

/// The version read from the groups of a match: the version number is the
/// first group, the hash the second, the date the third.
pub open spec fn version_of_groups(found: Option<Seq<Option<Seq<char>>>>) -> Option<VersionModel> {
    match found {
        Some(groups) => Some(
            VersionModel {
                version: group_text(groups, 1),
                version_hash: group_text(groups, 2),
                build_date: group_text(groups, 3),
            },
        ),
        None => None,
    }
}

/// The version that the line `text` states, if it is a version line.
pub open spec fn version_in(text: Seq<char>) -> Option<VersionModel> {
    version_of_groups(first_match_groups(VERSION_PATTERN@, text))
}

/// What is known after the text `text` has been read on `path`.
pub open spec fn scan_text(path: RunPath, found: FindingsModel, text: Seq<char>) -> FindingsModel {
    match path {
        RunPath::PlainPassthrough => found,
        RunPath::VersionQuery => if found.version is Some {
            found
        } else {
            FindingsModel { version: version_in(text), errors: found.errors }
        },
        RunPath::NormalRun => FindingsModel {
            version: found.version,
            errors: found.errors + error_codes_in(text),
        },
    }
}

/// What is known after the line `line` has been read on `path`. Bytes that
/// are not text change nothing.
pub open spec fn scan_line(path: RunPath, found: FindingsModel, line: Seq<u8>) -> FindingsModel {
    match text_of_bytes(line) {
        Some(text) => scan_text(path, found, text),
        None => found,
    }
}

/// What is known after `lines` have been read on `path`, first to last.
pub open spec fn scan_lines(path: RunPath, found: FindingsModel, lines: Seq<Seq<u8>>)
    -> FindingsModel
    decreases lines.len(),
{
    if lines.len() == 0 {
        found
    } else {
        scan_line(path, scan_lines(path, found, lines.drop_last()), lines.last())
    }
}

/// Reading `earlier` and then `later` is reading the two as one sequence.
pub proof fn lemma_scan_lines_concat(
    path: RunPath,
    found: FindingsModel,
    earlier: Seq<Seq<u8>>,
    later: Seq<Seq<u8>>,
)
    ensures
        scan_lines(path, found, earlier + later) == scan_lines(
            path,
            scan_lines(path, found, earlier),
            later,
        ),
    decreases later.len(),
{
    if later.len() == 0 {
        assert(earlier + later =~= earlier);
    } else {
        lemma_scan_lines_concat(path, found, earlier, later.drop_last());
        assert((earlier + later).drop_last() =~= earlier + later.drop_last());
        assert((earlier + later).last() == later.last());
    }
}

/// The diagnostic-code matcher keeps no memory and drops no repetition: a
/// text read twice adds its codes twice, in order, behind what was there.
pub proof fn lemma_codes_accumulate(found: FindingsModel, text: Seq<char>)
    ensures
        scan_text(RunPath::NormalRun, scan_text(RunPath::NormalRun, found, text), text).errors
            == found.errors + error_codes_in(text) + error_codes_in(text),
        scan_text(RunPath::NormalRun, found, text).version == found.version,
{
}

/// Every code that is found is `E` and four more characters, none of them
/// a line feed.
pub proof fn lemma_codes_are_well_shaped(text: Seq<char>, from: int, k: int)
    requires
        0 <= k < error_codes_from(text, from).len(),
    ensures
        error_codes_from(text, from)[k].len() == 5,
        error_codes_from(text, from)[k][0] == 'E',
        !error_codes_from(text, from)[k].contains('\n'),
    decreases text.len() - from,
{
    if 0 <= from < text.len() {
        if is_code_at(text, from) {
            if k == 0 {
                let code = text.subrange(from + 1, from + 6);
                assert(error_codes_from(text, from)[0] == code);
                assert forall|j: int| 0 <= j < code.len() implies code[j] != '\n' by {
                    if j > 0 {
                        assert(code[j] == text[from + 1 + j]);
                    }
                }
            } else {
                lemma_codes_are_well_shaped(text, from + BRACKETED_CODE_LEN, k - 1);
            }
        } else {
            lemma_codes_are_well_shaped(text, from + 1, k);
        }
    }
}

/// A search comes back empty exactly where no bracketed code starts at or
/// behind the position it sets out from.
pub proof fn lemma_no_codes_iff_none_starts(text: Seq<char>, from: int)
    requires
        0 <= from,
    ensures
        error_codes_from(text, from).len() == 0 <==> forall|i: int|
            from <= i ==> !is_code_at(text, i),
    decreases text.len() - from,
{
    if from < text.len() {
        if !is_code_at(text, from) {
            lemma_no_codes_iff_none_starts(text, from + 1);
            if error_codes_from(text, from).len() == 0 {
                assert forall|i: int| from <= i implies !is_code_at(text, i) by {
                    if i > from {
                        assert(from + 1 <= i);
                    }
                }
            }
        }
    }
}

/// No code starts anywhere in the line `line`, or `line` is no text.
pub open spec fn holds_no_code(line: Seq<u8>) -> bool {
    match text_of_bytes(line) {
        Some(text) => forall|i: int| !is_code_at(text, i),
        None => true,
    }
}

/// Lines that hold no code add none: the list of codes stays as it was.
pub proof fn lemma_lines_without_codes(found: FindingsModel, lines: Seq<Seq<u8>>)
    requires
        forall|k: int| 0 <= k < lines.len() ==> holds_no_code(#[trigger] lines[k]),
    ensures
        scan_lines(RunPath::NormalRun, found, lines) == found,
    decreases lines.len(),
{
    if lines.len() > 0 {
        let earlier = lines.drop_last();
        assert forall|k: int| 0 <= k < earlier.len() implies holds_no_code(
            #[trigger] earlier[k],
        ) by {
            assert(earlier[k] == lines[k]);
        }
        lemma_lines_without_codes(found, earlier);
        assert(holds_no_code(lines.last()));
        match text_of_bytes(lines.last()) {
            Some(text) => {
                lemma_no_codes_iff_none_starts(text, 0);
                assert(found.errors + error_codes_in(text) =~= found.errors);
            },
            None => {},
        }
    }
}

/// Once a version line has been seen, no later line changes what is known.
pub proof fn lemma_first_version_stays(found: FindingsModel, lines: Seq<Seq<u8>>)
    requires
        found.version is Some,
    ensures
        scan_lines(RunPath::VersionQuery, found, lines) == found,
    decreases lines.len(),
{
    if lines.len() > 0 {
        lemma_first_version_stays(found, lines.drop_last());
    }
}

/// On the plain path nothing is ever read out of a line.
pub proof fn lemma_plain_path_finds_nothing(found: FindingsModel, lines: Seq<Seq<u8>>)
    ensures
        scan_lines(RunPath::PlainPassthrough, found, lines) == found,
    decreases lines.len(),
{
    if lines.len() > 0 {
        lemma_plain_path_finds_nothing(found, lines.drop_last());
    }
}

fn group_string(groups: &Vec<Option<String>>, i: usize) -> (text: String)
    ensures
        text@ == group_text(groups.deep_view(), i as int),
{
    if i < groups.len() {
        match &groups[i] {
            Some(text) => text.clone(),
            None => String::new(),
        }
    } else {
        String::new()
    }
}

/// Reads the three parts of a version out of the groups of a match, or
/// nothing where there was no match.
pub fn version_from_groups(found: &Option<Vec<Option<String>>>) -> (info: Option<VersionInfo>)
    ensures
        info.deep_view() == version_of_groups(found.deep_view()),
{
    match found {
        Some(groups) => Some(
            VersionInfo {
                version: group_string(groups, 1),
                version_hash: group_string(groups, 2),
                build_date: group_string(groups, 3),
            },
        ),
        None => None,
    }
}

/// The version matcher: the parts of the version that `line` states, or
/// nothing where `line` is no version line.
pub fn match_version(line: &str) -> (info: Option<VersionInfo>)
    ensures
        info.deep_view() == version_in(line@),
{
    let found = regex_captures(VERSION_PATTERN, line);
    version_from_groups(&found)
}

/// The diagnostic-code matcher: every code of `line`, left to right,
/// without its brackets.
pub fn match_error_codes(line: &str) -> (codes: Vec<String>)
    ensures
        codes.deep_view() == error_codes_in(line@),
{
    regex_error_codes(ERROR_CODE_PATTERN, line)
}

impl Findings {
    /// Nothing found yet.
    pub fn new() -> (found: Findings)
        ensures
            found@ == no_findings(),
    {
        let found = Findings { version: None, errors: Vec::new() };
        assert(found.errors.deep_view() =~= Seq::<Seq<char>>::empty());
        found
    }

    /// Reads one line of the stream of `path`.
    pub fn offer(&mut self, path: RunPath, line: &[u8])
        ensures
            final(self)@ == scan_line(path, old(self)@, line@),
    {
        match path {
            RunPath::PlainPassthrough => {},
            RunPath::VersionQuery => {
                if self.version.is_none() {
                    if let Some(text) = utf8_text(line) {
                        self.version = match_version(text);
                    }
                }
            },
            RunPath::NormalRun => {
                if let Some(text) = utf8_text(line) {
                    let mut codes = match_error_codes(text);
                    let ghost added = codes.deep_view();
                    self.errors.append(&mut codes);
                    assert(self.errors.deep_view() =~= old(self).errors.deep_view() + added);
                }
            },
        }
    }
}

} // verus!
