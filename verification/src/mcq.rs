//! Multiple-choice question records and the text utilities of the
//! question-import pipeline: section extraction from the authored markdown
//! document, and keyword-based topic inference.

use vstd::prelude::*;
use vstd::string::StrSliceExecFns;
use crate::errors::{ErrorKind, GameError};
use crate::text::{contains_nocase, find_substring, spec_contains_nocase, spec_find, string_views};

verus! {

/// One multiple-choice question; `options` and `tags` hold encoded lists.
#[derive(Debug)]
pub struct McqQuestion {
    pub id: String,
    pub question_text: String,
    pub explanation: Option<String>,
    pub options: String,
    pub correct_answer_index: i32,
    pub difficulty: String,
    pub topic: Option<String>,
    pub language: String,
    pub tags: Option<String>,
    pub created_at: String,
    pub updated_at: String,
}

/// The list view of a question.
#[derive(Debug)]
pub struct QuestionListItem {
    pub id: String,
    pub question_text: String,
    pub difficulty: String,
    pub topic: Option<String>,
    pub language: String,
}

/// What lies between the first occurrence of `start_marker` and the next
/// occurrence of `end_marker` after it; the whole remainder when the end
/// marker never comes; nothing when the start marker is absent.
pub open spec fn spec_extract_section(
    content: Seq<char>,
    start_marker: Seq<char>,
    end_marker: Seq<char>,
) -> Option<Seq<char>> {
    match spec_find(content, start_marker) {
        None => None,
        Some(i) => {
            let rest = content.skip(i + start_marker.len());
            match spec_find(rest, end_marker) {
                None => Some(rest),
                Some(j) => Some(rest.take(j)),
            }
        },
    }
}

/// Cut one marker-delimited section out of an authored document.
pub fn extract_section(content: &str, start_marker: &str, end_marker: &str) -> (r: Option<String>)
    ensures
        r is Some <==> spec_extract_section(content@, start_marker@, end_marker@) is Some,
        r matches Some(out) ==> Some(out@) == spec_extract_section(
            content@,
            start_marker@,
            end_marker@,
        ),
{
    let n: usize = content.unicode_len();
    let sl: usize = start_marker.unicode_len();
    match find_substring(content, start_marker) {
        None => None,
        Some(i) => {
            let rest: &str = content.substring_char(i + sl, n);
            proof {
                assert(rest@ =~= content@.skip(i + sl));
            }
            match find_substring(rest, end_marker) {
                Some(j) => {
                    let cut: &str = rest.substring_char(0, j);
                    proof {
                        assert(cut@ =~= rest@.take(j as int));
                    }
                    Some(cut.to_owned())
                },
                None => Some(rest.to_owned()),
            }
        },
    }
}

/// The topic a question is filed under: the first keyword family, in the
/// fixed priority order below, that occurs in the question text
/// (ASCII-case-insensitively); `general` when none does.
pub open spec fn spec_infer_topic(s: Seq<char>) -> Seq<char> {
    if spec_contains_nocase(s, "variable"@) || spec_contains_nocase(s, "assignment"@) {
        "variables"@
    } else if spec_contains_nocase(s, "data type"@) || spec_contains_nocase(s, "int"@)
        || spec_contains_nocase(s, "float"@) || spec_contains_nocase(s, "bool"@) {
        "data-types"@
    } else if spec_contains_nocase(s, "string"@) || spec_contains_nocase(s, "concatenate"@) {
        "strings"@
    } else if spec_contains_nocase(s, "list"@) || spec_contains_nocase(s, "array"@) {
        "lists"@
    } else if spec_contains_nocase(s, "dictionary"@) || spec_contains_nocase(s, "dict"@) {
        "dictionaries"@
    } else if spec_contains_nocase(s, "tuple"@) {
        "tuples"@
    } else if spec_contains_nocase(s, "set"@) {
        "sets"@
    } else if spec_contains_nocase(s, "if "@) || spec_contains_nocase(s, "else"@)
        || spec_contains_nocase(s, "elif"@) || spec_contains_nocase(s, "conditional"@) {
        "conditionals"@
    } else if spec_contains_nocase(s, "loop"@) || spec_contains_nocase(s, "for "@)
        || spec_contains_nocase(s, "while"@) || spec_contains_nocase(s, "range"@) {
        "loops"@
    } else if spec_contains_nocase(s, "break"@) || spec_contains_nocase(s, "continue"@) {
        "loop-control"@
    } else if spec_contains_nocase(s, "function"@) || spec_contains_nocase(s, "def "@)
        || spec_contains_nocase(s, "return"@) {
        "functions"@
    } else if spec_contains_nocase(s, "lambda"@) {
        "lambda"@
    } else if spec_contains_nocase(s, "decorator"@) {
        "decorators"@
    } else if spec_contains_nocase(s, "generator"@) || spec_contains_nocase(s, "yield"@) {
        "generators"@
    } else if spec_contains_nocase(s, "class"@) || spec_contains_nocase(s, "object"@)
        || spec_contains_nocase(s, "__init__"@) {
        "classes"@
    } else if spec_contains_nocase(s, "inheritance"@) || spec_contains_nocase(s, "subclass"@) {
        "inheritance"@
    } else if spec_contains_nocase(s, "self"@) || spec_contains_nocase(s, "method"@) {
        "methods"@
    } else if spec_contains_nocase(s, "property"@) || spec_contains_nocase(s, "@property"@) {
        "properties"@
    } else if spec_contains_nocase(s, "exception"@) || spec_contains_nocase(s, "try"@)
        || spec_contains_nocase(s, "except"@) {
        "exceptions"@
    } else if spec_contains_nocase(s, "file"@) || spec_contains_nocase(s, "read"@)
        || spec_contains_nocase(s, "write"@) {
        "file-io"@
    } else if spec_contains_nocase(s, "module"@) || spec_contains_nocase(s, "import"@) {
        "modules"@
    } else if spec_contains_nocase(s, "async"@) || spec_contains_nocase(s, "await"@) {
        "async"@
    } else if spec_contains_nocase(s, "operator"@) || spec_contains_nocase(s, "=="@)
        || spec_contains_nocase(s, "+"@) {
        "operators"@
    } else if spec_contains_nocase(s, " and "@) || spec_contains_nocase(s, " or "@)
        || spec_contains_nocase(s, " not "@) {
        "logic"@
    } else if spec_contains_nocase(s, "len"@) || spec_contains_nocase(s, "max"@)
        || spec_contains_nocase(s, "min"@) || spec_contains_nocase(s, "sum"@) {
        "built-in-functions"@
    } else if spec_contains_nocase(s, "map"@) || spec_contains_nocase(s, "filter"@)
        || spec_contains_nocase(s, "reduce"@) {
        "functional-programming"@
    } else if spec_contains_nocase(s, "enumerate"@) || spec_contains_nocase(s, "zip"@) {
        "iterables"@
    } else {
        "general"@
    }
}

/// File a question under a topic by scanning its text for keywords.
pub fn infer_topic(text: &str) -> (r: &'static str)
    ensures
        r@ == spec_infer_topic(text@),
{
    if contains_nocase(text, "variable") || contains_nocase(text, "assignment") {
        "variables"
    } else if contains_nocase(text, "data type") || contains_nocase(text, "int")
        || contains_nocase(text, "float") || contains_nocase(text, "bool") {
        "data-types"
    } else if contains_nocase(text, "string") || contains_nocase(text, "concatenate") {
        "strings"
    } else if contains_nocase(text, "list") || contains_nocase(text, "array") {
        "lists"
    } else if contains_nocase(text, "dictionary") || contains_nocase(text, "dict") {
        "dictionaries"
    } else if contains_nocase(text, "tuple") {
        "tuples"
    } else if contains_nocase(text, "set") {
        "sets"
    } else if contains_nocase(text, "if ") || contains_nocase(text, "else") || contains_nocase(
        text,
        "elif",
    ) || contains_nocase(text, "conditional") {
        "conditionals"
    } else if contains_nocase(text, "loop") || contains_nocase(text, "for ") || contains_nocase(
        text,
        "while",
    ) || contains_nocase(text, "range") {
        "loops"
    } else if contains_nocase(text, "break") || contains_nocase(text, "continue") {
        "loop-control"
    } else if contains_nocase(text, "function") || contains_nocase(text, "def ")
        || contains_nocase(text, "return") {
        "functions"
    } else if contains_nocase(text, "lambda") {
        "lambda"
    } else if contains_nocase(text, "decorator") {
        "decorators"
    } else if contains_nocase(text, "generator") || contains_nocase(text, "yield") {
        "generators"
    } else if contains_nocase(text, "class") || contains_nocase(text, "object") || contains_nocase(
        text,
        "__init__",
    ) {
        "classes"
    } else if contains_nocase(text, "inheritance") || contains_nocase(text, "subclass") {
        "inheritance"
    } else if contains_nocase(text, "self") || contains_nocase(text, "method") {
        "methods"
    } else if contains_nocase(text, "property") || contains_nocase(text, "@property") {
        "properties"
    } else if contains_nocase(text, "exception") || contains_nocase(text, "try") || contains_nocase(
        text,
        "except",
    ) {
        "exceptions"
    } else if contains_nocase(text, "file") || contains_nocase(text, "read") || contains_nocase(
        text,
        "write",
    ) {
        "file-io"
    } else if contains_nocase(text, "module") || contains_nocase(text, "import") {
        "modules"
    } else if contains_nocase(text, "async") || contains_nocase(text, "await") {
        "async"
    } else if contains_nocase(text, "operator") || contains_nocase(text, "==") || contains_nocase(
        text,
        "+",
    ) {
        "operators"
    } else if contains_nocase(text, " and ") || contains_nocase(text, " or ") || contains_nocase(
        text,
        " not ",
    ) {
        "logic"
    } else if contains_nocase(text, "len") || contains_nocase(text, "max") || contains_nocase(
        text,
        "min",
    ) || contains_nocase(text, "sum") {
        "built-in-functions"
    } else if contains_nocase(text, "map") || contains_nocase(text, "filter") || contains_nocase(
        text,
        "reduce",
    ) {
        "functional-programming"
    } else if contains_nocase(text, "enumerate") || contains_nocase(text, "zip") {
        "iterables"
    } else {
        "general"
    }
}


// ---------------------------------------------------------------------------
// The question-file grammar.
//
// The authored document lists questions in six-line blocks:
//
//     7. What does len() return?
//        a) the last element
//        b) the number of elements
//        c) the first element
//        d) nothing
//        **Answer: b**
//
// A block is a numbered question line, four indented option lines labelled
// a) through d), and an indented answer line naming one of the four
// letters. The scanner walks the file line by line, emits each block it
// can read, steps over unreadable lines, and rejects the whole file when a
// block's question number does not fit the stored 32-bit column.
// ---------------------------------------------------------------------------

/// Horizontal whitespace inside a line.
pub open spec fn is_ws(c: char) -> bool {
    c == ' ' || c == '\t' || c == '\r'
}

pub open spec fn is_digit(c: char) -> bool {
    48 <= c as u32 <= 57
}

/// First position at or after `i` that is not horizontal whitespace.
pub open spec fn ws_end(s: Seq<char>, i: int) -> int
    recommends
        0 <= i <= s.len(),
    decreases s.len() - i, when 0 <= i <= s.len()
{
    if i >= s.len() || !is_ws(s[i]) {
        i
    } else {
        ws_end(s, i + 1)
    }
}

/// First position at or after `i` that is not a digit.
pub open spec fn digits_end(s: Seq<char>, i: int) -> int
    recommends
        0 <= i <= s.len(),
    decreases s.len() - i, when 0 <= i <= s.len()
{
    if i >= s.len() || !is_digit(s[i]) {
        i
    } else {
        digits_end(s, i + 1)
    }
}

/// The decimal value of the digit run `s[i..j)`.
pub open spec fn digits_value(s: Seq<char>, i: int, j: int) -> int
    recommends
        0 <= i <= j <= s.len(),
    decreases j - i, when i <= j
{
    if i >= j {
        0
    } else {
        digits_value(s, i, j - 1) * 10 + (s[j - 1] as u32 - 48)
    }
}

/// Last position at or before `j` with no trailing whitespace after it.
pub open spec fn rtrim_idx(s: Seq<char>, j: int) -> int
    recommends
        0 <= j <= s.len(),
    decreases j, when 0 <= j
{
    if j <= 0 || !is_ws(s[j - 1]) {
        j
    } else {
        rtrim_idx(s, j - 1)
    }
}

/// The tail of `s` from `from`, with surrounding whitespace removed.
pub open spec fn spec_trim_of(s: Seq<char>, from: int) -> Seq<char> {
    let a = ws_end(s, from);
    let b = rtrim_idx(s, s.len() as int);
    if a >= b {
        Seq::empty()
    } else {
        s.subrange(a, b)
    }
}

/// A question line: digits from column 0, a dot, at least one space, and
/// at least one more character. Yields the number and the trimmed text.
pub open spec fn spec_question_line(line: Seq<char>) -> Option<(int, Seq<char>)> {
    let d = digits_end(line, 0);
    if d == 0 || d >= line.len() || line[d] != '.' || d + 2 >= line.len() || !is_ws(line[d + 1]) {
        None
    } else {
        Some((digits_value(line, 0, d), spec_trim_of(line, d + 1)))
    }
}

/// An option line: indentation, the label letter, a closing parenthesis,
/// at least one space and at least one more character. Yields the trimmed
/// option text.
pub open spec fn spec_option_line(line: Seq<char>, letter: char) -> Option<Seq<char>> {
    let w = ws_end(line, 0);
    if w == 0 || w + 3 >= line.len() || line[w] != letter || line[w + 1] != ')' || !is_ws(
        line[w + 2],
    ) {
        None
    } else {
        Some(spec_trim_of(line, w + 2))
    }
}

/// An answer line: indentation, the answer marker, at least one space, a
/// letter a through d, and the closing emphasis. Yields the letter's index.
pub open spec fn spec_answer_line(line: Seq<char>) -> Option<int> {
    let w = ws_end(line, 0);
    if w == 0 || w + 9 > line.len() {
        None
    } else if !(line[w] == '*' && line[w + 1] == '*' && line[w + 2] == 'A' && line[w + 3] == 'n'
        && line[w + 4] == 's' && line[w + 5] == 'w' && line[w + 6] == 'e' && line[w + 7] == 'r'
        && line[w + 8] == ':') {
        None
    } else {
        let u = ws_end(line, w + 9);
        if u == w + 9 || u + 2 >= line.len() {
            None
        } else if !(line[u] == 'a' || line[u] == 'b' || line[u] == 'c' || line[u] == 'd') {
            None
        } else if line[u + 1] != '*' || line[u + 2] != '*' {
            None
        } else {
            Some(line[u] as u32 - 97)
        }
    }
}

/// First line break at or after `i`.
pub open spec fn nl_from(s: Seq<char>, i: int) -> Option<int>
    recommends
        0 <= i <= s.len(),
    decreases s.len() - i, when 0 <= i <= s.len()
{
    if i >= s.len() {
        None
    } else if s[i] == '\n' {
        Some(i)
    } else {
        nl_from(s, i + 1)
    }
}

/// A text split at line breaks; the separator is dropped, a trailing break
/// yields a final empty line.
pub open spec fn spec_split_lines(s: Seq<char>) -> Seq<Seq<char>>
    decreases s.len(),
{
    match nl_from(s, 0) {
        None => seq![s],
        Some(i) => if 0 <= i < s.len() {
            seq![s.take(i)] + spec_split_lines(s.skip(i + 1))
        } else {
            seq![s]
        },
    }
}

/// A found line break lies inside the text.
pub proof fn lemma_nl_from_bounds(s: Seq<char>, i: int)
    requires
        0 <= i <= s.len(),
    ensures
        match nl_from(s, i) {
            Some(j) => i <= j < s.len() && s[j] == '\n',
            None => true,
        },
    decreases s.len() - i,
{
    if i < s.len() && s[i] != '\n' {
        lemma_nl_from_bounds(s, i + 1);
    }
}

/// One parsed question block, as the grammar sees it.
pub struct QuestionItem {
    pub number: int,
    pub question: Seq<char>,
    pub option_a: Seq<char>,
    pub option_b: Seq<char>,
    pub option_c: Seq<char>,
    pub option_d: Seq<char>,
    pub answer_index: int,
}

/// The block starting at line `i`, when all six lines fit the grammar.
pub open spec fn spec_block_at(lines: Seq<Seq<char>>, i: int) -> Option<QuestionItem>
    recommends
        0 <= i,
        i + 6 <= lines.len(),
{
    match spec_question_line(lines[i]) {
        None => None,
        Some(q) => match spec_option_line(lines[i + 1], 'a') {
            None => None,
            Some(a) => match spec_option_line(lines[i + 2], 'b') {
                None => None,
                Some(b) => match spec_option_line(lines[i + 3], 'c') {
                    None => None,
                    Some(c) => match spec_option_line(lines[i + 4], 'd') {
                        None => None,
                        Some(d) => match spec_answer_line(lines[i + 5]) {
                            None => None,
                            Some(ans) => Some(
                                QuestionItem {
                                    number: q.0,
                                    question: q.1,
                                    option_a: a,
                                    option_b: b,
                                    option_c: c,
                                    option_d: d,
                                    answer_index: ans,
                                },
                            ),
                        },
                    },
                },
            },
        },
    }
}

/// Largest question number the stored 32-bit column can carry.
pub const MAX_QUESTION_NUMBER: i64 = 2_147_483_647;

/// The scan from line `i` on: emit a block and jump past it, step over a
/// line that opens no block, and reject the file on an oversized number.
pub open spec fn spec_parse_from(lines: Seq<Seq<char>>, i: int) -> Result<Seq<QuestionItem>, ()>
    recommends
        0 <= i,
    decreases lines.len() - i, when 0 <= i
{
    if i + 6 > lines.len() {
        Ok(Seq::empty())
    } else {
        match spec_block_at(lines, i) {
            None => spec_parse_from(lines, i + 1),
            Some(item) => {
                if item.number > MAX_QUESTION_NUMBER {
                    Err(())
                } else {
                    match spec_parse_from(lines, i + 6) {
                        Ok(rest) => Ok(seq![item] + rest),
                        Err(e) => Err(e),
                    }
                }
            },
        }
    }
}

/// The questions of one section's text.
pub open spec fn spec_parse_section(section: Seq<char>) -> Result<Seq<QuestionItem>, ()> {
    spec_parse_from(spec_split_lines(section), 0)
}

/// A question as the import pipeline hands it on: the parsed block fields
/// plus the difficulty, id prefix and inferred topic it is filed under.
#[derive(Debug)]
pub struct ParsedQuestion {
    pub number: i64,
    pub question_text: String,
    pub option_a: String,
    pub option_b: String,
    pub option_c: String,
    pub option_d: String,
    pub correct_answer_index: i64,
    pub difficulty: String,
    pub id_prefix: String,
    pub topic: String,
}

impl View for ParsedQuestion {
    type V = QuestionItem;

    open spec fn view(&self) -> QuestionItem {
        QuestionItem {
            number: self.number as int,
            question: self.question_text@,
            option_a: self.option_a@,
            option_b: self.option_b@,
            option_c: self.option_c@,
            option_d: self.option_d@,
            answer_index: self.correct_answer_index as int,
        }
    }
}

/// The view sequence of a parsed-question vector.
pub open spec fn question_items(s: Seq<ParsedQuestion>) -> Seq<QuestionItem> {
    s.map_values(|q: ParsedQuestion| q@)
}

/// The labelling every question of one section carries.
pub open spec fn section_labels(
    qs: Seq<ParsedQuestion>,
    difficulty: Seq<char>,
    id_prefix: Seq<char>,
) -> bool {
    forall|k: int|
        0 <= k < qs.len() ==> (#[trigger] qs[k]).difficulty@ == difficulty && qs[k].id_prefix@
            == id_prefix && qs[k].topic@ == spec_infer_topic(qs[k]@.question)
}


/// Scan horizontal whitespace.
#[verifier::loop_isolation(false)]
fn scan_ws(line: &str, from: usize) -> (r: usize)
    requires
        from <= line@.len(),
    ensures
        r == ws_end(line@, from as int),
        from <= r <= line@.len(),
{
    let n: usize = line.unicode_len();
    let mut i: usize = from;
    while i < n
        invariant
            from <= i <= n,
            ws_end(line@, from as int) == ws_end(line@, i as int),
        decreases n - i,
    {
        let c = line.get_char(i);
        if !(c == ' ' || c == '\t' || c == '\r') {
            return i;
        }
        i = i + 1;
    }
    n
}

/// Scan a digit run.
#[verifier::loop_isolation(false)]
fn scan_digits(line: &str, from: usize) -> (r: usize)
    requires
        from <= line@.len(),
    ensures
        r == digits_end(line@, from as int),
        from <= r <= line@.len(),
{
    let n: usize = line.unicode_len();
    let mut i: usize = from;
    while i < n
        invariant
            from <= i <= n,
            digits_end(line@, from as int) == digits_end(line@, i as int),
        decreases n - i,
    {
        let c = line.get_char(i);
        let u: u32 = c as u32;
        if !(48 <= u && u <= 57) {
            return i;
        }
        i = i + 1;
    }
    n
}

/// The trimmed tail of a line, as an owned string.
#[verifier::loop_isolation(false)]
fn trimmed_from(line: &str, from: usize) -> (r: String)
    requires
        from <= line@.len(),
    ensures
        r@ == spec_trim_of(line@, from as int),
{
    let n: usize = line.unicode_len();
    let a: usize = scan_ws(line, from);
    let mut b: usize = n;
    while b > 0
        invariant
            0 <= b <= n,
            rtrim_idx(line@, n as int) == rtrim_idx(line@, b as int),
        decreases b,
    {
        let c = line.get_char(b - 1);
        if !(c == ' ' || c == '\t' || c == '\r') {
            break;
        }
        b = b - 1;
    }
    if a >= b {
        proof {
            assert(spec_trim_of(line@, from as int) =~= Seq::<char>::empty());
        }
        String::new()
    } else {
        let cut: &str = line.substring_char(a, b);
        proof {
            assert(cut@ =~= spec_trim_of(line@, from as int));
        }
        cut.to_owned()
    }
}

/// A document split at line breaks.
#[verifier::loop_isolation(false)]
fn split_lines(s: &str) -> (r: Vec<String>)
    ensures
        string_views(r@) == spec_split_lines(s@),
{
    let n: usize = s.unicode_len();
    let mut out: Vec<String> = Vec::new();
    let mut start: usize = 0;
    let mut i: usize = 0;
    proof {
        assert(s@.skip(0) =~= s@);
        assert(string_views(out@) + spec_split_lines(s@) =~= spec_split_lines(s@));
    }
    while i < n
        invariant
            0 <= start <= i <= n,
            nl_from(s@, start as int) == nl_from(s@, i as int),
            spec_split_lines(s@) == string_views(out@) + spec_split_lines(s@.skip(start as int)),
        decreases n - i,
    {
        let c = s.get_char(i);
        if c == '\n' {
            proof {
                lemma_nl_from_bounds(s@, start as int);
            }
            let line: &str = s.substring_char(start, i);
            out.push(line.to_owned());
            proof {
                let tail = s@.skip(start as int);
                assert(nl_from(s@, start as int) == Some(i as int));
                lemma_nl_from_offset(s@, start as int, i as int);
                assert(nl_from(tail, 0) == Some(i - start as int));
                assert(tail.take(i - start as int) =~= line@);
                assert(tail.skip(i - start as int + 1) =~= s@.skip(i as int + 1));
                assert(spec_split_lines(tail) == seq![line@] + spec_split_lines(
                    s@.skip(i as int + 1),
                ));
                assert(string_views(out@) =~= string_views(out@.drop_last()).push(line@));
                assert(string_views(out@) + spec_split_lines(s@.skip(i as int + 1))
                    =~= (string_views(out@.drop_last()) + spec_split_lines(tail)));
            }
            start = i + 1;
        }
        i = i + 1;
    }
    let last: &str = s.substring_char(start, n);
    out.push(last.to_owned());
    proof {
        let tail = s@.skip(start as int);
        assert(nl_from(s@, n as int) is None);
        lemma_nl_from_offset_none(s@, start as int);
        assert(nl_from(tail, 0) is None);
        assert(tail =~= last@);
        assert(spec_split_lines(tail) == seq![tail]);
        assert(string_views(out@) =~= string_views(out@.drop_last()).push(last@));
        assert(string_views(out@) =~= string_views(out@.drop_last()) + spec_split_lines(tail));
    }
    out
}

/// Looking for a line break from `start` is the same in the text and in
/// its tail from `start`, shifted.
proof fn lemma_nl_from_offset(s: Seq<char>, start: int, j: int)
    requires
        0 <= start <= j <= s.len(),
        nl_from(s, start) == Some(j),
        j < s.len(),
    ensures
        nl_from(s.skip(start), 0) == Some(j - start),
    decreases j - start,
{
    lemma_nl_from_bounds(s, start);
    if s[start] == '\n' {
        assert(s.skip(start)[0] == s[start]);
    } else {
        lemma_nl_from_offset(s, start + 1, j);
        lemma_nl_step(s.skip(start), s.skip(start + 1));
    }
}

/// The same, for an absent line break.
proof fn lemma_nl_from_offset_none(s: Seq<char>, start: int)
    requires
        0 <= start <= s.len(),
        nl_from(s, start) is None,
    ensures
        nl_from(s.skip(start), 0) is None,
    decreases s.len() - start,
{
    if start < s.len() {
        assert(s.skip(start)[0] == s[start]);
        lemma_nl_from_offset_none(s, start + 1);
        lemma_nl_step(s.skip(start), s.skip(start + 1));
    }
}

/// Searching from position 1 is searching the tail from 0, shifted by one.
proof fn lemma_nl_step(t: Seq<char>, u: Seq<char>)
    requires
        t.len() >= 1,
        u =~= t.skip(1),
    ensures
        nl_from(t, 1) == (match nl_from(u, 0) {
            Some(k) => Some(k + 1),
            None => None::<int>,
        }),
    decreases t.len(),
{
    lemma_nl_shift(t, 1);
}

/// Shifting the start of the search into a dropped prefix.
proof fn lemma_nl_shift(t: Seq<char>, p: int)
    requires
        0 <= p <= t.len(),
    ensures
        nl_from(t, p) == (match nl_from(t.skip(p), 0) {
            Some(k) => Some(k + p),
            None => None::<int>,
        }),
    decreases t.len() - p,
{
    if p < t.len() {
        assert(t.skip(p)[0] == t[p]);
        if t[p] != '\n' {
            lemma_nl_shift(t, p + 1);
            lemma_nl_shift_tail(t.skip(p), t.skip(p + 1));
        }
    }
}

proof fn lemma_nl_shift_tail(t: Seq<char>, u: Seq<char>)
    requires
        t.len() >= 1,
        u =~= t.skip(1),
        t[0] != '\n',
    ensures
        nl_from(t, 0) == (match nl_from(u, 0) {
            Some(k) => Some(k + 1),
            None => None::<int>,
        }),
    decreases t.len(),
{
    lemma_nl_from_u_zero(t, u, 1);
}

proof fn lemma_nl_from_u_zero(t: Seq<char>, u: Seq<char>, i: int)
    requires
        1 <= i <= t.len(),
        u =~= t.skip(1),
    ensures
        nl_from(t, i) == (match nl_from(u, i - 1) {
            Some(k) => Some(k + 1),
            None => None::<int>,
        }),
    decreases t.len() - i,
{
    assert(u.len() == t.len() - 1);
    if i < t.len() {
        assert(u[i - 1] == t[i]);
        if t[i] != '\n' {
            lemma_nl_from_u_zero(t, u, i + 1);
        }
    }
}


/// Everything up to a digit run's end is a digit.
proof fn lemma_digits_end_all(s: Seq<char>, i: int)
    requires
        0 <= i <= s.len(),
    ensures
        i <= digits_end(s, i) <= s.len(),
        forall|j: int| i <= j < digits_end(s, i) ==> is_digit(#[trigger] s[j]),
    decreases s.len() - i,
{
    if i < s.len() && is_digit(s[i]) {
        lemma_digits_end_all(s, i + 1);
    }
}

/// The value of a digit run is non-negative.
proof fn lemma_digits_value_nonneg(s: Seq<char>, i: int, j: int)
    requires
        0 <= i <= j <= s.len(),
        forall|l: int| i <= l < j ==> is_digit(#[trigger] s[l]),
    ensures
        digits_value(s, i, j) >= 0,
    decreases j - i,
{
    if i < j {
        lemma_digits_value_nonneg(s, i, j - 1);
    }
}

/// A longer digit run never has a smaller value.
proof fn lemma_digits_value_mono(s: Seq<char>, i: int, j: int, k: int)
    requires
        0 <= i <= j <= k <= s.len(),
        forall|l: int| i <= l < k ==> is_digit(#[trigger] s[l]),
    ensures
        digits_value(s, i, k) >= digits_value(s, i, j),
    decreases k - j,
{
    if j < k {
        lemma_digits_value_mono(s, i, j, k - 1);
        lemma_digits_value_nonneg(s, i, k - 1);
    }
}

/// How one line fared as a question opener.
enum QuestionLineParse {
    NotAQuestion,
    NumberTooLarge,
    Parsed(i64, String),
}

/// Read a question line.
#[verifier::loop_isolation(false)]
fn parse_question_line(line: &str) -> (r: QuestionLineParse)
    ensures
        match r {
            QuestionLineParse::NotAQuestion => spec_question_line(line@) is None,
            QuestionLineParse::NumberTooLarge => spec_question_line(line@) matches Some(t) && t.0
                > MAX_QUESTION_NUMBER,
            QuestionLineParse::Parsed(num, q) => spec_question_line(line@) matches Some(t) && t.0
                == num && t.1 == q@ && 0 <= num <= MAX_QUESTION_NUMBER,
        },
{
    let n: usize = line.unicode_len();
    let d: usize = scan_digits(line, 0);
    if d == 0 || d >= n {
        return QuestionLineParse::NotAQuestion;
    }
    if line.get_char(d) != '.' {
        return QuestionLineParse::NotAQuestion;
    }
    if n - d < 3 {
        return QuestionLineParse::NotAQuestion;
    }
    let c1 = line.get_char(d + 1);
    if !(c1 == ' ' || c1 == '\t' || c1 == '\r') {
        return QuestionLineParse::NotAQuestion;
    }
    proof {
        lemma_digits_end_all(line@, 0);
    }
    let mut val: i64 = 0;
    let mut j: usize = 0;
    let mut too_large = false;
    while j < d
        invariant
            0 <= j <= d,
            !too_large ==> val == digits_value(line@, 0, j as int) && 0 <= val
                <= MAX_QUESTION_NUMBER,
            too_large ==> digits_value(line@, 0, d as int) > MAX_QUESTION_NUMBER,
        decreases d - j,
    {
        if too_large {
            j = d;
        } else {
            let u: u32 = line.get_char(j) as u32;
            val = val * 10 + (u - 48) as i64;
            proof {
                assert(val == digits_value(line@, 0, j as int + 1));
            }
            if val > MAX_QUESTION_NUMBER {
                proof {
                    lemma_digits_value_mono(line@, 0, j as int + 1, d as int);
                }
                too_large = true;
            }
            j = j + 1;
        }
    }
    if too_large {
        return QuestionLineParse::NumberTooLarge;
    }
    QuestionLineParse::Parsed(val, trimmed_from(line, d + 1))
}

/// Read an option line labelled with the given letter.
fn parse_option_line(line: &str, letter: char) -> (r: Option<String>)
    ensures
        match r {
            Some(t) => spec_option_line(line@, letter) == Some(t@),
            None => spec_option_line(line@, letter) is None,
        },
{
    let n: usize = line.unicode_len();
    let w: usize = scan_ws(line, 0);
    if w == 0 || w >= n || n - w < 4 {
        return None;
    }
    if line.get_char(w) != letter || line.get_char(w + 1) != ')' {
        return None;
    }
    let c = line.get_char(w + 2);
    if !(c == ' ' || c == '\t' || c == '\r') {
        return None;
    }
    Some(trimmed_from(line, w + 2))
}

/// Read an answer line; yields the answer letter's index.
fn parse_answer_line(line: &str) -> (r: Option<i64>)
    ensures
        match r {
            Some(idx) => spec_answer_line(line@) == Some(idx as int),
            None => spec_answer_line(line@) is None,
        },
{
    let n: usize = line.unicode_len();
    let w: usize = scan_ws(line, 0);
    if w == 0 || n - w < 9 {
        return None;
    }
    let marker_ok = line.get_char(w) == '*' && line.get_char(w + 1) == '*' && line.get_char(w + 2)
        == 'A' && line.get_char(w + 3) == 'n' && line.get_char(w + 4) == 's' && line.get_char(
        w + 5,
    ) == 'w' && line.get_char(w + 6) == 'e' && line.get_char(w + 7) == 'r' && line.get_char(w + 8)
        == ':';
    if !marker_ok {
        return None;
    }
    let u: usize = scan_ws(line, w + 9);
    if u == w + 9 || u >= n || n - u < 3 {
        return None;
    }
    let lc = line.get_char(u);
    if !(lc == 'a' || lc == 'b' || lc == 'c' || lc == 'd') {
        return None;
    }
    if line.get_char(u + 1) != '*' || line.get_char(u + 2) != '*' {
        return None;
    }
    Some((lc as u32 - 97) as i64)
}

/// One fully read block, before labelling.
struct RawBlock {
    number: i64,
    question: String,
    option_a: String,
    option_b: String,
    option_c: String,
    option_d: String,
    answer_index: i64,
}

/// How six lines fared as a block.
enum BlockParse {
    NoBlock,
    NumberTooLarge,
    Block(RawBlock),
}

/// Try to read the block starting at line `i`.
fn try_block(lines: &Vec<String>, i: usize) -> (r: BlockParse)
    requires
        i + 6 <= lines@.len(),
        lines@.len() <= usize::MAX,
    ensures
        match r {
            BlockParse::NoBlock => spec_block_at(string_views(lines@), i as int) is None,
            BlockParse::NumberTooLarge => spec_block_at(string_views(lines@), i as int) matches Some(
                item,
            ) && item.number > MAX_QUESTION_NUMBER,
            BlockParse::Block(b) => spec_block_at(string_views(lines@), i as int) == Some(
                QuestionItem {
                    number: b.number as int,
                    question: b.question@,
                    option_a: b.option_a@,
                    option_b: b.option_b@,
                    option_c: b.option_c@,
                    option_d: b.option_d@,
                    answer_index: b.answer_index as int,
                },
            ) && 0 <= b.number <= MAX_QUESTION_NUMBER,
        },
{
    let q = parse_question_line(lines[i].as_str());
    if matches!(q, QuestionLineParse::NotAQuestion) {
        return BlockParse::NoBlock;
    }
    let Some(a) = parse_option_line(lines[i + 1].as_str(), 'a') else {
        return BlockParse::NoBlock;
    };
    let Some(b) = parse_option_line(lines[i + 2].as_str(), 'b') else {
        return BlockParse::NoBlock;
    };
    let Some(c) = parse_option_line(lines[i + 3].as_str(), 'c') else {
        return BlockParse::NoBlock;
    };
    let Some(d) = parse_option_line(lines[i + 4].as_str(), 'd') else {
        return BlockParse::NoBlock;
    };
    let Some(ans) = parse_answer_line(lines[i + 5].as_str()) else {
        return BlockParse::NoBlock;
    };
    match q {
        QuestionLineParse::NotAQuestion => BlockParse::NoBlock,
        QuestionLineParse::NumberTooLarge => BlockParse::NumberTooLarge,
        QuestionLineParse::Parsed(num, text) => BlockParse::Block(
            RawBlock {
                number: num,
                question: text,
                option_a: a,
                option_b: b,
                option_c: c,
                option_d: d,
                answer_index: ans,
            },
        ),
    }
}

/// Parse one difficulty section of the question document and label every
/// question it yields with the section's difficulty, id prefix and its
/// inferred topic. Fails with [`ErrorKind::InvalidState`] exactly when a
/// block carries a question number too large for the stored column.
#[verifier::loop_isolation(false)]
pub fn parse_section(section: &str, difficulty: &str, id_prefix: &str) -> (r: Result<
    Vec<ParsedQuestion>,
    GameError,
>)
    ensures
        r is Err <==> spec_parse_section(section@) is Err,
        r matches Err(e) ==> e.kind == ErrorKind::InvalidState,
        r matches Ok(v) ==> spec_parse_section(section@) matches Ok(items) && question_items(v@)
            == items && section_labels(v@, difficulty@, id_prefix@),
{
    let lines = split_lines(section);
    let ghost lv = string_views(lines@);
    let n: usize = lines.len();
    let mut out: Vec<ParsedQuestion> = Vec::new();
    let mut i: usize = 0;
    proof {
        if spec_parse_from(lv, 0) is Ok {
            assert(question_items(out@) + spec_parse_from(lv, 0).unwrap() =~= spec_parse_from(
                lv,
                0,
            ).unwrap());
        }
    }
    while i < n && n - i >= 6
        invariant
            0 <= i <= n,
            n == lines@.len(),
            lv == string_views(lines@),
            lv == spec_split_lines(section@),
            spec_parse_from(lv, 0) == (match spec_parse_from(lv, i as int) {
                Ok(rest) => Ok::<Seq<QuestionItem>, ()>(question_items(out@) + rest),
                Err(u) => Err(u),
            }),
            section_labels(out@, difficulty@, id_prefix@),
        decreases n - i,
    {
        match try_block(&lines, i) {
            BlockParse::NoBlock => {
                proof {
                    assert(spec_parse_from(lv, i as int) == spec_parse_from(lv, i as int + 1));
                }
                i = i + 1;
            },
            BlockParse::NumberTooLarge => {
                return Err(GameError::invalid_state(
                    String::from_str("Failed to parse question number"),
                ));
            },
            BlockParse::Block(block) => {
                let topic: &str = infer_topic(block.question.as_str());
                let parsed = ParsedQuestion {
                    number: block.number,
                    question_text: block.question,
                    option_a: block.option_a,
                    option_b: block.option_b,
                    option_c: block.option_c,
                    option_d: block.option_d,
                    correct_answer_index: block.answer_index,
                    difficulty: difficulty.to_owned(),
                    id_prefix: id_prefix.to_owned(),
                    topic: topic.to_owned(),
                };
                let ghost item = parsed@;
                let ghost prior = out@;
                out.push(parsed);
                proof {
                    assert(spec_block_at(lv, i as int) == Some(item));
                    assert(spec_parse_from(lv, i as int) == (match spec_parse_from(
                        lv,
                        i as int + 6,
                    ) {
                        Ok(rest) => Ok::<Seq<QuestionItem>, ()>(seq![item] + rest),
                        Err(u) => Err(u),
                    }));
                    assert(out@.drop_last() =~= prior);
                    assert(question_items(out@) =~= question_items(prior).push(item));
                    if spec_parse_from(lv, i as int + 6) is Ok {
                        assert(question_items(out@) + spec_parse_from(lv, i as int + 6).unwrap()
                            =~= question_items(prior) + (seq![item] + spec_parse_from(
                            lv,
                            i as int + 6,
                        ).unwrap()));
                    }
                }
                i = i + 6;
            },
        }
    }
    proof {
        assert(spec_parse_from(lv, i as int) == Ok::<Seq<QuestionItem>, ()>(Seq::empty()));
        assert(question_items(out@) + Seq::<QuestionItem>::empty() =~= question_items(out@));
    }
    Ok(out)
}

/// The questions one marker-delimited section contributes: none when the
/// section is absent, its parse otherwise.
pub open spec fn spec_section_questions(
    content: Seq<char>,
    start_marker: Seq<char>,
    end_marker: Seq<char>,
) -> Result<Seq<QuestionItem>, ()> {
    match spec_extract_section(content, start_marker, end_marker) {
        None => Ok(Seq::empty()),
        Some(sec) => spec_parse_section(sec),
    }
}

/// Parse the whole authored question document: the beginner, intermediate
/// and advanced sections in order, labelled easy / medium / hard with the
/// id prefixes beg / int / adv. Fails exactly when some present section
/// fails.
pub fn parse_markdown_questions(content: &str) -> (r: Result<Vec<ParsedQuestion>, GameError>)
    ensures
        ({
            let beg = spec_section_questions(
                content@,
                "## BEGINNER QUESTIONS"@,
                "## INTERMEDIATE QUESTIONS"@,
            );
            let mid = spec_section_questions(
                content@,
                "## INTERMEDIATE QUESTIONS"@,
                "## ADVANCED QUESTIONS"@,
            );
            let adv = spec_section_questions(
                content@,
                "## ADVANCED QUESTIONS"@,
                "THE_END_MARKER_THAT_DOESNT_EXIST"@,
            );
            &&& (r is Err <==> (beg is Err || mid is Err || adv is Err))
            &&& (r matches Err(e) ==> e.kind == ErrorKind::InvalidState)
            &&& (r matches Ok(v) ==> beg matches Ok(b) && mid matches Ok(m) && adv matches Ok(a)
                && question_items(v@) == b + m + a && section_labels(
                v@.subrange(0, b.len() as int),
                "easy"@,
                "beg"@,
            ) && section_labels(
                v@.subrange(b.len() as int, b.len() + m.len() as int),
                "medium"@,
                "int"@,
            ) && section_labels(
                v@.subrange(b.len() + m.len() as int, v@.len() as int),
                "hard"@,
                "adv"@,
            ))
        }),
{
    let beginner = extract_section(content, "## BEGINNER QUESTIONS", "## INTERMEDIATE QUESTIONS");
    let intermediate = extract_section(content, "## INTERMEDIATE QUESTIONS", "## ADVANCED QUESTIONS");
    let advanced = extract_section(
        content,
        "## ADVANCED QUESTIONS",
        "THE_END_MARKER_THAT_DOESNT_EXIST",
    );

    let mut questions: Vec<ParsedQuestion> = Vec::new();
    let ghost mut b_len: int = 0;
    let ghost mut m_len: int = 0;
    if let Some(section) = beginner {
        let mut part = match parse_section(section.as_str(), "easy", "beg") {
            Ok(p) => p,
            Err(e) => {
                return Err(e);
            },
        };
        proof {
            b_len = part@.len() as int;
        }
        questions.append(&mut part);
    }
    if let Some(section) = intermediate {
        let mut part = match parse_section(section.as_str(), "medium", "int") {
            Ok(p) => p,
            Err(e) => {
                return Err(e);
            },
        };
        proof {
            m_len = part@.len() as int;
        }
        questions.append(&mut part);
    }
    if let Some(section) = advanced {
        let mut part = match parse_section(section.as_str(), "hard", "adv") {
            Ok(p) => p,
            Err(e) => {
                return Err(e);
            },
        };
        questions.append(&mut part);
    }
    proof {
        let beg = spec_section_questions(
            content@,
            "## BEGINNER QUESTIONS"@,
            "## INTERMEDIATE QUESTIONS"@,
        );
        let mid = spec_section_questions(
            content@,
            "## INTERMEDIATE QUESTIONS"@,
            "## ADVANCED QUESTIONS"@,
        );
        let adv = spec_section_questions(
            content@,
            "## ADVANCED QUESTIONS"@,
            "THE_END_MARKER_THAT_DOESNT_EXIST"@,
        );
        assert(beg is Ok && mid is Ok && adv is Ok);
        assert(question_items(questions@) =~= beg.unwrap() + mid.unwrap() + adv.unwrap());
        assert(questions@.subrange(0, b_len) =~= questions@.take(b_len));
        assert(questions@.subrange(b_len, b_len + m_len) =~= questions@.skip(b_len).take(m_len));
        assert(questions@.subrange(b_len + m_len, questions@.len() as int) =~= questions@.skip(
            b_len + m_len,
        ));
    }
    Ok(questions)
}

} // verus!
