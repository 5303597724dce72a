//! What is asked of a document before a parser is let loose on it.
//!
//! The parsers of feeds follow the nesting of a document with their own
//! stack, and read numbers out of it that they take to fit.  A document is
//! handed to them only where a scan has shown that its elements are not
//! nested deeper than a limit and that its numbers are short.  The scan
//! understands a plain subset of XML: elements, comments, character data
//! sections and processing instructions, with no `<` or `>` inside a
//! quoted attribute value.  Whatever else a document holds makes the scan
//! give up, and the document counts as unfit.

use vstd::prelude::*;
use vstd::utf8::is_scalar;
use crate::template::stands_at;
use crate::text::to_chars;

verus! {

/// How deep the elements of a document may be nested.
pub const MAX_NESTING: usize = 128;

/// How many digits in a row a document may hold.
pub const MAX_DIGITS: usize = 19;

/// How many digits in a row a document may hold before a colon.
pub const MAX_DIGITS_BEFORE_COLON: usize = 15;

/// How many digits a character reference may have.
pub const MAX_REFERENCE_DIGITS: usize = 7;

/// `pattern` stands in `text` at position `at`.
pub open spec fn stands(text: Seq<char>, at: int, pattern: Seq<char>) -> bool {
    0 <= at && text.len() - at >= pattern.len() && text.skip(at).take(pattern.len() as int) == pattern
}

/// Position behind the first `pattern` that stands in `text` at or after
/// `from`.
pub open spec fn end_of_first(text: Seq<char>, pattern: Seq<char>, from: int) -> Option<int>
    decreases text.len() - from,
{
    if from < 0 || pattern.len() == 0 || text.len() - from < pattern.len() {
        None
    } else if stands(text, from, pattern) {
        Some(from + pattern.len())
    } else {
        end_of_first(text, pattern, from + 1)
    }
}

/// Position behind the `>` that ends the tag whose inside starts at
/// `from`.  `quote` is the quote that is open at `from`: `0` for none, `1`
/// for a single, `2` for a double one.  `None` where the text ends inside
/// the tag, where a `<` stands in the tag, or where a `>` stands in a
/// quoted value.
pub open spec fn tag_end(text: Seq<char>, from: int, quote: int) -> Option<int>
    decreases text.len() - from,
{
    if from < 0 || from >= text.len() {
        None
    } else if text[from] == '<' {
        None
    } else if text[from] == '>' {
        if quote == 0 {
            Some(from + 1)
        } else {
            None
        }
    } else if text[from] == '\'' && quote != 2 {
        tag_end(text, from + 1, 1 - quote)
    } else if text[from] == '"' && quote != 1 {
        tag_end(text, from + 1, 2 - quote)
    } else {
        tag_end(text, from + 1, quote)
    }
}

/// A processing instruction names no encoding, or names it once and as
/// UTF-8.
pub open spec fn keeps_encoding(instruction: Seq<char>) -> bool {
    match end_of_first(instruction, "encoding"@, 0) {
        None => true,
        Some(end) => {
            &&& stands(instruction, end, "=\"UTF-8\""@) || stands(instruction, end, "=\"utf-8\""@) || stands(
                instruction,
                end,
                "='UTF-8'"@,
            ) || stands(instruction, end, "='utf-8'"@)
            &&& end_of_first(instruction, "encoding"@, end) is None
        },
    }
}

/// The deeper of two depths.
pub open spec fn deeper(a: nat, b: nat) -> nat {
    if a < b {
        b
    } else {
        a
    }
}

/// How deep the elements of `text` are nested from position `at` on, where
/// `depth` elements are open at `at` and `deepest` is the deepest nesting
/// before `at`.  `None` where the scan gives up.
pub open spec fn nesting_from(text: Seq<char>, at: int, depth: nat, deepest: nat) -> Option<nat>
    decreases text.len() - at,
{
    if at < 0 {
        None
    } else if at >= text.len() {
        Some(deepest)
    } else if text[at] != '<' {
        nesting_from(text, at + 1, depth, deepest)
    } else if stands(text, at, "<!--"@) {
        match end_of_first(text, "-->"@, at + 4) {
            Some(end) => if at < end <= text.len() {
                nesting_from(text, end, depth, deepest)
            } else {
                None
            },
            None => None,
        }
    } else if stands(text, at, "<![CDATA["@) {
        match end_of_first(text, "]]>"@, at + 9) {
            Some(end) => if at < end <= text.len() {
                nesting_from(text, end, depth, deepest)
            } else {
                None
            },
            None => None,
        }
    } else if stands(text, at, "<!"@) {
        None
    } else if stands(text, at, "<?"@) {
        match end_of_first(text, "?>"@, at + 2) {
            Some(end) => if at < end <= text.len() && keeps_encoding(text.subrange(at, end)) {
                nesting_from(text, end, depth, deepest)
            } else {
                None
            },
            None => None,
        }
    } else if stands(text, at, "</"@) {
        match tag_end(text, at + 2, 0) {
            Some(end) => if at < end <= text.len() {
                nesting_from(
                    text,
                    end,
                    if depth > 0 {
                        (depth - 1) as nat
                    } else {
                        0
                    },
                    deepest,
                )
            } else {
                None
            },
            None => None,
        }
    } else {
        match tag_end(text, at + 1, 0) {
            Some(end) => if at + 2 <= end <= text.len() {
                if text[end - 2] == '/' {
                    nesting_from(text, end, depth, deeper(deepest, depth + 1))
                } else {
                    nesting_from(text, end, depth + 1, deeper(deepest, depth + 1))
                }
            } else {
                None
            },
            None => None,
        }
    }
}

/// How deep the elements of a document are nested; `None` where the
/// document holds what the scan does not understand.
pub open spec fn nesting(text: Seq<char>) -> Option<nat> {
    nesting_from(text, 0, 0, 0)
}

/// The scan understands the document, and its elements are nested no
/// deeper than the limit.
pub open spec fn shallow(text: Seq<char>) -> bool {
    nesting(text) matches Some(depth) && depth <= MAX_NESTING
}

/// Whether a character is numeric, as `char::is_numeric` has it.
pub uninterp spec fn numeric(c: char) -> bool;

/// Tests a character with `char::is_numeric`.  Trusted: the answer depends
/// on the character alone.
#[verifier::external_body]
fn is_numeric(c: char) -> (yes: bool)
    ensures
        yes == numeric(c),
{
    c.is_numeric()
}

/// Makes a character of its code with `char::from_u32`.  Trusted: a code
/// that is a Unicode scalar value gives the character with that code, any
/// other code gives none.
#[verifier::external_body]
fn code_char(code: u32) -> (c: Option<char>)
    ensures
        is_scalar(code) ==> c == Some(code as char),
        !is_scalar(code) ==> c is None,
{
    char::from_u32(code)
}

/// What a character means to the reading of numbers.
#[derive(Debug, Clone, Copy, PartialEq, Eq, Structural)]
pub enum CharKind {
    /// One of the ten digits `0` to `9`.
    Digit,
    /// A colon.
    Colon,
    /// A numeric character that is none of the ten digits.
    Strange,
    /// Anything else.
    Other,
}

/// What a character means to the reading of numbers.
pub open spec fn kind_of(c: char) -> CharKind {
    if '0' <= c <= '9' {
        CharKind::Digit
    } else if c == ':' {
        CharKind::Colon
    } else if numeric(c) {
        CharKind::Strange
    } else {
        CharKind::Other
    }
}

/// What the character with the given code means to the reading of
/// numbers; a code that is no character is strange.
pub open spec fn kind_of_code(code: u32) -> CharKind {
    if is_scalar(code) {
        kind_of(code as char)
    } else {
        CharKind::Strange
    }
}

/// The worth of a digit of a character reference.
pub open spec fn digit_worth(c: char, hex: bool) -> Option<u32> {
    if c == '0' {
        Some(0u32)
    } else if c == '1' {
        Some(1u32)
    } else if c == '2' {
        Some(2u32)
    } else if c == '3' {
        Some(3u32)
    } else if c == '4' {
        Some(4u32)
    } else if c == '5' {
        Some(5u32)
    } else if c == '6' {
        Some(6u32)
    } else if c == '7' {
        Some(7u32)
    } else if c == '8' {
        Some(8u32)
    } else if c == '9' {
        Some(9u32)
    } else if hex && (c == 'a' || c == 'A') {
        Some(10u32)
    } else if hex && (c == 'b' || c == 'B') {
        Some(11u32)
    } else if hex && (c == 'c' || c == 'C') {
        Some(12u32)
    } else if hex && (c == 'd' || c == 'D') {
        Some(13u32)
    } else if hex && (c == 'e' || c == 'E') {
        Some(14u32)
    } else if hex && (c == 'f' || c == 'F') {
        Some(15u32)
    } else {
        None
    }
}

/// The code that the digits of a character reference name, and the
/// position behind the reference's `;`.  `taken` digits were read before
/// `at`, and they came to `code`.  `None` for a reference without digits,
/// with more than seven, or without an end.
pub open spec fn reference_from(text: Seq<char>, at: int, hex: bool, taken: nat, code: u32) -> Option<
    (u32, int),
>
    decreases MAX_REFERENCE_DIGITS + 1 - taken,
{
    if at < 0 || at >= text.len() || taken > MAX_REFERENCE_DIGITS {
        None
    } else if text[at] == ';' {
        if taken > 0 {
            Some((code, at + 1))
        } else {
            None
        }
    } else if taken == MAX_REFERENCE_DIGITS {
        None
    } else {
        match digit_worth(text[at], hex) {
            Some(worth) => reference_from(
                text,
                at + 1,
                hex,
                taken + 1,
                (code * (if hex {
                    16u32
                } else {
                    10u32
                }) + worth) as u32,
            ),
            None => None,
        }
    }
}

/// The code that the character reference names whose `&#` stands at `at`,
/// and the position behind it.
pub open spec fn reference(text: Seq<char>, at: int) -> Option<(u32, int)> {
    if stands(text, at, "&#x"@) {
        reference_from(text, at + 3, true, 0, 0)
    } else {
        reference_from(text, at + 2, false, 0, 0)
    }
}

/// The numbers of `text` from position `at` on are plain, where `run`
/// digits in a row stand before `at`: no more than nineteen digits stand in
/// a row, no more than fifteen before a colon, and no numeric character is
/// other than one of the ten digits.  A character reference counts as the
/// character that it names.
pub open spec fn numbers_plain_from(text: Seq<char>, at: int, run: nat) -> bool
    decreases text.len() - at,
{
    if at < 0 {
        false
    } else if at >= text.len() {
        true
    } else {
        let (kind, next) = if stands(text, at, "&#"@) {
            match reference(text, at) {
                Some(found) => (kind_of_code(found.0), found.1),
                None => (CharKind::Strange, at + 1),
            }
        } else {
            (kind_of(text[at]), at + 1)
        };
        if next <= at || next > text.len() {
            false
        } else {
            match kind {
                CharKind::Strange => false,
                CharKind::Digit => run < MAX_DIGITS && numbers_plain_from(text, next, run + 1),
                CharKind::Colon => run <= MAX_DIGITS_BEFORE_COLON && numbers_plain_from(text, next, 0),
                CharKind::Other => numbers_plain_from(text, next, 0),
            }
        }
    }
}

/// The numbers of a document are plain.
pub open spec fn numbers_plain(text: Seq<char>) -> bool {
    numbers_plain_from(text, 0, 0)
}

/// What a scan found out about a document.
#[derive(Debug, Clone, Copy, PartialEq, Eq, Structural)]
pub struct Shape {
    /// The scan understands the document, and its elements are nested no
    /// deeper than the limit.
    pub shallow: bool,
    /// The numbers of the document are plain.
    pub plain_numbers: bool,
}

fn find_end(chars: &Vec<char>, pattern: &Vec<char>, from: usize) -> (end: Option<usize>)
    ensures
        match end {
            Some(e) => end_of_first(chars@, pattern@, from as int) == Some(e as int) && from < e
                <= chars@.len(),
            None => end_of_first(chars@, pattern@, from as int) is None,
        },
{
    let n: usize = chars.len();
    let m: usize = pattern.len();
    if m == 0 || from > n || n - from < m {
        return None;
    }
    let mut i: usize = from;
    while i <= n - m
        invariant
            n == chars@.len(),
            m == pattern@.len(),
            0 < m <= n,
            from <= i,
            end_of_first(chars@, pattern@, i as int) == end_of_first(chars@, pattern@, from as int),
        decreases n - i,
    {
        if stands_at(chars, i, pattern) {
            return Some(i + m);
        }
        i += 1;
    }
    None
}

fn find_tag_end(chars: &Vec<char>, from: usize) -> (end: Option<usize>)
    ensures
        match end {
            Some(e) => tag_end(chars@, from as int, 0) == Some(e as int) && from < e <= chars@.len(),
            None => tag_end(chars@, from as int, 0) is None,
        },
{
    let n: usize = chars.len();
    let mut i: usize = from;
    let mut quote: u8 = 0;
    while i < n
        invariant
            n == chars@.len(),
            from <= i,
            quote <= 2,
            tag_end(chars@, i as int, quote as int) == tag_end(chars@, from as int, 0),
        decreases n - i,
    {
        let c = chars[i];
        if c == '<' {
            return None;
        } else if c == '>' {
            if quote == 0 {
                return Some(i + 1);
            } else {
                return None;
            }
        } else if c == '\'' && quote != 2 {
            quote = 1 - quote;
        } else if c == '"' && quote != 1 {
            quote = 2 - quote;
        }
        i += 1;
    }
    None
}

fn part(chars: &Vec<char>, from: usize, to: usize) -> (copy: Vec<char>)
    requires
        from <= to <= chars@.len(),
    ensures
        copy@ == chars@.subrange(from as int, to as int),
{
    let mut copy: Vec<char> = Vec::new();
    let mut i: usize = from;
    while i < to
        invariant
            from <= i <= to <= chars@.len(),
            copy@ == chars@.subrange(from as int, i as int),
        decreases to - i,
    {
        copy.push(chars[i]);
        assert(chars@.subrange(from as int, i + 1) == chars@.subrange(from as int, i as int).push(
            chars@[i as int],
        ));
        i += 1;
    }
    copy
}

fn check_encoding(instruction: &Vec<char>) -> (kept: bool)
    ensures
        kept == keeps_encoding(instruction@),
{
    let word = to_chars("encoding");
    match find_end(instruction, &word, 0) {
        None => true,
        Some(end) => {
            let good = stands_at(instruction, end, &to_chars("=\"UTF-8\"")) || stands_at(
                instruction,
                end,
                &to_chars("=\"utf-8\""),
            ) || stands_at(instruction, end, &to_chars("='UTF-8'")) || stands_at(
                instruction,
                end,
                &to_chars("='utf-8'"),
            );
            good && find_end(instruction, &word, end).is_none()
        },
    }
}

/// How deep the elements of a document are nested; `None` where the
/// document holds what the scan does not understand.
pub fn measure_nesting(chars: &Vec<char>) -> (found: Option<usize>)
    ensures
        match found {
            Some(depth) => nesting(chars@) == Some(depth as nat),
            None => nesting(chars@) is None,
        },
{
    let n: usize = chars.len();
    let comment = to_chars("<!--");
    let comment_end = to_chars("-->");
    let data = to_chars("<![CDATA[");
    let data_end = to_chars("]]>");
    let bang = to_chars("<!");
    let instruction = to_chars("<?");
    let instruction_end = to_chars("?>");
    let closing = to_chars("</");
    let mut at: usize = 0;
    let mut depth: usize = 0;
    let mut deepest: usize = 0;
    while at < n
        invariant
            n == chars@.len(),
            at <= n,
            depth <= at,
            deepest <= at,
            comment@ == "<!--"@,
            comment_end@ == "-->"@,
            data@ == "<![CDATA["@,
            data_end@ == "]]>"@,
            bang@ == "<!"@,
            instruction@ == "<?"@,
            instruction_end@ == "?>"@,
            closing@ == "</"@,
            nesting_from(chars@, at as int, depth as nat, deepest as nat) == nesting(chars@),
        decreases n - at,
    {
        proof {
            reveal_strlit("<!--");
            reveal_strlit("-->");
            reveal_strlit("<![CDATA[");
            reveal_strlit("]]>");
            reveal_strlit("<!");
            reveal_strlit("<?");
            reveal_strlit("?>");
            reveal_strlit("</");
        }
        if chars[at] != '<' {
            at += 1;
        } else if stands_at(chars, at, &comment) {
            match find_end(chars, &comment_end, at + 4) {
                Some(end) => {
                    at = end;
                },
                None => {
                    return None;
                },
            }
        } else if stands_at(chars, at, &data) {
            match find_end(chars, &data_end, at + 9) {
                Some(end) => {
                    at = end;
                },
                None => {
                    return None;
                },
            }
        } else if stands_at(chars, at, &bang) {
            return None;
        } else if stands_at(chars, at, &instruction) {
            match find_end(chars, &instruction_end, at + 2) {
                Some(end) => {
                    let inside = part(chars, at, end);
                    if !check_encoding(&inside) {
                        return None;
                    }
                    at = end;
                },
                None => {
                    return None;
                },
            }
        } else if stands_at(chars, at, &closing) {
            match find_tag_end(chars, at + 2) {
                Some(end) => {
                    if depth > 0 {
                        depth -= 1;
                    }
                    at = end;
                },
                None => {
                    return None;
                },
            }
        } else {
            match find_tag_end(chars, at + 1) {
                Some(end) => {
                    if deepest < depth + 1 {
                        deepest = depth + 1;
                    }
                    if chars[end - 2] != '/' {
                        depth += 1;
                    }
                    at = end;
                },
                None => {
                    return None;
                },
            }
        }
    }
    Some(deepest)
}

fn worth_of(c: char, hex: bool) -> (worth: Option<u32>)
    ensures
        worth == digit_worth(c, hex),
        worth matches Some(w) ==> w < 16,
{
    if c == '0' {
        Some(0)
    } else if c == '1' {
        Some(1)
    } else if c == '2' {
        Some(2)
    } else if c == '3' {
        Some(3)
    } else if c == '4' {
        Some(4)
    } else if c == '5' {
        Some(5)
    } else if c == '6' {
        Some(6)
    } else if c == '7' {
        Some(7)
    } else if c == '8' {
        Some(8)
    } else if c == '9' {
        Some(9)
    } else if hex && (c == 'a' || c == 'A') {
        Some(10)
    } else if hex && (c == 'b' || c == 'B') {
        Some(11)
    } else if hex && (c == 'c' || c == 'C') {
        Some(12)
    } else if hex && (c == 'd' || c == 'D') {
        Some(13)
    } else if hex && (c == 'e' || c == 'E') {
        Some(14)
    } else if hex && (c == 'f' || c == 'F') {
        Some(15)
    } else {
        None
    }
}

fn read_reference(chars: &Vec<char>, at: usize) -> (found: Option<(u32, usize)>)
    requires
        stands(chars@, at as int, "&#"@),
    ensures
        match found {
            Some(f) => reference(chars@, at as int) == Some((f.0, f.1 as int)) && at < f.1 <= chars@.len(),
            None => reference(chars@, at as int) is None,
        },
{
    let n: usize = chars.len();
    proof {
        reveal_strlit("&#");
    }
    let hex = stands_at(chars, at, &to_chars("&#x"));
    let start: usize = if hex {
        proof {
            reveal_strlit("&#x");
        }
        at + 3
    } else {
        at + 2
    };
    let mut i: usize = start;
    let mut taken: usize = 0;
    let mut code: u32 = 0;
    while i < n
        invariant
            n == chars@.len(),
            at < start <= i,
            taken <= MAX_REFERENCE_DIGITS,
            code < pow16(taken as nat),
            reference_from(chars@, i as int, hex, taken as nat, code) == reference(chars@, at as int),
        decreases n - i,
    {
        let c = chars[i];
        if c == ';' {
            if taken > 0 {
                return Some((code, i + 1));
            } else {
                return None;
            }
        }
        if taken == MAX_REFERENCE_DIGITS {
            return None;
        }
        match worth_of(c, hex) {
            Some(worth) => {
                proof {
                    lemma_pow16(taken as nat);
                    lemma_pow16((taken + 1) as nat);
                }
                code = code * (if hex {
                    16
                } else {
                    10
                }) + worth;
                taken += 1;
                i += 1;
            },
            None => {
                return None;
            },
        }
    }
    None
}

/// Sixteen to the power `n`.
pub open spec fn pow16(n: nat) -> nat
    decreases n,
{
    if n == 0 {
        1
    } else {
        16 * pow16((n - 1) as nat)
    }
}

proof fn lemma_pow16(n: nat)
    requires
        n <= 7,
    ensures
        pow16(n) <= 0x1000_0000,
        pow16(n + 1) == 16 * pow16(n),
{
    reveal_with_fuel(pow16, 10);
}

fn classify(c: char) -> (kind: CharKind)
    ensures
        kind == kind_of(c),
{
    if '0' <= c && c <= '9' {
        CharKind::Digit
    } else if c == ':' {
        CharKind::Colon
    } else if is_numeric(c) {
        CharKind::Strange
    } else {
        CharKind::Other
    }
}

/// Whether the numbers of a document are plain.
pub fn check_numbers(chars: &Vec<char>) -> (plain: bool)
    ensures
        plain == numbers_plain(chars@),
{
    let n: usize = chars.len();
    let mark = to_chars("&#");
    let mut at: usize = 0;
    let mut run: usize = 0;
    while at < n
        invariant
            n == chars@.len(),
            at <= n,
            run <= MAX_DIGITS,
            mark@ == "&#"@,
            numbers_plain_from(chars@, at as int, run as nat) == numbers_plain(chars@),
        decreases n - at,
    {
        let mut kind = CharKind::Strange;
        let mut next: usize = at + 1;
        if stands_at(chars, at, &mark) {
            match read_reference(chars, at) {
                Some(found) => {
                    kind = match code_char(found.0) {
                        Some(c) => classify(c),
                        None => CharKind::Strange,
                    };
                    next = found.1;
                },
                None => {},
            }
        } else {
            kind = classify(chars[at]);
        }
        match kind {
            CharKind::Strange => {
                return false;
            },
            CharKind::Digit => {
                if run >= MAX_DIGITS {
                    return false;
                }
                run += 1;
            },
            CharKind::Colon => {
                if run > MAX_DIGITS_BEFORE_COLON {
                    return false;
                }
                run = 0;
            },
            CharKind::Other => {
                run = 0;
            },
        }
        at = next;
    }
    true
}

/// Scans a document.
pub fn measure(body: &str) -> (shape: Shape)
    ensures
        shape.shallow == shallow(body@),
        shape.plain_numbers == numbers_plain(body@),
{
    let chars = to_chars(body);
    let shallow = match measure_nesting(&chars) {
        Some(depth) => depth <= MAX_NESTING,
        None => false,
    };
    Shape { shallow, plain_numbers: check_numbers(&chars) }
}

} // verus!
