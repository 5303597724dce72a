//! Turning an item into the text that a destination shows.

use vstd::prelude::*;
use vstd::utf8::encode_utf8;
use crate::text::{is_white_space, join, push_char, same_text, text_of, to_chars, white_space};

verus! {

/// What a template can refer to.
#[derive(Debug, Clone)]
pub struct TemplateContext {
    pub title: String,
    pub description: String,
    pub url: String,
}

/// Why a template gave no text.
#[derive(Debug, Clone)]
pub enum TemplateError {
    /// The template is not well formed.
    Parse(String),
    /// The template could not be filled in.
    Render(String),
}

/// The characters of a [`TemplateError`].
pub enum TemplateFault {
    Parse(Seq<char>),
    Render(Seq<char>),
}

impl View for TemplateError {
    type V = TemplateFault;

    open spec fn view(&self) -> TemplateFault {
        match self {
            TemplateError::Parse(why) => TemplateFault::Parse(why@),
            TemplateError::Render(why) => TemplateFault::Render(why@),
        }
    }
}

/// `minijinja::Environment`, the template engine's state.  Nothing is
/// known of what it holds: it is made by the engine and handed back to it.
#[verifier::external_type_specification]
#[verifier::external_body]
pub struct ExEnvironment<'source>(minijinja::Environment<'source>);

/// Renders templates, with the filters `truncate`, `word_limit` and
/// `strip_html` at hand.
pub struct TemplateRenderer {
    env: minijinja::Environment<'static>,
}

/// How many characters `truncate` keeps where the template names no number.
pub const DEFAULT_TRUNCATE_LENGTH: i64 = 100;

/// How many words `word_limit` keeps where the template names no number.
pub const DEFAULT_WORD_LIMIT: i64 = 10;

/// Why the template engine refuses a template, as `minijinja` words it;
/// `None` where it accepts the template.
pub uninterp spec fn template_fault(template: Seq<char>) -> Option<Seq<char>>;

/// What the template engine makes of a template and the three values that
/// a template can refer to, with this crate's filters: the text, or why
/// there is none, as `minijinja` words it.
pub uninterp spec fn template_filled(
    template: Seq<char>,
    title: Seq<char>,
    description: Seq<char>,
    url: Seq<char>,
) -> Result<Seq<char>, Seq<char>>;

/// What rendering a template with the three values gives: a template
/// that is not well formed is refused before anything is filled in, and the
/// text that comes of filling it in is trimmed.
pub open spec fn rendering(template: Seq<char>, title: Seq<char>, description: Seq<char>, url: Seq<char>) -> Result<
    Seq<char>,
    TemplateFault,
> {
    match template_fault(template) {
        Some(fault) => Err(TemplateFault::Parse(fault)),
        None => match template_filled(template, title, description, url) {
            Ok(filled) => Ok(trimmed(filled)),
            Err(fault) => Err(TemplateFault::Render(fault)),
        },
    }
}

/// The characters of a rendering.
pub open spec fn rendered_text(text: Result<String, TemplateError>) -> Result<Seq<char>, TemplateFault> {
    match text {
        Ok(t) => Ok(t@),
        Err(e) => Err(e@),
    }
}

/// The characters of a result of texts.
pub open spec fn result_text(result: Result<String, String>) -> Result<Seq<char>, Seq<char>> {
    match result {
        Ok(text) => Ok(text@),
        Err(text) => Err(text@),
    }
}

/// The names under which an environment holds a filter.
pub uninterp spec fn filter_names(env: minijinja::Environment<'static>) -> Set<Seq<char>>;

/// The names of the filters that this crate adds to the engine's own.
pub open spec fn own_filters() -> Set<Seq<char>> {
    set!["truncate"@, "word_limit"@, "strip_html"@]
}

/// Makes a `minijinja::Environment` with `Environment::new` and gives it
/// the three filters with `Environment::add_filter`.  Trusted: the
/// environment holds a filter under each of the three names, as
/// `add_filter` puts it there; of the filters that the engine brings along
/// nothing is said.
#[verifier::external_body]
fn new_environment() -> (env: minijinja::Environment<'static>)
    ensures
        own_filters().subset_of(filter_names(env)),
{
    let mut env = minijinja::Environment::new();
    env.add_filter("truncate", |v: minijinja::Value, n: minijinja::Value| {
        truncate_function(v.as_str(), n.as_i64())
    });
    env.add_filter("word_limit", |v: minijinja::Value, n: minijinja::Value| {
        word_limit_function(v.as_str(), n.as_i64())
    });
    env.add_filter("strip_html", |v: minijinja::Value, _n: minijinja::Value| {
        strip_html_function(v.as_str())
    });
    env
}

/// Parses a template with `Environment::template_from_str`, in an
/// environment that holds this crate's filters.  Trusted: the result is the
/// engine's complaint, or `None` where it has none; this depends on the
/// template alone.
#[verifier::external_body]
fn check_template(env: &minijinja::Environment<'static>, template: &str) -> (fault: Option<String>)
    requires
        own_filters().subset_of(filter_names(*env)),
    ensures
        crate::text::opt_text(fault) == template_fault(template@),
{
    env.template_from_str(template).err().map(|e| e.to_string())
}

/// Fills a template in with `Environment::render_str`, in an environment
/// that holds this crate's filters, the three values under the names
/// `title`, `description` and `url`.  Trusted: the result is the engine's,
/// which depends on the template and the values alone.
#[verifier::external_body]
fn fill_template(
    env: &minijinja::Environment<'static>,
    template: &str,
    title: &str,
    description: &str,
    url: &str,
) -> (filled: Result<String, String>)
    requires
        own_filters().subset_of(filter_names(*env)),
    ensures
        result_text(filled) == template_filled(template@, title@, description@, url@),
{
    let mut values = std::collections::BTreeMap::new();
    values.insert("title", title);
    values.insert("description", description);
    values.insert("url", url);
    env.render_str(template, values).map_err(|e| e.to_string())
}

/// `text` without the white space at its end.
pub open spec fn trimmed_end(text: Seq<char>) -> Seq<char>
    decreases text.len(),
{
    if text.len() > 0 && white_space(text.last()) {
        trimmed_end(text.drop_last())
    } else {
        text
    }
}

/// `text` without the white space at its start.
pub open spec fn trimmed_start(text: Seq<char>) -> Seq<char>
    decreases text.len(),
{
    if text.len() > 0 && white_space(text.first()) {
        trimmed_start(text.drop_first())
    } else {
        text
    }
}

/// `text` without the white space at its start and at its end.
pub open spec fn trimmed(text: Seq<char>) -> Seq<char> {
    trimmed_end(trimmed_start(text))
}

/// Position of the last `c` in `text`.
pub open spec fn last_index_of(text: Seq<char>, c: char) -> Option<int>
    decreases text.len(),
{
    if text.len() == 0 {
        None
    } else if text.last() == c {
        Some(text.len() - 1)
    } else {
        last_index_of(text.drop_last(), c)
    }
}

/// The first `limit` characters of `text`; all of it where it has no more.
pub open spec fn head(text: Seq<char>, limit: int) -> Seq<char> {
    if 0 <= limit < text.len() {
        text.take(limit)
    } else {
        text
    }
}

/// How many bytes the text takes in UTF-8.
pub open spec fn byte_len(text: Seq<char>) -> usize {
    encode_utf8(text).len() as usize
}

/// Three full stops.
pub open spec fn ellipsis() -> Seq<char> {
    "..."@
}

/// `text` cut to `limit` characters, with an ellipsis in place of what was
/// cut.  A text of no more than `limit` bytes stays as it is.  Else the
/// first `limit` characters are taken; where they end in a space, the white
/// space at their end goes; else they are cut before their last space, if
/// they have one, so that no word is cut in two.
pub open spec fn truncated(text: Seq<char>, limit: int) -> Seq<char> {
    if byte_len(text) <= limit {
        text
    } else {
        let kept = head(text, limit);
        if kept.len() > 0 && kept.last() == ' ' {
            trimmed_end(kept) + ellipsis()
        } else {
            match last_index_of(kept, ' ') {
                Some(space) => kept.take(space) + ellipsis(),
                None => kept + ellipsis(),
            }
        }
    }
}

/// The number that a filter was given, `default` where it was given none;
/// `None` for a negative number, which limits nothing.
pub open spec fn filter_limit(given: Option<i64>, default: i64) -> Option<int> {
    let number = match given {
        Some(n) => n,
        None => default,
    };
    if number < 0 {
        None
    } else {
        Some(number as int)
    }
}

/// The characters of an optional text, none where there is no text.
pub open spec fn text_or_empty(text: Option<&str>) -> Seq<char> {
    match text {
        Some(t) => t@,
        None => Seq::empty(),
    }
}

/// The end of `chars`' first `end` characters once the white space at
/// their end is gone.
fn trim_end_at(chars: &Vec<char>, end: usize) -> (cut: usize)
    requires
        end <= chars@.len(),
    ensures
        cut <= end,
        chars@.take(cut as int) == trimmed_end(chars@.take(end as int)),
{
    let mut cut: usize = end;
    while cut > 0 && is_white_space(chars[cut - 1])
        invariant
            cut <= end <= chars@.len(),
            trimmed_end(chars@.take(cut as int)) == trimmed_end(chars@.take(end as int)),
        decreases cut,
    {
        assert(chars@.take(cut as int).drop_last() == chars@.take(cut - 1));
        cut -= 1;
    }
    cut
}

/// The start of `chars`' characters from `start` to `end` once the white
/// space at their start is gone.
fn trim_start_at(chars: &Vec<char>, start: usize, end: usize) -> (cut: usize)
    requires
        start <= end <= chars@.len(),
    ensures
        start <= cut <= end,
        chars@.subrange(cut as int, end as int) == trimmed_start(chars@.subrange(start as int, end as int)),
{
    let mut cut: usize = start;
    while cut < end && is_white_space(chars[cut])
        invariant
            start <= cut <= end <= chars@.len(),
            trimmed_start(chars@.subrange(cut as int, end as int)) == trimmed_start(
                chars@.subrange(start as int, end as int),
            ),
        decreases end - cut,
    {
        assert(chars@.subrange(cut as int, end as int).drop_first() == chars@.subrange(
            cut + 1,
            end as int,
        ));
        cut += 1;
    }
    cut
}

/// Position of the last `c` among `chars`' first `end` characters.
fn find_last(chars: &Vec<char>, end: usize, c: char) -> (at: Option<usize>)
    requires
        end <= chars@.len(),
    ensures
        match last_index_of(chars@.take(end as int), c) {
            Some(i) => at == Some(i as usize) && 0 <= i < end,
            None => at is None,
        },
{
    let mut i: usize = end;
    while i > 0
        invariant
            i <= end <= chars@.len(),
            last_index_of(chars@.take(i as int), c) == last_index_of(chars@.take(end as int), c),
        decreases i,
    {
        assert(chars@.take(i as int).drop_last() == chars@.take(i - 1));
        if chars[i - 1] == c {
            return Some(i - 1);
        }
        i -= 1;
    }
    None
}

/// The filter `truncate`: cuts a text to `length` characters, a hundred
/// where no length is given, without cutting a word in two, and puts an
/// ellipsis in place of what was cut.  A missing text counts as empty; a
/// negative length cuts nothing.
pub fn truncate_function(value: Option<&str>, length: Option<i64>) -> (cut: String)
    ensures
        cut@ == match filter_limit(length, DEFAULT_TRUNCATE_LENGTH) {
            Some(limit) => truncated(text_or_empty(value), limit),
            None => text_or_empty(value),
        },
{
    let number: i64 = match length {
        Some(n) => n,
        None => DEFAULT_TRUNCATE_LENGTH,
    };
    let text: &str = match value {
        Some(t) => t,
        None => "",
    };
    proof {
        reveal_strlit("");
        assert(text@ =~= text_or_empty(value));
    }
    if number < 0 {
        return text.to_owned();
    }
    let limit: u64 = number as u64;
    if text.len() as u64 <= limit {
        return text.to_owned();
    }
    let chars = to_chars(text);
    let kept: usize = if limit < chars.len() as u64 {
        limit as usize
    } else {
        chars.len()
    };
    assert(chars@.take(kept as int) == head(text@, limit as int));
    let end: usize = if kept > 0 && chars[kept - 1] == ' ' {
        trim_end_at(&chars, kept)
    } else {
        match find_last(&chars, kept, ' ') {
            Some(space) => {
                assert(chars@.take(kept as int).take(space as int) == chars@.take(space as int));
                space
            },
            None => kept,
        }
    };
    let mut cut = text_of(&chars, 0, end);
    assert(chars@.subrange(0, end as int) == chars@.take(end as int));
    cut = join(cut.as_str(), "...");
    cut
}

/// The words of a text: its longest runs of characters that are no white
/// space, in their order.
pub open spec fn words(text: Seq<char>) -> Seq<Seq<char>>
    decreases text.len(),
{
    if text.len() == 0 {
        Seq::empty()
    } else if white_space(text.last()) {
        words(text.drop_last())
    } else if text.len() > 1 && !white_space(text[text.len() - 2]) && words(text.drop_last()).len() > 0 {
        let before = words(text.drop_last());
        before.drop_last().push(before.last().push(text.last()))
    } else {
        words(text.drop_last()).push(seq![text.last()])
    }
}

/// The texts one after the other, with `between` between each two.
pub open spec fn joined(parts: Seq<Seq<char>>, between: Seq<char>) -> Seq<char>
    decreases parts.len(),
{
    if parts.len() == 0 {
        Seq::empty()
    } else if parts.len() == 1 {
        parts[0]
    } else {
        joined(parts.drop_last(), between) + between + parts.last()
    }
}

/// `text` cut to its first `limit` words, with one space between each two
/// and an ellipsis at the end; a text of no more words stays as it is.
pub open spec fn word_limited(text: Seq<char>, limit: int) -> Seq<char> {
    if words(text).len() <= limit {
        text
    } else {
        joined(words(text).take(limit), seq![' ']) + ellipsis()
    }
}

/// What each word of a list holds.
pub open spec fn word_texts(words: Seq<Vec<char>>) -> Seq<Seq<char>> {
    words.map_values(|w: Vec<char>| w@)
}

/// The words of a text.
pub fn split_words(chars: &Vec<char>) -> (found: Vec<Vec<char>>)
    ensures
        word_texts(found@) == words(chars@),
{
    let mut found: Vec<Vec<char>> = Vec::new();
    let mut inside: bool = false;
    let mut i: usize = 0;
    assert(word_texts(found@) =~= words(chars@.take(0)));
    while i < chars.len()
        invariant
            i <= chars@.len(),
            word_texts(found@) == words(chars@.take(i as int)),
            inside <==> (i > 0 && !white_space(chars@[i - 1])),
            inside ==> found@.len() > 0,
        decreases chars@.len() - i,
    {
        let c = chars[i];
        let ghost before = word_texts(found@);
        let ghost next = chars@.take(i + 1);
        assert(next.drop_last() == chars@.take(i as int));
        assert(next.last() == c);
        if is_white_space(c) {
            inside = false;
        } else if inside {
            let mut word = found.pop().unwrap();
            word.push(c);
            found.push(word);
            assert(word_texts(found@) =~= before.drop_last().push(before.last().push(c)));
            assert(next[next.len() - 2] == chars@[i - 1]);
        } else {
            let mut word: Vec<char> = Vec::new();
            word.push(c);
            found.push(word);
            assert(word_texts(found@) =~= before.push(seq![c]));
            if i > 0 {
                assert(next[next.len() - 2] == chars@[i - 1]);
            }
            inside = true;
        }
        i += 1;
    }
    assert(chars@.take(i as int) == chars@);
    found
}

/// The filter `word_limit`: cuts a text to `limit` words, ten where no
/// limit is given, and puts an ellipsis in place of what was cut.  A
/// missing text counts as empty; a negative limit cuts nothing.
pub fn word_limit_function(value: Option<&str>, limit: Option<i64>) -> (cut: String)
    ensures
        cut@ == match filter_limit(limit, DEFAULT_WORD_LIMIT) {
            Some(most) => word_limited(text_or_empty(value), most),
            None => text_or_empty(value),
        },
{
    let text: &str = match value {
        Some(t) => t,
        None => {
            let nothing = String::new();
            assert(nothing@ =~= Seq::<char>::empty());
            return nothing;
        },
    };
    let number: i64 = match limit {
        Some(n) => n,
        None => DEFAULT_WORD_LIMIT,
    };
    if number < 0 {
        return text.to_owned();
    }
    let chars = to_chars(text);
    let found = split_words(&chars);
    assert(word_texts(found@).len() == found@.len());
    if found.len() as u64 <= number as u64 {
        return text.to_owned();
    }
    let most: usize = number as usize;
    let ghost wanted = words(text@).take(most as int);
    let mut cut = String::new();
    let mut i: usize = 0;
    assert(cut@ =~= joined(wanted.take(0), seq![' ']));
    while i < most
        invariant
            i <= most < found@.len(),
            word_texts(found@) == words(text@),
            wanted == words(text@).take(most as int),
            cut@ == joined(wanted.take(i as int), seq![' ']),
        decreases most - i,
    {
        let ghost so_far = cut@;
        if i > 0 {
            push_char(&mut cut, ' ');
        }
        let word = text_of(&found[i], 0, found[i].len());
        cut = join(cut.as_str(), word.as_str());
        proof {
            let parts = wanted.take(i + 1);
            assert(parts.drop_last() == wanted.take(i as int));
            assert(parts.last() == found@[i as int]@);
            assert(found@[i as int]@.subrange(0, found@[i as int]@.len() as int) == found@[i as int]@);
            if i > 0 {
                assert(so_far.push(' ') =~= so_far + seq![' ']);
            } else {
                assert(so_far + word@ =~= word@);
            }
        }
        i += 1;
    }
    assert(wanted.take(most as int) == wanted);
    join(cut.as_str(), "...")
}

/// Every `pattern` in `text` is replaced by `with`, from left to right; a
/// place that was taken by one `pattern` is part of no other.
pub open spec fn replaced_all(text: Seq<char>, pattern: Seq<char>, with: Seq<char>) -> Seq<char>
    decreases text.len(),
{
    if pattern.len() == 0 || text.len() < pattern.len() {
        text
    } else if text.take(pattern.len() as int) == pattern {
        with + replaced_all(text.skip(pattern.len() as int), pattern, with)
    } else {
        seq![text[0]] + replaced_all(text.skip(1), pattern, with)
    }
}

/// Position of the first `c` in `text` at or after `from`.
pub open spec fn first_index_from(text: Seq<char>, c: char, from: int) -> Option<int>
    decreases text.len() - from,
{
    if from < 0 || from >= text.len() {
        None
    } else if text[from] == c {
        Some(from)
    } else {
        first_index_from(text, c, from + 1)
    }
}

/// `text` without its tags: whatever stands between a `<` and the next
/// `>`, both included.  A `<` that no `>` follows stays, with what comes
/// after it.
pub open spec fn untagged(text: Seq<char>) -> Seq<char>
    decreases text.len(),
{
    match first_index_from(text, '<', 0) {
        None => text,
        Some(open) => match first_index_from(text, '>', open) {
            None => text,
            Some(close) => if 0 <= open <= close < text.len() {
                text.take(open) + untagged(text.skip(close + 1))
            } else {
                text
            },
        },
    }
}

/// The pieces into which the character `at` cuts `text`.
pub open spec fn pieces(text: Seq<char>, at: char) -> Seq<Seq<char>>
    decreases text.len(),
{
    if text.len() == 0 {
        seq![Seq::empty()]
    } else if text.last() == at {
        pieces(text.drop_last(), at).push(Seq::empty())
    } else {
        let before = pieces(text.drop_last(), at);
        if before.len() > 0 {
            before.drop_last().push(before.last().push(text.last()))
        } else {
            seq![seq![text.last()]]
        }
    }
}

/// The lines of `text`, each without the white space at its start and at
/// its end, those left out of which nothing is left, with a line feed
/// between each two.
pub open spec fn tidy_lines(text: Seq<char>) -> Seq<char> {
    joined(
        pieces(text, '\n').map_values(|line: Seq<char>| trimmed(line)).filter(
            |line: Seq<char>| line.len() > 0,
        ),
        seq!['\n'],
    )
}

/// A text as plain text: line breaks and paragraph marks become line
/// feeds, every other tag goes, and the lines are tidied.
pub open spec fn html_stripped(text: Seq<char>) -> Seq<char> {
    let a = replaced_all(text, "<br>"@, seq!['\n']);
    let b = replaced_all(a, "<br/>"@, seq!['\n']);
    let c = replaced_all(b, "<br />"@, seq!['\n']);
    let d = replaced_all(c, "<p>"@, seq!['\n']);
    let e = replaced_all(d, "</p>"@, seq!['\n']);
    tidy_lines(untagged(e))
}

/// Whether `pattern` stands in `chars` at position `at`.
pub(crate) fn stands_at(chars: &Vec<char>, at: usize, pattern: &Vec<char>) -> (stands: bool)
    requires
        at <= chars@.len(),
    ensures
        stands <==> (chars@.len() - at >= pattern@.len() && chars@.skip(at as int).take(
            pattern@.len() as int,
        ) == pattern@),
{
    let n: usize = chars.len();
    if n - at < pattern.len() {
        return false;
    }
    let mut k: usize = 0;
    while k < pattern.len()
        invariant
            k <= pattern@.len(),
            n == chars@.len(),
            at + pattern@.len() <= n,
            forall|j: int| 0 <= j < k ==> chars@[at + j] == pattern@[j],
        decreases pattern@.len() - k,
    {
        if chars[at + k] != pattern[k] {
            assert(chars@.skip(at as int).take(pattern@.len() as int)[k as int] != pattern@[k as int]);
            return false;
        }
        k += 1;
    }
    assert(chars@.skip(at as int).take(pattern@.len() as int) =~= pattern@);
    true
}

/// Replaces every `pattern` by the character `with`.
fn replace_all(chars: &Vec<char>, pattern: &Vec<char>, with: char) -> (out: Vec<char>)
    ensures
        out@ == replaced_all(chars@, pattern@, seq![with]),
{
    let mut out: Vec<char> = Vec::new();
    if pattern.len() == 0 {
        let mut i: usize = 0;
        while i < chars.len()
            invariant
                i <= chars@.len(),
                out@ == chars@.take(i as int),
            decreases chars@.len() - i,
        {
            out.push(chars[i]);
            assert(chars@.take(i + 1) == chars@.take(i as int).push(chars@[i as int]));
            i += 1;
        }
        assert(chars@.take(i as int) == chars@);
        return out;
    }
    let mut i: usize = 0;
    assert(chars@.skip(0) == chars@);
    assert(out@ + replaced_all(chars@.skip(0), pattern@, seq![with]) == replaced_all(
        chars@,
        pattern@,
        seq![with],
    ));
    while i < chars.len()
        invariant
            i <= chars@.len(),
            pattern@.len() > 0,
            out@ + replaced_all(chars@.skip(i as int), pattern@, seq![with]) == replaced_all(
                chars@,
                pattern@,
                seq![with],
            ),
        decreases chars@.len() - i,
    {
        let ghost rest = chars@.skip(i as int);
        let ghost done = out@;
        if stands_at(chars, i, pattern) {
            out.push(with);
            assert(rest.skip(pattern@.len() as int) == chars@.skip(i + pattern@.len()));
            assert(out@ + replaced_all(chars@.skip(i + pattern@.len()), pattern@, seq![with]) =~= done + (
            seq![with] + replaced_all(rest.skip(pattern@.len() as int), pattern@, seq![with])));
            i += pattern.len();
        } else {
            out.push(chars[i]);
            assert(rest.skip(1) == chars@.skip(i + 1));
            assert(rest[0] == chars@[i as int]);
            proof {
                if rest.len() < pattern@.len() {
                    lemma_short_text_stays(rest, pattern@, seq![with]);
                    lemma_short_text_stays(rest.skip(1), pattern@, seq![with]);
                    assert(rest =~= seq![rest[0]] + rest.skip(1));
                }
            }
            assert(out@ + replaced_all(chars@.skip(i + 1), pattern@, seq![with]) =~= done + (seq![
                rest[0],
            ] + replaced_all(rest.skip(1), pattern@, seq![with])));
            i += 1;
        }
    }
    assert(chars@.skip(i as int) =~= Seq::<char>::empty());
    assert(out@ + Seq::<char>::empty() == out@);
    out
}

/// A text shorter than the pattern holds no pattern.
proof fn lemma_short_text_stays(text: Seq<char>, pattern: Seq<char>, with: Seq<char>)
    requires
        text.len() < pattern.len(),
    ensures
        replaced_all(text, pattern, with) == text,
{
}

/// Position of the first `c` at or after `from`.
fn find_first(chars: &Vec<char>, c: char, from: usize) -> (at: Option<usize>)
    ensures
        at matches Some(i) ==> from <= i < chars@.len() && chars@[i as int] == c && first_index_from(
            chars@,
            c,
            from as int,
        ) == Some(i as int),
        at is None ==> first_index_from(chars@, c, from as int) is None,
{
    let mut i: usize = from;
    while i < chars.len()
        invariant
            from <= i,
            first_index_from(chars@, c, i as int) == first_index_from(chars@, c, from as int),
        decreases chars@.len() - i,
    {
        if chars[i] == c {
            return Some(i);
        }
        i += 1;
    }
    None
}

/// Takes the tags out.
fn strip_tags(chars: &Vec<char>) -> (out: Vec<char>)
    ensures
        out@ == untagged(chars@),
{
    let mut out: Vec<char> = Vec::new();
    let mut start: usize = 0;
    let n: usize = chars.len();
    assert(chars@.skip(0) == chars@);
    assert(out@ + untagged(chars@.skip(0)) == untagged(chars@));
    loop
        invariant_except_break
            start <= chars@.len(),
            out@ + untagged(chars@.skip(start as int)) == untagged(chars@),
        invariant
            n == chars@.len(),
        ensures
            out@ == untagged(chars@),
        decreases chars@.len() - start,
    {
        let ghost rest = chars@.skip(start as int);
        let ghost done = out@;
        let open = find_first(chars, '<', start);
        proof {
            lemma_first_index_shifts(chars@, '<', start as int, start as int);
        }
        let close = match open {
            Some(open) => {
                proof {
                    lemma_first_index_shifts(chars@, '>', start as int, open as int);
                }
                find_first(chars, '>', open)
            },
            None => None,
        };
        match (open, close) {
            (Some(open), Some(close)) => {
                let mut i: usize = start;
                while i < open
                    invariant
                        start <= i <= open < chars@.len(),
                        out@ == done + chars@.subrange(start as int, i as int),
                    decreases open - i,
                {
                    out.push(chars[i]);
                    assert(chars@.subrange(start as int, i + 1) == chars@.subrange(start as int, i as int).push(
                        chars@[i as int],
                    ));
                    i += 1;
                }
                assert(rest.take(open - start) == chars@.subrange(start as int, open as int));
                assert(rest.skip(close - start + 1) == chars@.skip(close + 1));
                assert(out@ + untagged(chars@.skip(close + 1)) =~= done + (rest.take(open - start)
                    + untagged(rest.skip(close - start + 1))));
                start = close + 1;
            },
            _ => {
                let mut i: usize = start;
                while i < chars.len()
                    invariant
                        start <= i <= chars@.len(),
                        out@ == done + chars@.subrange(start as int, i as int),
                    decreases chars@.len() - i,
                {
                    out.push(chars[i]);
                    assert(chars@.subrange(start as int, i + 1) == chars@.subrange(start as int, i as int).push(
                        chars@[i as int],
                    ));
                    i += 1;
                }
                assert(chars@.subrange(start as int, chars@.len() as int) == rest);
                break;
            },
        }
    }
    out
}

/// Looking for a character in the rest of a text from some position on
/// finds what looking in the whole text from there on finds.
proof fn lemma_first_index_shifts(text: Seq<char>, c: char, start: int, from: int)
    requires
        0 <= start <= from,
        start <= text.len(),
    ensures
        first_index_from(text.skip(start), c, from - start) == match first_index_from(text, c, from) {
            Some(i) => Some(i - start),
            None => None,
        },
    decreases text.len() - from,
{
    if from < text.len() {
        assert(text.skip(start)[from - start] == text[from]);
        if text[from] != c {
            lemma_first_index_shifts(text, c, start, from + 1);
        }
    }
}

/// Tidies the lines.
fn tidy(chars: &Vec<char>) -> (out: String)
    ensures
        out@ == tidy_lines(chars@),
{
    let ghost trim = |line: Seq<char>| trimmed(line);
    let ghost keep = |line: Seq<char>| line.len() > 0;
    let mut out = String::new();
    let mut any: bool = false;
    let mut start: usize = 0;
    let mut i: usize = 0;
    let ghost mut lines: Seq<Seq<char>> = Seq::empty();
    assert(lines.map_values(trim).filter(keep) =~= Seq::<Seq<char>>::empty()) by {
        reveal(Seq::filter);
    }
    assert(chars@.take(0) =~= Seq::<char>::empty());
    assert(pieces(chars@.take(0), '\n') =~= lines.push(chars@.subrange(0, 0)));
    while i < chars.len()
        invariant
            start <= i <= chars@.len(),
            trim == |line: Seq<char>| trimmed(line),
            keep == |line: Seq<char>| line.len() > 0,
            pieces(chars@.take(i as int), '\n') == lines.push(chars@.subrange(start as int, i as int)),
            out@ == joined(lines.map_values(trim).filter(keep), seq!['\n']),
            any <==> lines.map_values(trim).filter(keep).len() > 0,
        decreases chars@.len() - i,
    {
        let ghost next = chars@.take(i + 1);
        assert(next.drop_last() == chars@.take(i as int));
        assert(next.last() == chars@[i as int]);
        if chars[i] == '\n' {
            let ghost line = chars@.subrange(start as int, i as int);
            let ghost before = lines;
            let ghost text_before = out@;
            let grown = add_line(&mut out, any, chars, start, i);
            proof {
                lines = lines.push(line);
                lemma_tidy_push(before, line);
                lemma_joined_push(before.map_values(trim).filter(keep), trimmed(line), seq!['\n']);
                if trimmed(line).len() > 0 && !any {
                    assert(text_before + trimmed(line) =~= trimmed(line));
                }
                assert(chars@.subrange(i + 1, i + 1) =~= Seq::<char>::empty());
            }
            any = grown;
            start = i + 1;
        } else {
            assert(chars@.subrange(start as int, i + 1) == chars@.subrange(start as int, i as int).push(
                chars@[i as int],
            ));
            assert(lines.push(chars@.subrange(start as int, i as int)).drop_last() == lines);
        }
        i += 1;
    }
    assert(chars@.take(i as int) == chars@);
    let ghost line = chars@.subrange(start as int, i as int);
    let ghost before = lines;
    let ghost text_before = out@;
    let grown = add_line(&mut out, any, chars, start, i);
    proof {
        lemma_tidy_push(before, line);
        lemma_joined_push(before.map_values(trim).filter(keep), trimmed(line), seq!['\n']);
        if trimmed(line).len() > 0 && !any {
            assert(text_before + trimmed(line) =~= trimmed(line));
        }
    }
    out
}

/// Joining texts of which one more was appended.
proof fn lemma_joined_push(parts: Seq<Seq<char>>, part: Seq<char>, between: Seq<char>)
    ensures
        joined(parts.push(part), between) == if parts.len() == 0 {
            part
        } else {
            joined(parts, between) + between + part
        },
        joined(Seq::<Seq<char>>::empty(), between) == Seq::<char>::empty(),
{
    assert(parts.push(part).drop_last() == parts);
}

/// Appending a line to the lines tidied so far appends it, trimmed, to
/// what is kept of them, unless nothing is left of it.
proof fn lemma_tidy_push(lines: Seq<Seq<char>>, line: Seq<char>)
    ensures
        lines.push(line).map_values(|l: Seq<char>| trimmed(l)).filter(|l: Seq<char>| l.len() > 0) == if trimmed(
            line,
        ).len() > 0 {
            lines.map_values(|l: Seq<char>| trimmed(l)).filter(|l: Seq<char>| l.len() > 0).push(trimmed(line))
        } else {
            lines.map_values(|l: Seq<char>| trimmed(l)).filter(|l: Seq<char>| l.len() > 0)
        },
{
    let trim = |l: Seq<char>| trimmed(l);
    let keep = |l: Seq<char>| l.len() > 0;
    assert(lines.push(line).map_values(trim) =~= lines.map_values(trim).push(trimmed(line)));
    crate::ledger::lemma_filter_push(lines.map_values(trim), trimmed(line), keep);
}

/// Appends the line that `chars` holds from `start` to `end`, trimmed, to
/// the text, after a line feed where the text holds a line already.  A line
/// of which nothing is left is not appended.
fn add_line(out: &mut String, any: bool, chars: &Vec<char>, start: usize, end: usize) -> (grown: bool)
    requires
        start <= end <= chars@.len(),
    ensures
        ({
            let line = trimmed(chars@.subrange(start as int, end as int));
            &&& line.len() == 0 ==> final(out)@ == old(out)@ && grown == any
            &&& line.len() > 0 && any ==> final(out)@ == old(out)@ + seq!['\n'] + line && grown
            &&& line.len() > 0 && !any ==> final(out)@ == old(out)@ + line && grown
        }),
{
    let from = trim_start_at(chars, start, end);
    let to = trim_end_at(chars, end);
    let ghost whole = chars@.subrange(start as int, end as int);
    proof {
        lemma_trim_end_of_rest(chars@, from as int, end as int);
        assert(chars@.subrange(from as int, end as int) == trimmed_start(whole));
    }
    if to <= from {
        proof {
            lemma_trimmed_empty(chars@, from as int, to as int, end as int);
        }
        return any;
    }
    proof {
        lemma_trimmed_range(chars@, from as int, to as int, end as int);
    }
    if any {
        push_char(out, '\n');
        assert(old(out)@.push('\n') =~= old(out)@ + seq!['\n']);
    }
    let line = text_of(chars, from, to);
    let ghost before = out@;
    let joined_text = join(out.as_str(), line.as_str());
    *out = joined_text;
    true
}

/// Trimming the end of a text from `from` on cuts at the place at which
/// trimming the end of the whole text cuts, or at `from` where that place
/// lies before it.
proof fn lemma_trim_end_of_rest(text: Seq<char>, from: int, end: int)
    requires
        0 <= from <= end <= text.len(),
    ensures
        trimmed_end(text.subrange(from, end)).len() == if trimmed_end(text.take(end)).len() > from {
            trimmed_end(text.take(end)).len() - from
        } else {
            0
        },
        trimmed_end(text.subrange(from, end)) == text.subrange(
            from,
            from + trimmed_end(text.subrange(from, end)).len(),
        ),
        trimmed_end(text.take(end)) == text.take(trimmed_end(text.take(end)).len() as int),
        trimmed_end(text.take(end)).len() <= end,
    decreases end - from,
{
    lemma_trim_end_prefix(text, end);
    if from == end {
        assert(text.subrange(from, end) =~= Seq::<char>::empty());
        assert(text.subrange(from, from) =~= Seq::<char>::empty());
    } else {
        let rest = text.subrange(from, end);
        assert(rest.last() == text[end - 1]);
        assert(text.take(end).last() == text[end - 1]);
        assert(rest.drop_last() == text.subrange(from, end - 1));
        assert(text.take(end).drop_last() == text.take(end - 1));
        if white_space(text[end - 1]) {
            lemma_trim_end_of_rest(text, from, end - 1);
            lemma_trim_end_prefix(text, end - 1);
        } else {
            assert(text.subrange(from, from + rest.len()) == rest);
        }
    }
}

/// Trimming the end of a text's first `end` characters gives a shorter
/// start of the text.
proof fn lemma_trim_end_prefix(text: Seq<char>, end: int)
    requires
        0 <= end <= text.len(),
    ensures
        trimmed_end(text.take(end)).len() <= end,
        trimmed_end(text.take(end)) == text.take(trimmed_end(text.take(end)).len() as int),
    decreases end,
{
    if end > 0 && white_space(text.take(end).last()) {
        assert(text.take(end).drop_last() == text.take(end - 1));
        lemma_trim_end_prefix(text, end - 1);
    }
}

/// Where trimming the end cuts at or before the place at which trimming
/// the start cuts, nothing is left of the line.
proof fn lemma_trimmed_empty(text: Seq<char>, from: int, to: int, end: int)
    requires
        0 <= from <= end <= text.len(),
        0 <= to <= end,
        to <= from,
        text.take(to) == trimmed_end(text.take(end)),
    ensures
        trimmed_end(text.subrange(from, end)).len() == 0,
{
    lemma_trim_end_of_rest(text, from, end);
}

/// Where trimming the end cuts after the place at which trimming the start
/// cuts, what lies between the two places is left of the line.
proof fn lemma_trimmed_range(text: Seq<char>, from: int, to: int, end: int)
    requires
        0 <= from <= end <= text.len(),
        0 <= to <= end,
        from < to,
        text.take(to) == trimmed_end(text.take(end)),
    ensures
        trimmed_end(text.subrange(from, end)) == text.subrange(from, to),
{
    lemma_trim_end_of_rest(text, from, end);
}

/// The filter `strip_html`: turns a text with tags into plain text.  A
/// missing text counts as empty.
pub fn strip_html_function(value: Option<&str>) -> (plain: String)
    ensures
        plain@ == html_stripped(text_or_empty(value)),
{
    let chars: Vec<char> = match value {
        Some(t) => to_chars(t),
        None => Vec::new(),
    };
    let a = replace_all(&chars, &to_chars("<br>"), '\n');
    let b = replace_all(&a, &to_chars("<br/>"), '\n');
    let c = replace_all(&b, &to_chars("<br />"), '\n');
    let d = replace_all(&c, &to_chars("<p>"), '\n');
    let e = replace_all(&d, &to_chars("</p>"), '\n');
    let bare = strip_tags(&e);
    tidy(&bare)
}

/// A text without the white space at its start and at its end.
pub fn trim_text(text: &str) -> (bare: String)
    ensures
        bare@ == trimmed(text@),
{
    let chars = to_chars(text);
    let from = trim_start_at(&chars, 0, chars.len());
    let to = trim_end_at(&chars, chars.len());
    proof {
        assert(chars@.subrange(0, chars@.len() as int) == chars@);
        assert(chars@.take(chars@.len() as int) == chars@);
        lemma_trim_end_of_rest(chars@, from as int, chars@.len() as int);
    }
    if to <= from {
        let nothing = String::new();
        assert(nothing@ =~= trimmed(text@));
        nothing
    } else {
        text_of(&chars, from, to)
    }
}

impl TemplateRenderer {
    /// Every renderer holds this crate's filters.
    #[verifier::type_invariant]
    spec fn equipped(self) -> bool {
        own_filters().subset_of(filter_names(self.env))
    }

    /// The names under which the renderer holds a filter.
    pub closed spec fn filters(&self) -> Set<Seq<char>> {
        filter_names(self.env)
    }

    /// A renderer with the three filters.
    pub fn new() -> (renderer: TemplateRenderer)
        ensures
            own_filters().subset_of(renderer.filters()),
    {
        TemplateRenderer { env: new_environment() }
    }

    /// Fills `template` in with the context and trims the result.  A
    /// template that is not well formed is refused before anything is
    /// filled in.
    pub fn render(&self, template: &str, context: &TemplateContext) -> (text: Result<String, TemplateError>)
        ensures
            rendered_text(text) == rendering(template@, context.title@, context.description@, context.url@),
    {
        proof {
            use_type_invariant(self);
        }
        if let Some(fault) = check_template(&self.env, template) {
            return Err(TemplateError::Parse(fault));
        }
        match fill_template(
            &self.env,
            template,
            context.title.as_str(),
            context.description.as_str(),
            context.url.as_str(),
        ) {
            Ok(filled) => Ok(trim_text(filled.as_str())),
            Err(fault) => Err(TemplateError::Render(fault)),
        }
    }

    /// The template that a destination of the given kind uses where none is
    /// configured.
    pub open spec fn default_template(publisher_type: Seq<char>) -> Seq<char> {
        if publisher_type == "telegram"@ {
            "**{{ title }}**\n\n{{ description | truncate(480) }}\n\n🔗 [Leer más]({{ url }})"@
        } else if publisher_type == "x"@ {
            "{{ title | truncate(240) }}\n\n{{ url }}"@
        } else if publisher_type == "mastodon"@ {
            "{{ title }}\n\n{{ description | truncate(400) }}\n\n{{ url }}"@
        } else if publisher_type == "linkedin"@ {
            "{{ title }}\n\n{{ description | truncate(700) }}\n\nLeer más: {{ url }}"@
        } else if publisher_type == "matrix"@ {
            "<h3>{{ title }}</h3><p>{{ description | truncate(500) }}</p><p><a href=\"{{ url }}\">Leer más</a></p>"@
        } else if publisher_type == "bluesky"@ {
            "{{ title | truncate(250) }}\n\n{{ url }}"@
        } else if publisher_type == "threads"@ {
            "{{ title }}\n\n{{ description | truncate(450) }}\n\n{{ url }}"@
        } else if publisher_type == "discord"@ {
            "**{{ title }}**\n\n{{ description | truncate(400) }}\n\n🔗 {{ url }}"@
        } else if publisher_type == "openobserve"@ {
            "Feed: {{ title }}\nDescription: {{ description }}\nURL: {{ url }}"@
        } else {
            "{{ title }}\n\n{{ description }}\n\n{{ url }}"@
        }
    }

    /// The template that a destination of the given kind uses where none is
    /// configured.
    pub fn get_default_template(publisher_type: &str) -> (template: String)
        ensures
            template@ == TemplateRenderer::default_template(publisher_type@),
    {
        if same_text(publisher_type, "telegram") {
            "**{{ title }}**\n\n{{ description | truncate(480) }}\n\n🔗 [Leer más]({{ url }})".to_owned()
        } else if same_text(publisher_type, "x") {
            "{{ title | truncate(240) }}\n\n{{ url }}".to_owned()
        } else if same_text(publisher_type, "mastodon") {
            "{{ title }}\n\n{{ description | truncate(400) }}\n\n{{ url }}".to_owned()
        } else if same_text(publisher_type, "linkedin") {
            "{{ title }}\n\n{{ description | truncate(700) }}\n\nLeer más: {{ url }}".to_owned()
        } else if same_text(publisher_type, "matrix") {
            "<h3>{{ title }}</h3><p>{{ description | truncate(500) }}</p><p><a href=\"{{ url }}\">Leer más</a></p>".to_owned()
        } else if same_text(publisher_type, "bluesky") {
            "{{ title | truncate(250) }}\n\n{{ url }}".to_owned()
        } else if same_text(publisher_type, "threads") {
            "{{ title }}\n\n{{ description | truncate(450) }}\n\n{{ url }}".to_owned()
        } else if same_text(publisher_type, "discord") {
            "**{{ title }}**\n\n{{ description | truncate(400) }}\n\n🔗 {{ url }}".to_owned()
        } else if same_text(publisher_type, "openobserve") {
            "Feed: {{ title }}\nDescription: {{ description }}\nURL: {{ url }}".to_owned()
        } else {
            "{{ title }}\n\n{{ description }}\n\n{{ url }}".to_owned()
        }
    }
}

impl Default for TemplateRenderer {
    fn default() -> (renderer: TemplateRenderer) {
        TemplateRenderer::new()
    }
}

} // verus!
