//! The prompt assembler: the variables that a template may name, the data
//! document that carries them to the template engine, and the rendering.
//!
//! The template engine is `handlebars`, run in strict mode: a template that
//! names a variable which the data does not hold fails to render. What the
//! engine makes of a template is its own affair: this module fixes what it
//! is handed and what becomes of its answer.

use vstd::prelude::*;
use vstd::string::StringExecFns;
use crate::decimal::{decimal_of, decimal_text, digit_char, digits_of, is_digit, natural_text};
use crate::error::RunError;
use crate::stats::{RepoStats, StatsView};
use crate::text::{texts, to_chars};

verus! {

/// `handlebars::RenderError`, which the engine gives where it cannot render.
/// Nothing is read out of it: every such error becomes `RunError::Template`.
#[verifier::external_type_specification]
#[verifier::external_body]
pub struct ExRenderError(handlebars::RenderError);

/// `serde_json::Value`, the data as the engine takes it. It is carried from
/// the parser to the engine and not looked into.
#[verifier::external_type_specification]
#[verifier::external_body]
pub struct ExJsonValue(serde_json::Value);

/// `serde_json::Error`, which the parser gives for a text that is no JSON.
/// Nothing is read out of it.
#[verifier::external_type_specification]
#[verifier::external_body]
pub struct ExJsonError(serde_json::Error);

/// The variables that a template may name.
pub struct PromptVariables {
    /// The working directory, as an absolute path.
    pub absolute_code_path: String,
    /// The directory listing, two levels deep.
    pub source_tree: String,
    /// The diff between the base branch and the current branch.
    pub git_diff_branch: String,
    /// The log of the commits that only the current branch has.
    pub git_log_branch: String,
    /// The paths of the files that changed.
    pub git_changed_files: Vec<String>,
    /// The figures about the branch; a template reaches them as
    /// `git_stats.duration`, `git_stats.commit_count`,
    /// `git_stats.contributors` and `git_stats.code_velocity`.
    pub git_stats: RepoStats,
    /// Code velocity written as a JSON number: the quotient of
    /// `git_stats.velocity_numerator()` by `git_stats.velocity_denominator()`,
    /// which the caller forms in floating point.
    pub code_velocity: String,
}

/// `PromptVariables` as mathematical values.
pub struct PromptView {
    pub absolute_code_path: Seq<char>,
    pub source_tree: Seq<char>,
    pub git_diff_branch: Seq<char>,
    pub git_log_branch: Seq<char>,
    pub git_changed_files: Seq<Seq<char>>,
    pub git_stats: StatsView,
    pub code_velocity: Seq<char>,
}

impl View for PromptVariables {
    type V = PromptView;

    open spec fn view(&self) -> PromptView {
        PromptView {
            absolute_code_path: self.absolute_code_path@,
            source_tree: self.source_tree@,
            git_diff_branch: self.git_diff_branch@,
            git_log_branch: self.git_log_branch@,
            git_changed_files: texts(self.git_changed_files@),
            git_stats: self.git_stats@,
            code_velocity: self.code_velocity@,
        }
    }
}

/// The hexadecimal digit for `d` below sixteen, in lower case.
pub open spec fn hex_char(d: int) -> char {
    if d < 10 {
        digit_char(d)
    } else if d == 10 {
        'a'
    } else if d == 11 {
        'b'
    } else if d == 12 {
        'c'
    } else if d == 13 {
        'd'
    } else if d == 14 {
        'e'
    } else {
        'f'
    }
}

/// How one character stands inside a JSON string literal: the quote, the
/// backslash and the control characters below U+0020 are escaped, every
/// other character stands for itself.
pub open spec fn escaped(c: char) -> Seq<char> {
    if c == '"' {
        seq!['\\', '"']
    } else if c == '\\' {
        seq!['\\', '\\']
    } else if c == '\u{8}' {
        seq!['\\', 'b']
    } else if c == '\t' {
        seq!['\\', 't']
    } else if c == '\n' {
        seq!['\\', 'n']
    } else if c == '\u{c}' {
        seq!['\\', 'f']
    } else if c == '\r' {
        seq!['\\', 'r']
    } else if (c as int) < 0x20 {
        seq!['\\', 'u', '0', '0', hex_char((c as int) / 16), hex_char((c as int) % 16)]
    } else {
        seq![c]
    }
}

/// The characters of `s`, each as it stands inside a JSON string literal.
pub open spec fn escaped_text(s: Seq<char>) -> Seq<char>
    decreases s.len(),
{
    if s.len() == 0 {
        Seq::empty()
    } else {
        escaped_text(s.drop_last()) + escaped(s.last())
    }
}

/// The JSON string literal for `s`, quotes included.
pub open spec fn quoted(s: Seq<char>) -> Seq<char> {
    seq!['"'] + escaped_text(s) + seq!['"']
}

/// Where the run of digits that starts at `i` ends.
pub open spec fn digits_end(s: Seq<char>, i: int) -> int
    decreases s.len() - i,
{
    if 0 <= i < s.len() && is_digit(s[i]) {
        digits_end(s, i + 1)
    } else {
        i
    }
}

/// Where the integer part of a number starts: behind a minus sign, if there
/// is one.
pub open spec fn integer_start(s: Seq<char>) -> int {
    if s.len() > 0 && s[0] == '-' {
        1
    } else {
        0
    }
}

/// Where the integer part ends.
pub open spec fn integer_end(s: Seq<char>) -> int {
    digits_end(s, integer_start(s))
}

/// Whether a point follows the integer part.
pub open spec fn has_fraction(s: Seq<char>) -> bool {
    integer_end(s) < s.len() && s[integer_end(s)] == '.'
}

/// Where the fraction ends, if there is one, else the integer part.
pub open spec fn fraction_end(s: Seq<char>) -> int {
    if has_fraction(s) {
        digits_end(s, integer_end(s) + 1)
    } else {
        integer_end(s)
    }
}

/// Whether the letter of an exponent follows.
pub open spec fn has_exponent(s: Seq<char>) -> bool {
    fraction_end(s) < s.len() && (s[fraction_end(s)] == 'e' || s[fraction_end(s)] == 'E')
}

/// Where the digits of the exponent start: behind the letter and a sign, if
/// there is one.
pub open spec fn exponent_start(s: Seq<char>) -> int {
    let sign = fraction_end(s) + 1;
    if sign < s.len() && (s[sign] == '+' || s[sign] == '-') {
        sign + 1
    } else {
        sign
    }
}

/// Where the exponent ends, if there is one, else what stands before it.
pub open spec fn exponent_end(s: Seq<char>) -> int {
    if has_exponent(s) {
        digits_end(s, exponent_start(s))
    } else {
        fraction_end(s)
    }
}

/// Whether `s` is a number as JSON writes it: an optional minus sign; an
/// integer part that is `0` or starts with another digit; optionally a point
/// and one or more digits; optionally `e` or `E`, an optional sign and one
/// or more digits; and nothing else.
pub open spec fn is_number_text(s: Seq<char>) -> bool {
    &&& integer_end(s) > integer_start(s)
    &&& (s[integer_start(s)] == '0' ==> integer_end(s) == integer_start(s) + 1)
    &&& (has_fraction(s) ==> fraction_end(s) > integer_end(s) + 1)
    &&& (has_exponent(s) ==> exponent_end(s) > exponent_start(s))
    &&& exponent_end(s) == s.len()
}

/// The items of a JSON array of strings, separated by commas.
pub open spec fn quoted_items(items: Seq<Seq<char>>) -> Seq<char>
    decreases items.len(),
{
    if items.len() == 0 {
        Seq::empty()
    } else if items.len() == 1 {
        quoted(items[0])
    } else {
        quoted_items(items.drop_last()) + ","@ + quoted(items.last())
    }
}

/// The JSON object for the figures about the branch.
pub open spec fn stats_document(stats: StatsView, code_velocity: Seq<char>) -> Seq<char> {
    "{\"duration\":"@ + decimal_of(stats.duration_hours) + ",\"commit_count\":"@ + digits_of(
        stats.commit_count,
    ) + ",\"contributors\":"@ + quoted(stats.contributors) + ",\"code_velocity\":"@
        + code_velocity + "}"@
}

/// The JSON object that carries the variables to the template engine, each
/// under the key by which a template names it.
pub open spec fn data_document(v: PromptView) -> Seq<char> {
    "{\"absolute_code_path\":"@ + quoted(v.absolute_code_path) + ",\"source_tree\":"@ + quoted(
        v.source_tree,
    ) + ",\"git_diff_branch\":"@ + quoted(v.git_diff_branch) + ",\"git_log_branch\":"@ + quoted(
        v.git_log_branch,
    ) + ",\"git_changed_files\":["@ + quoted_items(v.git_changed_files) + "],\"git_stats\":"@
        + stats_document(v.git_stats, v.code_velocity) + "}"@
}

/// A character that may stand between the opening braces of a tag and the
/// sign that tells its kind.
pub open spec fn is_tag_filler(c: char) -> bool {
    c == ' ' || c == '\t' || c == '\n' || c == '\r' || c == '~' || c == '#'
}

/// Whether the first `n` characters of `t` end just behind the opening of a
/// tag: two braces, and nothing but filler since.
pub open spec fn in_tag_opening(t: Seq<char>, n: int) -> bool
    decreases n,
{
    if n < 2 || n > t.len() {
        false
    } else if t[n - 2] == '{' && t[n - 1] == '{' {
        true
    } else {
        in_tag_opening(t, n - 1) && is_tag_filler(t[n - 1])
    }
}

/// Whether `t` holds what may be a decorator: an asterisk at the opening of
/// a tag. Decorators declare inline partials, and partials that include one
/// another never finish rendering, so such templates are not rendered.
pub open spec fn has_decorator(t: Seq<char>) -> bool {
    exists|n: int| 0 <= n < t.len() && #[trigger] in_tag_opening(t, n) && t[n] == '*'
}

/// What a rendering becomes: the prompt, or a template error where the
/// engine gave none.
pub open spec fn prompt_from(rendering: Option<Seq<char>>) -> Result<Seq<char>, RunError> {
    match rendering {
        Some(p) => Ok(p),
        None => Err(RunError::Template),
    }
}

/// The prompt for `template` and the variables `v`, where `rendering` is
/// what the engine gave for them, if it gave anything: a template error
/// where the template holds a decorator or the code velocity is no number,
/// whatever the engine would say; else what becomes of the rendering.
pub open spec fn prompt_of(
    template: Seq<char>,
    v: PromptView,
    rendering: Option<Seq<char>>,
) -> Result<Seq<char>, RunError> {
    if has_decorator(template) || !is_number_text(v.code_velocity) {
        Err(RunError::Template)
    } else {
        prompt_from(rendering)
    }
}

/// Writes `s` as a JSON string literal with `serde_json`: the `Display` form
/// of `serde_json::Value::String`, which is compact JSON. The serializer
/// puts the text between quotes and escapes, by its table, the quote, the
/// backslash and the bytes below 0x20: backspace, tab, line feed, form feed
/// and carriage return by their letters, the others as `\u00` and two
/// hexadecimal digits in lower case. All other characters are copied.
#[verifier::external_body]
fn json_quote(s: &str) -> (r: String)
    ensures
        r@ == quoted(s@),
{
    serde_json::Value::from(s).to_string()
}

/// Reads a JSON text with `serde_json::from_str`. Nothing is claimed of what
/// comes back.
#[verifier::external_body]
fn parse_document(document: &str) -> (r: Result<serde_json::Value, serde_json::Error>) {
    serde_json::from_str(document)
}

/// Renders `template` against `data` with
/// `handlebars::Handlebars::render_template`, on a fresh registry whose
/// strict mode is set as `strict` says. Nothing is claimed of what comes
/// back: the parser of the engine refuses a template where little of the
/// stack is left, so its answer is not a matter of the two arguments alone.
/// Templates with decorators are kept away: only a decorator can declare an
/// inline partial, and the engine follows inline partials that include one
/// another without end. A fresh registry holds no other partial. The
/// renderer descends once for each level of nesting that the parser let
/// pass.
#[verifier::external_body]
fn engine_render(template: &str, data: &serde_json::Value, strict: bool) -> (r: Result<
    String,
    handlebars::RenderError,
>)
    requires
        !has_decorator(template@),
{
    let mut engine = handlebars::Handlebars::new();
    engine.set_strict_mode(strict);
    engine.render_template(template, data)
}

fn skip_digits(cs: &Vec<char>, i: usize) -> (j: usize)
    requires
        i <= cs@.len(),
    ensures
        j == digits_end(cs@, i as int),
        i <= j <= cs@.len(),
{
    let mut j: usize = i;
    while j < cs.len() && '0' <= cs[j] && cs[j] <= '9'
        invariant
            i <= j <= cs@.len(),
            digits_end(cs@, i as int) == digits_end(cs@, j as int),
        decreases cs@.len() - j,
    {
        j += 1;
    }
    j
}

/// Whether `s` is a number as JSON writes it.
pub fn number_text(s: &str) -> (b: bool)
    ensures
        b == is_number_text(s@),
{
    let cs = to_chars(s);
    let n: usize = cs.len();
    let start: usize = if n > 0 && cs[0] == '-' {
        1
    } else {
        0
    };
    let whole = skip_digits(&cs, start);
    if whole == start {
        return false;
    }
    if cs[start] == '0' && whole != start + 1 {
        return false;
    }
    let mut fraction: usize = whole;
    if whole < n && cs[whole] == '.' {
        fraction = skip_digits(&cs, whole + 1);
        if fraction == whole + 1 {
            return false;
        }
    }
    let mut end: usize = fraction;
    if fraction < n && (cs[fraction] == 'e' || cs[fraction] == 'E') {
        let digits: usize = if fraction + 1 < n && (cs[fraction + 1] == '+' || cs[fraction + 1]
            == '-') {
            fraction + 2
        } else {
            fraction + 1
        };
        end = skip_digits(&cs, digits);
        if end == digits {
            return false;
        }
    }
    end == n
}

/// Whether `template` holds what may be a decorator.
pub fn decorated(template: &str) -> (b: bool)
    ensures
        b == has_decorator(template@),
{
    let cs = to_chars(template);
    let mut opening: bool = false;
    let mut i: usize = 0;
    while i < cs.len()
        invariant
            i <= cs.len(),
            cs@ == template@,
            opening == in_tag_opening(cs@, i as int),
            forall|n: int| 0 <= n < i ==> !(#[trigger] in_tag_opening(cs@, n) && cs@[n] == '*'),
        decreases cs.len() - i,
    {
        let c = cs[i];
        if opening && c == '*' {
            return true;
        }
        opening = (i >= 1 && cs[i - 1] == '{' && c == '{') || (opening && (c == ' ' || c == '\t'
            || c == '\n' || c == '\r' || c == '~' || c == '#'));
        i += 1;
    }
    false
}

fn quoted_list(items: &Vec<String>) -> (r: String)
    ensures
        r@ == quoted_items(texts(items@)),
{
    let mut r = String::new();
    let mut i: usize = 0;
    proof {
        assert(texts(items@).take(0) =~= Seq::<Seq<char>>::empty());
    }
    while i < items.len()
        invariant
            i <= items.len(),
            r@ == quoted_items(texts(items@).take(i as int)),
        decreases items.len() - i,
    {
        let ghost before = texts(items@).take(i as int);
        let ghost after = texts(items@).take(i + 1);
        proof {
            assert(after.drop_last() =~= before);
            assert(after.last() == items@[i as int]@);
        }
        if i > 0 {
            r.append(",");
        }
        let q = json_quote(items[i].as_str());
        r.append(q.as_str());
        proof {
            if i == 0 {
                assert(before.len() == 0);
                assert(Seq::<char>::empty() + quoted(after[0]) =~= quoted(after[0]));
            }
        }
        i += 1;
    }
    proof {
        assert(texts(items@).take(items@.len() as int) =~= texts(items@));
    }
    r
}

fn stats_text(stats: &RepoStats, code_velocity: &str) -> (r: String)
    ensures
        r@ == stats_document(stats@, code_velocity@),
{
    let mut r = "{\"duration\":".to_owned();
    r.append(decimal_text(stats.duration_hours).as_str());
    r.append(",\"commit_count\":");
    r.append(natural_text(stats.commit_count).as_str());
    r.append(",\"contributors\":");
    r.append(json_quote(stats.contributors.as_str()).as_str());
    r.append(",\"code_velocity\":");
    r.append(code_velocity);
    r.append("}");
    r
}

/// The JSON object that carries `vars` to the template engine.
pub fn data_text(vars: &PromptVariables) -> (r: String)
    ensures
        r@ == data_document(vars@),
{
    let mut r = "{\"absolute_code_path\":".to_owned();
    r.append(json_quote(vars.absolute_code_path.as_str()).as_str());
    r.append(",\"source_tree\":");
    r.append(json_quote(vars.source_tree.as_str()).as_str());
    r.append(",\"git_diff_branch\":");
    r.append(json_quote(vars.git_diff_branch.as_str()).as_str());
    r.append(",\"git_log_branch\":");
    r.append(json_quote(vars.git_log_branch.as_str()).as_str());
    r.append(",\"git_changed_files\":[");
    r.append(quoted_list(&vars.git_changed_files).as_str());
    r.append("],\"git_stats\":");
    r.append(stats_text(&vars.git_stats, vars.code_velocity.as_str()).as_str());
    r.append("}");
    r
}

/// Turns what the engine gave into the prompt or a template error.
pub fn accept_rendering(rendering: Option<String>) -> (r: Result<String, RunError>)
    ensures
        match rendering {
            Some(p) => r matches Ok(s) && s@ == p@,
            None => r == Err::<String, RunError>(RunError::Template),
        },
{
    match rendering {
        Some(p) => Ok(p),
        None => Err(RunError::Template),
    }
}

/// Renders `template` against `vars`, with the engine in strict mode.
///
/// A template with a decorator and a code velocity that is no number are
/// template errors at once. Else the engine is handed the template and the
/// data that `data_text` gives for `vars`; its rendering is the prompt, and
/// where it gives none, for whatever reason, that is a template error too.
pub fn render(template: &str, vars: &PromptVariables) -> (r: Result<String, RunError>)
    ensures
        has_decorator(template@) || !is_number_text(vars@.code_velocity) ==> r == Err::<
            String,
            RunError,
        >(RunError::Template),
        r is Err ==> r == Err::<String, RunError>(RunError::Template),
{
    if decorated(template) || !number_text(vars.code_velocity.as_str()) {
        return Err(RunError::Template);
    }
    let document = data_text(vars);
    let data = match parse_document(document.as_str()) {
        Ok(data) => data,
        Err(_) => {
            return Err(RunError::Template);
        },
    };
    let rendering = match engine_render(template, &data, true) {
        Ok(s) => Some(s),
        Err(_) => None,
    };
    accept_rendering(rendering)
}

} // verus!
