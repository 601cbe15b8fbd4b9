//! Classification of one line of template source, and decomposition of a
//! variable-interpolation line into its literal and variable parts.

use vstd::prelude::*;

use crate::text::check_matching_pair;
use crate::text::check_symbol_string;
use crate::text::contains_sub;
use crate::text::first_index_of;
use crate::text::get_index_for_symbol;
use crate::text::is_first_index_of;
use crate::text::lemma_first_index_of;
use crate::text::occurs_at;

verus! {

/// The syntactic category of one line of template source.
#[derive(Debug, PartialEq)]
pub enum ContentType {
    /// Plain text: no delimiter pair of interest is present.
    Literal(String),
    /// A variable-substitution site, already decomposed.
    TemplateVariable(ExpressionData),
    /// A control-flow directive.
    Tag(TagType),
    /// Delimiters are present but the category could not be determined.
    Unrecognized,
}

/// The two recognized kinds of control-flow tag.
#[derive(Debug, PartialEq)]
pub enum TagType {
    ForTag,
    IfTag,
}

/// The decomposed parts of a variable-interpolation line: the literal text
/// before the opening delimiter, the bare variable name between the
/// delimiters (no whitespace trimming is performed), and the literal text
/// after the closing delimiter.
#[derive(Debug, PartialEq)]
pub struct ExpressionData {
    pub head: Option<String>,
    pub variable: String,
    pub tail: Option<String>,
}

/// The failure reported when a line taken for an interpolation has no
/// well-formed `{`/`}` delimiter boundaries.
#[derive(Debug, PartialEq)]
pub enum TemplateError {
    MalformedExpression,
}

/// The opening tag delimiter, `{%`.
pub open spec fn tag_open() -> Seq<char> {
    seq!['{', '%']
}

/// The closing tag delimiter, `%}`.
pub open spec fn tag_close() -> Seq<char> {
    seq!['%', '}']
}

/// The opening interpolation delimiter, `{{`.
pub open spec fn interp_open() -> Seq<char> {
    seq!['{', '{']
}

/// The closing interpolation delimiter, `}}`.
pub open spec fn interp_close() -> Seq<char> {
    seq!['}', '}']
}

/// The keyword `for`.
pub open spec fn kw_for() -> Seq<char> {
    seq!['f', 'o', 'r']
}

/// The keyword `in`.
pub open spec fn kw_in() -> Seq<char> {
    seq!['i', 'n']
}

/// The keyword `endfor`.
pub open spec fn kw_endfor() -> Seq<char> {
    seq!['e', 'n', 'd', 'f', 'o', 'r']
}

/// The keyword `if`.
pub open spec fn kw_if() -> Seq<char> {
    seq!['i', 'f']
}

/// The keyword `endif`.
pub open spec fn kw_endif() -> Seq<char> {
    seq!['e', 'n', 'd', 'i', 'f']
}

/// Both tag delimiters are present somewhere in the line (in any order;
/// presence is all that is checked, not balanced nesting).
pub open spec fn has_tag_delimiters(line: Seq<char>) -> bool {
    contains_sub(line, tag_open()) && contains_sub(line, tag_close())
}

/// Both interpolation delimiters are present somewhere in the line.
pub open spec fn has_interp_delimiters(line: Seq<char>) -> bool {
    contains_sub(line, interp_open()) && contains_sub(line, interp_close())
}

/// The loop-tag keywords are present: both `for` and `in`, or `endfor`.
pub open spec fn has_loop_keywords(line: Seq<char>) -> bool {
    (contains_sub(line, kw_for()) && contains_sub(line, kw_in())) || contains_sub(
        line,
        kw_endfor(),
    )
}

/// The conditional-tag keywords are present: `if` or `endif`.
pub open spec fn has_conditional_keywords(line: Seq<char>) -> bool {
    contains_sub(line, kw_if()) || contains_sub(line, kw_endif())
}

/// The line is classified as a loop tag: tag delimiters together with the
/// loop keywords.  This branch has the highest priority.
pub open spec fn is_loop_tag_line(line: Seq<char>) -> bool {
    has_tag_delimiters(line) && has_loop_keywords(line)
}

/// The line is classified as a conditional tag: tag delimiters together
/// with the conditional keywords, and not already a loop tag.
pub open spec fn is_conditional_tag_line(line: Seq<char>) -> bool {
    has_tag_delimiters(line) && !has_loop_keywords(line) && has_conditional_keywords(line)
}

/// The line is classified as an interpolation: the interpolation delimiters
/// are present and no tag branch has already claimed the line.
pub open spec fn is_interpolation_line(line: Seq<char>) -> bool {
    !is_loop_tag_line(line) && !is_conditional_tag_line(line) && has_interp_delimiters(line)
}

/// The line is classified as a literal: neither delimiter pair is present.
pub open spec fn is_literal_line(line: Seq<char>) -> bool {
    !has_tag_delimiters(line) && !has_interp_delimiters(line)
}

/// The decomposer can split the line: a `{` occurs, a `}` occurs, the first
/// `}` leaves room for a two-character opening delimiter before it, and at
/// least two characters follow it.
pub open spec fn decomposable(line: Seq<char>) -> bool {
    &&& line.contains('{')
    &&& line.contains('}')
    &&& first_index_of(line, '{') + 2 <= first_index_of(line, '}')
    &&& first_index_of(line, '}') + 2 <= line.len()
}

/// The text of an optional literal fragment; absence reads as empty text.
pub open spec fn opt_text(part: Option<String>) -> Seq<char> {
    match part {
        Some(text) => text@,
        None => Seq::empty(),
    }
}

/// `parts` is the decomposition of `line` around the first `{` (at position
/// `i`) and the first `}` (at position `k`): the head is everything before
/// `i`, the variable sits between `i + 2` and `k`, and the tail is
/// everything from `k + 2` on.
pub open spec fn is_decomposition_of(parts: ExpressionData, line: Seq<char>) -> bool {
    let i = first_index_of(line, '{');
    let k = first_index_of(line, '}');
    &&& parts.head matches Some(head) && head@ == line.subrange(0, i)
    &&& parts.variable@ == line.subrange(i + 2, k)
    &&& parts.tail matches Some(tail) && tail@ == line.subrange(k + 2, line.len() as int)
}

/// The line that `parts` stands for: head, opening delimiter, variable,
/// closing delimiter, tail.
pub open spec fn reassembled(parts: ExpressionData) -> Seq<char> {
    opt_text(parts.head) + interp_open() + parts.variable@ + interp_close() + opt_text(parts.tail)
}

/// Splits an interpolation line into head, variable and tail around the
/// first `{` and the first `}`.  Only the first occurrence of each brace is
/// used, so a line with several interpolations, or with a literal brace
/// before the intended delimiter, splits at the earlier position; this is
/// an accepted limitation of the format.  A line without well-formed
/// boundaries is reported as a `MalformedExpression` rather than split.
pub fn get_expression_data(input_line: &str) -> (r: Result<ExpressionData, TemplateError>)
    ensures
        r is Ok <==> decomposable(input_line@),
        r matches Ok(parts) ==> is_decomposition_of(parts, input_line@),
        r matches Err(e) ==> e == TemplateError::MalformedExpression,
{
    let n = input_line.unicode_len();
    let (has_open, i) = get_index_for_symbol(input_line, '{');
    let (has_close, k) = get_index_for_symbol(input_line, '}');
    if !has_open || !has_close {
        return Err(TemplateError::MalformedExpression);
    }
    proof {
        lemma_first_index_of(input_line@, '{');
        lemma_first_index_of(input_line@, '}');
    }
    if k < 2 || i > k - 2 || n - k < 2 {
        return Err(TemplateError::MalformedExpression);
    }
    let head = input_line.substring_char(0, i).to_owned();
    let variable = input_line.substring_char(i + 2, k).to_owned();
    let tail = input_line.substring_char(k + 2, n).to_owned();
    Ok(ExpressionData { head: Some(head), variable, tail: Some(tail) })
}

/// On a well-formed interpolation line the braces that the delimiters
/// contribute are the first braces of the line.
proof fn lemma_well_formed_first_braces(
    line: Seq<char>,
    head: Seq<char>,
    variable: Seq<char>,
    tail: Seq<char>,
)
    requires
        line == head + interp_open() + variable + interp_close() + tail,
        forall|j: int| 0 <= j < head.len() ==> head[j] != '{' && head[j] != '}',
        forall|j: int| 0 <= j < variable.len() ==> variable[j] != '{' && variable[j] != '}',
    ensures
        line.len() == head.len() + variable.len() + tail.len() + 4,
        is_first_index_of(line, '{', head.len() as int),
        is_first_index_of(line, '}', head.len() + 2 + variable.len() as int),
{
    let h = head.len() as int;
    let k0 = h + 2 + variable.len() as int;
    assert(line[h] == '{');
    assert forall|j: int| 0 <= j < h implies line[j] != '{' by {
        assert(line[j] == head[j]);
    }
    assert(line[k0] == '}');
    assert forall|j: int| 0 <= j < k0 implies line[j] != '}' by {
        if j < h {
            assert(line[j] == head[j]);
        } else if j < h + 2 {
            assert(line[j] == '{');
        } else {
            assert(line[j] == variable[j - h - 2]);
        }
    }
}

/// A well-formed single-interpolation line — a literal head, the opening
/// delimiter, a variable, the closing delimiter, a literal tail, with no
/// brace characters outside the delimiters — is classified as an
/// interpolation, decomposes into exactly those three parts, and
/// reassembling the decomposition reconstructs the line exactly.
///
/// The classifier checks the tag branches first, and a variable that
/// begins or ends with `%` can smuggle a tag delimiter into the line, so a
/// line that a tag branch claims is excluded here: on such a line the
/// classifier returns the tag, not the interpolation.
#[verifier::rlimit(50)]
pub proof fn lemma_well_formed_interpolation(
    line: Seq<char>,
    head: Seq<char>,
    variable: Seq<char>,
    tail: Seq<char>,
)
    requires
        line == head + interp_open() + variable + interp_close() + tail,
        forall|j: int| 0 <= j < head.len() ==> head[j] != '{' && head[j] != '}',
        forall|j: int| 0 <= j < variable.len() ==> variable[j] != '{' && variable[j] != '}',
        forall|j: int| 0 <= j < tail.len() ==> tail[j] != '{' && tail[j] != '}',
        !is_loop_tag_line(line),
        !is_conditional_tag_line(line),
    ensures
        is_interpolation_line(line),
        decomposable(line),
        forall|parts: ExpressionData| #[trigger] is_decomposition_of(parts, line) ==> {
            &&& opt_text(parts.head) == head
            &&& parts.variable@ == variable
            &&& opt_text(parts.tail) == tail
            &&& reassembled(parts) == line
        },
{
    let h = head.len() as int;
    let vl = variable.len() as int;
    let len = line.len() as int;
    let k0 = h + 2 + vl;

    // The braces the delimiters contribute are the first braces of the line.
    lemma_well_formed_first_braces(line, head, variable, tail);
    assert(line.contains('{')) by {
        assert(line[h] == '{');
    }
    assert(line.contains('}')) by {
        assert(line[k0] == '}');
    }
    lemma_first_index_of(line, '{');
    lemma_first_index_of(line, '}');
    assert(first_index_of(line, '{') == h);
    assert(first_index_of(line, '}') == k0);
    assert(decomposable(line));

    // Both interpolation delimiters are present, so the line is an
    // interpolation (the tag branches are excluded by hypothesis).
    assert(occurs_at(line, interp_open(), h)) by {
        assert(line.subrange(h, h + 2) =~= interp_open());
    }
    assert(occurs_at(line, interp_close(), k0)) by {
        assert(line.subrange(k0, k0 + 2) =~= interp_close());
    }
    assert(is_interpolation_line(line));

    // Splitting at the first braces recovers the three parts, and putting
    // them back together gives the line.
    assert(line.subrange(0, h) =~= head);
    assert(line.subrange(h + 2, k0) =~= variable);
    assert(line.subrange(k0 + 2, len) =~= tail);
    assert forall|parts: ExpressionData| #[trigger] is_decomposition_of(parts, line) implies {
        &&& opt_text(parts.head) == head
        &&& parts.variable@ == variable
        &&& opt_text(parts.tail) == tail
        &&& reassembled(parts) == line
    } by {
        assert(opt_text(parts.head) == head);
        assert(parts.variable@ == variable);
        assert(opt_text(parts.tail) == tail);
    }
}

/// Classifies one line of template source.  The decision order is fixed:
/// a loop tag is checked first, then a conditional tag, then an
/// interpolation, then a literal; a line that fits none of these — tag
/// delimiters without recognized keywords, or an interpolation whose
/// boundaries are malformed — is `Unrecognized`.
pub fn get_content_type(input_line: &str) -> (content: ContentType)
    ensures
        is_loop_tag_line(input_line@) ==> content == ContentType::Tag(TagType::ForTag),
        is_conditional_tag_line(input_line@) ==> content == ContentType::Tag(TagType::IfTag),
        is_interpolation_line(input_line@) && decomposable(input_line@) ==> (content matches ContentType::TemplateVariable(parts)
            && is_decomposition_of(parts, input_line@)),
        is_interpolation_line(input_line@) && !decomposable(input_line@) ==> content
            == ContentType::Unrecognized,
        is_literal_line(input_line@) ==> (content matches ContentType::Literal(text) && text@
            == input_line@),
        has_tag_delimiters(input_line@) && !has_loop_keywords(input_line@)
            && !has_conditional_keywords(input_line@) && !has_interp_delimiters(input_line@)
            ==> content == ContentType::Unrecognized,
{
    proof {
        reveal_strlit("{%");
        reveal_strlit("%}");
        reveal_strlit("{{");
        reveal_strlit("}}");
        reveal_strlit("for");
        reveal_strlit("in");
        reveal_strlit("endfor");
        reveal_strlit("if");
        reveal_strlit("endif");
        assert("{%"@ =~= tag_open());
        assert("%}"@ =~= tag_close());
        assert("{{"@ =~= interp_open());
        assert("}}"@ =~= interp_close());
        assert("for"@ =~= kw_for());
        assert("in"@ =~= kw_in());
        assert("endfor"@ =~= kw_endfor());
        assert("if"@ =~= kw_if());
        assert("endif"@ =~= kw_endif());
    }
    let is_tag_expression = check_matching_pair(input_line, "{%", "%}");
    let is_for_tag = check_symbol_string(input_line, "for") && check_symbol_string(input_line, "in")
        || check_symbol_string(input_line, "endfor");
    let is_if_tag = check_symbol_string(input_line, "if") || check_symbol_string(
        input_line,
        "endif",
    );
    let is_template_variable = check_matching_pair(input_line, "{{", "}}");
    if is_tag_expression && is_for_tag {
        ContentType::Tag(TagType::ForTag)
    } else if is_tag_expression && is_if_tag {
        ContentType::Tag(TagType::IfTag)
    } else if is_template_variable {
        match get_expression_data(input_line) {
            Ok(parts) => ContentType::TemplateVariable(parts),
            Err(_) => ContentType::Unrecognized,
        }
    } else if !is_tag_expression && !is_template_variable {
        ContentType::Literal(input_line.to_owned())
    } else {
        ContentType::Unrecognized
    }
}

} // verus!
