//! Substitution of a bound value into a decomposed interpolation line.

use vstd::hash_map::StringHashMap;
use vstd::prelude::*;

use crate::classify::opt_text;
use crate::classify::ExpressionData;

verus! {

/// The rendering of `parts` under `bindings`: the head, then the value
/// bound to the variable — or empty text when the variable is unbound —
/// then the tail, concatenated left to right.
pub open spec fn spec_render(parts: ExpressionData, bindings: Map<Seq<char>, String>) -> Seq<
    char,
> {
    opt_text(parts.head) + (if bindings.contains_key(parts.variable@) {
        bindings[parts.variable@]@
    } else {
        Seq::empty()
    }) + opt_text(parts.tail)
}

/// Renders a decomposed interpolation line against a binding mapping.  A
/// variable absent from the mapping is not an error: it renders as empty
/// text.
pub fn generate_html_template_var(content: ExpressionData, context: StringHashMap<String>) -> (html:
    String)
    ensures
        html@ == spec_render(content, context@),
{
    let mut html = String::new();
    match &content.head {
        Some(head) => html.append(head.as_str()),
        None => {},
    }
    match context.get(content.variable.as_str()) {
        Some(value) => html.append(value.as_str()),
        None => {},
    }
    match &content.tail {
        Some(tail) => html.append(tail.as_str()),
        None => {},
    }
    proof {
        assert(html@ =~= spec_render(content, context@));
    }
    html
}

/// Rendering against an empty binding mapping always yields the head and
/// the tail alone, whatever the variable.
pub proof fn lemma_render_empty_bindings(parts: ExpressionData)
    ensures
        spec_render(parts, Map::empty()) == opt_text(parts.head) + opt_text(parts.tail),
{
    assert(!Map::<Seq<char>, String>::empty().contains_key(parts.variable@));
    assert(spec_render(parts, Map::empty()) =~= opt_text(parts.head) + opt_text(parts.tail));
}

} // verus!
