//! A line-oriented template classifier and renderer.
//!
//! One line of template source is classified as literal text, a variable
//! interpolation, a control-flow tag (a loop or a conditional), or an
//! unrecognized construct.  An interpolation line is decomposed into the
//! literal text before the delimiters, the variable name between them, and
//! the literal text after them; a renderer substitutes a bound value for
//! the variable and reassembles the line.

pub mod classify;
pub mod render;
pub mod text;

pub use classify::get_content_type;
pub use classify::get_expression_data;
pub use classify::ContentType;
pub use classify::ExpressionData;
pub use classify::TagType;
pub use classify::TemplateError;
pub use render::generate_html_template_var;
pub use text::check_matching_pair;
pub use text::check_symbol_string;
pub use text::get_index_for_symbol;
