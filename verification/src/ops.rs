use vstd::prelude::*;
use crate::ast::Span;

verus! {

/// One call on a CSS writer: the code generator's whole output is the
/// sequence of these calls, in the order in which it makes them.
#[derive(Debug, Clone, PartialEq, Eq)]
pub enum CssOp {
    /// `write_space`
    Space,
    /// `write_newline`
    Newline,
    /// `write_raw` of a text, with the source position it came from, if any
    Raw(Option<Span>, String),
    /// `write_raw_char` of a character, with its source position, if any
    RawChar(Option<Span>, char),
    /// `write_punct` of a punctuation text, with its source position, if any
    Punct(Option<Span>, String),
    /// `write_str` of the value of a string (quoting is the writer's
    /// concern), with its source position, if any
    Str(Option<Span>, String),
    /// `increase_indent`
    IncreaseIndent,
    /// `decrease_indent`
    DecreaseIndent,
}

/// The mathematical value of a [`CssOp`]: texts become character sequences.
pub enum OpView {
    Space,
    Newline,
    Raw(Option<Span>, Seq<char>),
    RawChar(Option<Span>, char),
    Punct(Option<Span>, Seq<char>),
    Str(Option<Span>, Seq<char>),
    IncreaseIndent,
    DecreaseIndent,
}

impl View for CssOp {
    type V = OpView;

    open spec fn view(&self) -> OpView {
        match self {
            CssOp::Space => OpView::Space,
            CssOp::Newline => OpView::Newline,
            CssOp::Raw(sp, s) => OpView::Raw(*sp, s@),
            CssOp::RawChar(sp, c) => OpView::RawChar(*sp, *c),
            CssOp::Punct(sp, s) => OpView::Punct(*sp, s@),
            CssOp::Str(sp, s) => OpView::Str(*sp, s@),
            CssOp::IncreaseIndent => OpView::IncreaseIndent,
            CssOp::DecreaseIndent => OpView::DecreaseIndent,
        }
    }
}

/// The views of a sequence of writer calls.
pub open spec fn ops_view(ops: Seq<CssOp>) -> Seq<OpView> {
    ops.map_values(|o: CssOp| o@)
}

} // verus!
