//! What the printing context changes: values never read it, so the one
//! difference it makes to a declaration is the `;` at its end.

use vstd::prelude::*;
use crate::ops::OpView;
use crate::spec::{
    CodegenConfig, Ctx, ListDelim, declaration_ops, value_ops, values_ops, list_values_ops,
    function_ops, simple_block_ops, bin_value_ops, url_ops, url_modifier_ops, url_modifiers_ops,
    punct, list_sep, fmt, block_closing,
};
use crate::ast::{Declaration, Value, Function, SimpleBlock, BinValue, Url, UrlModifier};

verus! {

proof fn lemma_value_ctx(c: CodegenConfig, x1: Ctx, x2: Ctx, n: Value)
    ensures
        value_ops(c, x1, n) == value_ops(c, x2, n),
    decreases n,
{
    match n {
        Value::Function(f) => lemma_function_ctx(c, x1, x2, f),
        Value::SimpleBlock(b) => lemma_simple_block_ctx(c, x1, x2, b),
        Value::Bin(b) => lemma_bin_value_ctx(c, x1, x2, b),
        Value::Url(u) => lemma_url_ctx(c, x1, x2, u),
        _ => {},
    }
}

proof fn lemma_values_ctx(c: CodegenConfig, x1: Ctx, x2: Ctx, v: Seq<Value>, sep: Seq<OpView>)
    ensures
        values_ops(c, x1, v, sep) == values_ops(c, x2, v, sep),
    decreases v,
{
    if v.len() > 0 {
        lemma_values_ctx(c, x1, x2, v.drop_last(), sep);
        lemma_value_ctx(c, x1, x2, v.last());
    }
}

proof fn lemma_list_values_ctx(c: CodegenConfig, x1: Ctx, x2: Ctx, v: Seq<Value>, d: ListDelim)
    ensures
        list_values_ops(c, x1, v, d) == list_values_ops(c, x2, v, d),
    decreases v,
{
    if v.len() > 0 {
        lemma_list_values_ctx(c, x1, x2, v.drop_last(), d);
        lemma_value_ctx(c, x1, x2, v.last());
    }
}

proof fn lemma_function_ctx(c: CodegenConfig, x1: Ctx, x2: Ctx, n: Function)
    ensures
        function_ops(c, x1, n) == function_ops(c, x2, n),
    decreases n,
{
    lemma_list_values_ctx(c, x1, x2, n.value@, ListDelim::Space);
}

proof fn lemma_simple_block_ctx(c: CodegenConfig, x1: Ctx, x2: Ctx, n: SimpleBlock)
    ensures
        simple_block_ops(c, x1, n) == simple_block_ops(c, x2, n),
    decreases n,
{
    let d = if block_closing(n.name) == ']' { ListDelim::Space } else { ListDelim::NotDelimited };
    lemma_values_ctx(c, x1, x2, n.value@, list_sep(c, fmt(d, false)));
    assert(simple_block_ops(c, x1, n) =~= simple_block_ops(c, x2, n));
}

proof fn lemma_bin_value_ctx(c: CodegenConfig, x1: Ctx, x2: Ctx, n: BinValue)
    ensures
        bin_value_ops(c, x1, n) == bin_value_ops(c, x2, n),
    decreases n,
{
    lemma_value_ctx(c, x1, x2, *n.left);
    lemma_value_ctx(c, x1, x2, *n.right);
}

proof fn lemma_url_modifier_ctx(c: CodegenConfig, x1: Ctx, x2: Ctx, n: UrlModifier)
    ensures
        url_modifier_ops(c, x1, n) == url_modifier_ops(c, x2, n),
    decreases n,
{
    match n {
        UrlModifier::Function(f) => lemma_function_ctx(c, x1, x2, f),
        _ => {},
    }
}

proof fn lemma_url_modifiers_ctx(c: CodegenConfig, x1: Ctx, x2: Ctx, v: Seq<UrlModifier>, sep: Seq<OpView>)
    ensures
        url_modifiers_ops(c, x1, v, sep) == url_modifiers_ops(c, x2, v, sep),
    decreases v,
{
    if v.len() > 0 {
        lemma_url_modifiers_ctx(c, x1, x2, v.drop_last(), sep);
        lemma_url_modifier_ctx(c, x1, x2, v.last());
    }
}

proof fn lemma_url_ctx(c: CodegenConfig, x1: Ctx, x2: Ctx, n: Url)
    ensures
        url_ops(c, x1, n) == url_ops(c, x2, n),
    decreases n,
{
    match n.modifiers {
        Some(m) => {
            lemma_url_modifiers_ctx(c, x1, x2, m@, list_sep(c, fmt(ListDelim::Space, false)));
            assert(url_ops(c, x1, n) =~= url_ops(c, x2, n));
        },
        None => {},
    }
}

/// A declaration ends in `;` exactly when the context asks for it: printed
/// with `semi_after_property` set, it is the same declaration printed
/// without, followed by one `;`.
pub proof fn law_declaration_semicolon(c: CodegenConfig, n: Declaration)
    ensures
        declaration_ops(c, Ctx { semi_after_property: true }, n)
            == declaration_ops(c, Ctx { semi_after_property: false }, n) + punct(";"@),
{
    let x1 = Ctx { semi_after_property: true };
    let x2 = Ctx { semi_after_property: false };
    lemma_list_values_ctx(c, x1, x2, n.value@, ListDelim::Space);
    assert forall|sep: Seq<OpView>| values_ops(c, x1, n.value@, sep) == values_ops(c, x2, n.value@, sep) by {
        lemma_values_ctx(c, x1, x2, n.value@, sep);
    }
    assert(declaration_ops(c, x1, n) =~= declaration_ops(c, x2, n) + punct(";"@));
}

} // verus!
