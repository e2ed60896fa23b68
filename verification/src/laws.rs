//! What the printed text of selectors, media queries, value lists,
//! keyframes rules and supports conditions must look like, stated call by
//! call: the separators and keywords that keep the CSS meaning what the
//! tree says.

use vstd::prelude::*;
use crate::ops::OpView;
use crate::spec::{
    CodegenConfig, Ctx, ListDelim, selector_list_ops, complex_selector_ops, media_query_ops,
    media_condition_type_ops, list_values_ops, value_ops, declaration_ops, keyframes_rule_ops,
    str_ops, supports_condition_type_ops, supports_in_parens_ops, media_query_list_ops,
    layer_name_ops, layer_name_list_ops, keyframe_block_ops, keyframe_selector_ops, block_ops,
    complex_children_ops, complex_selector_children_ops, media_condition_all_type_ops,
    media_condition_without_or_type_ops, media_in_parens_ops, important_flag_ops, supports_rule_ops,
    media_rule_ops, namespace_rule_ops, media_queries_ops, idents_ops, layer_names_ops,
    keyframe_selectors_ops, list_sep, fmt, delimiter_ops, combinator_ops, bin_value_ops,
    attr_selector_ops, function_ops, simple_block_ops, token_ops, import_rule_ops,
};
use crate::ast::{
    ComplexSelector, CustomIdent, Declaration, DeclarationName, Ident, KeyframesName, KeyframesRule,
    MediaConditionType, MediaQuery, SelectorList, Str, SupportsConditionType, Value, MediaQueryList,
    LayerName, LayerNameList, KeyframeBlock, KeyframeSelector, ComplexSelectorChildren,
    MediaConditionAllType, MediaConditionWithoutOrType, ImportantFlag, SupportsRule, MediaRule,
    NamespaceRule, Delimiter, DelimiterValue, Combinator, CombinatorValue, BinValue, BinOp,
    AttrSelector, AttrSelectorMatcher, AttrSelectorValue, Function, SimpleBlock, SimpleBlockName,
    Span, TokenAndSpan, ImportRule,
};

verus! {

/// A space in plain output, nothing in minified output.
pub open spec fn plain_space(c: CodegenConfig) -> Seq<OpView> {
    if c.minify { seq![] } else { seq![OpView::Space] }
}

/// An identifier written as raw text with its position.
pub open spec fn ident_text(i: Ident) -> Seq<OpView> {
    seq![OpView::Raw(Some(i.span), i.raw@)]
}

/// A value that is one word of CSS: an identifier, a number or a dimension.
/// Two such values written next to each other would run together.
pub open spec fn is_word(v: Value) -> bool {
    v is Ident || v is Number || v is Dimension
}

/// Selectors in a list are separated by a comma (and, in plain output, a
/// space): a list of one selector prints that selector, and adding one
/// more selector to a list appends `,`, the plain space and the selector.
pub proof fn law_selector_list_commas(c: CodegenConfig, x: Ctx, a: SelectorList, b: SelectorList, s: ComplexSelector)
    requires
        b.children@ == a.children@.push(s),
    ensures
        a.children@.len() == 0 ==> selector_list_ops(c, x, b) == complex_selector_ops(c, x, s),
        a.children@.len() > 0 ==> selector_list_ops(c, x, b) == selector_list_ops(c, x, a)
            + seq![OpView::Punct(None, ","@)] + plain_space(c) + complex_selector_ops(c, x, s),
{
    let v = b.children@;
    assert(v.drop_last() =~= a.children@);
    assert(v.last() == s);
    if a.children@.len() == 0 {
        assert(selector_list_ops(c, x, b) =~= complex_selector_ops(c, x, s));
    } else {
        assert(selector_list_ops(c, x, b) =~= selector_list_ops(c, x, a)
            + seq![OpView::Punct(None, ","@)] + plain_space(c) + complex_selector_ops(c, x, s));
    }
}

/// A media query with both a media type and a condition joins them with
/// ` and `: the type, a space, `and`, a space, then the condition; a
/// modifier (`not`, `only`) comes first, followed by a space.
pub proof fn law_media_query_and(c: CodegenConfig, q: MediaQuery, t: Ident, cond: MediaConditionType)
    requires
        q.media_type == Some(t),
        q.condition == Some(cond),
    ensures
        media_query_ops(c, q) == (match q.modifier {
            Some(m) => ident_text(m) + seq![OpView::Space],
            None => seq![],
        }) + ident_text(t) + seq![OpView::Space, OpView::Raw(None, "and"@), OpView::Space]
            + media_condition_type_ops(c, cond),
{
    assert(media_query_ops(c, q) =~= (match q.modifier {
        Some(m) => ident_text(m) + seq![OpView::Space],
        None => seq![],
    }) + ident_text(t) + seq![OpView::Space, OpView::Raw(None, "and"@), OpView::Space]
        + media_condition_type_ops(c, cond));
}

/// Two neighbouring words in a space-delimited value list are kept apart
/// by a space, in plain and in minified output alike.
pub proof fn law_words_stay_apart(c: CodegenConfig, x: Ctx, v: Seq<Value>, w: Value)
    requires
        v.len() > 0,
        is_word(v.last()),
        is_word(w),
    ensures
        list_values_ops(c, x, v.push(w), ListDelim::Space) == list_values_ops(c, x, v, ListDelim::Space)
            + seq![OpView::Space] + value_ops(c, x, w),
{
    let u = v.push(w);
    assert(u.drop_last() =~= v);
    assert(u[u.len() - 2] == v.last());
    assert(list_values_ops(c, x, u, ListDelim::Space) =~= list_values_ops(c, x, v, ListDelim::Space)
        + seq![OpView::Space] + value_ops(c, x, w));
}

/// A declaration `name: a b` of two words prints the name, `:`, the plain
/// space, the first word, a space, the second word, and `;` when the
/// context asks for it; the space between the words stays when minified.
pub proof fn law_declaration_two_words(c: CodegenConfig, x: Ctx, n: Declaration, i: Ident, a: Value, b: Value)
    requires
        n.name == DeclarationName::Ident(i),
        n.important is None,
        n.value@ == seq![a, b],
        is_word(a),
        is_word(b),
    ensures
        declaration_ops(c, x, n) == ident_text(i) + seq![OpView::Punct(None, ":"@)] + plain_space(c)
            + value_ops(c, x, a) + seq![OpView::Space] + value_ops(c, x, b)
            + (if x.semi_after_property { seq![OpView::Punct(None, ";"@)] } else { seq![] }),
{
    let v = n.value@;
    assert(v.drop_last() =~= seq![a]);
    assert(seq![a].drop_last() =~= Seq::<Value>::empty());
    assert(seq![a].last() == a);
    assert(list_values_ops(c, x, Seq::<Value>::empty(), ListDelim::Space) == Seq::<OpView>::empty());
    assert(list_values_ops(c, x, seq![a], ListDelim::Space) =~= value_ops(c, x, a));
    assert(v.last() == b);
    assert(v[0] == a);
    assert(list_values_ops(c, x, v, ListDelim::Space) =~= value_ops(c, x, a) + seq![OpView::Space]
        + value_ops(c, x, b));
    assert(declaration_ops(c, x, n) =~= ident_text(i) + seq![OpView::Punct(None, ":"@)] + plain_space(c)
        + value_ops(c, x, a) + seq![OpView::Space] + value_ops(c, x, b)
        + (if x.semi_after_property { seq![OpView::Punct(None, ";"@)] } else { seq![] }));
}

/// `@keyframes` and an identifier name are always kept apart by a space,
/// also when minified; a quoted name only gets the plain space.
pub proof fn law_keyframes_name_spacing(c: CodegenConfig, x: Ctx, n: KeyframesRule)
    ensures
        n.name matches KeyframesName::CustomIdent(i) ==> keyframes_rule_ops(c, x, n).take(4) == seq![
            OpView::Punct(None, "@"@),
            OpView::Raw(None, "keyframes"@),
            OpView::Space,
            OpView::Raw(Some(i.span), i.raw@),
        ],
        n.name matches KeyframesName::Str(s) ==> keyframes_rule_ops(c, x, n).take(
            (2 + plain_space(c).len() + str_ops(c, s).len()) as int,
        ) == seq![OpView::Punct(None, "@"@), OpView::Raw(None, "keyframes"@)] + plain_space(c)
            + str_ops(c, s),
{
    let ops = keyframes_rule_ops(c, x, n);
    match n.name {
        KeyframesName::CustomIdent(i) => {
            let head = seq![
                OpView::Punct(None, "@"@),
                OpView::Raw(None, "keyframes"@),
                OpView::Space,
                OpView::Raw(Some(i.span), i.raw@),
            ];
            assert(ops =~= head + ops.skip(4));
            assert(ops.take(4) =~= head);
        },
        KeyframesName::Str(s) => {
            let head = seq![OpView::Punct(None, "@"@), OpView::Raw(None, "keyframes"@)] + plain_space(c)
                + str_ops(c, s);
            assert(ops =~= head + ops.skip(head.len() as int));
            assert(ops.take(head.len() as int) =~= head);
        },
    }
}

/// Each supports condition writes the keyword of its own kind: `not`,
/// `and` or `or` (after the plain space and before a space and the
/// condition in parentheses); a condition in parentheses writes no
/// keyword.
pub proof fn law_supports_keywords(c: CodegenConfig, x: Ctx, t: SupportsConditionType)
    ensures
        supports_condition_type_ops(c, x, t) == match t {
            SupportsConditionType::Not(s) => plain_space(c) + seq![OpView::Raw(None, "not"@), OpView::Space]
                + supports_in_parens_ops(c, x, s.condition),
            SupportsConditionType::And(s) => plain_space(c) + seq![OpView::Raw(None, "and"@), OpView::Space]
                + supports_in_parens_ops(c, x, s.condition),
            SupportsConditionType::Or(s) => plain_space(c) + seq![OpView::Raw(None, "or"@), OpView::Space]
                + supports_in_parens_ops(c, x, s.condition),
            SupportsConditionType::SupportsInParens(p) => supports_in_parens_ops(c, x, p),
        },
{
    match t {
        SupportsConditionType::Not(s) => {
            assert(supports_condition_type_ops(c, x, t) =~= plain_space(c)
                + seq![OpView::Raw(None, "not"@), OpView::Space] + supports_in_parens_ops(c, x, s.condition));
        },
        SupportsConditionType::And(s) => {
            assert(supports_condition_type_ops(c, x, t) =~= plain_space(c)
                + seq![OpView::Raw(None, "and"@), OpView::Space] + supports_in_parens_ops(c, x, s.condition));
        },
        SupportsConditionType::Or(s) => {
            assert(supports_condition_type_ops(c, x, t) =~= plain_space(c)
                + seq![OpView::Raw(None, "or"@), OpView::Space] + supports_in_parens_ops(c, x, s.condition));
        },
        SupportsConditionType::SupportsInParens(p) => {},
    }
}

/// Media queries in a list are separated by a comma (and, in plain
/// output, a space).
pub proof fn law_media_query_list_commas(c: CodegenConfig, a: MediaQueryList, b: MediaQueryList, q: MediaQuery)
    requires
        b.queries@ == a.queries@.push(q),
    ensures
        a.queries@.len() == 0 ==> media_query_list_ops(c, b) == media_query_ops(c, q),
        a.queries@.len() > 0 ==> media_query_list_ops(c, b) == media_query_list_ops(c, a)
            + seq![OpView::Punct(None, ","@)] + plain_space(c) + media_query_ops(c, q),
{
    let v = b.queries@;
    assert(v.drop_last() =~= a.queries@);
    assert(v.last() == q);
    if a.queries@.len() == 0 {
        let sep = list_sep(c, fmt(ListDelim::Comma, false));
        assert(a.queries@ =~= Seq::<MediaQuery>::empty());
        assert(media_queries_ops(c, Seq::<MediaQuery>::empty(), sep) == Seq::<OpView>::empty());
        assert(media_query_list_ops(c, b) =~= media_query_ops(c, q));
    } else {
        assert(media_query_list_ops(c, b) =~= media_query_list_ops(c, a)
            + seq![OpView::Punct(None, ","@)] + plain_space(c) + media_query_ops(c, q));
    }
}

/// The parts of a layer name are joined by `.`, with no space.
pub proof fn law_layer_name_dots(c: CodegenConfig, a: LayerName, b: LayerName, i: Ident)
    requires
        b.name@ == a.name@.push(i),
    ensures
        a.name@.len() == 0 ==> layer_name_ops(c, b) == ident_text(i),
        a.name@.len() > 0 ==> layer_name_ops(c, b) == layer_name_ops(c, a)
            + seq![OpView::Punct(None, "."@)] + ident_text(i),
{
    let v = b.name@;
    assert(v.drop_last() =~= a.name@);
    assert(v.last() == i);
    if a.name@.len() == 0 {
        let sep = list_sep(c, fmt(ListDelim::Dot, false));
        assert(a.name@ =~= Seq::<Ident>::empty());
        assert(idents_ops(Seq::<Ident>::empty(), sep) == Seq::<OpView>::empty());
        assert(layer_name_ops(c, b) =~= ident_text(i));
    } else {
        assert(layer_name_ops(c, b) =~= layer_name_ops(c, a) + seq![OpView::Punct(None, "."@)]
            + ident_text(i));
    }
}

/// Layer names in a list are separated by a comma (and, in plain output,
/// a space).
pub proof fn law_layer_name_list_commas(c: CodegenConfig, a: LayerNameList, b: LayerNameList, l: LayerName)
    requires
        b.name_list@ == a.name_list@.push(l),
    ensures
        a.name_list@.len() == 0 ==> layer_name_list_ops(c, b) == layer_name_ops(c, l),
        a.name_list@.len() > 0 ==> layer_name_list_ops(c, b) == layer_name_list_ops(c, a)
            + seq![OpView::Punct(None, ","@)] + plain_space(c) + layer_name_ops(c, l),
{
    let v = b.name_list@;
    assert(v.drop_last() =~= a.name_list@);
    assert(v.last() == l);
    if a.name_list@.len() == 0 {
        let sep = list_sep(c, fmt(ListDelim::Comma, false));
        assert(a.name_list@ =~= Seq::<LayerName>::empty());
        assert(layer_names_ops(c, Seq::<LayerName>::empty(), sep) == Seq::<OpView>::empty());
        assert(layer_name_list_ops(c, b) =~= layer_name_ops(c, l));
    } else {
        assert(layer_name_list_ops(c, b) =~= layer_name_list_ops(c, a)
            + seq![OpView::Punct(None, ","@)] + plain_space(c) + layer_name_ops(c, l));
    }
}

/// A keyframe block with two selectors (`from, to {..}`) prints them
/// separated by a comma (and, in plain output, a space), then the plain
/// space and the block.
pub proof fn law_keyframe_selectors_commas(c: CodegenConfig, x: Ctx, k: KeyframeBlock, s1: KeyframeSelector, s2: KeyframeSelector)
    requires
        k.prelude@ == seq![s1, s2],
    ensures
        keyframe_block_ops(c, x, k) == keyframe_selector_ops(c, s1) + seq![OpView::Punct(None, ","@)]
            + plain_space(c) + keyframe_selector_ops(c, s2) + plain_space(c) + block_ops(c, x, k.block),
{
    let v = k.prelude@;
    assert(v.drop_last() =~= seq![s1]);
    assert(seq![s1].drop_last() =~= Seq::<KeyframeSelector>::empty());
    assert(seq![s1].last() == s1);
    assert(v.last() == s2);
    let sep = list_sep(c, fmt(ListDelim::Comma, false));
    assert(keyframe_selectors_ops(c, Seq::<KeyframeSelector>::empty(), sep) == Seq::<OpView>::empty());
    assert(keyframe_selectors_ops(c, seq![s1], sep) =~= keyframe_selector_ops(c, s1));
    assert(keyframe_selectors_ops(c, v, sep) =~= keyframe_selector_ops(c, s1) + seq![OpView::Punct(None, ","@)]
        + plain_space(c) + keyframe_selector_ops(c, s2));
    assert(keyframe_block_ops(c, x, k) =~= keyframe_selector_ops(c, s1) + seq![OpView::Punct(None, ","@)]
        + plain_space(c) + keyframe_selector_ops(c, s2) + plain_space(c) + block_ops(c, x, k.block));
}

/// In a complex selector, two neighbouring compound selectors are
/// separated by a space (the descendant combinator); next to an explicit
/// combinator nothing is added.
pub proof fn law_complex_selector_spaces(c: CodegenConfig, x: Ctx, v: Seq<ComplexSelectorChildren>, ch: ComplexSelectorChildren)
    requires
        v.len() > 0,
    ensures
        v.last() is CompoundSelector && ch is CompoundSelector ==> complex_children_ops(c, x, v.push(ch))
            == complex_children_ops(c, x, v) + seq![OpView::Space] + complex_selector_children_ops(c, x, ch),
        !(v.last() is CompoundSelector && ch is CompoundSelector) ==> complex_children_ops(c, x, v.push(ch))
            == complex_children_ops(c, x, v) + complex_selector_children_ops(c, x, ch),
{
    let u = v.push(ch);
    assert(u.drop_last() =~= v);
    assert(u[u.len() - 2] == v.last());
    if v.last() is CompoundSelector && ch is CompoundSelector {
        assert(complex_children_ops(c, x, u) =~= complex_children_ops(c, x, v) + seq![OpView::Space]
            + complex_selector_children_ops(c, x, ch));
    } else {
        assert(complex_children_ops(c, x, u) =~= complex_children_ops(c, x, v)
            + complex_selector_children_ops(c, x, ch));
    }
}

/// Each media condition writes the keyword of its own kind: `not`, `and`
/// or `or` (after the plain space and before a space and the condition in
/// parentheses); a condition in parentheses writes no keyword.
pub proof fn law_media_keywords(c: CodegenConfig, t: MediaConditionAllType, w: MediaConditionWithoutOrType)
    ensures
        media_condition_all_type_ops(c, t) == match t {
            MediaConditionAllType::Not(m) => plain_space(c) + seq![OpView::Raw(None, "not"@), OpView::Space]
                + media_in_parens_ops(c, m.condition),
            MediaConditionAllType::And(m) => plain_space(c) + seq![OpView::Raw(None, "and"@), OpView::Space]
                + media_in_parens_ops(c, m.condition),
            MediaConditionAllType::Or(m) => plain_space(c) + seq![OpView::Raw(None, "or"@), OpView::Space]
                + media_in_parens_ops(c, m.condition),
            MediaConditionAllType::MediaInParens(p) => media_in_parens_ops(c, p),
        },
        media_condition_without_or_type_ops(c, w) == match w {
            MediaConditionWithoutOrType::Not(m) => plain_space(c) + seq![OpView::Raw(None, "not"@), OpView::Space]
                + media_in_parens_ops(c, m.condition),
            MediaConditionWithoutOrType::And(m) => plain_space(c) + seq![OpView::Raw(None, "and"@), OpView::Space]
                + media_in_parens_ops(c, m.condition),
            MediaConditionWithoutOrType::MediaInParens(p) => media_in_parens_ops(c, p),
        },
{
    match t {
        MediaConditionAllType::Not(m) => {
            assert(media_condition_all_type_ops(c, t) =~= plain_space(c)
                + seq![OpView::Raw(None, "not"@), OpView::Space] + media_in_parens_ops(c, m.condition));
        },
        MediaConditionAllType::And(m) => {
            assert(media_condition_all_type_ops(c, t) =~= plain_space(c)
                + seq![OpView::Raw(None, "and"@), OpView::Space] + media_in_parens_ops(c, m.condition));
        },
        MediaConditionAllType::Or(m) => {
            assert(media_condition_all_type_ops(c, t) =~= plain_space(c)
                + seq![OpView::Raw(None, "or"@), OpView::Space] + media_in_parens_ops(c, m.condition));
        },
        MediaConditionAllType::MediaInParens(p) => {},
    }
    match w {
        MediaConditionWithoutOrType::Not(m) => {
            assert(media_condition_without_or_type_ops(c, w) =~= plain_space(c)
                + seq![OpView::Raw(None, "not"@), OpView::Space] + media_in_parens_ops(c, m.condition));
        },
        MediaConditionWithoutOrType::And(m) => {
            assert(media_condition_without_or_type_ops(c, w) =~= plain_space(c)
                + seq![OpView::Raw(None, "and"@), OpView::Space] + media_in_parens_ops(c, m.condition));
        },
        MediaConditionWithoutOrType::MediaInParens(p) => {},
    }
}

/// `!important` is written as `!` and the flag as it was written; when
/// minified, as `!` and `important` in lower case.
pub proof fn law_important_flag(c: CodegenConfig, f: ImportantFlag)
    ensures
        important_flag_ops(c, f) == seq![OpView::Punct(None, "!"@)] + if c.minify {
            seq![OpView::Raw(None, "important"@)]
        } else {
            ident_text(f.value)
        },
{
    assert(important_flag_ops(c, f) =~= seq![OpView::Punct(None, "!"@)] + if c.minify {
        seq![OpView::Raw(None, "important"@)]
    } else {
        ident_text(f.value)
    });
}

/// An `@supports` rule starts with `@`, `supports`, and then a space that
/// minified output keeps unless the condition starts with a parenthesis.
pub proof fn law_supports_rule_head(c: CodegenConfig, x: Ctx, n: SupportsRule)
    ensures
        supports_rule_ops(c, x, n).take(2) == seq![OpView::Punct(None, "@"@), OpView::Raw(None, "supports"@)],
        !(n.condition.conditions@.len() > 0 && n.condition.conditions@[0] is SupportsInParens)
            ==> supports_rule_ops(c, x, n)[2] == OpView::Space,
{
    let ops = supports_rule_ops(c, x, n);
    let head = seq![OpView::Punct(None, "@"@), OpView::Raw(None, "supports"@)];
    assert(ops =~= head + ops.skip(2));
    assert(ops.take(2) =~= head);
}

/// An `@media` rule starts with `@` and `media`.
pub proof fn law_media_rule_head(c: CodegenConfig, x: Ctx, n: MediaRule)
    ensures
        media_rule_ops(c, x, n).take(2) == seq![OpView::Punct(None, "@"@), OpView::Raw(None, "media"@)],
{
    let ops = media_rule_ops(c, x, n);
    let head = seq![OpView::Punct(None, "@"@), OpView::Raw(None, "media"@)];
    assert(ops =~= head + ops.skip(2));
    assert(ops.take(2) =~= head);
}

/// An `@namespace` rule with a prefix writes `@`, `namespace`, a space
/// (kept when minified) and the prefix; it always ends with `;`.
pub proof fn law_namespace_rule_prefix(c: CodegenConfig, x: Ctx, n: NamespaceRule)
    ensures
        n.prefix matches Some(p) ==> namespace_rule_ops(c, x, n).take(4) == seq![
            OpView::Punct(None, "@"@),
            OpView::Raw(None, "namespace"@),
            OpView::Space,
            OpView::Raw(Some(p.span), p.raw@),
        ],
        namespace_rule_ops(c, x, n).last() == OpView::Punct(None, ";"@),
{
    let ops = namespace_rule_ops(c, x, n);
    match n.prefix {
        Some(p) => {
            let head = seq![
                OpView::Punct(None, "@"@),
                OpView::Raw(None, "namespace"@),
                OpView::Space,
                OpView::Raw(Some(p.span), p.raw@),
            ];
            assert(ops =~= head + ops.skip(4));
            assert(ops.take(4) =~= head);
        },
        None => {},
    }
}

/// A delimiter value is written as its own punctuation: `,`, `/` or `;`.
pub proof fn law_delimiter_text(n: Delimiter)
    ensures
        delimiter_ops(n) == seq![OpView::Punct(None, match n.value {
            DelimiterValue::Comma => ","@,
            DelimiterValue::Solidus => "/"@,
            DelimiterValue::Semicolon => ";"@,
        })],
{
}

/// A combinator is written as its own punctuation: ` `, `+`, `>` or `~`.
pub proof fn law_combinator_text(n: Combinator)
    ensures
        combinator_ops(n) == seq![OpView::Punct(None, match n.value {
            CombinatorValue::Descendant => " "@,
            CombinatorValue::NextSibling => "+"@,
            CombinatorValue::Child => ">"@,
            CombinatorValue::LaterSibling => "~"@,
        })],
{
}

/// A binary value writes its operator between its operands; `+` and `-`
/// are always surrounded by spaces (CSS needs them there), `*` and `/`
/// only in plain output.
pub proof fn law_bin_value_operator(c: CodegenConfig, x: Ctx, n: BinValue)
    ensures
        bin_value_ops(c, x, n) == ({
            let sp = if n.op == BinOp::Add || n.op == BinOp::Sub { seq![OpView::Space] } else { plain_space(c) };
            let op = match n.op {
                BinOp::Add => "+"@,
                BinOp::Sub => "-"@,
                BinOp::Mul => "*"@,
                BinOp::Div => "/"@,
            };
            value_ops(c, x, *n.left) + sp + seq![OpView::Punct(None, op)] + sp + value_ops(c, x, *n.right)
        }),
{
    let sp = if n.op == BinOp::Add || n.op == BinOp::Sub { seq![OpView::Space] } else { plain_space(c) };
    let op = match n.op {
        BinOp::Add => "+"@,
        BinOp::Sub => "-"@,
        BinOp::Mul => "*"@,
        BinOp::Div => "/"@,
    };
    assert(bin_value_ops(c, x, n) =~= value_ops(c, x, *n.left) + sp + seq![OpView::Punct(None, op)] + sp
        + value_ops(c, x, *n.right));
}

/// An attribute selector `[name<matcher>value]` with an identifier value
/// and no prefix or modifier writes `[`, the name, the matcher's own
/// punctuation, the value and `]`.
pub proof fn law_attr_selector_matcher(c: CodegenConfig, n: AttrSelector, m: AttrSelectorMatcher, v: Ident)
    requires
        n.prefix is None,
        n.matcher == Some(m),
        n.value == Some(AttrSelectorValue::Ident(v)),
        n.modifier is None,
    ensures
        attr_selector_ops(c, n) == seq![OpView::Punct(None, "["@)] + ident_text(n.name) + seq![
            OpView::Punct(None, match m {
                AttrSelectorMatcher::Equals => "="@,
                AttrSelectorMatcher::Tilde => "~="@,
                AttrSelectorMatcher::Bar => "|="@,
                AttrSelectorMatcher::Caret => "^="@,
                AttrSelectorMatcher::Dollar => "$="@,
                AttrSelectorMatcher::Asterisk => "*="@,
            }),
        ] + ident_text(v) + seq![OpView::Punct(None, "]"@)],
{
    let ms = match m {
        AttrSelectorMatcher::Equals => "="@,
        AttrSelectorMatcher::Tilde => "~="@,
        AttrSelectorMatcher::Bar => "|="@,
        AttrSelectorMatcher::Caret => "^="@,
        AttrSelectorMatcher::Dollar => "$="@,
        AttrSelectorMatcher::Asterisk => "*="@,
    };
    assert(attr_selector_ops(c, n) =~= seq![OpView::Punct(None, "["@)] + ident_text(n.name)
        + seq![OpView::Punct(None, ms)] + ident_text(v) + seq![OpView::Punct(None, "]"@)]);
}

/// A function writes its name, `(`, its arguments and `)`.
pub proof fn law_function_parens(c: CodegenConfig, x: Ctx, f: Function)
    ensures
        function_ops(c, x, f) == ident_text(f.name) + seq![OpView::Punct(None, "("@)]
            + list_values_ops(c, x, f.value@, ListDelim::Space) + seq![OpView::Punct(None, ")"@)],
{
    assert(function_ops(c, x, f) =~= ident_text(f.name) + seq![OpView::Punct(None, "("@)]
        + list_values_ops(c, x, f.value@, ListDelim::Space) + seq![OpView::Punct(None, ")"@)]);
}

/// A simple block opens with its own bracket and closes with the matching
/// one: `[`..`]`, `(`..`)`, `{`..`}`.
pub proof fn law_simple_block_brackets(c: CodegenConfig, x: Ctx, b: SimpleBlock)
    ensures
        simple_block_ops(c, x, b).len() >= 2,
        simple_block_ops(c, x, b)[0] == OpView::RawChar(None, match b.name {
            SimpleBlockName::SquareBracket => '[',
            SimpleBlockName::Paren => '(',
            SimpleBlockName::CurlyBrace => '{',
        }),
        simple_block_ops(c, x, b).last() == OpView::RawChar(None, match b.name {
            SimpleBlockName::SquareBracket => ']',
            SimpleBlockName::Paren => ')',
            SimpleBlockName::CurlyBrace => '}',
        }),
{
}

/// Each punctuation token is written as its own text, with the token's
/// position.
pub proof fn law_punctuation_tokens(outer: Span, t: TokenAndSpan)
    ensures
        t.token is LParen ==> token_ops(outer, t) == seq![OpView::Punct(Some(t.span), "("@)],
        t.token is RParen ==> token_ops(outer, t) == seq![OpView::Punct(Some(t.span), ")"@)],
        t.token is LBracket ==> token_ops(outer, t) == seq![OpView::Punct(Some(t.span), "["@)],
        t.token is RBracket ==> token_ops(outer, t) == seq![OpView::Punct(Some(t.span), "]"@)],
        t.token is LBrace ==> token_ops(outer, t) == seq![OpView::Punct(Some(t.span), "{"@)],
        t.token is RBrace ==> token_ops(outer, t) == seq![OpView::Punct(Some(t.span), "}"@)],
        t.token is Comma ==> token_ops(outer, t) == seq![OpView::Punct(Some(t.span), ","@)],
        t.token is Semi ==> token_ops(outer, t) == seq![OpView::Punct(Some(t.span), ";"@)],
        t.token is Colon ==> token_ops(outer, t) == seq![OpView::Punct(Some(t.span), ":"@)],
        t.token is CDC ==> token_ops(outer, t) == seq![OpView::Punct(Some(t.span), "-->"@)],
        t.token is CDO ==> token_ops(outer, t) == seq![OpView::Punct(Some(t.span), "<!--"@)],
{
}

/// An `@import` rule starts with `@` and `import`; a `url(..)` target is
/// separated from `import` by a space that minified output keeps. The rule
/// ends with `;`.
pub proof fn law_import_rule_head(c: CodegenConfig, x: Ctx, n: ImportRule)
    ensures
        import_rule_ops(c, x, n).take(2) == seq![OpView::Punct(None, "@"@), OpView::Raw(None, "import"@)],
        n.href is Url ==> import_rule_ops(c, x, n)[2] == OpView::Space,
        import_rule_ops(c, x, n).last() == OpView::Punct(None, ";"@),
{
    let ops = import_rule_ops(c, x, n);
    let head = seq![OpView::Punct(None, "@"@), OpView::Raw(None, "import"@)];
    assert(ops =~= head + ops.skip(2));
    assert(ops.take(2) =~= head);
}

} // verus!
