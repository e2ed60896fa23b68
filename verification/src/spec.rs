//! What the code generator writes for each node: one spec function per kind
//! of node, from the configuration, the context and the node to the exact
//! sequence of writer calls.

use vstd::prelude::*;
use crate::ops::OpView;
use crate::text::{minify_hex_color_spec, minify_number_spec};
use crate::ast::{
    Span, TokenAndSpan, AnPlusB, AtRule, AtRuleName, AtSelector, AttrSelector, AttrSelectorMatcher, AttrSelectorValue,
    BinOp, BinValue, Block, CharsetRule, ClassSelector, Color, ColorProfileName, ColorProfileRule,
    Combinator, CombinatorValue, ComplexSelector, ComplexSelectorChildren, CompoundSelector,
    CustomIdent, DashedIdent, Declaration, DeclarationBlockItem, DeclarationName, Delimiter,
    DelimiterValue, Dimension, DocumentRule, FontFaceRule, Function, HexColor, IdSelector, Ident,
    ImportHref, ImportLayerName, ImportRule, ImportSupportsType, ImportantFlag, KeyframeBlock,
    KeyframeSelector, KeyframesName, KeyframesRule, LayerName, LayerNameList, LayerPrelude,
    LayerRule, MediaAnd, MediaCondition, MediaConditionAllType, MediaConditionType,
    MediaConditionWithoutOr, MediaConditionWithoutOrType, MediaFeature, MediaFeatureBoolean,
    MediaFeatureName, MediaFeaturePlain, MediaFeatureRange, MediaFeatureRangeComparison,
    MediaFeatureRangeInterval, MediaFeatureValue, MediaInParens, MediaNot, MediaOr, MediaQuery,
    MediaQueryList, MediaRule, NamespaceRule, NamespaceUri, NestedPageRule, NestingSelector, Nth,
    NthValue, Number, PageRule, PageRuleBlock, PageRuleBlockItem, PageSelector, Percent,
    PseudoClassSelector, PseudoElementSelector, PseudoSelectorChildren, QualifiedRule, Ratio, Rule,
    SelectorList, SimpleBlock, SimpleBlockName, Str, Stylesheet, SubclassSelector, SupportsAnd,
    SupportsCondition, SupportsConditionType, SupportsFeature, SupportsInParens, SupportsNot,
    SupportsOr, SupportsRule, Token, Tokens, TypeSelector, UnknownAtRule, Url, UrlModifier,
    UrlValue, UrlValueRaw, Value, ViewportRule,
};

verus! {

/// How the generator prints: `minify` drops the optional spaces and line
/// breaks and shortens numbers, colors, strings and `!important`.
#[derive(Debug, Clone, Copy)]
pub struct CodegenConfig {
    pub minify: bool,
}

/// What the enclosing nodes ask of the nested ones: inside a page rule
/// block each declaration is followed by `;`.
#[derive(Debug, Clone, Copy)]
pub struct Ctx {
    pub semi_after_property: bool,
}

/// The delimiter written between two items of a list.
#[derive(Debug, Clone, Copy, PartialEq, Eq)]
pub enum ListDelim {
    NotDelimited,
    Comma,
    Space,
    Semi,
    Dot,
}

/// How a list is printed: its delimiter, and whether each item after the
/// first starts on a new line (in plain mode).
#[derive(Debug, Clone, Copy)]
pub struct ListFormat {
    pub delim: ListDelim,
    pub multi_line: bool,
}

// ---------------------------------------------------- output properties

/// How many line breaks there are among the writer calls.
pub open spec fn newlines(s: Seq<OpView>) -> nat {
    s.filter(|o: OpView| o is Newline).len()
}

/// No line break among the writer calls.
pub open spec fn no_newline(s: Seq<OpView>) -> bool {
    newlines(s) == 0
}

/// How many times the indentation goes up.
pub open spec fn indents(s: Seq<OpView>) -> nat {
    s.filter(|o: OpView| o is IncreaseIndent).len()
}

/// How many times the indentation goes down.
pub open spec fn dedents(s: Seq<OpView>) -> nat {
    s.filter(|o: OpView| o is DecreaseIndent).len()
}

/// The indentation goes down as often as it goes up.
pub open spec fn indent_balanced(s: Seq<OpView>) -> bool {
    indents(s) == dedents(s)
}

/// What all output of the generator keeps: minified, it breaks no line;
/// and it leaves the indentation as it found it.
#[verifier::opaque]
pub open spec fn keeps_laws(c: CodegenConfig, s: Seq<OpView>) -> bool {
    &&& c.minify ==> no_newline(s)
    &&& indent_balanced(s)
}

/// Output that keeps the laws, followed by more such output, keeps them.
pub broadcast proof fn lemma_laws_concat(c: CodegenConfig, a: Seq<OpView>, b: Seq<OpView>)
    requires
        keeps_laws(c, a),
        keeps_laws(c, b),
    ensures
        #[trigger] keeps_laws(c, a + b),
{
    reveal(keeps_laws);
    Seq::filter_distributes_over_add(a, b, |o: OpView| o is Newline);
    Seq::filter_distributes_over_add(a, b, |o: OpView| o is IncreaseIndent);
    Seq::filter_distributes_over_add(a, b, |o: OpView| o is DecreaseIndent);
}

/// The counts of one writer call.
pub proof fn lemma_counts_single(o: OpView)
    ensures
        newlines(seq![o]) == (if o is Newline { 1nat } else { 0nat }),
        indents(seq![o]) == (if o is IncreaseIndent { 1nat } else { 0nat }),
        dedents(seq![o]) == (if o is DecreaseIndent { 1nat } else { 0nat }),
{
    reveal_with_fuel(Seq::filter, 2);
    assert(seq![o].drop_last() =~= Seq::<OpView>::empty());
}

/// A writer call that is neither a line break nor an indentation change
/// keeps the laws.
pub proof fn lemma_laws_plain_op(c: CodegenConfig, o: OpView)
    requires
        !(o is Newline),
        !(o is IncreaseIndent),
        !(o is DecreaseIndent),
    ensures
        keeps_laws(c, seq![o]),
{
    reveal(keeps_laws);
    lemma_counts_single(o);
}

/// In plain mode a line break keeps the laws.
pub proof fn lemma_laws_newline(c: CodegenConfig)
    requires
        !c.minify,
    ensures
        keeps_laws(c, seq![OpView::Newline]),
{
    reveal(keeps_laws);
    lemma_counts_single(OpView::Newline);
}

/// No output at all keeps the laws.
pub broadcast proof fn lemma_laws_empty(c: CodegenConfig)
    ensures
        #[trigger] keeps_laws(c, Seq::<OpView>::empty()),
{
    reveal(keeps_laws);
    reveal_with_fuel(Seq::filter, 1);
}

/// Output that keeps the laws, between a raise and a lowering of the
/// indentation, keeps them.
pub proof fn lemma_laws_indented(c: CodegenConfig, s: Seq<OpView>)
    requires
        keeps_laws(c, s),
    ensures
        keeps_laws(c, seq![OpView::IncreaseIndent] + s + seq![OpView::DecreaseIndent]),
{
    reveal(keeps_laws);
    lemma_counts_single(OpView::IncreaseIndent);
    lemma_counts_single(OpView::DecreaseIndent);
    let inc = seq![OpView::IncreaseIndent];
    let dec = seq![OpView::DecreaseIndent];
    Seq::filter_distributes_over_add(inc, s, |o: OpView| o is Newline);
    Seq::filter_distributes_over_add(inc, s, |o: OpView| o is IncreaseIndent);
    Seq::filter_distributes_over_add(inc, s, |o: OpView| o is DecreaseIndent);
    Seq::filter_distributes_over_add(inc + s, dec, |o: OpView| o is Newline);
    Seq::filter_distributes_over_add(inc + s, dec, |o: OpView| o is IncreaseIndent);
    Seq::filter_distributes_over_add(inc + s, dec, |o: OpView| o is DecreaseIndent);
}

// ------------------------------------------------------------ primitives

/// Punctuation, with the source position it came from, if any.
pub open spec fn punct_at(sp: Option<Span>, s: Seq<char>) -> Seq<OpView> {
    seq![OpView::Punct(sp, s)]
}

/// Punctuation with no source position.
pub open spec fn punct(s: Seq<char>) -> Seq<OpView> {
    punct_at(None, s)
}

/// Raw text, with the source position it came from, if any.
pub open spec fn raw_at(sp: Option<Span>, s: Seq<char>) -> Seq<OpView> {
    seq![OpView::Raw(sp, s)]
}

/// Raw text with no source position.
pub open spec fn raw(s: Seq<char>) -> Seq<OpView> {
    raw_at(None, s)
}

/// A keyword is written as raw text.
pub open spec fn keyword(s: Seq<char>) -> Seq<OpView> {
    raw(s)
}

/// One raw character, with its source position, if any.
pub open spec fn raw_char_at(sp: Option<Span>, c: char) -> Seq<OpView> {
    seq![OpView::RawChar(sp, c)]
}

/// One raw character with no source position.
pub open spec fn raw_char(c: char) -> Seq<OpView> {
    raw_char_at(None, c)
}

pub open spec fn space() -> Seq<OpView> {
    seq![OpView::Space]
}

/// A space that only plain mode writes.
pub open spec fn fspace(c: CodegenConfig) -> Seq<OpView> {
    if c.minify { seq![] } else { seq![OpView::Space] }
}

/// A line break that only plain mode writes.
pub open spec fn fnewline(c: CodegenConfig) -> Seq<OpView> {
    if c.minify { seq![] } else { seq![OpView::Newline] }
}

pub open spec fn empty() -> Seq<OpView> {
    Seq::<OpView>::empty()
}

pub open spec fn fmt(delim: ListDelim, multi_line: bool) -> ListFormat {
    ListFormat { delim, multi_line }
}

/// What `write_delim` writes for a delimiter.
pub open spec fn delim_ops(c: CodegenConfig, d: ListDelim) -> Seq<OpView> {
    match d {
        ListDelim::NotDelimited => empty(),
        ListDelim::Comma => punct(","@) + fspace(c),
        ListDelim::Space => space(),
        ListDelim::Semi => punct(";"@),
        ListDelim::Dot => punct("."@),
    }
}

/// What is written between two items of a list.
pub open spec fn list_sep(c: CodegenConfig, f: ListFormat) -> Seq<OpView> {
    delim_ops(c, f.delim) + (if f.multi_line { fnewline(c) } else { empty() })
}

/// The separator before the last item of a list of `len` items.
pub open spec fn sep_before_last(len: int, sep: Seq<OpView>) -> Seq<OpView> {
    if len > 1 { sep } else { empty() }
}

pub open spec fn delimiter_value_str(v: DelimiterValue) -> Seq<char> {
    match v {
        DelimiterValue::Comma => ","@,
        DelimiterValue::Solidus => "/"@,
        DelimiterValue::Semicolon => ";"@,
    }
}

pub open spec fn bin_op_str(v: BinOp) -> Seq<char> {
    match v {
        BinOp::Add => "+"@,
        BinOp::Sub => "-"@,
        BinOp::Mul => "*"@,
        BinOp::Div => "/"@,
    }
}

pub open spec fn combinator_value_str(v: CombinatorValue) -> Seq<char> {
    match v {
        CombinatorValue::Descendant => " "@,
        CombinatorValue::NextSibling => "+"@,
        CombinatorValue::Child => ">"@,
        CombinatorValue::LaterSibling => "~"@,
    }
}

pub open spec fn attr_matcher_str(v: AttrSelectorMatcher) -> Seq<char> {
    match v {
        AttrSelectorMatcher::Equals => "="@,
        AttrSelectorMatcher::Tilde => "~="@,
        AttrSelectorMatcher::Bar => "|="@,
        AttrSelectorMatcher::Caret => "^="@,
        AttrSelectorMatcher::Dollar => "$="@,
        AttrSelectorMatcher::Asterisk => "*="@,
    }
}

pub open spec fn comparison_str(v: MediaFeatureRangeComparison) -> Seq<char> {
    match v {
        MediaFeatureRangeComparison::Lt => "<"@,
        MediaFeatureRangeComparison::Le => "<="@,
        MediaFeatureRangeComparison::Gt => ">"@,
        MediaFeatureRangeComparison::Ge => ">="@,
        MediaFeatureRangeComparison::Eq => "="@,
    }
}

pub open spec fn block_opening(n: SimpleBlockName) -> char {
    match n {
        SimpleBlockName::SquareBracket => '[',
        SimpleBlockName::Paren => '(',
        SimpleBlockName::CurlyBrace => '{',
    }
}

pub open spec fn block_closing(n: SimpleBlockName) -> char {
    match n {
        SimpleBlockName::SquareBracket => ']',
        SimpleBlockName::Paren => ')',
        SimpleBlockName::CurlyBrace => '}',
    }
}

// ----------------------------------------------------------- leaf nodes

pub open spec fn ident_ops(n: Ident) -> Seq<OpView> {
    raw_at(Some(n.span), n.raw@)
}

pub open spec fn custom_ident_ops(n: CustomIdent) -> Seq<OpView> {
    raw_at(Some(n.span), n.raw@)
}

pub open spec fn dashed_ident_ops(n: DashedIdent) -> Seq<OpView> {
    raw_at(Some(n.span), n.raw@)
}

pub open spec fn opt_ident_ops(n: Option<Ident>) -> Seq<OpView> {
    match n {
        Some(i) => ident_ops(i),
        None => empty(),
    }
}

/// Minified, a string is written by its value; plain, by its source text.
pub open spec fn str_ops(c: CodegenConfig, n: Str) -> Seq<OpView> {
    if c.minify { seq![OpView::Str(Some(n.span), n.value@)] } else { raw_at(Some(n.span), n.raw@) }
}

/// Minified, a number is written by the shortened text of its value;
/// plain, by its source text.
pub open spec fn number_ops(c: CodegenConfig, n: Number) -> Seq<OpView> {
    if c.minify {
        if n.value@ == "-0"@ {
            raw_at(Some(n.span), "-0"@)
        } else {
            raw_at(Some(n.span), minify_number_spec(n.value@))
        }
    } else {
        raw_at(Some(n.span), n.raw@)
    }
}

pub open spec fn percent_ops(c: CodegenConfig, n: Percent) -> Seq<OpView> {
    number_ops(c, n.value) + punct("%"@)
}

pub open spec fn dimension_ops(c: CodegenConfig, n: Dimension) -> Seq<OpView> {
    number_ops(c, n.value) + ident_ops(n.unit)
}

pub open spec fn ratio_ops(c: CodegenConfig, n: Ratio) -> Seq<OpView> {
    number_ops(c, n.left) + match n.right {
        Some(r) => punct("/"@) + number_ops(c, r),
        None => empty(),
    }
}

pub open spec fn hex_color_ops(c: CodegenConfig, n: HexColor) -> Seq<OpView> {
    punct("#"@) + if c.minify {
        raw_at(Some(n.span), minify_hex_color_spec(n.value@))
    } else {
        raw_at(Some(n.span), n.raw@)
    }
}

pub open spec fn color_ops(c: CodegenConfig, n: Color) -> Seq<OpView> {
    match n {
        Color::HexColor(h) => hex_color_ops(c, h),
    }
}

pub open spec fn delimiter_ops(n: Delimiter) -> Seq<OpView> {
    punct(delimiter_value_str(n.value))
}

/// One token: `outer` is the position of the whole token list, `t.span`
/// that of the token; each call carries the one that is handed on for it.
pub open spec fn token_ops(outer: Span, t: TokenAndSpan) -> Seq<OpView> {
    let o = Some(outer);
    let sp = Some(t.span);
    match t.token {
        Token::AtKeyword { raw: r } => punct_at(sp, "@"@) + raw_at(o, r@),
        Token::Delim { value } => raw_char_at(o, value),
        Token::LParen => punct_at(sp, "("@),
        Token::RParen => punct_at(sp, ")"@),
        Token::LBracket => punct_at(sp, "["@),
        Token::RBracket => punct_at(sp, "]"@),
        Token::Num { raw: r } => raw_at(sp, r@),
        Token::Percent { raw: r } => raw_at(sp, r@) + punct("%"@),
        Token::Dimension { raw_value, raw_unit } => raw_at(sp, raw_value@) + raw_at(sp, raw_unit@),
        Token::Ident { raw: r } => raw_at(o, r@),
        Token::Function { raw: r } => raw_at(o, r@) + punct("("@),
        Token::BadStr { raw: r } => raw_at(sp, r@),
        Token::Str { raw: r } => raw_at(sp, r@),
        Token::Url { raw_name, raw_value, before, after } =>
            raw(raw_name@) + punct("("@) + raw(before@) + raw(raw_value@) + raw(after@) + punct(")"@),
        Token::BadUrl { raw_name, raw_value } =>
            raw_at(sp, raw_name@) + punct("("@) + raw(raw_value@) + punct(")"@),
        Token::Comma => punct_at(sp, ","@),
        Token::Semi => punct_at(sp, ";"@),
        Token::LBrace => punct_at(sp, "{"@),
        Token::RBrace => punct_at(sp, "}"@),
        Token::Colon => punct_at(sp, ":"@),
        Token::Hash { raw: r } => punct("#"@) + raw_at(sp, r@),
        Token::WhiteSpace { value } => raw(value@),
        Token::CDC => punct_at(sp, "-->"@),
        Token::CDO => punct_at(sp, "<!--"@),
    }
}

pub open spec fn token_list_ops(outer: Span, ts: Seq<TokenAndSpan>) -> Seq<OpView>
    decreases ts.len(),
{
    if ts.len() == 0 {
        empty()
    } else {
        token_list_ops(outer, ts.drop_last()) + token_ops(outer, ts.last())
    }
}

pub open spec fn tokens_ops(n: Tokens) -> Seq<OpView> {
    token_list_ops(n.span, n.tokens@)
}

proof fn lemma_token_list_concat(outer: Span, a: Seq<TokenAndSpan>, b: Seq<TokenAndSpan>)
    ensures
        token_list_ops(outer, a + b) == token_list_ops(outer, a) + token_list_ops(outer, b),
    decreases b.len(),
{
    if b.len() == 0 {
        assert(a + b =~= a);
        assert(token_list_ops(outer, a) + empty() =~= token_list_ops(outer, a));
    } else {
        lemma_token_list_concat(outer, a, b.drop_last());
        assert((a + b).drop_last() =~= a + b.drop_last());
        assert((a + b).last() == b.last());
        assert(token_list_ops(outer, a + b) =~= token_list_ops(outer, a) + token_list_ops(outer, b));
    }
}

/// Tokens are printed one by one with nothing between them: a token list
/// with no tokens prints nothing, and two token lists with the same
/// position, printed as one list, print the first one's calls followed by
/// the second one's.
pub proof fn law_tokens_concat(a: Tokens, b: Tokens, ab: Tokens)
    requires
        a.span == b.span,
        ab.span == a.span,
        ab.tokens@ == a.tokens@ + b.tokens@,
    ensures
        tokens_ops(ab) == tokens_ops(a) + tokens_ops(b),
        a.tokens@.len() == 0 ==> tokens_ops(a) == Seq::<OpView>::empty(),
{
    lemma_token_list_concat(a.span, a.tokens@, b.tokens@);
}

pub open spec fn url_value_raw_ops(c: CodegenConfig, n: UrlValueRaw) -> Seq<OpView> {
    let sp = Some(n.span);
    (if !c.minify { raw_at(sp, n.before@) } else { empty() })
    + (if c.minify { raw_at(sp, n.value@) } else { raw_at(sp, n.raw@) })
    + (if !c.minify { raw_at(sp, n.after@) } else { empty() })
}

pub open spec fn url_value_ops(c: CodegenConfig, n: UrlValue) -> Seq<OpView> {
    match n {
        UrlValue::Raw(r) => url_value_raw_ops(c, r),
        UrlValue::Str(s) => str_ops(c, s),
    }
}

pub open spec fn important_flag_ops(c: CodegenConfig, n: ImportantFlag) -> Seq<OpView> {
    punct("!"@) + if c.minify { raw("important"@) } else { ident_ops(n.value) }
}

pub open spec fn declaration_name_ops(n: DeclarationName) -> Seq<OpView> {
    match n {
        DeclarationName::Ident(i) => ident_ops(i),
        DeclarationName::DashedIdent(i) => dashed_ident_ops(i),
    }
}

pub open spec fn at_rule_name_ops(n: AtRuleName) -> Seq<OpView> {
    match n {
        AtRuleName::Ident(i) => ident_ops(i),
        AtRuleName::DashedIdent(i) => dashed_ident_ops(i),
    }
}

pub open spec fn color_profile_name_ops(n: ColorProfileName) -> Seq<OpView> {
    match n {
        ColorProfileName::Ident(i) => ident_ops(i),
        ColorProfileName::DashedIdent(i) => dashed_ident_ops(i),
    }
}

pub open spec fn keyframes_name_ops(c: CodegenConfig, n: KeyframesName) -> Seq<OpView> {
    match n {
        KeyframesName::CustomIdent(i) => custom_ident_ops(i),
        KeyframesName::Str(s) => str_ops(c, s),
    }
}

pub open spec fn keyframe_selector_ops(c: CodegenConfig, n: KeyframeSelector) -> Seq<OpView> {
    match n {
        KeyframeSelector::Ident(i) => ident_ops(i),
        KeyframeSelector::Percent(p) => percent_ops(c, p),
    }
}

pub open spec fn keyframe_selectors_ops(c: CodegenConfig, v: Seq<KeyframeSelector>, sep: Seq<OpView>) -> Seq<OpView>
    decreases v.len(),
{
    if v.len() == 0 {
        empty()
    } else {
        keyframe_selectors_ops(c, v.drop_last(), sep) + sep_before_last(v.len() as int, sep)
            + keyframe_selector_ops(c, v.last())
    }
}

pub open spec fn idents_ops(v: Seq<Ident>, sep: Seq<OpView>) -> Seq<OpView>
    decreases v.len(),
{
    if v.len() == 0 {
        empty()
    } else {
        idents_ops(v.drop_last(), sep) + sep_before_last(v.len() as int, sep) + ident_ops(v.last())
    }
}

pub open spec fn layer_name_ops(c: CodegenConfig, n: LayerName) -> Seq<OpView> {
    idents_ops(n.name@, list_sep(c, fmt(ListDelim::Dot, false)))
}

pub open spec fn layer_names_ops(c: CodegenConfig, v: Seq<LayerName>, sep: Seq<OpView>) -> Seq<OpView>
    decreases v.len(),
{
    if v.len() == 0 {
        empty()
    } else {
        layer_names_ops(c, v.drop_last(), sep) + sep_before_last(v.len() as int, sep)
            + layer_name_ops(c, v.last())
    }
}

pub open spec fn layer_name_list_ops(c: CodegenConfig, n: LayerNameList) -> Seq<OpView> {
    layer_names_ops(c, n.name_list@, list_sep(c, fmt(ListDelim::Comma, false)))
}

pub open spec fn layer_prelude_ops(c: CodegenConfig, n: LayerPrelude) -> Seq<OpView> {
    match n {
        LayerPrelude::Name(l) => layer_name_ops(c, l),
        LayerPrelude::NameList(l) => layer_name_list_ops(c, l),
    }
}

pub open spec fn media_feature_name_ops(n: MediaFeatureName) -> Seq<OpView> {
    match n {
        MediaFeatureName::Ident(i) => ident_ops(i),
    }
}

pub open spec fn media_feature_value_ops(c: CodegenConfig, n: MediaFeatureValue) -> Seq<OpView> {
    match n {
        MediaFeatureValue::Number(v) => number_ops(c, v),
        MediaFeatureValue::Dimension(v) => dimension_ops(c, v),
        MediaFeatureValue::Ident(v) => ident_ops(v),
        MediaFeatureValue::Ratio(v) => ratio_ops(c, v),
    }
}

pub open spec fn media_feature_plain_ops(c: CodegenConfig, n: MediaFeaturePlain) -> Seq<OpView> {
    media_feature_name_ops(n.name) + punct(":"@) + fspace(c) + media_feature_value_ops(c, n.value)
}

pub open spec fn media_feature_boolean_ops(n: MediaFeatureBoolean) -> Seq<OpView> {
    media_feature_name_ops(n.name)
}

pub open spec fn media_feature_range_ops(c: CodegenConfig, n: MediaFeatureRange) -> Seq<OpView> {
    media_feature_value_ops(c, n.left) + fspace(c) + punct(comparison_str(n.comparison)) + fspace(c)
        + media_feature_value_ops(c, n.right)
}

pub open spec fn media_feature_range_interval_ops(c: CodegenConfig, n: MediaFeatureRangeInterval) -> Seq<OpView> {
    media_feature_value_ops(c, n.left) + fspace(c) + punct(comparison_str(n.left_comparison))
        + fspace(c) + media_feature_name_ops(n.name) + fspace(c)
        + punct(comparison_str(n.right_comparison)) + fspace(c) + media_feature_value_ops(c, n.right)
}

pub open spec fn media_feature_ops(c: CodegenConfig, n: MediaFeature) -> Seq<OpView> {
    punct("("@) + match n {
        MediaFeature::Plain(f) => media_feature_plain_ops(c, f),
        MediaFeature::Boolean(f) => media_feature_boolean_ops(f),
        MediaFeature::Range(f) => media_feature_range_ops(c, f),
        MediaFeature::RangeInterval(f) => media_feature_range_interval_ops(c, f),
    } + punct(")"@)
}

pub open spec fn page_selector_ops(n: PageSelector) -> Seq<OpView> {
    opt_ident_ops(n.ident) + match n.pseudo {
        Some(p) => punct(":"@) + ident_ops(p),
        None => empty(),
    }
}

pub open spec fn page_selectors_ops(v: Seq<PageSelector>, sep: Seq<OpView>) -> Seq<OpView>
    decreases v.len(),
{
    if v.len() == 0 {
        empty()
    } else {
        page_selectors_ops(v.drop_last(), sep) + sep_before_last(v.len() as int, sep)
            + page_selector_ops(v.last())
    }
}

pub open spec fn combinator_ops(n: Combinator) -> Seq<OpView> {
    punct(combinator_value_str(n.value))
}

pub open spec fn nesting_selector_ops(n: NestingSelector) -> Seq<OpView> {
    punct("&"@)
}

pub open spec fn type_selector_ops(n: TypeSelector) -> Seq<OpView> {
    (match n.prefix {
        Some(p) => ident_ops(p) + punct("|"@),
        None => empty(),
    }) + ident_ops(n.name)
}

pub open spec fn id_selector_ops(n: IdSelector) -> Seq<OpView> {
    punct("#"@) + ident_ops(n.text)
}

pub open spec fn class_selector_ops(n: ClassSelector) -> Seq<OpView> {
    punct("."@) + ident_ops(n.text)
}

pub open spec fn at_selector_ops(n: AtSelector) -> Seq<OpView> {
    punct("@"@) + ident_ops(n.text)
}

pub open spec fn attr_selector_value_ops(c: CodegenConfig, n: AttrSelectorValue) -> Seq<OpView> {
    match n {
        AttrSelectorValue::Str(s) => str_ops(c, s),
        AttrSelectorValue::Ident(i) => ident_ops(i),
    }
}

pub open spec fn attr_selector_ops(c: CodegenConfig, n: AttrSelector) -> Seq<OpView> {
    punct("["@)
    + match n.prefix {
        Some(p) => ident_ops(p) + punct("|"@),
        None => empty(),
    }
    + ident_ops(n.name)
    + match n.matcher {
        Some(m) => punct(attr_matcher_str(m)),
        None => empty(),
    }
    + match n.value {
        Some(v) => attr_selector_value_ops(c, v),
        None => empty(),
    }
    + match n.modifier {
        Some(m) => (match n.value {
            Some(AttrSelectorValue::Str(_)) => fspace(c),
            Some(AttrSelectorValue::Ident(_)) => space(),
            None => empty(),
        }) + raw_char(m),
        None => empty(),
    }
    + punct("]"@)
}

pub open spec fn an_plus_b_ops(n: AnPlusB) -> Seq<OpView> {
    (match n.a_raw {
        Some(a) => raw_at(Some(n.span), a@) + punct("n"@),
        None => empty(),
    }) + match n.b_raw {
        Some(b) => raw_at(Some(n.span), b@),
        None => empty(),
    }
}

pub open spec fn nth_value_ops(n: NthValue) -> Seq<OpView> {
    match n {
        NthValue::AnPlusB(a) => an_plus_b_ops(a),
        NthValue::Ident(i) => ident_ops(i),
    }
}

pub open spec fn pseudo_element_selector_ops(n: PseudoElementSelector) -> Seq<OpView> {
    punct(":"@) + punct(":"@) + ident_ops(n.name) + match n.children {
        Some(t) => punct("("@) + tokens_ops(t) + punct(")"@),
        None => empty(),
    }
}

// ------------------------------------------------------ component values

/// Whether `write_delim` runs between two neighbouring values of a
/// declaration or function.
pub open spec fn value_need_delim(c: CodegenConfig, node: Value, next: Value) -> bool {
    if node is SimpleBlock || node is Function || node is Delimiter || node is Str || node is Url
        || node is Percent {
        match next {
            Value::Delimiter(d) => if d.value == DelimiterValue::Comma { false } else { !c.minify },
            _ => !c.minify,
        }
    } else {
        match next {
            Value::SimpleBlock(_) => !c.minify,
            Value::Color(Color::HexColor(_)) => !c.minify,
            Value::Delimiter(_) => false,
            _ => true,
        }
    }
}

pub open spec fn value_ops(c: CodegenConfig, x: Ctx, n: Value) -> Seq<OpView>
    decreases n,
{
    match n {
        Value::Function(v) => function_ops(c, x, v),
        Value::SimpleBlock(v) => simple_block_ops(c, x, v),
        Value::Dimension(v) => dimension_ops(c, v),
        Value::Number(v) => number_ops(c, v),
        Value::Percent(v) => percent_ops(c, v),
        Value::Ratio(v) => ratio_ops(c, v),
        Value::Color(v) => color_ops(c, v),
        Value::Ident(v) => ident_ops(v),
        Value::DashedIdent(v) => dashed_ident_ops(v),
        Value::Str(v) => str_ops(c, v),
        Value::Bin(v) => bin_value_ops(c, x, v),
        Value::Tokens(v) => tokens_ops(v),
        Value::Url(v) => url_ops(c, x, v),
        Value::Delimiter(v) => delimiter_ops(v),
    }
}

/// A list of values with a fixed separator between neighbours.
pub open spec fn values_ops(c: CodegenConfig, x: Ctx, v: Seq<Value>, sep: Seq<OpView>) -> Seq<OpView>
    decreases v,
{
    if v.len() == 0 {
        empty()
    } else {
        values_ops(c, x, v.drop_last(), sep) + sep_before_last(v.len() as int, sep)
            + value_ops(c, x, v.last())
    }
}

/// A list of values where the delimiter between two neighbours depends on
/// both of them (`value_need_delim`).
pub open spec fn list_values_ops(c: CodegenConfig, x: Ctx, v: Seq<Value>, d: ListDelim) -> Seq<OpView>
    decreases v,
{
    if v.len() == 0 {
        empty()
    } else {
        list_values_ops(c, x, v.drop_last(), d)
            + (if v.len() > 1 && value_need_delim(c, v[v.len() - 2], v.last()) {
            delim_ops(c, d)
        } else {
            empty()
        }) + value_ops(c, x, v.last())
    }
}

pub open spec fn function_ops(c: CodegenConfig, x: Ctx, n: Function) -> Seq<OpView>
    decreases n,
{
    ident_ops(n.name) + punct("("@) + list_values_ops(c, x, n.value@, ListDelim::Space) + punct(")"@)
}

pub open spec fn simple_block_ops(c: CodegenConfig, x: Ctx, n: SimpleBlock) -> Seq<OpView>
    decreases n,
{
    raw_char(block_opening(n.name)) + values_ops(
        c,
        x,
        n.value@,
        list_sep(
            c,
            fmt(
                if block_closing(n.name) == ']' { ListDelim::Space } else { ListDelim::NotDelimited },
                false,
            ),
        ),
    ) + raw_char(block_closing(n.name))
}

pub open spec fn bin_value_ops(c: CodegenConfig, x: Ctx, n: BinValue) -> Seq<OpView>
    decreases n,
{
    let need_space = n.op == BinOp::Add || n.op == BinOp::Sub;
    let sp = if need_space { space() } else { fspace(c) };
    value_ops(c, x, *n.left) + sp + punct(bin_op_str(n.op)) + sp + value_ops(c, x, *n.right)
}

pub open spec fn url_modifier_ops(c: CodegenConfig, x: Ctx, n: UrlModifier) -> Seq<OpView>
    decreases n,
{
    match n {
        UrlModifier::Ident(i) => ident_ops(i),
        UrlModifier::Function(f) => function_ops(c, x, f),
    }
}

pub open spec fn url_modifiers_ops(c: CodegenConfig, x: Ctx, v: Seq<UrlModifier>, sep: Seq<OpView>) -> Seq<OpView>
    decreases v,
{
    if v.len() == 0 {
        empty()
    } else {
        url_modifiers_ops(c, x, v.drop_last(), sep) + sep_before_last(v.len() as int, sep)
            + url_modifier_ops(c, x, v.last())
    }
}

pub open spec fn url_ops(c: CodegenConfig, x: Ctx, n: Url) -> Seq<OpView>
    decreases n,
{
    ident_ops(n.name) + punct("("@) + match n.value {
        Some(v) => url_value_ops(c, v),
        None => empty(),
    } + match n.modifiers {
        Some(m) => if m@.len() != 0 {
            fspace(c) + url_modifiers_ops(c, x, m@, list_sep(c, fmt(ListDelim::Space, false)))
        } else {
            empty()
        },
        None => empty(),
    } + punct(")"@)
}

// ---------------------------------------------------------- declarations

/// Whether the first value is an empty token list.
pub open spec fn first_is_empty_tokens(v: Seq<Value>) -> bool {
    v.len() > 0 && (v[0] matches Value::Tokens(t) && t.tokens@.len() == 0)
}

pub open spec fn declaration_ops(c: CodegenConfig, x: Ctx, n: Declaration) -> Seq<OpView>
    decreases n,
{
    let custom = n.name is DashedIdent;
    declaration_name_ops(n.name) + punct(":"@) + (if custom && first_is_empty_tokens(n.value@) {
        space()
    } else {
        fspace(c)
    }) + (if custom {
        values_ops(c, x, n.value@, list_sep(c, fmt(ListDelim::NotDelimited, false)))
    } else {
        list_values_ops(c, x, n.value@, ListDelim::Space)
    }) + match n.important {
        Some(f) => (if !custom { fspace(c) } else { empty() }) + important_flag_ops(c, f),
        None => empty(),
    } + if x.semi_after_property { punct(";"@) } else { empty() }
}

pub open spec fn declaration_block_item_ops(c: CodegenConfig, x: Ctx, n: DeclarationBlockItem) -> Seq<OpView>
    decreases n,
{
    match n {
        DeclarationBlockItem::Declaration(d) => declaration_ops(c, x, d),
        DeclarationBlockItem::AtRule(a) => at_rule_ops(c, x, *a),
        DeclarationBlockItem::Invalid(t) => tokens_ops(t),
    }
}

pub open spec fn block_items_ops(c: CodegenConfig, x: Ctx, v: Seq<DeclarationBlockItem>, sep: Seq<OpView>) -> Seq<OpView>
    decreases v,
{
    if v.len() == 0 {
        empty()
    } else {
        block_items_ops(c, x, v.drop_last(), sep) + sep_before_last(v.len() as int, sep)
            + declaration_block_item_ops(c, x, v.last())
    }
}

pub open spec fn block_ops(c: CodegenConfig, x: Ctx, n: Block) -> Seq<OpView>
    decreases n,
{
    punct("{"@) + block_items_ops(c, x, n.value@, list_sep(c, fmt(ListDelim::Semi, !c.minify)))
        + punct("}"@)
}

// ------------------------------------------------------------- selectors

pub open spec fn selector_list_ops(c: CodegenConfig, x: Ctx, n: SelectorList) -> Seq<OpView>
    decreases n,
{
    complex_selectors_ops(c, x, n.children@, list_sep(c, fmt(ListDelim::Comma, false)))
}

pub open spec fn complex_selectors_ops(c: CodegenConfig, x: Ctx, v: Seq<ComplexSelector>, sep: Seq<OpView>) -> Seq<OpView>
    decreases v,
{
    if v.len() == 0 {
        empty()
    } else {
        complex_selectors_ops(c, x, v.drop_last(), sep) + sep_before_last(v.len() as int, sep)
            + complex_selector_ops(c, x, v.last())
    }
}

/// The children of a complex selector: a space goes between two
/// neighbouring compound selectors, nothing next to a combinator.
pub open spec fn complex_children_ops(c: CodegenConfig, x: Ctx, v: Seq<ComplexSelectorChildren>) -> Seq<OpView>
    decreases v,
{
    if v.len() == 0 {
        empty()
    } else {
        complex_children_ops(c, x, v.drop_last()) + (if v.len() > 1
            && v[v.len() - 2] is CompoundSelector && v.last() is CompoundSelector {
            space()
        } else {
            empty()
        }) + complex_selector_children_ops(c, x, v.last())
    }
}

pub open spec fn complex_selector_ops(c: CodegenConfig, x: Ctx, n: ComplexSelector) -> Seq<OpView>
    decreases n,
{
    complex_children_ops(c, x, n.children@)
}

pub open spec fn complex_selector_children_ops(c: CodegenConfig, x: Ctx, n: ComplexSelectorChildren) -> Seq<OpView>
    decreases n,
{
    match n {
        ComplexSelectorChildren::CompoundSelector(s) => compound_selector_ops(c, x, s),
        ComplexSelectorChildren::Combinator(s) => combinator_ops(s),
    }
}

pub open spec fn compound_selector_ops(c: CodegenConfig, x: Ctx, n: CompoundSelector) -> Seq<OpView>
    decreases n,
{
    (match n.nesting_selector {
        Some(s) => nesting_selector_ops(s),
        None => empty(),
    }) + match n.type_selector {
        Some(s) => type_selector_ops(s),
        None => empty(),
    } + subclass_selectors_ops(c, x, n.subclass_selectors@, list_sep(c, fmt(ListDelim::NotDelimited, false)))
}

pub open spec fn subclass_selectors_ops(c: CodegenConfig, x: Ctx, v: Seq<SubclassSelector>, sep: Seq<OpView>) -> Seq<OpView>
    decreases v,
{
    if v.len() == 0 {
        empty()
    } else {
        subclass_selectors_ops(c, x, v.drop_last(), sep) + sep_before_last(v.len() as int, sep)
            + subclass_selector_ops(c, x, v.last())
    }
}

pub open spec fn subclass_selector_ops(c: CodegenConfig, x: Ctx, n: SubclassSelector) -> Seq<OpView>
    decreases n,
{
    match n {
        SubclassSelector::Id(s) => id_selector_ops(s),
        SubclassSelector::Class(s) => class_selector_ops(s),
        SubclassSelector::Attr(s) => attr_selector_ops(c, s),
        SubclassSelector::PseudoClass(s) => pseudo_class_selector_ops(c, x, s),
        SubclassSelector::PseudoElement(s) => pseudo_element_selector_ops(s),
        SubclassSelector::At(s) => at_selector_ops(s),
    }
}

pub open spec fn pseudo_class_selector_ops(c: CodegenConfig, x: Ctx, n: PseudoClassSelector) -> Seq<OpView>
    decreases n,
{
    punct(":"@) + ident_ops(n.name) + match n.children {
        Some(ch) => punct("("@) + pseudo_selector_children_ops(c, x, ch) + punct(")"@),
        None => empty(),
    }
}

pub open spec fn pseudo_selector_children_ops(c: CodegenConfig, x: Ctx, n: PseudoSelectorChildren) -> Seq<OpView>
    decreases n,
{
    match n {
        PseudoSelectorChildren::Nth(v) => nth_ops(c, x, v),
        PseudoSelectorChildren::Tokens(v) => tokens_ops(v),
    }
}

pub open spec fn nth_ops(c: CodegenConfig, x: Ctx, n: Nth) -> Seq<OpView>
    decreases n,
{
    nth_value_ops(n.nth) + match n.selector_list {
        Some(l) => selector_list_ops(c, x, l),
        None => empty(),
    }
}

// ----------------------------------------------------------------- media

pub open spec fn media_query_list_ops(c: CodegenConfig, n: MediaQueryList) -> Seq<OpView> {
    media_queries_ops(c, n.queries@, list_sep(c, fmt(ListDelim::Comma, false)))
}

pub open spec fn media_queries_ops(c: CodegenConfig, v: Seq<MediaQuery>, sep: Seq<OpView>) -> Seq<OpView>
    decreases v.len(),
{
    if v.len() == 0 {
        empty()
    } else {
        media_queries_ops(c, v.drop_last(), sep) + sep_before_last(v.len() as int, sep)
            + media_query_ops(c, v.last())
    }
}

pub open spec fn media_query_ops(c: CodegenConfig, n: MediaQuery) -> Seq<OpView> {
    (match n.modifier {
        Some(m) => ident_ops(m) + space(),
        None => empty(),
    }) + match n.media_type {
        Some(t) => ident_ops(t) + if n.condition is Some {
            space() + keyword("and"@) + space()
        } else {
            empty()
        },
        None => empty(),
    } + match n.condition {
        Some(cond) => media_condition_type_ops(c, cond),
        None => empty(),
    }
}

pub open spec fn media_condition_type_ops(c: CodegenConfig, n: MediaConditionType) -> Seq<OpView> {
    match n {
        MediaConditionType::All(m) => media_condition_ops(c, m),
        MediaConditionType::WithoutOr(m) => media_condition_without_or_ops(c, m),
    }
}

pub open spec fn media_condition_ops(c: CodegenConfig, n: MediaCondition) -> Seq<OpView>
    decreases n,
{
    media_all_types_ops(c, n.conditions@)
}

pub open spec fn media_all_types_ops(c: CodegenConfig, v: Seq<MediaConditionAllType>) -> Seq<OpView>
    decreases v,
{
    if v.len() == 0 {
        empty()
    } else {
        media_all_types_ops(c, v.drop_last()) + media_condition_all_type_ops(c, v.last())
    }
}

pub open spec fn media_condition_all_type_ops(c: CodegenConfig, n: MediaConditionAllType) -> Seq<OpView>
    decreases n,
{
    match n {
        MediaConditionAllType::Not(m) => media_not_ops(c, m),
        MediaConditionAllType::And(m) => media_and_ops(c, m),
        MediaConditionAllType::Or(m) => media_or_ops(c, m),
        MediaConditionAllType::MediaInParens(m) => media_in_parens_ops(c, m),
    }
}

pub open spec fn media_condition_without_or_ops(c: CodegenConfig, n: MediaConditionWithoutOr) -> Seq<OpView>
    decreases n,
{
    media_without_or_types_ops(c, n.conditions@)
}

pub open spec fn media_without_or_types_ops(c: CodegenConfig, v: Seq<MediaConditionWithoutOrType>) -> Seq<OpView>
    decreases v,
{
    if v.len() == 0 {
        empty()
    } else {
        media_without_or_types_ops(c, v.drop_last()) + media_condition_without_or_type_ops(c, v.last())
    }
}

pub open spec fn media_condition_without_or_type_ops(c: CodegenConfig, n: MediaConditionWithoutOrType) -> Seq<OpView>
    decreases n,
{
    match n {
        MediaConditionWithoutOrType::Not(m) => media_not_ops(c, m),
        MediaConditionWithoutOrType::And(m) => media_and_ops(c, m),
        MediaConditionWithoutOrType::MediaInParens(m) => media_in_parens_ops(c, m),
    }
}

pub open spec fn media_not_ops(c: CodegenConfig, n: MediaNot) -> Seq<OpView>
    decreases n,
{
    fspace(c) + keyword("not"@) + space() + media_in_parens_ops(c, n.condition)
}

pub open spec fn media_and_ops(c: CodegenConfig, n: MediaAnd) -> Seq<OpView>
    decreases n,
{
    fspace(c) + keyword("and"@) + space() + media_in_parens_ops(c, n.condition)
}

pub open spec fn media_or_ops(c: CodegenConfig, n: MediaOr) -> Seq<OpView>
    decreases n,
{
    fspace(c) + keyword("or"@) + space() + media_in_parens_ops(c, n.condition)
}

pub open spec fn media_in_parens_ops(c: CodegenConfig, n: MediaInParens) -> Seq<OpView>
    decreases n,
{
    match n {
        MediaInParens::MediaCondition(m) => punct("("@) + media_condition_ops(c, *m) + punct(")"@),
        MediaInParens::Feature(f) => media_feature_ops(c, f),
    }
}

/// Whether `@media` must be followed by a space even when minified: not
/// when the query list starts with a bare condition in parentheses.
pub open spec fn media_need_space(n: MediaQueryList) -> bool {
    if n.queries@.len() > 0 && n.queries@[0].modifier is None && n.queries@[0].media_type is None {
        match n.queries@[0].condition {
            Some(MediaConditionType::All(mc)) => !(mc.conditions@.len() > 0
                && mc.conditions@[0] is MediaInParens),
            _ => true,
        }
    } else {
        true
    }
}

// -------------------------------------------------------------- supports

pub open spec fn supports_condition_ops(c: CodegenConfig, x: Ctx, n: SupportsCondition) -> Seq<OpView>
    decreases n,
{
    supports_types_ops(c, x, n.conditions@)
}

pub open spec fn supports_types_ops(c: CodegenConfig, x: Ctx, v: Seq<SupportsConditionType>) -> Seq<OpView>
    decreases v,
{
    if v.len() == 0 {
        empty()
    } else {
        supports_types_ops(c, x, v.drop_last()) + supports_condition_type_ops(c, x, v.last())
    }
}

pub open spec fn supports_condition_type_ops(c: CodegenConfig, x: Ctx, n: SupportsConditionType) -> Seq<OpView>
    decreases n,
{
    match n {
        SupportsConditionType::Not(s) => supports_not_ops(c, x, s),
        SupportsConditionType::And(s) => supports_and_ops(c, x, s),
        SupportsConditionType::Or(s) => supports_or_ops(c, x, s),
        SupportsConditionType::SupportsInParens(s) => supports_in_parens_ops(c, x, s),
    }
}

pub open spec fn supports_not_ops(c: CodegenConfig, x: Ctx, n: SupportsNot) -> Seq<OpView>
    decreases n,
{
    fspace(c) + keyword("not"@) + space() + supports_in_parens_ops(c, x, n.condition)
}

pub open spec fn supports_and_ops(c: CodegenConfig, x: Ctx, n: SupportsAnd) -> Seq<OpView>
    decreases n,
{
    fspace(c) + keyword("and"@) + space() + supports_in_parens_ops(c, x, n.condition)
}

pub open spec fn supports_or_ops(c: CodegenConfig, x: Ctx, n: SupportsOr) -> Seq<OpView>
    decreases n,
{
    fspace(c) + keyword("or"@) + space() + supports_in_parens_ops(c, x, n.condition)
}

pub open spec fn supports_in_parens_ops(c: CodegenConfig, x: Ctx, n: SupportsInParens) -> Seq<OpView>
    decreases n,
{
    match n {
        SupportsInParens::SupportsCondition(s) => punct("("@) + supports_condition_ops(c, x, s)
            + punct(")"@),
        SupportsInParens::Feature(f) => supports_feature_ops(c, x, f),
    }
}

pub open spec fn supports_feature_ops(c: CodegenConfig, x: Ctx, n: SupportsFeature) -> Seq<OpView>
    decreases n,
{
    punct("("@) + match n {
        SupportsFeature::Declaration(d) => declaration_ops(c, x, d),
    } + punct(")"@)
}

// ----------------------------------------------------------------- rules

pub open spec fn stylesheet_ops(c: CodegenConfig, x: Ctx, n: Stylesheet) -> Seq<OpView>
    decreases n,
{
    rules_ops(c, x, n.rules@, list_sep(c, fmt(ListDelim::NotDelimited, !c.minify)))
}

pub open spec fn rules_ops(c: CodegenConfig, x: Ctx, v: Seq<Rule>, sep: Seq<OpView>) -> Seq<OpView>
    decreases v,
{
    if v.len() == 0 {
        empty()
    } else {
        rules_ops(c, x, v.drop_last(), sep) + sep_before_last(v.len() as int, sep) + rule_ops(c, x, v.last())
    }
}

pub open spec fn rule_ops(c: CodegenConfig, x: Ctx, n: Rule) -> Seq<OpView>
    decreases n,
{
    match n {
        Rule::QualifiedRule(r) => qualified_rule_ops(c, x, r),
        Rule::AtRule(r) => at_rule_ops(c, x, r),
        Rule::Invalid(t) => tokens_ops(t),
    }
}

pub open spec fn qualified_rule_ops(c: CodegenConfig, x: Ctx, n: QualifiedRule) -> Seq<OpView>
    decreases n,
{
    selector_list_ops(c, x, n.prelude) + fspace(c) + block_ops(c, x, n.block)
}

pub open spec fn at_rule_ops(c: CodegenConfig, x: Ctx, n: AtRule) -> Seq<OpView>
    decreases n,
{
    match n {
        AtRule::Charset(r) => charset_rule_ops(c, r),
        AtRule::Import(r) => import_rule_ops(c, x, r),
        AtRule::FontFace(r) => font_face_rule_ops(c, x, r),
        AtRule::Keyframes(r) => keyframes_rule_ops(c, x, r),
        AtRule::Layer(r) => layer_rule_ops(c, x, r),
        AtRule::Media(r) => media_rule_ops(c, x, r),
        AtRule::Supports(r) => supports_rule_ops(c, x, r),
        AtRule::Page(r) => page_rule_ops(c, x, r),
        AtRule::Namespace(r) => namespace_rule_ops(c, x, r),
        AtRule::Viewport(r) => viewport_rule_ops(c, x, r),
        AtRule::Document(r) => document_rule_ops(c, x, r),
        AtRule::ColorProfile(r) => color_profile_rule_ops(c, x, r),
        AtRule::Unknown(r) => unknown_at_rule_ops(c, x, r),
    }
}

pub open spec fn charset_rule_ops(c: CodegenConfig, n: CharsetRule) -> Seq<OpView> {
    punct("@"@) + keyword("charset"@) + space() + str_ops(c, n.charset) + punct(";"@)
}

pub open spec fn import_href_ops(c: CodegenConfig, x: Ctx, n: ImportHref) -> Seq<OpView>
    decreases n,
{
    match n {
        ImportHref::Url(u) => url_ops(c, x, u),
        ImportHref::Str(s) => str_ops(c, s),
    }
}

pub open spec fn import_layer_name_ops(c: CodegenConfig, x: Ctx, n: ImportLayerName) -> Seq<OpView>
    decreases n,
{
    match n {
        ImportLayerName::Ident(i) => ident_ops(i),
        ImportLayerName::Function(f) => function_ops(c, x, f),
    }
}

pub open spec fn import_supports_type_ops(c: CodegenConfig, x: Ctx, n: ImportSupportsType) -> Seq<OpView>
    decreases n,
{
    match n {
        ImportSupportsType::SupportsCondition(s) => supports_condition_ops(c, x, s),
        ImportSupportsType::Declaration(d) => declaration_ops(c, x, d),
    }
}

/// The layer part of `@import`: minified, an identifier layer name is
/// followed by a space when supports or media conditions follow.
pub open spec fn import_layer_part_ops(c: CodegenConfig, x: Ctx, n: ImportRule) -> Seq<OpView> {
    match n.layer_name {
        Some(l) => fspace(c) + import_layer_name_ops(c, x, l) + if c.minify && (n.supports is Some
            || n.media is Some) && l is Ident {
            space()
        } else {
            empty()
        },
        None => empty(),
    }
}

pub open spec fn import_supports_part_ops(c: CodegenConfig, x: Ctx, n: ImportRule) -> Seq<OpView> {
    match n.supports {
        Some(s) => fspace(c) + keyword("supports"@) + punct("("@) + import_supports_type_ops(c, x, s)
            + punct(")"@),
        None => empty(),
    }
}

pub open spec fn import_media_part_ops(c: CodegenConfig, n: ImportRule) -> Seq<OpView> {
    match n.media {
        Some(m) => fspace(c) + media_query_list_ops(c, m),
        None => empty(),
    }
}

pub open spec fn import_rule_ops(c: CodegenConfig, x: Ctx, n: ImportRule) -> Seq<OpView> {
    punct("@"@) + keyword("import"@) + (if n.href is Url { space() } else { fspace(c) })
        + import_href_ops(c, x, n.href) + import_layer_part_ops(c, x, n) + import_supports_part_ops(
        c,
        x,
        n,
    ) + import_media_part_ops(c, n) + punct(";"@)
}

pub open spec fn font_face_rule_ops(c: CodegenConfig, x: Ctx, n: FontFaceRule) -> Seq<OpView>
    decreases n,
{
    punct("@"@) + keyword("font-face"@) + fspace(c) + block_ops(c, x, n.block)
}

pub open spec fn keyframe_block_ops(c: CodegenConfig, x: Ctx, n: KeyframeBlock) -> Seq<OpView>
    decreases n,
{
    keyframe_selectors_ops(c, n.prelude@, list_sep(c, fmt(ListDelim::Comma, false))) + fspace(c)
        + block_ops(c, x, n.block)
}

pub open spec fn keyframe_blocks_ops(c: CodegenConfig, x: Ctx, v: Seq<KeyframeBlock>, sep: Seq<OpView>) -> Seq<OpView>
    decreases v,
{
    if v.len() == 0 {
        empty()
    } else {
        keyframe_blocks_ops(c, x, v.drop_last(), sep) + sep_before_last(v.len() as int, sep)
            + keyframe_block_ops(c, x, v.last())
    }
}

pub open spec fn keyframes_rule_ops(c: CodegenConfig, x: Ctx, n: KeyframesRule) -> Seq<OpView>
    decreases n,
{
    punct("@"@) + keyword("keyframes"@) + (if n.name is Str { fspace(c) } else { space() })
        + keyframes_name_ops(c, n.name) + fspace(c) + punct("{"@) + fnewline(c) + keyframe_blocks_ops(
        c,
        x,
        n.blocks@,
        list_sep(c, fmt(ListDelim::NotDelimited, !c.minify)),
    ) + fnewline(c) + punct("}"@)
}

pub open spec fn layer_rule_ops(c: CodegenConfig, x: Ctx, n: LayerRule) -> Seq<OpView>
    decreases n,
{
    punct("@"@) + keyword("layer"@) + match n.prelude {
        Some(p) => space() + layer_prelude_ops(c, p),
        None => fspace(c),
    } + match n.rules {
        Some(r) => punct("{"@) + rules_ops(c, x, r@, list_sep(c, fmt(ListDelim::NotDelimited, !c.minify)))
            + punct("}"@),
        None => punct(";"@),
    }
}

pub open spec fn media_rule_ops(c: CodegenConfig, x: Ctx, n: MediaRule) -> Seq<OpView>
    decreases n,
{
    punct("@"@) + keyword("media"@) + match n.media {
        Some(m) => (if media_need_space(m) { space() } else { fspace(c) }) + media_query_list_ops(c, m)
            + fspace(c),
        None => fspace(c),
    } + punct("{"@) + rules_ops(c, x, n.rules@, list_sep(c, fmt(ListDelim::NotDelimited, true))) + punct("}"@)
}

pub open spec fn supports_rule_ops(c: CodegenConfig, x: Ctx, n: SupportsRule) -> Seq<OpView>
    decreases n,
{
    punct("@"@) + keyword("supports"@) + (if n.condition.conditions@.len() > 0
        && n.condition.conditions@[0] is SupportsInParens {
        fspace(c)
    } else {
        space()
    }) + supports_condition_ops(c, x, n.condition) + fspace(c) + punct("{"@) + rules_ops(
        c,
        x,
        n.rules@,
        list_sep(c, fmt(ListDelim::NotDelimited, false)),
    ) + punct("}"@)
}

pub open spec fn page_rule_ops(c: CodegenConfig, x: Ctx, n: PageRule) -> Seq<OpView>
    decreases n,
{
    punct("@"@) + keyword("page"@) + space() + page_selectors_ops(
        n.prelude@,
        list_sep(c, fmt(ListDelim::Comma, false)),
    ) + page_rule_block_ops(c, x, n.block)
}

/// Inside a page rule block every declaration is followed by `;`.
pub open spec fn page_rule_block_ops(c: CodegenConfig, x: Ctx, n: PageRuleBlock) -> Seq<OpView>
    decreases n,
{
    punct("{"@) + fnewline(c) + seq![OpView::IncreaseIndent] + page_items_ops(
        c,
        Ctx { semi_after_property: true, ..x },
        n.items@,
        list_sep(c, fmt(ListDelim::NotDelimited, true)),
    ) + fnewline(c) + seq![OpView::DecreaseIndent] + punct("}"@)
}

pub open spec fn page_items_ops(c: CodegenConfig, x: Ctx, v: Seq<PageRuleBlockItem>, sep: Seq<OpView>) -> Seq<OpView>
    decreases v,
{
    if v.len() == 0 {
        empty()
    } else {
        page_items_ops(c, x, v.drop_last(), sep) + sep_before_last(v.len() as int, sep)
            + page_rule_block_item_ops(c, x, v.last())
    }
}

pub open spec fn page_rule_block_item_ops(c: CodegenConfig, x: Ctx, n: PageRuleBlockItem) -> Seq<OpView>
    decreases n,
{
    match n {
        PageRuleBlockItem::Declaration(d) => declaration_ops(c, x, *d),
        PageRuleBlockItem::Nested(r) => nested_page_rule_ops(c, x, *r),
    }
}

pub open spec fn nested_page_rule_ops(c: CodegenConfig, x: Ctx, n: NestedPageRule) -> Seq<OpView>
    decreases n,
{
    complex_selector_ops(c, x, n.prelude) + page_rule_block_ops(c, x, n.block)
}

pub open spec fn namespace_uri_ops(c: CodegenConfig, x: Ctx, n: NamespaceUri) -> Seq<OpView>
    decreases n,
{
    match n {
        NamespaceUri::Url(u) => url_ops(c, x, u),
        NamespaceUri::Str(s) => str_ops(c, s),
    }
}

pub open spec fn namespace_rule_ops(c: CodegenConfig, x: Ctx, n: NamespaceRule) -> Seq<OpView>
    decreases n,
{
    let has_prefix = n.prefix is Some;
    let is_uri_url = n.uri is Url;
    punct("@"@) + keyword("namespace"@) + (if has_prefix || is_uri_url { space() } else { fspace(c) })
        + match n.prefix {
        Some(p) => ident_ops(p) + if is_uri_url { space() } else { fspace(c) },
        None => empty(),
    } + namespace_uri_ops(c, x, n.uri) + punct(";"@)
}

pub open spec fn viewport_rule_ops(c: CodegenConfig, x: Ctx, n: ViewportRule) -> Seq<OpView>
    decreases n,
{
    punct("@"@) + keyword("viewport"@) + fspace(c) + block_ops(c, x, n.block)
}

pub open spec fn functions_ops(c: CodegenConfig, x: Ctx, v: Seq<Function>, sep: Seq<OpView>) -> Seq<OpView>
    decreases v,
{
    if v.len() == 0 {
        empty()
    } else {
        functions_ops(c, x, v.drop_last(), sep) + sep_before_last(v.len() as int, sep)
            + function_ops(c, x, v.last())
    }
}

pub open spec fn document_rule_ops(c: CodegenConfig, x: Ctx, n: DocumentRule) -> Seq<OpView>
    decreases n,
{
    punct("@"@) + keyword("document"@) + space() + functions_ops(
        c,
        x,
        n.selectors@,
        list_sep(c, fmt(ListDelim::Comma, false)),
    ) + fspace(c) + punct("{"@) + rules_ops(c, x, n.block@, list_sep(c, fmt(ListDelim::NotDelimited, false)))
        + punct("}"@)
}

pub open spec fn color_profile_rule_ops(c: CodegenConfig, x: Ctx, n: ColorProfileRule) -> Seq<OpView>
    decreases n,
{
    punct("@"@) + keyword("color-profile"@) + space() + color_profile_name_ops(n.name) + fspace(c)
        + punct("{"@) + block_items_ops(c, x, n.block@, list_sep(c, fmt(ListDelim::NotDelimited, false)))
        + punct("}"@)
}

pub open spec fn unknown_at_rule_ops(c: CodegenConfig, x: Ctx, n: UnknownAtRule) -> Seq<OpView>
    decreases n,
{
    punct("@"@) + at_rule_name_ops(n.name) + values_ops(
        c,
        x,
        n.prelude@,
        list_sep(c, fmt(ListDelim::NotDelimited, false)),
    ) + match n.block {
        Some(b) => simple_block_ops(c, x, b),
        None => punct(";"@),
    }
}

} // verus!
