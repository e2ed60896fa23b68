//! The code generator: one method per kind of node, each appending to the
//! output exactly the writer calls that its spec function in
//! [`crate::spec`] names.

use vstd::prelude::*;
use crate::ops::{CssOp, OpView, ops_view};
use crate::text::{minify_hex_color, minify_number};
use crate::spec::{CodegenConfig, Ctx, ListDelim, ListFormat, keeps_laws, lemma_laws_concat, lemma_laws_empty, lemma_laws_plain_op, lemma_laws_newline, lemma_laws_indented, punct_at, punct, raw_at, raw, keyword, raw_char_at, raw_char, space, fspace, fnewline, empty, fmt, delim_ops, list_sep, sep_before_last, delimiter_value_str, bin_op_str, combinator_value_str, attr_matcher_str, comparison_str, block_opening, block_closing, ident_ops, custom_ident_ops, dashed_ident_ops, opt_ident_ops, str_ops, number_ops, percent_ops, dimension_ops, ratio_ops, hex_color_ops, color_ops, delimiter_ops, token_ops, token_list_ops, tokens_ops, url_value_raw_ops, url_value_ops, important_flag_ops, declaration_name_ops, at_rule_name_ops, color_profile_name_ops, keyframes_name_ops, keyframe_selector_ops, keyframe_selectors_ops, idents_ops, layer_name_ops, layer_names_ops, layer_name_list_ops, layer_prelude_ops, media_feature_name_ops, media_feature_value_ops, media_feature_plain_ops, media_feature_boolean_ops, media_feature_range_ops, media_feature_range_interval_ops, media_feature_ops, page_selector_ops, page_selectors_ops, combinator_ops, nesting_selector_ops, type_selector_ops, id_selector_ops, class_selector_ops, at_selector_ops, attr_selector_value_ops, attr_selector_ops, an_plus_b_ops, nth_value_ops, pseudo_element_selector_ops, value_need_delim, value_ops, values_ops, list_values_ops, function_ops, simple_block_ops, bin_value_ops, url_modifier_ops, url_modifiers_ops, url_ops, first_is_empty_tokens, declaration_ops, declaration_block_item_ops, block_items_ops, block_ops, selector_list_ops, complex_selectors_ops, complex_children_ops, complex_selector_ops, complex_selector_children_ops, compound_selector_ops, subclass_selectors_ops, subclass_selector_ops, pseudo_class_selector_ops, pseudo_selector_children_ops, nth_ops, media_query_list_ops, media_queries_ops, media_query_ops, media_condition_type_ops, media_condition_ops, media_all_types_ops, media_condition_all_type_ops, media_condition_without_or_ops, media_without_or_types_ops, media_condition_without_or_type_ops, media_not_ops, media_and_ops, media_or_ops, media_in_parens_ops, media_need_space, supports_condition_ops, supports_types_ops, supports_condition_type_ops, supports_not_ops, supports_and_ops, supports_or_ops, supports_in_parens_ops, supports_feature_ops, stylesheet_ops, rules_ops, rule_ops, qualified_rule_ops, at_rule_ops, charset_rule_ops, import_href_ops, import_layer_name_ops, import_supports_type_ops, import_layer_part_ops, import_supports_part_ops, import_media_part_ops, import_rule_ops, font_face_rule_ops, keyframe_block_ops, keyframe_blocks_ops, keyframes_rule_ops, layer_rule_ops, media_rule_ops, supports_rule_ops, page_rule_ops, page_rule_block_ops, page_items_ops, page_rule_block_item_ops, nested_page_rule_ops, namespace_uri_ops, namespace_rule_ops, viewport_rule_ops, functions_ops, document_rule_ops, color_profile_rule_ops, unknown_at_rule_ops};
use crate::ast::{Span, Ident, CustomIdent, DashedIdent, Str, Number, Percent, Dimension, Ratio, HexColor, Color, DelimiterValue, Delimiter, BinOp, Token, TokenAndSpan, Tokens, Function, SimpleBlockName, SimpleBlock, BinValue, UrlValueRaw, UrlValue, UrlModifier, Url, Value, DeclarationName, ImportantFlag, Declaration, DeclarationBlockItem, Block, SelectorList, ComplexSelector, ComplexSelectorChildren, CompoundSelector, CombinatorValue, Combinator, NestingSelector, TypeSelector, SubclassSelector, IdSelector, ClassSelector, AtSelector, AttrSelectorMatcher, AttrSelectorValue, AttrSelector, AnPlusB, NthValue, Nth, PseudoSelectorChildren, PseudoClassSelector, PseudoElementSelector, Stylesheet, Rule, QualifiedRule, AtRule, CharsetRule, ImportHref, ImportLayerName, ImportSupportsType, ImportRule, FontFaceRule, KeyframesName, KeyframeSelector, KeyframeBlock, KeyframesRule, LayerName, LayerNameList, LayerPrelude, LayerRule, MediaRule, MediaQueryList, MediaQuery, MediaConditionType, MediaCondition, MediaConditionWithoutOr, MediaConditionAllType, MediaConditionWithoutOrType, MediaNot, MediaAnd, MediaOr, MediaInParens, MediaFeature, MediaFeatureName, MediaFeatureValue, MediaFeaturePlain, MediaFeatureBoolean, MediaFeatureRangeComparison, MediaFeatureRange, MediaFeatureRangeInterval, SupportsRule, SupportsCondition, SupportsConditionType, SupportsNot, SupportsAnd, SupportsOr, SupportsInParens, SupportsFeature, PageSelector, PageRule, PageRuleBlock, PageRuleBlockItem, NestedPageRule, NamespaceUri, NamespaceRule, ViewportRule, DocumentRule, ColorProfileName, ColorProfileRule, AtRuleName, UnknownAtRule};

verus! {

broadcast use {lemma_laws_concat, lemma_laws_empty};
/// Walks a CSS syntax tree and records the writer calls that print it.
pub struct CodeGenerator {
    ops: Vec<CssOp>,
    config: CodegenConfig,
    ctx: Ctx,
}

impl View for CodeGenerator {
    type V = Seq<OpView>;

    /// The writer calls recorded so far.
    closed spec fn view(&self) -> Seq<OpView> {
        ops_view(self.ops@)
    }
}

/// `post` is `pre` with `out` appended to its output, and the same
/// configuration and context; minified, `out` breaks no line, and it
/// leaves the indentation as it found it.
pub open spec fn wrote(pre: CodeGenerator, post: CodeGenerator, out: Seq<OpView>) -> bool {
    &&& extended(pre, post, out)
    &&& keeps_laws(pre.config_of(), out)
}

/// `post` is `pre` with `out` appended to its output, and the same
/// configuration and context.
pub open spec fn extended(pre: CodeGenerator, post: CodeGenerator, out: Seq<OpView>) -> bool {
    &&& post@ == pre@ + out
    &&& post.config_of() == pre.config_of()
    &&& post.ctx_of() == pre.ctx_of()
}

impl CodeGenerator {
    pub closed spec fn config_of(&self) -> CodegenConfig {
        self.config
    }

    pub closed spec fn ctx_of(&self) -> Ctx {
        self.ctx
    }

    /// A generator with the given configuration, no output yet and the
    /// default context.
    pub fn new(config: CodegenConfig) -> (g: Self)
        ensures
            g@ == Seq::<OpView>::empty(),
            g.config_of() == config,
            g.ctx_of() == (Ctx { semi_after_property: false }),
    {
        let g = CodeGenerator { ops: Vec::new(), config, ctx: Ctx { semi_after_property: false } };
        assert(g@ =~= Seq::<OpView>::empty());
        g
    }

    /// The writer calls recorded so far.
    pub fn ops(&self) -> (r: &Vec<CssOp>)
        ensures
            ops_view(r@) == self@,
    {
        &self.ops
    }

    /// The writer calls recorded, handed over.
    pub fn into_ops(self) -> (r: Vec<CssOp>)
        ensures
            ops_view(r@) == self@,
    {
        self.ops
    }

    // ------------------------------------------------------------ writing

    fn push_op(&mut self, op: CssOp)
        ensures
            extended(*old(self), *final(self), seq![op@]),
    {
        self.ops.push(op);
        assert(ops_view(self.ops@) =~= ops_view(old(self).ops@) + seq![op@]);
    }

    /// Appends a call that neither breaks a line nor moves the indentation.
    fn push_plain(&mut self, op: CssOp)
        requires
            !(op@ is Newline),
            !(op@ is IncreaseIndent),
            !(op@ is DecreaseIndent),
        ensures
            wrote(*old(self), *final(self), seq![op@]),
    {
        self.push_op(op);
        proof {
            lemma_laws_plain_op(self.config_of(), op@);
        }
    }

    fn punct(&mut self, s: &str)
        ensures
            wrote(*old(self), *final(self), punct(s@)),
    {
        self.push_plain(CssOp::Punct(None, s.to_owned()));
    }

    fn raw(&mut self, s: &str)
        ensures
            wrote(*old(self), *final(self), raw(s@)),
    {
        self.push_plain(CssOp::Raw(None, s.to_owned()));
    }

    fn keyword(&mut self, s: &str)
        ensures
            wrote(*old(self), *final(self), keyword(s@)),
    {
        self.raw(s);
    }

    fn raw_char(&mut self, c: char)
        ensures
            wrote(*old(self), *final(self), raw_char(c)),
    {
        self.push_plain(CssOp::RawChar(None, c));
    }

    fn punct_at(&mut self, sp: Span, s: &str)
        ensures
            wrote(*old(self), *final(self), punct_at(Some(sp), s@)),
    {
        self.push_plain(CssOp::Punct(Some(sp), s.to_owned()));
    }

    fn raw_at(&mut self, sp: Span, s: &str)
        ensures
            wrote(*old(self), *final(self), raw_at(Some(sp), s@)),
    {
        self.push_plain(CssOp::Raw(Some(sp), s.to_owned()));
    }

    fn raw_char_at(&mut self, sp: Span, c: char)
        ensures
            wrote(*old(self), *final(self), raw_char_at(Some(sp), c)),
    {
        self.push_plain(CssOp::RawChar(Some(sp), c));
    }

    fn write_str_at(&mut self, sp: Span, s: &str)
        ensures
            wrote(*old(self), *final(self), seq![OpView::Str(Some(sp), s@)]),
    {
        self.push_plain(CssOp::Str(Some(sp), s.to_owned()));
    }

    fn space(&mut self)
        ensures
            wrote(*old(self), *final(self), space()),
    {
        self.push_plain(CssOp::Space);
    }

    fn formatting_space(&mut self)
        ensures
            wrote(*old(self), *final(self), fspace(old(self).config_of())),
    {
        if !self.config.minify {
            self.push_plain(CssOp::Space);
        } else {
            assert(self@ =~= old(self)@ + fspace(self.config_of()));
            proof {
                lemma_laws_empty(self.config_of());
            }
        }
    }

    fn formatting_newline(&mut self)
        ensures
            wrote(*old(self), *final(self), fnewline(old(self).config_of())),
    {
        if !self.config.minify {
            self.push_op(CssOp::Newline);
            proof {
                lemma_laws_newline(self.config_of());
            }
        } else {
            assert(self@ =~= old(self)@ + fnewline(self.config_of()));
            proof {
                lemma_laws_empty(self.config_of());
            }
        }
    }

    fn increase_indent(&mut self)
        ensures
            extended(*old(self), *final(self), seq![OpView::IncreaseIndent]),
    {
        self.push_op(CssOp::IncreaseIndent);
    }

    fn decrease_indent(&mut self)
        ensures
            extended(*old(self), *final(self), seq![OpView::DecreaseIndent]),
    {
        self.push_op(CssOp::DecreaseIndent);
    }

    fn write_delim(&mut self, d: ListDelim)
        ensures
            wrote(*old(self), *final(self), delim_ops(old(self).config_of(), d)),
    {
        let ghost pre = *self;
        match d {
            ListDelim::NotDelimited => {
                proof {
                    lemma_laws_empty(pre.config_of());
                }
            },
            ListDelim::Comma => {
                self.punct(",");
                self.formatting_space();
            },
            ListDelim::Space => self.space(),
            ListDelim::Semi => self.punct(";"),
            ListDelim::Dot => self.punct("."),
        }
        assert(self@ =~= pre@ + delim_ops(pre.config_of(), d));
    }

    fn write_list_sep(&mut self, f: ListFormat)
        ensures
            wrote(*old(self), *final(self), list_sep(old(self).config_of(), f)),
    {
        let ghost pre = *self;
        self.write_delim(f.delim);
        if f.multi_line {
            self.formatting_newline();
        }
        assert(self@ =~= pre@ + list_sep(pre.config_of(), f));
    }

    #[verifier::spinoff_prover]
    #[verifier::rlimit(40)]
    pub fn emit_ident(&mut self, n: &Ident)
        ensures
            wrote(*old(self), *final(self), ident_ops(*n)),
    {
        let ghost pre = *self;
        self.raw_at(n.span, n.raw.as_str());
        assert(self@ =~= pre@ + ident_ops(*n));
    }

    #[verifier::spinoff_prover]
    #[verifier::rlimit(40)]
    pub fn emit_custom_ident(&mut self, n: &CustomIdent)
        ensures
            wrote(*old(self), *final(self), custom_ident_ops(*n)),
    {
        let ghost pre = *self;
        self.raw_at(n.span, n.raw.as_str());
        assert(self@ =~= pre@ + custom_ident_ops(*n));
    }

    #[verifier::spinoff_prover]
    #[verifier::rlimit(40)]
    pub fn emit_dashed_ident(&mut self, n: &DashedIdent)
        ensures
            wrote(*old(self), *final(self), dashed_ident_ops(*n)),
    {
        let ghost pre = *self;
        self.raw_at(n.span, n.raw.as_str());
        assert(self@ =~= pre@ + dashed_ident_ops(*n));
    }

    #[verifier::spinoff_prover]
    #[verifier::rlimit(40)]
    pub fn emit_str(&mut self, n: &Str)
        ensures
            wrote(*old(self), *final(self), str_ops(old(self).config_of(), *n)),
    {
        let ghost pre = *self;
        if self.config.minify {
            self.write_str_at(n.span, n.value.as_str());
        } else {
            self.raw_at(n.span, n.raw.as_str());
        }
        assert(self@ =~= pre@ + str_ops(pre.config_of(), *n));
    }

    #[verifier::spinoff_prover]
    #[verifier::rlimit(40)]
    pub fn emit_number(&mut self, n: &Number)
        ensures
            wrote(*old(self), *final(self), number_ops(old(self).config_of(), *n)),
    {
        let ghost pre = *self;
        if self.config.minify {
            let neg_zero = n.value.as_str().unicode_len() == 2 && n.value.as_str().get_char(0) == '-'
                && n.value.as_str().get_char(1) == '0';
            proof {
                reveal_strlit("-0");
                assert(neg_zero <==> n.value@ =~= "-0"@);
            }
            if neg_zero {
                self.raw_at(n.span, "-0");
            } else {
                let minified = minify_number(n.value.as_str());
                self.raw_at(n.span, minified.as_str());
            }
        } else {
            self.raw_at(n.span, n.raw.as_str());
        }
        assert(self@ =~= pre@ + number_ops(pre.config_of(), *n));
    }

    #[verifier::spinoff_prover]
    #[verifier::rlimit(40)]
    pub fn emit_percent(&mut self, n: &Percent)
        ensures
            wrote(*old(self), *final(self), percent_ops(old(self).config_of(), *n)),
    {
        let ghost pre = *self;
        self.emit_number(&n.value);
        self.punct("%");
        assert(self@ =~= pre@ + percent_ops(pre.config_of(), *n));
    }

    #[verifier::spinoff_prover]
    #[verifier::rlimit(40)]
    pub fn emit_dimension(&mut self, n: &Dimension)
        ensures
            wrote(*old(self), *final(self), dimension_ops(old(self).config_of(), *n)),
    {
        let ghost pre = *self;
        self.emit_number(&n.value);
        self.emit_ident(&n.unit);
        assert(self@ =~= pre@ + dimension_ops(pre.config_of(), *n));
    }

    #[verifier::spinoff_prover]
    #[verifier::rlimit(40)]
    pub fn emit_ration(&mut self, n: &Ratio)
        ensures
            wrote(*old(self), *final(self), ratio_ops(old(self).config_of(), *n)),
    {
        let ghost pre = *self;
        self.emit_number(&n.left);
        if let Some(right) = &n.right {
            self.punct("/");
            self.emit_number(right);
        }
        assert(self@ =~= pre@ + ratio_ops(pre.config_of(), *n));
    }

    #[verifier::spinoff_prover]
    #[verifier::rlimit(40)]
    pub fn emit_hex_color(&mut self, n: &HexColor)
        ensures
            wrote(*old(self), *final(self), hex_color_ops(old(self).config_of(), *n)),
    {
        let ghost pre = *self;
        self.punct("#");
        if self.config.minify {
            let minified = minify_hex_color(n.value.as_str());
            self.raw_at(n.span, minified.as_str());
        } else {
            self.raw_at(n.span, n.raw.as_str());
        }
        assert(self@ =~= pre@ + hex_color_ops(pre.config_of(), *n));
    }

    #[verifier::spinoff_prover]
    #[verifier::rlimit(40)]
    pub fn emit_color(&mut self, n: &Color)
        ensures
            wrote(*old(self), *final(self), color_ops(old(self).config_of(), *n)),
    {
        let ghost pre = *self;
        match n {
            Color::HexColor(h) => self.emit_hex_color(h),
        }
        assert(self@ =~= pre@ + color_ops(pre.config_of(), *n));
    }

    #[verifier::spinoff_prover]
    #[verifier::rlimit(40)]
    pub fn emit_delimiter(&mut self, n: &Delimiter)
        ensures
            wrote(*old(self), *final(self), delimiter_ops(*n)),
    {
        let ghost pre = *self;
        let s = match n.value {
            DelimiterValue::Comma => ",",
            DelimiterValue::Solidus => "/",
            DelimiterValue::Semicolon => ";",
        };
        self.punct(s);
        assert(self@ =~= pre@ + delimiter_ops(*n));
    }

    #[verifier::spinoff_prover]
    #[verifier::rlimit(40)]
    fn emit_token(&mut self, outer: Span, n: &TokenAndSpan)
        ensures
            wrote(*old(self), *final(self), token_ops(outer, *n)),
    {
        let ghost pre = *self;
        let sp = n.span;
        match &n.token {
            Token::AtKeyword { raw } => {
                self.punct_at(sp, "@");
                self.raw_at(outer, raw.as_str());
            },
            Token::Delim { value } => self.raw_char_at(outer, *value),
            Token::LParen => self.punct_at(sp, "("),
            Token::RParen => self.punct_at(sp, ")"),
            Token::LBracket => self.punct_at(sp, "["),
            Token::RBracket => self.punct_at(sp, "]"),
            Token::Num { raw } => self.raw_at(sp, raw.as_str()),
            Token::Percent { raw } => {
                self.raw_at(sp, raw.as_str());
                self.punct("%");
            },
            Token::Dimension { raw_value, raw_unit } => {
                self.raw_at(sp, raw_value.as_str());
                self.raw_at(sp, raw_unit.as_str());
            },
            Token::Ident { raw } => self.raw_at(outer, raw.as_str()),
            Token::Function { raw } => {
                self.raw_at(outer, raw.as_str());
                self.punct("(");
            },
            Token::BadStr { raw } => self.raw_at(sp, raw.as_str()),
            Token::Str { raw } => self.raw_at(sp, raw.as_str()),
            Token::Url { raw_name, raw_value, before, after } => {
                self.raw(raw_name.as_str());
                self.punct("(");
                self.raw(before.as_str());
                self.raw(raw_value.as_str());
                self.raw(after.as_str());
                self.punct(")");
            },
            Token::BadUrl { raw_name, raw_value } => {
                self.raw_at(sp, raw_name.as_str());
                self.punct("(");
                self.raw(raw_value.as_str());
                self.punct(")");
            },
            Token::Comma => self.punct_at(sp, ","),
            Token::Semi => self.punct_at(sp, ";"),
            Token::LBrace => self.punct_at(sp, "{"),
            Token::RBrace => self.punct_at(sp, "}"),
            Token::Colon => self.punct_at(sp, ":"),
            Token::Hash { raw } => {
                self.punct("#");
                self.raw_at(sp, raw.as_str());
            },
            Token::WhiteSpace { value } => self.raw(value.as_str()),
            Token::CDC => self.punct_at(sp, "-->"),
            Token::CDO => self.punct_at(sp, "<!--"),
        }
        assert(self@ =~= pre@ + token_ops(outer, *n));
    }

    #[verifier::spinoff_prover]
    #[verifier::rlimit(60)]
    pub fn emit_tokens(&mut self, n: &Tokens)
        ensures
            wrote(*old(self), *final(self), tokens_ops(*n)),
    {
        let ghost pre = *self;
        let v = &n.tokens;
        let mut i: usize = 0;
        while i < v.len()
            invariant
                i <= v.len(),
                v == n.tokens,
                wrote(pre, *self, token_list_ops(n.span, v@.take(i as int))),
            decreases v.len() - i,
        {
            self.emit_token(n.span, &v[i]);
            i = i + 1;
            assert(v@.take(i as int).drop_last() =~= v@.take(i - 1));
            assert(self@ =~= pre@ + token_list_ops(n.span, v@.take(i as int)));
        }
        assert(v@.take(i as int) =~= v@);
    }

    #[verifier::spinoff_prover]
    #[verifier::rlimit(40)]
    pub fn emit_url_value_raw(&mut self, n: &UrlValueRaw)
        ensures
            wrote(*old(self), *final(self), url_value_raw_ops(old(self).config_of(), *n)),
    {
        let ghost pre = *self;
        if !self.config.minify {
            self.raw_at(n.span, n.before.as_str());
        }
        if self.config.minify {
            self.raw_at(n.span, n.value.as_str());
        } else {
            self.raw_at(n.span, n.raw.as_str());
        }
        if !self.config.minify {
            self.raw_at(n.span, n.after.as_str());
        }
        assert(self@ =~= pre@ + url_value_raw_ops(pre.config_of(), *n));
    }

    #[verifier::spinoff_prover]
    #[verifier::rlimit(40)]
    pub fn emit_url_value(&mut self, n: &UrlValue)
        ensures
            wrote(*old(self), *final(self), url_value_ops(old(self).config_of(), *n)),
    {
        let ghost pre = *self;
        match n {
            UrlValue::Raw(r) => self.emit_url_value_raw(r),
            UrlValue::Str(s) => self.emit_str(s),
        }
        assert(self@ =~= pre@ + url_value_ops(pre.config_of(), *n));
    }

    #[verifier::spinoff_prover]
    #[verifier::rlimit(40)]
    pub fn emit_important_flag(&mut self, n: &ImportantFlag)
        ensures
            wrote(*old(self), *final(self), important_flag_ops(old(self).config_of(), *n)),
    {
        let ghost pre = *self;
        self.punct("!");
        if self.config.minify {
            self.raw("important");
        } else {
            self.emit_ident(&n.value);
        }
        assert(self@ =~= pre@ + important_flag_ops(pre.config_of(), *n));
    }

    #[verifier::spinoff_prover]
    #[verifier::rlimit(40)]
    pub fn emit_declaration_name(&mut self, n: &DeclarationName)
        ensures
            wrote(*old(self), *final(self), declaration_name_ops(*n)),
    {
        let ghost pre = *self;
        match n {
            DeclarationName::Ident(i) => self.emit_ident(i),
            DeclarationName::DashedIdent(i) => self.emit_dashed_ident(i),
        }
        assert(self@ =~= pre@ + declaration_name_ops(*n));
    }

    #[verifier::spinoff_prover]
    #[verifier::rlimit(40)]
    pub fn emit_at_rule_name(&mut self, n: &AtRuleName)
        ensures
            wrote(*old(self), *final(self), at_rule_name_ops(*n)),
    {
        let ghost pre = *self;
        match n {
            AtRuleName::Ident(i) => self.emit_ident(i),
            AtRuleName::DashedIdent(i) => self.emit_dashed_ident(i),
        }
        assert(self@ =~= pre@ + at_rule_name_ops(*n));
    }

    #[verifier::spinoff_prover]
    #[verifier::rlimit(40)]
    pub fn emit_color_profile_name(&mut self, n: &ColorProfileName)
        ensures
            wrote(*old(self), *final(self), color_profile_name_ops(*n)),
    {
        let ghost pre = *self;
        match n {
            ColorProfileName::Ident(i) => self.emit_ident(i),
            ColorProfileName::DashedIdent(i) => self.emit_dashed_ident(i),
        }
        assert(self@ =~= pre@ + color_profile_name_ops(*n));
    }

    #[verifier::spinoff_prover]
    #[verifier::rlimit(40)]
    pub fn emit_keyframes_name(&mut self, n: &KeyframesName)
        ensures
            wrote(*old(self), *final(self), keyframes_name_ops(old(self).config_of(), *n)),
    {
        let ghost pre = *self;
        match n {
            KeyframesName::CustomIdent(i) => self.emit_custom_ident(i),
            KeyframesName::Str(s) => self.emit_str(s),
        }
        assert(self@ =~= pre@ + keyframes_name_ops(pre.config_of(), *n));
    }

    #[verifier::spinoff_prover]
    #[verifier::rlimit(40)]
    pub fn emit_keyframe_selector(&mut self, n: &KeyframeSelector)
        ensures
            wrote(*old(self), *final(self), keyframe_selector_ops(old(self).config_of(), *n)),
    {
        let ghost pre = *self;
        match n {
            KeyframeSelector::Ident(i) => self.emit_ident(i),
            KeyframeSelector::Percent(p) => self.emit_percent(p),
        }
        assert(self@ =~= pre@ + keyframe_selector_ops(pre.config_of(), *n));
    }

    #[verifier::spinoff_prover]
    #[verifier::rlimit(60)]
    fn emit_keyframe_selector_list(&mut self, v: &Vec<KeyframeSelector>, f: ListFormat)
        ensures
            wrote(*old(self), *final(self), keyframe_selectors_ops(old(self).config_of(), v@, list_sep(old(self).config_of(), f))),
    {
        let ghost pre = *self;
        let ghost sep = list_sep(pre.config_of(), f);
        let mut i: usize = 0;
        while i < v.len()
            invariant
                i <= v.len(),
                sep == list_sep(pre.config_of(), f),
                wrote(pre, *self, keyframe_selectors_ops(pre.config_of(), v@.take(i as int), sep)),
            decreases v.len() - i,
        {
            let ghost before = self@;
            let ghost prev = keyframe_selectors_ops(pre.config_of(), v@.take(i as int), sep);
            if i != 0 {
                self.write_list_sep(f);
            }
            let ghost sep_part = sep_before_last(i + 1, sep);
            if i == 0 {
                proof {
                    lemma_laws_empty(pre.config_of());
                }
            }
            assert(self@ =~= before + sep_part);
            let ghost mid = self@;
            self.emit_keyframe_selector(&v[i]);
            let ghost item = keyframe_selector_ops(pre.config_of(), v@[i as int]);
            assert(self@ =~= mid + item);
            proof {
                lemma_laws_concat(pre.config_of(), prev, sep_part);
                lemma_laws_concat(pre.config_of(), prev + sep_part, item);
            }
            i = i + 1;
            assert(v@.take(i as int).drop_last() =~= v@.take(i - 1));
            assert(v@.take(i as int).last() == v@[i - 1]);
            assert(keyframe_selectors_ops(pre.config_of(), v@.take(i as int), sep) == prev + sep_part + item);
            assert(self@ =~= pre@ + keyframe_selectors_ops(pre.config_of(), v@.take(i as int), sep));
        }
        assert(v@.take(i as int) =~= v@);
    }

    #[verifier::spinoff_prover]
    #[verifier::rlimit(60)]
    fn emit_ident_list(&mut self, v: &Vec<Ident>, f: ListFormat)
        ensures
            wrote(*old(self), *final(self), idents_ops(v@, list_sep(old(self).config_of(), f))),
    {
        let ghost pre = *self;
        let ghost sep = list_sep(pre.config_of(), f);
        let mut i: usize = 0;
        while i < v.len()
            invariant
                i <= v.len(),
                sep == list_sep(pre.config_of(), f),
                wrote(pre, *self, idents_ops(v@.take(i as int), sep)),
            decreases v.len() - i,
        {
            let ghost before = self@;
            let ghost prev = idents_ops(v@.take(i as int), sep);
            if i != 0 {
                self.write_list_sep(f);
            }
            let ghost sep_part = sep_before_last(i + 1, sep);
            if i == 0 {
                proof {
                    lemma_laws_empty(pre.config_of());
                }
            }
            assert(self@ =~= before + sep_part);
            let ghost mid = self@;
            self.emit_ident(&v[i]);
            let ghost item = ident_ops(v@[i as int]);
            assert(self@ =~= mid + item);
            proof {
                lemma_laws_concat(pre.config_of(), prev, sep_part);
                lemma_laws_concat(pre.config_of(), prev + sep_part, item);
            }
            i = i + 1;
            assert(v@.take(i as int).drop_last() =~= v@.take(i - 1));
            assert(v@.take(i as int).last() == v@[i - 1]);
            assert(idents_ops(v@.take(i as int), sep) == prev + sep_part + item);
            assert(self@ =~= pre@ + idents_ops(v@.take(i as int), sep));
        }
        assert(v@.take(i as int) =~= v@);
    }

    #[verifier::spinoff_prover]
    #[verifier::rlimit(40)]
    pub fn emit_layer_name(&mut self, n: &LayerName)
        ensures
            wrote(*old(self), *final(self), layer_name_ops(old(self).config_of(), *n)),
    {
        let ghost pre = *self;
        self.emit_ident_list(&n.name, ListFormat { delim: ListDelim::Dot, multi_line: false });
        assert(self@ =~= pre@ + layer_name_ops(pre.config_of(), *n));
    }

    #[verifier::spinoff_prover]
    #[verifier::rlimit(60)]
    fn emit_layer_name_vec(&mut self, v: &Vec<LayerName>, f: ListFormat)
        ensures
            wrote(*old(self), *final(self), layer_names_ops(old(self).config_of(), v@, list_sep(old(self).config_of(), f))),
    {
        let ghost pre = *self;
        let ghost sep = list_sep(pre.config_of(), f);
        let mut i: usize = 0;
        while i < v.len()
            invariant
                i <= v.len(),
                sep == list_sep(pre.config_of(), f),
                wrote(pre, *self, layer_names_ops(pre.config_of(), v@.take(i as int), sep)),
            decreases v.len() - i,
        {
            let ghost before = self@;
            let ghost prev = layer_names_ops(pre.config_of(), v@.take(i as int), sep);
            if i != 0 {
                self.write_list_sep(f);
            }
            let ghost sep_part = sep_before_last(i + 1, sep);
            if i == 0 {
                proof {
                    lemma_laws_empty(pre.config_of());
                }
            }
            assert(self@ =~= before + sep_part);
            let ghost mid = self@;
            self.emit_layer_name(&v[i]);
            let ghost item = layer_name_ops(pre.config_of(), v@[i as int]);
            assert(self@ =~= mid + item);
            proof {
                lemma_laws_concat(pre.config_of(), prev, sep_part);
                lemma_laws_concat(pre.config_of(), prev + sep_part, item);
            }
            i = i + 1;
            assert(v@.take(i as int).drop_last() =~= v@.take(i - 1));
            assert(v@.take(i as int).last() == v@[i - 1]);
            assert(layer_names_ops(pre.config_of(), v@.take(i as int), sep) == prev + sep_part + item);
            assert(self@ =~= pre@ + layer_names_ops(pre.config_of(), v@.take(i as int), sep));
        }
        assert(v@.take(i as int) =~= v@);
    }

    #[verifier::spinoff_prover]
    #[verifier::rlimit(40)]
    pub fn emit_layer_name_list(&mut self, n: &LayerNameList)
        ensures
            wrote(*old(self), *final(self), layer_name_list_ops(old(self).config_of(), *n)),
    {
        let ghost pre = *self;
        self.emit_layer_name_vec(&n.name_list, ListFormat { delim: ListDelim::Comma, multi_line: false });
        assert(self@ =~= pre@ + layer_name_list_ops(pre.config_of(), *n));
    }

    #[verifier::spinoff_prover]
    #[verifier::rlimit(40)]
    pub fn emit_layer_prelude(&mut self, n: &LayerPrelude)
        ensures
            wrote(*old(self), *final(self), layer_prelude_ops(old(self).config_of(), *n)),
    {
        let ghost pre = *self;
        match n {
            LayerPrelude::Name(l) => self.emit_layer_name(l),
            LayerPrelude::NameList(l) => self.emit_layer_name_list(l),
        }
        assert(self@ =~= pre@ + layer_prelude_ops(pre.config_of(), *n));
    }

    #[verifier::spinoff_prover]
    #[verifier::rlimit(40)]
    pub fn emit_media_feature_name(&mut self, n: &MediaFeatureName)
        ensures
            wrote(*old(self), *final(self), media_feature_name_ops(*n)),
    {
        let ghost pre = *self;
        match n {
            MediaFeatureName::Ident(i) => self.emit_ident(i),
        }
        assert(self@ =~= pre@ + media_feature_name_ops(*n));
    }

    #[verifier::spinoff_prover]
    #[verifier::rlimit(40)]
    pub fn emit_media_feature_value(&mut self, n: &MediaFeatureValue)
        ensures
            wrote(*old(self), *final(self), media_feature_value_ops(old(self).config_of(), *n)),
    {
        let ghost pre = *self;
        match n {
            MediaFeatureValue::Number(v) => self.emit_number(v),
            MediaFeatureValue::Dimension(v) => self.emit_dimension(v),
            MediaFeatureValue::Ident(v) => self.emit_ident(v),
            MediaFeatureValue::Ratio(v) => self.emit_ration(v),
        }
        assert(self@ =~= pre@ + media_feature_value_ops(pre.config_of(), *n));
    }

    #[verifier::spinoff_prover]
    #[verifier::rlimit(40)]
    pub fn emit_media_feature_plain(&mut self, n: &MediaFeaturePlain)
        ensures
            wrote(*old(self), *final(self), media_feature_plain_ops(old(self).config_of(), *n)),
    {
        let ghost pre = *self;
        self.emit_media_feature_name(&n.name);
        self.punct(":");
        self.formatting_space();
        self.emit_media_feature_value(&n.value);
        assert(self@ =~= pre@ + media_feature_plain_ops(pre.config_of(), *n));
    }

    #[verifier::spinoff_prover]
    #[verifier::rlimit(40)]
    pub fn emit_media_feature_boolean(&mut self, n: &MediaFeatureBoolean)
        ensures
            wrote(*old(self), *final(self), media_feature_boolean_ops(*n)),
    {
        let ghost pre = *self;
        self.emit_media_feature_name(&n.name);
        assert(self@ =~= pre@ + media_feature_boolean_ops(*n));
    }

    fn comparison(&mut self, v: MediaFeatureRangeComparison)
        ensures
            wrote(*old(self), *final(self), punct(comparison_str(v))),
    {
        let s = match v {
            MediaFeatureRangeComparison::Lt => "<",
            MediaFeatureRangeComparison::Le => "<=",
            MediaFeatureRangeComparison::Gt => ">",
            MediaFeatureRangeComparison::Ge => ">=",
            MediaFeatureRangeComparison::Eq => "=",
        };
        self.punct(s);
    }

    #[verifier::spinoff_prover]
    #[verifier::rlimit(40)]
    pub fn emit_media_feature_range(&mut self, n: &MediaFeatureRange)
        ensures
            wrote(*old(self), *final(self), media_feature_range_ops(old(self).config_of(), *n)),
    {
        let ghost pre = *self;
        self.emit_media_feature_value(&n.left);
        self.formatting_space();
        self.comparison(n.comparison);
        self.formatting_space();
        self.emit_media_feature_value(&n.right);
        assert(self@ =~= pre@ + media_feature_range_ops(pre.config_of(), *n));
    }

    #[verifier::spinoff_prover]
    #[verifier::rlimit(40)]
    pub fn emit_media_feature_range_interval(&mut self, n: &MediaFeatureRangeInterval)
        ensures
            wrote(*old(self), *final(self), media_feature_range_interval_ops(old(self).config_of(), *n)),
    {
        let ghost pre = *self;
        self.emit_media_feature_value(&n.left);
        self.formatting_space();
        self.comparison(n.left_comparison);
        self.formatting_space();
        self.emit_media_feature_name(&n.name);
        self.formatting_space();
        self.comparison(n.right_comparison);
        self.formatting_space();
        self.emit_media_feature_value(&n.right);
        assert(self@ =~= pre@ + media_feature_range_interval_ops(pre.config_of(), *n));
    }

    #[verifier::spinoff_prover]
    #[verifier::rlimit(40)]
    pub fn emit_media_feature(&mut self, n: &MediaFeature)
        ensures
            wrote(*old(self), *final(self), media_feature_ops(old(self).config_of(), *n)),
    {
        let ghost pre = *self;
        self.punct("(");
        match n {
            MediaFeature::Plain(f) => self.emit_media_feature_plain(f),
            MediaFeature::Boolean(f) => self.emit_media_feature_boolean(f),
            MediaFeature::Range(f) => self.emit_media_feature_range(f),
            MediaFeature::RangeInterval(f) => self.emit_media_feature_range_interval(f),
        }
        self.punct(")");
        assert(self@ =~= pre@ + media_feature_ops(pre.config_of(), *n));
    }

    #[verifier::spinoff_prover]
    #[verifier::rlimit(40)]
    pub fn emit_page_selector(&mut self, n: &PageSelector)
        ensures
            wrote(*old(self), *final(self), page_selector_ops(*n)),
    {
        let ghost pre = *self;
        if let Some(ident) = &n.ident {
            self.emit_ident(ident);
        }
        if let Some(pseudo) = &n.pseudo {
            self.punct(":");
            self.emit_ident(pseudo);
        }
        assert(self@ =~= pre@ + page_selector_ops(*n));
    }

    #[verifier::spinoff_prover]
    #[verifier::rlimit(60)]
    fn emit_page_selector_list(&mut self, v: &Vec<PageSelector>, f: ListFormat)
        ensures
            wrote(*old(self), *final(self), page_selectors_ops(v@, list_sep(old(self).config_of(), f))),
    {
        let ghost pre = *self;
        let ghost sep = list_sep(pre.config_of(), f);
        let mut i: usize = 0;
        while i < v.len()
            invariant
                i <= v.len(),
                sep == list_sep(pre.config_of(), f),
                wrote(pre, *self, page_selectors_ops(v@.take(i as int), sep)),
            decreases v.len() - i,
        {
            let ghost before = self@;
            let ghost prev = page_selectors_ops(v@.take(i as int), sep);
            if i != 0 {
                self.write_list_sep(f);
            }
            let ghost sep_part = sep_before_last(i + 1, sep);
            if i == 0 {
                proof {
                    lemma_laws_empty(pre.config_of());
                }
            }
            assert(self@ =~= before + sep_part);
            let ghost mid = self@;
            self.emit_page_selector(&v[i]);
            let ghost item = page_selector_ops(v@[i as int]);
            assert(self@ =~= mid + item);
            proof {
                lemma_laws_concat(pre.config_of(), prev, sep_part);
                lemma_laws_concat(pre.config_of(), prev + sep_part, item);
            }
            i = i + 1;
            assert(v@.take(i as int).drop_last() =~= v@.take(i - 1));
            assert(v@.take(i as int).last() == v@[i - 1]);
            assert(page_selectors_ops(v@.take(i as int), sep) == prev + sep_part + item);
            assert(self@ =~= pre@ + page_selectors_ops(v@.take(i as int), sep));
        }
        assert(v@.take(i as int) =~= v@);
    }

    #[verifier::spinoff_prover]
    #[verifier::rlimit(40)]
    pub fn emit_combinator(&mut self, n: &Combinator)
        ensures
            wrote(*old(self), *final(self), combinator_ops(*n)),
    {
        let ghost pre = *self;
        let s = match n.value {
            CombinatorValue::Descendant => " ",
            CombinatorValue::NextSibling => "+",
            CombinatorValue::Child => ">",
            CombinatorValue::LaterSibling => "~",
        };
        self.punct(s);
        assert(self@ =~= pre@ + combinator_ops(*n));
    }

    #[verifier::spinoff_prover]
    #[verifier::rlimit(40)]
    pub fn emit_nesting_selector(&mut self, n: &NestingSelector)
        ensures
            wrote(*old(self), *final(self), nesting_selector_ops(*n)),
    {
        let ghost pre = *self;
        self.punct("&");
        assert(self@ =~= pre@ + nesting_selector_ops(*n));
    }

    #[verifier::spinoff_prover]
    #[verifier::rlimit(40)]
    pub fn emit_type_selector(&mut self, n: &TypeSelector)
        ensures
            wrote(*old(self), *final(self), type_selector_ops(*n)),
    {
        let ghost pre = *self;
        if let Some(prefix) = &n.prefix {
            self.emit_ident(prefix);
            self.punct("|");
        }
        self.emit_ident(&n.name);
        assert(self@ =~= pre@ + type_selector_ops(*n));
    }

    #[verifier::spinoff_prover]
    #[verifier::rlimit(40)]
    pub fn emit_id_selector(&mut self, n: &IdSelector)
        ensures
            wrote(*old(self), *final(self), id_selector_ops(*n)),
    {
        let ghost pre = *self;
        self.punct("#");
        self.emit_ident(&n.text);
        assert(self@ =~= pre@ + id_selector_ops(*n));
    }

    #[verifier::spinoff_prover]
    #[verifier::rlimit(40)]
    pub fn emit_class_selector(&mut self, n: &ClassSelector)
        ensures
            wrote(*old(self), *final(self), class_selector_ops(*n)),
    {
        let ghost pre = *self;
        self.punct(".");
        self.emit_ident(&n.text);
        assert(self@ =~= pre@ + class_selector_ops(*n));
    }

    #[verifier::spinoff_prover]
    #[verifier::rlimit(40)]
    pub fn emit_at_selector(&mut self, n: &AtSelector)
        ensures
            wrote(*old(self), *final(self), at_selector_ops(*n)),
    {
        let ghost pre = *self;
        self.punct("@");
        self.emit_ident(&n.text);
        assert(self@ =~= pre@ + at_selector_ops(*n));
    }

    #[verifier::spinoff_prover]
    #[verifier::rlimit(40)]
    pub fn emit_attr_selector_value(&mut self, n: &AttrSelectorValue)
        ensures
            wrote(*old(self), *final(self), attr_selector_value_ops(old(self).config_of(), *n)),
    {
        let ghost pre = *self;
        match n {
            AttrSelectorValue::Str(s) => self.emit_str(s),
            AttrSelectorValue::Ident(i) => self.emit_ident(i),
        }
        assert(self@ =~= pre@ + attr_selector_value_ops(pre.config_of(), *n));
    }

    #[verifier::spinoff_prover]
    #[verifier::rlimit(40)]
    pub fn emit_attr_selector(&mut self, n: &AttrSelector)
        ensures
            wrote(*old(self), *final(self), attr_selector_ops(old(self).config_of(), *n)),
    {
        let ghost pre = *self;
        self.punct("[");
        if let Some(prefix) = &n.prefix {
            self.emit_ident(prefix);
            self.punct("|");
        }
        self.emit_ident(&n.name);
        if let Some(matcher) = n.matcher {
            let s = match matcher {
                AttrSelectorMatcher::Equals => "=",
                AttrSelectorMatcher::Tilde => "~=",
                AttrSelectorMatcher::Bar => "|=",
                AttrSelectorMatcher::Caret => "^=",
                AttrSelectorMatcher::Dollar => "$=",
                AttrSelectorMatcher::Asterisk => "*=",
            };
            self.punct(s);
        }
        if let Some(value) = &n.value {
            self.emit_attr_selector_value(value);
        }
        if let Some(m) = n.modifier {
            match &n.value {
                Some(AttrSelectorValue::Str(_)) => self.formatting_space(),
                Some(AttrSelectorValue::Ident(_)) => self.space(),
                None => {},
            }
            self.raw_char(m);
        }
        self.punct("]");
        assert(self@ =~= pre@ + attr_selector_ops(pre.config_of(), *n));
    }

    #[verifier::spinoff_prover]
    #[verifier::rlimit(40)]
    pub fn emit_an_plus_b(&mut self, n: &AnPlusB)
        ensures
            wrote(*old(self), *final(self), an_plus_b_ops(*n)),
    {
        let ghost pre = *self;
        if let Some(a_raw) = &n.a_raw {
            self.raw_at(n.span, a_raw.as_str());
            self.punct("n");
        }
        if let Some(b_raw) = &n.b_raw {
            self.raw_at(n.span, b_raw.as_str());
        }
        assert(self@ =~= pre@ + an_plus_b_ops(*n));
    }

    #[verifier::spinoff_prover]
    #[verifier::rlimit(40)]
    pub fn emit_nth_value(&mut self, n: &NthValue)
        ensures
            wrote(*old(self), *final(self), nth_value_ops(*n)),
    {
        let ghost pre = *self;
        match n {
            NthValue::AnPlusB(a) => self.emit_an_plus_b(a),
            NthValue::Ident(i) => self.emit_ident(i),
        }
        assert(self@ =~= pre@ + nth_value_ops(*n));
    }

    #[verifier::spinoff_prover]
    #[verifier::rlimit(40)]
    pub fn emit_pseudo_element_selector(&mut self, n: &PseudoElementSelector)
        ensures
            wrote(*old(self), *final(self), pseudo_element_selector_ops(*n)),
    {
        let ghost pre = *self;
        self.punct(":");
        self.punct(":");
        self.emit_ident(&n.name);
        if let Some(children) = &n.children {
            self.punct("(");
            self.emit_tokens(children);
            self.punct(")");
        }
        assert(self@ =~= pre@ + pseudo_element_selector_ops(*n));
    }

    /// Whether a delimiter goes between two neighbouring values.
    fn need_delim(&self, node: &Value, next: &Value) -> (r: bool)
        ensures
            r == value_need_delim(self.config_of(), *node, *next),
    {
        match node {
            Value::SimpleBlock(_) | Value::Function(_) | Value::Delimiter(_) | Value::Str(_)
            | Value::Url(_) | Value::Percent(_) => match next {
                Value::Delimiter(d) => match d.value {
                    DelimiterValue::Comma => false,
                    _ => !self.config.minify,
                },
                _ => !self.config.minify,
            },
            _ => match next {
                Value::SimpleBlock(_) | Value::Color(Color::HexColor(_)) => !self.config.minify,
                Value::Delimiter(_) => false,
                _ => true,
            },
        }
    }

    #[verifier::spinoff_prover]
    #[verifier::rlimit(40)]
    pub fn emit_value(&mut self, n: &Value)
        ensures
            wrote(*old(self), *final(self), value_ops(old(self).config_of(), old(self).ctx_of(), *n)),
        decreases n,
    {
        let ghost pre = *self;
        match n {
            Value::Function(v) => self.emit_function(v),
            Value::SimpleBlock(v) => self.emit_simple_block(v),
            Value::Dimension(v) => self.emit_dimension(v),
            Value::Number(v) => self.emit_number(v),
            Value::Percent(v) => self.emit_percent(v),
            Value::Ratio(v) => self.emit_ration(v),
            Value::Color(v) => self.emit_color(v),
            Value::Ident(v) => self.emit_ident(v),
            Value::DashedIdent(v) => self.emit_dashed_ident(v),
            Value::Str(v) => self.emit_str(v),
            Value::Bin(v) => self.emit_bin_value(v),
            Value::Tokens(v) => self.emit_tokens(v),
            Value::Url(v) => self.emit_url(v),
            Value::Delimiter(v) => self.emit_delimiter(v),
        }
        assert(self@ =~= pre@ + value_ops(pre.config_of(), pre.ctx_of(), *n));
    }

    #[verifier::spinoff_prover]
    #[verifier::rlimit(60)]
    fn emit_value_list(&mut self, v: &Vec<Value>, f: ListFormat)
        ensures
            wrote(*old(self), *final(self), values_ops(old(self).config_of(), old(self).ctx_of(), v@, list_sep(old(self).config_of(), f))),
        decreases v,
    {
        let ghost pre = *self;
        let ghost sep = list_sep(pre.config_of(), f);
        let mut i: usize = 0;
        while i < v.len()
            invariant
                i <= v.len(),
                sep == list_sep(pre.config_of(), f),
                wrote(pre, *self, values_ops(pre.config_of(), pre.ctx_of(), v@.take(i as int), sep)),
            decreases v.len() - i,
        {
            let ghost before = self@;
            let ghost prev = values_ops(pre.config_of(), pre.ctx_of(), v@.take(i as int), sep);
            if i != 0 {
                self.write_list_sep(f);
            }
            let ghost sep_part = sep_before_last(i + 1, sep);
            if i == 0 {
                proof {
                    lemma_laws_empty(pre.config_of());
                }
            }
            assert(self@ =~= before + sep_part);
            let ghost mid = self@;
            proof {
                assert(decreases_to!(v => v@[i as int]));
            }
            self.emit_value(&v[i]);
            let ghost item = value_ops(pre.config_of(), pre.ctx_of(), v@[i as int]);
            assert(self@ =~= mid + item);
            proof {
                lemma_laws_concat(pre.config_of(), prev, sep_part);
                lemma_laws_concat(pre.config_of(), prev + sep_part, item);
            }
            i = i + 1;
            assert(v@.take(i as int).drop_last() =~= v@.take(i - 1));
            assert(v@.take(i as int).last() == v@[i - 1]);
            assert(values_ops(pre.config_of(), pre.ctx_of(), v@.take(i as int), sep) == prev + sep_part + item);
            assert(self@ =~= pre@ + values_ops(pre.config_of(), pre.ctx_of(), v@.take(i as int), sep));
        }
        assert(v@.take(i as int) =~= v@);
    }

    /// A list of values where the delimiter between two neighbours depends
    /// on both (see [`value_need_delim`]).
    #[verifier::spinoff_prover]
    #[verifier::rlimit(60)]
    fn emit_list_values(&mut self, v: &Vec<Value>, d: ListDelim)
        ensures
            wrote(*old(self), *final(self), list_values_ops(old(self).config_of(), old(self).ctx_of(), v@, d)),
        decreases v,
    {
        let ghost pre = *self;
        let mut i: usize = 0;
        while i < v.len()
            invariant
                i <= v.len(),
                wrote(pre, *self, list_values_ops(pre.config_of(), pre.ctx_of(), v@.take(i as int), d)),
            decreases v.len() - i,
        {
            if i != 0 {
                let need = self.need_delim(&v[i - 1], &v[i]);
                if need {
                    self.write_delim(d);
                }
            }
            proof {
                assert(decreases_to!(v => v@[i as int]));
            }
            self.emit_value(&v[i]);
            i = i + 1;
            assert(v@.take(i as int).drop_last() =~= v@.take(i - 1));
            assert(self@ =~= pre@ + list_values_ops(pre.config_of(), pre.ctx_of(), v@.take(i as int), d));
        }
        assert(v@.take(i as int) =~= v@);
    }

    #[verifier::spinoff_prover]
    #[verifier::rlimit(40)]
    pub fn emit_function(&mut self, n: &Function)
        ensures
            wrote(*old(self), *final(self), function_ops(old(self).config_of(), old(self).ctx_of(), *n)),
        decreases n,
    {
        let ghost pre = *self;
        self.emit_ident(&n.name);
        self.punct("(");
        self.emit_list_values(&n.value, ListDelim::Space);
        self.punct(")");
        assert(self@ =~= pre@ + function_ops(pre.config_of(), pre.ctx_of(), *n));
    }

    #[verifier::spinoff_prover]
    #[verifier::rlimit(40)]
    pub fn emit_simple_block(&mut self, n: &SimpleBlock)
        ensures
            wrote(*old(self), *final(self), simple_block_ops(old(self).config_of(), old(self).ctx_of(), *n)),
        decreases n,
    {
        let ghost pre = *self;
        let (opening, ending) = match n.name {
            SimpleBlockName::SquareBracket => ('[', ']'),
            SimpleBlockName::Paren => ('(', ')'),
            SimpleBlockName::CurlyBrace => ('{', '}'),
        };
        self.raw_char(opening);
        let delim = if ending == ']' { ListDelim::Space } else { ListDelim::NotDelimited };
        self.emit_value_list(&n.value, ListFormat { delim, multi_line: false });
        self.raw_char(ending);
        assert(self@ =~= pre@ + simple_block_ops(pre.config_of(), pre.ctx_of(), *n));
    }

    #[verifier::spinoff_prover]
    #[verifier::rlimit(40)]
    pub fn emit_bin_value(&mut self, n: &BinValue)
        ensures
            wrote(*old(self), *final(self), bin_value_ops(old(self).config_of(), old(self).ctx_of(), *n)),
        decreases n,
    {
        let ghost pre = *self;
        self.emit_value(&n.left);
        let need_space = match n.op {
            BinOp::Add | BinOp::Sub => true,
            _ => false,
        };
        if need_space {
            self.space();
        } else {
            self.formatting_space();
        }
        let s = match n.op {
            BinOp::Add => "+",
            BinOp::Sub => "-",
            BinOp::Mul => "*",
            BinOp::Div => "/",
        };
        self.punct(s);
        if need_space {
            self.space();
        } else {
            self.formatting_space();
        }
        self.emit_value(&n.right);
        assert(self@ =~= pre@ + bin_value_ops(pre.config_of(), pre.ctx_of(), *n));
    }

    #[verifier::spinoff_prover]
    #[verifier::rlimit(40)]
    pub fn emit_url_modifier(&mut self, n: &UrlModifier)
        ensures
            wrote(*old(self), *final(self), url_modifier_ops(old(self).config_of(), old(self).ctx_of(), *n)),
        decreases n,
    {
        let ghost pre = *self;
        match n {
            UrlModifier::Ident(i) => self.emit_ident(i),
            UrlModifier::Function(f) => self.emit_function(f),
        }
        assert(self@ =~= pre@ + url_modifier_ops(pre.config_of(), pre.ctx_of(), *n));
    }

    #[verifier::spinoff_prover]
    #[verifier::rlimit(60)]
    fn emit_url_modifier_list(&mut self, v: &Vec<UrlModifier>, f: ListFormat)
        ensures
            wrote(*old(self), *final(self), url_modifiers_ops(old(self).config_of(), old(self).ctx_of(), v@, list_sep(old(self).config_of(), f))),
        decreases v,
    {
        let ghost pre = *self;
        let ghost sep = list_sep(pre.config_of(), f);
        let mut i: usize = 0;
        while i < v.len()
            invariant
                i <= v.len(),
                sep == list_sep(pre.config_of(), f),
                wrote(pre, *self, url_modifiers_ops(pre.config_of(), pre.ctx_of(), v@.take(i as int), sep)),
            decreases v.len() - i,
        {
            let ghost before = self@;
            let ghost prev = url_modifiers_ops(pre.config_of(), pre.ctx_of(), v@.take(i as int), sep);
            if i != 0 {
                self.write_list_sep(f);
            }
            let ghost sep_part = sep_before_last(i + 1, sep);
            if i == 0 {
                proof {
                    lemma_laws_empty(pre.config_of());
                }
            }
            assert(self@ =~= before + sep_part);
            let ghost mid = self@;
            proof {
                assert(decreases_to!(v => v@[i as int]));
            }
            self.emit_url_modifier(&v[i]);
            let ghost item = url_modifier_ops(pre.config_of(), pre.ctx_of(), v@[i as int]);
            assert(self@ =~= mid + item);
            proof {
                lemma_laws_concat(pre.config_of(), prev, sep_part);
                lemma_laws_concat(pre.config_of(), prev + sep_part, item);
            }
            i = i + 1;
            assert(v@.take(i as int).drop_last() =~= v@.take(i - 1));
            assert(v@.take(i as int).last() == v@[i - 1]);
            assert(url_modifiers_ops(pre.config_of(), pre.ctx_of(), v@.take(i as int), sep) == prev + sep_part + item);
            assert(self@ =~= pre@ + url_modifiers_ops(pre.config_of(), pre.ctx_of(), v@.take(i as int), sep));
        }
        assert(v@.take(i as int) =~= v@);
    }

    #[verifier::spinoff_prover]
    #[verifier::rlimit(40)]
    pub fn emit_url(&mut self, n: &Url)
        ensures
            wrote(*old(self), *final(self), url_ops(old(self).config_of(), old(self).ctx_of(), *n)),
        decreases n,
    {
        let ghost pre = *self;
        self.emit_ident(&n.name);
        self.punct("(");
        if let Some(value) = &n.value {
            self.emit_url_value(value);
        }
        if let Some(modifiers) = &n.modifiers {
            if modifiers.len() != 0 {
                self.formatting_space();
                self.emit_url_modifier_list(modifiers, ListFormat { delim: ListDelim::Space, multi_line: false });
            }
        }
        self.punct(")");
        assert(self@ =~= pre@ + url_ops(pre.config_of(), pre.ctx_of(), *n));
    }

    #[verifier::spinoff_prover]
    #[verifier::rlimit(40)]
    pub fn emit_declaration(&mut self, n: &Declaration)
        ensures
            wrote(*old(self), *final(self), declaration_ops(old(self).config_of(), old(self).ctx_of(), *n)),
        decreases n,
    {
        let ghost pre = *self;
        self.emit_declaration_name(&n.name);
        self.punct(":");
        let is_custom_property = match n.name {
            DeclarationName::DashedIdent(_) => true,
            DeclarationName::Ident(_) => false,
        };
        if is_custom_property {
            let empty_tokens = n.value.len() > 0 && match &n.value[0] {
                Value::Tokens(tokens) => tokens.tokens.len() == 0,
                _ => false,
            };
            if empty_tokens {
                self.space();
            } else {
                self.formatting_space();
            }
        } else {
            self.formatting_space();
        }
        if is_custom_property {
            self.emit_value_list(&n.value, ListFormat { delim: ListDelim::NotDelimited, multi_line: false });
        } else {
            self.emit_list_values(&n.value, ListDelim::Space);
        }
        if let Some(important) = &n.important {
            if !is_custom_property {
                self.formatting_space();
            }
            self.emit_important_flag(important);
        }
        if self.ctx.semi_after_property {
            self.punct(";");
        }
        assert(self@ =~= pre@ + declaration_ops(pre.config_of(), pre.ctx_of(), *n));
    }

    #[verifier::spinoff_prover]
    #[verifier::rlimit(40)]
    pub fn emit_declaration_block_item(&mut self, n: &DeclarationBlockItem)
        ensures
            wrote(*old(self), *final(self), declaration_block_item_ops(old(self).config_of(), old(self).ctx_of(), *n)),
        decreases n,
    {
        let ghost pre = *self;
        match n {
            DeclarationBlockItem::Declaration(d) => self.emit_declaration(d),
            DeclarationBlockItem::AtRule(a) => self.emit_at_rule(a),
            DeclarationBlockItem::Invalid(t) => self.emit_tokens(t),
        }
        assert(self@ =~= pre@ + declaration_block_item_ops(pre.config_of(), pre.ctx_of(), *n));
    }

    #[verifier::spinoff_prover]
    #[verifier::rlimit(60)]
    fn emit_block_item_list(&mut self, v: &Vec<DeclarationBlockItem>, f: ListFormat)
        ensures
            wrote(*old(self), *final(self), block_items_ops(old(self).config_of(), old(self).ctx_of(), v@, list_sep(old(self).config_of(), f))),
        decreases v,
    {
        let ghost pre = *self;
        let ghost sep = list_sep(pre.config_of(), f);
        let mut i: usize = 0;
        while i < v.len()
            invariant
                i <= v.len(),
                sep == list_sep(pre.config_of(), f),
                wrote(pre, *self, block_items_ops(pre.config_of(), pre.ctx_of(), v@.take(i as int), sep)),
            decreases v.len() - i,
        {
            let ghost before = self@;
            let ghost prev = block_items_ops(pre.config_of(), pre.ctx_of(), v@.take(i as int), sep);
            if i != 0 {
                self.write_list_sep(f);
            }
            let ghost sep_part = sep_before_last(i + 1, sep);
            if i == 0 {
                proof {
                    lemma_laws_empty(pre.config_of());
                }
            }
            assert(self@ =~= before + sep_part);
            let ghost mid = self@;
            proof {
                assert(decreases_to!(v => v@[i as int]));
            }
            self.emit_declaration_block_item(&v[i]);
            let ghost item = declaration_block_item_ops(pre.config_of(), pre.ctx_of(), v@[i as int]);
            assert(self@ =~= mid + item);
            proof {
                lemma_laws_concat(pre.config_of(), prev, sep_part);
                lemma_laws_concat(pre.config_of(), prev + sep_part, item);
            }
            i = i + 1;
            assert(v@.take(i as int).drop_last() =~= v@.take(i - 1));
            assert(v@.take(i as int).last() == v@[i - 1]);
            assert(block_items_ops(pre.config_of(), pre.ctx_of(), v@.take(i as int), sep) == prev + sep_part + item);
            assert(self@ =~= pre@ + block_items_ops(pre.config_of(), pre.ctx_of(), v@.take(i as int), sep));
        }
        assert(v@.take(i as int) =~= v@);
    }

    #[verifier::spinoff_prover]
    #[verifier::rlimit(40)]
    pub fn emit_block(&mut self, n: &Block)
        ensures
            wrote(*old(self), *final(self), block_ops(old(self).config_of(), old(self).ctx_of(), *n)),
        decreases n,
    {
        let ghost pre = *self;
        self.punct("{");
        let multi_line = !self.config.minify;
        self.emit_block_item_list(&n.value, ListFormat { delim: ListDelim::Semi, multi_line });
        self.punct("}");
        assert(self@ =~= pre@ + block_ops(pre.config_of(), pre.ctx_of(), *n));
    }

    #[verifier::spinoff_prover]
    #[verifier::rlimit(40)]
    pub fn emit_selector_list(&mut self, n: &SelectorList)
        ensures
            wrote(*old(self), *final(self), selector_list_ops(old(self).config_of(), old(self).ctx_of(), *n)),
        decreases n,
    {
        let ghost pre = *self;
        self.emit_complex_selector_list(&n.children, ListFormat { delim: ListDelim::Comma, multi_line: false });
        assert(self@ =~= pre@ + selector_list_ops(pre.config_of(), pre.ctx_of(), *n));
    }

    #[verifier::spinoff_prover]
    #[verifier::rlimit(60)]
    fn emit_complex_selector_list(&mut self, v: &Vec<ComplexSelector>, f: ListFormat)
        ensures
            wrote(*old(self), *final(self), complex_selectors_ops(old(self).config_of(), old(self).ctx_of(), v@, list_sep(old(self).config_of(), f))),
        decreases v,
    {
        let ghost pre = *self;
        let ghost sep = list_sep(pre.config_of(), f);
        let mut i: usize = 0;
        while i < v.len()
            invariant
                i <= v.len(),
                sep == list_sep(pre.config_of(), f),
                wrote(pre, *self, complex_selectors_ops(pre.config_of(), pre.ctx_of(), v@.take(i as int), sep)),
            decreases v.len() - i,
        {
            let ghost before = self@;
            let ghost prev = complex_selectors_ops(pre.config_of(), pre.ctx_of(), v@.take(i as int), sep);
            if i != 0 {
                self.write_list_sep(f);
            }
            let ghost sep_part = sep_before_last(i + 1, sep);
            if i == 0 {
                proof {
                    lemma_laws_empty(pre.config_of());
                }
            }
            assert(self@ =~= before + sep_part);
            let ghost mid = self@;
            proof {
                assert(decreases_to!(v => v@[i as int]));
            }
            self.emit_complex_selector(&v[i]);
            let ghost item = complex_selector_ops(pre.config_of(), pre.ctx_of(), v@[i as int]);
            assert(self@ =~= mid + item);
            proof {
                lemma_laws_concat(pre.config_of(), prev, sep_part);
                lemma_laws_concat(pre.config_of(), prev + sep_part, item);
            }
            i = i + 1;
            assert(v@.take(i as int).drop_last() =~= v@.take(i - 1));
            assert(v@.take(i as int).last() == v@[i - 1]);
            assert(complex_selectors_ops(pre.config_of(), pre.ctx_of(), v@.take(i as int), sep) == prev + sep_part + item);
            assert(self@ =~= pre@ + complex_selectors_ops(pre.config_of(), pre.ctx_of(), v@.take(i as int), sep));
        }
        assert(v@.take(i as int) =~= v@);
    }

    #[verifier::spinoff_prover]
    #[verifier::rlimit(60)]
    pub fn emit_complex_selector(&mut self, n: &ComplexSelector)
        ensures
            wrote(*old(self), *final(self), complex_selector_ops(old(self).config_of(), old(self).ctx_of(), *n)),
        decreases n,
    {
        let ghost pre = *self;
        let v = &n.children;
        let mut need_space = false;
        let mut i: usize = 0;
        while i < v.len()
            invariant
                i <= v.len(),
                v == n.children,
                need_space == (i > 0 && v@[i - 1] is CompoundSelector),
                wrote(pre, *self, complex_children_ops(pre.config_of(), pre.ctx_of(), v@.take(i as int))),
            decreases v.len() - i,
        {
            let node = &v[i];
            if let ComplexSelectorChildren::Combinator(..) = node {
                need_space = false;
            }
            if i != 0 && need_space {
                need_space = false;
                self.space();
            }
            if let ComplexSelectorChildren::CompoundSelector(..) = node {
                need_space = true;
            }
            proof {
                assert(decreases_to!(v => v@[i as int]));
            }
            self.emit_complex_selector_children(node);
            i = i + 1;
            assert(v@.take(i as int).drop_last() =~= v@.take(i - 1));
            assert(self@ =~= pre@ + complex_children_ops(pre.config_of(), pre.ctx_of(), v@.take(i as int)));
        }
        assert(v@.take(i as int) =~= v@);
    }

    #[verifier::spinoff_prover]
    #[verifier::rlimit(40)]
    pub fn emit_complex_selector_children(&mut self, n: &ComplexSelectorChildren)
        ensures
            wrote(*old(self), *final(self), complex_selector_children_ops(old(self).config_of(), old(self).ctx_of(), *n)),
        decreases n,
    {
        let ghost pre = *self;
        match n {
            ComplexSelectorChildren::CompoundSelector(s) => self.emit_compound_selector(s),
            ComplexSelectorChildren::Combinator(s) => self.emit_combinator(s),
        }
        assert(self@ =~= pre@ + complex_selector_children_ops(pre.config_of(), pre.ctx_of(), *n));
    }

    #[verifier::spinoff_prover]
    #[verifier::rlimit(40)]
    pub fn emit_compound_selector(&mut self, n: &CompoundSelector)
        ensures
            wrote(*old(self), *final(self), compound_selector_ops(old(self).config_of(), old(self).ctx_of(), *n)),
        decreases n,
    {
        let ghost pre = *self;
        if let Some(s) = &n.nesting_selector {
            self.emit_nesting_selector(s);
        }
        if let Some(s) = &n.type_selector {
            self.emit_type_selector(s);
        }
        self.emit_subclass_selector_list(&n.subclass_selectors, ListFormat { delim: ListDelim::NotDelimited, multi_line: false });
        assert(self@ =~= pre@ + compound_selector_ops(pre.config_of(), pre.ctx_of(), *n));
    }

    #[verifier::spinoff_prover]
    #[verifier::rlimit(60)]
    fn emit_subclass_selector_list(&mut self, v: &Vec<SubclassSelector>, f: ListFormat)
        ensures
            wrote(*old(self), *final(self), subclass_selectors_ops(old(self).config_of(), old(self).ctx_of(), v@, list_sep(old(self).config_of(), f))),
        decreases v,
    {
        let ghost pre = *self;
        let ghost sep = list_sep(pre.config_of(), f);
        let mut i: usize = 0;
        while i < v.len()
            invariant
                i <= v.len(),
                sep == list_sep(pre.config_of(), f),
                wrote(pre, *self, subclass_selectors_ops(pre.config_of(), pre.ctx_of(), v@.take(i as int), sep)),
            decreases v.len() - i,
        {
            let ghost before = self@;
            let ghost prev = subclass_selectors_ops(pre.config_of(), pre.ctx_of(), v@.take(i as int), sep);
            if i != 0 {
                self.write_list_sep(f);
            }
            let ghost sep_part = sep_before_last(i + 1, sep);
            if i == 0 {
                proof {
                    lemma_laws_empty(pre.config_of());
                }
            }
            assert(self@ =~= before + sep_part);
            let ghost mid = self@;
            proof {
                assert(decreases_to!(v => v@[i as int]));
            }
            self.emit_subclass_selector(&v[i]);
            let ghost item = subclass_selector_ops(pre.config_of(), pre.ctx_of(), v@[i as int]);
            assert(self@ =~= mid + item);
            proof {
                lemma_laws_concat(pre.config_of(), prev, sep_part);
                lemma_laws_concat(pre.config_of(), prev + sep_part, item);
            }
            i = i + 1;
            assert(v@.take(i as int).drop_last() =~= v@.take(i - 1));
            assert(v@.take(i as int).last() == v@[i - 1]);
            assert(subclass_selectors_ops(pre.config_of(), pre.ctx_of(), v@.take(i as int), sep) == prev + sep_part + item);
            assert(self@ =~= pre@ + subclass_selectors_ops(pre.config_of(), pre.ctx_of(), v@.take(i as int), sep));
        }
        assert(v@.take(i as int) =~= v@);
    }

    #[verifier::spinoff_prover]
    #[verifier::rlimit(40)]
    pub fn emit_subclass_selector(&mut self, n: &SubclassSelector)
        ensures
            wrote(*old(self), *final(self), subclass_selector_ops(old(self).config_of(), old(self).ctx_of(), *n)),
        decreases n,
    {
        let ghost pre = *self;
        match n {
            SubclassSelector::Id(s) => self.emit_id_selector(s),
            SubclassSelector::Class(s) => self.emit_class_selector(s),
            SubclassSelector::Attr(s) => self.emit_attr_selector(s),
            SubclassSelector::PseudoClass(s) => self.emit_pseudo_class_selector(s),
            SubclassSelector::PseudoElement(s) => self.emit_pseudo_element_selector(s),
            SubclassSelector::At(s) => self.emit_at_selector(s),
        }
        assert(self@ =~= pre@ + subclass_selector_ops(pre.config_of(), pre.ctx_of(), *n));
    }

    #[verifier::spinoff_prover]
    #[verifier::rlimit(40)]
    pub fn emit_pseudo_class_selector(&mut self, n: &PseudoClassSelector)
        ensures
            wrote(*old(self), *final(self), pseudo_class_selector_ops(old(self).config_of(), old(self).ctx_of(), *n)),
        decreases n,
    {
        let ghost pre = *self;
        self.punct(":");
        self.emit_ident(&n.name);
        if let Some(children) = &n.children {
            self.punct("(");
            self.emit_pseudo_selector_children(children);
            self.punct(")");
        }
        assert(self@ =~= pre@ + pseudo_class_selector_ops(pre.config_of(), pre.ctx_of(), *n));
    }

    #[verifier::spinoff_prover]
    #[verifier::rlimit(40)]
    pub fn emit_pseudo_selector_children(&mut self, n: &PseudoSelectorChildren)
        ensures
            wrote(*old(self), *final(self), pseudo_selector_children_ops(old(self).config_of(), old(self).ctx_of(), *n)),
        decreases n,
    {
        let ghost pre = *self;
        match n {
            PseudoSelectorChildren::Nth(v) => self.emit_nth(v),
            PseudoSelectorChildren::Tokens(v) => self.emit_tokens(v),
        }
        assert(self@ =~= pre@ + pseudo_selector_children_ops(pre.config_of(), pre.ctx_of(), *n));
    }

    #[verifier::spinoff_prover]
    #[verifier::rlimit(40)]
    pub fn emit_nth(&mut self, n: &Nth)
        ensures
            wrote(*old(self), *final(self), nth_ops(old(self).config_of(), old(self).ctx_of(), *n)),
        decreases n,
    {
        let ghost pre = *self;
        self.emit_nth_value(&n.nth);
        if let Some(l) = &n.selector_list {
            self.emit_selector_list(l);
        }
        assert(self@ =~= pre@ + nth_ops(pre.config_of(), pre.ctx_of(), *n));
    }

    #[verifier::spinoff_prover]
    #[verifier::rlimit(40)]
    pub fn emit_media_query_list(&mut self, n: &MediaQueryList)
        ensures
            wrote(*old(self), *final(self), media_query_list_ops(old(self).config_of(), *n)),
    {
        let ghost pre = *self;
        self.emit_media_query_vec(&n.queries, ListFormat { delim: ListDelim::Comma, multi_line: false });
        assert(self@ =~= pre@ + media_query_list_ops(pre.config_of(), *n));
    }

    #[verifier::spinoff_prover]
    #[verifier::rlimit(60)]
    fn emit_media_query_vec(&mut self, v: &Vec<MediaQuery>, f: ListFormat)
        ensures
            wrote(*old(self), *final(self), media_queries_ops(old(self).config_of(), v@, list_sep(old(self).config_of(), f))),
    {
        let ghost pre = *self;
        let ghost sep = list_sep(pre.config_of(), f);
        let mut i: usize = 0;
        while i < v.len()
            invariant
                i <= v.len(),
                sep == list_sep(pre.config_of(), f),
                wrote(pre, *self, media_queries_ops(pre.config_of(), v@.take(i as int), sep)),
            decreases v.len() - i,
        {
            let ghost before = self@;
            let ghost prev = media_queries_ops(pre.config_of(), v@.take(i as int), sep);
            if i != 0 {
                self.write_list_sep(f);
            }
            let ghost sep_part = sep_before_last(i + 1, sep);
            if i == 0 {
                proof {
                    lemma_laws_empty(pre.config_of());
                }
            }
            assert(self@ =~= before + sep_part);
            let ghost mid = self@;
            self.emit_media_query(&v[i]);
            let ghost item = media_query_ops(pre.config_of(), v@[i as int]);
            assert(self@ =~= mid + item);
            proof {
                lemma_laws_concat(pre.config_of(), prev, sep_part);
                lemma_laws_concat(pre.config_of(), prev + sep_part, item);
            }
            i = i + 1;
            assert(v@.take(i as int).drop_last() =~= v@.take(i - 1));
            assert(v@.take(i as int).last() == v@[i - 1]);
            assert(media_queries_ops(pre.config_of(), v@.take(i as int), sep) == prev + sep_part + item);
            assert(self@ =~= pre@ + media_queries_ops(pre.config_of(), v@.take(i as int), sep));
        }
        assert(v@.take(i as int) =~= v@);
    }

    #[verifier::spinoff_prover]
    #[verifier::rlimit(40)]
    pub fn emit_media_query(&mut self, n: &MediaQuery)
        ensures
            wrote(*old(self), *final(self), media_query_ops(old(self).config_of(), *n)),
    {
        let ghost pre = *self;
        if let Some(m) = &n.modifier {
            self.emit_ident(m);
            self.space();
        }
        if let Some(t) = &n.media_type {
            self.emit_ident(t);
            if n.condition.is_some() {
                self.space();
                self.keyword("and");
                self.space();
            }
        }
        if let Some(cond) = &n.condition {
            self.emit_media_condition_type(cond);
        }
        assert(self@ =~= pre@ + media_query_ops(pre.config_of(), *n));
    }

    #[verifier::spinoff_prover]
    #[verifier::rlimit(40)]
    pub fn emit_media_condition_type(&mut self, n: &MediaConditionType)
        ensures
            wrote(*old(self), *final(self), media_condition_type_ops(old(self).config_of(), *n)),
    {
        let ghost pre = *self;
        match n {
            MediaConditionType::All(m) => self.emit_media_condition(m),
            MediaConditionType::WithoutOr(m) => self.emit_media_condition_without_or(m),
        }
        assert(self@ =~= pre@ + media_condition_type_ops(pre.config_of(), *n));
    }

    #[verifier::spinoff_prover]
    #[verifier::rlimit(40)]
    pub fn emit_media_condition(&mut self, n: &MediaCondition)
        ensures
            wrote(*old(self), *final(self), media_condition_ops(old(self).config_of(), *n)),
        decreases n,
    {
        let ghost pre = *self;
        self.emit_media_all_type_list(&n.conditions);
        assert(self@ =~= pre@ + media_condition_ops(pre.config_of(), *n));
    }

    #[verifier::spinoff_prover]
    #[verifier::rlimit(60)]
    fn emit_media_all_type_list(&mut self, v: &Vec<MediaConditionAllType>)
        ensures
            wrote(*old(self), *final(self), media_all_types_ops(old(self).config_of(), v@)),
        decreases v,
    {
        let ghost pre = *self;
        let mut i: usize = 0;
        while i < v.len()
            invariant
                i <= v.len(),
                wrote(pre, *self, media_all_types_ops(pre.config_of(), v@.take(i as int))),
            decreases v.len() - i,
        {
            let ghost before = self@;
            let ghost prev = media_all_types_ops(pre.config_of(), v@.take(i as int));
            let ghost sep_part = Seq::<OpView>::empty();
            proof {
                lemma_laws_empty(pre.config_of());
            }
            assert(self@ =~= before + sep_part);
            let ghost mid = self@;
            proof {
                assert(decreases_to!(v => v@[i as int]));
            }
            self.emit_media_condition_all_type(&v[i]);
            let ghost item = media_condition_all_type_ops(pre.config_of(), v@[i as int]);
            assert(self@ =~= mid + item);
            proof {
                lemma_laws_concat(pre.config_of(), prev, sep_part);
                lemma_laws_concat(pre.config_of(), prev + sep_part, item);
            }
            i = i + 1;
            assert(v@.take(i as int).drop_last() =~= v@.take(i - 1));
            assert(v@.take(i as int).last() == v@[i - 1]);
            assert(media_all_types_ops(pre.config_of(), v@.take(i as int)) == prev + sep_part + item);
            assert(self@ =~= pre@ + media_all_types_ops(pre.config_of(), v@.take(i as int)));
        }
        assert(v@.take(i as int) =~= v@);
    }

    #[verifier::spinoff_prover]
    #[verifier::rlimit(40)]
    pub fn emit_media_condition_all_type(&mut self, n: &MediaConditionAllType)
        ensures
            wrote(*old(self), *final(self), media_condition_all_type_ops(old(self).config_of(), *n)),
        decreases n,
    {
        let ghost pre = *self;
        match n {
            MediaConditionAllType::Not(m) => self.emit_media_not(m),
            MediaConditionAllType::And(m) => self.emit_media_and(m),
            MediaConditionAllType::Or(m) => self.emit_media_or(m),
            MediaConditionAllType::MediaInParens(m) => self.emit_media_in_parens(m),
        }
        assert(self@ =~= pre@ + media_condition_all_type_ops(pre.config_of(), *n));
    }

    #[verifier::spinoff_prover]
    #[verifier::rlimit(40)]
    pub fn emit_media_condition_without_or(&mut self, n: &MediaConditionWithoutOr)
        ensures
            wrote(*old(self), *final(self), media_condition_without_or_ops(old(self).config_of(), *n)),
        decreases n,
    {
        let ghost pre = *self;
        self.emit_media_without_or_type_list(&n.conditions);
        assert(self@ =~= pre@ + media_condition_without_or_ops(pre.config_of(), *n));
    }

    #[verifier::spinoff_prover]
    #[verifier::rlimit(60)]
    fn emit_media_without_or_type_list(&mut self, v: &Vec<MediaConditionWithoutOrType>)
        ensures
            wrote(*old(self), *final(self), media_without_or_types_ops(old(self).config_of(), v@)),
        decreases v,
    {
        let ghost pre = *self;
        let mut i: usize = 0;
        while i < v.len()
            invariant
                i <= v.len(),
                wrote(pre, *self, media_without_or_types_ops(pre.config_of(), v@.take(i as int))),
            decreases v.len() - i,
        {
            let ghost before = self@;
            let ghost prev = media_without_or_types_ops(pre.config_of(), v@.take(i as int));
            let ghost sep_part = Seq::<OpView>::empty();
            proof {
                lemma_laws_empty(pre.config_of());
            }
            assert(self@ =~= before + sep_part);
            let ghost mid = self@;
            proof {
                assert(decreases_to!(v => v@[i as int]));
            }
            self.emit_media_condition_without_or_type(&v[i]);
            let ghost item = media_condition_without_or_type_ops(pre.config_of(), v@[i as int]);
            assert(self@ =~= mid + item);
            proof {
                lemma_laws_concat(pre.config_of(), prev, sep_part);
                lemma_laws_concat(pre.config_of(), prev + sep_part, item);
            }
            i = i + 1;
            assert(v@.take(i as int).drop_last() =~= v@.take(i - 1));
            assert(v@.take(i as int).last() == v@[i - 1]);
            assert(media_without_or_types_ops(pre.config_of(), v@.take(i as int)) == prev + sep_part + item);
            assert(self@ =~= pre@ + media_without_or_types_ops(pre.config_of(), v@.take(i as int)));
        }
        assert(v@.take(i as int) =~= v@);
    }

    #[verifier::spinoff_prover]
    #[verifier::rlimit(40)]
    pub fn emit_media_condition_without_or_type(&mut self, n: &MediaConditionWithoutOrType)
        ensures
            wrote(*old(self), *final(self), media_condition_without_or_type_ops(old(self).config_of(), *n)),
        decreases n,
    {
        let ghost pre = *self;
        match n {
            MediaConditionWithoutOrType::Not(m) => self.emit_media_not(m),
            MediaConditionWithoutOrType::And(m) => self.emit_media_and(m),
            MediaConditionWithoutOrType::MediaInParens(m) => self.emit_media_in_parens(m),
        }
        assert(self@ =~= pre@ + media_condition_without_or_type_ops(pre.config_of(), *n));
    }

    #[verifier::spinoff_prover]
    #[verifier::rlimit(40)]
    pub fn emit_media_not(&mut self, n: &MediaNot)
        ensures
            wrote(*old(self), *final(self), media_not_ops(old(self).config_of(), *n)),
        decreases n,
    {
        let ghost pre = *self;
        self.formatting_space();
        self.keyword("not");
        self.space();
        self.emit_media_in_parens(&n.condition);
        assert(self@ =~= pre@ + media_not_ops(pre.config_of(), *n));
    }

    #[verifier::spinoff_prover]
    #[verifier::rlimit(40)]
    pub fn emit_media_and(&mut self, n: &MediaAnd)
        ensures
            wrote(*old(self), *final(self), media_and_ops(old(self).config_of(), *n)),
        decreases n,
    {
        let ghost pre = *self;
        self.formatting_space();
        self.keyword("and");
        self.space();
        self.emit_media_in_parens(&n.condition);
        assert(self@ =~= pre@ + media_and_ops(pre.config_of(), *n));
    }

    #[verifier::spinoff_prover]
    #[verifier::rlimit(40)]
    pub fn emit_media_or(&mut self, n: &MediaOr)
        ensures
            wrote(*old(self), *final(self), media_or_ops(old(self).config_of(), *n)),
        decreases n,
    {
        let ghost pre = *self;
        self.formatting_space();
        self.keyword("or");
        self.space();
        self.emit_media_in_parens(&n.condition);
        assert(self@ =~= pre@ + media_or_ops(pre.config_of(), *n));
    }

    #[verifier::spinoff_prover]
    #[verifier::rlimit(40)]
    pub fn emit_media_in_parens(&mut self, n: &MediaInParens)
        ensures
            wrote(*old(self), *final(self), media_in_parens_ops(old(self).config_of(), *n)),
        decreases n,
    {
        let ghost pre = *self;
        match n {
            MediaInParens::MediaCondition(m) => {
                self.punct("(");
                self.emit_media_condition(m);
                self.punct(")");
            },
            MediaInParens::Feature(f) => self.emit_media_feature(f),
        }
        assert(self@ =~= pre@ + media_in_parens_ops(pre.config_of(), *n));
    }

    #[verifier::spinoff_prover]
    #[verifier::rlimit(40)]
    pub fn emit_supports_condition(&mut self, n: &SupportsCondition)
        ensures
            wrote(*old(self), *final(self), supports_condition_ops(old(self).config_of(), old(self).ctx_of(), *n)),
        decreases n,
    {
        let ghost pre = *self;
        self.emit_supports_type_list(&n.conditions);
        assert(self@ =~= pre@ + supports_condition_ops(pre.config_of(), pre.ctx_of(), *n));
    }

    #[verifier::spinoff_prover]
    #[verifier::rlimit(60)]
    fn emit_supports_type_list(&mut self, v: &Vec<SupportsConditionType>)
        ensures
            wrote(*old(self), *final(self), supports_types_ops(old(self).config_of(), old(self).ctx_of(), v@)),
        decreases v,
    {
        let ghost pre = *self;
        let mut i: usize = 0;
        while i < v.len()
            invariant
                i <= v.len(),
                wrote(pre, *self, supports_types_ops(pre.config_of(), pre.ctx_of(), v@.take(i as int))),
            decreases v.len() - i,
        {
            let ghost before = self@;
            let ghost prev = supports_types_ops(pre.config_of(), pre.ctx_of(), v@.take(i as int));
            let ghost sep_part = Seq::<OpView>::empty();
            proof {
                lemma_laws_empty(pre.config_of());
            }
            assert(self@ =~= before + sep_part);
            let ghost mid = self@;
            proof {
                assert(decreases_to!(v => v@[i as int]));
            }
            self.emit_supports_condition_type(&v[i]);
            let ghost item = supports_condition_type_ops(pre.config_of(), pre.ctx_of(), v@[i as int]);
            assert(self@ =~= mid + item);
            proof {
                lemma_laws_concat(pre.config_of(), prev, sep_part);
                lemma_laws_concat(pre.config_of(), prev + sep_part, item);
            }
            i = i + 1;
            assert(v@.take(i as int).drop_last() =~= v@.take(i - 1));
            assert(v@.take(i as int).last() == v@[i - 1]);
            assert(supports_types_ops(pre.config_of(), pre.ctx_of(), v@.take(i as int)) == prev + sep_part + item);
            assert(self@ =~= pre@ + supports_types_ops(pre.config_of(), pre.ctx_of(), v@.take(i as int)));
        }
        assert(v@.take(i as int) =~= v@);
    }

    #[verifier::spinoff_prover]
    #[verifier::rlimit(40)]
    pub fn emit_supports_condition_type(&mut self, n: &SupportsConditionType)
        ensures
            wrote(*old(self), *final(self), supports_condition_type_ops(old(self).config_of(), old(self).ctx_of(), *n)),
        decreases n,
    {
        let ghost pre = *self;
        match n {
            SupportsConditionType::Not(s) => self.emit_supports_not(s),
            SupportsConditionType::And(s) => self.emit_supports_and(s),
            SupportsConditionType::Or(s) => self.emit_support_or(s),
            SupportsConditionType::SupportsInParens(s) => self.emit_supports_in_parens(s),
        }
        assert(self@ =~= pre@ + supports_condition_type_ops(pre.config_of(), pre.ctx_of(), *n));
    }

    #[verifier::spinoff_prover]
    #[verifier::rlimit(40)]
    pub fn emit_supports_not(&mut self, n: &SupportsNot)
        ensures
            wrote(*old(self), *final(self), supports_not_ops(old(self).config_of(), old(self).ctx_of(), *n)),
        decreases n,
    {
        let ghost pre = *self;
        self.formatting_space();
        self.keyword("not");
        self.space();
        self.emit_supports_in_parens(&n.condition);
        assert(self@ =~= pre@ + supports_not_ops(pre.config_of(), pre.ctx_of(), *n));
    }

    #[verifier::spinoff_prover]
    #[verifier::rlimit(40)]
    pub fn emit_supports_and(&mut self, n: &SupportsAnd)
        ensures
            wrote(*old(self), *final(self), supports_and_ops(old(self).config_of(), old(self).ctx_of(), *n)),
        decreases n,
    {
        let ghost pre = *self;
        self.formatting_space();
        self.keyword("and");
        self.space();
        self.emit_supports_in_parens(&n.condition);
        assert(self@ =~= pre@ + supports_and_ops(pre.config_of(), pre.ctx_of(), *n));
    }

    #[verifier::spinoff_prover]
    #[verifier::rlimit(40)]
    pub fn emit_support_or(&mut self, n: &SupportsOr)
        ensures
            wrote(*old(self), *final(self), supports_or_ops(old(self).config_of(), old(self).ctx_of(), *n)),
        decreases n,
    {
        let ghost pre = *self;
        self.formatting_space();
        self.keyword("or");
        self.space();
        self.emit_supports_in_parens(&n.condition);
        assert(self@ =~= pre@ + supports_or_ops(pre.config_of(), pre.ctx_of(), *n));
    }

    #[verifier::spinoff_prover]
    #[verifier::rlimit(40)]
    pub fn emit_supports_in_parens(&mut self, n: &SupportsInParens)
        ensures
            wrote(*old(self), *final(self), supports_in_parens_ops(old(self).config_of(), old(self).ctx_of(), *n)),
        decreases n,
    {
        let ghost pre = *self;
        match n {
            SupportsInParens::SupportsCondition(s) => {
                self.punct("(");
                self.emit_supports_condition(s);
                self.punct(")");
            },
            SupportsInParens::Feature(f) => self.emit_supports_feature(f),
        }
        assert(self@ =~= pre@ + supports_in_parens_ops(pre.config_of(), pre.ctx_of(), *n));
    }

    #[verifier::spinoff_prover]
    #[verifier::rlimit(40)]
    pub fn emit_supports_feature(&mut self, n: &SupportsFeature)
        ensures
            wrote(*old(self), *final(self), supports_feature_ops(old(self).config_of(), old(self).ctx_of(), *n)),
        decreases n,
    {
        let ghost pre = *self;
        self.punct("(");
        match n {
            SupportsFeature::Declaration(d) => self.emit_declaration(d),
        }
        self.punct(")");
        assert(self@ =~= pre@ + supports_feature_ops(pre.config_of(), pre.ctx_of(), *n));
    }

    #[verifier::spinoff_prover]
    #[verifier::rlimit(40)]
    pub fn emit_stylesheet(&mut self, n: &Stylesheet)
        ensures
            wrote(*old(self), *final(self), stylesheet_ops(old(self).config_of(), old(self).ctx_of(), *n)),
        decreases n,
    {
        let ghost pre = *self;
        let multi_line = !self.config.minify;
        self.emit_rule_list(&n.rules, ListFormat { delim: ListDelim::NotDelimited, multi_line });
        assert(self@ =~= pre@ + stylesheet_ops(pre.config_of(), pre.ctx_of(), *n));
    }

    #[verifier::spinoff_prover]
    #[verifier::rlimit(60)]
    fn emit_rule_list(&mut self, v: &Vec<Rule>, f: ListFormat)
        ensures
            wrote(*old(self), *final(self), rules_ops(old(self).config_of(), old(self).ctx_of(), v@, list_sep(old(self).config_of(), f))),
        decreases v,
    {
        let ghost pre = *self;
        let ghost sep = list_sep(pre.config_of(), f);
        let mut i: usize = 0;
        while i < v.len()
            invariant
                i <= v.len(),
                sep == list_sep(pre.config_of(), f),
                wrote(pre, *self, rules_ops(pre.config_of(), pre.ctx_of(), v@.take(i as int), sep)),
            decreases v.len() - i,
        {
            let ghost before = self@;
            let ghost prev = rules_ops(pre.config_of(), pre.ctx_of(), v@.take(i as int), sep);
            if i != 0 {
                self.write_list_sep(f);
            }
            let ghost sep_part = sep_before_last(i + 1, sep);
            if i == 0 {
                proof {
                    lemma_laws_empty(pre.config_of());
                }
            }
            assert(self@ =~= before + sep_part);
            let ghost mid = self@;
            proof {
                assert(decreases_to!(v => v@[i as int]));
            }
            self.emit_rule(&v[i]);
            let ghost item = rule_ops(pre.config_of(), pre.ctx_of(), v@[i as int]);
            assert(self@ =~= mid + item);
            proof {
                lemma_laws_concat(pre.config_of(), prev, sep_part);
                lemma_laws_concat(pre.config_of(), prev + sep_part, item);
            }
            i = i + 1;
            assert(v@.take(i as int).drop_last() =~= v@.take(i - 1));
            assert(v@.take(i as int).last() == v@[i - 1]);
            assert(rules_ops(pre.config_of(), pre.ctx_of(), v@.take(i as int), sep) == prev + sep_part + item);
            assert(self@ =~= pre@ + rules_ops(pre.config_of(), pre.ctx_of(), v@.take(i as int), sep));
        }
        assert(v@.take(i as int) =~= v@);
    }

    #[verifier::spinoff_prover]
    #[verifier::rlimit(40)]
    pub fn emit_rule(&mut self, n: &Rule)
        ensures
            wrote(*old(self), *final(self), rule_ops(old(self).config_of(), old(self).ctx_of(), *n)),
        decreases n,
    {
        let ghost pre = *self;
        match n {
            Rule::QualifiedRule(r) => self.emit_qualified_rule(r),
            Rule::AtRule(r) => self.emit_at_rule(r),
            Rule::Invalid(t) => self.emit_tokens(t),
        }
        assert(self@ =~= pre@ + rule_ops(pre.config_of(), pre.ctx_of(), *n));
    }

    #[verifier::spinoff_prover]
    #[verifier::rlimit(40)]
    pub fn emit_qualified_rule(&mut self, n: &QualifiedRule)
        ensures
            wrote(*old(self), *final(self), qualified_rule_ops(old(self).config_of(), old(self).ctx_of(), *n)),
        decreases n,
    {
        let ghost pre = *self;
        self.emit_selector_list(&n.prelude);
        self.formatting_space();
        self.emit_block(&n.block);
        assert(self@ =~= pre@ + qualified_rule_ops(pre.config_of(), pre.ctx_of(), *n));
    }

    #[verifier::spinoff_prover]
    #[verifier::rlimit(40)]
    pub fn emit_at_rule(&mut self, n: &AtRule)
        ensures
            wrote(*old(self), *final(self), at_rule_ops(old(self).config_of(), old(self).ctx_of(), *n)),
        decreases n,
    {
        let ghost pre = *self;
        match n {
            AtRule::Charset(r) => self.emit_charset_rule(r),
            AtRule::Import(r) => self.emit_import_rule(r),
            AtRule::FontFace(r) => self.emit_font_face_rule(r),
            AtRule::Keyframes(r) => self.emit_keyframes_rule(r),
            AtRule::Layer(r) => self.emit_layer_rule(r),
            AtRule::Media(r) => self.emit_media_rule(r),
            AtRule::Supports(r) => self.emit_supports_rule(r),
            AtRule::Page(r) => self.emit_page_rule(r),
            AtRule::Namespace(r) => self.emit_namespace_rule(r),
            AtRule::Viewport(r) => self.emit_viewport_rule(r),
            AtRule::Document(r) => self.emit_document_rule(r),
            AtRule::ColorProfile(r) => self.emit_color_profile_rule(r),
            AtRule::Unknown(r) => self.emit_unknown_at_rule(r),
        }
        assert(self@ =~= pre@ + at_rule_ops(pre.config_of(), pre.ctx_of(), *n));
    }

    #[verifier::spinoff_prover]
    #[verifier::rlimit(40)]
    pub fn emit_charset_rule(&mut self, n: &CharsetRule)
        ensures
            wrote(*old(self), *final(self), charset_rule_ops(old(self).config_of(), *n)),
    {
        let ghost pre = *self;
        self.punct("@");
        self.keyword("charset");
        self.space();
        self.emit_str(&n.charset);
        self.punct(";");
        assert(self@ =~= pre@ + charset_rule_ops(pre.config_of(), *n));
    }

    #[verifier::spinoff_prover]
    #[verifier::rlimit(40)]
    pub fn emit_import_href(&mut self, n: &ImportHref)
        ensures
            wrote(*old(self), *final(self), import_href_ops(old(self).config_of(), old(self).ctx_of(), *n)),
        decreases n,
    {
        let ghost pre = *self;
        match n {
            ImportHref::Url(u) => self.emit_url(u),
            ImportHref::Str(s) => self.emit_str(s),
        }
        assert(self@ =~= pre@ + import_href_ops(pre.config_of(), pre.ctx_of(), *n));
    }

    #[verifier::spinoff_prover]
    #[verifier::rlimit(40)]
    pub fn emit_import_layer_name(&mut self, n: &ImportLayerName)
        ensures
            wrote(*old(self), *final(self), import_layer_name_ops(old(self).config_of(), old(self).ctx_of(), *n)),
        decreases n,
    {
        let ghost pre = *self;
        match n {
            ImportLayerName::Ident(i) => self.emit_ident(i),
            ImportLayerName::Function(f) => self.emit_function(f),
        }
        assert(self@ =~= pre@ + import_layer_name_ops(pre.config_of(), pre.ctx_of(), *n));
    }

    #[verifier::spinoff_prover]
    #[verifier::rlimit(40)]
    pub fn emit_import_supports_type(&mut self, n: &ImportSupportsType)
        ensures
            wrote(*old(self), *final(self), import_supports_type_ops(old(self).config_of(), old(self).ctx_of(), *n)),
        decreases n,
    {
        let ghost pre = *self;
        match n {
            ImportSupportsType::SupportsCondition(s) => self.emit_supports_condition(s),
            ImportSupportsType::Declaration(d) => self.emit_declaration(d),
        }
        assert(self@ =~= pre@ + import_supports_type_ops(pre.config_of(), pre.ctx_of(), *n));
    }

    #[verifier::spinoff_prover]
    #[verifier::rlimit(40)]
    fn emit_import_layer_part(&mut self, n: &ImportRule)
        ensures
            wrote(*old(self), *final(self), import_layer_part_ops(old(self).config_of(), old(self).ctx_of(), *n)),
    {
        let ghost pre = *self;
        if let Some(layer_name) = &n.layer_name {
            self.formatting_space();
            self.emit_import_layer_name(layer_name);
            if self.config.minify && (n.supports.is_some() || n.media.is_some()) {
                if let ImportLayerName::Ident(_) = layer_name {
                    self.space();
                }
            }
        }
        assert(self@ =~= pre@ + import_layer_part_ops(pre.config_of(), pre.ctx_of(), *n));
    }

    #[verifier::spinoff_prover]
    #[verifier::rlimit(40)]
    fn emit_import_supports_part(&mut self, n: &ImportRule)
        ensures
            wrote(*old(self), *final(self), import_supports_part_ops(old(self).config_of(), old(self).ctx_of(), *n)),
    {
        let ghost pre = *self;
        if let Some(supports) = &n.supports {
            self.formatting_space();
            self.keyword("supports");
            self.punct("(");
            self.emit_import_supports_type(supports);
            self.punct(")");
        }
        assert(self@ =~= pre@ + import_supports_part_ops(pre.config_of(), pre.ctx_of(), *n));
    }

    #[verifier::spinoff_prover]
    #[verifier::rlimit(40)]
    fn emit_import_media_part(&mut self, n: &ImportRule)
        ensures
            wrote(*old(self), *final(self), import_media_part_ops(old(self).config_of(), *n)),
    {
        let ghost pre = *self;
        if let Some(media) = &n.media {
            self.formatting_space();
            self.emit_media_query_list(media);
        }
        assert(self@ =~= pre@ + import_media_part_ops(pre.config_of(), *n));
    }

    #[verifier::spinoff_prover]
    #[verifier::rlimit(40)]
    pub fn emit_import_rule(&mut self, n: &ImportRule)
        ensures
            wrote(*old(self), *final(self), import_rule_ops(old(self).config_of(), old(self).ctx_of(), *n)),
    {
        let ghost pre = *self;
        let ghost c = pre.config_of();
        let ghost x = pre.ctx_of();
        self.punct("@");
        self.keyword("import");
        match n.href {
            ImportHref::Url(_) => self.space(),
            ImportHref::Str(_) => self.formatting_space(),
        }
        let ghost head = punct("@"@) + keyword("import"@) + (if n.href is Url { space() } else { fspace(c) });
        assert(self@ =~= pre@ + head);
        self.emit_import_href(&n.href);
        let ghost p1 = head + import_href_ops(c, x, n.href);
        assert(self@ =~= pre@ + p1);
        self.emit_import_layer_part(n);
        let ghost p2 = p1 + import_layer_part_ops(c, x, *n);
        assert(self@ =~= pre@ + p2);
        self.emit_import_supports_part(n);
        let ghost p3 = p2 + import_supports_part_ops(c, x, *n);
        assert(self@ =~= pre@ + p3);
        self.emit_import_media_part(n);
        let ghost p4 = p3 + import_media_part_ops(c, *n);
        assert(self@ =~= pre@ + p4);
        self.punct(";");
        assert(self@ =~= pre@ + (p4 + punct(";"@)));
        assert(p4 + punct(";"@) == import_rule_ops(c, x, *n));
        assert(self@ =~= pre@ + import_rule_ops(pre.config_of(), pre.ctx_of(), *n));
    }

    #[verifier::spinoff_prover]
    #[verifier::rlimit(40)]
    pub fn emit_font_face_rule(&mut self, n: &FontFaceRule)
        ensures
            wrote(*old(self), *final(self), font_face_rule_ops(old(self).config_of(), old(self).ctx_of(), *n)),
        decreases n,
    {
        let ghost pre = *self;
        self.punct("@");
        self.keyword("font-face");
        self.formatting_space();
        self.emit_block(&n.block);
        assert(self@ =~= pre@ + font_face_rule_ops(pre.config_of(), pre.ctx_of(), *n));
    }

    #[verifier::spinoff_prover]
    #[verifier::rlimit(40)]
    pub fn emit_keyframe_block(&mut self, n: &KeyframeBlock)
        ensures
            wrote(*old(self), *final(self), keyframe_block_ops(old(self).config_of(), old(self).ctx_of(), *n)),
        decreases n,
    {
        let ghost pre = *self;
        self.emit_keyframe_selector_list(&n.prelude, ListFormat { delim: ListDelim::Comma, multi_line: false });
        self.formatting_space();
        self.emit_block(&n.block);
        assert(self@ =~= pre@ + keyframe_block_ops(pre.config_of(), pre.ctx_of(), *n));
    }

    #[verifier::spinoff_prover]
    #[verifier::rlimit(60)]
    fn emit_keyframe_block_list(&mut self, v: &Vec<KeyframeBlock>, f: ListFormat)
        ensures
            wrote(*old(self), *final(self), keyframe_blocks_ops(old(self).config_of(), old(self).ctx_of(), v@, list_sep(old(self).config_of(), f))),
        decreases v,
    {
        let ghost pre = *self;
        let ghost sep = list_sep(pre.config_of(), f);
        let mut i: usize = 0;
        while i < v.len()
            invariant
                i <= v.len(),
                sep == list_sep(pre.config_of(), f),
                wrote(pre, *self, keyframe_blocks_ops(pre.config_of(), pre.ctx_of(), v@.take(i as int), sep)),
            decreases v.len() - i,
        {
            let ghost before = self@;
            let ghost prev = keyframe_blocks_ops(pre.config_of(), pre.ctx_of(), v@.take(i as int), sep);
            if i != 0 {
                self.write_list_sep(f);
            }
            let ghost sep_part = sep_before_last(i + 1, sep);
            if i == 0 {
                proof {
                    lemma_laws_empty(pre.config_of());
                }
            }
            assert(self@ =~= before + sep_part);
            let ghost mid = self@;
            proof {
                assert(decreases_to!(v => v@[i as int]));
            }
            self.emit_keyframe_block(&v[i]);
            let ghost item = keyframe_block_ops(pre.config_of(), pre.ctx_of(), v@[i as int]);
            assert(self@ =~= mid + item);
            proof {
                lemma_laws_concat(pre.config_of(), prev, sep_part);
                lemma_laws_concat(pre.config_of(), prev + sep_part, item);
            }
            i = i + 1;
            assert(v@.take(i as int).drop_last() =~= v@.take(i - 1));
            assert(v@.take(i as int).last() == v@[i - 1]);
            assert(keyframe_blocks_ops(pre.config_of(), pre.ctx_of(), v@.take(i as int), sep) == prev + sep_part + item);
            assert(self@ =~= pre@ + keyframe_blocks_ops(pre.config_of(), pre.ctx_of(), v@.take(i as int), sep));
        }
        assert(v@.take(i as int) =~= v@);
    }

    #[verifier::spinoff_prover]
    #[verifier::rlimit(40)]
    pub fn emit_keyframes_rule(&mut self, n: &KeyframesRule)
        ensures
            wrote(*old(self), *final(self), keyframes_rule_ops(old(self).config_of(), old(self).ctx_of(), *n)),
        decreases n,
    {
        let ghost pre = *self;
        self.punct("@");
        self.keyword("keyframes");
        match n.name {
            KeyframesName::Str(_) => self.formatting_space(),
            KeyframesName::CustomIdent(_) => self.space(),
        }
        self.emit_keyframes_name(&n.name);
        self.formatting_space();
        self.punct("{");
        self.formatting_newline();
        let multi_line = !self.config.minify;
        self.emit_keyframe_block_list(&n.blocks, ListFormat { delim: ListDelim::NotDelimited, multi_line });
        self.formatting_newline();
        self.punct("}");
        assert(self@ =~= pre@ + keyframes_rule_ops(pre.config_of(), pre.ctx_of(), *n));
    }

    #[verifier::spinoff_prover]
    #[verifier::rlimit(40)]
    pub fn emit_layer_rule(&mut self, n: &LayerRule)
        ensures
            wrote(*old(self), *final(self), layer_rule_ops(old(self).config_of(), old(self).ctx_of(), *n)),
        decreases n,
    {
        let ghost pre = *self;
        self.punct("@");
        self.keyword("layer");
        if let Some(prelude) = &n.prelude {
            self.space();
            self.emit_layer_prelude(prelude);
        } else {
            self.formatting_space();
        }
        if let Some(rules) = &n.rules {
            self.punct("{");
            let multi_line = !self.config.minify;
            self.emit_rule_list(rules, ListFormat { delim: ListDelim::NotDelimited, multi_line });
            self.punct("}");
        } else {
            self.punct(";");
        }
        assert(self@ =~= pre@ + layer_rule_ops(pre.config_of(), pre.ctx_of(), *n));
    }

    /// Whether `@media` must be followed by a space even when minified.
    fn media_need_space(m: &MediaQueryList) -> (r: bool)
        ensures
            r == media_need_space(*m),
    {
        if m.queries.len() > 0 {
            let q = &m.queries[0];
            if q.modifier.is_none() && q.media_type.is_none() {
                match &q.condition {
                    Some(MediaConditionType::All(mc)) => !(mc.conditions.len() > 0 && match &mc.conditions[0] {
                        MediaConditionAllType::MediaInParens(_) => true,
                        _ => false,
                    }),
                    _ => true,
                }
            } else {
                true
            }
        } else {
            true
        }
    }

    #[verifier::spinoff_prover]
    #[verifier::rlimit(40)]
    pub fn emit_media_rule(&mut self, n: &MediaRule)
        ensures
            wrote(*old(self), *final(self), media_rule_ops(old(self).config_of(), old(self).ctx_of(), *n)),
        decreases n,
    {
        let ghost pre = *self;
        self.punct("@");
        self.keyword("media");
        if let Some(media) = &n.media {
            if Self::media_need_space(media) {
                self.space();
            } else {
                self.formatting_space();
            }
            self.emit_media_query_list(media);
            self.formatting_space();
        } else {
            self.formatting_space();
        }
        self.punct("{");
        self.emit_rule_list(&n.rules, ListFormat { delim: ListDelim::NotDelimited, multi_line: true });
        self.punct("}");
        assert(self@ =~= pre@ + media_rule_ops(pre.config_of(), pre.ctx_of(), *n));
    }

    #[verifier::spinoff_prover]
    #[verifier::rlimit(40)]
    pub fn emit_supports_rule(&mut self, n: &SupportsRule)
        ensures
            wrote(*old(self), *final(self), supports_rule_ops(old(self).config_of(), old(self).ctx_of(), *n)),
        decreases n,
    {
        let ghost pre = *self;
        self.punct("@");
        self.keyword("supports");
        let first_in_parens = n.condition.conditions.len() > 0 && match &n.condition.conditions[0] {
            SupportsConditionType::SupportsInParens(_) => true,
            _ => false,
        };
        if first_in_parens {
            self.formatting_space();
        } else {
            self.space();
        }
        self.emit_supports_condition(&n.condition);
        self.formatting_space();
        self.punct("{");
        self.emit_rule_list(&n.rules, ListFormat { delim: ListDelim::NotDelimited, multi_line: false });
        self.punct("}");
        assert(self@ =~= pre@ + supports_rule_ops(pre.config_of(), pre.ctx_of(), *n));
    }

    #[verifier::spinoff_prover]
    #[verifier::rlimit(40)]
    pub fn emit_page_rule(&mut self, n: &PageRule)
        ensures
            wrote(*old(self), *final(self), page_rule_ops(old(self).config_of(), old(self).ctx_of(), *n)),
        decreases n,
    {
        let ghost pre = *self;
        self.punct("@");
        self.keyword("page");
        self.space();
        self.emit_page_selector_list(&n.prelude, ListFormat { delim: ListDelim::Comma, multi_line: false });
        self.emit_page_rule_block(&n.block);
        assert(self@ =~= pre@ + page_rule_ops(pre.config_of(), pre.ctx_of(), *n));
    }

    #[verifier::spinoff_prover]
    #[verifier::rlimit(40)]
    pub fn emit_page_rule_block(&mut self, n: &PageRuleBlock)
        ensures
            wrote(*old(self), *final(self), page_rule_block_ops(old(self).config_of(), old(self).ctx_of(), *n)),
        decreases n,
    {
        let ghost pre = *self;
        let ghost c = pre.config_of();
        let ghost x = pre.ctx_of();
        self.punct("{");
        self.formatting_newline();
        let ghost head = punct("{"@) + fnewline(c);
        assert(self@ =~= pre@ + head);
        self.increase_indent();
        let saved = self.ctx;
        self.ctx = Ctx { semi_after_property: true, ..self.ctx };
        let ghost inner_x = Ctx { semi_after_property: true, ..x };
        let ghost sep = list_sep(c, fmt(ListDelim::NotDelimited, true));
        let ghost mid = *self;
        self.emit_page_item_list(&n.items, ListFormat { delim: ListDelim::NotDelimited, multi_line: true });
        let ghost items = page_items_ops(c, inner_x, n.items@, sep);
        assert(self@ =~= mid@ + items);
        self.ctx = saved;
        self.formatting_newline();
        let ghost nl = fnewline(c);
        self.decrease_indent();
        self.punct("}");
        let ghost out = head + seq![OpView::IncreaseIndent] + items + nl + seq![OpView::DecreaseIndent] + punct("}"@);
        assert(self@ =~= pre@ + out);
        assert(out =~= page_rule_block_ops(c, x, *n));
        proof {
            lemma_laws_indented(c, items + nl);
            assert(out =~= head + (seq![OpView::IncreaseIndent] + (items + nl) + seq![OpView::DecreaseIndent]) + punct("}"@));
            lemma_laws_plain_op(c, OpView::Punct(None, "{"@));
            lemma_laws_plain_op(c, OpView::Punct(None, "}"@));
            if !c.minify {
                lemma_laws_newline(c);
            }
        }
        assert(self@ =~= pre@ + page_rule_block_ops(pre.config_of(), pre.ctx_of(), *n));
    }

    #[verifier::spinoff_prover]
    #[verifier::rlimit(60)]
    fn emit_page_item_list(&mut self, v: &Vec<PageRuleBlockItem>, f: ListFormat)
        ensures
            wrote(*old(self), *final(self), page_items_ops(old(self).config_of(), old(self).ctx_of(), v@, list_sep(old(self).config_of(), f))),
        decreases v,
    {
        let ghost pre = *self;
        let ghost sep = list_sep(pre.config_of(), f);
        let mut i: usize = 0;
        while i < v.len()
            invariant
                i <= v.len(),
                sep == list_sep(pre.config_of(), f),
                wrote(pre, *self, page_items_ops(pre.config_of(), pre.ctx_of(), v@.take(i as int), sep)),
            decreases v.len() - i,
        {
            let ghost before = self@;
            let ghost prev = page_items_ops(pre.config_of(), pre.ctx_of(), v@.take(i as int), sep);
            if i != 0 {
                self.write_list_sep(f);
            }
            let ghost sep_part = sep_before_last(i + 1, sep);
            if i == 0 {
                proof {
                    lemma_laws_empty(pre.config_of());
                }
            }
            assert(self@ =~= before + sep_part);
            let ghost mid = self@;
            proof {
                assert(decreases_to!(v => v@[i as int]));
            }
            self.emit_page_rule_block_item(&v[i]);
            let ghost item = page_rule_block_item_ops(pre.config_of(), pre.ctx_of(), v@[i as int]);
            assert(self@ =~= mid + item);
            proof {
                lemma_laws_concat(pre.config_of(), prev, sep_part);
                lemma_laws_concat(pre.config_of(), prev + sep_part, item);
            }
            i = i + 1;
            assert(v@.take(i as int).drop_last() =~= v@.take(i - 1));
            assert(v@.take(i as int).last() == v@[i - 1]);
            assert(page_items_ops(pre.config_of(), pre.ctx_of(), v@.take(i as int), sep) == prev + sep_part + item);
            assert(self@ =~= pre@ + page_items_ops(pre.config_of(), pre.ctx_of(), v@.take(i as int), sep));
        }
        assert(v@.take(i as int) =~= v@);
    }

    #[verifier::spinoff_prover]
    #[verifier::rlimit(40)]
    pub fn emit_page_rule_block_item(&mut self, n: &PageRuleBlockItem)
        ensures
            wrote(*old(self), *final(self), page_rule_block_item_ops(old(self).config_of(), old(self).ctx_of(), *n)),
        decreases n,
    {
        let ghost pre = *self;
        match n {
            PageRuleBlockItem::Declaration(d) => self.emit_declaration(d),
            PageRuleBlockItem::Nested(r) => self.emit_nested_page_rule(r),
        }
        assert(self@ =~= pre@ + page_rule_block_item_ops(pre.config_of(), pre.ctx_of(), *n));
    }

    #[verifier::spinoff_prover]
    #[verifier::rlimit(40)]
    pub fn emit_nested_page_rule(&mut self, n: &NestedPageRule)
        ensures
            wrote(*old(self), *final(self), nested_page_rule_ops(old(self).config_of(), old(self).ctx_of(), *n)),
        decreases n,
    {
        let ghost pre = *self;
        self.emit_complex_selector(&n.prelude);
        self.emit_page_rule_block(&n.block);
        assert(self@ =~= pre@ + nested_page_rule_ops(pre.config_of(), pre.ctx_of(), *n));
    }

    #[verifier::spinoff_prover]
    #[verifier::rlimit(40)]
    pub fn emit_namespace_uri(&mut self, n: &NamespaceUri)
        ensures
            wrote(*old(self), *final(self), namespace_uri_ops(old(self).config_of(), old(self).ctx_of(), *n)),
        decreases n,
    {
        let ghost pre = *self;
        match n {
            NamespaceUri::Url(u) => self.emit_url(u),
            NamespaceUri::Str(s) => self.emit_str(s),
        }
        assert(self@ =~= pre@ + namespace_uri_ops(pre.config_of(), pre.ctx_of(), *n));
    }

    #[verifier::spinoff_prover]
    #[verifier::rlimit(40)]
    pub fn emit_namespace_rule(&mut self, n: &NamespaceRule)
        ensures
            wrote(*old(self), *final(self), namespace_rule_ops(old(self).config_of(), old(self).ctx_of(), *n)),
        decreases n,
    {
        let ghost pre = *self;
        self.punct("@");
        self.keyword("namespace");
        let has_prefix = n.prefix.is_some();
        let is_uri_url = match n.uri {
            NamespaceUri::Url(_) => true,
            NamespaceUri::Str(_) => false,
        };
        if has_prefix || is_uri_url {
            self.space();
        } else {
            self.formatting_space();
        }
        if let Some(prefix) = &n.prefix {
            self.emit_ident(prefix);
            if is_uri_url {
                self.space();
            } else {
                self.formatting_space();
            }
        }
        self.emit_namespace_uri(&n.uri);
        self.punct(";");
        assert(self@ =~= pre@ + namespace_rule_ops(pre.config_of(), pre.ctx_of(), *n));
    }

    #[verifier::spinoff_prover]
    #[verifier::rlimit(40)]
    pub fn emit_viewport_rule(&mut self, n: &ViewportRule)
        ensures
            wrote(*old(self), *final(self), viewport_rule_ops(old(self).config_of(), old(self).ctx_of(), *n)),
        decreases n,
    {
        let ghost pre = *self;
        self.punct("@");
        self.keyword("viewport");
        self.formatting_space();
        self.emit_block(&n.block);
        assert(self@ =~= pre@ + viewport_rule_ops(pre.config_of(), pre.ctx_of(), *n));
    }

    #[verifier::spinoff_prover]
    #[verifier::rlimit(60)]
    fn emit_function_list(&mut self, v: &Vec<Function>, f: ListFormat)
        ensures
            wrote(*old(self), *final(self), functions_ops(old(self).config_of(), old(self).ctx_of(), v@, list_sep(old(self).config_of(), f))),
        decreases v,
    {
        let ghost pre = *self;
        let ghost sep = list_sep(pre.config_of(), f);
        let mut i: usize = 0;
        while i < v.len()
            invariant
                i <= v.len(),
                sep == list_sep(pre.config_of(), f),
                wrote(pre, *self, functions_ops(pre.config_of(), pre.ctx_of(), v@.take(i as int), sep)),
            decreases v.len() - i,
        {
            let ghost before = self@;
            let ghost prev = functions_ops(pre.config_of(), pre.ctx_of(), v@.take(i as int), sep);
            if i != 0 {
                self.write_list_sep(f);
            }
            let ghost sep_part = sep_before_last(i + 1, sep);
            if i == 0 {
                proof {
                    lemma_laws_empty(pre.config_of());
                }
            }
            assert(self@ =~= before + sep_part);
            let ghost mid = self@;
            proof {
                assert(decreases_to!(v => v@[i as int]));
            }
            self.emit_function(&v[i]);
            let ghost item = function_ops(pre.config_of(), pre.ctx_of(), v@[i as int]);
            assert(self@ =~= mid + item);
            proof {
                lemma_laws_concat(pre.config_of(), prev, sep_part);
                lemma_laws_concat(pre.config_of(), prev + sep_part, item);
            }
            i = i + 1;
            assert(v@.take(i as int).drop_last() =~= v@.take(i - 1));
            assert(v@.take(i as int).last() == v@[i - 1]);
            assert(functions_ops(pre.config_of(), pre.ctx_of(), v@.take(i as int), sep) == prev + sep_part + item);
            assert(self@ =~= pre@ + functions_ops(pre.config_of(), pre.ctx_of(), v@.take(i as int), sep));
        }
        assert(v@.take(i as int) =~= v@);
    }

    #[verifier::spinoff_prover]
    #[verifier::rlimit(40)]
    pub fn emit_document_rule(&mut self, n: &DocumentRule)
        ensures
            wrote(*old(self), *final(self), document_rule_ops(old(self).config_of(), old(self).ctx_of(), *n)),
        decreases n,
    {
        let ghost pre = *self;
        self.punct("@");
        self.keyword("document");
        self.space();
        self.emit_function_list(&n.selectors, ListFormat { delim: ListDelim::Comma, multi_line: false });
        self.formatting_space();
        self.punct("{");
        self.emit_rule_list(&n.block, ListFormat { delim: ListDelim::NotDelimited, multi_line: false });
        self.punct("}");
        assert(self@ =~= pre@ + document_rule_ops(pre.config_of(), pre.ctx_of(), *n));
    }

    #[verifier::spinoff_prover]
    #[verifier::rlimit(40)]
    pub fn emit_color_profile_rule(&mut self, n: &ColorProfileRule)
        ensures
            wrote(*old(self), *final(self), color_profile_rule_ops(old(self).config_of(), old(self).ctx_of(), *n)),
        decreases n,
    {
        let ghost pre = *self;
        self.punct("@");
        self.keyword("color-profile");
        self.space();
        self.emit_color_profile_name(&n.name);
        self.formatting_space();
        self.punct("{");
        self.emit_block_item_list(&n.block, ListFormat { delim: ListDelim::NotDelimited, multi_line: false });
        self.punct("}");
        assert(self@ =~= pre@ + color_profile_rule_ops(pre.config_of(), pre.ctx_of(), *n));
    }

    #[verifier::spinoff_prover]
    #[verifier::rlimit(40)]
    pub fn emit_unknown_at_rule(&mut self, n: &UnknownAtRule)
        ensures
            wrote(*old(self), *final(self), unknown_at_rule_ops(old(self).config_of(), old(self).ctx_of(), *n)),
        decreases n,
    {
        let ghost pre = *self;
        self.punct("@");
        self.emit_at_rule_name(&n.name);
        self.emit_value_list(&n.prelude, ListFormat { delim: ListDelim::NotDelimited, multi_line: false });
        if let Some(block) = &n.block {
            self.emit_simple_block(block);
        } else {
            self.punct(";");
        }
        assert(self@ =~= pre@ + unknown_at_rule_ops(pre.config_of(), pre.ctx_of(), *n));
    }

}

} // verus!
