use swc_css_codegen::ast::{
    AtRule, AtRuleName, Block, ClassSelector, Color, Combinator, CombinatorValue, ComplexSelector,
    ComplexSelectorChildren, CompoundSelector, Declaration, DeclarationBlockItem, DeclarationName,
    Delimiter, DelimiterValue, Dimension, Function, HexColor, Ident, ImportHref, ImportLayerName,
    ImportRule, ImportantFlag, KeyframeBlock, KeyframeSelector, KeyframesName, KeyframesRule,
    LayerName, LayerPrelude, LayerRule, MediaCondition, MediaConditionAllType, MediaConditionType,
    MediaFeature, MediaFeatureName, MediaFeaturePlain, MediaFeatureValue, MediaInParens,
    MediaQuery, MediaQueryList, MediaRule, NamespaceRule, NamespaceUri, Number, PageRule,
    PageRuleBlock, PageRuleBlockItem, PageSelector, Percent, QualifiedRule, Rule, SelectorList,
    SimpleBlock, SimpleBlockName, Str, Stylesheet, SubclassSelector, Token, Tokens, TypeSelector,
    Url, UrlValue, UrlValueRaw, Value, DashedIdent, AttrSelector, AttrSelectorMatcher,
    AttrSelectorValue, BinOp, BinValue, SupportsCondition, SupportsConditionType, SupportsFeature,
    SupportsInParens, SupportsRule, SupportsNot,
};
use swc_css_codegen::ast::{Span, TokenAndSpan};
use swc_css_codegen::{CodeGenerator, CodegenConfig, CssOp};

/// The source position that the test nodes carry.
const S: Span = Span { lo: 3, hi: 7 };

fn p(s: &str) -> CssOp {
    CssOp::Punct(None, s.to_string())
}

fn r(s: &str) -> CssOp {
    CssOp::Raw(None, s.to_string())
}

/// Raw text written with the position `S` of the node it came from.
fn rs(s: &str) -> CssOp {
    CssOp::Raw(Some(S), s.to_string())
}

fn ident(s: &str) -> Ident {
    Ident { span: S, raw: s.to_string() }
}

fn num(value: &str, raw: &str) -> Number {
    Number { span: S, value: value.to_string(), raw: raw.to_string() }
}

fn gen(minify: bool) -> CodeGenerator {
    CodeGenerator::new(CodegenConfig { minify })
}

fn decl(name: &str, value: Vec<Value>) -> Declaration {
    Declaration { name: DeclarationName::Ident(ident(name)), value, important: None }
}

fn class_rule(class: &str, items: Vec<DeclarationBlockItem>) -> QualifiedRule {
    QualifiedRule {
        prelude: SelectorList {
            children: vec![ComplexSelector {
                children: vec![ComplexSelectorChildren::CompoundSelector(CompoundSelector {
                    nesting_selector: None,
                    type_selector: None,
                    subclass_selectors: vec![SubclassSelector::Class(ClassSelector { text: ident(class) })],
                })],
            }],
        },
        block: Block { value: items },
    }
}

fn compound(name: &str) -> ComplexSelectorChildren {
    ComplexSelectorChildren::CompoundSelector(CompoundSelector {
        nesting_selector: None,
        type_selector: Some(TypeSelector { prefix: None, name: ident(name) }),
        subclass_selectors: vec![],
    })
}

#[test]
fn new_generator_has_no_output() {
    let g = gen(false);
    assert!(g.ops().is_empty());
}

#[test]
fn qualified_rule_plain() {
    let mut g = gen(false);
    let rule = class_rule(
        "a",
        vec![
            DeclarationBlockItem::Declaration(decl("color", vec![Value::Ident(ident("red"))])),
            DeclarationBlockItem::Declaration(decl("margin", vec![Value::Number(num("0", "0"))])),
        ],
    );
    g.emit_qualified_rule(&rule);
    assert_eq!(
        g.into_ops(),
        vec![
            p("."), rs("a"), CssOp::Space, p("{"),
            rs("color"), p(":"), CssOp::Space, rs("red"),
            p(";"), CssOp::Newline,
            rs("margin"), p(":"), CssOp::Space, rs("0"),
            p("}"),
        ]
    );
}

#[test]
fn qualified_rule_minified() {
    let mut g = gen(true);
    let rule = class_rule(
        "a",
        vec![
            DeclarationBlockItem::Declaration(decl("color", vec![Value::Ident(ident("red"))])),
            DeclarationBlockItem::Declaration(decl("margin", vec![Value::Number(num("0", "0.0"))])),
        ],
    );
    g.emit_qualified_rule(&rule);
    assert_eq!(
        g.into_ops(),
        vec![
            p("."), rs("a"), p("{"),
            rs("color"), p(":"), rs("red"),
            p(";"),
            rs("margin"), p(":"), rs("0"),
            p("}"),
        ]
    );
}

#[test]
fn stylesheet_rules_on_separate_lines_when_plain() {
    let sheet = Stylesheet {
        rules: vec![Rule::QualifiedRule(class_rule("a", vec![])), Rule::QualifiedRule(class_rule("b", vec![]))],
    };
    let mut g = gen(false);
    g.emit_stylesheet(&sheet);
    assert_eq!(
        g.into_ops(),
        vec![
            p("."), rs("a"), CssOp::Space, p("{"), p("}"),
            CssOp::Newline,
            p("."), rs("b"), CssOp::Space, p("{"), p("}"),
        ]
    );
    let mut m = gen(true);
    m.emit_stylesheet(&sheet);
    assert_eq!(m.into_ops(), vec![p("."), rs("a"), p("{"), p("}"), p("."), rs("b"), p("{"), p("}")]);
}

#[test]
fn number_minified_and_plain() {
    let mut g = gen(true);
    g.emit_number(&num("0.5", "0.50"));
    g.emit_number(&num("-0", "-0.0"));
    g.emit_number(&num("1000", "1000"));
    assert_eq!(g.into_ops(), vec![rs(".5"), rs("-0"), rs("1e3")]);
    let mut g = gen(false);
    g.emit_number(&num("0.5", "0.50"));
    assert_eq!(g.into_ops(), vec![rs("0.50")]);
}

#[test]
fn hex_color_minified_and_plain() {
    let c = Color::HexColor(HexColor { span: S, value: "FFFFFF".to_string(), raw: "FFFFFF".to_string() });
    let mut g = gen(true);
    g.emit_color(&c);
    assert_eq!(g.into_ops(), vec![p("#"), rs("fff")]);
    let mut g = gen(false);
    g.emit_color(&c);
    assert_eq!(g.into_ops(), vec![p("#"), rs("FFFFFF")]);
}

#[test]
fn str_minified_writes_value() {
    let s = Str { span: S, value: "a b".to_string(), raw: "'a b'".to_string() };
    let mut g = gen(true);
    g.emit_str(&s);
    assert_eq!(g.into_ops(), vec![CssOp::Str(Some(S), "a b".to_string())]);
    let mut g = gen(false);
    g.emit_str(&s);
    assert_eq!(g.into_ops(), vec![rs("'a b'")]);
}

#[test]
fn values_spaced_but_not_before_comma() {
    // `1px 2px, solid`
    let value = vec![
        Value::Dimension(Dimension { value: num("1", "1"), unit: ident("px") }),
        Value::Dimension(Dimension { value: num("2", "2"), unit: ident("px") }),
        Value::Delimiter(Delimiter { value: DelimiterValue::Comma }),
        Value::Ident(ident("solid")),
    ];
    let mut g = gen(false);
    g.emit_declaration(&decl("x", value));
    assert_eq!(
        g.into_ops(),
        vec![
            rs("x"), p(":"), CssOp::Space,
            rs("1"), rs("px"), CssOp::Space, rs("2"), rs("px"), p(","), CssOp::Space, rs("solid"),
        ]
    );
}

#[test]
fn function_values_minified() {
    // `rgba(1,2)`: after a delimiter, an identifier gets a space only when plain.
    let f = Function {
        name: ident("f"),
        value: vec![
            Value::Number(num("1", "1")),
            Value::Delimiter(Delimiter { value: DelimiterValue::Comma }),
            Value::Number(num("2", "2")),
        ],
    };
    let mut g = gen(true);
    g.emit_function(&f);
    assert_eq!(g.into_ops(), vec![rs("f"), p("("), rs("1"), p(","), rs("2"), p(")")]);
    let mut g = gen(false);
    g.emit_function(&f);
    assert_eq!(g.into_ops(), vec![rs("f"), p("("), rs("1"), p(","), CssOp::Space, rs("2"), p(")")]);
}

#[test]
fn custom_property_with_empty_tokens_keeps_space() {
    let d = Declaration {
        name: DeclarationName::DashedIdent(DashedIdent { span: S, raw: "--foo".to_string() }),
        value: vec![Value::Tokens(Tokens { span: S, tokens: vec![] })],
        important: None,
    };
    let mut g = gen(true);
    g.emit_declaration(&d);
    assert_eq!(g.into_ops(), vec![rs("--foo"), p(":"), CssOp::Space]);
}

#[test]
fn important_flag() {
    let mut d = decl("color", vec![Value::Ident(ident("red"))]);
    d.important = Some(ImportantFlag { value: ident("IMPORTANT") });
    let mut g = gen(false);
    g.emit_declaration(&d);
    assert_eq!(
        g.into_ops(),
        vec![rs("color"), p(":"), CssOp::Space, rs("red"), CssOp::Space, p("!"), rs("IMPORTANT")]
    );
    let mut g = gen(true);
    g.emit_declaration(&d);
    assert_eq!(g.into_ops(), vec![rs("color"), p(":"), rs("red"), p("!"), r("important")]);
}

#[test]
fn page_rule_declarations_end_with_semicolon() {
    let page = PageRule {
        prelude: vec![PageSelector { ident: None, pseudo: Some(ident("first")) }],
        block: PageRuleBlock {
            items: vec![PageRuleBlockItem::Declaration(Box::new(decl("margin", vec![Value::Number(num("1", "1"))])))],
        },
    };
    let mut g = gen(false);
    g.emit_page_rule(&page);
    let ops = g.into_ops();
    assert_eq!(
        ops,
        vec![
            p("@"), r("page"), CssOp::Space, p(":"), rs("first"),
            p("{"), CssOp::Newline, CssOp::IncreaseIndent,
            rs("margin"), p(":"), CssOp::Space, rs("1"), p(";"),
            CssOp::Newline, CssOp::DecreaseIndent, p("}"),
        ]
    );
    // Outside a page rule block the same declaration has no `;`.
    let mut g = gen(false);
    g.emit_declaration(&decl("margin", vec![Value::Number(num("1", "1"))]));
    assert_eq!(g.into_ops(), vec![rs("margin"), p(":"), CssOp::Space, rs("1")]);
}

#[test]
fn complex_selector_spaces_between_compounds_only() {
    let sel = ComplexSelector {
        children: vec![
            compound("a"),
            compound("b"),
            ComplexSelectorChildren::Combinator(Combinator { value: CombinatorValue::Child }),
            compound("c"),
        ],
    };
    let mut g = gen(true);
    g.emit_complex_selector(&sel);
    assert_eq!(g.into_ops(), vec![rs("a"), CssOp::Space, rs("b"), p(">"), rs("c")]);
}

#[test]
fn media_rule_space_depends_on_query() {
    let feature = MediaInParens::Feature(MediaFeature::Plain(MediaFeaturePlain {
        name: MediaFeatureName::Ident(ident("width")),
        value: MediaFeatureValue::Number(num("1", "1")),
    }));
    let rule = MediaRule {
        media: Some(MediaQueryList {
            queries: vec![MediaQuery {
                modifier: None,
                media_type: None,
                condition: Some(MediaConditionType::All(MediaCondition {
                    conditions: vec![MediaConditionAllType::MediaInParens(feature)],
                })),
            }],
        }),
        rules: vec![],
    };
    let mut g = gen(true);
    g.emit_media_rule(&rule);
    assert_eq!(
        g.into_ops(),
        vec![p("@"), r("media"), p("("), rs("width"), p(":"), rs("1"), p(")"), p("{"), p("}")]
    );
    let screen = MediaRule {
        media: Some(MediaQueryList {
            queries: vec![MediaQuery { modifier: None, media_type: Some(ident("screen")), condition: None }],
        }),
        rules: vec![],
    };
    let mut g = gen(true);
    g.emit_media_rule(&screen);
    assert_eq!(g.into_ops(), vec![p("@"), r("media"), CssOp::Space, rs("screen"), p("{"), p("}")]);
}

#[test]
fn import_rule_minified_layer_ident_then_media() {
    let rule = ImportRule {
        href: ImportHref::Url(Url {
            name: ident("url"),
            value: Some(UrlValue::Raw(UrlValueRaw {
                span: S,
                before: " ".to_string(),
                value: "a.css".to_string(),
                raw: "a.css".to_string(),
                after: " ".to_string(),
            })),
            modifiers: None,
        }),
        layer_name: Some(ImportLayerName::Ident(ident("layer"))),
        supports: None,
        media: Some(MediaQueryList {
            queries: vec![MediaQuery { modifier: None, media_type: Some(ident("print")), condition: None }],
        }),
    };
    let mut g = gen(true);
    g.emit_import_rule(&rule);
    assert_eq!(
        g.into_ops(),
        vec![
            p("@"), r("import"), CssOp::Space,
            rs("url"), p("("), rs("a.css"), p(")"),
            rs("layer"), CssOp::Space,
            rs("print"), p(";"),
        ]
    );
    let mut g = gen(false);
    g.emit_import_rule(&rule);
    assert_eq!(
        g.into_ops(),
        vec![
            p("@"), r("import"), CssOp::Space,
            rs("url"), p("("), rs(" "), rs("a.css"), rs(" "), p(")"),
            CssOp::Space, rs("layer"),
            CssOp::Space, rs("print"), p(";"),
        ]
    );
}

#[test]
fn keyframes_rule_plain() {
    let rule = KeyframesRule {
        name: KeyframesName::CustomIdent(swc_css_codegen::ast::CustomIdent { span: S, raw: "spin".to_string() }),
        blocks: vec![KeyframeBlock {
            prelude: vec![KeyframeSelector::Ident(ident("from")), KeyframeSelector::Percent(Percent { value: num("50", "50") })],
            block: Block { value: vec![] },
        }],
    };
    let mut g = gen(false);
    g.emit_keyframes_rule(&rule);
    assert_eq!(
        g.into_ops(),
        vec![
            p("@"), r("keyframes"), CssOp::Space, rs("spin"), CssOp::Space, p("{"), CssOp::Newline,
            rs("from"), p(","), CssOp::Space, rs("50"), p("%"), CssOp::Space, p("{"), p("}"),
            CssOp::Newline, p("}"),
        ]
    );
}

#[test]
fn layer_rule_statement_and_block() {
    let stmt = LayerRule {
        prelude: Some(LayerPrelude::Name(LayerName { name: vec![ident("a"), ident("b")] })),
        rules: None,
    };
    let mut g = gen(true);
    g.emit_layer_rule(&stmt);
    assert_eq!(g.into_ops(), vec![p("@"), r("layer"), CssOp::Space, rs("a"), p("."), rs("b"), p(";")]);
    let anon = LayerRule { prelude: None, rules: Some(vec![]) };
    let mut g = gen(false);
    g.emit_layer_rule(&anon);
    assert_eq!(g.into_ops(), vec![p("@"), r("layer"), CssOp::Space, p("{"), p("}")]);
}

#[test]
fn namespace_rule_spaces() {
    let rule = NamespaceRule {
        prefix: Some(ident("svg")),
        uri: NamespaceUri::Str(Str { span: S, value: "x".to_string(), raw: "\"x\"".to_string() }),
    };
    let mut g = gen(true);
    g.emit_namespace_rule(&rule);
    assert_eq!(
        g.into_ops(),
        vec![p("@"), r("namespace"), CssOp::Space, rs("svg"), CssOp::Str(Some(S), "x".to_string()), p(";")]
    );
}

#[test]
fn simple_block_square_is_space_delimited() {
    let b = SimpleBlock {
        name: SimpleBlockName::SquareBracket,
        value: vec![Value::Ident(ident("a")), Value::Ident(ident("b"))],
    };
    let mut g = gen(true);
    g.emit_simple_block(&b);
    assert_eq!(g.into_ops(), vec![CssOp::RawChar(None, '['), rs("a"), CssOp::Space, rs("b"), CssOp::RawChar(None, ']')]);
    let b = SimpleBlock {
        name: SimpleBlockName::Paren,
        value: vec![Value::Ident(ident("a")), Value::Ident(ident("b"))],
    };
    let mut g = gen(true);
    g.emit_simple_block(&b);
    assert_eq!(g.into_ops(), vec![CssOp::RawChar(None, '('), rs("a"), rs("b"), CssOp::RawChar(None, ')')]);
}

#[test]
fn tokens_written_in_order() {
    // Each token has its own position; the list as a whole has `S`.
    let at = |lo: u32, token: Token| TokenAndSpan { span: Span { lo, hi: lo + 1 }, token };
    let t = Tokens {
        span: S,
        tokens: vec![
            at(10, Token::Ident { raw: "a".to_string() }),
            at(11, Token::Colon),
            at(12, Token::WhiteSpace { value: " ".to_string() }),
            at(13, Token::Percent { raw: "5".to_string() }),
            at(14, Token::Url {
                raw_name: "url".to_string(),
                raw_value: "x".to_string(),
                before: "".to_string(),
                after: "".to_string(),
            }),
            at(15, Token::Delim { value: '*' }),
            at(16, Token::CDO),
            at(17, Token::Num { raw: "2".to_string() }),
        ],
    };
    let pos = |lo: u32| Some(Span { lo, hi: lo + 1 });
    let mut g = gen(false);
    g.emit_tokens(&t);
    assert_eq!(
        g.into_ops(),
        vec![
            rs("a"),
            CssOp::Punct(pos(11), ":".to_string()),
            r(" "),
            CssOp::Raw(pos(13), "5".to_string()), p("%"),
            r("url"), p("("), r(""), r("x"), r(""), p(")"),
            CssOp::RawChar(Some(S), '*'),
            CssOp::Punct(pos(16), "<!--".to_string()),
            CssOp::Raw(pos(17), "2".to_string()),
        ]
    );
}

#[test]
fn bin_value_spaces() {
    let add = BinValue {
        left: Box::new(Value::Number(num("1", "1"))),
        op: BinOp::Add,
        right: Box::new(Value::Number(num("2", "2"))),
    };
    let mut g = gen(true);
    g.emit_bin_value(&add);
    assert_eq!(g.into_ops(), vec![rs("1"), CssOp::Space, p("+"), CssOp::Space, rs("2")]);
    let mul = BinValue {
        left: Box::new(Value::Number(num("1", "1"))),
        op: BinOp::Mul,
        right: Box::new(Value::Number(num("2", "2"))),
    };
    let mut g = gen(true);
    g.emit_bin_value(&mul);
    assert_eq!(g.into_ops(), vec![rs("1"), p("*"), rs("2")]);
}

#[test]
fn attr_selector_with_modifier() {
    let a = AttrSelector {
        prefix: None,
        name: ident("href"),
        matcher: Some(AttrSelectorMatcher::Caret),
        value: Some(AttrSelectorValue::Ident(ident("x"))),
        modifier: Some('i'),
    };
    let mut g = gen(true);
    g.emit_attr_selector(&a);
    assert_eq!(
        g.into_ops(),
        vec![p("["), rs("href"), p("^="), rs("x"), CssOp::Space, CssOp::RawChar(None, 'i'), p("]")]
    );
}

#[test]
fn supports_rule_not() {
    let d = decl("display", vec![Value::Ident(ident("grid"))]);
    let rule = SupportsRule {
        condition: SupportsCondition {
            conditions: vec![SupportsConditionType::Not(SupportsNot {
                condition: SupportsInParens::Feature(SupportsFeature::Declaration(d)),
            })],
        },
        rules: vec![],
    };
    let mut g = gen(true);
    g.emit_supports_rule(&rule);
    assert_eq!(
        g.into_ops(),
        vec![
            p("@"), r("supports"), CssOp::Space,
            r("not"), CssOp::Space, p("("), rs("display"), p(":"), rs("grid"), p(")"),
            p("{"), p("}"),
        ]
    );
}

#[test]
fn unknown_at_rule_without_block() {
    let rule = swc_css_codegen::ast::UnknownAtRule {
        name: AtRuleName::Ident(ident("foo")),
        prelude: vec![Value::Ident(ident("bar"))],
        block: None,
    };
    let mut g = gen(false);
    g.emit_at_rule(&AtRule::Unknown(rule));
    assert_eq!(g.into_ops(), vec![p("@"), rs("foo"), rs("bar"), p(";")]);
}

#[test]
fn minified_output_has_no_newline() {
    let sheet = Stylesheet {
        rules: vec![
            Rule::QualifiedRule(class_rule(
                "a",
                vec![
                    DeclarationBlockItem::Declaration(decl("x", vec![Value::Ident(ident("y"))])),
                    DeclarationBlockItem::Declaration(decl("z", vec![Value::Ident(ident("w"))])),
                ],
            )),
            Rule::AtRule(AtRule::Page(PageRule {
                prelude: vec![],
                block: PageRuleBlock {
                    items: vec![PageRuleBlockItem::Declaration(Box::new(decl("m", vec![])))],
                },
            })),
        ],
    };
    let mut g = gen(true);
    g.emit_stylesheet(&sheet);
    let ops = g.into_ops();
    assert!(!ops.iter().any(|o| *o == CssOp::Newline));
    let ups = ops.iter().filter(|o| **o == CssOp::IncreaseIndent).count();
    let downs = ops.iter().filter(|o| **o == CssOp::DecreaseIndent).count();
    assert_eq!(ups, 1);
    assert_eq!(ups, downs);
}

#[test]
fn output_appends() {
    let mut g = gen(true);
    g.emit_ident(&ident("a"));
    g.emit_ident(&ident("b"));
    assert_eq!(g.ops().clone(), vec![rs("a"), rs("b")]);
}

#[test]
fn spans_follow_the_nodes() {
    let a = Span { lo: 20, hi: 25 };
    let n = Number { span: a, value: "0.5".to_string(), raw: "0.50".to_string() };
    let mut g = gen(true);
    g.emit_number(&n);
    let s = Str { span: a, value: "v".to_string(), raw: "'v'".to_string() };
    g.emit_str(&s);
    assert_eq!(
        g.into_ops(),
        vec![CssOp::Raw(Some(a), ".5".to_string()), CssOp::Str(Some(a), "v".to_string())]
    );
}

#[test]
fn token_lists_print_one_after_the_other() {
    let at = |lo: u32, token: Token| TokenAndSpan { span: Span { lo, hi: lo + 1 }, token };
    let first = || vec![at(1, Token::Ident { raw: "a".to_string() }), at(2, Token::Comma)];
    let second = || vec![at(3, Token::Num { raw: "1".to_string() }), at(4, Token::Semi)];
    let mut joined = first();
    joined.extend(second());
    let mut whole = gen(false);
    whole.emit_tokens(&Tokens { span: S, tokens: joined });
    let mut parts = gen(false);
    parts.emit_tokens(&Tokens { span: S, tokens: first() });
    parts.emit_tokens(&Tokens { span: S, tokens: second() });
    assert_eq!(whole.into_ops(), parts.into_ops());
    let mut none = gen(false);
    none.emit_tokens(&Tokens { span: S, tokens: vec![] });
    assert!(none.into_ops().is_empty());
}
