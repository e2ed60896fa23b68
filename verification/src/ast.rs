//! The CSS syntax tree that the code generator prints.
//!
//! Each node holds, as plain values, what printing reads of it: the raw
//! source texts, the normalised values, the structure, and the source
//! position of each node whose text the writer is told where it came from.

use vstd::prelude::*;

verus! {

// ------------------------------------------------------------------ atoms

/// A range of the source text, by byte offsets: where a node starts and
/// where it ends. The generator hands it to the writer with the text
/// written for the node, so that a writer can map output back to input.
#[derive(Clone, Copy, Debug, PartialEq, Eq)]
pub struct Span {
    pub lo: u32,
    pub hi: u32,
}

/// An identifier, printed as it was written.
#[derive(Debug, PartialEq)]
pub struct Ident {
    pub span: Span,
    pub raw: String,
}

/// A custom identifier (for example a keyframes name).
#[derive(Debug, PartialEq)]
pub struct CustomIdent {
    pub span: Span,
    pub raw: String,
}

/// An identifier that starts with two dashes.
#[derive(Debug, PartialEq)]
pub struct DashedIdent {
    pub span: Span,
    pub raw: String,
}

/// A quoted string: `value` is its content, `raw` the source text with quotes.
#[derive(Debug, PartialEq)]
pub struct Str {
    pub span: Span,
    pub value: String,
    pub raw: String,
}

/// A number: `value` is the decimal text of its value as Rust prints an
/// `f64` (`Display`), `raw` the source text.
#[derive(Debug, PartialEq)]
pub struct Number {
    pub span: Span,
    pub value: String,
    pub raw: String,
}

#[derive(Debug, PartialEq)]
pub struct Percent {
    pub value: Number,
}

#[derive(Debug, PartialEq)]
pub struct Dimension {
    pub value: Number,
    pub unit: Ident,
}

#[derive(Debug, PartialEq)]
pub struct Ratio {
    pub left: Number,
    pub right: Option<Number>,
}

/// A hex color such as `#FFAA00`: `value` is the text after `#`.
#[derive(Debug, PartialEq)]
pub struct HexColor {
    pub span: Span,
    pub value: String,
    pub raw: String,
}

#[derive(Debug, PartialEq)]
pub enum Color {
    HexColor(HexColor),
}

#[derive(Debug, Clone, Copy, PartialEq, Eq)]
pub enum DelimiterValue {
    /// `,`
    Comma,
    /// `/`
    Solidus,
    /// `;`
    Semicolon,
}

#[derive(Debug, PartialEq)]
pub struct Delimiter {
    pub value: DelimiterValue,
}

#[derive(Debug, Clone, Copy, PartialEq, Eq)]
pub enum BinOp {
    /// `+`
    Add,
    /// `-`
    Sub,
    /// `*`
    Mul,
    /// `/`
    Div,
}

/// One preserved token of a token list.
#[derive(Debug, PartialEq)]
pub enum Token {
    AtKeyword { raw: String },
    Delim { value: char },
    LParen,
    RParen,
    LBracket,
    RBracket,
    Num { raw: String },
    Percent { raw: String },
    Dimension { raw_value: String, raw_unit: String },
    Ident { raw: String },
    Function { raw: String },
    BadStr { raw: String },
    Str { raw: String },
    Url { raw_name: String, raw_value: String, before: String, after: String },
    BadUrl { raw_name: String, raw_value: String },
    Comma,
    Semi,
    LBrace,
    RBrace,
    Colon,
    Hash { raw: String },
    WhiteSpace { value: String },
    CDC,
    CDO,
}

/// A token with its source position.
#[derive(Debug, PartialEq)]
pub struct TokenAndSpan {
    pub span: Span,
    pub token: Token,
}

#[derive(Debug, PartialEq)]
pub struct Tokens {
    pub span: Span,
    pub tokens: Vec<TokenAndSpan>,
}

// ----------------------------------------------------------------- values

#[derive(Debug, PartialEq)]
pub struct Function {
    pub name: Ident,
    pub value: Vec<Value>,
}

/// The opening character of a simple block.
#[derive(Debug, Clone, Copy, PartialEq, Eq)]
pub enum SimpleBlockName {
    /// `[`
    SquareBracket,
    /// `(`
    Paren,
    /// `{`
    CurlyBrace,
}

#[derive(Debug, PartialEq)]
pub struct SimpleBlock {
    pub name: SimpleBlockName,
    pub value: Vec<Value>,
}

#[derive(Debug, PartialEq)]
pub struct BinValue {
    pub left: Box<Value>,
    pub op: BinOp,
    pub right: Box<Value>,
}

#[derive(Debug, PartialEq)]
pub struct UrlValueRaw {
    pub span: Span,
    pub before: String,
    pub value: String,
    pub raw: String,
    pub after: String,
}

#[derive(Debug, PartialEq)]
pub enum UrlValue {
    Raw(UrlValueRaw),
    Str(Str),
}

#[derive(Debug, PartialEq)]
pub enum UrlModifier {
    Ident(Ident),
    Function(Function),
}

#[derive(Debug, PartialEq)]
pub struct Url {
    pub name: Ident,
    pub value: Option<UrlValue>,
    pub modifiers: Option<Vec<UrlModifier>>,
}

#[derive(Debug, PartialEq)]
pub enum Value {
    Function(Function),
    SimpleBlock(SimpleBlock),
    Dimension(Dimension),
    Number(Number),
    Percent(Percent),
    Ratio(Ratio),
    Color(Color),
    Ident(Ident),
    DashedIdent(DashedIdent),
    Str(Str),
    Bin(BinValue),
    Tokens(Tokens),
    Url(Url),
    Delimiter(Delimiter),
}

// ----------------------------------------------------------- declarations

#[derive(Debug, PartialEq)]
pub enum DeclarationName {
    Ident(Ident),
    DashedIdent(DashedIdent),
}

#[derive(Debug, PartialEq)]
pub struct ImportantFlag {
    pub value: Ident,
}

#[derive(Debug, PartialEq)]
pub struct Declaration {
    pub name: DeclarationName,
    pub value: Vec<Value>,
    pub important: Option<ImportantFlag>,
}

#[derive(Debug, PartialEq)]
pub enum DeclarationBlockItem {
    Declaration(Declaration),
    AtRule(Box<AtRule>),
    Invalid(Tokens),
}

#[derive(Debug, PartialEq)]
pub struct Block {
    pub value: Vec<DeclarationBlockItem>,
}

// -------------------------------------------------------------- selectors

#[derive(Debug, PartialEq)]
pub struct SelectorList {
    pub children: Vec<ComplexSelector>,
}

#[derive(Debug, PartialEq)]
pub struct ComplexSelector {
    pub children: Vec<ComplexSelectorChildren>,
}

#[derive(Debug, PartialEq)]
pub enum ComplexSelectorChildren {
    CompoundSelector(CompoundSelector),
    Combinator(Combinator),
}

#[derive(Debug, PartialEq)]
pub struct CompoundSelector {
    pub nesting_selector: Option<NestingSelector>,
    pub type_selector: Option<TypeSelector>,
    pub subclass_selectors: Vec<SubclassSelector>,
}

#[derive(Debug, Clone, Copy, PartialEq, Eq)]
pub enum CombinatorValue {
    /// ` `
    Descendant,
    /// `+`
    NextSibling,
    /// `>`
    Child,
    /// `~`
    LaterSibling,
}

#[derive(Debug, PartialEq)]
pub struct Combinator {
    pub value: CombinatorValue,
}

/// The `&` selector.
#[derive(Debug, PartialEq)]
pub struct NestingSelector {}

#[derive(Debug, PartialEq)]
pub struct TypeSelector {
    pub prefix: Option<Ident>,
    pub name: Ident,
}

#[derive(Debug, PartialEq)]
pub enum SubclassSelector {
    Id(IdSelector),
    Class(ClassSelector),
    Attr(AttrSelector),
    PseudoClass(PseudoClassSelector),
    PseudoElement(PseudoElementSelector),
    At(AtSelector),
}

#[derive(Debug, PartialEq)]
pub struct IdSelector {
    pub text: Ident,
}

#[derive(Debug, PartialEq)]
pub struct ClassSelector {
    pub text: Ident,
}

#[derive(Debug, PartialEq)]
pub struct AtSelector {
    pub text: Ident,
}

#[derive(Debug, Clone, Copy, PartialEq, Eq)]
pub enum AttrSelectorMatcher {
    /// `=`
    Equals,
    /// `~=`
    Tilde,
    /// `|=`
    Bar,
    /// `^=`
    Caret,
    /// `$=`
    Dollar,
    /// `*=`
    Asterisk,
}

#[derive(Debug, PartialEq)]
pub enum AttrSelectorValue {
    Str(Str),
    Ident(Ident),
}

#[derive(Debug, PartialEq)]
pub struct AttrSelector {
    pub prefix: Option<Ident>,
    pub name: Ident,
    pub matcher: Option<AttrSelectorMatcher>,
    pub value: Option<AttrSelectorValue>,
    pub modifier: Option<char>,
}

#[derive(Debug, PartialEq)]
pub struct AnPlusB {
    pub span: Span,
    pub a_raw: Option<String>,
    pub b_raw: Option<String>,
}

#[derive(Debug, PartialEq)]
pub enum NthValue {
    AnPlusB(AnPlusB),
    Ident(Ident),
}

#[derive(Debug, PartialEq)]
pub struct Nth {
    pub nth: NthValue,
    pub selector_list: Option<SelectorList>,
}

#[derive(Debug, PartialEq)]
pub enum PseudoSelectorChildren {
    Nth(Nth),
    Tokens(Tokens),
}

#[derive(Debug, PartialEq)]
pub struct PseudoClassSelector {
    pub name: Ident,
    pub children: Option<PseudoSelectorChildren>,
}

#[derive(Debug, PartialEq)]
pub struct PseudoElementSelector {
    pub name: Ident,
    pub children: Option<Tokens>,
}

// ------------------------------------------------------------------ rules

#[derive(Debug, PartialEq)]
pub struct Stylesheet {
    pub rules: Vec<Rule>,
}

#[derive(Debug, PartialEq)]
pub enum Rule {
    QualifiedRule(QualifiedRule),
    AtRule(AtRule),
    Invalid(Tokens),
}

#[derive(Debug, PartialEq)]
pub struct QualifiedRule {
    pub prelude: SelectorList,
    pub block: Block,
}

#[derive(Debug, PartialEq)]
pub enum AtRule {
    Charset(CharsetRule),
    Import(ImportRule),
    FontFace(FontFaceRule),
    Keyframes(KeyframesRule),
    Layer(LayerRule),
    Media(MediaRule),
    Supports(SupportsRule),
    Page(PageRule),
    Namespace(NamespaceRule),
    Viewport(ViewportRule),
    Document(DocumentRule),
    ColorProfile(ColorProfileRule),
    Unknown(UnknownAtRule),
}

#[derive(Debug, PartialEq)]
pub struct CharsetRule {
    pub charset: Str,
}

#[derive(Debug, PartialEq)]
pub enum ImportHref {
    Url(Url),
    Str(Str),
}

#[derive(Debug, PartialEq)]
pub enum ImportLayerName {
    Ident(Ident),
    Function(Function),
}

#[derive(Debug, PartialEq)]
pub enum ImportSupportsType {
    SupportsCondition(SupportsCondition),
    Declaration(Declaration),
}

#[derive(Debug, PartialEq)]
pub struct ImportRule {
    pub href: ImportHref,
    pub layer_name: Option<ImportLayerName>,
    pub supports: Option<ImportSupportsType>,
    pub media: Option<MediaQueryList>,
}

#[derive(Debug, PartialEq)]
pub struct FontFaceRule {
    pub block: Block,
}

#[derive(Debug, PartialEq)]
pub enum KeyframesName {
    CustomIdent(CustomIdent),
    Str(Str),
}

#[derive(Debug, PartialEq)]
pub enum KeyframeSelector {
    Ident(Ident),
    Percent(Percent),
}

#[derive(Debug, PartialEq)]
pub struct KeyframeBlock {
    pub prelude: Vec<KeyframeSelector>,
    pub block: Block,
}

#[derive(Debug, PartialEq)]
pub struct KeyframesRule {
    pub name: KeyframesName,
    pub blocks: Vec<KeyframeBlock>,
}

#[derive(Debug, PartialEq)]
pub struct LayerName {
    pub name: Vec<Ident>,
}

#[derive(Debug, PartialEq)]
pub struct LayerNameList {
    pub name_list: Vec<LayerName>,
}

#[derive(Debug, PartialEq)]
pub enum LayerPrelude {
    Name(LayerName),
    NameList(LayerNameList),
}

#[derive(Debug, PartialEq)]
pub struct LayerRule {
    pub prelude: Option<LayerPrelude>,
    pub rules: Option<Vec<Rule>>,
}

#[derive(Debug, PartialEq)]
pub struct MediaRule {
    pub media: Option<MediaQueryList>,
    pub rules: Vec<Rule>,
}

#[derive(Debug, PartialEq)]
pub struct MediaQueryList {
    pub queries: Vec<MediaQuery>,
}

#[derive(Debug, PartialEq)]
pub struct MediaQuery {
    pub modifier: Option<Ident>,
    pub media_type: Option<Ident>,
    pub condition: Option<MediaConditionType>,
}

#[derive(Debug, PartialEq)]
pub enum MediaConditionType {
    All(MediaCondition),
    WithoutOr(MediaConditionWithoutOr),
}

#[derive(Debug, PartialEq)]
pub struct MediaCondition {
    pub conditions: Vec<MediaConditionAllType>,
}

#[derive(Debug, PartialEq)]
pub struct MediaConditionWithoutOr {
    pub conditions: Vec<MediaConditionWithoutOrType>,
}

#[derive(Debug, PartialEq)]
pub enum MediaConditionAllType {
    Not(MediaNot),
    And(MediaAnd),
    Or(MediaOr),
    MediaInParens(MediaInParens),
}

#[derive(Debug, PartialEq)]
pub enum MediaConditionWithoutOrType {
    Not(MediaNot),
    And(MediaAnd),
    MediaInParens(MediaInParens),
}

#[derive(Debug, PartialEq)]
pub struct MediaNot {
    pub condition: MediaInParens,
}

#[derive(Debug, PartialEq)]
pub struct MediaAnd {
    pub condition: MediaInParens,
}

#[derive(Debug, PartialEq)]
pub struct MediaOr {
    pub condition: MediaInParens,
}

#[derive(Debug, PartialEq)]
pub enum MediaInParens {
    MediaCondition(Box<MediaCondition>),
    Feature(MediaFeature),
}

#[derive(Debug, PartialEq)]
pub enum MediaFeature {
    Plain(MediaFeaturePlain),
    Boolean(MediaFeatureBoolean),
    Range(MediaFeatureRange),
    RangeInterval(MediaFeatureRangeInterval),
}

#[derive(Debug, PartialEq)]
pub enum MediaFeatureName {
    Ident(Ident),
}

#[derive(Debug, PartialEq)]
pub enum MediaFeatureValue {
    Number(Number),
    Dimension(Dimension),
    Ident(Ident),
    Ratio(Ratio),
}

#[derive(Debug, PartialEq)]
pub struct MediaFeaturePlain {
    pub name: MediaFeatureName,
    pub value: MediaFeatureValue,
}

#[derive(Debug, PartialEq)]
pub struct MediaFeatureBoolean {
    pub name: MediaFeatureName,
}

#[derive(Debug, Clone, Copy, PartialEq, Eq)]
pub enum MediaFeatureRangeComparison {
    /// `<`
    Lt,
    /// `<=`
    Le,
    /// `>`
    Gt,
    /// `>=`
    Ge,
    /// `=`
    Eq,
}

#[derive(Debug, PartialEq)]
pub struct MediaFeatureRange {
    pub left: MediaFeatureValue,
    pub comparison: MediaFeatureRangeComparison,
    pub right: MediaFeatureValue,
}

#[derive(Debug, PartialEq)]
pub struct MediaFeatureRangeInterval {
    pub left: MediaFeatureValue,
    pub left_comparison: MediaFeatureRangeComparison,
    pub name: MediaFeatureName,
    pub right_comparison: MediaFeatureRangeComparison,
    pub right: MediaFeatureValue,
}

#[derive(Debug, PartialEq)]
pub struct SupportsRule {
    pub condition: SupportsCondition,
    pub rules: Vec<Rule>,
}

#[derive(Debug, PartialEq)]
pub struct SupportsCondition {
    pub conditions: Vec<SupportsConditionType>,
}

#[derive(Debug, PartialEq)]
pub enum SupportsConditionType {
    Not(SupportsNot),
    And(SupportsAnd),
    Or(SupportsOr),
    SupportsInParens(SupportsInParens),
}

#[derive(Debug, PartialEq)]
pub struct SupportsNot {
    pub condition: SupportsInParens,
}

#[derive(Debug, PartialEq)]
pub struct SupportsAnd {
    pub condition: SupportsInParens,
}

#[derive(Debug, PartialEq)]
pub struct SupportsOr {
    pub condition: SupportsInParens,
}

#[derive(Debug, PartialEq)]
pub enum SupportsInParens {
    SupportsCondition(SupportsCondition),
    Feature(SupportsFeature),
}

#[derive(Debug, PartialEq)]
pub enum SupportsFeature {
    Declaration(Declaration),
}

#[derive(Debug, PartialEq)]
pub struct PageSelector {
    pub ident: Option<Ident>,
    pub pseudo: Option<Ident>,
}

#[derive(Debug, PartialEq)]
pub struct PageRule {
    pub prelude: Vec<PageSelector>,
    pub block: PageRuleBlock,
}

#[derive(Debug, PartialEq)]
pub struct PageRuleBlock {
    pub items: Vec<PageRuleBlockItem>,
}

#[derive(Debug, PartialEq)]
pub enum PageRuleBlockItem {
    Declaration(Box<Declaration>),
    Nested(Box<NestedPageRule>),
}

#[derive(Debug, PartialEq)]
pub struct NestedPageRule {
    pub prelude: ComplexSelector,
    pub block: PageRuleBlock,
}

#[derive(Debug, PartialEq)]
pub enum NamespaceUri {
    Url(Url),
    Str(Str),
}

#[derive(Debug, PartialEq)]
pub struct NamespaceRule {
    pub prefix: Option<Ident>,
    pub uri: NamespaceUri,
}

#[derive(Debug, PartialEq)]
pub struct ViewportRule {
    pub block: Block,
}

#[derive(Debug, PartialEq)]
pub struct DocumentRule {
    pub selectors: Vec<Function>,
    pub block: Vec<Rule>,
}

#[derive(Debug, PartialEq)]
pub enum ColorProfileName {
    Ident(Ident),
    DashedIdent(DashedIdent),
}

#[derive(Debug, PartialEq)]
pub struct ColorProfileRule {
    pub name: ColorProfileName,
    pub block: Vec<DeclarationBlockItem>,
}

#[derive(Debug, PartialEq)]
pub enum AtRuleName {
    Ident(Ident),
    DashedIdent(DashedIdent),
}

#[derive(Debug, PartialEq)]
pub struct UnknownAtRule {
    pub name: AtRuleName,
    pub prelude: Vec<Value>,
    pub block: Option<SimpleBlock>,
}

} // verus!
