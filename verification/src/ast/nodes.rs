use vstd::prelude::*;
use vstd::string::StringExecFns;

verus! {

/// A one-based line and column in the input.
#[derive(Copy, Clone, Debug, PartialEq, Eq, Structural)]
pub struct Pos {
    pub line: usize,
    pub column: usize,
}

impl Pos {
    pub fn new(line: usize, column: usize) -> (pos: Pos)
        ensures
            pos == (Pos { line, column }),
    {
        Pos { line, column }
    }
}

impl DeepView for Pos {
    type V = Pos;

    open spec fn deep_view(&self) -> Pos {
        *self
    }
}

/// The span of a node: the position of its first character and the position
/// just after its last one.
#[derive(Copy, Clone, Debug, PartialEq, Eq, Structural)]
pub struct SourceInfo {
    pub start: Pos,
    pub end: Pos,
}

impl SourceInfo {
    pub fn new(start: Pos, end: Pos) -> (info: SourceInfo)
        ensures
            info == (SourceInfo { start, end }),
    {
        SourceInfo { start, end }
    }
}

impl DeepView for SourceInfo {
    type V = SourceInfo;

    open spec fn deep_view(&self) -> SourceInfo {
        *self
    }
}

/// A copy of `items`, made item by item.
pub fn clone_vec<T: Clone + DeepView>(items: &Vec<T>) -> (copy: Vec<T>)
    requires
        forall|a: T, b: T| vstd::pervasive::strictly_cloned(a, b) ==> b.deep_view() == a.deep_view(),
    ensures
        copy.deep_view() == items.deep_view(),
{
    let mut copy: Vec<T> = Vec::new();
    let mut i: usize = 0;
    while i < items.len()
        invariant
            i <= items.len(),
            copy@.len() == i,
            forall|a: T, b: T|
                vstd::pervasive::strictly_cloned(a, b) ==> b.deep_view() == a.deep_view(),
            forall|j: int| 0 <= j < i ==> copy@[j].deep_view() == items@[j].deep_view(),
        decreases items.len() - i,
    {
        let item = items[i].clone();
        assert(vstd::pervasive::strictly_cloned(items@[i as int], item));
        copy.push(item);
        i = i + 1;
    }
    assert(copy.deep_view() =~= items.deep_view());
    copy
}

/// A copy of `item`, where there is one.
pub fn clone_option<T: Clone + DeepView>(item: &Option<T>) -> (copy: Option<T>)
    requires
        forall|a: T, b: T| vstd::pervasive::strictly_cloned(a, b) ==> b.deep_view() == a.deep_view(),
    ensures
        copy.deep_view() == item.deep_view(),
{
    match item {
        Some(inner) => {
            let copy = inner.clone();
            assert(vstd::pervasive::strictly_cloned(*inner, copy));
            Some(copy)
        },
        None => None,
    }
}

/// A run of blank characters, kept so that the input can be reproduced.
#[derive(Debug, PartialEq, Eq)]
pub struct Whitespace {
    pub value: String,
    pub source_info: SourceInfo,
}

/// What a [`Whitespace`] holds, as mathematical values.
pub struct WhitespaceView {
    pub value: Seq<char>,
    pub source_info: SourceInfo,
}

impl DeepView for Whitespace {
    type V = WhitespaceView;

    open spec fn deep_view(&self) -> WhitespaceView {
        WhitespaceView {
            value: self.value@,
            source_info: self.source_info,
        }
    }
}

impl Clone for Whitespace {
    fn clone(&self) -> (copy: Self)
        ensures
            copy.deep_view() == self.deep_view(),
    {
        Whitespace {
            value: self.value.clone(),
            source_info: self.source_info,
        }
    }
}

/// What follows a `#` up to the end of the line.
#[derive(Debug, PartialEq, Eq)]
pub struct Comment {
    pub value: String,
    pub source_info: SourceInfo,
}

/// What a [`Comment`] holds, as mathematical values.
pub struct CommentView {
    pub value: Seq<char>,
    pub source_info: SourceInfo,
}

impl DeepView for Comment {
    type V = CommentView;

    open spec fn deep_view(&self) -> CommentView {
        CommentView {
            value: self.value@,
            source_info: self.source_info,
        }
    }
}

impl Clone for Comment {
    fn clone(&self) -> (copy: Self)
        ensures
            copy.deep_view() == self.deep_view(),
    {
        Comment {
            value: self.value.clone(),
            source_info: self.source_info,
        }
    }
}

/// The end of a line: blanks, a comment where there is one, and the line end.
#[derive(Debug, PartialEq, Eq)]
pub struct LineTerminator {
    pub space0: Whitespace,
    pub comment: Option<Comment>,
    pub newline: Whitespace,
}

/// What a [`LineTerminator`] holds, as mathematical values.
pub struct LineTerminatorView {
    pub space0: WhitespaceView,
    pub comment: Option<CommentView>,
    pub newline: WhitespaceView,
}

impl DeepView for LineTerminator {
    type V = LineTerminatorView;

    open spec fn deep_view(&self) -> LineTerminatorView {
        LineTerminatorView {
            space0: self.space0.deep_view(),
            comment: self.comment.deep_view(),
            newline: self.newline.deep_view(),
        }
    }
}

impl Clone for LineTerminator {
    fn clone(&self) -> (copy: Self)
        ensures
            copy.deep_view() == self.deep_view(),
    {
        LineTerminator {
            space0: self.space0.clone(),
            comment: clone_option(&self.comment),
            newline: self.newline.clone(),
        }
    }
}

/// The name of a variable, as it stands between `{{` and `}}`.
#[derive(Debug, PartialEq, Eq)]
pub struct Variable {
    pub name: String,
    pub source_info: SourceInfo,
}

/// What a [`Variable`] holds, as mathematical values.
pub struct VariableView {
    pub name: Seq<char>,
    pub source_info: SourceInfo,
}

impl DeepView for Variable {
    type V = VariableView;

    open spec fn deep_view(&self) -> VariableView {
        VariableView {
            name: self.name@,
            source_info: self.source_info,
        }
    }
}

impl Clone for Variable {
    fn clone(&self) -> (copy: Self)
        ensures
            copy.deep_view() == self.deep_view(),
    {
        Variable {
            name: self.name.clone(),
            source_info: self.source_info,
        }
    }
}

/// What stands between `{{` and `}}`: a variable, with the blanks around it.
#[derive(Debug, PartialEq, Eq)]
pub struct Expr {
    pub space0: Whitespace,
    pub variable: Variable,
    pub space1: Whitespace,
}

/// What an [`Expr`] holds, as mathematical values.
pub struct ExprView {
    pub space0: WhitespaceView,
    pub variable: VariableView,
    pub space1: WhitespaceView,
}

impl DeepView for Expr {
    type V = ExprView;

    open spec fn deep_view(&self) -> ExprView {
        ExprView {
            space0: self.space0.deep_view(),
            variable: self.variable.deep_view(),
            space1: self.space1.deep_view(),
        }
    }
}

impl Clone for Expr {
    fn clone(&self) -> (copy: Self)
        ensures
            copy.deep_view() == self.deep_view(),
    {
        Expr {
            space0: self.space0.clone(),
            variable: self.variable.clone(),
            space1: self.space1.clone(),
        }
    }
}

/// One piece of a template. A piece of text holds both what it means,
/// `value`, and how it was written, `encoded`.
#[derive(Debug, PartialEq, Eq)]
pub enum TemplateElement {
    String { value: String, encoded: String },
    Expression(Expr),
}

/// What a [`TemplateElement`] holds, as mathematical values.
pub enum TemplateElementView {
    String { value: Seq<char>, encoded: Seq<char> },
    Expression(ExprView),
}

impl DeepView for TemplateElement {
    type V = TemplateElementView;

    open spec fn deep_view(&self) -> TemplateElementView {
        match *self {
            TemplateElement::String { value, encoded } => TemplateElementView::String {
                value: value@,
                encoded: encoded@,
            },
            TemplateElement::Expression(inner) => TemplateElementView::Expression(inner.deep_view()),
        }
    }
}

impl Clone for TemplateElement {
    fn clone(&self) -> (copy: Self)
        ensures
            copy.deep_view() == self.deep_view(),
    {
        match self {
            TemplateElement::String { value, encoded } => TemplateElement::String {
                value: value.clone(),
                encoded: encoded.clone(),
            },
            TemplateElement::Expression(inner) => TemplateElement::Expression(inner.clone()),
        }
    }
}

/// A text with variables in it. The span covers the delimiters, where
/// there are any; the elements do not hold them.
#[derive(Debug, PartialEq, Eq)]
pub struct Template {
    pub delimiter: Option<char>,
    pub elements: Vec<TemplateElement>,
    pub source_info: SourceInfo,
}

/// What a [`Template`] holds, as mathematical values.
pub struct TemplateView {
    pub delimiter: Option<char>,
    pub elements: Seq<TemplateElementView>,
    pub source_info: SourceInfo,
}

impl DeepView for Template {
    type V = TemplateView;

    open spec fn deep_view(&self) -> TemplateView {
        TemplateView {
            delimiter: self.delimiter,
            elements: self.elements.deep_view(),
            source_info: self.source_info,
        }
    }
}

impl Clone for Template {
    fn clone(&self) -> (copy: Self)
        ensures
            copy.deep_view() == self.deep_view(),
    {
        Template {
            delimiter: self.delimiter,
            elements: clone_vec(&self.elements),
            source_info: self.source_info,
        }
    }
}

/// A text with what it means and how it was written.
#[derive(Debug, PartialEq, Eq)]
pub struct EncodedString {
    pub value: String,
    pub encoded: String,
    pub quotes: bool,
    pub source_info: SourceInfo,
}

/// What an [`EncodedString`] holds, as mathematical values.
pub struct EncodedStringView {
    pub value: Seq<char>,
    pub encoded: Seq<char>,
    pub quotes: bool,
    pub source_info: SourceInfo,
}

impl DeepView for EncodedString {
    type V = EncodedStringView;

    open spec fn deep_view(&self) -> EncodedStringView {
        EncodedStringView {
            value: self.value@,
            encoded: self.encoded@,
            quotes: self.quotes,
            source_info: self.source_info,
        }
    }
}

impl Clone for EncodedString {
    fn clone(&self) -> (copy: Self)
        ensures
            copy.deep_view() == self.deep_view(),
    {
        EncodedString {
            value: self.value.clone(),
            encoded: self.encoded.clone(),
            quotes: self.quotes,
            source_info: self.source_info,
        }
    }
}

/// The name of a file.
#[derive(Debug, PartialEq, Eq)]
pub struct Filename {
    pub value: String,
    pub source_info: SourceInfo,
}

/// What a [`Filename`] holds, as mathematical values.
pub struct FilenameView {
    pub value: Seq<char>,
    pub source_info: SourceInfo,
}

impl DeepView for Filename {
    type V = FilenameView;

    open spec fn deep_view(&self) -> FilenameView {
        FilenameView {
            value: self.value@,
            source_info: self.source_info,
        }
    }
}

impl Clone for Filename {
    fn clone(&self) -> (copy: Self)
        ensures
            copy.deep_view() == self.deep_view(),
    {
        Filename {
            value: self.value.clone(),
            source_info: self.source_info,
        }
    }
}

/// A number with a fraction, kept as the text that was read. Two of them
/// are equal when their texts are, so `1.10` and `1.1` differ.
#[derive(Debug, PartialEq, Eq)]
pub struct Float {
    pub encoded: String,
}

/// What a [`Float`] holds, as mathematical values.
pub struct FloatView {
    pub encoded: Seq<char>,
}

impl DeepView for Float {
    type V = FloatView;

    open spec fn deep_view(&self) -> FloatView {
        FloatView {
            encoded: self.encoded@,
        }
    }
}

impl Clone for Float {
    fn clone(&self) -> (copy: Self)
        ensures
            copy.deep_view() == self.deep_view(),
    {
        Float {
            encoded: self.encoded.clone(),
        }
    }
}

/// A number as it was written. An integer that does not fit 64 signed bits
/// is kept as its text.
#[derive(Debug, PartialEq, Eq)]
pub enum Number {
    Float(Float),
    Integer(i64),
    BigInteger(String),
}

/// What a [`Number`] holds, as mathematical values.
pub enum NumberView {
    Float(FloatView),
    Integer(i64),
    BigInteger(Seq<char>),
}

impl DeepView for Number {
    type V = NumberView;

    open spec fn deep_view(&self) -> NumberView {
        match *self {
            Number::Float(inner) => NumberView::Float(inner.deep_view()),
            Number::Integer(inner) => NumberView::Integer(inner),
            Number::BigInteger(inner) => NumberView::BigInteger(inner@),
        }
    }
}

impl Clone for Number {
    fn clone(&self) -> (copy: Self)
        ensures
            copy.deep_view() == self.deep_view(),
    {
        match self {
            Number::Float(inner) => Number::Float(inner.clone()),
            Number::Integer(inner) => Number::Integer(*inner),
            Number::BigInteger(inner) => Number::BigInteger(inner.clone()),
        }
    }
}

/// A regular expression that was written between slashes, kept as the text of
/// its pattern. Two of them are equal when their patterns are.
#[derive(Debug, PartialEq, Eq)]
pub struct Regex {
    pub pattern: String,
}

/// What a [`Regex`] holds, as mathematical values.
pub struct RegexView {
    pub pattern: Seq<char>,
}

impl DeepView for Regex {
    type V = RegexView;

    open spec fn deep_view(&self) -> RegexView {
        RegexView {
            pattern: self.pattern@,
        }
    }
}

impl Clone for Regex {
    fn clone(&self) -> (copy: Self)
        ensures
            copy.deep_view() == self.deep_view(),
    {
        Regex {
            pattern: self.pattern.clone(),
        }
    }
}

/// Bytes written in base 64.
#[derive(Debug, PartialEq, Eq)]
pub struct Base64 {
    pub space0: Whitespace,
    pub value: Vec<u8>,
    pub encoded: String,
    pub space1: Whitespace,
}

/// What a [`Base64`] holds, as mathematical values.
pub struct Base64View {
    pub space0: WhitespaceView,
    pub value: Seq<u8>,
    pub encoded: Seq<char>,
    pub space1: WhitespaceView,
}

impl DeepView for Base64 {
    type V = Base64View;

    open spec fn deep_view(&self) -> Base64View {
        Base64View {
            space0: self.space0.deep_view(),
            value: self.value@,
            encoded: self.encoded@,
            space1: self.space1.deep_view(),
        }
    }
}

impl Clone for Base64 {
    fn clone(&self) -> (copy: Self)
        ensures
            copy.deep_view() == self.deep_view(),
    {
        Base64 {
            space0: self.space0.clone(),
            value: self.value.clone(),
            encoded: self.encoded.clone(),
            space1: self.space1.clone(),
        }
    }
}

/// Bytes written in base 16.
#[derive(Debug, PartialEq, Eq)]
pub struct Hex {
    pub space0: Whitespace,
    pub value: Vec<u8>,
    pub encoded: String,
    pub space1: Whitespace,
}

/// What a [`Hex`] holds, as mathematical values.
pub struct HexView {
    pub space0: WhitespaceView,
    pub value: Seq<u8>,
    pub encoded: Seq<char>,
    pub space1: WhitespaceView,
}

impl DeepView for Hex {
    type V = HexView;

    open spec fn deep_view(&self) -> HexView {
        HexView {
            space0: self.space0.deep_view(),
            value: self.value@,
            encoded: self.encoded@,
            space1: self.space1.deep_view(),
        }
    }
}

impl Clone for Hex {
    fn clone(&self) -> (copy: Self)
        ensures
            copy.deep_view() == self.deep_view(),
    {
        Hex {
            space0: self.space0.clone(),
            value: self.value.clone(),
            encoded: self.encoded.clone(),
            space1: self.space1.clone(),
        }
    }
}

/// A reference to a file.
#[derive(Debug, PartialEq, Eq)]
pub struct File {
    pub space0: Whitespace,
    pub filename: Filename,
    pub space1: Whitespace,
}

/// What a [`File`] holds, as mathematical values.
pub struct FileView {
    pub space0: WhitespaceView,
    pub filename: FilenameView,
    pub space1: WhitespaceView,
}

impl DeepView for File {
    type V = FileView;

    open spec fn deep_view(&self) -> FileView {
        FileView {
            space0: self.space0.deep_view(),
            filename: self.filename.deep_view(),
            space1: self.space1.deep_view(),
        }
    }
}

impl Clone for File {
    fn clone(&self) -> (copy: Self)
        ensures
            copy.deep_view() == self.deep_view(),
    {
        File {
            space0: self.space0.clone(),
            filename: self.filename.clone(),
            space1: self.space1.clone(),
        }
    }
}

impl ExprView {
    /// The text that the expression was read from.
    pub open spec fn source(self) -> Seq<char> {
        self.space0.value + self.variable.name + self.space1.value
    }
}

impl TemplateElementView {
    /// The text that the element was read from.
    pub open spec fn source(self) -> Seq<char> {
        match self {
            TemplateElementView::String { value, encoded } => encoded,
            TemplateElementView::Expression(expr) => seq!['{', '{'] + expr.source() + seq![
                '}',
                '}',
            ],
        }
    }
}

/// The text that a sequence of template elements was read from.
pub open spec fn source_of(elements: Seq<TemplateElementView>) -> Seq<char>
    decreases elements.len(),
{
    if elements.len() == 0 {
        Seq::empty()
    } else {
        source_of(elements.drop_last()) + elements.last().source()
    }
}

impl Expr {
    /// The text that the expression was read from.
    pub fn encoded(&self) -> (text: String)
        ensures
            text@ == self.deep_view().source(),
    {
        let mut text = self.space0.value.clone();
        text.append(self.variable.name.as_str());
        text.append(self.space1.value.as_str());
        text
    }
}

impl TemplateElement {
    /// The text that the element was read from.
    pub fn encoded(&self) -> (text: String)
        ensures
            text@ == self.deep_view().source(),
    {
        match self {
            TemplateElement::String { value, encoded } => encoded.clone(),
            TemplateElement::Expression(expr) => {
                let mut text = String::new();
                text.push('{');
                text.push('{');
                text.append(expr.encoded().as_str());
                text.push('}');
                text.push('}');
                assert(text@ =~= seq!['{', '{'] + expr.deep_view().source() + seq!['}', '}']);
                text
            },
        }
    }
}

impl Template {
    /// The text that the template was read from, without its delimiters.
    pub fn encoded(&self) -> (text: String)
        ensures
            text@ == source_of(self.deep_view().elements),
    {
        let mut text = String::new();
        let mut i: usize = 0;
        let ghost elements = self.deep_view().elements;
        assert(elements.take(0) =~= Seq::empty());
        while i < self.elements.len()
            invariant
                i <= self.elements.len(),
                elements == self.deep_view().elements,
                text@ == source_of(elements.take(i as int)),
            decreases self.elements.len() - i,
        {
            text.append(self.elements[i].encoded().as_str());
            assert(elements.take(i + 1).drop_last() =~= elements.take(i as int));
            i = i + 1;
        }
        assert(elements.take(i as int) =~= elements);
        text
    }
}

} // verus!
