use crate::ast::json::{JsonValue, JsonValueView};
use crate::ast::nodes::{clone_option, Template, TemplateView, Whitespace, WhitespaceView};
use vstd::prelude::*;

verus! {

/// The body of a fenced text: the blanks and the line end after the opening
/// fence, and the lines up to the closing one.
#[derive(Debug, PartialEq, Eq)]
pub struct Text {
    pub space: Whitespace,
    pub newline: Whitespace,
    pub value: Template,
}

/// What a [`Text`] holds, as mathematical values.
pub struct TextView {
    pub space: WhitespaceView,
    pub newline: WhitespaceView,
    pub value: TemplateView,
}

impl DeepView for Text {
    type V = TextView;

    open spec fn deep_view(&self) -> TextView {
        TextView {
            space: self.space.deep_view(),
            newline: self.newline.deep_view(),
            value: self.value.deep_view(),
        }
    }
}

impl Clone for Text {
    fn clone(&self) -> (copy: Self)
        ensures
            copy.deep_view() == self.deep_view(),
    {
        Text {
            space: self.space.clone(),
            newline: self.newline.clone(),
            value: self.value.clone(),
        }
    }
}

/// The variables of a GraphQL query: the word `variables` and a JSON object.
#[derive(Debug, PartialEq, Eq)]
pub struct GraphQlVariables {
    pub space: Whitespace,
    pub value: JsonValue,
    pub whitespace: Whitespace,
}

/// What a [`GraphQlVariables`] holds, as mathematical values.
pub struct GraphQlVariablesView {
    pub space: WhitespaceView,
    pub value: JsonValueView,
    pub whitespace: WhitespaceView,
}

impl DeepView for GraphQlVariables {
    type V = GraphQlVariablesView;

    open spec fn deep_view(&self) -> GraphQlVariablesView {
        GraphQlVariablesView {
            space: self.space.deep_view(),
            value: self.value.deep_view(),
            whitespace: self.whitespace.deep_view(),
        }
    }
}

impl Clone for GraphQlVariables {
    fn clone(&self) -> (copy: Self)
        ensures
            copy.deep_view() == self.deep_view(),
    {
        GraphQlVariables {
            space: self.space.clone(),
            value: self.value.clone(),
            whitespace: self.whitespace.clone(),
        }
    }
}

/// A fenced GraphQL query, with its variables where it has any.
#[derive(Debug, PartialEq, Eq)]
pub struct GraphQl {
    pub space: Whitespace,
    pub newline: Whitespace,
    pub value: Template,
    pub variables: Option<GraphQlVariables>,
}

/// What a [`GraphQl`] holds, as mathematical values.
pub struct GraphQlView {
    pub space: WhitespaceView,
    pub newline: WhitespaceView,
    pub value: TemplateView,
    pub variables: Option<GraphQlVariablesView>,
}

impl DeepView for GraphQl {
    type V = GraphQlView;

    open spec fn deep_view(&self) -> GraphQlView {
        GraphQlView {
            space: self.space.deep_view(),
            newline: self.newline.deep_view(),
            value: self.value.deep_view(),
            variables: self.variables.deep_view(),
        }
    }
}

impl Clone for GraphQl {
    fn clone(&self) -> (copy: Self)
        ensures
            copy.deep_view() == self.deep_view(),
    {
        GraphQl {
            space: self.space.clone(),
            newline: self.newline.clone(),
            value: self.value.clone(),
            variables: clone_option(&self.variables),
        }
    }
}

/// A text between two fences of three backticks, in one of its dialects.
#[derive(Debug, PartialEq, Eq)]
pub enum MultilineString {
    OneLineText(Template),
    Text(Text),
    Json(Text),
    Xml(Text),
    GraphQl(GraphQl),
}

/// What a [`MultilineString`] holds, as mathematical values.
pub enum MultilineStringView {
    OneLineText(TemplateView),
    Text(TextView),
    Json(TextView),
    Xml(TextView),
    GraphQl(GraphQlView),
}

impl DeepView for MultilineString {
    type V = MultilineStringView;

    open spec fn deep_view(&self) -> MultilineStringView {
        match *self {
            MultilineString::OneLineText(inner) => MultilineStringView::OneLineText(inner.deep_view()),
            MultilineString::Text(inner) => MultilineStringView::Text(inner.deep_view()),
            MultilineString::Json(inner) => MultilineStringView::Json(inner.deep_view()),
            MultilineString::Xml(inner) => MultilineStringView::Xml(inner.deep_view()),
            MultilineString::GraphQl(inner) => MultilineStringView::GraphQl(inner.deep_view()),
        }
    }
}

impl Clone for MultilineString {
    fn clone(&self) -> (copy: Self)
        ensures
            copy.deep_view() == self.deep_view(),
    {
        match self {
            MultilineString::OneLineText(inner) => MultilineString::OneLineText(inner.clone()),
            MultilineString::Text(inner) => MultilineString::Text(inner.clone()),
            MultilineString::Json(inner) => MultilineString::Json(inner.clone()),
            MultilineString::Xml(inner) => MultilineString::Xml(inner.clone()),
            MultilineString::GraphQl(inner) => MultilineString::GraphQl(inner.clone()),
        }
    }
}

impl MultilineStringView {
    /// The word after the opening fence that names the dialect; empty for
    /// plain text.
    pub open spec fn lang(self) -> Seq<char> {
        match self {
            MultilineStringView::OneLineText(_) | MultilineStringView::Text(_) => ""@,
            MultilineStringView::Json(_) => "json"@,
            MultilineStringView::Xml(_) => "xml"@,
            MultilineStringView::GraphQl(_) => "graphql"@,
        }
    }

    /// The text between the fences.
    pub open spec fn value(self) -> TemplateView {
        match self {
            MultilineStringView::OneLineText(template) => template,
            MultilineStringView::Text(text)
            | MultilineStringView::Json(text)
            | MultilineStringView::Xml(text) => text.value,
            MultilineStringView::GraphQl(text) => text.value,
        }
    }
}

impl MultilineString {
    /// The word after the opening fence that names the dialect; empty for
    /// plain text.
    pub fn lang(&self) -> (lang: &'static str)
        ensures
            lang@ == self.deep_view().lang(),
    {
        match self {
            MultilineString::OneLineText(_) | MultilineString::Text(_) => "",
            MultilineString::Json(_) => "json",
            MultilineString::Xml(_) => "xml",
            MultilineString::GraphQl(_) => "graphql",
        }
    }

    /// The text between the fences.
    pub fn value(&self) -> (value: Template)
        ensures
            value.deep_view() == self.deep_view().value(),
    {
        match self {
            MultilineString::OneLineText(template) => template.clone(),
            MultilineString::Text(text)
            | MultilineString::Json(text)
            | MultilineString::Xml(text) => text.value.clone(),
            MultilineString::GraphQl(text) => text.value.clone(),
        }
    }
}

} // verus!
