use crate::ast::nodes::{Expr, ExprView, Template, TemplateView};
use vstd::prelude::*;

verus! {

/// A JSON value as it was written. Strings are templates, and the blanks
/// between the parts are kept.
#[derive(Debug, PartialEq, Eq)]
#[allow(inconsistent_fields)]
pub enum JsonValue {
    Expression(Expr),
    Number(String),
    String(Template),
    Boolean(bool),
    List { space0: String, elements: Vec<JsonListElement> },
    Object { space0: String, elements: Vec<JsonObjectElement> },
    Null,
}

/// One element of a JSON list, with the blanks around it.
#[derive(Debug, PartialEq, Eq)]
pub struct JsonListElement {
    pub space0: String,
    pub value: JsonValue,
    pub space1: String,
}

/// One member of a JSON object, with the blanks around its parts.
#[derive(Debug, PartialEq, Eq)]
pub struct JsonObjectElement {
    pub space0: String,
    pub name: Template,
    pub space1: String,
    pub space2: String,
    pub value: JsonValue,
    pub space3: String,
}

/// What a [`JsonValue`] holds, as mathematical values.
#[allow(inconsistent_fields)]
pub enum JsonValueView {
    Expression(ExprView),
    Number(Seq<char>),
    String(TemplateView),
    Boolean(bool),
    List { space0: Seq<char>, elements: Seq<JsonListElementView> },
    Object { space0: Seq<char>, elements: Seq<JsonObjectElementView> },
    Null,
}

/// What a [`JsonListElement`] holds, as mathematical values.
pub struct JsonListElementView {
    pub space0: Seq<char>,
    pub value: JsonValueView,
    pub space1: Seq<char>,
}

/// What a [`JsonObjectElement`] holds, as mathematical values.
pub struct JsonObjectElementView {
    pub space0: Seq<char>,
    pub name: TemplateView,
    pub space1: Seq<char>,
    pub space2: Seq<char>,
    pub value: JsonValueView,
    pub space3: Seq<char>,
}

/// The mathematical value of a JSON value.
pub open spec fn value_view(value: JsonValue) -> JsonValueView
    decreases value,
{
    match value {
        JsonValue::Expression(expr) => JsonValueView::Expression(expr.deep_view()),
        JsonValue::Number(text) => JsonValueView::Number(text@),
        JsonValue::String(template) => JsonValueView::String(template.deep_view()),
        JsonValue::Boolean(value) => JsonValueView::Boolean(value),
        JsonValue::List { space0, elements } => JsonValueView::List {
            space0: space0@,
            elements: Seq::new(
                elements@.len(),
                |i: int|
                    if 0 <= i < elements@.len() {
                        list_element_view(elements@[i])
                    } else {
                        arbitrary()
                    },
            ),
        },
        JsonValue::Object { space0, elements } => JsonValueView::Object {
            space0: space0@,
            elements: Seq::new(
                elements@.len(),
                |i: int|
                    if 0 <= i < elements@.len() {
                        object_element_view(elements@[i])
                    } else {
                        arbitrary()
                    },
            ),
        },
        JsonValue::Null => JsonValueView::Null,
    }
}

/// The mathematical value of an element of a list.
pub open spec fn list_element_view(element: JsonListElement) -> JsonListElementView
    decreases element,
{
    JsonListElementView {
        space0: element.space0@,
        value: value_view(element.value),
        space1: element.space1@,
    }
}

/// The mathematical value of a member of an object.
pub open spec fn object_element_view(element: JsonObjectElement) -> JsonObjectElementView
    decreases element,
{
    JsonObjectElementView {
        space0: element.space0@,
        name: element.name.deep_view(),
        space1: element.space1@,
        space2: element.space2@,
        value: value_view(element.value),
        space3: element.space3@,
    }
}

impl DeepView for JsonValue {
    type V = JsonValueView;

    open spec fn deep_view(&self) -> JsonValueView {
        value_view(*self)
    }
}

impl DeepView for JsonListElement {
    type V = JsonListElementView;

    open spec fn deep_view(&self) -> JsonListElementView {
        list_element_view(*self)
    }
}

impl DeepView for JsonObjectElement {
    type V = JsonObjectElementView;

    open spec fn deep_view(&self) -> JsonObjectElementView {
        object_element_view(*self)
    }
}

/// The value of a list is made of the values of its elements.
pub proof fn lemma_list_view(space0: String, elements: Vec<JsonListElement>)
    ensures
        (JsonValue::List { space0, elements }).deep_view() == (JsonValueView::List {
            space0: space0@,
            elements: elements.deep_view(),
        }),
{
    let whole = JsonValue::List { space0, elements };
    assert(whole.deep_view()->List_elements =~= elements.deep_view());
}

/// The value of an object is made of the values of its members.
pub proof fn lemma_object_view(space0: String, elements: Vec<JsonObjectElement>)
    ensures
        (JsonValue::Object { space0, elements }).deep_view() == (JsonValueView::Object {
            space0: space0@,
            elements: elements.deep_view(),
        }),
{
    let whole = JsonValue::Object { space0, elements };
    assert(whole.deep_view()->Object_elements =~= elements.deep_view());
}

impl JsonValue {
    /// A copy of this value.
    pub fn duplicate(&self) -> (copy: JsonValue)
        ensures
            copy.deep_view() == self.deep_view(),
        decreases self,
    {
        match self {
            JsonValue::Expression(expr) => JsonValue::Expression(expr.clone()),
            JsonValue::Number(text) => JsonValue::Number(text.clone()),
            JsonValue::String(template) => JsonValue::String(template.clone()),
            JsonValue::Boolean(value) => JsonValue::Boolean(*value),
            JsonValue::List { space0, elements } => {
                let mut copy: Vec<JsonListElement> = Vec::new();
                let mut i: usize = 0;
                while i < elements.len()
                    invariant
                        i <= elements.len(),
                        copy@.len() == i,
                        forall|j: int|
                            0 <= j < i ==> copy@[j].deep_view() == elements@[j].deep_view(),
                        decreases_to!(*self => *elements),
                    decreases elements.len() - i,
                {
                    assert(decreases_to!(*elements => elements[i as int]));
                    copy.push(elements[i].duplicate());
                    i = i + 1;
                }
                proof {
                    assert(copy.deep_view() =~= elements.deep_view());
                    lemma_list_view(*space0, *elements);
                    lemma_list_view(*space0, copy);
                }
                JsonValue::List { space0: space0.clone(), elements: copy }
            },
            JsonValue::Object { space0, elements } => {
                let mut copy: Vec<JsonObjectElement> = Vec::new();
                let mut i: usize = 0;
                while i < elements.len()
                    invariant
                        i <= elements.len(),
                        copy@.len() == i,
                        forall|j: int|
                            0 <= j < i ==> copy@[j].deep_view() == elements@[j].deep_view(),
                        decreases_to!(*self => *elements),
                    decreases elements.len() - i,
                {
                    assert(decreases_to!(*elements => elements[i as int]));
                    copy.push(elements[i].duplicate());
                    i = i + 1;
                }
                proof {
                    assert(copy.deep_view() =~= elements.deep_view());
                    lemma_object_view(*space0, *elements);
                    lemma_object_view(*space0, copy);
                }
                JsonValue::Object { space0: space0.clone(), elements: copy }
            },
            JsonValue::Null => JsonValue::Null,
        }
    }
}

impl JsonListElement {
    /// A copy of this element.
    pub fn duplicate(&self) -> (copy: JsonListElement)
        ensures
            copy.deep_view() == self.deep_view(),
        decreases self,
    {
        JsonListElement {
            space0: self.space0.clone(),
            value: self.value.duplicate(),
            space1: self.space1.clone(),
        }
    }
}

impl JsonObjectElement {
    /// A copy of this member.
    pub fn duplicate(&self) -> (copy: JsonObjectElement)
        ensures
            copy.deep_view() == self.deep_view(),
        decreases self,
    {
        JsonObjectElement {
            space0: self.space0.clone(),
            name: self.name.clone(),
            space1: self.space1.clone(),
            space2: self.space2.clone(),
            value: self.value.duplicate(),
            space3: self.space3.clone(),
        }
    }
}

impl Clone for JsonValue {
    fn clone(&self) -> (copy: Self)
        ensures
            copy.deep_view() == self.deep_view(),
    {
        self.duplicate()
    }
}

impl Clone for JsonListElement {
    fn clone(&self) -> (copy: Self)
        ensures
            copy.deep_view() == self.deep_view(),
    {
        self.duplicate()
    }
}

impl Clone for JsonObjectElement {
    fn clone(&self) -> (copy: Self)
        ensures
            copy.deep_view() == self.deep_view(),
    {
        self.duplicate()
    }
}

} // verus!
