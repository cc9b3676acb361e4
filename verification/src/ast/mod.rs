//! The syntax tree of a mock file.

pub mod file;
pub mod json;
pub mod multiline;
pub mod nodes;

pub use self::file::{
    Assert, AssertView, Body, BodyView, BooleanOption, BooleanOptionView, Bytes, BytesView,
    Capture, CaptureView, CookieAttribute, CookieAttributeName, CookieAttributeNameView,
    CookieAttributeView, CookiePath, CookiePathView, Entry, EntryView, Filter, FilterValue,
    FilterValueView, FilterView, Header, ImpostorFile, ImpostorFileView, KeyValue, KeyValueView,
    Method, MethodView, NaturalOption, NaturalOptionView, Not, NotView, Predicate, PredicateFunc,
    PredicateFuncValue, PredicateFuncValueView, PredicateFuncView, PredicateValue,
    PredicateValueView, PredicateView, Query, QueryValue, QueryValueView, QueryView, RegexValue,
    RegexValueView, Request, RequestSection, RequestSectionValue, RequestSectionValueView,
    RequestSectionView, RequestView, Response, ResponseView, Retry, RetryOption, RetryOptionView,
    Status, StatusView, VariableDefinition, VariableDefinitionView, VariableValue,
    VariableValueView, Version, VersionValue, VersionView, clone_filters,
};
pub use self::json::{
    JsonListElement, JsonListElementView, JsonObjectElement, JsonObjectElementView, JsonValue,
    JsonValueView, lemma_list_view, lemma_object_view, list_element_view, object_element_view,
    value_view,
};
pub use self::multiline::{
    GraphQl, GraphQlVariables, GraphQlVariablesView, GraphQlView, MultilineString,
    MultilineStringView, Text, TextView,
};
pub use self::nodes::{
    Base64, Base64View, Comment, CommentView, EncodedString, EncodedStringView, Expr, ExprView,
    File, FileView, Filename, FilenameView, Float, FloatView, Hex, HexView, LineTerminator,
    LineTerminatorView, Number, NumberView, Pos, Regex, RegexView, SourceInfo, Template,
    TemplateElement, TemplateElementView, TemplateView, Variable, VariableView, Whitespace,
    WhitespaceView, clone_option, clone_vec, source_of,
};
