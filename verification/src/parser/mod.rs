//! The reader, the combinators and the grammar's parsers.

pub mod error;
pub mod reader;
pub mod outcome;
pub mod primitives;
pub mod combinators;
pub mod number;
pub mod expr;
pub mod template;
pub mod json;
pub mod multiline;
pub mod string;
pub mod key_string;
pub mod filename;
pub mod base64;
pub mod xml;
pub mod bytes;
pub mod cookiepath;
pub mod query;
pub mod predicate_value;
pub mod predicate;
pub mod filter;
pub mod sections;
pub mod parsers;

pub use self::error::{Error, JsonErrorVariant, ParseError};
pub use self::json::{
    boolean_value as parse_json_boolean, null_value as parse_json_null,
    number_value as parse_json_number, parse as parse_json,
};
pub use self::parsers::parse_impostor_file;
pub use self::reader::Reader;
pub use self::template::templatize;
