//! A command line parser: it splits a line (or environment arguments) into a binary name,
//! parameters and options with optional values, and classifies each with the first of a list
//! of matchers that accepts it.
pub mod env_char;
pub mod parse_error_type_id;
pub mod parse_error;
pub mod regex_or_text;
pub mod matcher;
pub mod arg;
pub mod parse_state;
pub mod model;
pub mod parser;
pub mod laws;

pub use parse_error_type_id::ParseErrorTypeId;
pub use parse_error::ParseError;
pub use regex_or_text::{RegexOrText, InvalidPatternError};
pub use matcher::{Matcher, Matchers, DefaultTagType, OptionHasValue, MatchArgTypeId, DEFAULT_OPTION_HAS_VALUE};
pub use arg::{ArgProperties, BinaryProperties, OptionProperties, ParamProperties, Arg, Args};
pub use model::EscapeableLogicalChar;
pub use parser::Parser;
pub use env_char::EnvChar;
pub use parse_state::ParseState;
