//! The server side of the remote keyword protocol: a registry of named
//! keywords, the marshalling of a call's arguments, the keywords themselves,
//! and the encoding of what they report into the protocol's result
//! dictionary.

pub mod counter;
pub mod dispatcher;
pub mod keywords;
pub mod marshal;
pub mod outcome;
pub mod text;
pub mod value;

pub use counter::{keyword_next_value, Counter};
pub use dispatcher::{KeywordDispatcher, KeywordKind};
pub use keywords::{
    keyword_addone, keyword_count_items_in_directory, keyword_strings_should_be_equal,
    validate_response_success_return_i32,
};
pub use outcome::{HandlerResult, KeywordOutcome, RemoteResult, RpcFault, Status};
pub use value::Value;
