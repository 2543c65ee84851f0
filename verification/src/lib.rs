/*!
A small "bring your own queries and types" GraphQL helper library.

The heart of it is cursor-based pagination over GraphQL connections:
building the textual query fragments that request one page of a
connection, and reading the cursor with which to ask for the next one.
Around that sit the response-resolution rules (server errors take
precedence over data, absent data is an error of its own) and a
cardinality helper.
*/

mod digits;
mod envelope;
mod error;
mod list;

pub use digits::decimal_string;
pub use envelope::{extract_data, extract_first_item};
pub use error::{ByoError, ByoResult, GraphqlError};
pub use list::{Count, List, PageInfo};
