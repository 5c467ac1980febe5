//! Turns newline-delimited JSON log records into single-line, human-readable,
//! styled text.
//!
//! Each line of input is read as a JSON document. From an object the time,
//! the level and the message are extracted by configurable keys and shown
//! first; every other field follows as `key=value`. A line that is no JSON
//! is passed through as it is.
//!
//! - `json`: the value tree of a document and its parser
//! - `extract`: field specifications and the extraction of a field
//! - `time`, `level`, `message`: how each of the three is shown
//! - `fields`: how the remaining fields are shown
//! - `style`: colours, the style table, painting for a terminal
//! - `line`: the line of output for a line of input
//! - `pipeline`: the decisions of reader, listener and writer, and of the
//!   shutdown on a second termination signal
//! - `text`: decimal numerals and padding

pub mod extract;
pub mod fields;
pub mod json;
pub mod level;
pub mod line;
pub mod message;
pub mod pipeline;
pub mod style;
pub mod text;
pub mod time;
