//! A client for a puzzle-hosting website: it builds the requests that fetch a
//! puzzle page, its input and an answer's verdict, and turns the replies into
//! plain text.  The network itself is left to the caller, who performs each
//! [`Request`] and hands the reply back.

pub mod client;
pub mod html;
pub mod text;

pub use client::{
    content_request, get_brief, get_input, get_url, submit, submit_request, Aoc, Error, Level,
    Method, Request, Response, BASE,
};
pub use html::{get_html_section, get_title, TITLE_PATTERN};
pub use text::{brief_body, verdict_text, verify, RIGHT_ANSWER};
