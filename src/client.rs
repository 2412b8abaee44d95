use vstd::prelude::*;
use vstd::string::*;

use crate::html::{
    first_group, get_html_section, get_title, html_text_of, parse_html, section_pattern,
    TITLE_PATTERN,
};
use crate::text::{
    brief_body, brief_body_of, decimal, push_decimal, push_signed_decimal, signed_decimal, trim,
    verdict_text,
};

verus! {

/// Which of the two parts of a day's puzzle is being worked on.
#[derive(Clone, Copy, Debug, PartialEq, Eq, Structural)]
pub enum Level {
    First,
    Second,
}

/// The session that every request is made for: the puzzle's year and day,
/// the part being answered and the session cookie.
#[derive(Clone, Debug)]
pub struct Aoc {
    pub year: Option<i32>,
    pub day: Option<u32>,
    pub level: Level,
    pub cookie: String,
}

/// Why a request could not be made or was refused.
#[derive(Clone, Debug, PartialEq, Eq)]
pub enum Error {
    /// The session has no year or no day, so no URL can be built.
    MissingParameter,
    /// The request did not reach the site, or its reply could not be read.
    TransportError(String),
    /// The site answered with this status, which is not a success.
    RemoteRequestFailed(u16),
}

/// The HTTP method of a request.
#[derive(Clone, Copy, Debug, PartialEq, Eq, Structural)]
pub enum Method {
    Get,
    Post,
}

/// An HTTP request for the caller to perform: `cookie` is the value of its
/// `Cookie` header and `form` the fields of its form-encoded body.
#[derive(Clone, Debug)]
pub struct Request {
    pub method: Method,
    pub url: String,
    pub cookie: String,
    pub form: Vec<(String, String)>,
}

/// What the site answered: the status code and the body.
#[derive(Clone, Debug)]
pub struct Response {
    pub status: u16,
    pub body: String,
}

/// The site's address.
pub const BASE: &'static str = "https://adventofcode.com";

/// The address of a day's puzzle page.
pub open spec fn puzzle_url(year: int, day: nat) -> Seq<char> {
    BASE@ + "/"@ + signed_decimal(year) + "/day/"@ + decimal(day)
}

/// The address of the session's puzzle page, where the session names a year
/// and a day.
pub open spec fn url_of(aoc: Aoc) -> Option<Seq<char>> {
    match (aoc.year, aoc.day) {
        (Some(y), Some(d)) => Some(puzzle_url(y as int, d as nat)),
        _ => None,
    }
}

/// The address of the session's puzzle page followed by `suffix`.
pub open spec fn request_url(aoc: Aoc, suffix: Seq<char>) -> Option<Seq<char>> {
    match url_of(aoc) {
        Some(u) => Some(u + suffix),
        None => None,
    }
}

/// The value of the `Cookie` header that authenticates a session.
pub open spec fn cookie_header(cookie: Seq<char>) -> Seq<char> {
    "session="@ + cookie
}

/// The number that the answer form gives a level.
pub open spec fn level_value(level: Level) -> nat {
    match level {
        Level::First => 1,
        Level::Second => 2,
    }
}

/// The body of a reply, or the error that the reply stands for: a transport
/// failure, or a status outside 200..=299.
pub open spec fn checked(reply: Result<Response, String>) -> Result<String, Error> {
    match reply {
        Err(m) => Err(Error::TransportError(m)),
        Ok(resp) => if 200 <= resp.status < 300 {
            Ok(resp.body)
        } else {
            Err(Error::RemoteRequestFailed(resp.status))
        },
    }
}

/// What a capture gives, the empty text where it gives nothing.
pub open spec fn or_empty(o: Option<Seq<char>>) -> Seq<char> {
    match o {
        Some(s) => s,
        None => Seq::empty(),
    }
}

/// The title of a puzzle page, empty where the page has no heading.
pub open spec fn title_of(page: Seq<char>) -> Seq<char> {
    or_empty(first_group(TITLE_PATTERN@, page))
}

/// The `main` section of a page, empty where it has none.
pub open spec fn main_of(page: Seq<char>) -> Seq<char> {
    or_empty(first_group(section_pattern("main"@), page))
}

/// A session without a year or without a day has no puzzle address, so every
/// request built for it fails with `MissingParameter`.
pub proof fn lemma_url_needs_year_and_day(aoc: Aoc, suffix: Seq<char>)
    requires
        aoc.year is None || aoc.day is None,
    ensures
        url_of(aoc) is None,
        request_url(aoc, suffix) is None,
{
}

/// Where the session names both, the address of a request is the puzzle's
/// address with the suffix appended as it is.
pub proof fn lemma_url_appends_suffix(aoc: Aoc, suffix: Seq<char>)
    requires
        aoc.year is Some,
        aoc.day is Some,
    ensures
        request_url(aoc, suffix) == Some(
            puzzle_url(aoc.year->0 as int, aoc.day->0 as nat) + suffix,
        ),
{
}

/// The address of the session's puzzle page.
pub fn get_url(aoc: &Aoc) -> (r: Result<String, Error>)
    ensures
        match r {
            Ok(u) => url_of(*aoc) == Some(u@),
            Err(e) => url_of(*aoc) is None && e == Error::MissingParameter,
        },
{
    match (aoc.year, aoc.day) {
        (Some(y), Some(d)) => {
            let mut url = String::from_str(BASE);
            url.append("/");
            push_signed_decimal(&mut url, y);
            url.append("/day/");
            push_decimal(&mut url, d);
            Ok(url)
        },
        _ => Err(Error::MissingParameter),
    }
}

/// The `Cookie` header value for a session cookie.
fn session_cookie(cookie: &String) -> (r: String)
    ensures
        r@ == cookie_header(cookie@),
{
    let mut c = String::from_str("session=");
    c.append(cookie.as_str());
    c
}

/// The authenticated GET request for the session's puzzle page followed by
/// `suffix` (empty for the page itself, `/input` for the puzzle input).
pub fn content_request(aoc: &Aoc, suffix: &str) -> (r: Result<Request, Error>)
    ensures
        match r {
            Ok(req) => {
                &&& request_url(*aoc, suffix@) == Some(req.url@)
                &&& req.method == Method::Get
                &&& req.cookie@ == cookie_header(aoc.cookie@)
                &&& req.form@.len() == 0
            },
            Err(e) => url_of(*aoc) is None && e == Error::MissingParameter,
        },
{
    let mut url = get_url(aoc)?;
    url.append(suffix);
    Ok(Request { method: Method::Get, url, cookie: session_cookie(&aoc.cookie), form: Vec::new() })
}

/// The authenticated POST request that submits `solution` as the answer to
/// the session's level.
pub fn submit_request(aoc: &Aoc, solution: &str) -> (r: Result<Request, Error>)
    ensures
        match r {
            Ok(req) => {
                &&& request_url(*aoc, "/answer"@) == Some(req.url@)
                &&& req.method == Method::Post
                &&& req.cookie@ == cookie_header(aoc.cookie@)
                &&& req.form@.len() == 2
                &&& req.form@[0].0@ == "level"@
                &&& req.form@[0].1@ == decimal(level_value(aoc.level))
                &&& req.form@[1].0@ == "answer"@
                &&& req.form@[1].1@ == solution@
            },
            Err(e) => url_of(*aoc) is None && e == Error::MissingParameter,
        },
{
    let mut url = get_url(aoc)?;
    url.append("/answer");
    let level: u32 = match aoc.level {
        Level::First => 1,
        Level::Second => 2,
    };
    let mut level_field = String::new();
    push_decimal(&mut level_field, level);
    let mut form: Vec<(String, String)> = Vec::new();
    form.push((String::from_str("level"), level_field));
    form.push((String::from_str("answer"), String::from_str(solution)));
    Ok(Request { method: Method::Post, url, cookie: session_cookie(&aoc.cookie), form })
}

/// The body of a reply, or the error that it stands for.
fn accept(reply: Result<Response, String>) -> (r: Result<String, Error>)
    ensures
        r == checked(reply),
{
    match reply {
        Err(m) => Err(Error::TransportError(m)),
        Ok(resp) => if 200 <= resp.status && resp.status < 300 {
            Ok(resp.body)
        } else {
            Err(Error::RemoteRequestFailed(resp.status))
        },
    }
}

/// The title and the statement of a puzzle, from the reply to the request
/// for its page.  A page without a heading or a `main` section gives empty
/// texts, not an error.
pub fn get_brief(reply: Result<Response, String>) -> (r: Result<(String, String), Error>)
    ensures
        match r {
            Ok((title, body)) => {
                &&& checked(reply) is Ok
                &&& title@ == title_of(checked(reply)->Ok_0@)
                &&& body@ == brief_body_of(html_text_of(main_of(checked(reply)->Ok_0@)))
            },
            Err(e) => checked(reply) == Err::<String, Error>(e),
        },
{
    let page = accept(reply)?;
    let title = match get_title(page.as_str()) {
        Some(t) => t,
        None => String::new(),
    };
    let main = match get_html_section(page.as_str(), "main") {
        Some(m) => m,
        None => String::new(),
    };
    let text = parse_html(main.as_str());
    Ok((title, brief_body(text.as_str())))
}

/// The puzzle input, from the reply to the request for it: the body as it
/// came.
pub fn get_input(reply: Result<Response, String>) -> (r: Result<String, Error>)
    ensures
        r == checked(reply),
{
    accept(reply)
}

/// The site's verdict on a submitted answer, from the reply to the
/// submission: the `main` section converted to text and trimmed.
pub fn submit(reply: Result<Response, String>) -> (r: Result<String, Error>)
    ensures
        match r {
            Ok(verdict) => {
                &&& checked(reply) is Ok
                &&& verdict@ == trim(html_text_of(main_of(checked(reply)->Ok_0@)))
            },
            Err(e) => checked(reply) == Err::<String, Error>(e),
        },
{
    let page = accept(reply)?;
    let main = match get_html_section(page.as_str(), "main") {
        Some(m) => m,
        None => String::new(),
    };
    let text = parse_html(main.as_str());
    Ok(verdict_text(text.as_str()))
}

} // verus!
