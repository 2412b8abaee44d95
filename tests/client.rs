use aocf::{
    brief_body, content_request, get_brief, get_html_section, get_input, get_title, get_url,
    submit, submit_request, verdict_text, verify, Aoc, Error, Level, Method, Response,
};

fn session(year: Option<i32>, day: Option<u32>, level: Level) -> Aoc {
    Aoc { year, day, level, cookie: "abc123".to_string() }
}

fn ok_reply(body: &str) -> Result<Response, String> {
    Ok(Response { status: 200, body: body.to_string() })
}

#[test]
fn url_without_year_is_missing_parameter() {
    let aoc = session(None, Some(3), Level::First);
    assert_eq!(get_url(&aoc), Err(Error::MissingParameter));
    assert!(matches!(content_request(&aoc, "/input"), Err(Error::MissingParameter)));
    assert!(matches!(submit_request(&aoc, "42"), Err(Error::MissingParameter)));
}

#[test]
fn url_without_day_is_missing_parameter() {
    let aoc = session(Some(2020), None, Level::Second);
    assert_eq!(get_url(&aoc), Err(Error::MissingParameter));
    assert!(matches!(content_request(&aoc, ""), Err(Error::MissingParameter)));
}

#[test]
fn url_without_year_or_day_is_missing_parameter() {
    let aoc = session(None, None, Level::First);
    assert_eq!(get_url(&aoc), Err(Error::MissingParameter));
}

#[test]
fn url_of_a_puzzle_page() {
    let aoc = session(Some(2019), Some(2), Level::First);
    assert_eq!(get_url(&aoc), Ok("https://adventofcode.com/2019/day/2".to_string()));
    let aoc = session(Some(2015), Some(25), Level::First);
    assert_eq!(get_url(&aoc), Ok("https://adventofcode.com/2015/day/25".to_string()));
}

#[test]
fn url_with_zero_and_negative_numbers() {
    let aoc = session(Some(-7), Some(0), Level::First);
    assert_eq!(get_url(&aoc), Ok("https://adventofcode.com/-7/day/0".to_string()));
    let aoc = session(Some(i32::MIN), Some(u32::MAX), Level::First);
    assert_eq!(
        get_url(&aoc),
        Ok("https://adventofcode.com/-2147483648/day/4294967295".to_string())
    );
}

#[test]
fn page_request_has_no_suffix() {
    let aoc = session(Some(2021), Some(10), Level::First);
    let req = content_request(&aoc, "").unwrap();
    assert_eq!(req.method, Method::Get);
    assert_eq!(req.url, "https://adventofcode.com/2021/day/10");
    assert_eq!(req.cookie, "session=abc123");
    assert!(req.form.is_empty());
}

#[test]
fn suffix_is_appended_verbatim() {
    let aoc = session(Some(2021), Some(10), Level::First);
    let req = content_request(&aoc, "/input?x=1").unwrap();
    assert_eq!(req.url, "https://adventofcode.com/2021/day/10/input?x=1");
}

#[test]
fn section_of_main() {
    assert_eq!(
        get_html_section("<main>hello<br/>world</main>", "main"),
        Some("hello<br/>world".to_string())
    );
}

#[test]
fn section_spans_lines_and_stops_at_first_close() {
    let html = "<body><main>a\nb</main><main>c</main></body>";
    assert_eq!(get_html_section(html, "main"), Some("a\nb".to_string()));
}

#[test]
fn section_absent() {
    assert_eq!(get_html_section("<body>nothing here</body>", "main"), None);
    assert_eq!(get_html_section("<main>never closed", "main"), None);
}

#[test]
fn title_of_heading() {
    assert_eq!(
        get_title("<h2>--- Day 5: Binary Boarding ---</h2>"),
        Some("Binary Boarding".to_string())
    );
}

#[test]
fn title_absent() {
    assert_eq!(get_title("<h1>Advent of Code</h1>"), None);
}

#[test]
fn verify_right_answer() {
    assert!(verify("Congrats!\nThat's the right answer!\nYou are one gold star closer."));
    assert!(verify("That's the right answer!"));
}

#[test]
fn verify_wrong_answer() {
    assert!(!verify("not quite"));
    assert!(!verify(""));
    assert!(!verify("that's the right answer!"));
    assert!(!verify("That's the right answer"));
}

#[test]
fn first_level_form_field() {
    let aoc = session(Some(2019), Some(2), Level::First);
    let req = submit_request(&aoc, "3562624").unwrap();
    assert_eq!(req.method, Method::Post);
    assert_eq!(req.url, "https://adventofcode.com/2019/day/2/answer");
    assert_eq!(req.cookie, "session=abc123");
    assert_eq!(
        req.form,
        vec![
            ("level".to_string(), "1".to_string()),
            ("answer".to_string(), "3562624".to_string())
        ]
    );
}

#[test]
fn second_level_form_field() {
    let aoc = session(Some(2019), Some(2), Level::Second);
    let req = submit_request(&aoc, "8298").unwrap();
    assert_eq!(
        req.form,
        vec![
            ("level".to_string(), "2".to_string()),
            ("answer".to_string(), "8298".to_string())
        ]
    );
}

#[test]
fn four_lines_give_empty_body() {
    assert_eq!(brief_body("# head\n\n\nfoot"), "");
    assert_eq!(brief_body("a\nb\nc\nd\n"), "");
}

#[test]
fn fewer_lines_give_empty_body() {
    assert_eq!(brief_body(""), "");
    assert_eq!(brief_body("one line"), "");
    assert_eq!(brief_body("a\nb\nc"), "");
}

#[test]
fn body_drops_two_lines_at_each_end() {
    assert_eq!(brief_body("h1\nh2\n  first\n\nsecond  \nf1\nf2"), "first\n\nsecond");
    assert_eq!(brief_body("h1\r\nh2\r\nmid\r\nf1\r\nf2\r\n"), "mid");
    assert_eq!(brief_body("a\nb\n \t\n\u{3000}\nc\nd"), "");
}

#[test]
fn verdict_is_trimmed() {
    assert_eq!(verdict_text("\n  You gave an answer too recently.\n\n"), "You gave an answer too recently.");
    assert_eq!(verdict_text(" \u{a0} "), "");
}

#[test]
fn input_is_returned_verbatim() {
    let aoc = session(Some(2019), Some(2), Level::First);
    let req = content_request(&aoc, "/input").unwrap();
    assert_eq!(req.method, Method::Get);
    assert_eq!(req.url, "https://adventofcode.com/2019/day/2/input");
    assert_eq!(req.cookie, "session=abc123");
    let body = "1,0,0,3,1,1,2,3\r\n  \u{e9}\n";
    assert_eq!(get_input(ok_reply(body)), Ok(body.to_string()));
}

#[test]
fn failed_status_is_remote_request_failed() {
    let reply = Ok(Response { status: 404, body: "Not Found".to_string() });
    assert_eq!(get_input(reply), Err(Error::RemoteRequestFailed(404)));
    let reply = Ok(Response { status: 302, body: String::new() });
    assert_eq!(get_input(reply), Err(Error::RemoteRequestFailed(302)));
    let reply = Ok(Response { status: 500, body: String::new() });
    assert_eq!(submit(reply), Err(Error::RemoteRequestFailed(500)));
}

#[test]
fn transport_failure_is_passed_on() {
    let reply = Err("connection refused".to_string());
    assert_eq!(get_brief(reply), Err(Error::TransportError("connection refused".to_string())));
}

#[test]
fn brief_of_a_page() {
    let page = "<html><h2>--- Day 5: Binary Boarding ---</h2><main><p>one</p><p>two</p><p>three</p><p>four</p><p>five</p></main></html>";
    let (title, body) = get_brief(ok_reply(page)).unwrap();
    assert_eq!(title, "Binary Boarding");
    assert_eq!(body, "two\n\nthree\n\nfour");
}

#[test]
fn brief_of_a_page_without_heading_or_main() {
    let (title, body) = get_brief(ok_reply("<html><p>maintenance</p></html>")).unwrap();
    assert_eq!(title, "");
    assert_eq!(body, "");
}

#[test]
fn submit_converts_main_to_text() {
    let page = "<html><main><article><p>That's the right answer! You are one gold star closer.</p></article></main></html>";
    let verdict = submit(ok_reply(page)).unwrap();
    assert_eq!(verdict, "That's the right answer! You are one gold star closer.");
    assert!(verify(&verdict));
}

#[test]
fn submit_without_main_is_empty() {
    assert_eq!(submit(ok_reply("<html>gone</html>")), Ok(String::new()));
}
