use reqscope::highlight::{highlight, TokenKind};
use reqscope::respond::{format_outcome, Outcome};
use reqscope::session::{InputEvent, Session};
use reqscope::style::{style_for_focus, token_color, TextColor};

#[test]
fn small_object_tokenizes_into_five_tokens() {
    let lines = highlight("{\"a\":1}");
    assert_eq!(lines.len(), 1);
    let toks = &lines[0];
    assert_eq!(toks.len(), 5);
    assert_eq!(toks[0].kind, TokenKind::Punct);
    assert_eq!(toks[0].text, "{");
    assert_eq!(toks[1].kind, TokenKind::Quoted);
    assert_eq!(toks[1].text, "\"a\"");
    assert_eq!(toks[2].kind, TokenKind::Punct);
    assert_eq!(toks[2].text, ":");
    assert_eq!(toks[3].kind, TokenKind::Number);
    assert_eq!(toks[3].text, "1");
    assert_eq!(toks[4].kind, TokenKind::Punct);
    assert_eq!(toks[4].text, "}");
}

#[test]
fn unterminated_string_runs_to_end_of_line() {
    let lines = highlight("\"abc");
    assert_eq!(lines.len(), 1);
    assert_eq!(lines[0].len(), 1);
    assert_eq!(lines[0][0].kind, TokenKind::Quoted);
    assert_eq!(lines[0][0].text, "\"abc");
}

#[test]
fn numbers_greedily_take_digits_and_dots() {
    let lines = highlight("12.5x");
    assert_eq!(lines.len(), 1);
    assert_eq!(lines[0].len(), 2);
    assert_eq!(lines[0][0].kind, TokenKind::Number);
    assert_eq!(lines[0][0].text, "12.5");
    assert_eq!(lines[0][1].kind, TokenKind::Plain);
    assert_eq!(lines[0][1].text, "x");
}

#[test]
fn lines_split_like_str_lines() {
    let lines = highlight("a\r\nb\n");
    assert_eq!(lines.len(), 2);
    assert_eq!(lines[0].len(), 1);
    assert_eq!(lines[0][0].text, "a");
    assert_eq!(lines[1].len(), 1);
    assert_eq!(lines[1][0].text, "b");
}

#[test]
fn any_text_tokenizes() {
    let lines = highlight("not json at all");
    assert_eq!(lines.len(), 1);
    assert!(lines[0].iter().all(|t| t.kind == TokenKind::Plain));
}

#[test]
fn token_colors_follow_the_kind() {
    let lines = highlight("{\"a\":1}x");
    let toks = &lines[0];
    assert_eq!(token_color(&toks[0]), Some(TextColor::Cyan));
    assert_eq!(token_color(&toks[1]), Some(TextColor::Yellow));
    assert_eq!(token_color(&toks[2]), Some(TextColor::Gray));
    assert_eq!(token_color(&toks[3]), Some(TextColor::Green));
    assert_eq!(token_color(&toks[5]), None);
}

#[test]
fn focus_style_inverts_the_region() {
    let focused = style_for_focus(true);
    assert_eq!(focused.fg, TextColor::White);
    assert_eq!(focused.bg, Some(TextColor::DarkGray));
    assert!(focused.bold);
    let muted = style_for_focus(false);
    assert_eq!(muted.fg, TextColor::Gray);
    assert_eq!(muted.bg, None);
    assert!(!muted.bold);
}

#[test]
fn successful_dispatch_pretty_prints_json() {
    let text = format_outcome(&Outcome::Success {
        status: 200,
        body: String::from("{\"k\":\"v\"}"),
    });
    assert_eq!(text, "Status: 200\n\n{\n  \"k\": \"v\"\n}");
}

#[test]
fn non_json_body_passes_through_verbatim() {
    let text = format_outcome(&Outcome::Success {
        status: 404,
        body: String::from("plain words"),
    });
    assert_eq!(text, "Status: 404\n\nplain words");
}

#[test]
fn send_failure_is_labelled() {
    let text = format_outcome(&Outcome::SendFailed {
        message: String::from("connection refused"),
    });
    assert_eq!(text, "Request failed: connection refused");
}

#[test]
fn read_failure_is_labelled() {
    let text = format_outcome(&Outcome::ReadFailed {
        message: String::from("truncated stream"),
    });
    assert_eq!(text, "Error reading body: truncated stream");
}

#[test]
fn completed_response_replaces_text_and_resets_scroll() {
    let mut s = Session::new();
    s.apply_event(InputEvent::Down);
    s.apply_event(InputEvent::Down);
    assert_eq!(s.scroll.response, 2);
    let text = format_outcome(&Outcome::Success {
        status: 200,
        body: String::from("{\"k\":\"v\"}"),
    });
    s.apply_response(text);
    assert_eq!(s.response, "Status: 200\n\n{\n  \"k\": \"v\"\n}");
    assert_eq!(s.scroll.response, 0);
}

#[test]
fn failure_response_fully_replaces_prior_text() {
    let mut s = Session::new();
    s.apply_response(String::from("Status: 200\n\nearlier body"));
    s.apply_response(String::from("Request failed: connection refused"));
    assert_eq!(s.response, "Request failed: connection refused");
}
