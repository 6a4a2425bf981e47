use reqscope::builder::{AuthChoice, Method};
use reqscope::fields::{EditableField, SelectableField};
use reqscope::focus::Focus;
use reqscope::session::{InputEvent, Session, SessionAction};

#[test]
fn focus_cycle_returns_after_seven_steps() {
    let all = [
        Focus::Url,
        Focus::Params,
        Focus::AuthType,
        Focus::AuthInput,
        Focus::Headers,
        Focus::Body,
        Focus::Send,
    ];
    for start in all {
        let mut f = start;
        for _ in 0..7 {
            f = f.advance();
        }
        assert_eq!(f, start);
    }
}

#[test]
fn append_then_delete_restores_buffer() {
    let mut field = EditableField::new();
    for c in "abc".chars() {
        field.append(c);
    }
    let before = field.text();
    field.append('x');
    field.delete_last();
    assert_eq!(field.text(), before);
}

#[test]
fn delete_on_empty_buffer_is_a_noop() {
    let mut field = EditableField::new();
    field.delete_last();
    assert_eq!(field.text(), "");
}

#[test]
fn selector_steps_are_bounded() {
    let mut sel = SelectableField::new(3);
    sel.step_left();
    assert_eq!(sel.index(), 0);
    sel.step_right();
    assert_eq!(sel.index(), 1);
    sel.step_right();
    assert_eq!(sel.index(), 2);
    sel.step_right();
    assert_eq!(sel.index(), 2);
    sel.step_left();
    assert_eq!(sel.index(), 1);
}

fn type_text(s: &mut Session, text: &str) {
    for c in text.chars() {
        match s.apply_event(InputEvent::Character(c)) {
            SessionAction::Carry => {}
            _ => panic!("typing must only carry on"),
        }
    }
}

fn tab(s: &mut Session, times: usize) {
    for _ in 0..times {
        s.apply_event(InputEvent::Tab);
    }
}

#[test]
fn new_session_starts_with_placeholder() {
    let s = Session::new();
    assert_eq!(s.response, "Enter a URL and press Send");
    assert_eq!(s.url.text(), "");
    assert_eq!(s.scroll.response, 0);
    assert_eq!(s.scroll.body, 0);
}

#[test]
fn characters_go_to_the_focused_field() {
    let mut s = Session::new();
    type_text(&mut s, "http://x");
    tab(&mut s, 1);
    type_text(&mut s, "a:1");
    assert_eq!(s.url.text(), "http://x");
    assert_eq!(s.params.text(), "a:1");
}

#[test]
fn characters_on_the_auth_selector_are_ignored() {
    let mut s = Session::new();
    tab(&mut s, 2);
    type_text(&mut s, "xyz");
    assert_eq!(s.url.text(), "");
    assert_eq!(s.params.text(), "");
    assert_eq!(s.auth_text.text(), "");
    assert_eq!(s.headers.text(), "");
    assert_eq!(s.body.text(), "");
}

#[test]
fn backspace_edits_the_focused_field() {
    let mut s = Session::new();
    type_text(&mut s, "ab");
    s.apply_event(InputEvent::Backspace);
    assert_eq!(s.url.text(), "a");
}

#[test]
fn left_right_change_method_while_url_is_focused() {
    let mut s = Session::new();
    s.apply_event(InputEvent::Right);
    s.apply_event(InputEvent::Right);
    assert_eq!(s.method_sel.index(), 2);
    s.apply_event(InputEvent::Left);
    assert_eq!(s.method_sel.index(), 1);
    // On another text field, left and right change nothing.
    tab(&mut s, 1);
    s.apply_event(InputEvent::Right);
    assert_eq!(s.method_sel.index(), 1);
    assert_eq!(s.auth_sel.index(), 0);
}

#[test]
fn left_right_change_auth_while_its_slot_is_focused() {
    let mut s = Session::new();
    tab(&mut s, 2);
    s.apply_event(InputEvent::Right);
    assert_eq!(s.auth_sel.index(), 1);
    s.apply_event(InputEvent::Right);
    s.apply_event(InputEvent::Right);
    assert_eq!(s.auth_sel.index(), 2);
}

#[test]
fn enter_on_body_inserts_a_line_break() {
    let mut s = Session::new();
    tab(&mut s, 5);
    type_text(&mut s, "a");
    s.apply_event(InputEvent::Enter);
    type_text(&mut s, "b");
    assert_eq!(s.body.text(), "a\nb");
}

#[test]
fn enter_on_send_dispatches_a_snapshot() {
    let mut s = Session::new();
    type_text(&mut s, "http://example/ok");
    s.apply_event(InputEvent::Right);
    tab(&mut s, 1);
    type_text(&mut s, "a:1");
    tab(&mut s, 1);
    s.apply_event(InputEvent::Right);
    s.apply_event(InputEvent::Right);
    tab(&mut s, 1);
    type_text(&mut s, "bob:secret");
    tab(&mut s, 1);
    type_text(&mut s, "k: v");
    tab(&mut s, 1);
    type_text(&mut s, "payload");
    tab(&mut s, 1);
    match s.apply_event(InputEvent::Enter) {
        SessionAction::Dispatch(req) => {
            assert_eq!(req.method, Method::Post);
            assert_eq!(req.url, "http://example/ok");
            assert_eq!(req.params, "a:1");
            assert_eq!(req.headers, "k: v");
            assert_eq!(req.body, "payload");
            assert_eq!(req.auth_choice, AuthChoice::Basic);
            assert_eq!(req.auth_text, "bob:secret");
        }
        _ => panic!("expected a dispatch"),
    }
    // The fields themselves are untouched by the dispatch.
    assert_eq!(s.url.text(), "http://example/ok");
}

#[test]
fn esc_quits() {
    let mut s = Session::new();
    match s.apply_event(InputEvent::Esc) {
        SessionAction::Quit => {}
        _ => panic!("expected quit"),
    }
}

#[test]
fn scrolling_routes_to_body_only_while_body_is_focused() {
    let mut s = Session::new();
    s.apply_event(InputEvent::Down);
    s.apply_event(InputEvent::Down);
    assert_eq!(s.scroll.response, 2);
    assert_eq!(s.scroll.body, 0);
    s.apply_event(InputEvent::Up);
    assert_eq!(s.scroll.response, 1);
    tab(&mut s, 5);
    s.apply_event(InputEvent::Down);
    assert_eq!(s.scroll.body, 1);
    assert_eq!(s.scroll.response, 1);
}

#[test]
fn scroll_up_saturates_at_zero() {
    let mut s = Session::new();
    s.apply_event(InputEvent::Up);
    assert_eq!(s.scroll.response, 0);
}
