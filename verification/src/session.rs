//! The session engine: one step of the interactive loop. Each input event
//! is applied to the session state in full before anything else happens,
//! and yields the action the surrounding loop must take — carry on, spawn
//! one dispatch with a snapshot of the fields, or quit.

use vstd::prelude::*;
use crate::builder::{
    AuthChoice, Method, RequestInputs, auth_choice_from_index, auth_choice_of_index,
    method_from_index, method_of_index,
};
use crate::fields::{EditableField, ScrollState, SelectableField};
use crate::focus::Focus;

verus! {

/// The logical input events the session understands.
#[derive(Clone, Copy, PartialEq, Eq, Debug, Structural)]
pub enum InputEvent {
    Character(char),
    Enter,
    Backspace,
    Tab,
    Left,
    Right,
    Up,
    Down,
    Esc,
}

/// What the surrounding loop must do after an event is applied.
pub enum SessionAction {
    /// Nothing beyond redrawing.
    Carry,
    /// Spawn one request task with this snapshot of the fields.
    Dispatch(RequestInputs),
    /// Leave the loop.
    Quit,
}

/// The mathematical state of a session.
#[verifier::ext_equal]
pub ghost struct SessionView {
    pub url: Seq<char>,
    pub params: Seq<char>,
    pub auth_text: Seq<char>,
    pub headers: Seq<char>,
    pub body: Seq<char>,
    pub method_index: int,
    pub auth_index: int,
    pub focus: Focus,
    pub response: Seq<char>,
    pub response_scroll: int,
    pub body_scroll: int,
}

/// The whole interactive state: the seven-slot focus cycle over five text
/// fields, the two selectors, the response text and the scroll offsets.
pub struct Session {
    pub url: EditableField,
    pub params: EditableField,
    pub auth_text: EditableField,
    pub headers: EditableField,
    pub body: EditableField,
    pub method_sel: SelectableField,
    pub auth_sel: SelectableField,
    pub focus: Focus,
    pub response: String,
    pub scroll: ScrollState,
}

impl View for Session {
    type V = SessionView;

    open spec fn view(&self) -> SessionView {
        SessionView {
            url: self.url@,
            params: self.params@,
            auth_text: self.auth_text@,
            headers: self.headers@,
            body: self.body@,
            method_index: self.method_sel.index_spec(),
            auth_index: self.auth_sel.index_spec(),
            focus: self.focus,
            response: self.response@,
            response_scroll: self.scroll.response as int,
            body_scroll: self.scroll.body as int,
        }
    }
}

/// The number of options of the method selector.
pub open spec fn method_count() -> int {
    5
}

/// The number of options of the auth selector.
pub open spec fn auth_count() -> int {
    3
}

/// Append `c` to whichever editable field holds focus; a no-op on the
/// selector and Send slots.
pub open spec fn step_character(v: SessionView, c: char) -> SessionView {
    match v.focus {
        Focus::Url => SessionView { url: EditableField::append_spec(v.url, c), ..v },
        Focus::Params => SessionView { params: EditableField::append_spec(v.params, c), ..v },
        Focus::AuthInput => SessionView {
            auth_text: EditableField::append_spec(v.auth_text, c),
            ..v
        },
        Focus::Headers => SessionView { headers: EditableField::append_spec(v.headers, c), ..v },
        Focus::Body => SessionView { body: EditableField::append_spec(v.body, c), ..v },
        Focus::AuthType | Focus::Send => v,
    }
}

/// Delete the last character of whichever editable field holds focus; a
/// no-op on the selector and Send slots and on an empty field.
pub open spec fn step_backspace(v: SessionView) -> SessionView {
    match v.focus {
        Focus::Url => SessionView { url: EditableField::delete_last_spec(v.url), ..v },
        Focus::Params => SessionView { params: EditableField::delete_last_spec(v.params), ..v },
        Focus::AuthInput => SessionView {
            auth_text: EditableField::delete_last_spec(v.auth_text),
            ..v
        },
        Focus::Headers => SessionView { headers: EditableField::delete_last_spec(v.headers), ..v },
        Focus::Body => SessionView { body: EditableField::delete_last_spec(v.body), ..v },
        Focus::AuthType | Focus::Send => v,
    }
}

/// A left step reaches the auth selector only while it holds focus, and the
/// method selector only while the URL slot does; both stop at their first
/// option.
pub open spec fn step_left(v: SessionView) -> SessionView {
    if v.focus is AuthType {
        SessionView {
            auth_index: if v.auth_index == 0 {
                0int
            } else {
                v.auth_index - 1
            },
            ..v
        }
    } else if v.focus is Url {
        SessionView {
            method_index: if v.method_index == 0 {
                0int
            } else {
                v.method_index - 1
            },
            ..v
        }
    } else {
        v
    }
}

/// The mirror of `step_left`: both selectors stop at their last option.
pub open spec fn step_right(v: SessionView) -> SessionView {
    if v.focus is AuthType {
        SessionView {
            auth_index: if v.auth_index < auth_count() - 1 {
                v.auth_index + 1
            } else {
                v.auth_index
            },
            ..v
        }
    } else if v.focus is Url {
        SessionView {
            method_index: if v.method_index < method_count() - 1 {
                v.method_index + 1
            } else {
                v.method_index
            },
            ..v
        }
    } else {
        v
    }
}

/// Up and down adjust the body scroll while the body holds focus and the
/// response scroll otherwise, saturating at zero and at the offset type's
/// maximum.
pub open spec fn step_scroll(v: SessionView, down: bool) -> SessionView {
    let on_body = v.focus is Body;
    let cur = if on_body {
        v.body_scroll
    } else {
        v.response_scroll
    };
    let adjusted = if down {
        if cur == u16::MAX as int {
            cur
        } else {
            cur + 1
        }
    } else {
        if cur == 0 {
            0int
        } else {
            cur - 1
        }
    };
    if on_body {
        SessionView { body_scroll: adjusted, ..v }
    } else {
        SessionView { response_scroll: adjusted, ..v }
    }
}

/// How one input event transforms the session state. Enter inserts a line
/// break only into the body; on the Send slot it changes nothing (the
/// dispatch is the action's side); Esc changes nothing.
pub open spec fn session_step(v: SessionView, e: InputEvent) -> SessionView {
    match e {
        InputEvent::Character(c) => step_character(v, c),
        InputEvent::Enter => if v.focus is Body {
            SessionView { body: EditableField::append_spec(v.body, '\n'), ..v }
        } else {
            v
        },
        InputEvent::Backspace => step_backspace(v),
        InputEvent::Tab => SessionView { focus: v.focus.next(), ..v },
        InputEvent::Left => step_left(v),
        InputEvent::Right => step_right(v),
        InputEvent::Up => step_scroll(v, false),
        InputEvent::Down => step_scroll(v, true),
        InputEvent::Esc => v,
    }
}

impl Session {
    /// The selectors hold exactly the five methods and three auth modes.
    pub open spec fn wf(&self) -> bool {
        &&& self.method_sel.wf()
        &&& self.method_sel.count_spec() == method_count()
        &&& self.auth_sel.wf()
        &&& self.auth_sel.count_spec() == auth_count()
    }

    /// The state a session starts in: everything empty, focus on the URL,
    /// the first method and auth options selected, a placeholder response,
    /// both scrolls at zero.
    pub open spec fn initial(v: SessionView) -> bool {
        &&& v.url == Seq::<char>::empty()
        &&& v.params == Seq::<char>::empty()
        &&& v.auth_text == Seq::<char>::empty()
        &&& v.headers == Seq::<char>::empty()
        &&& v.body == Seq::<char>::empty()
        &&& v.method_index == 0
        &&& v.auth_index == 0
        &&& v.focus == Focus::Url
        &&& v.response == "Enter a URL and press Send"@
        &&& v.response_scroll == 0
        &&& v.body_scroll == 0
    }

    pub fn new() -> (s: Session)
        ensures
            s.wf(),
            Session::initial(s@),
    {
        Session {
            url: EditableField::new(),
            params: EditableField::new(),
            auth_text: EditableField::new(),
            headers: EditableField::new(),
            body: EditableField::new(),
            method_sel: SelectableField::new(5),
            auth_sel: SelectableField::new(3),
            focus: Focus::Url,
            response: String::from_str("Enter a URL and press Send"),
            scroll: ScrollState::new(),
        }
    }

    /// The snapshot a dispatch carries: every field value a request is
    /// built from, cloned at the moment Send is activated.
    pub open spec fn snapshot_of(req: RequestInputs, v: SessionView) -> bool {
        &&& req.method == method_of_index(v.method_index)
        &&& req.url@ == v.url
        &&& req.params@ == v.params
        &&& req.headers@ == v.headers
        &&& req.body@ == v.body
        &&& req.auth_choice == auth_choice_of_index(v.auth_index)
        &&& req.auth_text@ == v.auth_text
    }

    /// Apply one input event. The state changes exactly as `session_step`
    /// says; Esc asks to quit, Enter on the Send slot asks for one dispatch
    /// carrying a snapshot of the fields, and every other event just
    /// carries on.
    pub fn apply_event(&mut self, e: InputEvent) -> (a: SessionAction)
        requires
            old(self).wf(),
        ensures
            final(self).wf(),
            final(self)@ == session_step(old(self)@, e),
            a is Quit <==> e is Esc,
            a is Dispatch <==> (e is Enter && old(self)@.focus is Send),
            a matches SessionAction::Dispatch(req) ==> Session::snapshot_of(req, old(self)@),
    {
        let ghost pre = self@;
        let mut action = SessionAction::Carry;
        match e {
            InputEvent::Character(c) => {
                match self.focus {
                    Focus::Url => self.url.append(c),
                    Focus::Params => self.params.append(c),
                    Focus::AuthInput => self.auth_text.append(c),
                    Focus::Headers => self.headers.append(c),
                    Focus::Body => self.body.append(c),
                    Focus::AuthType | Focus::Send => {},
                }
            },
            InputEvent::Enter => {
                match self.focus {
                    Focus::Body => self.body.append('\n'),
                    Focus::Send => {
                        let req = RequestInputs {
                            method: method_from_index(self.method_sel.index()),
                            url: self.url.text(),
                            params: self.params.text(),
                            headers: self.headers.text(),
                            body: self.body.text(),
                            auth_choice: auth_choice_from_index(self.auth_sel.index()),
                            auth_text: self.auth_text.text(),
                        };
                        action = SessionAction::Dispatch(req);
                    },
                    _ => {},
                }
            },
            InputEvent::Backspace => {
                match self.focus {
                    Focus::Url => self.url.delete_last(),
                    Focus::Params => self.params.delete_last(),
                    Focus::AuthInput => self.auth_text.delete_last(),
                    Focus::Headers => self.headers.delete_last(),
                    Focus::Body => self.body.delete_last(),
                    Focus::AuthType | Focus::Send => {},
                }
            },
            InputEvent::Tab => {
                self.focus = self.focus.advance();
            },
            InputEvent::Left => {
                match self.focus {
                    Focus::AuthType => self.auth_sel.step_left(),
                    Focus::Url => self.method_sel.step_left(),
                    _ => {},
                }
            },
            InputEvent::Right => {
                match self.focus {
                    Focus::AuthType => self.auth_sel.step_right(),
                    Focus::Url => self.method_sel.step_right(),
                    _ => {},
                }
            },
            InputEvent::Up => {
                let on_body = match self.focus {
                    Focus::Body => true,
                    _ => false,
                };
                self.scroll.up(on_body);
            },
            InputEvent::Down => {
                let on_body = match self.focus {
                    Focus::Body => true,
                    _ => false,
                };
                self.scroll.down(on_body);
            },
            InputEvent::Esc => {
                action = SessionAction::Quit;
            },
        }
        proof {
            assert(self@ =~= session_step(pre, e));
        }
        action
    }

    /// Take a completed response: it replaces the response text wholesale
    /// and resets the response scroll; nothing else moves.
    pub fn apply_response(&mut self, text: String)
        ensures
            final(self)@ == (SessionView {
                response: text@,
                response_scroll: 0,
                ..old(self)@
            }),
            old(self).wf() ==> final(self).wf(),
    {
        self.response = text;
        self.scroll.reset_response();
        proof {
            assert(self@ =~= (SessionView { response: text@, response_scroll: 0, ..old(self)@ }));
        }
    }
}

} // verus!
