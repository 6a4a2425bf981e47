//! The request builder: a pure transformation from the session's field
//! values to a wire-level request description — query-augmented URL, header
//! pairs, credential, and optional body. Malformed `key:value` entries are
//! dropped silently, by design.

use vstd::prelude::*;
use crate::text::{
    find_from, find_char_from, sub_vec, trim_spec, trim_chars, split_on,
    split_chars, views_of, str_to_chars, chars_to_string,
};

verus! {

/// One parsed `key:value` entry, trimmed on both sides.
pub struct HeaderPair {
    pub name: String,
    pub value: String,
}

impl View for HeaderPair {
    type V = (Seq<char>, Seq<char>);

    open spec fn view(&self) -> (Seq<char>, Seq<char>) {
        (self.name@, self.value@)
    }
}

/// The views of a vector of header pairs.
pub open spec fn header_views(hs: Seq<HeaderPair>) -> Seq<(Seq<char>, Seq<char>)> {
    hs.map_values(|h: HeaderPair| h@)
}

/// The pair a single comma-segment yields: split once at the first `':'`,
/// both sides trimmed; a segment without `':'` yields nothing.
pub open spec fn pair_of(seg: Seq<char>) -> Option<(Seq<char>, Seq<char>)> {
    match find_from(seg, ':', 0) {
        Option::None => Option::None,
        Option::Some(i) => Option::Some(
            (trim_spec(seg.subrange(0, i)), trim_spec(seg.subrange(i + 1, seg.len() as int))),
        ),
    }
}

/// The pairs a list of comma-segments yields, in order, malformed segments
/// dropped.
pub open spec fn pairs_of_segs(segs: Seq<Seq<char>>) -> Seq<(Seq<char>, Seq<char>)>
    decreases segs.len(),
{
    if segs.len() == 0 {
        Seq::empty()
    } else {
        pairs_of_segs(segs.drop_last()) + match pair_of(segs.last()) {
            Option::None => Seq::empty(),
            Option::Some(p) => seq![p],
        }
    }
}

/// The `key:value` pairs of a comma-separated list.
pub open spec fn pairs_of(s: Seq<char>) -> Seq<(Seq<char>, Seq<char>)> {
    pairs_of_segs(split_on(s, ','))
}

/// Parse one comma-segment; `None` when it holds no `':'`.
fn parse_segment(seg: &Vec<char>) -> (r: Option<(Vec<char>, Vec<char>)>)
    ensures
        match r {
            Option::Some(p) => pair_of(seg@) == Option::Some((p.0@, p.1@)),
            Option::None => pair_of(seg@) is None,
        },
{
    match find_char_from(seg, ':', 0) {
        Option::Some(i) => {
            let left = sub_vec(seg, 0, i);
            let n = seg.len();
            let right = sub_vec(seg, i + 1, n);
            let key = trim_chars(&left);
            let value = trim_chars(&right);
            Option::Some((key, value))
        },
        Option::None => Option::None,
    }
}

/// The views of a vector of parsed character-vector pairs.
pub open spec fn raw_pair_views(ps: Seq<(Vec<char>, Vec<char>)>) -> Seq<(Seq<char>, Seq<char>)> {
    ps.map_values(|p: (Vec<char>, Vec<char>)| (p.0@, p.1@))
}

/// Parse a comma-separated `key:value` list into trimmed pairs, dropping
/// segments without a `':'`.
fn parse_pair_vecs(chars: &Vec<char>) -> (r: Vec<(Vec<char>, Vec<char>)>)
    ensures
        raw_pair_views(r@) == pairs_of(chars@),
{
    let segs = split_chars(chars, ',');
    let ghost seg_views = views_of(segs@);
    let mut r: Vec<(Vec<char>, Vec<char>)> = Vec::new();
    proof {
        assert(seg_views.take(0) =~~= Seq::<Seq<char>>::empty());
        assert(raw_pair_views(r@) =~~= Seq::<(Seq<char>, Seq<char>)>::empty());
    }
    let n = segs.len();
    let mut i: usize = 0;
    while i < n
        invariant
            i <= n == segs@.len(),
            seg_views == views_of(segs@),
            raw_pair_views(r@) == pairs_of_segs(seg_views.take(i as int)),
        decreases n - i,
    {
        proof {
            assert(seg_views.take(i + 1).drop_last() =~~= seg_views.take(i as int));
            assert(seg_views.take(i + 1).last() == segs@[i as int]@);
        }
        match parse_segment(&segs[i]) {
            Option::Some(p) => {
                proof {
                    assert(raw_pair_views(r@.push(p)) =~~= raw_pair_views(r@).push(
                        (p.0@, p.1@),
                    ));
                    assert(pairs_of_segs(seg_views.take(i + 1)) =~~= pairs_of_segs(
                        seg_views.take(i as int),
                    ).push((p.0@, p.1@)));
                }
                r.push(p);
            },
            Option::None => {
                proof {
                    assert(pairs_of_segs(seg_views.take(i + 1)) =~~= pairs_of_segs(
                        seg_views.take(i as int),
                    ));
                }
            },
        }
        i = i + 1;
    }
    proof {
        assert(seg_views.take(n as int) =~~= seg_views);
    }
    r
}

/// Parse a comma-separated `key:value` list (as the Headers field holds it)
/// into trimmed header pairs; entries without a `':'` are skipped.
pub fn parse_pairs(text: &str) -> (r: Vec<HeaderPair>)
    ensures
        header_views(r@) == pairs_of(text@),
{
    let chars = str_to_chars(text);
    let raw = parse_pair_vecs(&chars);
    let mut r: Vec<HeaderPair> = Vec::new();
    proof {
        assert(header_views(r@) =~~= raw_pair_views(raw@).take(0));
    }
    let n = raw.len();
    let mut i: usize = 0;
    while i < n
        invariant
            i <= n == raw@.len(),
            raw_pair_views(raw@) == pairs_of(text@),
            header_views(r@) == raw_pair_views(raw@).take(i as int),
        decreases n - i,
    {
        let name = chars_to_string(&raw[i].0);
        let value = chars_to_string(&raw[i].1);
        let h = HeaderPair { name, value };
        proof {
            assert(h@ == raw_pair_views(raw@)[i as int]);
            assert(header_views(r@.push(h)) =~~= header_views(r@).push(h@));
            assert(raw_pair_views(raw@).take(i + 1) =~~= raw_pair_views(raw@).take(
                i as int,
            ).push(raw_pair_views(raw@)[i as int]));
        }
        r.push(h);
        i = i + 1;
    }
    proof {
        assert(raw_pair_views(raw@).take(n as int) =~~= raw_pair_views(raw@));
    }
    r
}

/// Append the characters of `src` to `dst`.
fn append_chars(dst: &mut Vec<char>, src: &Vec<char>)
    ensures
        final(dst)@ == old(dst)@ + src@,
{
    let n = src.len();
    let mut i: usize = 0;
    proof {
        assert(dst@ =~~= old(dst)@ + src@.take(0));
    }
    while i < n
        invariant
            i <= n == src@.len(),
            dst@ == old(dst)@ + src@.take(i as int),
        decreases n - i,
    {
        dst.push(src[i]);
        proof {
            assert(old(dst)@ + src@.take(i + 1) =~~= (old(dst)@ + src@.take(i as int)).push(
                src@[i as int],
            ));
        }
        i = i + 1;
    }
    proof {
        assert(old(dst)@ + src@.take(n as int) =~~= old(dst)@ + src@);
    }
}

/// One `key=value` element of a query string.
pub open spec fn pair_item(p: (Seq<char>, Seq<char>)) -> Seq<char> {
    p.0 + seq!['='] + p.1
}

/// `key=value` elements joined with `'&'`.
pub open spec fn query_of(ps: Seq<(Seq<char>, Seq<char>)>) -> Seq<char>
    decreases ps.len(),
{
    if ps.len() == 0 {
        Seq::empty()
    } else if ps.len() == 1 {
        pair_item(ps[0])
    } else {
        query_of(ps.drop_last()) + seq!['&'] + pair_item(ps.last())
    }
}

/// Join parsed pairs into a query string.
fn build_query(ps: &Vec<(Vec<char>, Vec<char>)>) -> (r: Vec<char>)
    ensures
        r@ == query_of(raw_pair_views(ps@)),
{
    let ghost pviews = raw_pair_views(ps@);
    let mut r: Vec<char> = Vec::new();
    let n = ps.len();
    let mut i: usize = 0;
    while i < n
        invariant
            i <= n == ps@.len(),
            pviews == raw_pair_views(ps@),
            r@ == query_of(pviews.take(i as int)),
        decreases n - i,
    {
        proof {
            assert(pviews.take(i + 1).drop_last() =~~= pviews.take(i as int));
            assert(pviews.take(i + 1).last() == pviews[i as int]);
            assert(pviews[i as int] == (ps@[i as int].0@, ps@[i as int].1@));
        }
        if i > 0 {
            r.push('&');
        }
        let ghost before = r@;
        append_chars(&mut r, &ps[i].0);
        r.push('=');
        append_chars(&mut r, &ps[i].1);
        proof {
            assert(r@ =~~= before + pair_item(pviews[i as int]));
            if i == 0 {
                assert(r@ =~~= query_of(pviews.take(1)));
            } else {
                assert(before =~~= query_of(pviews.take(i as int)) + seq!['&']);
                assert(r@ =~~= query_of(pviews.take(i as int)) + seq!['&'] + pair_item(
                    pviews[i as int],
                ));
            }
        }
        i = i + 1;
    }
    proof {
        assert(pviews.take(n as int) =~~= pviews);
    }
    r
}

/// Whether `c` occurs anywhere in `s`.
pub open spec fn contains_char(s: Seq<char>, c: char) -> bool {
    find_from(s, c, 0) is Some
}

/// The URL with the parsed parameters appended as a query string: nothing is
/// appended when the params text is blank; otherwise `'?'` introduces the
/// query, or `'&'` continues one the URL already has.
pub open spec fn augmented_url_spec(url: Seq<char>, params: Seq<char>) -> Seq<char> {
    if trim_spec(params).len() == 0 {
        url
    } else {
        url + (if contains_char(url, '?') {
            seq!['&']
        } else {
            seq!['?']
        }) + query_of(pairs_of(params))
    }
}

/// Append the params text, parsed as `key:value` pairs, to the URL as a
/// query string.
pub fn build_url(url: &str, params: &str) -> (r: String)
    ensures
        r@ == augmented_url_spec(url@, params@),
{
    let pchars = str_to_chars(params);
    let t = trim_chars(&pchars);
    if t.len() == 0 {
        String::from_str(url)
    } else {
        let mut out = str_to_chars(url);
        let sep: char = match find_char_from(&out, '?', 0) {
            Option::Some(_) => '&',
            Option::None => '?',
        };
        out.push(sep);
        let raw = parse_pair_vecs(&pchars);
        let q = build_query(&raw);
        append_chars(&mut out, &q);
        proof {
            assert(out@ =~~= augmented_url_spec(url@, params@));
        }
        chars_to_string(&out)
    }
}

/// The five request methods, in the order the method selector offers them.
#[derive(Clone, Copy, PartialEq, Eq, Debug, Structural)]
pub enum Method {
    Get,
    Post,
    Put,
    Delete,
    Patch,
}

/// The method a selector index denotes; an out-of-range index falls back to
/// `Get`, though the bounded selector never produces one.
pub open spec fn method_of_index(i: int) -> Method {
    if i == 1 {
        Method::Post
    } else if i == 2 {
        Method::Put
    } else if i == 3 {
        Method::Delete
    } else if i == 4 {
        Method::Patch
    } else {
        Method::Get
    }
}

pub fn method_from_index(i: usize) -> (m: Method)
    ensures
        m == method_of_index(i as int),
{
    if i == 1 {
        Method::Post
    } else if i == 2 {
        Method::Put
    } else if i == 3 {
        Method::Delete
    } else if i == 4 {
        Method::Patch
    } else {
        Method::Get
    }
}

/// The label the method selector shows for each method.
pub open spec fn method_label_spec(m: Method) -> Seq<char> {
    match m {
        Method::Get => "GET"@,
        Method::Post => "POST"@,
        Method::Put => "PUT"@,
        Method::Delete => "DELETE"@,
        Method::Patch => "PATCH"@,
    }
}

pub fn method_label(m: Method) -> (r: &'static str)
    ensures
        r@ == method_label_spec(m),
{
    match m {
        Method::Get => "GET",
        Method::Post => "POST",
        Method::Put => "PUT",
        Method::Delete => "DELETE",
        Method::Patch => "PATCH",
    }
}

/// Only these methods carry a request body.
pub open spec fn carries_body(m: Method) -> bool {
    m is Post || m is Put || m is Patch
}

pub fn method_carries_body(m: Method) -> (b: bool)
    ensures
        b == carries_body(m),
{
    match m {
        Method::Post | Method::Put | Method::Patch => true,
        Method::Get | Method::Delete => false,
    }
}

/// The three authentication modes the auth selector offers, in order.
#[derive(Clone, Copy, PartialEq, Eq, Debug, Structural)]
pub enum AuthChoice {
    NoAuth,
    Bearer,
    Basic,
}

/// The auth mode a selector index denotes; out of range falls back to none.
pub open spec fn auth_choice_of_index(i: int) -> AuthChoice {
    if i == 1 {
        AuthChoice::Bearer
    } else if i == 2 {
        AuthChoice::Basic
    } else {
        AuthChoice::NoAuth
    }
}

pub fn auth_choice_from_index(i: usize) -> (a: AuthChoice)
    ensures
        a == auth_choice_of_index(i as int),
{
    if i == 1 {
        AuthChoice::Bearer
    } else if i == 2 {
        AuthChoice::Basic
    } else {
        AuthChoice::NoAuth
    }
}

/// The label the auth selector shows for each mode.
pub open spec fn auth_label_spec(a: AuthChoice) -> Seq<char> {
    match a {
        AuthChoice::NoAuth => "None"@,
        AuthChoice::Bearer => "Bearer"@,
        AuthChoice::Basic => "Basic"@,
    }
}

pub fn auth_label(a: AuthChoice) -> (r: &'static str)
    ensures
        r@ == auth_label_spec(a),
{
    match a {
        AuthChoice::NoAuth => "None",
        AuthChoice::Bearer => "Bearer",
        AuthChoice::Basic => "Basic",
    }
}

/// The credential attached to a request.
pub enum Credential {
    NoCredential,
    BearerToken { token: String },
    BasicAuth { user: String, password: String },
}

impl Credential {
    /// The credential the auth mode and auth text call for: a trimmed bearer
    /// token; or a user and password split at the first `':'` of the trimmed
    /// text, each side trimmed again — with no credential at all when the
    /// Basic text holds no `':'`, or the mode is none.
    pub open spec fn credential_ok(self, choice: AuthChoice, text: Seq<char>) -> bool {
        match choice {
            AuthChoice::NoAuth => self is NoCredential,
            AuthChoice::Bearer => self matches Credential::BearerToken { token } && token@
                == trim_spec(text),
            AuthChoice::Basic => {
                let t = trim_spec(text);
                match find_from(t, ':', 0) {
                    Option::None => self is NoCredential,
                    Option::Some(i) => self matches Credential::BasicAuth { user, password }
                        && user@ == trim_spec(t.subrange(0, i)) && password@ == trim_spec(
                        t.subrange(i + 1, t.len() as int),
                    ),
                }
            },
        }
    }
}

/// Build the credential for an auth mode from the auth text.
pub fn build_credential(choice: AuthChoice, text: &str) -> (r: Credential)
    ensures
        r.credential_ok(choice, text@),
{
    match choice {
        AuthChoice::NoAuth => Credential::NoCredential,
        AuthChoice::Bearer => {
            let chars = str_to_chars(text);
            let t = trim_chars(&chars);
            Credential::BearerToken { token: chars_to_string(&t) }
        },
        AuthChoice::Basic => {
            let chars = str_to_chars(text);
            let t = trim_chars(&chars);
            match parse_segment(&t) {
                Option::Some(p) => Credential::BasicAuth {
                    user: chars_to_string(&p.0),
                    password: chars_to_string(&p.1),
                },
                Option::None => Credential::NoCredential,
            }
        },
    }
}

/// The field values a dispatch snapshots: everything the builder needs,
/// cloned out of the session at the moment Send is activated.
pub struct RequestInputs {
    pub method: Method,
    pub url: String,
    pub params: String,
    pub headers: String,
    pub body: String,
    pub auth_choice: AuthChoice,
    pub auth_text: String,
}

/// A wire-level request description, ready for a transport.
pub struct Request {
    pub method: Method,
    pub url: String,
    pub headers: Vec<HeaderPair>,
    pub credential: Credential,
    pub body: Option<String>,
}

/// Turn a snapshot of the fields into a request description. Pure and
/// total: malformed params and headers entries are dropped, a malformed
/// Basic credential attaches nothing, and only POST, PUT and PATCH carry a
/// non-empty body.
pub fn build_request(inputs: &RequestInputs) -> (r: Request)
    ensures
        r.method == inputs.method,
        r.url@ == augmented_url_spec(inputs.url@, inputs.params@),
        header_views(r.headers@) == pairs_of(inputs.headers@),
        r.credential.credential_ok(inputs.auth_choice, inputs.auth_text@),
        carries_body(inputs.method) && inputs.body@.len() > 0 ==> (r.body matches Option::Some(b)
            && b@ == inputs.body@),
        !(carries_body(inputs.method) && inputs.body@.len() > 0) ==> r.body is None,
{
    let url = build_url(inputs.url.as_str(), inputs.params.as_str());
    let headers = parse_pairs(inputs.headers.as_str());
    let credential = build_credential(inputs.auth_choice, inputs.auth_text.as_str());
    let body = if method_carries_body(inputs.method) && inputs.body.as_str().unicode_len() > 0 {
        Option::Some(inputs.body.clone())
    } else {
        Option::None
    };
    Request { method: inputs.method, url, headers, credential, body }
}

} // verus!
