//! Splits a framed request into method, path and body, applies the transport
//! policy (POST with a multipart body only) and looks the path up.
use vstd::prelude::*;
use crate::form::{decode_from, get_form_data, pairs_map, FieldMap};
use crate::json::{join, message_json, owned, plain_json, quote_json};
use crate::route::{route_of, route_spec, Route};
use crate::text::{contains, find, find_from, latin1, latin1_chars, lemma_find_from, occurs_at, string_of_range, chars_of};

verus! {

/// Whether `c` is ASCII whitespace, which separates the tokens of the request line.
pub open spec fn is_space(c: char) -> bool {
    c == ' ' || c == '\t' || c == '\n' || c == '\r' || c == '\x0C'
}

/// The first position at or after `i` that holds no whitespace (the end if none).
pub open spec fn skip_space(s: Seq<char>, i: int) -> int
    decreases s.len() - i,
{
    if i < 0 || i >= s.len() || !is_space(s[i]) {
        i
    } else {
        skip_space(s, i + 1)
    }
}

/// The first position at or after `i` that holds whitespace (the end if none).
pub open spec fn skip_word(s: Seq<char>, i: int) -> int
    decreases s.len() - i,
{
    if i < 0 || i >= s.len() || is_space(s[i]) {
        i
    } else {
        skip_word(s, i + 1)
    }
}

/// The method: the first whitespace-delimited token of the request.
pub open spec fn method_of(s: Seq<char>) -> Seq<char> {
    s.subrange(skip_space(s, 0), skip_word(s, skip_space(s, 0)))
}

/// The path: the second whitespace-delimited token of the request (empty if none).
pub open spec fn path_of(s: Seq<char>) -> Seq<char> {
    let b = skip_space(s, skip_word(s, skip_space(s, 0)));
    s.subrange(b, skip_word(s, b))
}

/// The body: everything after the first blank line (empty if there is none).
pub open spec fn body_of(s: Seq<char>) -> Seq<char> {
    match find_from(s, "\r\n\r\n"@, 0) {
        Some(h) => s.subrange(h + 4, s.len() as int),
        None => Seq::empty(),
    }
}

/// Whether the request declares a `multipart/form-data` body.
pub open spec fn declares_multipart(s: Seq<char>) -> bool {
    contains(s, "multipart/form-data"@)
}

/// The one reply to a request of another method than POST, to one without a
/// multipart body and to one whose form cannot be read.
pub open spec fn method_not_allowed() -> Seq<char> {
    "HTTP/1.1 405 Method Not Allowed\r\n\r\nThe OLMMCC api only supports multipart/form-data."@
}

/// The status line and separator in front of a reply to a dispatched request.
pub open spec fn ok_head() -> Seq<char> {
    "HTTP/1.1 200 Ok\r\n\r\n"@
}

/// The message that names a path the dispatch table does not hold.
pub open spec fn unresolved_message(path: Seq<char>) -> Seq<char> {
    "The provided url "@ + path + " could not be resolved."@
}

/// The reply to a path the dispatch table does not hold.
pub open spec fn not_found(path: Seq<char>) -> Seq<char> {
    "HTTP/1.1 404 Not Found\r\n\r\n"@ + message_json(unresolved_message(path))
}

/// What becomes of a framed request.
pub enum Intake {
    /// It is answered at once with this complete response.
    Reply(String),
    /// It goes to the operation `route` with its form fields.
    Dispatch { route: Route, fields: FieldMap },
}

/// The outcome the transport policy gives to the request text `s`.
pub open spec fn intake_reply(s: Seq<char>) -> Option<Seq<char>> {
    if method_of(s) != "POST"@ || !declares_multipart(s) || decode_from(body_of(s), 0) is None {
        Some(method_not_allowed())
    } else if route_spec(path_of(s)) is None {
        Some(not_found(path_of(s)))
    } else {
        None
    }
}

proof fn lemma_skip_space(s: Seq<char>, i: int)
    requires
        0 <= i <= s.len(),
    ensures
        i <= skip_space(s, i) <= s.len(),
        skip_space(s, i) < s.len() ==> !is_space(s[skip_space(s, i)]),
    decreases s.len() - i,
{
    if i < s.len() && is_space(s[i]) {
        lemma_skip_space(s, i + 1);
    }
}

proof fn lemma_skip_word(s: Seq<char>, i: int)
    requires
        0 <= i <= s.len(),
    ensures
        i <= skip_word(s, i) <= s.len(),
    decreases s.len() - i,
{
    if i < s.len() && !is_space(s[i]) {
        lemma_skip_word(s, i + 1);
    }
}

fn is_space_char(c: char) -> (r: bool)
    ensures
        r == is_space(c),
{
    c == ' ' || c == '\t' || c == '\n' || c == '\r' || c == '\x0C'
}

fn skip_spaces(s: &Vec<char>, i: usize) -> (r: usize)
    requires
        i <= s@.len(),
    ensures
        r == skip_space(s@, i as int),
{
    let mut j = i;
    while j < s.len() && is_space_char(s[j])
        invariant
            i <= j <= s@.len(),
            skip_space(s@, i as int) == skip_space(s@, j as int),
        decreases s@.len() - j,
    {
        j += 1;
    }
    j
}

fn skip_token(s: &Vec<char>, i: usize) -> (r: usize)
    requires
        i <= s@.len(),
    ensures
        r == skip_word(s@, i as int),
{
    let mut j = i;
    while j < s.len() && !is_space_char(s[j])
        invariant
            i <= j <= s@.len(),
            skip_word(s@, i as int) == skip_word(s@, j as int),
        decreases s@.len() - j,
    {
        j += 1;
    }
    j
}

/// The request line's method, its path and the body of a request text.
pub fn split_request(s: &Vec<char>) -> (r: (String, String, Vec<char>))
    ensures
        r.0@ == method_of(s@),
        r.1@ == path_of(s@),
        r.2@ == body_of(s@),
{
    let a = skip_spaces(s, 0);
    proof { lemma_skip_space(s@, 0); }
    let b = skip_token(s, a);
    proof { lemma_skip_word(s@, a as int); }
    let c = skip_spaces(s, b);
    proof { lemma_skip_space(s@, b as int); }
    let d = skip_token(s, c);
    proof { lemma_skip_word(s@, c as int); }
    let method = string_of_range(s, a, b);
    let path = string_of_range(s, c, d);
    let blank = chars_of("\r\n\r\n");
    proof { reveal_strlit("\r\n\r\n"); }
    let mut body: Vec<char> = Vec::new();
    match find(s, &blank, 0) {
        Some(h) => {
            proof {
                lemma_find_from(s@, blank@, 0);
                assert(blank@.len() == 4);
                assert(s@.len() == s.len());
            }
            let mut i = h + 4;
            while i < s.len()
                invariant
                    h + 4 <= i <= s@.len(),
                    body@ == s@.subrange(h + 4, i as int),
                decreases s@.len() - i,
            {
                body.push(s[i]);
                i += 1;
            }
        },
        None => {},
    }
    (method, path, body)
}

/// Whether the request text declares a multipart body.
fn is_multipart(s: &Vec<char>) -> (r: bool)
    ensures
        r == declares_multipart(s@),
{
    let pat = chars_of("multipart/form-data");
    match find(s, &pat, 0) {
        Some(_) => {
            proof { lemma_find_from(s@, pat@, 0); }
            true
        },
        None => {
            proof { lemma_find_from(s@, pat@, 0); }
            false
        },
    }
}

/// The fixed reply to a request that breaks the transport policy.
pub fn method_not_allowed_reply() -> (r: String)
    ensures
        r@ == method_not_allowed(),
{
    owned("HTTP/1.1 405 Method Not Allowed\r\n\r\nThe OLMMCC api only supports multipart/form-data.")
}

/// The reply that names a path the dispatch table does not hold.
pub fn not_found_reply(path: &str) -> (r: String)
    ensures
        r@ == not_found(path@),
        plain_json(unresolved_message(path@)) ==> contains(r@, path@),
{
    let m = join(join(owned("The provided url "), path), " could not be resolved.");
    let q = quote_json(m.as_str());
    let r = join(join(owned("HTTP/1.1 404 Not Found\r\n\r\n{\"message\":"), q.as_str()), "}");
    proof {
        reveal_strlit("HTTP/1.1 404 Not Found\r\n\r\n{\"message\":");
        reveal_strlit("HTTP/1.1 404 Not Found\r\n\r\n");
        reveal_strlit("{\"message\":");
        assert("HTTP/1.1 404 Not Found\r\n\r\n{\"message\":"@ == "HTTP/1.1 404 Not Found\r\n\r\n"@ + "{\"message\":"@);
        assert(r@ =~= not_found(path@));
        if plain_json(m@) {
            reveal_strlit("The provided url ");
            let at: int = ("HTTP/1.1 404 Not Found\r\n\r\n{\"message\":"@.len() + 1 + "The provided url "@.len()) as int;
            assert(r@.subrange(at, at + path@.len()) =~= path@);
            assert(occurs_at(r@, path@, at));
        }
    }
    r
}

/// A complete response around the reply of a dispatched operation.
pub fn ok(body: &str) -> (r: String)
    ensures
        r@ == ok_head() + body@,
{
    join(owned("HTTP/1.1 200 Ok\r\n\r\n"), body)
}

/// Reads a framed request: only POST requests whose text declares a multipart body
/// and whose form decodes are dispatched, and only to a path of the dispatch table.
pub fn handle_request(request: &Vec<u8>) -> (r: Intake)
    ensures
        intake_reply(latin1(request@)) matches Some(t) ==> (r matches Intake::Reply(x) && x@ == t),
        intake_reply(latin1(request@)) is None ==> (r matches Intake::Dispatch { route, fields }
            && Some(route) == route_spec(path_of(latin1(request@)))
            && fields@ == pairs_map(decode_from(body_of(latin1(request@)), 0)->Some_0)),
{
    let text = latin1_chars(request);
    let (method, path, body) = split_request(&text);
    if !(method == owned("POST")) || !is_multipart(&text) {
        return Intake::Reply(method_not_allowed_reply());
    }
    let fields = match get_form_data(&body) {
        Ok(f) => f,
        Err(_) => return Intake::Reply(method_not_allowed_reply()),
    };
    match route_of(path.as_str()) {
        Some(route) => Intake::Dispatch { route, fields },
        None => Intake::Reply(not_found_reply(path.as_str())),
    }
}

/// Any request whose method is not POST gets the fixed "Method Not Allowed"
/// reply, whatever its path and body.
pub proof fn lemma_other_methods_refused(s: Seq<char>)
    requires
        method_of(s) != "POST"@,
    ensures
        intake_reply(s) == Some(method_not_allowed()),
{
}

/// A POST request that does not declare a multipart body gets the same reply as
/// a request of another method.
pub proof fn lemma_non_multipart_refused(s: Seq<char>)
    requires
        method_of(s) == "POST"@,
        !declares_multipart(s),
    ensures
        intake_reply(s) == Some(method_not_allowed()),
{
}

/// A well-formed request to a path outside the dispatch table gets the
/// "Not Found" reply, whose message names the path.
pub proof fn lemma_unknown_path_named(s: Seq<char>)
    requires
        method_of(s) == "POST"@,
        declares_multipart(s),
        decode_from(body_of(s), 0) is Some,
        route_spec(path_of(s)) is None,
    ensures
        intake_reply(s) == Some(not_found(path_of(s))),
{
}

} // verus!
