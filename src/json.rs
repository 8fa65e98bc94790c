//! Small JSON texts for replies, with strings quoted by serde_json.
use vstd::prelude::*;

verus! {

/// The JSON string literal that serde_json writes for the characters `s`.
pub uninterp spec fn json_text(s: Seq<char>) -> Seq<char>;

/// Whether `s` can be written in JSON between two quotes as it stands: it holds
/// no quote, no backslash and no control character.
pub open spec fn plain_json(s: Seq<char>) -> bool {
    forall|i: int| 0 <= i < s.len() ==> s[i] != '"' && s[i] != '\\' && (s[i] as u32) >= 0x20
}

/// Relies on `serde_json::to_string` on a `&str`: the JSON string literal for the
/// text, in which serde_json escapes only quotes, backslashes and control
/// characters (its `ESCAPE` table), so that other text stands between the quotes
/// unchanged.
#[verifier::external_body]
pub(crate) fn quote_json(s: &str) -> (r: String)
    ensures
        r@ == json_text(s@),
        plain_json(s@) ==> r@ == seq!['"'] + s@ + seq!['"'],
{
    match serde_json::to_string(s) {
        Ok(t) => t,
        Err(_) => String::new(),
    }
}

/// A copy of a string slice as an owned string.
pub(crate) fn owned(s: &str) -> (r: String)
    ensures
        r@ == s@,
{
    s.to_owned()
}

/// `a` followed by `b`.
pub(crate) fn join(a: String, b: &str) -> (r: String)
    ensures
        r@ == a@ + b@,
{
    let mut a = a;
    a.append(b);
    a
}

/// `{"message":<m>}`: the reply that carries a human-readable message.
pub open spec fn message_json(m: Seq<char>) -> Seq<char> {
    "{\"message\":"@ + json_text(m) + "}"@
}

/// The reply that carries the message `m`.
pub fn message(m: &str) -> (r: String)
    ensures
        r@ == message_json(m@),
{
    let q = quote_json(m);
    let r = join(join(owned("{\"message\":"), q.as_str()), "}");
    r
}

/// One member of a JSON object: the quoted key, a colon and the value's JSON text.
pub open spec fn member(k: Seq<char>, v: Seq<char>) -> Seq<char> {
    seq!['"'] + k + seq!['"', ':'] + v
}

/// The members of an object, separated by commas.
pub open spec fn members(f: Seq<(Seq<char>, Seq<char>)>) -> Seq<char>
    decreases f.len(),
{
    if f.len() == 0 {
        Seq::empty()
    } else if f.len() == 1 {
        member(f[0].0, f[0].1)
    } else {
        members(f.drop_last()) + seq![','] + member(f.last().0, f.last().1)
    }
}

/// A JSON object with these members, in this order.
pub open spec fn object(f: Seq<(Seq<char>, Seq<char>)>) -> Seq<char> {
    seq!['{'] + members(f) + seq!['}']
}

/// The items of an array, separated by commas.
pub open spec fn items(v: Seq<Seq<char>>) -> Seq<char>
    decreases v.len(),
{
    if v.len() == 0 {
        Seq::empty()
    } else if v.len() == 1 {
        v[0]
    } else {
        items(v.drop_last()) + seq![','] + v.last()
    }
}

/// A JSON array of these item texts.
pub open spec fn array(v: Seq<Seq<char>>) -> Seq<char> {
    seq!['['] + items(v) + seq![']']
}

/// The JSON texts of a list of strings.
pub open spec fn quoted_all(v: Seq<Seq<char>>) -> Seq<Seq<char>> {
    v.map_values(|s: Seq<char>| json_text(s))
}

/// The views of a list of strings.
pub open spec fn views(v: Seq<String>) -> Seq<Seq<char>> {
    v.map_values(|s: String| s@)
}

/// The views of a list of (key, value) string pairs.
pub open spec fn pair_views(v: Seq<(String, String)>) -> Seq<(Seq<char>, Seq<char>)> {
    v.map_values(|p: (String, String)| (p.0@, p.1@))
}

/// Writes a JSON object from keys and the JSON texts of their values.
pub fn json_object(fields: &Vec<(String, String)>) -> (r: String)
    ensures
        r@ == object(pair_views(fields@)),
{
    let ghost f = pair_views(fields@);
    let mut out = owned("{");
    let mut i: usize = 0;
    proof { reveal_strlit("{"); }
    assert(f.subrange(0, 0) =~= Seq::<(Seq<char>, Seq<char>)>::empty());
    while i < fields.len()
        invariant
            i <= fields@.len(),
            f == pair_views(fields@),
            out@ == seq!['{'] + members(f.subrange(0, i as int)),
        decreases fields@.len() - i,
    {
        if i > 0 {
            out = join(out, ",");
        }
        out = join(out, "\"");
        out = join(out, fields[i].0.as_str());
        out = join(out, "\":");
        out = join(out, fields[i].1.as_str());
        proof {
            reveal_strlit(",");
            reveal_strlit("\"");
            reveal_strlit("\":");
            let next = f.subrange(0, i + 1);
            assert(next.drop_last() =~= f.subrange(0, i as int));
            assert(next.last() == (fields@[i as int].0@, fields@[i as int].1@));
            if i == 0 {
                assert(out@ =~= seq!['{'] + members(next));
            } else {
                assert(out@ =~= seq!['{'] + members(next));
            }
        }
        i += 1;
    }
    out = join(out, "}");
    proof {
        reveal_strlit("}");
        assert(f.subrange(0, fields@.len() as int) == f);
    }
    out
}

/// Writes a JSON array from the JSON texts of its items.
pub fn json_array(v: &Vec<String>) -> (r: String)
    ensures
        r@ == array(views(v@)),
{
    let ghost w = views(v@);
    let mut out = owned("[");
    let mut i: usize = 0;
    proof { reveal_strlit("["); }
    assert(w.subrange(0, 0) =~= Seq::<Seq<char>>::empty());
    while i < v.len()
        invariant
            i <= v@.len(),
            w == views(v@),
            out@ == seq!['['] + items(w.subrange(0, i as int)),
        decreases v@.len() - i,
    {
        if i > 0 {
            out = join(out, ",");
        }
        out = join(out, v[i].as_str());
        proof {
            reveal_strlit(",");
            let next = w.subrange(0, i + 1);
            assert(next.drop_last() =~= w.subrange(0, i as int));
            assert(out@ =~= seq!['['] + items(next));
        }
        i += 1;
    }
    out = join(out, "]");
    proof {
        reveal_strlit("]");
        assert(w.subrange(0, v@.len() as int) == w);
    }
    out
}

/// The JSON texts of a list of strings.
pub fn quote_all(v: &Vec<String>) -> (r: Vec<String>)
    ensures
        views(r@) == quoted_all(views(v@)),
{
    let mut out: Vec<String> = Vec::new();
    let mut i: usize = 0;
    while i < v.len()
        invariant
            i <= v@.len(),
            out@.len() == i,
            forall|j: int| 0 <= j < i ==> #[trigger] out@[j]@ == json_text(v@[j]@),
        decreases v@.len() - i,
    {
        let q = quote_json(v[i].as_str());
        out.push(q);
        i += 1;
    }
    assert(views(out@) =~= quoted_all(views(v@)));
    out
}

/// A JSON array of strings.
pub fn json_string_array(v: &Vec<String>) -> (r: String)
    ensures
        r@ == array(quoted_all(views(v@))),
{
    json_array(&quote_all(v))
}

/// The JSON text of a string.
pub fn json_string(s: &str) -> (r: String)
    ensures
        r@ == json_text(s@),
{
    quote_json(s)
}

/// The JSON text of a boolean.
pub open spec fn bool_text(b: bool) -> Seq<char> {
    if b { "true"@ } else { "false"@ }
}

/// The JSON text of a boolean.
pub fn json_bool(b: bool) -> (r: String)
    ensures
        r@ == bool_text(b),
{
    if b { owned("true") } else { owned("false") }
}

} // verus!
