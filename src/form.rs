//! The field map of a request and the decoder of `multipart/form-data` bodies.
use vstd::prelude::*;
use crate::text::{contains, find, find_from, lemma_find_from, occurs_at, string_of_range, chars_of};

verus! {

/// The map that a list of (name, value) pairs describes, a later pair overriding an
/// earlier one with the same name.
pub open spec fn pairs_map(pairs: Seq<(Seq<char>, Seq<char>)>) -> Map<Seq<char>, Seq<char>>
    decreases pairs.len(),
{
    if pairs.len() == 0 {
        Map::empty()
    } else {
        pairs_map(pairs.drop_last()).insert(pairs.last().0, pairs.last().1)
    }
}

/// The form fields of one request: a map from field name to field value.
pub struct FieldMap {
    entries: Vec<(String, String)>,
}

impl View for FieldMap {
    type V = Map<Seq<char>, Seq<char>>;

    closed spec fn view(&self) -> Map<Seq<char>, Seq<char>> {
        pairs_map(self.pairs())
    }
}

impl FieldMap {
    /// The stored pairs, as character sequences, in the order they were added.
    pub closed spec fn pairs(&self) -> Seq<(Seq<char>, Seq<char>)> {
        self.entries@.map_values(|e: (String, String)| (e.0@, e.1@))
    }

    /// A map with no fields.
    pub fn new() -> (r: FieldMap)
        ensures
            r@ == Map::<Seq<char>, Seq<char>>::empty(),
    {
        FieldMap { entries: Vec::new() }
    }

    /// Sets `name` to `value`, replacing an earlier value of the same name.
    pub fn insert(&mut self, name: String, value: String)
        ensures
            final(self)@ == old(self)@.insert(name@, value@),
    {
        let ghost before = self.pairs();
        self.entries.push((name, value));
        assert(self.pairs().drop_last() == before);
    }

    /// Removes every field.
    pub fn clear(&mut self)
        ensures
            final(self)@ == Map::<Seq<char>, Seq<char>>::empty(),
    {
        self.entries = Vec::new();
    }

    /// The stored (name, value) pairs in the order they were set; a later pair
    /// overrides an earlier one of the same name.
    pub fn entries(&self) -> (r: &Vec<(String, String)>)
        ensures
            r@.map_values(|e: (String, String)| (e.0@, e.1@)) == self.pairs(),
            pairs_map(self.pairs()) == self@,
    {
        &self.entries
    }

    /// The value of the field `name`, if the map has one.
    pub fn get(&self, name: &str) -> (r: Option<String>)
        ensures
            r is Some <==> self@.contains_key(name@),
            r matches Some(v) ==> v@ == self@[name@],
    {
        let key = name.to_owned();
        let mut i: usize = self.entries.len();
        assert(self.pairs().subrange(0, i as int) == self.pairs());
        while i > 0
            invariant
                i <= self.entries@.len(),
                key@ == name@,
                self@.contains_key(key@) == pairs_map(self.pairs().subrange(0, i as int)).contains_key(key@),
                self@.contains_key(key@) ==> self@[key@] == pairs_map(self.pairs().subrange(0, i as int))[key@],
            decreases i,
        {
            let ghost prefix = self.pairs().subrange(0, i as int);
            assert(prefix.drop_last() == self.pairs().subrange(0, i - 1));
            assert(prefix.last() == (self.entries@[i - 1].0@, self.entries@[i - 1].1@));
            if self.entries[i - 1].0 == key {
                return Some(self.entries[i - 1].1.clone());
            }
            i -= 1;
        }
        assert(self.pairs().subrange(0, 0) =~= Seq::<(Seq<char>, Seq<char>)>::empty());
        None
    }
}

/// `name="`, which opens the name of a form part.
pub open spec fn name_attr() -> Seq<char> {
    seq!['n', 'a', 'm', 'e', '=', '"']
}

/// A double quote, which closes a part's name.
pub open spec fn quote() -> Seq<char> {
    seq!['"']
}

/// The blank line that separates a part's headers from its value.
pub open spec fn blank_line() -> Seq<char> {
    seq!['\r', '\n', '\r', '\n']
}

/// The line break that ends a part's value.
pub open spec fn crlf() -> Seq<char> {
    seq!['\r', '\n']
}

/// The (name, value) pairs of a form body read from position `pos` on: the next
/// `name="` opens a name that runs to the next double quote; after the next blank
/// line comes the value, which runs to the next line break. `None` when a part is
/// cut short, or when a header block (text before a blank line) remains that has
/// no name attribute.
pub open spec fn decode_from(body: Seq<char>, pos: int) -> Option<Seq<(Seq<char>, Seq<char>)>>
    decreases body.len() + 1 - pos,
{
    if pos < 0 || pos > body.len() {
        Some(Seq::empty())
    } else {
        match find_from(body, name_attr(), pos) {
            None => if find_from(body, blank_line(), pos) is Some { None } else { Some(Seq::empty()) },
            Some(k) => match find_from(body, quote(), k + 6) {
                None => None,
                Some(q) => match find_from(body, blank_line(), q + 1) {
                    None => None,
                    Some(h) => match find_from(body, crlf(), h + 4) {
                        None => None,
                        Some(e) => if e + 2 <= pos || e + 2 > body.len() {
                            None
                        } else {
                            match decode_from(body, e + 2) {
                                None => None,
                                Some(rest) => Some(
                                    seq![(body.subrange(k + 6, q), body.subrange(h + 4, e))] + rest,
                                ),
                            }
                        },
                    },
                },
            },
        }
    }
}

/// Why a form body could not be decoded.
#[derive(Clone, Copy, Debug, PartialEq, Eq, Structural)]
pub enum FormError {
    /// A part has no name, or its name, header block or value is not terminated.
    MalformedPart,
}

/// Decodes a `multipart/form-data` body into its field map.
pub fn get_form_data(body: &Vec<char>) -> (r: Result<FieldMap, FormError>)
    ensures
        r is Ok <==> decode_from(body@, 0) is Some,
        r matches Ok(m) ==> m@ == pairs_map(decode_from(body@, 0)->Some_0),
{
    let name_pat = chars_of("name=\"");
    let quote_pat = chars_of("\"");
    let blank_pat = chars_of("\r\n\r\n");
    let crlf_pat = chars_of("\r\n");
    proof {
        reveal_strlit("name=\"");
        reveal_strlit("\"");
        reveal_strlit("\r\n\r\n");
        reveal_strlit("\r\n");
        assert(name_pat@ == name_attr());
        assert(quote_pat@ == quote());
        assert(blank_pat@ == blank_line());
        assert(crlf_pat@ == crlf());
    }
    let mut map = FieldMap::new();
    let ghost mut acc: Seq<(Seq<char>, Seq<char>)> = Seq::empty();
    let mut pos: usize = 0;
    loop
        invariant
            pos <= body@.len(),
            name_pat@ == name_attr(),
            quote_pat@ == quote(),
            blank_pat@ == blank_line(),
            crlf_pat@ == crlf(),
            map@ == pairs_map(acc),
            decode_from(body@, 0) == match decode_from(body@, pos as int) {
                None => None,
                Some(rest) => Some(acc + rest),
            },
        decreases body@.len() - pos,
    {
        let k = match find(body, &name_pat, pos) {
            None => {
                if find(body, &blank_pat, pos).is_some() {
                    return Err(FormError::MalformedPart);
                }
                assert(acc + Seq::<(Seq<char>, Seq<char>)>::empty() == acc);
                return Ok(map);
            },
            Some(k) => k,
        };
        proof {
            lemma_find_from(body@, name_pat@, pos as int);
            assert(k + 6 <= body@.len());
            assert(body@.len() == body.len());
        }
        let q = match find(body, &quote_pat, k + 6) {
            None => return Err(FormError::MalformedPart),
            Some(q) => q,
        };
        proof {
            lemma_find_from(body@, quote_pat@, k + 6);
            assert(k + 6 <= q && q + 1 <= body@.len());
        }
        let h = match find(body, &blank_pat, q + 1) {
            None => return Err(FormError::MalformedPart),
            Some(h) => h,
        };
        proof {
            lemma_find_from(body@, blank_pat@, q + 1);
            assert(q + 1 <= h && h + 4 <= body@.len());
        }
        let e = match find(body, &crlf_pat, h + 4) {
            None => return Err(FormError::MalformedPart),
            Some(e) => e,
        };
        proof {
            lemma_find_from(body@, crlf_pat@, h + 4);
            assert(h + 4 <= e && e + 2 <= body@.len());
        }
        let name = string_of_range(body, k + 6, q);
        let value = string_of_range(body, h + 4, e);
        let ghost pair = (name@, value@);
        map.insert(name, value);
        proof {
            let ghost next = acc.push(pair);
            assert(next.drop_last() == acc);
            match decode_from(body@, e + 2) {
                None => {},
                Some(rest) => {
                    assert(acc + (seq![pair] + rest) == next + rest);
                },
            }
            acc = next;
        }
        pos = e + 2;
    }
}

/// Whether the character `c` never occurs in `s`.
pub open spec fn lacks(s: Seq<char>, c: char) -> bool {
    forall|i: int| 0 <= i < s.len() ==> s[i] != c
}

/// One text part of a form body: header text, the `name="..."` attribute, a blank
/// line, the value and a line break.
pub open spec fn form_part(lead: Seq<char>, name: Seq<char>, value: Seq<char>) -> Seq<char> {
    lead + name_attr() + name + quote() + blank_line() + value + crlf()
}

/// A whole form body: each part with the same header text in front of its name
/// attribute, then the closing text.
pub open spec fn form_body(
    lead: Seq<char>,
    parts: Seq<(Seq<char>, Seq<char>)>,
    trailer: Seq<char>,
) -> Seq<char>
    decreases parts.len(),
{
    if parts.len() == 0 {
        trailer
    } else {
        form_part(lead, parts[0].0, parts[0].1) + form_body(lead, parts.drop_first(), trailer)
    }
}

/// A well-formed body: the text around the parts holds no double quote (a
/// boundary never does) and the closing text no blank line, names hold no double
/// quote, values no line break, and no two parts share a name.
pub open spec fn well_formed_parts(
    lead: Seq<char>,
    parts: Seq<(Seq<char>, Seq<char>)>,
    trailer: Seq<char>,
) -> bool {
    &&& lacks(lead, '"')
    &&& lacks(trailer, '"')
    &&& !contains(trailer, blank_line())
    &&& forall|i: int| 0 <= i < parts.len() ==> lacks(#[trigger] parts[i].0, '"') && !contains(parts[i].1, crlf())
    &&& forall|i: int, j: int| 0 <= i < j < parts.len() ==> #[trigger] parts[i].0 != #[trigger] parts[j].0
}

proof fn lemma_find_at(s: Seq<char>, pat: Seq<char>, from: int, k: int)
    requires
        0 <= from <= k,
        occurs_at(s, pat, k),
        forall|j: int| from <= j < k ==> !occurs_at(s, pat, j),
    ensures
        find_from(s, pat, from) == Some(k),
    decreases k - from,
{
    if from < k {
        assert(!occurs_at(s, pat, from));
        lemma_find_at(s, pat, from + 1, k);
    }
}

proof fn lemma_find_none(s: Seq<char>, pat: Seq<char>, from: int)
    requires
        0 <= from,
        forall|j: int| from <= j ==> !occurs_at(s, pat, j),
    ensures
        find_from(s, pat, from) is None,
    decreases s.len() + 1 - from,
{
    if from + pat.len() <= s.len() {
        assert(!occurs_at(s, pat, from));
        lemma_find_none(s, pat, from + 1);
    }
}

/// Where the pieces of one part lie inside it.
proof fn lemma_part_layout(lead: Seq<char>, name: Seq<char>, value: Seq<char>)
    ensures
        ({
            let part = form_part(lead, name, value);
            let ll = lead.len() as int;
            let k = ll + 6;
            let q = k + name.len();
            let e = q + 5 + value.len();
            &&& part.len() == e + 2
            &&& part.subrange(0, ll) == lead
            &&& part.subrange(ll, k) == name_attr()
            &&& part.subrange(k, q) == name
            &&& part.subrange(q, q + 1) == quote()
            &&& part.subrange(q + 1, q + 5) == blank_line()
            &&& part.subrange(q + 5, e) == value
            &&& part.subrange(e, e + 2) == crlf()
        }),
{
    let ll = lead.len() as int;
    let k = ll + 6;
    let q = k + name.len();
    let e = q + 5 + value.len();
    let s1 = lead + name_attr();
    let s2 = s1 + name;
    let s3 = s2 + quote();
    let s4 = s3 + blank_line();
    let s5 = s4 + value;
    let part = s5 + crlf();
    assert(part.subrange(0, e) =~= s5);
    assert(s5.subrange(0, q + 5) =~= s4);
    assert(s4.subrange(0, q + 1) =~= s3);
    assert(s3.subrange(0, q) =~= s2);
    assert(s2.subrange(0, k) =~= s1);
    assert(part.subrange(0, ll) =~= s1.subrange(0, ll));
    assert(s1.subrange(0, ll) =~= lead);
    assert(part.subrange(ll, k) =~= s1.subrange(ll, k));
    assert(s1.subrange(ll, k) =~= name_attr());
    assert(part.subrange(k, q) =~= s2.subrange(k, q));
    assert(s2.subrange(k, q) =~= name);
    assert(part.subrange(q, q + 1) =~= s3.subrange(q, q + 1));
    assert(s3.subrange(q, q + 1) =~= quote());
    assert(part.subrange(q + 1, q + 5) =~= s4.subrange(q + 1, q + 5));
    assert(s4.subrange(q + 1, q + 5) =~= blank_line());
    assert(part.subrange(q + 5, e) =~= s5.subrange(q + 5, e));
    assert(s5.subrange(q + 5, e) =~= value);
    assert(part.subrange(e, e + 2) =~= crlf());
}

/// A part found at position `p` of a body is read back as its name and value.
#[verifier::rlimit(50)]
proof fn lemma_part_step(body: Seq<char>, p: int, lead: Seq<char>, name: Seq<char>, value: Seq<char>)
    requires
        0 <= p,
        lacks(lead, '"'),
        lacks(name, '"'),
        !contains(value, crlf()),
        p + form_part(lead, name, value).len() <= body.len(),
        body.subrange(p, p + form_part(lead, name, value).len()) == form_part(lead, name, value),
    ensures
        ({
            let k = p + lead.len() as int;
            let q = k + 6 + name.len();
            let e = q + 5 + value.len();
            &&& find_from(body, name_attr(), p) == Some(k)
            &&& find_from(body, quote(), k + 6) == Some(q)
            &&& find_from(body, blank_line(), q + 1) == Some(q + 1)
            &&& find_from(body, crlf(), q + 5) == Some(e)
            &&& body.subrange(k + 6, q) == name
            &&& body.subrange(q + 5, e) == value
            &&& e + 2 == p + form_part(lead, name, value).len()
        }),
{
    let part = form_part(lead, name, value);
    lemma_part_layout(lead, name, value);
    let ll = lead.len() as int;
    let k = p + ll;
    let q = k + 6 + name.len();
    let e = q + 5 + value.len();
    assert forall|i: int| 0 <= i < part.len() implies body[p + i] == #[trigger] part[i] by {
        assert(body.subrange(p, p + part.len())[i] == body[p + i]);
    }
    assert(body.subrange(k, k + 6) =~= name_attr()) by {
        assert forall|i: int| 0 <= i < 6 implies body.subrange(k, k + 6)[i] == name_attr()[i] by {
            assert(part.subrange(ll, ll + 6)[i] == part[ll + i]);
        }
    }
    assert(body.subrange(k + 6, q) =~= name) by {
        assert forall|i: int| 0 <= i < name.len() implies body.subrange(k + 6, q)[i] == name[i] by {
            assert(part.subrange(ll + 6, q - p)[i] == part[ll + 6 + i]);
        }
    }
    assert(body.subrange(q, q + 1) =~= quote()) by {
        assert(part.subrange(q - p, q - p + 1)[0] == part[q - p]);
    }
    assert(body.subrange(q + 1, q + 5) =~= blank_line()) by {
        assert forall|i: int| 0 <= i < 4 implies body.subrange(q + 1, q + 5)[i] == blank_line()[i] by {
            assert(part.subrange(q - p + 1, q - p + 5)[i] == part[q - p + 1 + i]);
        }
    }
    assert(body.subrange(q + 5, e) =~= value) by {
        assert forall|i: int| 0 <= i < value.len() implies body.subrange(q + 5, e)[i] == value[i] by {
            assert(part.subrange(q - p + 5, e - p)[i] == part[q - p + 5 + i]);
        }
    }
    assert(body.subrange(e, e + 2) =~= crlf()) by {
        assert forall|i: int| 0 <= i < 2 implies body.subrange(e, e + 2)[i] == crlf()[i] by {
            assert(part.subrange(e - p, e - p + 2)[i] == part[e - p + i]);
        }
    }
    assert(name_attr()[5] == '"');
    assert forall|j: int| p <= j < k implies !occurs_at(body, name_attr(), j) by {
        if occurs_at(body, name_attr(), j) {
            assert(body.subrange(j, j + 6)[5] == body[j + 5]);
            if j + 5 < k {
                assert(part.subrange(0, ll)[j + 5 - p] == part[j + 5 - p]);
            } else {
                assert(body.subrange(k, k + 6)[j + 5 - k] == body[j + 5]);
            }
        }
    }
    lemma_find_at(body, name_attr(), p, k);
    assert forall|j: int| k + 6 <= j < q implies !occurs_at(body, quote(), j) by {
        if occurs_at(body, quote(), j) {
            assert(body.subrange(j, j + 1)[0] == body[j]);
            assert(body.subrange(k + 6, q)[j - k - 6] == body[j]);
        }
    }
    lemma_find_at(body, quote(), k + 6, q);
    lemma_find_at(body, blank_line(), q + 1, q + 1);
    assert forall|j: int| q + 5 <= j < e implies !occurs_at(body, crlf(), j) by {
        if occurs_at(body, crlf(), j) {
            if j + 1 < e {
                assert(value.subrange(j - q - 5, j - q - 3) =~= body.subrange(j, j + 2));
                assert(occurs_at(value, crlf(), j - q - 5));
            } else {
                assert(body.subrange(j, j + 2)[1] == body[e]);
                assert(body.subrange(e, e + 2)[0] == body[e]);
            }
        }
    }
    lemma_find_at(body, crlf(), q + 5, e);
}

/// Decoding a well-formed body that follows arbitrary text yields its parts.
proof fn lemma_decode_parts(
    prefix: Seq<char>,
    lead: Seq<char>,
    parts: Seq<(Seq<char>, Seq<char>)>,
    trailer: Seq<char>,
)
    requires
        well_formed_parts(lead, parts, trailer),
    ensures
        decode_from(prefix + form_body(lead, parts, trailer), prefix.len() as int) == Some(parts),
    decreases parts.len(),
{
    let body = prefix + form_body(lead, parts, trailer);
    let p = prefix.len() as int;
    assert(name_attr()[5] == '"');
    if parts.len() == 0 {
        assert forall|j: int| p <= j implies !occurs_at(body, name_attr(), j) by {
            if occurs_at(body, name_attr(), j) {
                assert(body.subrange(j, j + 6)[5] == body[j + 5]);
                assert(body[j + 5] == trailer[j + 5 - p]);
            }
        }
        lemma_find_none(body, name_attr(), p);
        assert forall|j: int| p <= j implies !occurs_at(body, blank_line(), j) by {
            if occurs_at(body, blank_line(), j) {
                assert(trailer.subrange(j - p, j - p + 4) =~= body.subrange(j, j + 4));
                assert(occurs_at(trailer, blank_line(), j - p));
            }
        }
        lemma_find_none(body, blank_line(), p);
        assert(parts =~= Seq::<(Seq<char>, Seq<char>)>::empty());
    } else {
        let name = parts[0].0;
        let value = parts[0].1;
        let rest = parts.drop_first();
        assert(lacks(name, '"') && !contains(value, crlf()));
        assert(well_formed_parts(lead, rest, trailer)) by {
            assert forall|i: int| 0 <= i < rest.len() implies lacks(#[trigger] rest[i].0, '"') && !contains(rest[i].1, crlf()) by {
                assert(rest[i] == parts[i + 1]);
            }
            assert forall|i: int, j: int| 0 <= i < j < rest.len() implies #[trigger] rest[i].0 != #[trigger] rest[j].0 by {
                assert(rest[i] == parts[i + 1] && rest[j] == parts[j + 1]);
            }
        }
        let part = form_part(lead, name, value);
        let tail = form_body(lead, rest, trailer);
        assert(body =~= (prefix + part) + tail);
        assert(body.subrange(p, p + part.len()) =~= part);
        lemma_part_step(body, p, lead, name, value);
        lemma_decode_parts(prefix + part, lead, rest, trailer);
        assert(seq![(name, value)] + rest =~= parts);
    }
}

/// Distinct names each get their own entry, holding their value.
proof fn lemma_pairs_map_distinct(parts: Seq<(Seq<char>, Seq<char>)>)
    requires
        forall|i: int, j: int| 0 <= i < j < parts.len() ==> #[trigger] parts[i].0 != #[trigger] parts[j].0,
    ensures
        pairs_map(parts).dom().len() == parts.len(),
        pairs_map(parts).dom().finite(),
        forall|i: int| 0 <= i < parts.len() ==> #[trigger] pairs_map(parts)[parts[i].0] == parts[i].1
            && pairs_map(parts).contains_key(parts[i].0),
        forall|k: Seq<char>| #[trigger] pairs_map(parts).contains_key(k) ==> exists|i: int| 0 <= i < parts.len() && parts[i].0 == k,
    decreases parts.len(),
{
    if parts.len() > 0 {
        let init = parts.drop_last();
        assert forall|i: int, j: int| 0 <= i < j < init.len() implies #[trigger] init[i].0 != #[trigger] init[j].0 by {
            assert(init[i] == parts[i] && init[j] == parts[j]);
        }
        lemma_pairs_map_distinct(init);
        let last = parts.last();
        if pairs_map(init).contains_key(last.0) {
            let i = choose|i: int| 0 <= i < init.len() && init[i].0 == last.0;
            assert(parts[i].0 == parts[parts.len() - 1].0);
        }
        assert forall|i: int| 0 <= i < parts.len() implies #[trigger] pairs_map(parts)[parts[i].0] == parts[i].1
            && pairs_map(parts).contains_key(parts[i].0) by {
            if i < parts.len() - 1 {
                assert(init[i] == parts[i]);
                assert(parts[i].0 != parts[parts.len() - 1].0);
            }
        }
        assert forall|k: Seq<char>| #[trigger] pairs_map(parts).contains_key(k) implies exists|i: int| 0 <= i < parts.len() && parts[i].0 == k by {
            if k != last.0 {
                let i = choose|i: int| 0 <= i < init.len() && init[i].0 == k;
                assert(parts[i] == init[i]);
            } else {
                assert(parts[parts.len() - 1].0 == k);
            }
        }
    }
}

/// Decoding a well-formed body with `n` parts of distinct names gives a map with
/// exactly `n` entries, each name mapped to the value of its part.
pub proof fn lemma_decode_well_formed(
    lead: Seq<char>,
    parts: Seq<(Seq<char>, Seq<char>)>,
    trailer: Seq<char>,
)
    requires
        well_formed_parts(lead, parts, trailer),
    ensures
        decode_from(form_body(lead, parts, trailer), 0) == Some(parts),
        pairs_map(parts).dom().len() == parts.len(),
        forall|i: int| 0 <= i < parts.len() ==> #[trigger] pairs_map(parts)[parts[i].0] == parts[i].1,
{
    lemma_decode_parts(Seq::empty(), lead, parts, trailer);
    assert(Seq::<char>::empty() + form_body(lead, parts, trailer) == form_body(lead, parts, trailer));
    lemma_pairs_map_distinct(parts);
}

} // verus!
