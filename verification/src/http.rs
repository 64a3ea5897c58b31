//! What the library speaks of HTTP: status codes, Basic credentials and form bodies.
use vstd::hash_map::StringHashMap;
use vstd::prelude::*;
use vstd::string::*;

use crate::text::str_equals;

verus! {

/// The status codes with which the token endpoint answers.
#[derive(Debug, Clone, Copy, PartialEq, Eq, Structural)]
pub enum StatusCode {
    /// 200 OK
    Success,
    /// 400 Bad Request
    BadRequest,
    /// 401 Unauthorized
    Unauthorized,
    /// 403 Forbidden
    Forbidden,
    /// 500 Internal Server Error
    InternalServerError,
}

impl StatusCode {
    /// The number of the status code.
    pub open spec fn spec_as_u16(self) -> u16 {
        match self {
            StatusCode::Success => 200,
            StatusCode::BadRequest => 400,
            StatusCode::Unauthorized => 401,
            StatusCode::Forbidden => 403,
            StatusCode::InternalServerError => 500,
        }
    }

    /// The number of the status code.
    #[verifier::when_used_as_spec(spec_as_u16)]
    pub fn as_u16(self) -> (code: u16)
        ensures
            code == self.spec_as_u16(),
    {
        match self {
            StatusCode::Success => 200,
            StatusCode::BadRequest => 400,
            StatusCode::Unauthorized => 401,
            StatusCode::Forbidden => 403,
            StatusCode::InternalServerError => 500,
        }
    }
}

/// The credentials of an `Authorization: Basic` header, decoded: the user name is the
/// identifier of a client, the password its secret.
#[derive(Debug, PartialEq, Eq)]
pub struct BasicCredentials {
    pub username: String,
    pub password: String,
}

impl Clone for BasicCredentials {
    fn clone(&self) -> (copy: Self)
        ensures
            copy.username@ == self.username@,
            copy.password@ == self.password@,
    {
        BasicCredentials { username: self.username.clone(), password: self.password.clone() }
    }
}

/// The name and value pairs that the crate `form_urlencoded` reads from a body in the
/// `application/x-www-form-urlencoded` syntax, in the order of the body.
pub uninterp spec fn urlencoded_pairs(body: Seq<u8>) -> Seq<(Seq<char>, Seq<char>)>;

/// The pairs as character sequences, in order.
pub open spec fn pair_views(pairs: Seq<(String, String)>) -> Seq<(Seq<char>, Seq<char>)> {
    Seq::new(pairs.len(), |i: int| (pairs[i].0@, pairs[i].1@))
}

/// `form_urlencoded::parse`, with each pair that it yields made into owned strings.
///
/// The parser never fails: it cuts the body at `&` and `=`, decodes percent escapes and
/// `+`, and replaces what is not UTF-8. What it yields depends on the body alone; the
/// contract gives it the name `urlencoded_pairs`.
#[verifier::external_body]
fn parse_urlencoded(body: &[u8]) -> (pairs: Vec<(String, String)>)
    ensures
        pair_views(pairs@) == urlencoded_pairs(body@),
{
    form_urlencoded::parse(body).into_owned().collect()
}

/// The value of the first of `pairs` that bears the name `name`.
pub open spec fn first_value(pairs: Seq<(Seq<char>, Seq<char>)>, name: Seq<char>) -> Option<
    Seq<char>,
>
    decreases pairs.len(),
{
    if pairs.len() == 0 {
        None
    } else if pairs.first().0 == name {
        Some(pairs.first().1)
    } else {
        first_value(pairs.drop_first(), name)
    }
}

/// The pairs as a map from names to values, in which a later pair takes the place of an
/// earlier one of the same name.
pub open spec fn pairs_as_map(pairs: Seq<(Seq<char>, Seq<char>)>) -> Map<Seq<char>, Seq<char>>
    decreases pairs.len(),
{
    if pairs.len() == 0 {
        Map::empty()
    } else {
        pairs_as_map(pairs.drop_last()).insert(pairs.last().0, pairs.last().1)
    }
}

/// Whether the pair of `pairs` at `i` is the last that bears the name `name`.
pub open spec fn is_last_named(pairs: Seq<(Seq<char>, Seq<char>)>, name: Seq<char>, i: int) -> bool {
    &&& 0 <= i < pairs.len()
    &&& pairs[i].0 == name
    &&& forall|j: int| i < j < pairs.len() ==> (#[trigger] pairs[j]).0 != name
}

/// A name has a value in the map of `pairs` exactly if one of the pairs bears it, and its
/// value is then that of the last pair that does.
pub proof fn lemma_last_pair_stands(pairs: Seq<(Seq<char>, Seq<char>)>, name: Seq<char>)
    ensures
        pairs_as_map(pairs).dom().contains(name) <==> exists|i: int|
            0 <= i < pairs.len() && (#[trigger] pairs[i]).0 == name,
        pairs_as_map(pairs).dom().contains(name) ==> exists|i: int|
            is_last_named(pairs, name, i) && pairs_as_map(pairs)[name] == (#[trigger] pairs[i]).1,
    decreases pairs.len(),
{
    if pairs.len() > 0 {
        let earlier = pairs.drop_last();
        let last = pairs.len() - 1;
        lemma_last_pair_stands(earlier, name);
        if pairs.last().0 == name {
            assert(pairs[last].0 == name);
            assert(is_last_named(pairs, name, last));
        } else {
            if pairs_as_map(earlier).dom().contains(name) {
                let i = choose|i: int|
                    is_last_named(earlier, name, i) && pairs_as_map(earlier)[name] == (
                    #[trigger] earlier[i]).1;
                assert(pairs[i] == earlier[i]);
                assert forall|j: int| i < j < pairs.len() implies (#[trigger] pairs[j]).0 != name by {
                    if j < last {
                        assert(pairs[j] == earlier[j]);
                    }
                }
                assert(is_last_named(pairs, name, i));
            }
            if exists|i: int| 0 <= i < pairs.len() && (#[trigger] pairs[i]).0 == name {
                let i = choose|i: int| 0 <= i < pairs.len() && (#[trigger] pairs[i]).0 == name;
                assert(i < last);
                assert(earlier[i] == pairs[i]);
            }
        }
    }
}

/// The value of the first of `pairs` that bears the name `name`.
pub fn find_first(pairs: &Vec<(String, String)>, name: &str) -> (value: Option<String>)
    ensures
        match value {
            Some(text) => first_value(pair_views(pairs@), name@) == Some(text@),
            None => first_value(pair_views(pairs@), name@) is None,
        },
{
    let ghost all = pair_views(pairs@);
    let mut i: usize = 0;
    assert(all.skip(0) =~= all);
    while i < pairs.len()
        invariant
            i <= pairs@.len(),
            all == pair_views(pairs@),
            first_value(all, name@) == first_value(all.skip(i as int), name@),
        decreases pairs@.len() - i,
    {
        proof {
            assert(all.skip(i as int).first() == all[i as int]);
            assert(all.skip(i as int).drop_first() =~= all.skip(i as int + 1));
        }
        if str_equals(pairs[i].0.as_str(), name) {
            return Some(pairs[i].1.clone());
        }
        i += 1;
    }
    None
}

/// The value that a form body gives to the field `name` where it first names it.
pub fn first_field(body: &[u8], name: &str) -> (value: Option<String>)
    ensures
        match value {
            Some(text) => first_value(urlencoded_pairs(body@), name@) == Some(text@),
            None => first_value(urlencoded_pairs(body@), name@) is None,
        },
{
    let pairs = parse_urlencoded(body);
    find_first(&pairs, name)
}

/// The value of a field of a form, if the form has that field.
pub open spec fn field_of(form: Map<Seq<char>, Seq<char>>, name: Seq<char>) -> Option<Seq<char>> {
    if form.dom().contains(name) {
        Some(form[name])
    } else {
        None
    }
}

/// The fields of a form, each name with one value.
pub struct FormParameters {
    map: StringHashMap<String>,
}

impl View for FormParameters {
    type V = Map<Seq<char>, Seq<char>>;

    /// The value of each field, by its name.
    closed spec fn view(&self) -> Map<Seq<char>, Seq<char>> {
        Map::new(
            |name: Seq<char>| self.map@.dom().contains(name),
            |name: Seq<char>| self.map@[name]@,
        )
    }
}

impl FormParameters {
    /// A form without fields.
    pub fn new() -> (form: Self)
        ensures
            form@ == Map::<Seq<char>, Seq<char>>::empty(),
    {
        let form = FormParameters { map: StringHashMap::new() };
        assert(form@ =~= Map::<Seq<char>, Seq<char>>::empty());
        form
    }

    /// Gives the field `name` the value `value`, in place of the value that it had.
    pub fn insert(&mut self, name: String, value: String)
        ensures
            final(self)@ == old(self)@.insert(name@, value@),
    {
        self.map.insert(name, value);
        assert(self@ =~= old(self)@.insert(name@, value@));
    }

    /// The form of the given pairs. Where a name comes more than once, its last value
    /// stands.
    pub fn from_pairs(pairs: &Vec<(String, String)>) -> (form: Self)
        ensures
            form@ == pairs_as_map(pair_views(pairs@)),
    {
        let ghost all = pair_views(pairs@);
        let mut form = FormParameters::new();
        let mut i: usize = 0;
        assert(all.take(0) =~= Seq::<(Seq<char>, Seq<char>)>::empty());
        while i < pairs.len()
            invariant
                i <= pairs@.len(),
                all == pair_views(pairs@),
                form@ == pairs_as_map(all.take(i as int)),
            decreases pairs@.len() - i,
        {
            proof {
                assert(all.take(i as int + 1).drop_last() =~= all.take(i as int));
                assert(all.take(i as int + 1).last() == all[i as int]);
            }
            form.insert(pairs[i].0.clone(), pairs[i].1.clone());
            i += 1;
        }
        assert(all.take(pairs@.len() as int) =~= all);
        form
    }

    /// The form that a body in the `application/x-www-form-urlencoded` syntax holds.
    pub fn from_body(body: &[u8]) -> (form: Self)
        ensures
            form@ == pairs_as_map(urlencoded_pairs(body@)),
    {
        let pairs = parse_urlencoded(body);
        FormParameters::from_pairs(&pairs)
    }

    /// The value of the field `name`.
    pub fn get(&self, name: &str) -> (value: Option<&String>)
        ensures
            match value {
                Some(text) => field_of(self@, name@) == Some(text@),
                None => field_of(self@, name@) is None,
            },
    {
        self.map.get(name)
    }
}

} // verus!
