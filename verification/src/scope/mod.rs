//! Scopes: the named permissions that a token can carry.
use vstd::prelude::*;
use vstd::string::*;

pub mod parser;

pub use parser::{is_valid_scope, parse_scopes, ParseError};

verus! {

/// One scope, known by its name. Two scopes are equal when they bear the same name.
#[derive(Debug, Hash)]
pub struct Scope {
    pub name: String,
}

impl PartialEq for Scope {
    fn eq(&self, other: &Self) -> (same: bool) {
        self.name == other.name
    }
}

impl Eq for Scope {

}

impl vstd::std_specs::cmp::PartialEqSpecImpl for Scope {
    open spec fn obeys_eq_spec() -> bool {
        true
    }

    open spec fn eq_spec(&self, other: &Self) -> bool {
        self@ == other@
    }
}

impl View for Scope {
    type V = Seq<char>;

    open spec fn view(&self) -> Seq<char> {
        self.name@
    }
}

impl Clone for Scope {
    fn clone(&self) -> (copy: Self)
        ensures
            copy@ == self@,
    {
        Scope { name: self.name.clone() }
    }
}

impl From<String> for Scope {
    fn from(name: String) -> (scope: Self) {
        Scope { name }
    }
}

impl vstd::std_specs::convert::FromSpecImpl<String> for Scope {
    open spec fn obeys_from_spec() -> bool {
        true
    }

    open spec fn from_spec(name: String) -> Self {
        Scope { name }
    }
}

impl From<&str> for Scope {
    fn from(name: &str) -> (scope: Self)
        ensures
            scope@ == name@,
    {
        Scope { name: name.to_owned() }
    }
}

impl vstd::std_specs::convert::FromSpecImpl<&str> for Scope {
    open spec fn obeys_from_spec() -> bool {
        false
    }

    open spec fn from_spec(name: &str) -> Self {
        arbitrary()
    }
}

impl From<&String> for Scope {
    fn from(name: &String) -> (scope: Self)
        ensures
            scope@ == name@,
    {
        Scope { name: name.clone() }
    }
}

impl vstd::std_specs::convert::FromSpecImpl<&String> for Scope {
    open spec fn obeys_from_spec() -> bool {
        false
    }

    open spec fn from_spec(name: &String) -> Self {
        arbitrary()
    }
}

/// The names of `scopes`, in order.
pub open spec fn scope_names(scopes: Seq<Scope>) -> Seq<Seq<char>> {
    Seq::new(scopes.len(), |i: int| scopes[i]@)
}

/// Whether a scope named `name` is among `scopes`.
pub fn has_scope(scopes: &Vec<Scope>, name: &String) -> (found: bool)
    ensures
        found == scope_names(scopes@).contains(name@),
{
    let mut i: usize = 0;
    while i < scopes.len()
        invariant
            i <= scopes@.len(),
            forall|j: int| 0 <= j < i ==> scope_names(scopes@)[j] != name@,
        decreases scopes@.len() - i,
    {
        if scopes[i].name == *name {
            assert(scope_names(scopes@)[i as int] == name@);
            return true;
        }
        i += 1;
    }
    false
}

/// The names of `names` joined by single spaces.
pub open spec fn space_joined(names: Seq<Seq<char>>) -> Seq<char>
    decreases names.len(),
{
    if names.len() == 0 {
        Seq::empty()
    } else if names.len() == 1 {
        names[0]
    } else {
        space_joined(names.drop_last()) + seq![' '] + names.last()
    }
}

/// Whether every scope of `some` is among `all`.
pub fn scopes_among(some: &Vec<Scope>, all: &Vec<Scope>) -> (among: bool)
    ensures
        among == scope_names(some@).to_set().subset_of(scope_names(all@).to_set()),
{
    let mut i: usize = 0;
    while i < some.len()
        invariant
            i <= some@.len(),
            forall|j: int| 0 <= j < i ==> scope_names(all@).contains(#[trigger] scope_names(some@)[j]),
        decreases some@.len() - i,
    {
        if !has_scope(all, &some[i].name) {
            proof {
                let missing = scope_names(some@)[i as int];
                assert(scope_names(some@).to_set().contains(missing));
                assert(!scope_names(all@).to_set().contains(missing));
            }
            return false;
        }
        i += 1;
    }
    true
}

/// A set of distinct scopes, kept in the order in which they were asked for. Two of them
/// are equal when they hold the same scopes, in whatever order.
#[derive(Debug)]
pub struct Scopes(pub Vec<Scope>);

impl PartialEq for Scopes {
    fn eq(&self, other: &Self) -> (same: bool) {
        let same = scopes_among(&self.0, &other.0) && scopes_among(&other.0, &self.0);
        proof {
            if same {
                assert(self.names() =~= other.names());
            }
        }
        same
    }
}

impl Eq for Scopes {

}

impl vstd::std_specs::cmp::PartialEqSpecImpl for Scopes {
    open spec fn obeys_eq_spec() -> bool {
        true
    }

    open spec fn eq_spec(&self, other: &Self) -> bool {
        self.names() == other.names()
    }
}

impl View for Scopes {
    type V = Seq<Seq<char>>;

    open spec fn view(&self) -> Seq<Seq<char>> {
        scope_names(self.0@)
    }
}

impl Clone for Scopes {
    fn clone(&self) -> (copy: Self)
        ensures
            copy@ == self@,
    {
        let mut items: Vec<Scope> = Vec::new();
        let mut i: usize = 0;
        while i < self.0.len()
            invariant
                i <= self.0@.len(),
                items@.len() == i,
                forall|j: int| 0 <= j < i ==> items@[j]@ == self.0@[j]@,
            decreases self.0@.len() - i,
        {
            items.push(self.0[i].clone());
            i += 1;
        }
        let copy = Scopes(items);
        assert(copy@ =~= self@);
        copy
    }
}

impl Scopes {
    /// No scope occurs twice.
    pub open spec fn wf(&self) -> bool {
        self@.no_duplicates()
    }

    /// The scopes as a set of names.
    pub open spec fn names(&self) -> Set<Seq<char>> {
        self@.to_set()
    }

    /// Whether `scope` is one of these scopes.
    pub fn contains(&self, scope: &Scope) -> (found: bool)
        ensures
            found == self@.contains(scope@),
    {
        has_scope(&self.0, &scope.name)
    }

    /// The scopes as they stand in a token response: their names, separated by single spaces.
    pub fn to_space_delimited(&self) -> (text: String)
        ensures
            text@ == space_joined(self@),
    {
        let mut text = String::new();
        let mut i: usize = 0;
        while i < self.0.len()
            invariant
                i <= self.0@.len(),
                text@ == space_joined(self@.take(i as int)),
            decreases self.0@.len() - i,
        {
            proof {
                let before = self@.take(i as int);
                let after = self@.take(i as int + 1);
                assert(after.drop_last() =~= before);
                assert(after.last() == self.0@[i as int]@);
                reveal_strlit(" ");
                assert(" "@ =~= seq![' ']);
                if i == 0 {
                    assert(before.len() == 0);
                } else if i == 1 {
                    assert(before.len() == 1);
                }
            }
            if i > 0 {
                text.append(" ");
            }
            text.append(self.0[i].name.as_str());
            i += 1;
        }
        assert(self@.take(self.0@.len() as int) =~= self@);
        text
    }
}

} // verus!
