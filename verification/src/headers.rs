//! Header fields: a mapping from name to value in which a name occurs once.
//! Names are compared character by character, and a later value for a name
//! replaces the earlier one.
use vstd::prelude::*;
use crate::text::str_eq;
use vstd::std_specs::cmp::PartialEqSpecImpl;

verus! {

/// A header field as a pair of character sequences: name, then value.
pub type Field = (Seq<char>, Seq<char>);

/// Some field of `e` has the name `k`.
pub open spec fn has_name(e: Seq<Field>, k: Seq<char>) -> bool {
    exists|i: int| 0 <= i < e.len() && (#[trigger] e[i]).0 == k
}

/// A position in `e` of a field named `k`.
pub open spec fn position(e: Seq<Field>, k: Seq<char>) -> int {
    choose|i: int| 0 <= i < e.len() && (#[trigger] e[i]).0 == k
}

/// No name occurs twice in `e`.
pub open spec fn distinct_names(e: Seq<Field>) -> bool {
    forall|i: int, j: int| 0 <= i < j < e.len() ==> (#[trigger] e[i]).0 != (#[trigger] e[j]).0
}

/// `e` with the value of `k` set to `v`: in the place of the field named `k`
/// where there is one, at the end otherwise.
pub open spec fn put(e: Seq<Field>, k: Seq<char>, v: Seq<char>) -> Seq<Field> {
    if has_name(e, k) {
        e.update(position(e, k), (k, v))
    } else {
        e.push((k, v))
    }
}

/// The mapping that the fields of `e` stand for.
pub open spec fn mapping(e: Seq<Field>) -> Map<Seq<char>, Seq<char>> {
    Map::new(|k: Seq<char>| has_name(e, k), |k: Seq<char>| e[position(e, k)].1)
}

/// Setting a value keeps the names distinct, and is an insertion into the
/// mapping.
pub proof fn lemma_put(e: Seq<Field>, k: Seq<char>, v: Seq<char>)
    requires
        distinct_names(e),
    ensures
        distinct_names(put(e, k, v)),
        mapping(put(e, k, v)) == mapping(e).insert(k, v),
        put(e, k, v).len() == if has_name(e, k) {
            e.len()
        } else {
            e.len() + 1
        },
{
    let p = put(e, k, v);
    let at: int = if has_name(e, k) {
        position(e, k)
    } else {
        e.len() as int
    };
    assert(p[at] == (k, v));
    assert(forall|i: int| 0 <= i < p.len() && i != at ==> p[i] == e[i]);
    assert(forall|i: int| 0 <= i < p.len() && i != at ==> (#[trigger] p[i]).0 != k);
    assert forall|x: Seq<char>| has_name(p, x) <==> (x == k || has_name(e, x)) by {
        if has_name(p, x) && x != k {
            let i = position(p, x);
            assert(e[i].0 == x);
        }
        if has_name(e, x) && x != k {
            let i = position(e, x);
            assert(p[i].0 == x);
        }
        if x == k {
            assert(p[at].0 == k);
        }
    }
    assert forall|x: Seq<char>| has_name(p, x) implies #[trigger] mapping(p)[x] == mapping(
        e,
    ).insert(k, v)[x] by {
        let i = position(p, x);
        if x != k {
            assert(e[i].0 == x);
            let j = position(e, x);
            assert(e[j].0 == x);
            assert(i == j);
        } else {
            assert(p[i].0 == k);
            assert(i == at);
        }
    }
    assert(mapping(p) =~= mapping(e).insert(k, v));
}

/// In a sequence without a repeated name, a field is what the mapping holds
/// under its name.
pub proof fn lemma_mapping_at(e: Seq<Field>, i: int)
    requires
        distinct_names(e),
        0 <= i < e.len(),
    ensures
        mapping(e).contains_key(e[i].0),
        mapping(e)[e[i].0] == e[i].1,
{
    assert(has_name(e, e[i].0));
    assert(position(e, e[i].0) == i);
}

/// Header fields.
#[derive(Debug)]
pub struct Headers {
    fields: Vec<(String, String)>,
}

impl View for Headers {
    type V = Map<Seq<char>, Seq<char>>;

    /// The mapping from name to value.
    open spec fn view(&self) -> Map<Seq<char>, Seq<char>> {
        mapping(self.entries())
    }
}

impl Headers {
    /// The fields in the order in which they are written out.
    pub closed spec fn entries(&self) -> Seq<Field> {
        Seq::new(self.fields@.len(), |i: int| (self.fields@[i].0@, self.fields@[i].1@))
    }

    #[verifier::type_invariant]
    spec fn names_once(&self) -> bool {
        distinct_names(self.entries())
    }

    /// No fields.
    pub fn new() -> (h: Headers)
        ensures
            h.entries() == Seq::<Field>::empty(),
            h@ == Map::<Seq<char>, Seq<char>>::empty(),
    {
        let h = Headers { fields: Vec::new() };
        proof {
            assert(h.entries() =~= Seq::<Field>::empty());
            assert(h@ =~= Map::<Seq<char>, Seq<char>>::empty());
        }
        h
    }

    /// The number of fields.
    pub fn len(&self) -> (n: usize)
        ensures
            n == self.entries().len(),
    {
        self.fields.len()
    }

    /// Sets the value of `name`, in place of an earlier value if there is
    /// one.
    pub fn insert(&mut self, name: String, value: String)
        ensures
            final(self).entries() == put(old(self).entries(), name@, value@),
            final(self)@ == old(self)@.insert(name@, value@),
    {
        proof {
            use_type_invariant(&*self);
            lemma_put(self.entries(), name@, value@);
        }
        let ghost before = self.entries();
        let mut taken = Headers { fields: Vec::new() };
        core::mem::swap(self, &mut taken);
        let mut fields = taken.fields;
        let n: usize = fields.len();
        let mut i: usize = 0;
        let mut at: Option<usize> = None;
        while i < n && at.is_none()
            invariant
                i <= n,
                n == fields.len(),
                at is None ==> forall|j: int| 0 <= j < i ==> (#[trigger] before[j]).0 != name@,
                at is Some ==> at->0 < n && before[at->0 as int].0 == name@,
                before == Seq::new(fields@.len(), |i: int| (fields@[i].0@, fields@[i].1@)),
            decreases n - i + if at is None { 1int } else { 0int },
        {
            if fields[i].0 == name {
                at = Some(i);
            } else {
                i += 1;
            }
        }
        match at {
            Some(k) => {
                proof {
                    assert(has_name(before, name@));
                    assert(position(before, name@) == k);
                }
                fields.set(k, (name, value));
            },
            None => {
                proof {
                    assert(!has_name(before, name@));
                }
                fields.push((name, value));
            },
        }
        let ghost after = Seq::new(fields@.len(), |i: int| (fields@[i].0@, fields@[i].1@));
        proof {
            assert(after =~= put(before, name@, value@));
        }
        *self = Headers { fields };
    }

    /// The value of `name`, if it has one.
    pub fn get(&self, name: &str) -> (r: Option<&String>)
        ensures
            match r {
                Some(v) => self@.contains_key(name@) && self@[name@] == v@,
                None => !self@.contains_key(name@),
            },
    {
        proof {
            use_type_invariant(self);
        }
        let n: usize = self.fields.len();
        let mut i: usize = 0;
        while i < n
            invariant
                i <= n,
                n == self.fields.len(),
                distinct_names(self.entries()),
                forall|j: int| 0 <= j < i ==> (#[trigger] self.entries()[j]).0 != name@,
            decreases n - i,
        {
            if str_eq(self.fields[i].0.as_str(), name) {
                proof {
                    assert(self.entries()[i as int].0 == name@);
                    lemma_mapping_at(self.entries(), i as int);
                }
                return Some(&self.fields[i].1);
            }
            i += 1;
        }
        None
    }
}

impl Headers {
    /// The field at position `i` of the order in which the fields are
    /// written out, if there are that many.
    pub fn field(&self, i: usize) -> (r: Option<(&String, &String)>)
        ensures
            match r {
                Some((k, v)) => i < self.entries().len() && self.entries()[i as int] == (k@, v@),
                None => i >= self.entries().len(),
            },
    {
        if i < self.fields.len() {
            Some((&self.fields[i].0, &self.fields[i].1))
        } else {
            None
        }
    }

    /// Tests whether every field of `self` stands in `other` with the same
    /// value.
    pub fn within(&self, other: &Headers) -> (r: bool)
        ensures
            r == self@.submap_of(other@),
    {
        proof {
            use_type_invariant(self);
        }
        let n: usize = self.fields.len();
        let mut i: usize = 0;
        while i < n
            invariant
                i <= n,
                n == self.fields.len(),
                distinct_names(self.entries()),
                forall|j: int|
                    0 <= j < i ==> other@.contains_key((#[trigger] self.entries()[j]).0)
                        && other@[self.entries()[j].0] == self.entries()[j].1,
            decreases n - i,
        {
            proof {
                lemma_mapping_at(self.entries(), i as int);
            }
            let same = match other.get(self.fields[i].0.as_str()) {
                Some(v) => *v == self.fields[i].1,
                None => false,
            };
            if !same {
                return false;
            }
            i += 1;
        }
        proof {
            assert forall|k: Seq<char>| self@.contains_key(k) implies other@.contains_key(k)
                && self@[k] == other@[k] by {
                let j = position(self.entries(), k);
                assert(self.entries()[j].0 == k);
                lemma_mapping_at(self.entries(), j);
            }
        }
        true
    }
}

impl Clone for Headers {
    fn clone(&self) -> (r: Headers)
        ensures
            r.entries() == self.entries(),
            r@ == self@,
    {
        proof {
            use_type_invariant(self);
        }
        let n: usize = self.fields.len();
        let mut fields: Vec<(String, String)> = Vec::new();
        let mut i: usize = 0;
        while i < n
            invariant
                i <= n,
                n == self.fields.len(),
                fields.len() == i,
                forall|j: int|
                    0 <= j < i ==> (#[trigger] fields@[j]).0@ == self.fields@[j].0@ && fields@[j].1@
                        == self.fields@[j].1@,
            decreases n - i,
        {
            fields.push((self.fields[i].0.clone(), self.fields[i].1.clone()));
            i += 1;
        }
        proof {
            assert(Seq::new(fields@.len(), |i: int| (fields@[i].0@, fields@[i].1@))
                =~= self.entries());
        }
        Headers { fields }
    }
}

impl PartialEq for Headers {
    /// Two sets of fields are equal where they are the same mapping.
    fn eq(&self, other: &Headers) -> (r: bool) {
        let r = self.within(other) && other.within(self);
        proof {
            if r {
                assert(self@ =~= other@);
            }
        }
        r
    }
}

impl PartialEqSpecImpl for Headers {
    open spec fn obeys_eq_spec() -> bool {
        true
    }

    open spec fn eq_spec(&self, other: &Headers) -> bool {
        self@ == other@
    }
}

} // verus!
