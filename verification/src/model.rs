//! In-memory model of managed entities: typed variables, method
//! signatures, and namespace-qualified classes.
//!
//! Field and method collections are sets under structural equality:
//! inserting a variable or method whose (type, name, ...) data is already
//! present leaves the collection unchanged, so duplicates collapse.

use vstd::prelude::*;

use crate::strutil::str_eq;
use crate::types::Type;

verus! {

/// Mathematical view of a `Variable`: a logical type and a name.
pub ghost struct VariableView {
    pub t: Type,
    pub name: Seq<char>,
}

/// One field or one argument: a (logical type, name) pair.
#[derive(Eq, PartialEq, Hash, Debug)]
pub struct Variable {
    pub t: Type,
    pub name: String,
}

impl View for Variable {
    type V = VariableView;

    open spec fn view(&self) -> VariableView {
        VariableView { t: self.t, name: self.name@ }
    }
}

impl Clone for Variable {
    fn clone(&self) -> (res: Self)
        ensures
            res@ == self@,
    {
        Variable { t: self.t, name: self.name.clone() }
    }
}

impl Variable {
    /// Structural equality of two variables, pinned to the views.
    pub fn same(&self, other: &Variable) -> (r: bool)
        ensures
            r == (self@ == other@),
    {
        self.t == other.t && str_eq(self.name.as_str(), other.name.as_str())
    }
}

/// Mathematical view of a `Method`: return type, name, receiver flag and
/// ordered argument list.
pub ghost struct MethodView {
    pub t: Type,
    pub name: Seq<char>,
    pub this: bool,
    pub args: Seq<VariableView>,
}

/// The views of a sequence of variables, in order.
pub open spec fn var_views(s: Seq<Variable>) -> Seq<VariableView> {
    s.map_values(|v: Variable| v@)
}

/// An ordered method argument list.
pub type Args = Vec<Variable>;

/// A method signature: return type, name, whether the method is an
/// instance method bound to a receiver, and its ordered argument list.
/// Method bodies are never modeled; only the signature's shape is kept.
#[derive(Eq, PartialEq, Hash, Debug)]
pub struct Method {
    t: Type,
    name: String,
    this: bool,
    args: Args,
}

impl View for Method {
    type V = MethodView;

    closed spec fn view(&self) -> MethodView {
        MethodView { t: self.t, name: self.name@, this: self.this, args: var_views(self.args@) }
    }
}

impl Clone for Method {
    fn clone(&self) -> (res: Self)
        ensures
            res@ == self@,
    {
        Method {
            t: self.t,
            name: self.name.clone(),
            this: self.this,
            args: clone_vars(&self.args),
        }
    }
}

/// Clone a variable list, preserving the views.
fn clone_vars(src: &Vec<Variable>) -> (res: Vec<Variable>)
    ensures
        var_views(res@) == var_views(src@),
{
    let mut res: Vec<Variable> = Vec::new();
    let mut i: usize = 0;
    while i < src.len()
        invariant
            0 <= i <= src.len(),
            res@.len() == i,
            forall|j: int| 0 <= j < i ==> res@[j]@ == src@[j]@,
        decreases src.len() - i,
    {
        res.push(src[i].clone());
        i += 1;
    }
    proof {
        assert(var_views(res@) =~= var_views(src@));
    }
    res
}

impl Method {
    /// Build a method signature from its parts.
    pub fn new(t: Type, name: String, this: bool, args: Args) -> (m: Method)
        ensures
            m@ == (MethodView { t, name: name@, this, args: var_views(args@) }),
    {
        Method { t, name, this, args }
    }

    /// Structural equality of two method signatures, pinned to the views.
    pub fn same(&self, other: &Method) -> (r: bool)
        ensures
            r == (self@ == other@),
    {
        if !(self.t == other.t && str_eq(self.name.as_str(), other.name.as_str()) && self.this
            == other.this && self.args.len() == other.args.len()) {
            proof {
                if self@.args == other@.args {
                    assert(self@.args.len() == other@.args.len());
                }
            }
            return false;
        }
        let mut i: usize = 0;
        while i < self.args.len()
            invariant
                self.args@.len() == other.args@.len(),
                0 <= i <= self.args@.len(),
                forall|j: int| 0 <= j < i ==> self.args@[j]@ == other.args@[j]@,
        decreases self.args@.len() - i,
        {
            if !self.args[i].same(&other.args[i]) {
                proof {
                    assert(var_views(self.args@)[i as int] != var_views(other.args@)[i as int]);
                }
                return false;
            }
            i += 1;
        }
        proof {
            assert(var_views(self.args@) =~= var_views(other.args@));
        }
        true
    }
}

/// True when the sequence holds an element with the given view.
pub open spec fn seq_has<T>(s: Seq<T>, v: T) -> bool {
    exists|i: int| 0 <= i < s.len() && s[i] == v
}

/// A sequence with no two elements equal: the model of a set kept in
/// insertion order.
pub open spec fn distinct<T>(s: Seq<T>) -> bool {
    forall|i: int, j: int| 0 <= i < j < s.len() ==> s[i] != s[j]
}

/// What inserting into a deduplicating set does to its model: an element
/// already present leaves it unchanged, a new one is appended.
pub open spec fn set_insert<T>(s: Seq<T>, v: T) -> Seq<T> {
    if seq_has(s, v) {
        s
    } else {
        s.push(v)
    }
}

/// Deduplication: inserting the same element twice is the same as
/// inserting it once, and a single insertion into an empty set yields a
/// set of size one.
pub proof fn lemma_set_insert_dedup<T>(s: Seq<T>, v: T)
    ensures
        set_insert(set_insert(s, v), v) == set_insert(s, v),
        s.len() == 0 ==> set_insert(set_insert(s, v), v).len() == 1,
{
    if !seq_has(s, v) {
        assert(s.push(v)[s.len() as int] == v);
        assert(seq_has(s.push(v), v));
    }
}

/// Insertion preserves distinctness.
pub proof fn lemma_set_insert_distinct<T>(s: Seq<T>, v: T)
    requires
        distinct(s),
    ensures
        distinct(set_insert(s, v)),
{
    if !seq_has(s, v) {
        assert forall|i: int, j: int|
            0 <= i < j < s.push(v).len() implies s.push(v)[i] != s.push(v)[j] by {
            if j == s.len() {
                assert(s.push(v)[j] == v);
            }
        }
    }
}

/// The set of a class's fields: variables, deduplicated by structural
/// equality, kept in insertion order.
#[derive(Debug)]
pub struct Fields {
    items: Vec<Variable>,
}

impl View for Fields {
    type V = Seq<VariableView>;

    closed spec fn view(&self) -> Seq<VariableView> {
        var_views(self.items@)
    }
}

impl Clone for Fields {
    fn clone(&self) -> (res: Self)
        ensures
            res@ == self@,
    {
        Fields { items: clone_vars(&self.items) }
    }
}

impl Fields {
    /// No two fields share both type and name.
    pub open spec fn wf(&self) -> bool {
        distinct(self@)
    }

    /// The empty field set.
    pub fn new() -> (r: Fields)
        ensures
            r@ == Seq::<VariableView>::empty(),
            r.wf(),
    {
        Fields { items: Vec::new() }
    }

    pub fn len(&self) -> (n: usize)
        ensures
            n == self@.len(),
    {
        self.items.len()
    }

    /// A borrow of the underlying variables, in insertion order.
    pub fn items(&self) -> (r: &Vec<Variable>)
        ensures
            var_views(r@) == self@,
    {
        &self.items
    }

    /// Membership under structural equality.
    pub fn contains(&self, v: &Variable) -> (r: bool)
        ensures
            r == seq_has(self@, v@),
    {
        let mut i: usize = 0;
        while i < self.items.len()
            invariant
                0 <= i <= self.items@.len(),
                forall|j: int| 0 <= j < i ==> self@[j] != v@,
            decreases self.items@.len() - i,
        {
            if self.items[i].same(v) {
                proof {
                    assert(self@[i as int] == v@);
                }
                return true;
            }
            i += 1;
        }
        false
    }

    /// Insert a field; a field with the same type and name as one already
    /// present is dropped, so the set never holds duplicates.
    pub fn insert(&mut self, v: Variable)
        requires
            old(self).wf(),
        ensures
            final(self)@ == set_insert(old(self)@, v@),
            final(self).wf(),
    {
        let present = self.contains(&v);
        if !present {
            self.items.push(v);
            proof {
                assert(var_views(self.items@) =~= var_views(old(self).items@).push(v@));
                lemma_set_insert_distinct(old(self)@, v@);
            }
        }
    }
}

impl Default for Fields {
    /// The empty field set.
    fn default() -> (r: Self)
        ensures
            r@ == Seq::<VariableView>::empty(),
            r.wf(),
    {
        Fields::new()
    }
}

/// The set of a class's methods: signatures, deduplicated by structural
/// equality, kept in insertion order.
#[derive(Debug)]
pub struct Methods {
    items: Vec<Method>,
}

/// The views of a sequence of methods, in order.
pub open spec fn method_views(s: Seq<Method>) -> Seq<MethodView> {
    s.map_values(|m: Method| m@)
}

impl View for Methods {
    type V = Seq<MethodView>;

    closed spec fn view(&self) -> Seq<MethodView> {
        method_views(self.items@)
    }
}

impl Clone for Methods {
    fn clone(&self) -> (res: Self)
        ensures
            res@ == self@,
    {
        let mut items: Vec<Method> = Vec::new();
        let mut i: usize = 0;
        while i < self.items.len()
            invariant
                0 <= i <= self.items@.len(),
                items@.len() == i,
                forall|j: int| 0 <= j < i ==> items@[j]@ == self.items@[j]@,
            decreases self.items@.len() - i,
        {
            items.push(self.items[i].clone());
            i += 1;
        }
        proof {
            assert(method_views(items@) =~= method_views(self.items@));
        }
        Methods { items }
    }
}

impl Methods {
    /// No two methods share their whole signature.
    pub open spec fn wf(&self) -> bool {
        distinct(self@)
    }

    /// The empty method set.
    pub fn new() -> (r: Methods)
        ensures
            r@ == Seq::<MethodView>::empty(),
            r.wf(),
    {
        Methods { items: Vec::new() }
    }

    pub fn len(&self) -> (n: usize)
        ensures
            n == self@.len(),
    {
        self.items.len()
    }

    /// Membership under structural equality.
    pub fn contains(&self, m: &Method) -> (r: bool)
        ensures
            r == seq_has(self@, m@),
    {
        let mut i: usize = 0;
        while i < self.items.len()
            invariant
                0 <= i <= self.items@.len(),
                forall|j: int| 0 <= j < i ==> self@[j] != m@,
            decreases self.items@.len() - i,
        {
            if self.items[i].same(m) {
                proof {
                    assert(self@[i as int] == m@);
                }
                return true;
            }
            i += 1;
        }
        false
    }

    /// Insert a method signature; an identical signature already present
    /// is dropped, so the set never holds duplicates.
    pub fn insert(&mut self, m: Method)
        requires
            old(self).wf(),
        ensures
            final(self)@ == set_insert(old(self)@, m@),
            final(self).wf(),
    {
        let present = self.contains(&m);
        if !present {
            self.items.push(m);
            proof {
                assert(method_views(self.items@) =~= method_views(old(self).items@).push(m@));
                lemma_set_insert_distinct(old(self)@, m@);
            }
        }
    }
}

impl Default for Methods {
    /// The empty method set.
    fn default() -> (r: Self)
        ensures
            r@ == Seq::<MethodView>::empty(),
            r.wf(),
    {
        Methods::new()
    }
}

/// An ordered namespace path; segments are joined with '.' for lookup.
pub type Namespace = Vec<String>;

/// Mathematical view of a `Class`.
pub ghost struct ClassView {
    pub namespace: Seq<Seq<char>>,
    pub name: Seq<char>,
    pub fields: Seq<VariableView>,
    pub methods: Seq<MethodView>,
}

/// The views of a namespace path, in order.
pub open spec fn namespace_views(s: Seq<String>) -> Seq<Seq<char>> {
    s.map_values(|seg: String| seg@)
}

/// A namespace-qualified managed class: path, name, field set and method
/// set. A class is a plain value aggregate, built from already-parsed
/// metadata and consumed by the emitter.
#[derive(Debug)]
pub struct Class {
    pub namespace: Namespace,
    pub name: String,
    pub fields: Fields,
    pub methods: Methods,
}

impl View for Class {
    type V = ClassView;

    open spec fn view(&self) -> ClassView {
        ClassView {
            namespace: namespace_views(self.namespace@),
            name: self.name@,
            fields: self.fields@,
            methods: self.methods@,
        }
    }
}

impl Clone for Class {
    fn clone(&self) -> (res: Self)
        ensures
            res@ == self@,
    {
        let mut namespace: Vec<String> = Vec::new();
        let mut i: usize = 0;
        while i < self.namespace.len()
            invariant
                0 <= i <= self.namespace@.len(),
                namespace@.len() == i,
                forall|j: int| 0 <= j < i ==> namespace@[j]@ == self.namespace@[j]@,
            decreases self.namespace@.len() - i,
        {
            namespace.push(self.namespace[i].clone());
            i += 1;
        }
        proof {
            assert(namespace_views(namespace@) =~= namespace_views(self.namespace@));
        }
        let res = Class {
            namespace,
            name: self.name.clone(),
            fields: self.fields.clone(),
            methods: self.methods.clone(),
        };
        proof {
            assert(res@ == self@);
        }
        res
    }
}

impl Class {
    /// Both entity sets hold no duplicates.
    pub open spec fn wf(&self) -> bool {
        self.fields.wf() && self.methods.wf()
    }
}

} // verus!
