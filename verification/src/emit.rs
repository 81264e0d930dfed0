//! Deterministic rendering of a class into native source text.
//!
//! A class is rendered as three coupled artifacts in one textual unit: a
//! fields struct mirroring the managed field layout, a wrapper struct
//! holding the raw object and class pointers plus an optional fields
//! snapshot, and a fallible conversion from a raw object pointer into the
//! wrapper that resolves the runtime class by namespace and name.
//!
//! Fields are rendered in a fixed order — lexicographic by name, with the
//! enumeration position of the type as tie-breaker — never in the field
//! set's incidental order, so output is stable across runs. The method
//! set is carried in the model but not rendered; method binding is a
//! documented extension point, not a silent omission.

use vstd::prelude::*;

use vstd::relations::sorted_by;
use vstd::relations::total_ordering;
use vstd::seq_lib::lemma_sorted_unique;

use crate::model::namespace_views;
use crate::model::var_views;
use crate::model::Class;
use crate::model::ClassView;
use crate::model::Fields;
use crate::model::Variable;
use crate::model::VariableView;
use crate::strutil::lemma_lex_lt_connected;
use crate::strutil::lemma_lex_lt_irreflexive;
use crate::strutil::lemma_lex_lt_transitive;
use crate::strutil::lex_lt;
use crate::strutil::str_eq;
use crate::strutil::str_lt;
use crate::types::lemma_rank_injective;
use crate::types::native_repr_spec;
use crate::types::spec_rank;

verus! {

/// The emission order on fields: lexicographic by name, ties broken by
/// the enumeration position of the logical type.
pub open spec fn var_le_spec(a: VariableView, b: VariableView) -> bool {
    lex_lt(a.name, b.name) || (a.name == b.name && spec_rank(a.t) <= spec_rank(b.t))
}

/// The emission order as a binary relation value.
pub open spec fn var_le_f() -> spec_fn(VariableView, VariableView) -> bool {
    |a: VariableView, b: VariableView| var_le_spec(a, b)
}

/// The emission order is a total order on field views.
pub proof fn lemma_var_le_total_ordering()
    ensures
        total_ordering(var_le_f()),
{
    let leq = var_le_f();
    assert forall|a: VariableView| #[trigger] leq(a, a) by {}
    assert forall|a: VariableView, b: VariableView| #[trigger] leq(a, b) && #[trigger] leq(
        b,
        a,
    ) implies a == b by {
        if lex_lt(a.name, b.name) {
            if lex_lt(b.name, a.name) {
                lemma_lex_lt_transitive(a.name, b.name, a.name);
            }
            lemma_lex_lt_irreflexive(a.name);
        } else if lex_lt(b.name, a.name) {
            lemma_lex_lt_irreflexive(a.name);
        } else {
            lemma_rank_injective(a.t, b.t);
        }
    }
    assert forall|a: VariableView, b: VariableView, c: VariableView|
        #[trigger] leq(a, b) && #[trigger] leq(b, c) implies leq(a, c) by {
        if lex_lt(a.name, b.name) && lex_lt(b.name, c.name) {
            lemma_lex_lt_transitive(a.name, b.name, c.name);
        }
    }
    assert forall|a: VariableView, b: VariableView| #[trigger] leq(a, b) || #[trigger] leq(
        b,
        a,
    ) by {
        if !lex_lt(a.name, b.name) && !lex_lt(b.name, a.name) {
            lemma_lex_lt_connected(a.name, b.name);
        }
    }
}

/// The field views in emission order.
pub open spec fn sorted_field_views(fs: Seq<VariableView>) -> Seq<VariableView> {
    fs.sort_by(var_le_f())
}

/// Executable emission-order comparison, pinned to `var_le_spec`.
fn var_le(a: &Variable, b: &Variable) -> (r: bool)
    ensures
        r == var_le_spec(a@, b@),
{
    if str_lt(a.name.as_str(), b.name.as_str()) {
        true
    } else if str_eq(a.name.as_str(), b.name.as_str()) {
        a.t.rank() <= b.t.rank()
    } else {
        false
    }
}

/// Inserting anywhere in a sequence adds the element to its multiset.
proof fn lemma_to_multiset_insert<A>(s: Seq<A>, p: int, x: A)
    requires
        0 <= p <= s.len(),
    ensures
        s.insert(p, x).to_multiset() =~= s.to_multiset().insert(x),
{
    broadcast use vstd::seq_lib::group_to_multiset_ensures;
    broadcast use vstd::multiset::group_multiset_axioms;

    let t = s.insert(p, x);
    assert(t.remove(p) =~= s);
    assert(t[p] == x);
    assert(t.contains(x));
    assert(s.to_multiset() =~= t.to_multiset().remove(x));
    assert(t.to_multiset().count(x) > 0);
    assert forall|y: A| t.to_multiset().count(y) == s.to_multiset().insert(x).count(y) by {
        if y == x {
            assert(s.to_multiset().count(x) == t.to_multiset().count(x) - 1);
        } else {
            assert(s.to_multiset().count(y) == t.to_multiset().count(y));
        }
    }
}

/// A snapshot of the field set in emission order.
pub fn sorted_fields(f: &Fields) -> (r: Vec<Variable>)
    ensures
        var_views(r@) == sorted_field_views(f@),
{
    let items = f.items();
    let mut out: Vec<Variable> = Vec::new();
    let mut i: usize = 0;
    proof {
        assert(var_views(out@) =~= var_views(items@.subrange(0, 0)));
    }
    while i < items.len()
        invariant
            0 <= i <= items@.len(),
            f@ == var_views(items@),
            sorted_by(var_views(out@), var_le_f()),
            var_views(out@).to_multiset() == var_views(items@.subrange(0, i as int)).to_multiset(),
        decreases items@.len() - i,
    {
        let x = items[i].clone();
        let mut p: usize = 0;
        loop
            invariant
                0 <= p <= out@.len(),
                forall|q: int| 0 <= q < p ==> var_le_spec(var_views(out@)[q], x@),
            ensures
                0 <= p <= out@.len(),
                forall|q: int| 0 <= q < p ==> var_le_spec(var_views(out@)[q], x@),
                p < out@.len() ==> !var_le_spec(var_views(out@)[p as int], x@),
            decreases out@.len() - p,
        {
            if p >= out.len() {
                break ;
            }
            if !var_le(&out[p], &x) {
                break ;
            }
            p += 1;
        }
        proof {
            lemma_var_le_total_ordering();
            let leq = var_le_f();
            let vo = var_views(out@);
            let vi = vo.insert(p as int, x@);
            assert forall|q: int| p <= q < vo.len() implies var_le_spec(x@, vo[q]) by {
                assert(!var_le_spec(vo[p as int], x@));
                assert(leq(x@, vo[p as int]) || leq(vo[p as int], x@));
                if q > p {
                    assert(leq(vo[p as int], vo[q]));
                }
            }
            assert forall|i1: int, j1: int| 0 <= i1 < j1 < vi.len() implies leq(
                vi[i1],
                vi[j1],
            ) by {
                if i1 < p {
                    assert(vi[i1] == vo[i1]);
                }
                if i1 == p {
                    assert(vi[i1] == x@);
                }
                if i1 > p {
                    assert(vi[i1] == vo[i1 - 1]);
                }
                if j1 < p {
                    assert(vi[j1] == vo[j1]);
                }
                if j1 == p {
                    assert(vi[j1] == x@);
                }
                if j1 > p {
                    assert(vi[j1] == vo[j1 - 1]);
                }
            }
            assert(sorted_by(vi, leq));
            lemma_to_multiset_insert(vo, p as int, x@);
        }
        let ghost pre = var_views(out@);
        out.insert(p, x);
        i += 1;
        proof {
            broadcast use vstd::seq_lib::group_to_multiset_ensures;

            assert(var_views(out@) =~= pre.insert(p as int, x@));
            let prev = items@.subrange(0, i - 1);
            let cur = items@.subrange(0, i as int);
            assert(cur =~= prev.push(items@[i - 1]));
            assert(var_views(cur) =~= var_views(prev).push(items@[i - 1]@));
            assert(var_views(cur).to_multiset() =~= var_views(prev).to_multiset().insert(
                items@[i - 1]@,
            ));
            assert(x@ == items@[i - 1]@);
            assert(var_views(out@).to_multiset() =~= var_views(cur).to_multiset());
        }
    }
    proof {
        assert(items@.subrange(0, items@.len() as int) =~= items@);
        lemma_var_le_total_ordering();
        f@.lemma_sort_by_ensures(var_le_f());
        lemma_sorted_unique(var_views(out@), f@.sort_by(var_le_f()), var_le_f());
    }
    out
}

/// Namespace segments joined with '.', the spelling used for class lookup.
pub open spec fn join_namespace_spec(ns: Seq<Seq<char>>) -> Seq<char>
    decreases ns.len(),
{
    if ns.len() == 0 {
        Seq::<char>::empty()
    } else if ns.len() == 1 {
        ns[0]
    } else {
        join_namespace_spec(ns.drop_last()) + "."@ + ns.last()
    }
}

/// Join namespace segments with '.'.
pub fn join_namespace(ns: &Vec<String>) -> (r: String)
    ensures
        r@ == join_namespace_spec(namespace_views(ns@)),
{
    let mut r = String::new();
    let mut i: usize = 0;
    while i < ns.len()
        invariant
            0 <= i <= ns@.len(),
            r@ == join_namespace_spec(namespace_views(ns@).take(i as int)),
        decreases ns@.len() - i,
    {
        if i > 0 {
            r.append(".");
        }
        r.append(ns[i].as_str());
        proof {
            let nv = namespace_views(ns@);
            assert(nv.take(i + 1).drop_last() =~= nv.take(i as int));
            assert(nv.take(i + 1).last() == nv[i as int]);
            if i == 0 {
                assert(r@ =~= join_namespace_spec(nv.take(1)));
            } else {
                assert(r@ =~= join_namespace_spec(nv.take(i + 1)));
            }
        }
        i += 1;
    }
    proof {
        assert(namespace_views(ns@).take(ns@.len() as int) =~= namespace_views(ns@));
    }
    r
}

/// One rendered member of the fields struct.
pub open spec fn render_field(v: VariableView) -> Seq<char> {
    "    pub "@ + v.name + ": "@ + native_repr_spec(v.t) + ",\n"@
}

/// The rendered members, in the order given.
pub open spec fn render_fields(fs: Seq<VariableView>) -> Seq<char>
    decreases fs.len(),
{
    if fs.len() == 0 {
        Seq::<char>::empty()
    } else {
        render_fields(fs.drop_last()) + render_field(fs.last())
    }
}

/// Opening of the fields struct: attributes, keyword and name.
pub open spec fn fields_struct_open(name: Seq<char>) -> Seq<char> {
    "#[repr(align(8))]\n#[derive(Copy, Clone, Debug)]\npub struct fields_"@ + name + " {\n"@
}

/// The fields struct: one public member per field, in emission order,
/// with a fixed 8-byte minimum alignment.
pub open spec fn fields_struct_spec(c: ClassView) -> Seq<char> {
    fields_struct_open(c.name) + render_fields(sorted_field_views(c.fields)) + "}\n"@
}

/// The wrapper struct: the raw object pointer, the raw runtime-class
/// pointer, and an optional materialized fields struct.
pub open spec fn wrapper_struct_spec(c: ClassView) -> Seq<char> {
    "#[derive(Copy, Clone, Debug)]\npub struct "@ + c.name
        + " {\n    pub inner: *mut symphony_il2cpp::types::Il2CppObject,\n    pub class: *mut symphony_il2cpp::types::Il2CppClass,\n    pub fields: Option<fields_"@
        + c.name + ">,\n}\n"@
}

/// The conversion operation: resolves the runtime class by namespace and
/// name, propagates the lookup's error unchanged, and on success wraps
/// the given pointer with no materialized fields.
pub open spec fn try_from_spec(c: ClassView) -> Seq<char> {
    "impl std::convert::TryFrom<*mut symphony_il2cpp::types::Il2CppObject> for "@ + c.name
        + " {\n    type Error = symphony_il2cpp::error::Error;\n\n    fn try_from(value: *mut symphony_il2cpp::types::Il2CppObject) -> Result<Self, Self::Error> {\n        let class = symphony_il2cpp::utils::get_class_from_name(\""@
        + join_namespace_spec(c.namespace) + "\", \""@ + c.name
        + "\")?;\n        Ok(Self {\n            inner: value,\n            class,\n            fields: None,\n        })\n    }\n}\n"@
}

/// The whole rendered unit: fields struct, wrapper struct and conversion
/// operation, separated by blank lines.
pub open spec fn emit_spec(c: ClassView) -> Seq<char> {
    fields_struct_spec(c) + "\n"@ + wrapper_struct_spec(c) + "\n"@ + try_from_spec(c)
}

/// A variable rendered on its own: name, then its native type token.
pub open spec fn render_var_spec(v: VariableView) -> Seq<char> {
    v.name + ": "@ + native_repr_spec(v.t)
}

impl Variable {
    /// Render this variable as `name: native-type`.
    pub fn render(&self) -> (r: String)
        ensures
            r@ == render_var_spec(self@),
    {
        let mut out = String::new();
        out.append(self.name.as_str());
        out.append(": ");
        out.append(self.t.native_str());
        proof {
            assert(out@ =~= render_var_spec(self@));
        }
        out
    }
}

impl Class {
    /// Render this class as native source text. Emission is total: it
    /// never fails, whatever the field set holds.
    pub fn emit(&self) -> (r: String)
        ensures
            r@ == emit_spec(self@),
    {
        let mut out = String::new();
        out.append("#[repr(align(8))]\n#[derive(Copy, Clone, Debug)]\npub struct fields_");
        out.append(self.name.as_str());
        out.append(" {\n");
        proof {
            assert(out@ =~= fields_struct_open(self@.name));
        }
        let sorted = sorted_fields(&self.fields);
        let ghost svs = sorted_field_views(self@.fields);
        let ghost base = fields_struct_open(self@.name);
        let mut i: usize = 0;
        while i < sorted.len()
            invariant
                0 <= i <= sorted@.len(),
                var_views(sorted@) == svs,
                out@ == base + render_fields(svs.take(i as int)),
            decreases sorted@.len() - i,
        {
            out.append("    pub ");
            out.append(sorted[i].name.as_str());
            out.append(": ");
            out.append(sorted[i].t.native_str());
            out.append(",\n");
            proof {
                assert(svs.take(i + 1).drop_last() =~= svs.take(i as int));
                assert(svs.take(i + 1).last() == var_views(sorted@)[i as int]);
                assert(var_views(sorted@)[i as int] == sorted@[i as int]@);
                assert(out@ =~= base + render_fields(svs.take(i + 1)));
            }
            i += 1;
        }
        proof {
            assert(svs.take(sorted@.len() as int) =~= svs);
        }
        out.append("}\n");
        proof {
            assert(out@ =~= fields_struct_spec(self@));
        }
        out.append("\n");
        out.append("#[derive(Copy, Clone, Debug)]\npub struct ");
        out.append(self.name.as_str());
        out.append(
            " {\n    pub inner: *mut symphony_il2cpp::types::Il2CppObject,\n    pub class: *mut symphony_il2cpp::types::Il2CppClass,\n    pub fields: Option<fields_",
        );
        out.append(self.name.as_str());
        out.append(">,\n}\n");
        proof {
            assert(out@ =~= fields_struct_spec(self@) + "\n"@ + wrapper_struct_spec(self@));
        }
        out.append("\n");
        out.append("impl std::convert::TryFrom<*mut symphony_il2cpp::types::Il2CppObject> for ");
        out.append(self.name.as_str());
        out.append(
            " {\n    type Error = symphony_il2cpp::error::Error;\n\n    fn try_from(value: *mut symphony_il2cpp::types::Il2CppObject) -> Result<Self, Self::Error> {\n        let class = symphony_il2cpp::utils::get_class_from_name(\"",
        );
        let ns = join_namespace(&self.namespace);
        out.append(ns.as_str());
        out.append("\", \"");
        out.append(self.name.as_str());
        out.append(
            "\")?;\n        Ok(Self {\n            inner: value,\n            class,\n            fields: None,\n        })\n    }\n}\n",
        );
        proof {
            assert(out@ =~= emit_spec(self@));
        }
        out
    }
}

/// Emission determinism: the rendered text depends only on the namespace,
/// the name and the field set as a set — not on the order in which fields
/// were inserted, and not on the method set, which is never rendered. In
/// particular, structurally identical classes render byte-identically.
pub proof fn lemma_emit_deterministic(c1: ClassView, c2: ClassView)
    requires
        c1.namespace == c2.namespace,
        c1.name == c2.name,
        c1.fields.to_multiset() == c2.fields.to_multiset(),
    ensures
        emit_spec(c1) == emit_spec(c2),
{
    lemma_var_le_total_ordering();
    c1.fields.lemma_sort_by_ensures(var_le_f());
    c2.fields.lemma_sort_by_ensures(var_le_f());
    lemma_sorted_unique(c1.fields.sort_by(var_le_f()), c2.fields.sort_by(var_le_f()), var_le_f());
    assert(sorted_field_views(c1.fields) == sorted_field_views(c2.fields));
}

} // verus!
