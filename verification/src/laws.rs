use vstd::prelude::*;

use crate::ast::{
    DeclarationSpecifier, Declarator, ExternalDeclaration, ParameterDeclaration,
    SpecifierQualifier, StructDeclaration, StructType, TranslationUnit, TypeSpecifier,
};
use crate::visitor::{
    classify_declarator, classify_external, kind_name, resolve_member, resolve_param,
    resolve_params, resolve_specifier_qualifier, resolve_struct_members, resolve_struct_type,
    resolve_type_specifier, walk_external, walk_unit, RustDeclarationTypeView,
    RustDeclarationView, VisitError,
};

verus! {

/// Every supported primitive keyword resolves to its fixed FFI type name
/// and registers no binding; the resolver reads nothing but the specifier
/// itself, so the surrounding declaration cannot change the outcome.
pub proof fn lemma_primitive_type_mapping()
    ensures
        resolve_type_specifier(TypeSpecifier::Void) == Ok::<
            (Seq<RustDeclarationView>, Seq<char>),
            VisitError,
        >((Seq::empty(), "libc::c_void"@)),
        resolve_type_specifier(TypeSpecifier::Char) == Ok::<
            (Seq<RustDeclarationView>, Seq<char>),
            VisitError,
        >((Seq::empty(), "libc::c_char"@)),
        resolve_type_specifier(TypeSpecifier::Short) == Ok::<
            (Seq<RustDeclarationView>, Seq<char>),
            VisitError,
        >((Seq::empty(), "libc::c_short"@)),
        resolve_type_specifier(TypeSpecifier::Int) == Ok::<
            (Seq<RustDeclarationView>, Seq<char>),
            VisitError,
        >((Seq::empty(), "libc::c_int"@)),
        resolve_type_specifier(TypeSpecifier::Long) == Ok::<
            (Seq<RustDeclarationView>, Seq<char>),
            VisitError,
        >((Seq::empty(), "libc::c_long"@)),
        resolve_type_specifier(TypeSpecifier::Float) == Ok::<
            (Seq<RustDeclarationView>, Seq<char>),
            VisitError,
        >((Seq::empty(), "libc::c_float"@)),
        resolve_type_specifier(TypeSpecifier::Double) == Ok::<
            (Seq<RustDeclarationView>, Seq<char>),
            VisitError,
        >((Seq::empty(), "libc::c_double"@)),
        resolve_type_specifier(TypeSpecifier::Unsigned) == Ok::<
            (Seq<RustDeclarationView>, Seq<char>),
            VisitError,
        >((Seq::empty(), "libc::c_uint"@)),
{
}

/// Resolving a reference to an already named type returns the name
/// unchanged and registers nothing. Resolution is a pure function of the
/// specifier, so resolving the same reference twice returns the same
/// string both times.
pub proof fn lemma_named_type_resolution(n: Seq<char>)
    ensures
        forall|t: TypeSpecifier|
            t matches TypeSpecifier::TypedefName(s) && s@ == n ==> #[trigger] resolve_type_specifier(
                t,
            ) == Ok::<(Seq<RustDeclarationView>, Seq<char>), VisitError>((
                Seq::<RustDeclarationView>::empty(),
                n,
            )),
{
}

/// Members that all resolve yield exactly one field each: the field list
/// of a member list resolved from position `i` has one entry per member,
/// in member order.
proof fn lemma_members_fields(ms: Seq<StructDeclaration>, i: int)
    requires
        0 <= i <= ms.len(),
        forall|k: int| i <= k < ms.len() ==> resolve_member(#[trigger] ms[k]) is Ok,
    ensures
        resolve_struct_members(ms, i) is Ok,
        resolve_struct_members(ms, i)->Ok_0.1.len() == ms.len() - i,
        forall|k: int|
            i <= k < ms.len() ==> resolve_struct_members(ms, i)->Ok_0.1[k - i] == resolve_member(
                #[trigger] ms[k],
            )->Ok_0.1,
    decreases ms.len() - i,
{
    if i < ms.len() {
        lemma_members_fields(ms, i + 1);
    }
}

/// A tagged struct specifier whose members all resolve yields the tag as
/// its own type name and registers, after whatever bindings the member
/// types register, exactly one binding for the struct itself, carrying
/// one field per member in member order.
pub proof fn lemma_struct_specifier_binding(st: StructType)
    requires
        st.identifier is Some,
        st.declarations is Some,
        forall|k: int|
            0 <= k < st.declarations->Some_0@.len() ==> resolve_member(
                #[trigger] st.declarations->Some_0@[k],
            ) is Ok,
    ensures
        resolve_type_specifier(TypeSpecifier::Struct(st)) is Ok,
        ({
            let r = resolve_type_specifier(TypeSpecifier::Struct(st))->Ok_0;
            let ms = st.declarations->Some_0@;
            let members = resolve_struct_members(ms, 0)->Ok_0;
            &&& r.1 == st.identifier->Some_0@
            &&& r.0.len() == members.0.len() + 1
            &&& r.0.drop_last() == members.0
            &&& r.0.last() == (RustDeclarationView {
                name: st.identifier->Some_0@,
                type_declaration: RustDeclarationTypeView::Struct(members.1),
            })
            &&& members.1.len() == ms.len()
            &&& forall|k: int|
                0 <= k < ms.len() ==> members.1[k] == resolve_member(#[trigger] ms[k])->Ok_0.1
        }),
{
    let ms = st.declarations->Some_0@;
    lemma_members_fields(ms, 0);
    let members = resolve_struct_members(ms, 0)->Ok_0;
    let own = RustDeclarationView {
        name: st.identifier->Some_0@,
        type_declaration: RustDeclarationTypeView::Struct(members.1),
    };
    assert(members.0.push(own).drop_last() =~= members.0);
}

/// Parameters that all resolve to a named entry yield exactly one entry
/// each: the entry list of a parameter list resolved from position `i`
/// has one entry per parameter, in parameter order.
proof fn lemma_params_fields(ps: Seq<ParameterDeclaration>, i: int)
    requires
        0 <= i <= ps.len(),
        forall|k: int|
            i <= k < ps.len() ==> (#[trigger] resolve_param(ps[k])) is Ok && resolve_param(
                ps[k],
            )->Ok_0.1 is Some,
    ensures
        resolve_params(ps, i) is Ok,
        resolve_params(ps, i)->Ok_0.1.len() == ps.len() - i,
        forall|k: int|
            i <= k < ps.len() ==> resolve_params(ps, i)->Ok_0.1[k - i] == (
            #[trigger] resolve_param(ps[k]))->Ok_0.1->Some_0,
    decreases ps.len() - i,
{
    if i < ps.len() {
        lemma_params_fields(ps, i + 1);
    }
}

/// Whatever a type specifier registers is a struct binding: type
/// resolution never emits a function binding.
proof fn lemma_type_specifier_emits_structs(t: TypeSpecifier)
    ensures
        resolve_type_specifier(t) matches Ok(p) ==> forall|k: int|
            0 <= k < p.0.len() ==> (#[trigger] p.0[k]).type_declaration
                is Struct,
    decreases t, 1int,
{
    match t {
        TypeSpecifier::Struct(st) => lemma_struct_type_emits_structs(st),
        _ => {},
    }
}

/// See `lemma_type_specifier_emits_structs`.
proof fn lemma_struct_type_emits_structs(st: StructType)
    ensures
        resolve_struct_type(st) matches Ok(p) ==> forall|k: int|
            0 <= k < p.0.len() ==> (#[trigger] p.0[k]).type_declaration
                is Struct,
    decreases st, 0int,
{
    if st.identifier is Some && st.declarations is Some {
        let ms = st.declarations->Some_0@;
        lemma_struct_members_emit_structs(ms, 0);
        if resolve_struct_members(ms, 0) is Ok {
            let q = resolve_struct_members(ms, 0)->Ok_0;
            let p = resolve_struct_type(st)->Ok_0;
            assert forall|k: int| 0 <= k < p.0.len() implies (#[trigger] p.0[k]).type_declaration
                is Struct by {
                if k < q.0.len() {
                    assert(p.0[k] == q.0[k]);
                }
            }
        }
    }
}

/// See `lemma_type_specifier_emits_structs`.
proof fn lemma_struct_members_emit_structs(ms: Seq<StructDeclaration>, i: int)
    ensures
        resolve_struct_members(ms, i) matches Ok(p) ==> forall|k: int|
            0 <= k < p.0.len() ==> (#[trigger] p.0[k]).type_declaration
                is Struct,
    decreases ms, ms.len() - i,
{
    if 0 <= i < ms.len() {
        lemma_member_emits_structs(ms[i]);
        lemma_struct_members_emit_structs(ms, i + 1);
        if resolve_struct_members(ms, i) is Ok {
            let m = resolve_member(ms[i])->Ok_0;
            let rest = resolve_struct_members(ms, i + 1)->Ok_0;
            let p = resolve_struct_members(ms, i)->Ok_0;
            assert forall|k: int| 0 <= k < p.0.len() implies (#[trigger] p.0[k]).type_declaration
                is Struct by {
                if k < m.0.len() {
                    assert(p.0[k] == m.0[k]);
                } else {
                    assert(p.0[k] == rest.0[k - m.0.len()]);
                }
            }
        }
    }
}

/// See `lemma_type_specifier_emits_structs`.
proof fn lemma_member_emits_structs(m: StructDeclaration)
    ensures
        resolve_member(m) matches Ok(p) ==> forall|k: int|
            0 <= k < p.0.len() ==> (#[trigger] p.0[k]).type_declaration
                is Struct,
    decreases m, 0int,
{
    match m {
        StructDeclaration::Field(f) => {
            if f.specifiers@.len() > 0 {
                lemma_specifier_qualifier_emits_structs(f.specifiers@[0]);
            }
        },
        StructDeclaration::Unsupported => {},
    }
}

/// See `lemma_type_specifier_emits_structs`.
proof fn lemma_specifier_qualifier_emits_structs(q: SpecifierQualifier)
    ensures
        resolve_specifier_qualifier(q) matches Ok(p) ==> forall|k: int|
            0 <= k < p.0.len() ==> (#[trigger] p.0[k]).type_declaration
                is Struct,
    decreases q, 2int,
{
    match q {
        SpecifierQualifier::TypeSpecifier(t) => lemma_type_specifier_emits_structs(t),
        SpecifierQualifier::Other => {},
    }
}

/// Whatever one parameter registers is a struct binding.
proof fn lemma_param_emits_structs(p: ParameterDeclaration)
    ensures
        resolve_param(p) matches Ok(q) ==> forall|k: int|
            0 <= k < q.0.len() ==> (#[trigger] q.0[k]).type_declaration is Struct,
{
    if p.specifiers@.len() > 0 {
        match p.specifiers@[0] {
            DeclarationSpecifier::TypeSpecifier(t) => {
                lemma_type_specifier_emits_structs(t);
            },
            DeclarationSpecifier::Other => {},
        }
    }
}

/// Whatever a parameter list registers is a struct binding.
proof fn lemma_params_emit_structs(ps: Seq<ParameterDeclaration>, i: int)
    ensures
        resolve_params(ps, i) matches Ok(p) ==> forall|k: int|
            0 <= k < p.0.len() ==> (#[trigger] p.0[k]).type_declaration is Struct,
    decreases ps.len() - i,
{
    if 0 <= i < ps.len() {
        lemma_param_emits_structs(ps[i]);
        lemma_params_emit_structs(ps, i + 1);
        if resolve_params(ps, i) is Ok {
            let first = resolve_param(ps[i])->Ok_0;
            let rest = resolve_params(ps, i + 1)->Ok_0;
            let p = resolve_params(ps, i)->Ok_0;
            assert forall|k: int| 0 <= k < p.0.len() implies (#[trigger] p.0[k]).type_declaration
                is Struct by {
                if k < first.0.len() {
                    assert(p.0[k] == first.0[k]);
                } else {
                    assert(p.0[k] == rest.0[k - first.0.len()]);
                }
            }
        }
    }
}

/// A declarator whose name resolves and whose outermost derived qualifier
/// is a function with fully specified, named parameters yields exactly
/// one function binding: it is the last binding produced, it is named
/// after the declarator, it has one entry per parameter in parameter
/// order, and every binding registered before it is a struct binding from
/// a parameter's type.
pub proof fn lemma_function_declarator_binding(d: Declarator)
    requires
        kind_name(d.kind) is Ok,
        d.derived@.len() > 0,
        d.derived@[0] is Function,
        forall|k: int|
            0 <= k < d.derived@[0]->Function_0@.len() ==> (#[trigger] resolve_param(
                d.derived@[0]->Function_0@[k],
            )) is Ok && resolve_param(d.derived@[0]->Function_0@[k])->Ok_0.1 is Some,
    ensures
        classify_declarator(d) is Ok,
        ({
            let em = classify_declarator(d)->Ok_0;
            let ps = d.derived@[0]->Function_0@;
            &&& em.len() >= 1
            &&& em.last().name == kind_name(d.kind)->Ok_0
            &&& em.last().type_declaration is Function
            &&& em.last().type_declaration->Function_0.len() == ps.len()
            &&& forall|k: int|
                0 <= k < ps.len()
                    ==> em.last().type_declaration->Function_0[k] == (
                #[trigger] resolve_param(ps[k]))->Ok_0.1->Some_0
            &&& forall|k: int|
                0 <= k < em.len() - 1 ==> (#[trigger] em[k]).type_declaration
                    is Struct
        }),
{
    let ps = d.derived@[0]->Function_0@;
    lemma_params_fields(ps, 0);
    lemma_params_emit_structs(ps, 0);
    let p = resolve_params(ps, 0)->Ok_0;
    let em = classify_declarator(d)->Ok_0;
    assert(em == p.0.push(
        RustDeclarationView {
            name: kind_name(d.kind)->Ok_0,
            type_declaration: RustDeclarationTypeView::Function(p.1),
        },
    ));
    assert forall|k: int| 0 <= k < em.len() - 1 implies (#[trigger] em[k]).type_declaration
        is Struct by {
        assert(em[k] == p.0[k]);
    }
}

/// Bindings accumulate in declaration order: a unit of two declarations
/// that both classify yields the first declaration's bindings, themselves
/// in encounter order, followed by the second's. Together with
/// `lemma_struct_specifier_binding`, which puts a nested struct's binding
/// before the binding of the declaration that reveals it, this pins the
/// output order of the whole walk.
pub proof fn lemma_declaration_order(u: TranslationUnit, e1: ExternalDeclaration, e2: ExternalDeclaration)
    requires
        u.0@ == seq![e1, e2],
        classify_external(e1) is Ok,
        classify_external(e2) is Ok,
    ensures
        walk_unit(u) == Ok::<Seq<RustDeclarationView>, VisitError>(
            classify_external(e1)->Ok_0 + classify_external(e2)->Ok_0,
        ),
{
    let s1 = classify_external(e1)->Ok_0;
    let s2 = classify_external(e2)->Ok_0;
    assert(u.0@[0] == e1);
    assert(u.0@[1] == e2);
    assert(walk_external(u.0@, 2) == Ok::<Seq<RustDeclarationView>, VisitError>(Seq::empty()));
    assert(s2 + Seq::<RustDeclarationView>::empty() =~= s2);
    assert(walk_external(u.0@, 1) == Ok::<Seq<RustDeclarationView>, VisitError>(s2));
    assert(walk_external(u.0@, 0) == Ok::<Seq<RustDeclarationView>, VisitError>(s1 + s2));
}

} // verus!
