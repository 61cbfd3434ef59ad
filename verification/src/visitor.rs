use vstd::prelude::*;

use crate::ast::{
    Declaration, DeclarationSpecifier, Declarator, DeclaratorKind, DerivedDeclarator,
    ExternalDeclaration, InitDeclarator, ParameterDeclaration, SpecifierQualifier,
    StructDeclaration, StructType, TranslationUnit, TypeSpecifier,
};

verus! {

/// One struct field or one function parameter: the identifier from the
/// source paired with the resolved FFI type name.
#[derive(Debug, PartialEq)]
pub struct TypeAndName {
    pub param_type: String,
    pub name: String,
}

/// Ghost form of `TypeAndName`: both strings as character sequences.
pub struct TypeAndNameView {
    pub param_type: Seq<char>,
    pub name: Seq<char>,
}

impl View for TypeAndName {
    type V = TypeAndNameView;

    open spec fn view(&self) -> TypeAndNameView {
        TypeAndNameView { param_type: self.param_type@, name: self.name@ }
    }
}

/// Ghost form of a sequence of fields or parameters.
pub open spec fn fields_view(s: Seq<TypeAndName>) -> Seq<TypeAndNameView> {
    s.map_values(|t: TypeAndName| t@)
}

/// The two shapes of binding this generator emits.
#[derive(Debug, PartialEq)]
pub enum RustDeclarationType {
    /// An externally-linked function stub with the given parameters.
    Function(Vec<TypeAndName>),
    /// A C-layout struct with the given fields.
    Struct(Vec<TypeAndName>),
}

/// Ghost form of `RustDeclarationType`.
pub enum RustDeclarationTypeView {
    Function(Seq<TypeAndNameView>),
    Struct(Seq<TypeAndNameView>),
}

impl View for RustDeclarationType {
    type V = RustDeclarationTypeView;

    open spec fn view(&self) -> RustDeclarationTypeView {
        match self {
            RustDeclarationType::Function(ps) => RustDeclarationTypeView::Function(
                fields_view(ps@),
            ),
            RustDeclarationType::Struct(fs) => RustDeclarationTypeView::Struct(fields_view(fs@)),
        }
    }
}

/// One emitted binding: the declared name and its shape.
#[derive(Debug, PartialEq)]
pub struct RustDeclaration {
    pub name: String,
    pub type_declaration: RustDeclarationType,
}

/// Ghost form of `RustDeclaration`.
pub struct RustDeclarationView {
    pub name: Seq<char>,
    pub type_declaration: RustDeclarationTypeView,
}

impl View for RustDeclaration {
    type V = RustDeclarationView;

    open spec fn view(&self) -> RustDeclarationView {
        RustDeclarationView { name: self.name@, type_declaration: self.type_declaration@ }
    }
}

/// Ghost form of an output collection.
pub open spec fn decls_view(s: Seq<RustDeclaration>) -> Seq<RustDeclarationView> {
    s.map_values(|d: RustDeclaration| d@)
}

/// The reasons a run aborts. Any one of them ends the whole translation:
/// a partially translated binding file would be worse than a loud failure.
#[derive(Debug, PartialEq, Eq, Structural, Clone, Copy)]
pub enum VisitError {
    /// A top-level item is not a plain declaration.
    UnsupportedTopLevelConstruct,
    /// A declarator carries a derived qualifier of an unrecognised kind.
    UnsupportedDerivedDeclarator,
    /// A type specifier is not a primitive keyword, a named-type
    /// reference, or a struct.
    UnsupportedTypeSpecifier,
    /// A struct type specifier has no tag identifier.
    AnonymousStruct,
    /// A name was required but the declarator chain has no identifier.
    AbstractDeclarator,
    /// A struct member or parameter whose first specifier is not a type
    /// specifier, or a struct member with no declarator.
    MalformedFieldOrParameter,
}

/// The name bound by a declarator-kind chain: nested declarators are
/// followed to the identifier; an abstract declarator binds no name.
pub open spec fn kind_name(k: DeclaratorKind) -> Result<Seq<char>, VisitError>
    decreases k,
{
    match k {
        DeclaratorKind::Abstract => Err(VisitError::AbstractDeclarator),
        DeclaratorKind::Identifier(name) => Ok(name@),
        DeclaratorKind::Declarator(d) => kind_name(d.kind),
    }
}

/// What resolving one type specifier yields: the struct bindings it
/// registers, in encounter order, and the FFI type name.
pub open spec fn resolve_type_specifier(t: TypeSpecifier) -> Result<
    (Seq<RustDeclarationView>, Seq<char>),
    VisitError,
>
    decreases t, 1int,
{
    match t {
        TypeSpecifier::Void => Ok((Seq::empty(), "libc::c_void"@)),
        TypeSpecifier::Char => Ok((Seq::empty(), "libc::c_char"@)),
        TypeSpecifier::Short => Ok((Seq::empty(), "libc::c_short"@)),
        TypeSpecifier::Int => Ok((Seq::empty(), "libc::c_int"@)),
        TypeSpecifier::Long => Ok((Seq::empty(), "libc::c_long"@)),
        TypeSpecifier::Float => Ok((Seq::empty(), "libc::c_float"@)),
        TypeSpecifier::Double => Ok((Seq::empty(), "libc::c_double"@)),
        TypeSpecifier::Unsigned => Ok((Seq::empty(), "libc::c_uint"@)),
        TypeSpecifier::TypedefName(n) => Ok((Seq::empty(), n@)),
        TypeSpecifier::Struct(st) => resolve_struct_type(st),
        TypeSpecifier::Unsupported => Err(VisitError::UnsupportedTypeSpecifier),
    }
}

/// Resolve a struct type specifier. A tag is required; with an inline
/// member list the struct's own binding is registered after whatever the
/// member types register, and the tag is the type name either way.
pub open spec fn resolve_struct_type(st: StructType) -> Result<
    (Seq<RustDeclarationView>, Seq<char>),
    VisitError,
>
    decreases st, 0int,
{
    match st.identifier {
        None => Err(VisitError::AnonymousStruct),
        Some(tag) => match st.declarations {
            None => Ok((Seq::empty(), tag@)),
            Some(ms) => match resolve_struct_members(ms@, 0) {
                Err(e) => Err(e),
                Ok(p) => Ok(
                    (
                        p.0.push(
                            RustDeclarationView {
                                name: tag@,
                                type_declaration: RustDeclarationTypeView::Struct(p.1),
                            },
                        ),
                        tag@,
                    ),
                ),
            },
        },
    }
}

/// Resolve the members of a struct definition from position `i` on: the
/// bindings their types register, in order, and one field per member, in
/// member order.
pub open spec fn resolve_struct_members(ms: Seq<StructDeclaration>, i: int) -> Result<
    (Seq<RustDeclarationView>, Seq<TypeAndNameView>),
    VisitError,
>
    decreases ms, ms.len() - i,
{
    if i < 0 || i >= ms.len() {
        Ok((Seq::empty(), Seq::empty()))
    } else {
        match resolve_member(ms[i]) {
            Err(e) => Err(e),
            Ok(m) => match resolve_struct_members(ms, i + 1) {
                Err(e) => Err(e),
                Ok(rest) => Ok((m.0 + rest.0, seq![m.1] + rest.1)),
            },
        }
    }
}

/// Resolve one struct member into a field: its first specifier must be a
/// type specifier, and its first declarator must bind a name.
pub open spec fn resolve_member(m: StructDeclaration) -> Result<
    (Seq<RustDeclarationView>, TypeAndNameView),
    VisitError,
>
    decreases m, 0int,
{
    match m {
        StructDeclaration::Unsupported => Err(VisitError::MalformedFieldOrParameter),
        StructDeclaration::Field(f) => {
            if f.specifiers@.len() == 0 {
                Err(VisitError::MalformedFieldOrParameter)
            } else {
                match resolve_specifier_qualifier(f.specifiers@[0]) {
                    Err(e) => Err(e),
                    Ok(ty) => {
                        if f.declarators@.len() == 0 {
                            Err(VisitError::MalformedFieldOrParameter)
                        } else {
                            match f.declarators@[0].declarator {
                                None => Err(VisitError::MalformedFieldOrParameter),
                                Some(d) => match kind_name(d.kind) {
                                    Err(e) => Err(e),
                                    Ok(fname) => Ok(
                                        (
                                            ty.0,
                                            TypeAndNameView { param_type: ty.1, name: fname },
                                        ),
                                    ),
                                },
                            }
                        }
                    },
                }
            }
        },
    }
}

/// Resolve the first specifier of a struct member: only a type specifier
/// is acceptable there.
pub open spec fn resolve_specifier_qualifier(q: SpecifierQualifier) -> Result<
    (Seq<RustDeclarationView>, Seq<char>),
    VisitError,
>
    decreases q, 2int,
{
    match q {
        SpecifierQualifier::TypeSpecifier(t) => resolve_type_specifier(t),
        SpecifierQualifier::Other => Err(VisitError::MalformedFieldOrParameter),
    }
}

/// Resolve one formal parameter. A parameter with no specifiers or with
/// no declarator yields no entry; a first specifier that is not a type
/// specifier is malformed.
pub open spec fn resolve_param(p: ParameterDeclaration) -> Result<
    (Seq<RustDeclarationView>, Option<TypeAndNameView>),
    VisitError,
> {
    if p.specifiers@.len() == 0 {
        Ok((Seq::empty(), None))
    } else {
        match p.specifiers@[0] {
            DeclarationSpecifier::Other => Err(VisitError::MalformedFieldOrParameter),
            DeclarationSpecifier::TypeSpecifier(t) => match p.declarator {
                None => Ok((Seq::empty(), None)),
                Some(d) => match resolve_type_specifier(t) {
                    Err(e) => Err(e),
                    Ok(ty) => match kind_name(d.kind) {
                        Err(e) => Err(e),
                        Ok(pname) => Ok(
                            (ty.0, Some(TypeAndNameView { param_type: ty.1, name: pname })),
                        ),
                    },
                },
            },
        }
    }
}

/// Resolve a parameter list from position `i` on: the bindings the
/// parameter types register, in order, and the entries of the parameters
/// that yield one, in parameter order.
pub open spec fn resolve_params(ps: Seq<ParameterDeclaration>, i: int) -> Result<
    (Seq<RustDeclarationView>, Seq<TypeAndNameView>),
    VisitError,
>
    decreases ps.len() - i,
{
    if i < 0 || i >= ps.len() {
        Ok((Seq::empty(), Seq::empty()))
    } else {
        match resolve_param(ps[i]) {
            Err(e) => Err(e),
            Ok(first) => match resolve_params(ps, i + 1) {
                Err(e) => Err(e),
                Ok(rest) => match first.1 {
                    Some(f) => Ok((first.0 + rest.0, seq![f] + rest.1)),
                    None => Ok((first.0 + rest.0, rest.1)),
                },
            },
        }
    }
}

/// What one derived declarator makes of its declarator: a function shape
/// with its parameters; nothing for pointers and arrays.
pub open spec fn resolve_derived(dd: DerivedDeclarator) -> Result<
    (Seq<RustDeclarationView>, Option<RustDeclarationTypeView>),
    VisitError,
> {
    match dd {
        DerivedDeclarator::Function(ps) => match resolve_params(ps@, 0) {
            Err(e) => Err(e),
            Ok(p) => Ok((p.0, Some(RustDeclarationTypeView::Function(p.1)))),
        },
        DerivedDeclarator::Pointer => Ok((Seq::empty(), None)),
        DerivedDeclarator::Array => Ok((Seq::empty(), None)),
        DerivedDeclarator::Unsupported => Err(VisitError::UnsupportedDerivedDeclarator),
    }
}

/// The bindings one declarator produces: its bound name is resolved
/// first, then its outermost derived qualifier decides whether a function
/// binding is emitted after what the parameter types registered.
pub open spec fn classify_declarator(d: Declarator) -> Result<Seq<RustDeclarationView>, VisitError> {
    match kind_name(d.kind) {
        Err(e) => Err(e),
        Ok(name) => {
            if d.derived@.len() == 0 {
                Ok(Seq::empty())
            } else {
                match resolve_derived(d.derived@[0]) {
                    Err(e) => Err(e),
                    Ok(p) => match p.1 {
                        Some(k) => Ok(
                            p.0.push(RustDeclarationView { name: name, type_declaration: k }),
                        ),
                        None => Ok(p.0),
                    },
                }
            }
        },
    }
}

/// The bindings one declaration specifier registers: a type specifier is
/// resolved purely for its registrations; anything else is ignored.
pub open spec fn resolve_declaration_specifier(s: DeclarationSpecifier) -> Result<
    Seq<RustDeclarationView>,
    VisitError,
> {
    match s {
        DeclarationSpecifier::TypeSpecifier(t) => match resolve_type_specifier(t) {
            Err(e) => Err(e),
            Ok(p) => Ok(p.0),
        },
        DeclarationSpecifier::Other => Ok(Seq::empty()),
    }
}

/// The bindings a declaration's specifiers register from position `i` on.
pub open spec fn walk_specifiers(ss: Seq<DeclarationSpecifier>, i: int) -> Result<
    Seq<RustDeclarationView>,
    VisitError,
>
    decreases ss.len() - i,
{
    if i < 0 || i >= ss.len() {
        Ok(Seq::empty())
    } else {
        match resolve_declaration_specifier(ss[i]) {
            Err(e) => Err(e),
            Ok(em) => match walk_specifiers(ss, i + 1) {
                Err(e) => Err(e),
                Ok(rest) => Ok(em + rest),
            },
        }
    }
}

/// The bindings a declaration's init-declarators produce from position
/// `i` on.
pub open spec fn walk_init_declarators(ds: Seq<InitDeclarator>, i: int) -> Result<
    Seq<RustDeclarationView>,
    VisitError,
>
    decreases ds.len() - i,
{
    if i < 0 || i >= ds.len() {
        Ok(Seq::empty())
    } else {
        match classify_declarator(ds[i].declarator) {
            Err(e) => Err(e),
            Ok(em) => match walk_init_declarators(ds, i + 1) {
                Err(e) => Err(e),
                Ok(rest) => Ok(em + rest),
            },
        }
    }
}

/// The bindings one declaration produces: what its specifiers register
/// (struct definitions riding on the declaration), then what each
/// init-declarator produces.
pub open spec fn classify_declaration(d: Declaration) -> Result<Seq<RustDeclarationView>, VisitError> {
    match walk_specifiers(d.specifiers@, 0) {
        Err(e) => Err(e),
        Ok(em1) => match walk_init_declarators(d.declarators@, 0) {
            Err(e) => Err(e),
            Ok(em2) => Ok(em1 + em2),
        },
    }
}

/// The bindings one top-level item produces; only plain declarations are
/// translatable.
pub open spec fn classify_external(e: ExternalDeclaration) -> Result<
    Seq<RustDeclarationView>,
    VisitError,
> {
    match e {
        ExternalDeclaration::Declaration(d) => classify_declaration(d),
        ExternalDeclaration::Unsupported => Err(VisitError::UnsupportedTopLevelConstruct),
    }
}

/// The bindings the top-level items from position `i` on produce.
pub open spec fn walk_external(ds: Seq<ExternalDeclaration>, i: int) -> Result<
    Seq<RustDeclarationView>,
    VisitError,
>
    decreases ds.len() - i,
{
    if i < 0 || i >= ds.len() {
        Ok(Seq::empty())
    } else {
        match classify_external(ds[i]) {
            Err(e) => Err(e),
            Ok(em) => match walk_external(ds, i + 1) {
                Err(e) => Err(e),
                Ok(rest) => Ok(em + rest),
            },
        }
    }
}

/// Everything one translation unit yields, in encounter order, or its
/// first failure.
pub open spec fn walk_unit(u: TranslationUnit) -> Result<Seq<RustDeclarationView>, VisitError> {
    walk_external(u.0@, 0)
}

/// The ghost collection distributes over concatenation.
proof fn lemma_decls_view_add(a: Seq<RustDeclaration>, b: Seq<RustDeclaration>)
    ensures
        decls_view(a + b) == decls_view(a) + decls_view(b),
{
    assert(decls_view(a + b) =~= decls_view(a) + decls_view(b));
}

/// The ghost collection distributes over appending one binding.
proof fn lemma_decls_view_push(a: Seq<RustDeclaration>, d: RustDeclaration)
    ensures
        decls_view(a.push(d)) == decls_view(a).push(d@),
{
    assert(decls_view(a.push(d)) =~= decls_view(a).push(d@));
}

/// The ghost field list distributes over appending one field.
proof fn lemma_fields_view_push(a: Seq<TypeAndName>, t: TypeAndName)
    ensures
        fields_view(a.push(t)) == fields_view(a).push(t@),
{
    assert(fields_view(a.push(t)) =~= fields_view(a).push(t@));
}

/// Follow a declarator-kind chain to the identifier it binds.
fn visit_declarator_kind(kind: &DeclaratorKind) -> (r: Result<String, VisitError>)
    ensures
        r matches Ok(s) ==> kind_name(*kind) == Ok::<Seq<char>, VisitError>(s@),
        r matches Err(e) ==> kind_name(*kind) == Err::<Seq<char>, VisitError>(e),
    decreases *kind,
{
    match kind {
        DeclaratorKind::Abstract => Err(VisitError::AbstractDeclarator),
        DeclaratorKind::Identifier(name) => Ok(name.clone()),
        DeclaratorKind::Declarator(d) => visit_declarator_kind(&d.kind),
    }
}

/// Accumulates binding declarations in encounter order while it walks one
/// translation unit.
pub struct Visitor(pub Vec<RustDeclaration>);

impl View for Visitor {
    type V = Seq<RustDeclarationView>;

    open spec fn view(&self) -> Seq<RustDeclarationView> {
        decls_view(self.0@)
    }
}

impl Default for Visitor {
    /// A visitor with an empty output collection.
    fn default() -> (r: Self)
        ensures
            r.0@ == Seq::<RustDeclaration>::empty(),
    {
        Visitor(Vec::new())
    }
}

impl Visitor {
    /// Resolve a type specifier to its FFI type name, registering a
    /// binding for any struct definition it carries.
    fn visit_typedef(&mut self, typedef: &TypeSpecifier) -> (r: Result<String, VisitError>)
        ensures
            r matches Ok(s) ==> (resolve_type_specifier(*typedef) matches Ok(p) && final(self)@
                == old(self)@ + p.0 && s@ == p.1),
            r matches Err(e) ==> resolve_type_specifier(*typedef) == Err::<
                (Seq<RustDeclarationView>, Seq<char>),
                VisitError,
            >(e),
        decreases *typedef,
    {
        proof {
            assert(old(self)@ + Seq::<RustDeclarationView>::empty() =~= old(self)@);
        }
        match typedef {
            TypeSpecifier::Void => Ok(String::from_str("libc::c_void")),
            TypeSpecifier::Char => Ok(String::from_str("libc::c_char")),
            TypeSpecifier::Short => Ok(String::from_str("libc::c_short")),
            TypeSpecifier::Int => Ok(String::from_str("libc::c_int")),
            TypeSpecifier::Long => Ok(String::from_str("libc::c_long")),
            TypeSpecifier::Float => Ok(String::from_str("libc::c_float")),
            TypeSpecifier::Double => Ok(String::from_str("libc::c_double")),
            TypeSpecifier::Unsigned => Ok(String::from_str("libc::c_uint")),
            TypeSpecifier::TypedefName(n) => Ok(n.clone()),
            TypeSpecifier::Struct(st) => self.visit_struct_type(st),
            TypeSpecifier::Unsupported => Err(VisitError::UnsupportedTypeSpecifier),
        }
    }

    /// Resolve a struct type specifier: require a tag; with an inline
    /// member list, register the struct's own binding after the bindings
    /// its member types register.
    #[verifier::loop_isolation(false)]
    fn visit_struct_type(&mut self, st: &StructType) -> (r: Result<String, VisitError>)
        ensures
            r matches Ok(s) ==> (resolve_struct_type(*st) matches Ok(p) && final(self)@ == old(self)@ + p.0 && s@ == p.1),
            r matches Err(e) ==> resolve_struct_type(*st) == Err::<
                (Seq<RustDeclarationView>, Seq<char>),
                VisitError,
            >(e),
        decreases *st,
    {
        proof {
            assert(old(self)@ + Seq::<RustDeclarationView>::empty() =~= old(self)@);
        }
        match &st.identifier {
            None => Err(VisitError::AnonymousStruct),
            Some(tag) => match &st.declarations {
                None => Ok(tag.clone()),
                Some(decls) => {
                    let ghost mut emitted: Seq<RustDeclarationView> = Seq::empty();
                    let mut fields: Vec<TypeAndName> = Vec::new();
                    let mut j: usize = 0;
                    while j < decls.len()
                        invariant
                            j <= decls.len(),
                            self@ == old(self)@ + emitted,
                            (match resolve_struct_members(decls@, j as int) {
                                Ok(rest) => resolve_struct_members(decls@, 0) == Ok::<
                                    (Seq<RustDeclarationView>, Seq<TypeAndNameView>),
                                    VisitError,
                                >((emitted + rest.0, fields_view(fields@) + rest.1)),
                                Err(e) => resolve_struct_members(decls@, 0) == Err::<
                                    (Seq<RustDeclarationView>, Seq<TypeAndNameView>),
                                    VisitError,
                                >(e),
                            }),
                        decreases decls.len() - j,
                    {
                        match self.visit_struct_declaration(&decls[j]) {
                            Err(e) => {
                                return Err(e);
                            },
                            Ok(tn) => {
                                proof {
                                    let em_old = emitted;
                                    let fv_old = fields_view(fields@);
                                    let m = resolve_member(decls@[j as int])->Ok_0;
                                    lemma_fields_view_push(fields@, tn);
                                    emitted = em_old + m.0;
                                    assert(old(self)@ + emitted =~= (old(self)@ + em_old) + m.0);
                                    assert(fv_old.push(m.1) =~= fv_old + seq![m.1]);
                                    match resolve_struct_members(decls@, j as int + 1) {
                                        Ok(rest2) => {
                                            assert(em_old + (m.0 + rest2.0) =~= emitted
                                                + rest2.0);
                                            assert(fv_old + (seq![m.1] + rest2.1) =~= fv_old.push(
                                                m.1,
                                            ) + rest2.1);
                                        },
                                        Err(_) => {},
                                    }
                                }
                                fields.push(tn);
                            },
                        }
                        j += 1;
                    }
                    proof {
                        assert(emitted + Seq::<RustDeclarationView>::empty() =~= emitted);
                        assert(fields_view(fields@) + Seq::<TypeAndNameView>::empty()
                            =~= fields_view(fields@));
                    }
                    let own = RustDeclaration {
                        name: tag.clone(),
                        type_declaration: RustDeclarationType::Struct(fields),
                    };
                    let ghost pre_push = self.0@;
                    self.0.push(own);
                    proof {
                        lemma_decls_view_push(pre_push, own);
                        assert((old(self)@ + emitted).push(own@) =~= old(self)@ + emitted.push(
                            own@,
                        ));
                    }
                    Ok(tag.clone())
                },
            },
        }
    }

    /// Resolve one struct member into a field: its first specifier must
    /// be a type specifier, and its first declarator must bind a name.
    fn visit_struct_declaration(&mut self, decl: &StructDeclaration) -> (r: Result<
        TypeAndName,
        VisitError,
    >)
        ensures
            r matches Ok(tn) ==> (resolve_member(*decl) matches Ok(p) && final(self)@ == old(self)@ + p.0 && tn@ == p.1),
            r matches Err(e) ==> resolve_member(*decl) == Err::<
                (Seq<RustDeclarationView>, TypeAndNameView),
                VisitError,
            >(e),
        decreases *decl,
    {
        match decl {
            StructDeclaration::Unsupported => Err(VisitError::MalformedFieldOrParameter),
            StructDeclaration::Field(f) => {
                if f.specifiers.len() == 0 {
                    return Err(VisitError::MalformedFieldOrParameter);
                }
                let field_type = match self.visit_specifier_qualifier(&f.specifiers[0]) {
                    Err(e) => {
                        return Err(e);
                    },
                    Ok(s) => s,
                };
                if f.declarators.len() == 0 {
                    return Err(VisitError::MalformedFieldOrParameter);
                }
                match &f.declarators[0].declarator {
                    None => Err(VisitError::MalformedFieldOrParameter),
                    Some(d) => match visit_declarator_kind(&d.kind) {
                        Err(e) => Err(e),
                        Ok(field_name) => Ok(
                            TypeAndName { param_type: field_type, name: field_name },
                        ),
                    },
                }
            },
        }
    }

    /// Resolve the first specifier of a struct member, which must be a
    /// type specifier.
    fn visit_specifier_qualifier(&mut self, qualifier: &SpecifierQualifier) -> (r: Result<
        String,
        VisitError,
    >)
        ensures
            r matches Ok(s) ==> (resolve_specifier_qualifier(*qualifier) matches Ok(p) && final(self)@ == old(self)@ + p.0 && s@ == p.1),
            r matches Err(e) ==> resolve_specifier_qualifier(*qualifier) == Err::<
                (Seq<RustDeclarationView>, Seq<char>),
                VisitError,
            >(e),
        decreases *qualifier,
    {
        match qualifier {
            SpecifierQualifier::TypeSpecifier(t) => self.visit_typedef(t),
            SpecifierQualifier::Other => Err(VisitError::MalformedFieldOrParameter),
        }
    }

    /// Resolve one formal parameter into an entry, if it yields one.
    fn visit_function_param(&mut self, param: &ParameterDeclaration) -> (r: Result<
        Option<TypeAndName>,
        VisitError,
    >)
        ensures
            r matches Ok(opt) ==> (resolve_param(*param) matches Ok(p) && final(self)@ == old(self)@ + p.0 && (match opt {
                Some(tn) => p.1 == Some(tn@),
                None => p.1 is None,
            })),
            r matches Err(e) ==> resolve_param(*param) == Err::<
                (Seq<RustDeclarationView>, Option<TypeAndNameView>),
                VisitError,
            >(e),
    {
        proof {
            assert(old(self)@ + Seq::<RustDeclarationView>::empty() =~= old(self)@);
        }
        if param.specifiers.len() == 0 {
            return Ok(None);
        }
        match &param.specifiers[0] {
            DeclarationSpecifier::Other => Err(VisitError::MalformedFieldOrParameter),
            DeclarationSpecifier::TypeSpecifier(t) => match &param.declarator {
                None => Ok(None),
                Some(d) => {
                    let param_type = match self.visit_typedef(t) {
                        Err(e) => {
                            return Err(e);
                        },
                        Ok(s) => s,
                    };
                    match visit_declarator_kind(&d.kind) {
                        Err(e) => Err(e),
                        Ok(name) => Ok(Some(TypeAndName { param_type: param_type, name: name })),
                    }
                },
            },
        }
    }

    /// Resolve the outermost derived qualifier of a declarator: a
    /// function qualifier yields a function shape from its parameters;
    /// pointers and arrays yield nothing.
    #[verifier::loop_isolation(false)]
    fn visit_derived_declarator(&mut self, derived_declarator: &DerivedDeclarator) -> (r: Result<
        Option<RustDeclarationType>,
        VisitError,
    >)
        ensures
            r matches Ok(opt) ==> (resolve_derived(*derived_declarator) matches Ok(p) && final(self)@ == old(self)@ + p.0 && (match opt {
                Some(td) => p.1 == Some(td@),
                None => p.1 is None,
            })),
            r matches Err(e) ==> resolve_derived(*derived_declarator) == Err::<
                (Seq<RustDeclarationView>, Option<RustDeclarationTypeView>),
                VisitError,
            >(e),
    {
        proof {
            assert(old(self)@ + Seq::<RustDeclarationView>::empty() =~= old(self)@);
        }
        match derived_declarator {
            DerivedDeclarator::Pointer => Ok(None),
            DerivedDeclarator::Array => Ok(None),
            DerivedDeclarator::Unsupported => Err(VisitError::UnsupportedDerivedDeclarator),
            DerivedDeclarator::Function(ps) => {
                let ghost mut emitted: Seq<RustDeclarationView> = Seq::empty();
                let mut params: Vec<TypeAndName> = Vec::new();
                let mut j: usize = 0;
                while j < ps.len()
                    invariant
                        j <= ps.len(),
                        self@ == old(self)@ + emitted,
                        (match resolve_params(ps@, j as int) {
                            Ok(rest) => resolve_params(ps@, 0) == Ok::<
                                (Seq<RustDeclarationView>, Seq<TypeAndNameView>),
                                VisitError,
                            >((emitted + rest.0, fields_view(params@) + rest.1)),
                            Err(e) => resolve_params(ps@, 0) == Err::<
                                (Seq<RustDeclarationView>, Seq<TypeAndNameView>),
                                VisitError,
                            >(e),
                        }),
                    decreases ps.len() - j,
                {
                    match self.visit_function_param(&ps[j]) {
                        Err(e) => {
                            return Err(e);
                        },
                        Ok(opt) => {
                            proof {
                                let em_old = emitted;
                                let fv_old = fields_view(params@);
                                let p = resolve_param(ps@[j as int])->Ok_0;
                                emitted = em_old + p.0;
                                assert(old(self)@ + emitted =~= (old(self)@ + em_old) + p.0);
                                match resolve_params(ps@, j as int + 1) {
                                    Ok(rest2) => {
                                        assert(em_old + (p.0 + rest2.0) =~= emitted + rest2.0);
                                        if p.1 is Some {
                                            assert(fv_old + (seq![p.1->Some_0] + rest2.1)
                                                =~= fv_old.push(p.1->Some_0) + rest2.1);
                                        }
                                    },
                                    Err(_) => {},
                                }
                            }
                            match opt {
                                Some(tn) => {
                                    proof {
                                        lemma_fields_view_push(params@, tn);
                                    }
                                    params.push(tn);
                                },
                                None => {},
                            }
                        },
                    }
                    j += 1;
                }
                proof {
                    assert(emitted + Seq::<RustDeclarationView>::empty() =~= emitted);
                    assert(fields_view(params@) + Seq::<TypeAndNameView>::empty() =~= fields_view(
                        params@,
                    ));
                }
                Ok(Some(RustDeclarationType::Function(params)))
            },
        }
    }

    /// Classify one declarator: resolve its bound name, then let its
    /// outermost derived qualifier decide whether a function binding is
    /// emitted; the name is returned either way.
    fn visit_declarator(&mut self, declarator: &Declarator) -> (r: Result<String, VisitError>)
        ensures
            r matches Ok(s) ==> (classify_declarator(*declarator) matches Ok(em) && final(self)@
                == old(self)@ + em && kind_name(declarator.kind) == Ok::<Seq<char>, VisitError>(
                s@,
            )),
            r matches Err(e) ==> classify_declarator(*declarator) == Err::<
                Seq<RustDeclarationView>,
                VisitError,
            >(e),
    {
        proof {
            assert(old(self)@ + Seq::<RustDeclarationView>::empty() =~= old(self)@);
        }
        let name = match visit_declarator_kind(&declarator.kind) {
            Err(e) => {
                return Err(e);
            },
            Ok(n) => n,
        };
        if declarator.derived.len() > 0 {
            match self.visit_derived_declarator(&declarator.derived[0]) {
                Err(e) => {
                    return Err(e);
                },
                Ok(None) => {},
                Ok(Some(type_declaration)) => {
                    let own = RustDeclaration { name: name.clone(), type_declaration };
                    let ghost pre_push = self.0@;
                    self.0.push(own);
                    proof {
                        lemma_decls_view_push(pre_push, own);
                        let p = resolve_derived(declarator.derived@[0])->Ok_0;
                        assert((old(self)@ + p.0).push(own@) =~= old(self)@ + p.0.push(own@));
                    }
                },
            }
        }
        Ok(name)
    }

    /// Classify the declarator of one init-declarator; the initializer
    /// plays no part.
    fn visit_init_declarator(&mut self, init_declarator: &InitDeclarator) -> (r: Result<
        (),
        VisitError,
    >)
        ensures
            r matches Ok(_) ==> (classify_declarator(init_declarator.declarator) matches Ok(em)
                && final(self)@ == old(self)@ + em),
            r matches Err(e) ==> classify_declarator(init_declarator.declarator) == Err::<
                Seq<RustDeclarationView>,
                VisitError,
            >(e),
    {
        match self.visit_declarator(&init_declarator.declarator) {
            Ok(_) => Ok(()),
            Err(e) => Err(e),
        }
    }

    /// Resolve one declaration specifier purely for the bindings a type
    /// specifier registers; other specifiers are ignored.
    fn visit_declaration_specifier(&mut self, specifier: &DeclarationSpecifier) -> (r: Result<
        (),
        VisitError,
    >)
        ensures
            r matches Ok(_) ==> (resolve_declaration_specifier(*specifier) matches Ok(em) && final(self)@ == old(self)@ + em),
            r matches Err(e) ==> resolve_declaration_specifier(*specifier) == Err::<
                Seq<RustDeclarationView>,
                VisitError,
            >(e),
    {
        proof {
            assert(old(self)@ + Seq::<RustDeclarationView>::empty() =~= old(self)@);
        }
        match specifier {
            DeclarationSpecifier::TypeSpecifier(t) => match self.visit_typedef(t) {
                Ok(_) => Ok(()),
                Err(e) => Err(e),
            },
            DeclarationSpecifier::Other => Ok(()),
        }
    }

    /// Classify one declaration: walk its specifiers for the struct
    /// definitions riding on them, then each init-declarator.
    #[verifier::loop_isolation(false)]
    fn visit_declaration(&mut self, decl: &Declaration) -> (r: Result<(), VisitError>)
        ensures
            r matches Ok(_) ==> (classify_declaration(*decl) matches Ok(em) && final(self)@ == old(self)@ + em),
            r matches Err(e) ==> classify_declaration(*decl) == Err::<
                Seq<RustDeclarationView>,
                VisitError,
            >(e),
    {
        let ghost mut emitted: Seq<RustDeclarationView> = Seq::empty();
        let mut i: usize = 0;
        while i < decl.specifiers.len()
            invariant
                i <= decl.specifiers.len(),
                self@ == old(self)@ + emitted,
                (match walk_specifiers(decl.specifiers@, i as int) {
                    Ok(rest) => walk_specifiers(decl.specifiers@, 0) == Ok::<
                        Seq<RustDeclarationView>,
                        VisitError,
                    >(emitted + rest),
                    Err(e) => walk_specifiers(decl.specifiers@, 0) == Err::<
                        Seq<RustDeclarationView>,
                        VisitError,
                    >(e),
                }),
            decreases decl.specifiers.len() - i,
        {
            match self.visit_declaration_specifier(&decl.specifiers[i]) {
                Err(e) => {
                    return Err(e);
                },
                Ok(_) => {
                    proof {
                        let em_old = emitted;
                        let em_i = resolve_declaration_specifier(
                            decl.specifiers@[i as int],
                        )->Ok_0;
                        emitted = em_old + em_i;
                        assert(old(self)@ + emitted =~= (old(self)@ + em_old) + em_i);
                        match walk_specifiers(decl.specifiers@, i as int + 1) {
                            Ok(rest2) => {
                                assert(em_old + (em_i + rest2) =~= emitted + rest2);
                            },
                            Err(_) => {},
                        }
                    }
                },
            }
            i += 1;
        }
        proof {
            assert(emitted + Seq::<RustDeclarationView>::empty() =~= emitted);
        }
        let ghost em1 = emitted;
        let ghost mut emitted2: Seq<RustDeclarationView> = Seq::empty();
        let mut k: usize = 0;
        while k < decl.declarators.len()
            invariant
                k <= decl.declarators.len(),
                self@ == old(self)@ + (em1 + emitted2),
                walk_specifiers(decl.specifiers@, 0) == Ok::<Seq<RustDeclarationView>, VisitError>(
                    em1,
                ),
                (match walk_init_declarators(decl.declarators@, k as int) {
                    Ok(rest) => walk_init_declarators(decl.declarators@, 0) == Ok::<
                        Seq<RustDeclarationView>,
                        VisitError,
                    >(emitted2 + rest),
                    Err(e) => walk_init_declarators(decl.declarators@, 0) == Err::<
                        Seq<RustDeclarationView>,
                        VisitError,
                    >(e),
                }),
            decreases decl.declarators.len() - k,
        {
            match self.visit_init_declarator(&decl.declarators[k]) {
                Err(e) => {
                    return Err(e);
                },
                Ok(_) => {
                    proof {
                        let em_old = emitted2;
                        let em_k = classify_declarator(
                            decl.declarators@[k as int].declarator,
                        )->Ok_0;
                        emitted2 = em_old + em_k;
                        assert(old(self)@ + (em1 + emitted2) =~= (old(self)@ + (em1 + em_old))
                            + em_k);
                        match walk_init_declarators(decl.declarators@, k as int + 1) {
                            Ok(rest2) => {
                                assert(em_old + (em_k + rest2) =~= emitted2 + rest2);
                            },
                            Err(_) => {},
                        }
                    }
                },
            }
            k += 1;
        }
        proof {
            assert(emitted2 + Seq::<RustDeclarationView>::empty() =~= emitted2);
        }
        Ok(())
    }

    /// Classify one top-level item; only a plain declaration can yield
    /// bindings.
    fn visit_external_declaration(&mut self, declaration: &ExternalDeclaration) -> (r: Result<
        (),
        VisitError,
    >)
        ensures
            r matches Ok(_) ==> (classify_external(*declaration) matches Ok(em) && final(self)@
                == old(self)@ + em),
            r matches Err(e) ==> classify_external(*declaration) == Err::<
                Seq<RustDeclarationView>,
                VisitError,
            >(e),
    {
        match declaration {
            ExternalDeclaration::Declaration(d) => self.visit_declaration(d),
            ExternalDeclaration::Unsupported => Err(VisitError::UnsupportedTopLevelConstruct),
        }
    }

    /// Walk one translation unit in source order and append every binding
    /// it yields to the output collection. On failure the collection is
    /// left exactly as it was: a run has no partial output.
    #[verifier::loop_isolation(false)]
    pub fn visit_translation_unit(&mut self, unit: &TranslationUnit) -> (r: Result<(), VisitError>)
        ensures
            walk_unit(*unit) matches Ok(ds) ==> (r == Ok::<(), VisitError>(()) && final(self)@
                == old(self)@ + ds),
            walk_unit(*unit) matches Err(e) ==> (r == Err::<(), VisitError>(e) && final(self).0@
                == old(self).0@),
    {
        let mut sub = Visitor(Vec::new());
        let mut i: usize = 0;
        while i < unit.0.len()
            invariant
                i <= unit.0.len(),
                (match walk_external(unit.0@, i as int) {
                    Ok(rest) => walk_external(unit.0@, 0) == Ok::<
                        Seq<RustDeclarationView>,
                        VisitError,
                    >(sub@ + rest),
                    Err(e) => walk_external(unit.0@, 0) == Err::<
                        Seq<RustDeclarationView>,
                        VisitError,
                    >(e),
                }),
            decreases unit.0.len() - i,
        {
            let ghost pre = sub@;
            match sub.visit_external_declaration(&unit.0[i]) {
                Err(e) => {
                    return Err(e);
                },
                Ok(_) => {
                    proof {
                        let em_i = classify_external(unit.0@[i as int])->Ok_0;
                        match walk_external(unit.0@, i as int + 1) {
                            Ok(rest2) => {
                                assert(pre + (em_i + rest2) =~= sub@ + rest2);
                            },
                            Err(_) => {},
                        }
                    }
                },
            }
            i += 1;
        }
        proof {
            assert(sub@ + Seq::<RustDeclarationView>::empty() =~= sub@);
            lemma_decls_view_add(self.0@, sub.0@);
        }
        self.0.append(&mut sub.0);
        Ok(())
    }
}

} // verus!
