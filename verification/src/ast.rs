use vstd::prelude::*;

verus! {

/// The parsed form of one C source file: its top-level declarations in
/// source order.
pub struct TranslationUnit(pub Vec<ExternalDeclaration>);

/// One top-level item of a C program.
pub enum ExternalDeclaration {
    /// A plain declaration: a specifier list and an init-declarator list.
    Declaration(Declaration),
    /// Anything else at the top level (a function definition with a body,
    /// a static assertion). Bindings are generated from declaration
    /// headers only, so such an item fails the whole run.
    Unsupported,
}

/// A declaration: the specifiers shared by all its declarators, and the
/// init-declarators that each bind one name.
pub struct Declaration {
    pub specifiers: Vec<DeclarationSpecifier>,
    pub declarators: Vec<InitDeclarator>,
}

/// One specifier of a declaration.
pub enum DeclarationSpecifier {
    TypeSpecifier(TypeSpecifier),
    /// Storage classes, type qualifiers, function specifiers, alignment
    /// specifiers and vendor extensions: irrelevant to binding
    /// generation, so they are ignored.
    Other,
}

/// A declarator together with an optional initializer; the initializer
/// plays no part in binding generation.
pub struct InitDeclarator {
    pub declarator: Declarator,
}

/// The part of a declaration that binds one name: the identifier-bearing
/// kind chain, and the derived qualifiers layered onto the base type.
pub struct Declarator {
    pub kind: DeclaratorKind,
    pub derived: Vec<DerivedDeclarator>,
}

/// The name-bearing core of a declarator.
pub enum DeclaratorKind {
    /// An unnamed declarator, as in a prototype without parameter names.
    Abstract,
    Identifier(String),
    /// A parenthesised inner declarator.
    Declarator(Box<Declarator>),
}

/// A qualifier layered onto a declarator beyond the base type.
pub enum DerivedDeclarator {
    /// `( parameters )`
    Function(Vec<ParameterDeclaration>),
    /// `* ...`
    Pointer,
    /// `... []`
    Array,
    /// A K&R-style identifier list or another unrecognised form.
    Unsupported,
}

/// One formal parameter of a function declarator.
pub struct ParameterDeclaration {
    pub specifiers: Vec<DeclarationSpecifier>,
    pub declarator: Option<Declarator>,
}

/// The base-type portion of a declaration.
pub enum TypeSpecifier {
    Void,
    Char,
    Short,
    Int,
    Long,
    Float,
    Double,
    Unsigned,
    /// A reference to a previously named type.
    TypedefName(String),
    /// `struct tag { members }`, where the grammar makes both the tag and
    /// the member list optional.
    Struct(StructType),
    /// `signed`, `_Bool`, `_Complex`, `_Atomic(..)`, `enum`, `union` and
    /// every other base type this generator does not translate.
    Unsupported,
}

/// A struct type specifier.
pub struct StructType {
    pub identifier: Option<String>,
    pub declarations: Option<Vec<StructDeclaration>>,
}

/// One item of a struct body.
pub enum StructDeclaration {
    Field(StructField),
    /// A static assertion inside a struct body.
    Unsupported,
}

/// One field declaration of a struct body.
pub struct StructField {
    pub specifiers: Vec<SpecifierQualifier>,
    pub declarators: Vec<StructDeclarator>,
}

/// One specifier or qualifier of a struct field.
pub enum SpecifierQualifier {
    TypeSpecifier(TypeSpecifier),
    /// Type qualifiers and vendor extensions.
    Other,
}

/// One declarator of a struct field; a pure bit-field carries none.
pub struct StructDeclarator {
    pub declarator: Option<Declarator>,
}

} // verus!
