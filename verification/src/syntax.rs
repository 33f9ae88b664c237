//! The parts of a function declaration and of an annotation's argument list
//! that the rewriting reads, held as plain values.

use vstd::prelude::*;
use vstd::string::StringExecFns;

verus! {

/// An identifier, by its text. The text is never empty.
#[derive(Debug)]
pub struct Ident {
    name: String,
}

impl View for Ident {
    type V = Seq<char>;

    closed spec fn view(&self) -> Seq<char> {
        self.name@
    }
}

impl Ident {
    #[verifier::type_invariant]
    spec fn nonempty(self) -> bool {
        self.name@.len() > 0
    }

    /// Makes an identifier of `name`, unless `name` is empty.
    pub fn new(name: &str) -> (ident: Option<Ident>)
        ensures
            ident is Some <==> name@.len() > 0,
            ident matches Some(i) ==> i@ == name@,
    {
        if name.is_empty() {
            None
        } else {
            Some(Ident { name: String::from_str(name) })
        }
    }

    /// The identifier's text.
    pub fn as_str(&self) -> (text: &str)
        ensures
            text@ == self@,
            text@.len() > 0,
    {
        proof {
            use_type_invariant(self);
        }
        self.name.as_str()
    }

    /// Whether the identifier's text is `text`.
    pub fn is(&self, text: &str) -> (same: bool)
        ensures
            same == (self@ == text@),
    {
        let other = String::from_str(text);
        self.name == other
    }

    /// A copy of the identifier.
    pub fn duplicate(&self) -> (copy: Ident)
        ensures
            copy@ == self@,
    {
        proof {
            use_type_invariant(self);
        }
        Ident { name: self.name.clone() }
    }
}

/// The text of an identifier that may be absent.
pub open spec fn ident_text(ident: Option<Ident>) -> Option<Seq<char>> {
    match ident {
        Some(i) => Some(i@),
        None => None,
    }
}

/// The characters of a string that may be absent.
pub open spec fn string_text(text: Option<String>) -> Option<Seq<char>> {
    match text {
        Some(t) => Some(t@),
        None => None,
    }
}

/// The kinds of literal that an annotation argument can hold.
#[derive(Clone, Copy, Debug, PartialEq, Eq, Structural)]
pub enum LitKind {
    Str,
    ByteStr,
    Byte,
    Char,
    Int,
    Float,
    Bool,
    Verbatim,
}

/// A literal in an annotation's argument list. Only a string literal's value
/// is ever read; of the others, only the kind.
#[derive(Debug)]
pub enum Lit {
    Str(String),
    ByteStr,
    Byte,
    Char,
    Int,
    Float,
    Bool(bool),
    Verbatim,
}

impl Lit {
    /// The kind of the literal.
    pub open spec fn spec_kind(&self) -> LitKind {
        match *self {
            Lit::Str(_) => LitKind::Str,
            Lit::ByteStr => LitKind::ByteStr,
            Lit::Byte => LitKind::Byte,
            Lit::Char => LitKind::Char,
            Lit::Int => LitKind::Int,
            Lit::Float => LitKind::Float,
            Lit::Bool(_) => LitKind::Bool,
            Lit::Verbatim => LitKind::Verbatim,
        }
    }

    /// The kind of the literal.
    #[verifier::when_used_as_spec(spec_kind)]
    pub fn kind(&self) -> (kind: LitKind)
        ensures
            kind == self.spec_kind(),
    {
        match self {
            Lit::Str(_) => LitKind::Str,
            Lit::ByteStr => LitKind::ByteStr,
            Lit::Byte => LitKind::Byte,
            Lit::Char => LitKind::Char,
            Lit::Int => LitKind::Int,
            Lit::Float => LitKind::Float,
            Lit::Bool(_) => LitKind::Bool,
            Lit::Verbatim => LitKind::Verbatim,
        }
    }
}

/// One argument of an annotation that starts with a name: the bare name, the
/// name with a parenthesised list, or the name with `=` and a literal.
#[derive(Debug)]
pub enum Meta {
    Word(Ident),
    List(Ident, Vec<NestedMeta>),
    NameValue(Ident, Lit),
}

/// One argument of an annotation.
#[derive(Debug)]
pub enum NestedMeta {
    Meta(Meta),
    Literal(Lit),
}

impl Meta {
    /// The name that the argument starts with.
    pub open spec fn spec_name(&self) -> Seq<char> {
        match *self {
            Meta::Word(ident) => ident@,
            Meta::List(ident, _) => ident@,
            Meta::NameValue(ident, _) => ident@,
        }
    }

    /// The name that the argument starts with.
    pub fn name(&self) -> (name: &str)
        ensures
            name@ == self.spec_name(),
    {
        match self {
            Meta::Word(ident) => ident.as_str(),
            Meta::List(ident, _) => ident.as_str(),
            Meta::NameValue(ident, _) => ident.as_str(),
        }
    }
}

} // verus!
