//! The function declaration under rewriting: what is read of it, what is
//! carried through untouched, and the closure that takes over its body.

use vstd::prelude::*;
use vstd::string::StringExecFns;
use crate::syntax::Ident;

verus! {

/// A type written as a path, such as `std::result::Result<T, E>`: the
/// identifiers of its segments, in order, without their arguments.
#[derive(Debug)]
pub struct TypePath {
    pub segments: Vec<Ident>,
}

/// A type in a return position. Of a type that is no path nothing is read.
#[derive(Debug)]
pub enum Type {
    Path(TypePath),
    Other,
}

/// What a function declares to return.
#[derive(Debug)]
pub enum ReturnType {
    /// Nothing is written: the function returns `()`.
    Default,
    /// `->` and a type.
    Type(Type),
}

/// A function declaration. `header` is the source text of all that stands
/// before the body (attributes, visibility, name, parameters, return type);
/// `block` is the source text of the body, braces included. Both are carried
/// as they are; `ident` and `output` say what the rewriting needs to know.
#[derive(Debug)]
pub struct ItemFn {
    pub header: String,
    pub ident: Ident,
    pub output: ReturnType,
    pub block: String,
}

/// A closure without parameters around a block of source text.
#[derive(Debug)]
pub struct ExprClosure {
    /// Whether the closure takes what it captures by move.
    pub capture: bool,
    /// The source text of the body, braces included.
    pub body: String,
}

/// Whether the last segment of a type path is named `Result`.
pub open spec fn names_result(segments: Seq<Ident>) -> bool {
    segments.len() > 0 && segments.last()@ == "Result"@
}

/// Whether a declared return type is a path whose last segment is named
/// `Result`.
pub open spec fn returns_result(output: ReturnType) -> bool {
    match output {
        ReturnType::Type(Type::Path(path)) => names_result(path.segments@),
        _ => false,
    }
}

/// The source text of a closure: `move`, where it captures by move, then
/// `||` and the body.
pub open spec fn closure_text(capture: bool, body: Seq<char>) -> Seq<char> {
    if capture {
        "move || "@ + body
    } else {
        "|| "@ + body
    }
}

/// The source text of a function: its header, a space, its body.
pub open spec fn function_text(header: Seq<char>, block: Seq<char>) -> Seq<char> {
    header + " "@ + block
}

impl ExprClosure {
    /// The closure as source text.
    pub fn source(&self) -> (text: String)
        ensures
            text@ == closure_text(self.capture, self.body@),
    {
        let mut text = if self.capture {
            String::from_str("move || ")
        } else {
            String::from_str("|| ")
        };
        text.append(self.body.as_str());
        text
    }
}

impl ItemFn {
    /// The function as source text.
    pub fn source(&self) -> (text: String)
        ensures
            text@ == function_text(self.header@, self.block@),
    {
        let mut text = self.header.clone();
        text.append(" ");
        text.append(self.block.as_str());
        text
    }
}

/// Checks whether a type path names some form of `Result`. Every type whose
/// last segment is named `Result` counts, from whichever module it is
/// referenced.
pub fn is_result_type(ty: &TypePath) -> (is_result: bool)
    ensures
        is_result == names_result(ty.segments@),
{
    let n: usize = ty.segments.len();
    if n == 0 {
        false
    } else {
        ty.segments[n - 1].is("Result")
    }
}

/// Checks whether a function is declared to return some form of `Result`.
pub fn check_if_return_result(f: &ItemFn) -> (fallible: bool)
    ensures
        fallible == returns_result(f.output),
{
    match &f.output {
        ReturnType::Type(Type::Path(path)) => is_result_type(path),
        _ => false,
    }
}

/// Makes the closure that stands for a function's body: no parameters,
/// capture by move, the function's block as its body.
pub fn make_closure(function: &ItemFn) -> (closure: ExprClosure)
    ensures
        closure.capture,
        closure.body@ == function.block@,
{
    ExprClosure { capture: true, body: function.block.clone() }
}

/// Gives `new` everything of `function` but the body: `new` keeps its own
/// block and takes header, name and return type from `function`.
pub fn replace_function_headers(function: ItemFn, new: &mut ItemFn)
    ensures
        final(new).block == old(new).block,
        final(new).header == function.header,
        final(new).ident == function.ident,
        final(new).output == function.output,
{
    new.header = function.header;
    new.ident = function.ident;
    new.output = function.output;
}

} // verus!
