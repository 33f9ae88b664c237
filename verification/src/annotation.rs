//! An annotation's argument list: an optional leading log level, then named
//! arguments drawn from `ok`, `err`, `fmt` and `ctx`.

use vstd::prelude::*;
use vstd::string::StringExecFns;
use crate::syntax::{ident_text, string_text, Ident, Lit, LitKind, Meta, NestedMeta};

verus! {

/// The names that a named argument can have.
#[derive(Clone, Copy, Debug, PartialEq, Eq, Structural)]
pub enum Key {
    /// `ok`: the log level of a success.
    OkLevel,
    /// `err`: the log level of a failure.
    ErrLevel,
    /// `fmt`: the template of the log message.
    Fmt,
    /// `ctx`: the label that tells call sites apart.
    Ctx,
}

/// The forms of a named argument that give it no literal.
#[derive(Clone, Copy, Debug, PartialEq, Eq, Structural)]
pub enum Format {
    /// The bare name.
    Word,
    /// The name with a parenthesised list that is not one literal.
    List,
}

/// What is wrong with an argument list.
#[derive(Clone, Copy, Debug, PartialEq, Eq, Structural)]
pub enum FaultKind {
    /// The list holds fewer arguments than the number given.
    TooFewItems(usize),
    /// The argument's name is none of the recognised ones.
    UnknownField,
    /// An earlier argument has the same name.
    DuplicateField(Key),
    /// The argument gives its name no literal.
    UnexpectedFormat(Key, Format),
    /// The argument's literal is of a kind that its name does not take.
    UnexpectedType(Key, LitKind),
    /// The argument's string is no identifier, where its name takes one.
    UnknownValue(Key),
}

/// A fault in an argument list, with the position of the argument at fault.
#[derive(Clone, Copy, Debug, PartialEq, Eq, Structural)]
pub struct Fault {
    pub kind: FaultKind,
    /// The index of the offending argument in the list as it was given.
    pub item: usize,
}

/// The named arguments of an annotation, each absent unless given.
#[derive(Debug)]
pub struct NamedOptions {
    pub ok: Option<Ident>,
    pub err: Option<Ident>,
    pub fmt: Option<String>,
    pub ctx: Option<String>,
}

impl Default for NamedOptions {
    /// The named arguments of an annotation that gives none.
    fn default() -> (named: NamedOptions)
        ensures
            named.ok is None,
            named.err is None,
            named.fmt is None,
            named.ctx is None,
    {
        NamedOptions { ok: None, err: None, fmt: None, ctx: None }
    }
}

/// The arguments of an annotation.
#[derive(Debug)]
pub struct Options {
    /// The log level specified as the first word in the annotation.
    pub leading_level: Option<Ident>,
    pub named: NamedOptions,
}

/// The identifier that `syn` reads a string as: the text of the identifier
/// where the whole string is one identifier that is no keyword, and nothing
/// otherwise.
pub uninterp spec fn parsed_ident(text: Seq<char>) -> Option<Seq<char>>;

/// The key that a name stands for, if it is a recognised one.
pub open spec fn key_of(name: Seq<char>) -> Option<Key> {
    if name == "ok"@ {
        Some(Key::OkLevel)
    } else if name == "err"@ {
        Some(Key::ErrLevel)
    } else if name == "fmt"@ {
        Some(Key::Fmt)
    } else if name == "ctx"@ {
        Some(Key::Ctx)
    } else {
        None
    }
}

/// Whether a key takes an identifier (a log level) rather than free text.
pub open spec fn takes_ident(key: Key) -> bool {
    key == Key::OkLevel || key == Key::ErrLevel
}

/// What a parsed string gives a key that takes an identifier.
pub open spec fn ident_of_parsed(key: Key, parsed: Option<Seq<char>>) -> Result<
    Seq<char>,
    FaultKind,
> {
    match parsed {
        Some(text) => if text.len() > 0 {
            Ok(text)
        } else {
            Err(FaultKind::UnknownValue(key))
        },
        None => Err(FaultKind::UnknownValue(key)),
    }
}

/// What a literal gives a key: a string is taken as it is by `fmt` and `ctx`
/// and read as an identifier by `ok` and `err`; any other literal is refused.
pub open spec fn value_of_lit(key: Key, lit: Lit) -> Result<Seq<char>, FaultKind> {
    match lit {
        Lit::Str(s) => if takes_ident(key) {
            ident_of_parsed(key, parsed_ident(s@))
        } else {
            Ok(s@)
        },
        _ => Err(FaultKind::UnexpectedType(key, lit.spec_kind())),
    }
}

/// What an argument gives the key that it names: the literal behind `=`, or
/// the one literal in its parentheses.
pub open spec fn value_of_meta(key: Key, meta: Meta) -> Result<Seq<char>, FaultKind> {
    match meta {
        Meta::Word(_) => Err(FaultKind::UnexpectedFormat(key, Format::Word)),
        Meta::NameValue(_, lit) => value_of_lit(key, lit),
        Meta::List(_, nested) => if nested@.len() == 1 {
            match nested@[0] {
                NestedMeta::Literal(lit) => value_of_lit(key, lit),
                NestedMeta::Meta(_) => Err(FaultKind::UnexpectedFormat(key, Format::List)),
            }
        } else {
            Err(FaultKind::UnexpectedFormat(key, Format::List))
        },
    }
}

/// The key that the argument at `i` names, if it names one.
pub open spec fn key_at(items: Seq<NestedMeta>, i: int) -> Option<Key> {
    match items[i] {
        NestedMeta::Meta(meta) => key_of(meta.spec_name()),
        NestedMeta::Literal(_) => None,
    }
}

/// Whether an argument from `start` on and before `i` names `key`.
pub open spec fn seen_before(items: Seq<NestedMeta>, start: int, i: int, key: Key) -> bool {
    exists|j: int| start <= j < i && #[trigger] key_at(items, j) == Some(key)
}

/// What is wrong with the argument at `i`, the named arguments starting at
/// `start`. A bare literal is passed over. A name must be recognised, must
/// not have occurred before, and must come with a value that its key takes.
pub open spec fn problem_at(items: Seq<NestedMeta>, start: int, i: int) -> Option<FaultKind> {
    match items[i] {
        NestedMeta::Literal(_) => None,
        NestedMeta::Meta(meta) => match key_of(meta.spec_name()) {
            None => Some(FaultKind::UnknownField),
            Some(key) => if seen_before(items, start, i, key) {
                Some(FaultKind::DuplicateField(key))
            } else {
                match value_of_meta(key, meta) {
                    Ok(_) => None,
                    Err(kind) => Some(kind),
                }
            },
        },
    }
}

/// The faults of the arguments from `start` on and before `end`, in the
/// order of the arguments.
pub open spec fn problems(items: Seq<NestedMeta>, start: int, end: int) -> Seq<Fault>
    decreases end - start,
{
    if end <= start {
        Seq::empty()
    } else {
        let before = problems(items, start, end - 1);
        match problem_at(items, start, end - 1) {
            Some(kind) => before.push(Fault { kind, item: (end - 1) as usize }),
            None => before,
        }
    }
}

/// The value that the arguments from `start` on and before `end` give `key`:
/// that of the first argument that names it, where that argument has one.
pub open spec fn given(items: Seq<NestedMeta>, start: int, end: int, key: Key) -> Option<
    Seq<char>,
>
    decreases end - start,
{
    if end <= start {
        None
    } else if key_at(items, start) == Some(key) {
        match items[start] {
            NestedMeta::Meta(meta) => match value_of_meta(key, meta) {
                Ok(value) => Some(value),
                Err(_) => None,
            },
            NestedMeta::Literal(_) => None,
        }
    } else {
        given(items, start + 1, end, key)
    }
}

/// The leading log level of an argument list: its first argument, where
/// that is a bare name.
pub open spec fn leading_level_of(items: Seq<NestedMeta>) -> Option<Seq<char>> {
    if items.len() == 0 {
        None
    } else {
        match items[0] {
            NestedMeta::Meta(Meta::Word(ident)) => Some(ident@),
            _ => None,
        }
    }
}

/// Where the named arguments of an argument list start: behind the leading
/// log level, if there is one.
pub open spec fn named_start(items: Seq<NestedMeta>) -> int {
    if leading_level_of(items) is Some {
        1
    } else {
        0
    }
}

/// Whether an argument list is accepted: it is not empty, and none of its
/// named arguments is at fault.
pub open spec fn accepted(items: Seq<NestedMeta>) -> bool {
    items.len() > 0 && problems(items, named_start(items), items.len() as int).len() == 0
}

/// The faults for which an argument list is refused: that it is empty, or
/// else the faults of its named arguments in their order.
pub open spec fn faults(items: Seq<NestedMeta>) -> Seq<Fault> {
    if items.len() == 0 {
        seq![Fault { kind: FaultKind::TooFewItems(1), item: 0 }]
    } else {
        problems(items, named_start(items), items.len() as int)
    }
}

/// The value that an argument list gives a key.
pub open spec fn named_value(items: Seq<NestedMeta>, key: Key) -> Option<Seq<char>> {
    given(items, named_start(items), items.len() as int, key)
}

/// The log level that an argument list sets for a success: that of `ok`,
/// or else the leading level.
pub open spec fn ok_level(items: Seq<NestedMeta>) -> Option<Seq<char>> {
    match named_value(items, Key::OkLevel) {
        Some(level) => Some(level),
        None => leading_level_of(items),
    }
}

/// The log level that an argument list sets for a failure: that of `err`,
/// or else the leading level.
pub open spec fn err_level(items: Seq<NestedMeta>) -> Option<Seq<char>> {
    match named_value(items, Key::ErrLevel) {
        Some(level) => Some(level),
        None => leading_level_of(items),
    }
}

impl NamedOptions {
    /// The value held for a key.
    pub open spec fn text(&self, key: Key) -> Option<Seq<char>> {
        match key {
            Key::OkLevel => ident_text(self.ok),
            Key::ErrLevel => ident_text(self.err),
            Key::Fmt => string_text(self.fmt),
            Key::Ctx => string_text(self.ctx),
        }
    }

    /// Whether the options hold what the arguments from `start` on give.
    pub open spec fn holds(&self, items: Seq<NestedMeta>, start: int) -> bool {
        &&& self.text(Key::OkLevel) == given(items, start, items.len() as int, Key::OkLevel)
        &&& self.text(Key::ErrLevel) == given(items, start, items.len() as int, Key::ErrLevel)
        &&& self.text(Key::Fmt) == given(items, start, items.len() as int, Key::Fmt)
        &&& self.text(Key::Ctx) == given(items, start, items.len() as int, Key::Ctx)
    }
}

/// Reads a string as an identifier with `syn::parse_str::<syn::Ident>`, as
/// `syn::LitStr::parse` does, and hands back the identifier's text. The
/// contract only gives the outcome its name, `parsed_ident`.
#[verifier::external_body]
fn parse_ident(text: &str) -> (parsed: Option<String>)
    ensures
        string_text(parsed) == parsed_ident(text@),
{
    match syn::parse_str::<syn::Ident>(text) {
        Ok(ident) => Some(ident.to_string()),
        Err(_) => None,
    }
}

/// Makes the log level of `key` out of what a string was read as: the
/// identifier, unless the string was none.
pub fn level_of_parsed(key: Key, parsed: Option<String>) -> (level: Result<Ident, FaultKind>)
    ensures
        ident_of_parsed(key, string_text(parsed)) == match level {
            Ok(ident) => Ok::<Seq<char>, FaultKind>(ident@),
            Err(kind) => Err(kind),
        },
{
    match parsed {
        Some(text) => match Ident::new(text.as_str()) {
            Some(ident) => Ok(ident),
            None => Err(FaultKind::UnknownValue(key)),
        },
        None => Err(FaultKind::UnknownValue(key)),
    }
}

impl Key {
    /// The name that stands for the key.
    pub fn name(self) -> (name: &'static str)
        ensures
            key_of(name@) == Some(self),
    {
        proof {
            lemma_keys_named();
        }
        match self {
            Key::OkLevel => "ok",
            Key::ErrLevel => "err",
            Key::Fmt => "fmt",
            Key::Ctx => "ctx",
        }
    }
}

/// Tells which key a name stands for.
pub fn key_named(name: &str) -> (key: Option<Key>)
    ensures
        key == key_of(name@),
{
    let name = String::from_str(name);
    if name == String::from_str("ok") {
        Some(Key::OkLevel)
    } else if name == String::from_str("err") {
        Some(Key::ErrLevel)
    } else if name == String::from_str("fmt") {
        Some(Key::Fmt)
    } else if name == String::from_str("ctx") {
        Some(Key::Ctx)
    } else {
        None
    }
}

/// The literal that an argument gives its name, if its form gives one.
fn literal_of(key: Key, meta: &Meta) -> (lit: Result<&Lit, FaultKind>)
    ensures
        match lit {
            Ok(l) => value_of_meta(key, *meta) == value_of_lit(key, *l),
            Err(kind) => value_of_meta(key, *meta) == Err::<Seq<char>, FaultKind>(kind),
        },
{
    match meta {
        Meta::Word(_) => Err(FaultKind::UnexpectedFormat(key, Format::Word)),
        Meta::NameValue(_, lit) => Ok(lit),
        Meta::List(_, nested) => {
            if nested.len() == 1 {
                match &nested[0] {
                    NestedMeta::Literal(lit) => Ok(lit),
                    NestedMeta::Meta(_) => Err(FaultKind::UnexpectedFormat(key, Format::List)),
                }
            } else {
                Err(FaultKind::UnexpectedFormat(key, Format::List))
            }
        },
    }
}

/// Reads the free text that an argument gives `fmt` or `ctx`.
fn text_value(key: Key, meta: &Meta) -> (value: Result<String, FaultKind>)
    requires
        !takes_ident(key),
    ensures
        value_of_meta(key, *meta) == match value {
            Ok(text) => Ok::<Seq<char>, FaultKind>(text@),
            Err(kind) => Err(kind),
        },
{
    match literal_of(key, meta) {
        Ok(lit) => match lit {
            Lit::Str(text) => Ok(text.clone()),
            _ => Err(FaultKind::UnexpectedType(key, lit.kind())),
        },
        Err(kind) => Err(kind),
    }
}

/// Reads the log level that an argument gives `ok` or `err`.
fn level_value(key: Key, meta: &Meta) -> (value: Result<Ident, FaultKind>)
    requires
        takes_ident(key),
    ensures
        value_of_meta(key, *meta) == match value {
            Ok(ident) => Ok::<Seq<char>, FaultKind>(ident@),
            Err(kind) => Err(kind),
        },
{
    match literal_of(key, meta) {
        Ok(lit) => match lit {
            Lit::Str(text) => level_of_parsed(key, parse_ident(text.as_str())),
            _ => Err(FaultKind::UnexpectedType(key, lit.kind())),
        },
        Err(kind) => Err(kind),
    }
}

/// Whether `seen` and `value` say of `key` what the arguments from `start`
/// on and before `i` decide: whether one of them names it and, if so, what
/// value the key gets.
spec fn scanned(
    items: Seq<NestedMeta>,
    start: int,
    i: int,
    key: Key,
    seen: bool,
    value: Option<Seq<char>>,
) -> bool {
    &&& seen == seen_before(items, start, i, key)
    &&& seen ==> value == given(items, start, items.len() as int, key)
    &&& !seen ==> value is None && given(items, start, items.len() as int, key) == given(
        items,
        i,
        items.len() as int,
        key,
    )
}

/// A key has been named before `i + 1` exactly if it has been named before
/// `i` or is named at `i`.
proof fn lemma_seen_step(items: Seq<NestedMeta>, start: int, i: int, key: Key)
    requires
        start <= i < items.len(),
    ensures
        seen_before(items, start, i + 1, key) == (seen_before(items, start, i, key) || key_at(
            items,
            i,
        ) == Some(key)),
{
    if seen_before(items, start, i, key) {
        let j = choose|j: int| start <= j < i && #[trigger] key_at(items, j) == Some(key);
        assert(start <= j < i + 1 && key_at(items, j) == Some(key));
    }
    if key_at(items, i) == Some(key) {
        assert(start <= i < i + 1 && key_at(items, i) == Some(key));
    }
    if seen_before(items, start, i + 1, key) {
        let j = choose|j: int| start <= j < i + 1 && #[trigger] key_at(items, j) == Some(key);
        if j != i {
            assert(start <= j < i && key_at(items, j) == Some(key));
        }
    }
}

/// The scan of one argument keeps `scanned` for a key: an argument that does
/// not name the key leaves it as it was; the first that names it settles it.
proof fn lemma_scan_step(
    items: Seq<NestedMeta>,
    start: int,
    i: int,
    key: Key,
    seen: bool,
    value: Option<Seq<char>>,
)
    requires
        start <= i < items.len(),
        scanned(items, start, i, key, seen, value),
    ensures
        key_at(items, i) != Some(key) ==> scanned(items, start, i + 1, key, seen, value),
        key_at(items, i) == Some(key) && seen ==> scanned(items, start, i + 1, key, true, value),
        key_at(items, i) == Some(key) && !seen ==> scanned(
            items,
            start,
            i + 1,
            key,
            true,
            given(items, i, items.len() as int, key),
        ),
{
    lemma_seen_step(items, start, i, key);
}

/// What filing an argument under its key comes to. An argument whose key
/// has been named before is a fault and changes nothing else; the first
/// that names the key gives it its value, or is a fault for having none.
spec fn filed(
    key: Key,
    meta: Meta,
    item: usize,
    seen: bool,
    value: Option<Seq<char>>,
    errors: Seq<Fault>,
    value_after: Option<Seq<char>>,
    errors_after: Seq<Fault>,
) -> bool {
    if seen {
        value_after == value && errors_after == errors.push(
            Fault { kind: FaultKind::DuplicateField(key), item },
        )
    } else {
        match value_of_meta(key, meta) {
            Ok(given) => value_after == Some(given) && errors_after == errors,
            Err(kind) => value_after == value && errors_after == errors.push(Fault { kind, item }),
        }
    }
}

/// Files an argument that names `ok` or `err`.
fn file_level(
    key: Key,
    meta: &Meta,
    item: usize,
    seen: &mut bool,
    level: &mut Option<Ident>,
    errors: &mut Vec<Fault>,
)
    requires
        takes_ident(key),
    ensures
        *final(seen),
        filed(
            key,
            *meta,
            item,
            *old(seen),
            ident_text(*old(level)),
            old(errors)@,
            ident_text(*final(level)),
            final(errors)@,
        ),
{
    if *seen {
        errors.push(Fault { kind: FaultKind::DuplicateField(key), item });
    } else {
        *seen = true;
        match level_value(key, meta) {
            Ok(ident) => {
                *level = Some(ident);
            },
            Err(kind) => {
                errors.push(Fault { kind, item });
            },
        }
    }
}

/// Files an argument that names `fmt` or `ctx`.
fn file_text(
    key: Key,
    meta: &Meta,
    item: usize,
    seen: &mut bool,
    text: &mut Option<String>,
    errors: &mut Vec<Fault>,
)
    requires
        !takes_ident(key),
    ensures
        *final(seen),
        filed(
            key,
            *meta,
            item,
            *old(seen),
            string_text(*old(text)),
            old(errors)@,
            string_text(*final(text)),
            final(errors)@,
        ),
{
    if *seen {
        errors.push(Fault { kind: FaultKind::DuplicateField(key), item });
    } else {
        *seen = true;
        match text_value(key, meta) {
            Ok(value) => {
                *text = Some(value);
            },
            Err(kind) => {
                errors.push(Fault { kind, item });
            },
        }
    }
}

/// Reads the named arguments of an annotation from `start` on. Every
/// argument is looked at, so that all faults are reported together, in the
/// order of the arguments; the options come only where there is none.
fn parse_named(items: &[NestedMeta], start: usize) -> (parsed: Result<NamedOptions, Vec<Fault>>)
    requires
        start <= items.len(),
    ensures
        match parsed {
            Ok(named) => problems(items@, start as int, items.len() as int).len() == 0
                && named.holds(items@, start as int),
            Err(errors) => errors@ == problems(items@, start as int, items.len() as int)
                && errors@.len() > 0,
        },
{
    let mut named = NamedOptions::default();
    let mut seen_ok = false;
    let mut seen_err = false;
    let mut seen_fmt = false;
    let mut seen_ctx = false;
    let mut errors: Vec<Fault> = Vec::new();
    let mut i: usize = start;
    while i < items.len()
        invariant
            start <= i <= items.len(),
            errors@ == problems(items@, start as int, i as int),
            scanned(items@, start as int, i as int, Key::OkLevel, seen_ok, named.text(Key::OkLevel)),
            scanned(
                items@,
                start as int,
                i as int,
                Key::ErrLevel,
                seen_err,
                named.text(Key::ErrLevel),
            ),
            scanned(items@, start as int, i as int, Key::Fmt, seen_fmt, named.text(Key::Fmt)),
            scanned(items@, start as int, i as int, Key::Ctx, seen_ctx, named.text(Key::Ctx)),
        decreases items.len() - i,
    {
        proof {
            lemma_scan_step(
                items@,
                start as int,
                i as int,
                Key::OkLevel,
                seen_ok,
                named.text(Key::OkLevel),
            );
            lemma_scan_step(
                items@,
                start as int,
                i as int,
                Key::ErrLevel,
                seen_err,
                named.text(Key::ErrLevel),
            );
            lemma_scan_step(
                items@,
                start as int,
                i as int,
                Key::Fmt,
                seen_fmt,
                named.text(Key::Fmt),
            );
            lemma_scan_step(
                items@,
                start as int,
                i as int,
                Key::Ctx,
                seen_ctx,
                named.text(Key::Ctx),
            );
        }
        match &items[i] {
            NestedMeta::Literal(_) => {},
            NestedMeta::Meta(meta) => {
                match key_named(meta.name()) {
                    None => {
                        errors.push(Fault { kind: FaultKind::UnknownField, item: i });
                    },
                    Some(Key::OkLevel) => {
                        file_level(Key::OkLevel, meta, i, &mut seen_ok, &mut named.ok, &mut errors);
                    },
                    Some(Key::ErrLevel) => {
                        file_level(
                            Key::ErrLevel,
                            meta,
                            i,
                            &mut seen_err,
                            &mut named.err,
                            &mut errors,
                        );
                    },
                    Some(Key::Fmt) => {
                        file_text(Key::Fmt, meta, i, &mut seen_fmt, &mut named.fmt, &mut errors);
                    },
                    Some(Key::Ctx) => {
                        file_text(Key::Ctx, meta, i, &mut seen_ctx, &mut named.ctx, &mut errors);
                    },
                }
            },
        }
        i += 1;
    }
    if errors.len() == 0 {
        Ok(named)
    } else {
        Err(errors)
    }
}

impl NamedOptions {
    /// Reads the named arguments of an annotation. Succeeds where every
    /// argument with a name has a recognised one, no name occurs twice, and
    /// each comes with a value that its key takes; otherwise hands back all
    /// faults, in the order of the arguments.
    pub fn from_list(items: &[NestedMeta]) -> (parsed: Result<NamedOptions, Vec<Fault>>)
        ensures
            match parsed {
                Ok(named) => problems(items@, 0, items.len() as int).len() == 0 && named.holds(
                    items@,
                    0,
                ),
                Err(errors) => errors@ == problems(items@, 0, items.len() as int) && errors@.len()
                    > 0,
            },
    {
        parse_named(items, 0)
    }
}

impl Options {
    /// Whether the options hold what an argument list gives: its leading
    /// level, and the value of each key.
    pub open spec fn reads(&self, items: Seq<NestedMeta>) -> bool {
        &&& ident_text(self.leading_level) == leading_level_of(items)
        &&& self.named.holds(items, named_start(items))
    }

    /// The log level of a success as the arguments give it: `ok`, or else
    /// the leading level.
    pub open spec fn spec_ok_log(&self) -> Option<Seq<char>> {
        match self.named.ok {
            Some(level) => Some(level@),
            None => ident_text(self.leading_level),
        }
    }

    /// The log level of a failure as the arguments give it: `err`, or else
    /// the leading level.
    pub open spec fn spec_err_log(&self) -> Option<Seq<char>> {
        match self.named.err {
            Some(level) => Some(level@),
            None => ident_text(self.leading_level),
        }
    }

    /// The log level of a success: `ok`, or else the leading level.
    pub fn ok_log(&self) -> (level: Option<&Ident>)
        ensures
            self.spec_ok_log() == match level {
                Some(ident) => Some(ident@),
                None => None,
            },
    {
        match &self.named.ok {
            Some(level) => Some(level),
            None => self.leading_level.as_ref(),
        }
    }

    /// The log level of a failure: `err`, or else the leading level.
    pub fn err_log(&self) -> (level: Option<&Ident>)
        ensures
            self.spec_err_log() == match level {
                Some(ident) => Some(ident@),
                None => None,
            },
    {
        match &self.named.err {
            Some(level) => Some(level),
            None => self.leading_level.as_ref(),
        }
    }

    /// The template of the log message, if one is given.
    pub fn fmt(&self) -> (template: Option<&str>)
        ensures
            string_text(self.named.fmt) == match template {
                Some(text) => Some(text@),
                None => None,
            },
    {
        match &self.named.fmt {
            Some(text) => Some(text.as_str()),
            None => None,
        }
    }

    /// The label that tells call sites apart, if one is given.
    pub fn ctx(&self) -> (label: Option<&str>)
        ensures
            string_text(self.named.ctx) == match label {
                Some(text) => Some(text@),
                None => None,
            },
    {
        match &self.named.ctx {
            Some(text) => Some(text.as_str()),
            None => None,
        }
    }

    /// Reads the arguments of an annotation. An empty list is refused. A bare
    /// name in first place is the leading log level, whatever the name; the
    /// named arguments are what follows it, or the whole list where there is
    /// no leading level.
    pub fn from_list(items: &[NestedMeta]) -> (parsed: Result<Options, Vec<Fault>>)
        ensures
            match parsed {
                Ok(options) => accepted(items@) && options.reads(items@),
                Err(errors) => !accepted(items@) && errors@ == faults(items@),
            },
    {
        if items.len() == 0 {
            let mut errors: Vec<Fault> = Vec::new();
            errors.push(Fault { kind: FaultKind::TooFewItems(1), item: 0 });
            return Err(errors);
        }
        let leading_level = match &items[0] {
            NestedMeta::Meta(Meta::Word(ident)) => Some(ident.duplicate()),
            _ => None,
        };
        let start: usize = if leading_level.is_some() {
            1
        } else {
            0
        };
        match parse_named(items, start) {
            Ok(named) => Ok(Options { leading_level, named }),
            Err(errors) => Err(errors),
        }
    }
}

/// The arguments from `start` on are without fault exactly if each of them
/// is.
pub proof fn lemma_no_problems(items: Seq<NestedMeta>, start: int, end: int)
    requires
        0 <= start <= end <= items.len(),
    ensures
        problems(items, start, end).len() == 0 <==> forall|i: int|
            start <= i < end ==> #[trigger] problem_at(items, start, i) is None,
    decreases end - start,
{
    if end > start {
        lemma_no_problems(items, start, end - 1);
        if problems(items, start, end).len() == 0 {
            assert forall|i: int| start <= i < end implies #[trigger] problem_at(
                items,
                start,
                i,
            ) is None by {
                if i == end - 1 {
                } else {
                    assert(problems(items, start, end - 1).len() == 0);
                }
            }
        }
    }
}

/// Every fault names the argument that it is about, and the faults stand in
/// the order of the arguments.
pub proof fn lemma_problems_located(items: Seq<NestedMeta>, start: int, end: int)
    requires
        0 <= start <= end <= items.len() <= usize::MAX,
    ensures
        forall|k: int|
            0 <= k < problems(items, start, end).len() ==> {
                let fault = #[trigger] problems(items, start, end)[k];
                start <= fault.item < end && problem_at(items, start, fault.item as int) == Some(
                    fault.kind,
                )
            },
        forall|k: int, l: int|
            0 <= k < l < problems(items, start, end).len() ==> (#[trigger] problems(
                items,
                start,
                end,
            )[k]).item < (#[trigger] problems(items, start, end)[l]).item,
    decreases end - start,
{
    if end > start {
        lemma_problems_located(items, start, end - 1);
    }
}

/// Each of the four recognised names stands for its own key.
pub proof fn lemma_keys_named()
    ensures
        key_of("ok"@) == Some(Key::OkLevel),
        key_of("err"@) == Some(Key::ErrLevel),
        key_of("fmt"@) == Some(Key::Fmt),
        key_of("ctx"@) == Some(Key::Ctx),
{
    reveal_strlit("ok");
    reveal_strlit("err");
    reveal_strlit("fmt");
    reveal_strlit("ctx");
    assert("err"@[0] == 'e' && "fmt"@[0] == 'f' && "ctx"@[0] == 'c');
    assert("ok"@.len() == 2 && "err"@.len() == 3);
}

/// An empty argument list is refused, for holding too few arguments.
pub proof fn lemma_empty_refused(items: Seq<NestedMeta>)
    requires
        items.len() == 0,
    ensures
        !accepted(items),
        faults(items) == seq![Fault { kind: FaultKind::TooFewItems(1), item: 0 }],
{
}

/// A leading level alone is accepted and sets the log level of a success
/// and that of a failure both.
pub proof fn lemma_leading_level_alone(items: Seq<NestedMeta>)
    requires
        items.len() == 1,
        leading_level_of(items) is Some,
    ensures
        accepted(items),
        ok_level(items) == leading_level_of(items),
        err_level(items) == leading_level_of(items),
        named_value(items, Key::Fmt) is None,
        named_value(items, Key::Ctx) is None,
{
}

/// A label alone, given as a string behind `ctx`, is accepted: it sets the
/// label and no log level.
pub proof fn lemma_context_alone(items: Seq<NestedMeta>, label: Seq<char>)
    requires
        items.len() == 1,
        items[0] matches NestedMeta::Meta(meta) && meta.spec_name() == "ctx"@ && !(meta is Word)
            && value_of_meta(Key::Ctx, meta) == Ok::<Seq<char>, FaultKind>(label),
    ensures
        accepted(items),
        named_value(items, Key::Ctx) == Some(label),
        ok_level(items) is None,
        err_level(items) is None,
{
    lemma_keys_named();
    assert(key_at(items, 0) == Some(Key::Ctx));
    assert(!seen_before(items, 0, 0, Key::Ctx));
    assert(problems(items, 0, 0).len() == 0);
    assert(given(items, 1, 1, Key::OkLevel) is None);
    assert(given(items, 1, 1, Key::ErrLevel) is None);
}

} // verus!
