//! The rewriting itself: from an annotated function and its annotation's
//! arguments to a function with the same header whose body counts the call,
//! tracks it as in flight, times it and, for a function that can fail, counts
//! its failures.
//!
//! The emitted body reaches the metrics through the process-wide hooks
//! `::instrumented::inc_called_counter_for`, `inc_inflight_for`,
//! `get_timer_for`, `dec_inflight_for` and `inc_error_counter_for`, each
//! called with the function's name and the label of the call site. The
//! hooks belong to the crate that owns the one `Metrics` of the process;
//! they do on it what the functions of the same names in `metrics` do, and
//! the timer that `get_timer_for` hands out there is observed when it goes
//! out of scope.

use vstd::prelude::*;
use vstd::string::{StrSliceExecFns, StringExecFns};
use crate::annotation::{
    accepted,
    err_level,
    faults,
    named_value,
    ok_level,
    Fault,
    Key,
    Options,
};
use crate::function::{
    check_if_return_result,
    closure_text,
    make_closure,
    replace_function_headers,
    returns_result,
    ExprClosure,
    ItemFn,
    ReturnType,
};
use crate::literal::{quote_string, string_literal};
use crate::syntax::{string_text, Ident, NestedMeta};

verus! {

/// The lower-case form of a text, as `str::to_lowercase` of std gives it.
pub uninterp spec fn lowercase_of(text: Seq<char>) -> Seq<char>;

/// The upper-case form of a character, as `char::to_uppercase` of std gives
/// it: one character or several.
pub uninterp spec fn uppercase_of(c: char) -> Seq<char>;

/// `str::to_lowercase` of std. The contract only gives the outcome its
/// name, `lowercase_of`.
#[verifier::external_body]
fn lowercase(text: &str) -> (lower: String)
    ensures
        lower@ == lowercase_of(text@),
{
    text.to_lowercase()
}

/// `char::to_uppercase` of std, its characters collected. The contract only
/// gives the outcome its name, `uppercase_of`.
#[verifier::external_body]
fn uppercase(c: char) -> (upper: String)
    ensures
        upper@ == uppercase_of(c),
{
    c.to_uppercase().collect()
}

/// The path of a log level: `log::Level::`, then the level's name in two
/// parts.
pub open spec fn level_path_text(initial: Seq<char>, rest: Seq<char>) -> Seq<char> {
    "log::Level::"@ + initial + rest
}

/// A level's name as `log` writes it: in lower case but for the first
/// character, which is in upper case.
pub open spec fn logger_token(level: Seq<char>) -> Seq<char> {
    let lower = lowercase_of(level);
    if lower.len() == 0 {
        level_path_text(Seq::empty(), Seq::empty())
    } else {
        level_path_text(uppercase_of(lower[0]), lower.subrange(1, lower.len() as int))
    }
}

/// Writes the path of a log level from the two parts of its name.
pub fn level_path(initial: &str, rest: &str) -> (path: String)
    ensures
        path@ == level_path_text(initial@, rest@),
{
    let mut path = String::from_str("log::Level::");
    path.append(initial);
    path.append(rest);
    path
}

/// Writes the path of the log level that an identifier names, whatever the
/// case it is written in: `INFO`, `info` and `Info` all name `Info`.
pub fn get_logger_token(att: &Ident) -> (token: String)
    ensures
        token@ == logger_token(att@),
{
    let lower = lowercase(att.as_str());
    let n: usize = lower.as_str().unicode_len();
    if n == 0 {
        proof {
            reveal_strlit("");
            assert(""@ =~= Seq::<char>::empty());
        }
        level_path("", "")
    } else {
        let initial = uppercase(lower.as_str().get_char(0));
        let rest = lower.as_str().substring_char(1, n);
        level_path(initial.as_str(), rest)
    }
}

/// A call of `log::log!` with a level, a message template and the value
/// that the template shows.
pub open spec fn log_statement(level: Seq<char>, template: Seq<char>, subject: Seq<char>) -> Seq<
    char,
> {
    "log::log!("@ + level + ", "@ + template + ", "@ + subject + ");"@
}

/// The expression that logs an outcome: a call of `log::log!` where a level
/// is set, and `()` where none is.
pub open spec fn log_expr(level: Option<Seq<char>>, template: Seq<char>, subject: Seq<char>) -> Seq<
    char,
> {
    match level {
        Some(name) => log_statement(logger_token(name), string_literal(template), subject),
        None => "()"@,
    }
}

/// Writes a call of `log::log!`.
pub fn write_log_statement(level: &str, template: &str, subject: &str) -> (text: String)
    ensures
        text@ == log_statement(level@, template@, subject@),
{
    let mut text = String::from_str("log::log!(");
    text.append(level);
    text.append(", ");
    text.append(template);
    text.append(", ");
    text.append(subject);
    text.append(");");
    text
}

/// Writes the expression that logs an outcome.
fn write_log_expr(level: Option<&Ident>, template: &str, subject: &str) -> (text: String)
    ensures
        text@ == log_expr(
            match level {
                Some(ident) => Some(ident@),
                None => None,
            },
            template@,
            subject@,
        ),
{
    match level {
        Some(ident) => {
            let token = get_logger_token(ident);
            let literal = quote_string(template);
            write_log_statement(token.as_str(), literal.as_str(), subject)
        },
        None => String::from_str("()"),
    }
}

/// What an annotation's arguments come to: the expression that logs a
/// success, the expression that logs a failure, and the label of the call
/// site.
#[derive(Debug)]
pub struct FormattedAttributes {
    pub ok_expr: String,
    pub err_expr: String,
    pub ctx: String,
}

/// A value that may be absent, or else its default.
pub open spec fn or_default(value: Option<Seq<char>>, default: Seq<char>) -> Seq<char> {
    match value {
        Some(text) => text,
        None => default,
    }
}

impl FormattedAttributes {
    /// Whether these are the expressions and the label that an argument list
    /// comes to, with the given defaults for the message template and the
    /// label.
    pub open spec fn formats(
        &self,
        items: Seq<NestedMeta>,
        fmt_default: Seq<char>,
        ctx_default: Seq<char>,
    ) -> bool {
        let template = or_default(named_value(items, Key::Fmt), fmt_default);
        &&& self.ok_expr@ == log_expr(ok_level(items), template, "result"@)
        &&& self.err_expr@ == log_expr(err_level(items), template, "err"@)
        &&& self.ctx@ == or_default(named_value(items, Key::Ctx), ctx_default)
    }

    /// Reads an annotation's arguments and writes what they come to. An
    /// argument list that is not accepted is refused with all its faults:
    /// nothing is ever made up for a faulty list.
    pub fn parse_attributes(attr: &[NestedMeta], fmt_default: &str, ctx_default: &str) -> (parsed:
        Result<FormattedAttributes, Vec<Fault>>)
        ensures
            match parsed {
                Ok(formatted) => accepted(attr@) && formatted.formats(
                    attr@,
                    fmt_default@,
                    ctx_default@,
                ),
                Err(errors) => !accepted(attr@) && errors@ == faults(attr@),
            },
    {
        match Options::from_list(attr) {
            Ok(options) => Ok(Self::get_ok_err_streams(&options, fmt_default, ctx_default)),
            Err(errors) => Err(errors),
        }
    }

    /// Writes the two logging expressions and the label for given options.
    /// A success is logged with the value as `result`, a failure with the
    /// failure as `err`, both through the same template.
    pub fn get_ok_err_streams(att: &Options, fmt_default: &str, ctx_default: &str) -> (formatted:
        FormattedAttributes)
        ensures
            formatted.ok_expr@ == log_expr(
                att.spec_ok_log(),
                or_default(string_text(att.named.fmt), fmt_default@),
                "result"@,
            ),
            formatted.err_expr@ == log_expr(
                att.spec_err_log(),
                or_default(string_text(att.named.fmt), fmt_default@),
                "err"@,
            ),
            formatted.ctx@ == or_default(string_text(att.named.ctx), ctx_default@),
    {
        let ok_log = att.ok_log();
        let err_log = att.err_log();
        let fmt = match att.fmt() {
            Some(template) => template,
            None => fmt_default,
        };
        let ctx = match att.ctx() {
            Some(label) => String::from_str(label),
            None => String::from_str(ctx_default),
        };
        let ok_expr = write_log_expr(ok_log, fmt, "result");
        let err_expr = write_log_expr(err_log, fmt, "err");
        FormattedAttributes { ok_expr, err_expr, ctx }
    }
}

/// A call of a hook with the function's name and the label, both as string
/// literals.
pub open spec fn hook_call(hook: Seq<char>, name: Seq<char>, ctx: Seq<char>) -> Seq<char> {
    "::instrumented::"@ + hook + "("@ + name + ", "@ + ctx + ")"@
}

/// What every emitted body starts with: the call is counted, tracked as in
/// flight, and its timer started, in this order and before the wrapped body
/// runs.
pub open spec fn prologue(name: Seq<char>, ctx: Seq<char>) -> Seq<char> {
    hook_call("inc_called_counter_for"@, name, ctx) + "; "@ + hook_call(
        "inc_inflight_for"@,
        name,
        ctx,
    ) + "; let timer = "@ + hook_call("get_timer_for"@, name, ctx) + "; "@
}

/// The call that counts a failure under its `{:?}` text.
pub open spec fn error_call(name: Seq<char>, ctx: Seq<char>) -> Seq<char> {
    "::instrumented::inc_error_counter_for("@ + name + ", "@ + ctx
        + ", format!(\"{:?}\", err))"@
}

/// The emitted body of a function that can fail. The wrapped body runs as a
/// closure. A success is logged, leaves flight and is handed on as it is; a
/// failure is logged, counted, leaves flight and is handed on as it is.
pub open spec fn fallible_block(
    closure: Seq<char>,
    ok_expr: Seq<char>,
    err_expr: Seq<char>,
    name: Seq<char>,
    ctx: Seq<char>,
) -> Seq<char> {
    "{ "@ + prologue(name, ctx) + "("@ + closure + ")().map(|result| { "@ + ok_expr + "; "@
        + hook_call("dec_inflight_for"@, name, ctx) + "; result }).map_err(|err| { "@ + err_expr
        + "; "@ + error_call(name, ctx) + "; "@ + hook_call("dec_inflight_for"@, name, ctx)
        + "; err }) }"@
}

/// The emitted body of a function that cannot fail. The wrapped body runs
/// as a closure; its value is logged, leaves flight and is handed on.
pub open spec fn infallible_block(
    closure: Seq<char>,
    ok_expr: Seq<char>,
    name: Seq<char>,
    ctx: Seq<char>,
) -> Seq<char> {
    "{ "@ + prologue(name, ctx) + "let result = ("@ + closure + ")(); "@ + ok_expr + "; "@
        + hook_call("dec_inflight_for"@, name, ctx) + "; result }"@
}

/// The emitted body for a function, fallible or not.
pub open spec fn emitted_block(
    closure: Seq<char>,
    ok_expr: Seq<char>,
    err_expr: Seq<char>,
    result: bool,
    name: Seq<char>,
    ctx: Seq<char>,
) -> Seq<char> {
    if result {
        fallible_block(closure, ok_expr, err_expr, name, ctx)
    } else {
        infallible_block(closure, ok_expr, name, ctx)
    }
}

/// Writes a call of a hook.
fn write_hook_call(hook: &str, name: &str, ctx: &str) -> (text: String)
    ensures
        text@ == hook_call(hook@, name@, ctx@),
{
    let mut text = String::from_str("::instrumented::");
    text.append(hook);
    text.append("(");
    text.append(name);
    text.append(", ");
    text.append(ctx);
    text.append(")");
    text
}

/// Writes what every emitted body starts with.
fn write_prologue(name: &str, ctx: &str) -> (text: String)
    ensures
        text@ == prologue(name@, ctx@),
{
    let mut text = write_hook_call("inc_called_counter_for", name, ctx);
    text.append("; ");
    text.append(write_hook_call("inc_inflight_for", name, ctx).as_str());
    text.append("; let timer = ");
    text.append(write_hook_call("get_timer_for", name, ctx).as_str());
    text.append("; ");
    text
}

/// Writes the call that counts a failure.
fn write_error_call(name: &str, ctx: &str) -> (text: String)
    ensures
        text@ == error_call(name@, ctx@),
{
    let mut text = String::from_str("::instrumented::inc_error_counter_for(");
    text.append(name);
    text.append(", ");
    text.append(ctx);
    text.append(", format!(\"{:?}\", err))");
    text
}

/// Writes the emitted body of a function that can fail.
fn write_fallible_block(closure: &str, ok_expr: &str, err_expr: &str, name: &str, ctx: &str) -> (text:
    String)
    ensures
        text@ == fallible_block(closure@, ok_expr@, err_expr@, name@, ctx@),
{
    let leave = write_hook_call("dec_inflight_for", name, ctx);
    let mut text = String::from_str("{ ");
    text.append(write_prologue(name, ctx).as_str());
    text.append("(");
    text.append(closure);
    text.append(")().map(|result| { ");
    text.append(ok_expr);
    text.append("; ");
    text.append(leave.as_str());
    text.append("; result }).map_err(|err| { ");
    text.append(err_expr);
    text.append("; ");
    text.append(write_error_call(name, ctx).as_str());
    text.append("; ");
    text.append(leave.as_str());
    text.append("; err }) }");
    text
}

/// Writes the emitted body of a function that cannot fail.
fn write_infallible_block(closure: &str, ok_expr: &str, name: &str, ctx: &str) -> (text: String)
    ensures
        text@ == infallible_block(closure@, ok_expr@, name@, ctx@),
{
    let mut text = String::from_str("{ ");
    text.append(write_prologue(name, ctx).as_str());
    text.append("let result = (");
    text.append(closure);
    text.append(")(); ");
    text.append(ok_expr);
    text.append("; ");
    text.append(write_hook_call("dec_inflight_for", name, ctx).as_str());
    text.append("; result }");
    text
}

/// Makes the function that holds the emitted body: `fn temp()`, whose block
/// wraps the closure with the hooks and the logging expressions. `result`
/// says whether the wrapped function can fail. The function's name and the
/// label go into the body as string literals.
pub fn generate_function(
    closure: &ExprClosure,
    expressions: &FormattedAttributes,
    result: bool,
    function_name: String,
) -> (generated: ItemFn)
    ensures
        generated.header@ == "fn temp()"@,
        generated.ident@ == "temp"@,
        generated.output == ReturnType::Default,
        generated.block@ == emitted_block(
            closure_text(closure.capture, closure.body@),
            expressions.ok_expr@,
            expressions.err_expr@,
            result,
            string_literal(function_name@),
            string_literal(expressions.ctx@),
        ),
{
    let name = quote_string(function_name.as_str());
    let ctx = quote_string(expressions.ctx.as_str());
    let closure_source = closure.source();
    let block = if result {
        write_fallible_block(
            closure_source.as_str(),
            expressions.ok_expr.as_str(),
            expressions.err_expr.as_str(),
            name.as_str(),
            ctx.as_str(),
        )
    } else {
        write_infallible_block(
            closure_source.as_str(),
            expressions.ok_expr.as_str(),
            name.as_str(),
            ctx.as_str(),
        )
    };
    proof {
        reveal_strlit("temp");
    }
    match Ident::new("temp") {
        Some(ident) => ItemFn {
            header: String::from_str("fn temp()"),
            ident,
            output: ReturnType::Default,
            block,
        },
        None => unreached(),
    }
}

/// The message template of a function for which none is given: its name,
/// `() => ` and the value in its `{:?}` form.
pub open spec fn default_template(name: Seq<char>) -> Seq<char> {
    name + "() => {:?}"@
}

/// The body that the rewriting gives a function under an accepted argument
/// list. The template defaults to that of the function's name, the label
/// to `default`; the function counts as fallible exactly if it is declared
/// to return some form of `Result`.
pub open spec fn instrumented_block(attr: Seq<NestedMeta>, item: ItemFn) -> Seq<char> {
    let template = or_default(named_value(attr, Key::Fmt), default_template(item.ident@));
    emitted_block(
        closure_text(true, item.block@),
        log_expr(ok_level(attr), template, "result"@),
        log_expr(err_level(attr), template, "err"@),
        returns_result(item.output),
        string_literal(item.ident@),
        string_literal(or_default(named_value(attr, Key::Ctx), "default"@)),
    )
}

/// Writes the message template of a function for which none is given.
fn write_default_template(name: &str) -> (template: String)
    ensures
        template@ == default_template(name@),
{
    let mut template = String::from_str(name);
    template.append("() => {:?}");
    template
}

/// Wraps the body of a function for given logging expressions and label,
/// and leaves all else of the function as it is.
fn wrap(item: ItemFn, formatted: &FormattedAttributes) -> (wrapped: ItemFn)
    ensures
        wrapped.header == item.header,
        wrapped.ident == item.ident,
        wrapped.output == item.output,
        wrapped.block@ == emitted_block(
            closure_text(true, item.block@),
            formatted.ok_expr@,
            formatted.err_expr@,
            returns_result(item.output),
            string_literal(item.ident@),
            string_literal(formatted.ctx@),
        ),
{
    let closure = make_closure(&item);
    let is_result = check_if_return_result(&item);
    let function_name = String::from_str(item.ident.as_str());
    let mut new_fn = generate_function(&closure, formatted, is_result, function_name);
    replace_function_headers(item, &mut new_fn);
    new_fn
}

/// Rewrites an annotated function. Where the annotation's arguments are
/// accepted, the function comes back with its header, name and return type
/// untouched and its body wrapped; where they are not, no function comes
/// back, only the faults.
pub fn instrument(attr: &[NestedMeta], item: ItemFn) -> (rewritten: Result<ItemFn, Vec<Fault>>)
    ensures
        match rewritten {
            Ok(function) => accepted(attr@) && function.header == item.header && function.ident
                == item.ident && function.output == item.output && function.block@
                == instrumented_block(attr@, item),
            Err(errors) => !accepted(attr@) && errors@ == faults(attr@),
        },
{
    let fmt_default = write_default_template(item.ident.as_str());
    match FormattedAttributes::parse_attributes(attr, fmt_default.as_str(), "default") {
        Ok(formatted) => Ok(wrap(item, &formatted)),
        Err(errors) => Err(errors),
    }
}

} // verus!
