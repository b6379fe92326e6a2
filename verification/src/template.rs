//! Compiling a template once and rendering it against bound sheets.
//!
//! The template engine is the `tera` crate. A template is registered under
//! one fixed name, [`template_name`], which ends in `.html`: the engine
//! escapes interpolated values in templates whose name ends in one of its
//! escape suffixes, and leaves them alone in all others. A rendering with
//! escaping enabled is made with the engine's usual suffixes, `.html`,
//! `.htm` and `.xml`, so that the template is escaped as markup; one with
//! escaping disabled is made with no suffix at all, so that nothing is
//! escaped.

use vstd::prelude::*;
use crate::binder::{headers_key, rows_key, Bindings, RenderContext};
use crate::error::TablifyError;
use crate::format::ends_with;
use crate::table::{Row, Sheet};

verus! {

/// `tera::Tera`: the template engine, opaque but for the templates it holds
/// and its escape suffixes.
#[verifier::external_type_specification]
#[verifier::external_body]
pub struct ExTera(tera::Tera);

/// `tera::Context`: the engine's own bindings, opaque but for the names and
/// values bound.
#[verifier::external_type_specification]
#[verifier::external_body]
pub struct ExTeraContext(tera::Context);

/// `tera::Error`: why a template did not compile or render, opaque but for
/// what it and its source display as.
#[verifier::external_type_specification]
#[verifier::external_body]
pub struct ExTeraError(tera::Error);

/// Whether adding `source` under `name` to an engine that holds no template
/// yet can end so: with the source taken, for `None`, or with an error that
/// is shown as `refusal`. One source may be taken at one time and refused at
/// another: the parser gives up where the stack of the calling thread runs
/// short, or where a limit on its calls that the process has set is used up.
pub uninterp spec fn may_take(name: Seq<char>, source: Seq<char>, refusal: Option<Seq<char>>) -> bool;

/// What `error` displays as: its own line, without the reason behind it.
pub uninterp spec fn tera_cause(error: tera::Error) -> Seq<char>;

/// What the source of `error` displays as, where it has one: the reason
/// behind the error.
pub uninterp spec fn tera_reason(error: tera::Error) -> Option<Seq<char>>;

/// What stands between an error's own line and its reason.
pub open spec fn reason_mark() -> Seq<char> {
    seq![':', ' ']
}

/// How the library shows `error`: its own line, then its reason where it
/// has one.
pub open spec fn tera_shown(error: tera::Error) -> Seq<char> {
    match tera_reason(error) {
        Some(reason) => tera_cause(error) + reason_mark() + reason,
        None => tera_cause(error),
    }
}

/// The names of the templates that `engine` holds.
pub uninterp spec fn template_names(engine: tera::Tera) -> Set<Seq<char>>;

/// Whether the template that `engine` holds under `name` is what the engine
/// makes of `source`. The engine keeps the parsed template, not the text, so
/// this can hold of more than one source.
pub uninterp spec fn made_from(engine: tera::Tera, name: Seq<char>, source: Seq<char>) -> bool;

/// How a rendering can end.
pub enum Ending {
    /// The engine returns this text.
    Text(Seq<char>),
    /// The engine returns an error that is shown as this.
    Failed(Seq<char>),
    /// The engine returns nothing: it panics or never comes back.
    Aborted,
}

/// Whether rendering the template called `name` of `engine` against
/// `context` can end in `ending`. More than one ending may be possible: a
/// template can read the clock, the environment or a random number.
pub uninterp spec fn may_end(engine: tera::Tera, name: Seq<char>, context: tera::Context, ending: Ending) -> bool;

/// The name endings for which `engine` escapes interpolated values.
pub uninterp spec fn escape_suffixes_of(engine: tera::Tera) -> Seq<Seq<char>>;

/// The names bound in `context`.
pub uninterp spec fn context_names(context: tera::Context) -> Set<Seq<char>>;

/// The names bound in `context` to a list of strings, each with its list.
pub uninterp spec fn context_lists(context: tera::Context) -> Map<Seq<char>, Seq<Seq<char>>>;

/// The names bound in `context` to a list of lists of strings, each with its
/// table.
pub uninterp spec fn context_tables(context: tera::Context) -> Map<Seq<char>, Seq<Seq<Seq<char>>>>;

/// The names of a context that binds nothing.
pub open spec fn no_names() -> Set<Seq<char>> {
    Set::empty()
}

/// The lists of a context that binds nothing.
pub open spec fn no_lists() -> Map<Seq<char>, Seq<Seq<char>>> {
    Map::empty()
}

/// The tables of a context that binds nothing.
pub open spec fn no_tables() -> Map<Seq<char>, Seq<Seq<Seq<char>>>> {
    Map::empty()
}

/// The name under which the one template of a conversion is registered.
pub open spec fn template_name() -> Seq<char> {
    seq!['t', 'a', 'b', 'l', 'e', '.', 'h', 't', 'm', 'l']
}

/// The escape suffixes that the engine starts with: the name endings of
/// markup.
pub open spec fn default_escape_suffixes() -> Seq<Seq<char>> {
    seq![seq!['.', 'h', 't', 'm', 'l'], seq!['.', 'h', 't', 'm'], seq!['.', 'x', 'm', 'l']]
}

/// The escape suffixes with which a rendering is made: the engine's usual
/// ones with escaping enabled, none with escaping disabled.
pub open spec fn suffixes_for(autoescape: bool) -> Seq<Seq<char>> {
    if autoescape {
        default_escape_suffixes()
    } else {
        Seq::empty()
    }
}

/// Whether an engine with these escape suffixes escapes the values it
/// interpolates into the template called `name`.
pub open spec fn escapes(suffixes: Seq<Seq<char>>, name: Seq<char>) -> bool {
    exists|i: int| 0 <= i < suffixes.len() && ends_with(name, #[trigger] suffixes[i])
}

/// `tera::Tera::default`: an engine without templates.
#[verifier::external_body]
fn new_engine() -> (engine: tera::Tera)
    ensures
        template_names(engine) == no_names(),
{
    tera::Tera::default()
}

/// `tera::Tera::autoescape_on`: replaces the escape suffixes and leaves the
/// templates alone. It stores the list and does nothing else, so it does not
/// panic.
#[verifier::external_body]
fn set_escape_suffixes(engine: &mut tera::Tera, suffixes: Vec<&'static str>)
    ensures
        escape_suffixes_of(*final(engine)) == suffixes.deep_view(),
        template_names(*final(engine)) == template_names(*old(engine)),
        forall|name: Seq<char>, source: Seq<char>|
            made_from(*final(engine), name, source) == made_from(*old(engine), name, source),
    no_unwind
{
    engine.autoescape_on(suffixes)
}

/// `tera::Tera::add_raw_template` on an engine without templates. What
/// comes back is one of the ways in which adding can end. Where the source
/// is taken, the engine holds under that name what it made of the source.
#[verifier::external_body]
fn add_template(engine: &mut tera::Tera, name: &str, source: &str) -> (added: Result<(), tera::Error>)
    requires
        template_names(*old(engine)) == no_names(),
    ensures
        match added {
            Ok(_) => may_take(name@, source@, None),
            Err(error) => may_take(name@, source@, Some(tera_shown(error))),
        },
        added is Ok ==> template_names(*final(engine)) == template_names(*old(engine)).insert(name@),
        added is Ok ==> made_from(*final(engine), name@, source@),
{
    engine.add_raw_template(name, source)
}

/// `tera::Tera::render` of a template that the engine holds. The engine
/// panics on some templates that it compiled, such as one with a number too
/// large for a float, and sets no bound on the work a template asks for; the
/// call is made only where it cannot end so. What comes back is one of the
/// endings that are possible.
#[verifier::external_body]
fn render_template(engine: &tera::Tera, name: &str, context: &tera::Context) -> (rendered: Result<String, tera::Error>)
    requires
        template_names(*engine).contains(name@),
        !may_end(*engine, name@, *context, Ending::Aborted),
    ensures
        match rendered {
            Ok(text) => may_end(*engine, name@, *context, Ending::Text(text@)),
            Err(error) => may_end(*engine, name@, *context, Ending::Failed(tera_shown(error))),
        },
{
    engine.render(name, context)
}

/// `<tera::Error as std::fmt::Display>::fmt`, drawn into a string: the error
/// as it displays.
#[verifier::external_body]
fn tera_error_text(error: &tera::Error) -> (text: String)
    ensures
        text@ == tera_cause(*error),
{
    format!("{}", error)
}

/// `<tera::Error as std::error::Error>::source`, drawn into a string: the
/// source of the error as it displays, where the error has one.
#[verifier::external_body]
fn tera_error_reason(error: &tera::Error) -> (text: Option<String>)
    ensures
        match text {
            Some(reason) => tera_reason(*error) == Some(reason@),
            None => tera_reason(*error) is None,
        },
{
    std::error::Error::source(error).map(|reason| format!("{}", reason))
}

/// `tera::Context::new`: a context that binds nothing.
#[verifier::external_body]
fn empty_context() -> (context: tera::Context)
    ensures
        context_names(context) == no_names(),
        context_lists(context) == no_lists(),
        context_tables(context) == no_tables(),
{
    tera::Context::new()
}

/// `tera::Context::insert` of a list of strings: `key` is bound to the list,
/// whatever it was bound to before, and every other name keeps its binding.
#[verifier::external_body]
fn insert_list(context: &mut tera::Context, key: &str, list: &Row)
    ensures
        context_names(*final(context)) == context_names(*old(context)).insert(key@),
        context_lists(*final(context)) == context_lists(*old(context)).insert(key@, list.deep_view()),
        context_tables(*final(context)).remove(key@) == context_tables(*old(context)).remove(key@),
{
    context.insert(key, list)
}

/// `tera::Context::insert` of a list of lists of strings: `key` is bound to
/// the table, whatever it was bound to before, and every other name keeps
/// its binding.
#[verifier::external_body]
fn insert_table(context: &mut tera::Context, key: &str, table: &Sheet)
    ensures
        context_names(*final(context)) == context_names(*old(context)).insert(key@),
        context_tables(*final(context)) == context_tables(*old(context)).insert(key@, table.deep_view()),
        context_lists(*final(context)).remove(key@) == context_lists(*old(context)).remove(key@),
{
    context.insert(key, table)
}

/// The name of the one template, as the engine is given it.
fn template_file() -> (name: &'static str)
    ensures
        name@ == template_name(),
{
    proof {
        reveal_strlit("table.html");
        assert("table.html"@ =~= template_name());
    }
    "table.html"
}

/// The name of the body rows, as the engine is given it.
fn rows_name() -> (name: &'static str)
    ensures
        name@ == rows_key(),
{
    proof {
        reveal_strlit("rows");
        assert("rows"@ =~= rows_key());
    }
    "rows"
}

/// The name of the header row, as the engine is given it.
fn headers_name() -> (name: &'static str)
    ensures
        name@ == headers_key(),
{
    proof {
        reveal_strlit("headers");
        assert("headers"@ =~= headers_key());
    }
    "headers"
}

/// `context` binds what `bindings` says and nothing else: `rows` as a table
/// and, in header mode, `headers` as a list.
pub open spec fn holds(context: tera::Context, bindings: Bindings) -> bool {
    &&& context_names(context) == bindings.names()
    &&& context_tables(context).contains_key(rows_key())
    &&& context_tables(context)[rows_key()] == bindings.rows
    &&& bindings.headers matches Some(h) ==> context_lists(context).contains_key(headers_key())
        && context_lists(context)[headers_key()] == h
}

/// Whether rendering a template compiled from `source` against a context
/// that holds `bindings`, with escaping as `autoescape` says, can end in
/// `ending`.
pub open spec fn renders(source: Seq<char>, autoescape: bool, bindings: Bindings, ending: Ending) -> bool {
    exists|engine: tera::Tera, context: tera::Context|
        {
            &&& template_names(engine) == set![template_name()]
            &&& made_from(engine, template_name(), source)
            &&& escape_suffixes_of(engine) == suffixes_for(autoescape)
            &&& holds(context, bindings)
            &&& #[trigger] may_end(engine, template_name(), context, ending)
        }
}

/// The one template of a conversion is escaped exactly where escaping is
/// enabled: its name ends in one of the engine's usual suffixes, and with
/// escaping disabled there is no suffix for it to end in.
pub proof fn lemma_escaping_follows_flag(autoescape: bool)
    ensures
        escapes(suffixes_for(autoescape), template_name()) == autoescape,
{
    assert(template_name().subrange(5, 10) =~= default_escape_suffixes()[0]);
    assert(ends_with(template_name(), default_escape_suffixes()[0]));
}

/// A template compiled once, ready to render any number of sheets.
pub struct CompiledTemplate {
    engine: tera::Tera,
    source: String,
}

impl CompiledTemplate {
    /// The engine took the source as its one template.
    #[verifier::type_invariant]
    spec fn holds_one_template(&self) -> bool {
        &&& template_names(self.engine) == set![template_name()]
        &&& may_take(template_name(), self.source@, None)
        &&& made_from(self.engine, template_name(), self.source@)
    }

    /// The source the template was compiled from.
    pub closed spec fn source(&self) -> Seq<char> {
        self.source@
    }
}

/// The text that the library shows for an error of the engine: the error
/// as it displays, then a colon, a blank and its reason where it has one.
pub fn error_message(error: &tera::Error) -> (text: String)
    ensures
        text@ == tera_shown(*error),
{
    let mut text = tera_error_text(error);
    match tera_error_reason(error) {
        Some(reason) => {
            proof {
                reveal_strlit(": ");
                assert(": "@ =~= reason_mark());
            }
            text.append(": ");
            text.append(reason.as_str());
        },
        None => {},
    }
    text
}

/// What a conversion makes of the engine's refusal of a template:
/// `TemplateSyntax` with the error as the library shows it.
pub fn syntax_failure(error: tera::Error) -> (failure: TablifyError)
    ensures
        failure matches TablifyError::TemplateSyntax(cause) && cause@ == tera_shown(error),
{
    TablifyError::TemplateSyntax(error_message(&error))
}

/// Compiles `source` into a template.
///
/// The engine decides whether it takes the source. Where it does not, the
/// failure is `TemplateSyntax` with the engine's error and its reason. The
/// compiled template is of this source.
pub fn compile(source: &str) -> (compiled: Result<CompiledTemplate, TablifyError>)
    ensures
        match compiled {
            Ok(template) => may_take(template_name(), source@, None) && template.source() == source@,
            Err(failure) => failure matches TablifyError::TemplateSyntax(cause) && may_take(
                template_name(),
                source@,
                Some(cause@),
            ),
        },
{
    let mut engine = new_engine();
    match add_template(&mut engine, template_file(), source) {
        Ok(()) => {
            assert(template_names(engine) =~= set![template_name()]);
            Ok(CompiledTemplate { engine, source: source.to_owned() })
        },
        Err(e) => Err(syntax_failure(e)),
    }
}

/// The escape suffixes for a rendering, as the engine is given them.
fn escape_suffixes(autoescape: bool) -> (suffixes: Vec<&'static str>)
    ensures
        suffixes.deep_view() == suffixes_for(autoescape),
{
    let mut suffixes: Vec<&'static str> = Vec::new();
    if autoescape {
        proof {
            reveal_strlit(".html");
            reveal_strlit(".htm");
            reveal_strlit(".xml");
        }
        suffixes.push(".html");
        suffixes.push(".htm");
        suffixes.push(".xml");
        assert(suffixes.deep_view()[0] =~= default_escape_suffixes()[0]);
        assert(suffixes.deep_view()[1] =~= default_escape_suffixes()[1]);
        assert(suffixes.deep_view()[2] =~= default_escape_suffixes()[2]);
    }
    assert(suffixes.deep_view() =~= suffixes_for(autoescape));
    suffixes
}

/// Hands the bindings of one sheet to the engine's own context type: `rows`
/// as a table and, in header mode, `headers` as a list. Nothing else is
/// bound.
pub fn engine_context(bindings: &RenderContext) -> (context: tera::Context)
    ensures
        holds(context, bindings@),
{
    assert(rows_key() != headers_key()) by {
        assert(rows_key().len() != headers_key().len());
    }
    let mut context = empty_context();
    match &bindings.headers {
        Some(h) => {
            insert_list(&mut context, headers_name(), h);
            let ghost lists = context_lists(context);
            insert_table(&mut context, rows_name(), &bindings.rows);
            assert(context_lists(context).remove(rows_key())[headers_key()] == lists.remove(rows_key())[headers_key()]);
            assert(context_lists(context).remove(rows_key()).contains_key(headers_key()));
            assert(context_names(context) =~= bindings@.names());
        },
        None => {
            insert_table(&mut context, rows_name(), &bindings.rows);
            assert(context_names(context) =~= bindings@.names());
        },
    }
    context
}

/// Renders one bound sheet with a compiled template, escaping interpolated
/// values if and only if `autoescape` is set.
///
/// The engine decides how the rendering ends. Its text comes back as it is,
/// its error as `TemplateRuntime` with the error and its reason. The call
/// is for bindings on which the engine comes back at all.
pub fn render(template: &mut CompiledTemplate, bindings: &RenderContext, autoescape: bool) -> (rendered: Result<
    String,
    TablifyError,
>)
    requires
        !renders(old(template).source(), autoescape, bindings@, Ending::Aborted),
    ensures
        final(template).source() == old(template).source(),
        match rendered {
            Ok(text) => renders(old(template).source(), autoescape, bindings@, Ending::Text(text@)),
            Err(failure) => failure matches TablifyError::TemplateRuntime(cause) && renders(
                old(template).source(),
                autoescape,
                bindings@,
                Ending::Failed(cause@),
            ),
        },
{
    proof {
        use_type_invariant(&*template);
    }
    set_escape_suffixes(&mut template.engine, escape_suffixes(autoescape));
    let context = engine_context(bindings);
    rendering_outcome(render_template(&template.engine, template_file(), &context))
}

/// What a conversion makes of the engine's answer for one sheet: the text as
/// it came, or `TemplateRuntime` with the engine's error as the library
/// shows it.
pub fn rendering_outcome(outcome: Result<String, tera::Error>) -> (rendered: Result<String, TablifyError>)
    ensures
        match outcome {
            Ok(text) => rendered matches Ok(given) && given == text,
            Err(error) => rendered matches Err(TablifyError::TemplateRuntime(cause)) && cause@ == tera_shown(
                error,
            ),
        },
{
    match outcome {
        Ok(text) => Ok(text),
        Err(e) => Err(TablifyError::TemplateRuntime(error_message(&e))),
    }
}

} // verus!
