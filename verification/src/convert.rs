//! The whole conversion: from a template, raw bytes and a source name to the
//! rendered text.

use vstd::prelude::*;
use crate::binder::{bind, bound};
use crate::delimited::{csv_sheet, load_csv, max_text_bytes, too_long};
use crate::error::TablifyError;
use crate::format::{detect_format, format_of, Format};
use crate::spreadsheet::{load_xlsx, reads_whole_from, xlsx_workbook};
use crate::table::Workbook;
use crate::template::{
    compile, may_take, render, renders, template_name, Ending,
};

verus! {

/// `parts` with a single newline between neighbours: nothing before the
/// first part, nothing after the last.
pub open spec fn joined(parts: Seq<Seq<char>>) -> Seq<char>
    decreases parts.len(),
{
    if parts.len() == 0 {
        Seq::empty()
    } else if parts.len() == 1 {
        parts[0]
    } else {
        joined(parts.drop_last()) + seq!['\n'] + parts.last()
    }
}

/// Joins rendered sheets by single newlines.
pub fn join_outputs(parts: &Vec<String>) -> (text: String)
    ensures
        text@ == joined(parts.deep_view()),
{
    let mut text = String::new();
    let mut i: usize = 0;
    while i < parts.len()
        invariant
            i <= parts.len(),
            text@ == joined(parts.deep_view().take(i as int)),
        decreases parts.len() - i,
    {
        let ghost done = parts.deep_view().take(i as int);
        let ghost next = parts.deep_view().take(i + 1);
        proof {
            reveal_strlit("\n");
            assert("\n"@ =~= seq!['\n']);
            assert(next.drop_last() =~= done);
            assert(next.last() == parts[i as int]@);
        }
        if i > 0 {
            text.append("\n");
        }
        text.append(parts[i].as_str());
        proof {
            if i == 0 {
                assert(text@ =~= next[0]);
            }
        }
        i = i + 1;
    }
    assert(parts.deep_view().take(i as int) =~= parts.deep_view());
    text
}

/// What loading `bytes` as `format` yields: for delimited text a workbook of
/// exactly one sheet, for a spreadsheet one sheet per worksheet, or the
/// cause for which the format's reader rejects the bytes.
pub open spec fn loaded(format: Format, bytes: Seq<u8>) -> Result<Seq<Seq<Seq<Seq<char>>>>, Seq<char>> {
    match format {
        Format::Csv => match csv_sheet(bytes) {
            Ok(rows) => Ok(seq![rows]),
            Err(cause) => Err(cause),
        },
        Format::Xlsx => xlsx_workbook(bytes),
    }
}

/// Delimited text that loads is a workbook of exactly one sheet.
pub proof fn lemma_delimited_text_is_one_sheet(bytes: Seq<u8>)
    requires
        loaded(Format::Csv, bytes) is Ok,
    ensures
        loaded(Format::Csv, bytes)->Ok_0.len() == 1,
        csv_sheet(bytes) matches Ok(rows) && rows == loaded(Format::Csv, bytes)->Ok_0[0],
{
}

/// Delimited text of this length is too long for the decoder.
pub open spec fn too_long_for(format: Format, bytes: Seq<u8>) -> bool {
    format == Format::Csv && bytes.len() > max_text_bytes()
}

/// What loading `bytes` under `format` comes to: `Decode` for delimited text
/// too long for the decoder, else the workbook that the bytes hold, else
/// `Parse` with the cause for which the reader rejects them.
pub open spec fn load_of(format: Format, bytes: Seq<u8>, workbook: Result<Workbook, TablifyError>) -> bool {
    if too_long_for(format, bytes) {
        workbook matches Err(TablifyError::Decode(cause)) && cause@ == too_long()
    } else {
        match loaded(format, bytes) {
            Ok(sheets) => workbook matches Ok(held) && held.deep_view() == sheets,
            Err(rejection) => workbook matches Err(TablifyError::Parse(cause)) && cause@ == rejection,
        }
    }
}

/// The precondition of loading `bytes` under `format`: a spreadsheet is one
/// from which `calamine` comes back.
pub open spec fn loads_whole(format: Format, bytes: Seq<u8>) -> bool {
    format == Format::Xlsx ==> reads_whole_from(bytes)
}

/// Loads raw bytes of a given format into a workbook.
///
/// Delimited text too long for the decoder fails with `Decode`. Any other
/// input fails exactly where the format's reader rejects it, with `Parse`
/// and the reader's cause.
pub fn load(raw_content: &Vec<u8>, format: Format) -> (workbook: Result<Workbook, TablifyError>)
    requires
        loads_whole(format, raw_content@),
    ensures
        load_of(format, raw_content@, workbook),
        workbook matches Ok(sheets) ==> (format == Format::Csv ==> sheets.len() == 1),
{
    match format {
        Format::Csv => match load_csv(raw_content) {
            Ok(rows) => {
                let mut sheets: Workbook = Vec::new();
                sheets.push(rows);
                assert(sheets.deep_view() =~= seq![rows.deep_view()]);
                Ok(sheets)
            },
            Err(e) => Err(e),
        },
        Format::Xlsx => load_xlsx(raw_content),
    }
}

/// The engine comes back from every sheet: rendering a template compiled
/// from `source` cannot end without an answer on the bindings of a sheet.
pub open spec fn answers_each(
    source: Seq<char>,
    autoescape: bool,
    sheets: Seq<Seq<Seq<Seq<char>>>>,
    has_headers: bool,
) -> bool {
    forall|i: int|
        0 <= i < sheets.len() ==> !renders(
            source,
            autoescape,
            bound(#[trigger] sheets[i], has_headers),
            Ending::Aborted,
        )
}

/// `outputs` holds one text per sheet, in order, and each text is one that
/// rendering a template compiled from `source` against the bindings of its
/// sheet can return.
pub open spec fn rendered_each(
    source: Seq<char>,
    autoescape: bool,
    sheets: Seq<Seq<Seq<Seq<char>>>>,
    has_headers: bool,
    outputs: Seq<Seq<char>>,
) -> bool {
    &&& outputs.len() == sheets.len()
    &&& forall|i: int| 0 <= i < sheets.len() ==> renders(
        source,
        autoescape,
        bound(#[trigger] sheets[i], has_headers),
        Ending::Text(outputs[i]),
    )
}

/// The sheets before the one at `k` rendered, and rendering the one at `k`
/// can fail with an error that displays as `cause`.
pub open spec fn failed_at(
    source: Seq<char>,
    autoescape: bool,
    sheets: Seq<Seq<Seq<Seq<char>>>>,
    has_headers: bool,
    k: int,
    cause: Seq<char>,
) -> bool {
    &&& 0 <= k < sheets.len()
    &&& exists|outputs: Seq<Seq<char>>| rendered_each(source, autoescape, sheets.take(k), has_headers, outputs)
    &&& renders(source, autoescape, bound(sheets[k], has_headers), Ending::Failed(cause))
}

/// What rendering `sheets` with a template compiled from `source` may give:
/// the outputs of all sheets joined, or `TemplateRuntime` with the error of
/// the first sheet that fails to render.
pub open spec fn rendering_of(
    source: Seq<char>,
    autoescape: bool,
    sheets: Seq<Seq<Seq<Seq<char>>>>,
    has_headers: bool,
    rendered: Result<String, TablifyError>,
) -> bool {
    match rendered {
        Ok(text) => exists|outputs: Seq<Seq<char>>| #[trigger]
            rendered_each(source, autoescape, sheets, has_headers, outputs) && text@ == joined(outputs),
        Err(failure) => failure matches TablifyError::TemplateRuntime(cause) && exists|k: int| #[trigger]
            failed_at(source, autoescape, sheets, has_headers, k, cause@),
    }
}

/// What rendering `sheets` with `source` may come to: `TemplateSyntax` with
/// the error for which the engine can refuse the source, or, the source
/// taken, what the renderings of the sheets give.
pub open spec fn table_of(
    source: Seq<char>,
    autoescape: bool,
    sheets: Seq<Seq<Seq<Seq<char>>>>,
    has_headers: bool,
    rendered: Result<String, TablifyError>,
) -> bool {
    ||| rendered matches Err(TablifyError::TemplateSyntax(cause)) && may_take(
        template_name(),
        source,
        Some(cause@),
    )
    ||| may_take(template_name(), source, None) && rendering_of(
        source,
        autoescape,
        sheets,
        has_headers,
        rendered,
    )
}

/// Renders every sheet of a workbook with one template and joins the
/// outputs by single newlines.
///
/// The template is compiled once, before any sheet is rendered, and each
/// sheet is bound as `has_headers` says before it is rendered. The engine
/// decides whether it takes the template and how each rendering ends. The
/// first sheet that fails to render fails the whole call, and nothing of
/// the sheets before it comes back. The call is for templates and sheets on
/// which the engine comes back at all.
pub fn render_table(
    template_content: &str,
    workbook: Workbook,
    has_headers: bool,
    autoescape: bool,
) -> (rendered: Result<String, TablifyError>)
    requires
        answers_each(template_content@, autoescape, workbook.deep_view(), has_headers),
    ensures
        table_of(template_content@, autoescape, workbook.deep_view(), has_headers, rendered),
        workbook.len() == 0 ==> match rendered {
            Ok(text) => text@ == Seq::<char>::empty(),
            Err(failure) => failure is TemplateSyntax,
        },
{
    let mut template = match compile(template_content) {
        Ok(template) => template,
        Err(e) => {
            return Err(e);
        },
    };
    let ghost sheets = workbook.deep_view();
    let mut outputs: Vec<String> = Vec::new();
    for sheet in it: workbook
        invariant
            may_take(template_name(), template_content@, None),
            sheets == workbook.deep_view(),
            it.seq() == workbook@,
            template.source() == template_content@,
            answers_each(template_content@, autoescape, sheets, has_headers),
            outputs.len() == it.index(),
            rendered_each(
                template_content@,
                autoescape,
                sheets.take(it.index() as int),
                has_headers,
                outputs.deep_view(),
            ),
    {
        let ghost k = outputs.len() as int;
        assert(sheet.deep_view() == sheets[k]);
        let bindings = bind(sheet, has_headers);
        match render(&mut template, &bindings, autoescape) {
            Ok(text) => {
                let ghost before = outputs.deep_view();
                outputs.push(text);
                proof {
                    let after = outputs.deep_view();
                    assert forall|i: int| 0 <= i < k + 1 implies renders(
                        template_content@,
                        autoescape,
                        bound(#[trigger] sheets.take(k + 1)[i], has_headers),
                        Ending::Text(after[i]),
                    ) by {
                        if i < k {
                            assert(sheets.take(k)[i] == sheets.take(k + 1)[i]);
                            assert(after[i] == before[i]);
                        }
                    }
                }
            },
            Err(e) => {
                proof {
                    assert(failed_at(
                        template_content@,
                        autoescape,
                        sheets,
                        has_headers,
                        k,
                        e->TemplateRuntime_0@,
                    ));
                }
                return Err(e);
            },
        }
    }
    let text = join_outputs(&outputs);
    proof {
        assert(sheets.take(sheets.len() as int) =~= sheets);
    }
    Ok(text)
}

/// The cause given for a source name that selects no format.
pub open spec fn unknown_extension() -> Seq<char> {
    "Invalid file extension"@
}

/// What a conversion comes to, case by case: an unknown extension, input
/// too long to decode, input that its reader rejects, and else what
/// rendering the loaded sheets comes to.
pub open spec fn conversion_of(
    template: Seq<char>,
    bytes: Seq<u8>,
    filename: Seq<char>,
    has_headers: bool,
    autoescape: bool,
    converted: Result<String, TablifyError>,
) -> bool {
    match format_of(filename) {
        None => converted matches Err(TablifyError::Format(cause)) && cause@ == unknown_extension(),
        Some(format) => if too_long_for(format, bytes) {
            converted matches Err(TablifyError::Decode(cause)) && cause@ == too_long()
        } else {
            match loaded(format, bytes) {
                Err(rejection) => converted matches Err(TablifyError::Parse(cause)) && cause@ == rejection,
                Ok(sheets) => table_of(template, autoescape, sheets, has_headers, converted),
            }
        },
    }
}

/// The precondition of a conversion: the outside crates come back from what
/// they are given. A spreadsheet is one from which `calamine` comes back,
/// and the template is one from which the engine comes back on every sheet
/// that loads.
pub open spec fn converts_whole(
    template: Seq<char>,
    bytes: Seq<u8>,
    filename: Seq<char>,
    has_headers: bool,
    autoescape: bool,
) -> bool {
    format_of(filename) matches Some(format) ==> {
        &&& loads_whole(format, bytes)
        &&& loaded(format, bytes) matches Ok(sheets) ==> answers_each(
            template,
            autoescape,
            sheets,
            has_headers,
        )
    }
}

/// Converts tabular input to text.
///
/// The end of `filename` selects the format; a name that ends in neither
/// `.csv` nor `.xlsx` fails with `Format` before a byte of `raw_content` is
/// looked at. The input is then loaded whole, the template compiled once,
/// and every sheet bound and rendered in workbook order. Failures come back
/// as they arise: a load failure before a template failure, and no output
/// at all where any sheet fails to render.
pub fn tablify(
    template: &str,
    raw_content: &Vec<u8>,
    filename: &str,
    has_headers: bool,
    autoescape: bool,
) -> (converted: Result<String, TablifyError>)
    requires
        converts_whole(template@, raw_content@, filename@, has_headers, autoescape),
    ensures
        conversion_of(template@, raw_content@, filename@, has_headers, autoescape, converted),
{
    let format = match detect_format(filename) {
        Some(format) => format,
        None => {
            return Err(TablifyError::Format("Invalid file extension".to_owned()));
        },
    };
    let workbook = match load(raw_content, format) {
        Ok(workbook) => workbook,
        Err(e) => {
            return Err(e);
        },
    };
    render_table(template, workbook, has_headers, autoescape)
}

/// One part joins to itself.
pub proof fn lemma_joined_one(only: Seq<char>)
    ensures
        joined(seq![only]) == only,
{
}

/// Two parts join with exactly one newline between them.
pub proof fn lemma_joined_two(first: Seq<char>, second: Seq<char>)
    ensures
        joined(seq![first, second]) == first + seq!['\n'] + second,
{
    let parts = seq![first, second];
    assert(parts.drop_last() =~= seq![first]);
    assert(joined(parts.drop_last()) == first);
}

/// Joining adds one newline per part after the first and nothing else: the
/// length of the whole is the lengths of the parts plus the separators.
pub proof fn lemma_joined_len(parts: Seq<Seq<char>>)
    ensures
        joined(parts).len() == total_len(parts) + if parts.len() == 0 {
            0
        } else {
            parts.len() - 1
        },
    decreases parts.len(),
{
    if parts.len() > 1 {
        lemma_joined_len(parts.drop_last());
    } else if parts.len() == 1 {
        assert(total_len(parts.drop_last()) == 0);
    }
}

/// The lengths of `parts`, summed.
pub open spec fn total_len(parts: Seq<Seq<char>>) -> nat
    decreases parts.len(),
{
    if parts.len() == 0 {
        0
    } else {
        total_len(parts.drop_last()) + parts.last().len()
    }
}

} // verus!
