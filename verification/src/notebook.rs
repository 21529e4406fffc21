use vstd::prelude::*;

verus! {

use crate::strutil::{spec_dec, spec_upper, u64_to_string, ascii_upper, push_char, ends_with_newline};
use vstd::string::StringExecFns;

#[verifier::external_type_specification]
#[verifier::external_body]
pub struct ExJsonValue(serde_json::Value);

/// The shape of a parsed notebook document, as far as cell extraction reads
/// it: strings, arrays and objects; everything else (numbers, booleans,
/// null) is opaque to the extraction and collapses to `Other`.
pub enum Json {
    Str(Seq<char>),
    Arr(Seq<Json>),
    Obj(Map<Seq<char>, Json>),
    Other,
}

/// The document a `serde_json::Value` holds, in the shape above.
pub uninterp spec fn json_view(v: serde_json::Value) -> Json;

/// Whether `serde_json::from_str` accepts the text; a function of the text
/// alone.
pub uninterp spec fn json_parses(s: Seq<char>) -> bool;

/// The document that a parseable text denotes.
pub uninterp spec fn json_parsed(s: Seq<char>) -> Json;

/// Relies on `serde_json::from_str`: parsing succeeds or fails on the text
/// alone and, on success, yields the document the text denotes.
#[verifier::external_body]
fn json_parse(s: &str) -> (r: Result<serde_json::Value, String>)
    ensures
        r is Ok <==> json_parses(s@),
        r is Ok ==> json_view(r->Ok_0) == json_parsed(s@),
{
    serde_json::from_str::<serde_json::Value>(s).map_err(|e| e.to_string())
}

/// Relies on `serde_json::Value::get`: `Some` exactly on an object that has
/// the key, returning the value held under it.
#[verifier::external_body]
fn json_get<'a>(v: &'a serde_json::Value, key: &str) -> (r: Option<&'a serde_json::Value>)
    ensures
        r is Some <==> (json_view(*v) is Obj && json_view(*v)->Obj_0.dom().contains(key@)),
        r is Some ==> json_view(*r->0) == json_view(*v)->Obj_0[key@],
{
    v.get(key)
}

/// Relies on `serde_json::Value::as_array`: `Some` exactly on an array,
/// returning its elements in order.
#[verifier::external_body]
fn json_as_array<'a>(v: &'a serde_json::Value) -> (r: Option<&'a Vec<serde_json::Value>>)
    ensures
        r is Some <==> json_view(*v) is Arr,
        r is Some ==> r->0@.len() == json_view(*v)->Arr_0.len() && (forall|i: int|
            0 <= i < r->0@.len() ==> #[trigger] json_view(r->0@[i]) == json_view(*v)->Arr_0[i]),
{
    v.as_array()
}

/// Relies on `serde_json::Value::as_str`: `Some` exactly on a string,
/// returning its text.
#[verifier::external_body]
fn json_as_str<'a>(v: &'a serde_json::Value) -> (r: Option<&'a str>)
    ensures
        r is Some <==> json_view(*v) is Str,
        r is Some ==> r->0@ == json_view(*v)->Str_0,
{
    v.as_str()
}

/// The text a source or output line contributes: its string content, or
/// nothing for a non-string element.
pub open spec fn spec_line_text(j: Json) -> Seq<char> {
    if j is Str {
        j->Str_0
    } else {
        Seq::empty()
    }
}

/// The concatenation of the first `k` line texts.
pub open spec fn spec_lines_upto(lines: Seq<Json>, k: int) -> Seq<char>
    decreases k,
{
    if k <= 0 || lines.len() < k {
        Seq::empty()
    } else {
        spec_lines_upto(lines, k - 1) + spec_line_text(lines[k - 1])
    }
}

pub open spec fn spec_lines(lines: Seq<Json>) -> Seq<char> {
    spec_lines_upto(lines, lines.len() as int)
}

/// Guarantees a newline at the end of a non-empty block; an empty block
/// stays empty.
pub open spec fn spec_nl_terminated(s: Seq<char>) -> Seq<char> {
    if s.len() > 0 && s.last() != '\n' {
        s.push('\n')
    } else {
        s
    }
}

/// The declared type of a cell; `unknown` when it is missing or not a
/// string.
pub open spec fn spec_cell_type(cell: Json) -> Seq<char> {
    if cell is Obj && cell->Obj_0.dom().contains("cell_type"@) && cell->Obj_0["cell_type"@]
        is Str {
        cell->Obj_0["cell_type"@]->Str_0
    } else {
        "unknown"@
    }
}

/// The source lines of a cell, when it has a `source` array.
pub open spec fn spec_cell_source(cell: Json) -> Option<Seq<Json>> {
    if cell is Obj && cell->Obj_0.dom().contains("source"@) && cell->Obj_0["source"@] is Arr {
        Some(cell->Obj_0["source"@]->Arr_0)
    } else {
        None
    }
}

/// The outputs of a cell, when it has an `outputs` array.
pub open spec fn spec_cell_outputs(cell: Json) -> Option<Seq<Json>> {
    if cell is Obj && cell->Obj_0.dom().contains("outputs"@) && cell->Obj_0["outputs"@] is Arr {
        Some(cell->Obj_0["outputs"@]->Arr_0)
    } else {
        None
    }
}

/// The text one captured output contributes: the concatenation of its
/// `text` stream lines; failing that, of the `text/plain` lines of its
/// `data`; nothing otherwise.
pub open spec fn spec_output_text(out: Json) -> Seq<char> {
    if out is Obj && out->Obj_0.dom().contains("text"@) && out->Obj_0["text"@] is Arr {
        spec_lines(out->Obj_0["text"@]->Arr_0)
    } else if out is Obj && out->Obj_0.dom().contains("data"@) && out->Obj_0["data"@] is Obj
        && out->Obj_0["data"@]->Obj_0.dom().contains("text/plain"@)
        && out->Obj_0["data"@]->Obj_0["text/plain"@] is Arr {
        spec_lines(out->Obj_0["data"@]->Obj_0["text/plain"@]->Arr_0)
    } else {
        Seq::empty()
    }
}

/// The concatenation of the first `k` output texts.
pub open spec fn spec_outs_upto(outs: Seq<Json>, k: int) -> Seq<char>
    decreases k,
{
    if k <= 0 || outs.len() < k {
        Seq::empty()
    } else {
        spec_outs_upto(outs, k - 1) + spec_output_text(outs[k - 1])
    }
}

/// The output section of a cell: present only when outputs are requested
/// and the cell has a non-empty `outputs` array.
pub open spec fn spec_outputs_part(cell: Json, show: bool) -> Seq<char> {
    if show && spec_cell_outputs(cell) is Some && spec_cell_outputs(cell)->0.len() > 0 {
        "\nCell Outputs:\n"@ + spec_nl_terminated(
            spec_outs_upto(spec_cell_outputs(cell)->0, spec_cell_outputs(cell)->0.len() as int),
        )
    } else {
        Seq::empty()
    }
}

/// The source section of a cell: its concatenated source lines, newline
/// terminated; nothing when the cell has no `source` array.
pub open spec fn spec_source_part(cell: Json) -> Seq<char> {
    match spec_cell_source(cell) {
        Some(lines) => spec_nl_terminated(spec_lines(lines)),
        None => Seq::empty(),
    }
}

/// One rendered cell block: begin marker with the one-based index and the
/// upper-cased cell type, the source section, the optional output section,
/// and the mirroring end marker.
pub open spec fn spec_render_cell(idx: int, cell: Json, show: bool) -> Seq<char> {
    "-------------------\n"@ + "Begin Cell "@ + spec_dec(idx + 1) + " - "@ + spec_upper(
        spec_cell_type(cell),
    ) + "\n"@ + spec_source_part(cell) + spec_outputs_part(cell, show) + "End Cell "@ + spec_dec(
        idx + 1,
    ) + " - "@ + spec_upper(spec_cell_type(cell)) + "\n"@ + "-------------------\n\n"@
}

/// The rendering of the first `k` cells, in document order.
pub open spec fn spec_cells_upto(cells: Seq<Json>, k: int, show: bool) -> Seq<char>
    decreases k,
{
    if k <= 0 || cells.len() < k {
        Seq::empty()
    } else {
        spec_cells_upto(cells, k - 1, show) + spec_render_cell(k - 1, cells[k - 1], show)
    }
}

/// The whole rendered notebook: the rendering of its `cells` array, or the
/// empty document when the parsed text has no array under `cells` — a
/// malformed `cells` is empty, not an error.
pub open spec fn spec_notebook(doc: Json, show: bool) -> Seq<char> {
    if doc is Obj && doc->Obj_0.dom().contains("cells"@) && doc->Obj_0["cells"@] is Arr {
        spec_cells_upto(
            doc->Obj_0["cells"@]->Arr_0,
            doc->Obj_0["cells"@]->Arr_0.len() as int,
            show,
        )
    } else {
        Seq::empty()
    }
}

fn lines_concat(lines: &Vec<serde_json::Value>, Ghost(gl): Ghost<Seq<Json>>) -> (r: String)
    requires
        gl.len() == lines@.len(),
        forall|i: int| 0 <= i < gl.len() ==> #[trigger] json_view(lines@[i]) == gl[i],
    ensures
        r@ == spec_lines(gl),
{
    let mut out = String::new();
    let mut i: usize = 0;
    while i < lines.len()
        invariant
            gl.len() == lines@.len(),
            forall|j: int| 0 <= j < gl.len() ==> #[trigger] json_view(lines@[j]) == gl[j],
            i <= lines@.len(),
            out@ == spec_lines_upto(gl, i as int),
        decreases lines@.len() - i,
    {
        match json_as_str(&lines[i]) {
            Some(s) => {
                out.append(s);
            },
            None => {},
        }
        proof {
            assert(out@ =~= spec_lines_upto(gl, i + 1 as int));
        }
        i = i + 1;
    }
    out
}

fn output_text(out: &serde_json::Value) -> (r: String)
    ensures
        r@ == spec_output_text(json_view(*out)),
{
    match json_get(out, "text") {
        Some(t) => {
            match json_as_array(t) {
                Some(arr) => {
                    return lines_concat(arr, Ghost(json_view(*t)->Arr_0));
                },
                None => {},
            }
        },
        None => {},
    }
    match json_get(out, "data") {
        Some(d) => {
            match json_get(d, "text/plain") {
                Some(tp) => {
                    match json_as_array(tp) {
                        Some(arr) => {
                            return lines_concat(arr, Ghost(json_view(*tp)->Arr_0));
                        },
                        None => {},
                    }
                },
                None => {},
            }
        },
        None => {},
    }
    String::new()
}

fn render_cell(cell: &serde_json::Value, idx: usize, show: bool) -> (r: String)
    requires
        idx < usize::MAX,
    ensures
        r@ == spec_render_cell(idx as int, json_view(*cell), show),
{
    let ghost gcell = json_view(*cell);
    let upper: String;
    let mut ct: Option<&str> = None;
    match json_get(cell, "cell_type") {
        Some(v) => {
            ct = json_as_str(v);
        },
        None => {},
    }
    match ct {
        Some(s) => {
            upper = ascii_upper(s);
        },
        None => {
            upper = ascii_upper("unknown");
        },
    }
    assert(upper@ == spec_upper(spec_cell_type(gcell)));
    let num = u64_to_string((idx as u64) + 1);
    let mut out = String::from_str("-------------------\n");
    out.append("Begin Cell ");
    out.append(num.as_str());
    out.append(" - ");
    out.append(upper.as_str());
    out.append("\n");
    let ghost header = "-------------------\n"@ + "Begin Cell "@ + spec_dec(idx + 1) + " - "@
        + spec_upper(spec_cell_type(gcell)) + "\n"@;
    proof {
        assert(out@ =~= header);
    }
    match json_get(cell, "source") {
        Some(v) => {
            match json_as_array(v) {
                Some(lines) => {
                    let src = lines_concat(lines, Ghost(json_view(*v)->Arr_0));
                    out.append(src.as_str());
                    if src.as_str().unicode_len() > 0 && !ends_with_newline(&src) {
                        push_char(&mut out, '\n');
                    }
                    proof {
                        assert(out@ =~= header + spec_source_part(gcell));
                    }
                },
                None => {},
            }
        },
        None => {},
    }
    proof {
        assert(out@ =~= header + spec_source_part(gcell));
    }
    if show {
        match json_get(cell, "outputs") {
            Some(v) => {
                match json_as_array(v) {
                    Some(outs) => {
                        if outs.len() > 0 {
                            out.append("\nCell Outputs:\n");
                            let txt = outs_concat(outs, Ghost(json_view(*v)->Arr_0));
                            out.append(txt.as_str());
                            if txt.as_str().unicode_len() > 0 && !ends_with_newline(&txt) {
                                push_char(&mut out, '\n');
                            }
                            proof {
                                assert(out@ =~= header + spec_source_part(gcell)
                                    + spec_outputs_part(gcell, show));
                            }
                        }
                    },
                    None => {},
                }
            },
            None => {},
        }
    }
    proof {
        assert(out@ =~= header + spec_source_part(gcell) + spec_outputs_part(gcell, show));
    }
    out.append("End Cell ");
    out.append(num.as_str());
    out.append(" - ");
    out.append(upper.as_str());
    out.append("\n");
    out.append("-------------------\n\n");
    proof {
        assert(out@ =~= spec_render_cell(idx as int, gcell, show));
    }
    out
}

fn outs_concat(outs: &Vec<serde_json::Value>, Ghost(go): Ghost<Seq<Json>>) -> (r: String)
    requires
        go.len() == outs@.len(),
        forall|i: int| 0 <= i < go.len() ==> #[trigger] json_view(outs@[i]) == go[i],
    ensures
        r@ == spec_outs_upto(go, go.len() as int),
{
    let mut out = String::new();
    let mut i: usize = 0;
    while i < outs.len()
        invariant
            go.len() == outs@.len(),
            forall|j: int| 0 <= j < go.len() ==> #[trigger] json_view(outs@[j]) == go[j],
            i <= outs@.len(),
            out@ == spec_outs_upto(go, i as int),
        decreases outs@.len() - i,
    {
        let piece = output_text(&outs[i]);
        out.append(piece.as_str());
        proof {
            assert(out@ =~= spec_outs_upto(go, i + 1 as int));
        }
        i = i + 1;
    }
    out
}

/// A parsed document whose `cells` is missing or not an array renders as
/// the empty document — malformed cells are empty, never an error.
pub proof fn lemma_malformed_cells_empty(doc: Json, show: bool)
    requires
        !(doc is Obj && doc->Obj_0.dom().contains("cells"@) && doc->Obj_0["cells"@] is Arr),
    ensures
        spec_notebook(doc, show) == Seq::<char>::empty(),
{
}

/// Extracts a notebook document from its JSON text: one block per cell, in
/// document order, bounded by begin and end markers that carry the one-based
/// cell index and the upper-cased cell type; source lines concatenated
/// without added separators and newline-terminated; captured outputs
/// appended on request. Text that does not parse is an error; a parsed
/// document without a `cells` array yields the empty document.
pub fn read_ipynb(content: &str, show_outputs: bool) -> (r: Result<String, String>)
    ensures
        r is Ok <==> json_parses(content@),
        r is Ok ==> r->Ok_0@ == spec_notebook(json_parsed(content@), show_outputs),
{
    let doc = match json_parse(content) {
        Ok(v) => v,
        Err(e) => {
            return Err(e);
        },
    };
    let mut output = String::new();
    match json_get(&doc, "cells") {
        Some(cells_v) => {
            match json_as_array(cells_v) {
                Some(cells) => {
                    let ghost gcells = json_view(*cells_v)->Arr_0;
                    let mut i: usize = 0;
                    while i < cells.len()
                        invariant
                            gcells.len() == cells@.len(),
                            forall|j: int|
                                0 <= j < gcells.len() ==> #[trigger] json_view(cells@[j])
                                    == gcells[j],
                            i <= cells@.len(),
                            output@ == spec_cells_upto(gcells, i as int, show_outputs),
                        decreases cells@.len() - i,
                    {
                        let block = render_cell(&cells[i], i, show_outputs);
                        output.append(block.as_str());
                        proof {
                            assert(output@ =~= spec_cells_upto(gcells, i + 1 as int, show_outputs));
                        }
                        i = i + 1;
                    }
                },
                None => {},
            }
        },
        None => {},
    }
    Ok(output)
}

} // verus!
