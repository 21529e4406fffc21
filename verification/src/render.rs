use vstd::prelude::*;

verus! {

use crate::classify::{spec_extension, extension};
use crate::strutil::{spec_dec, u64_to_string};
use vstd::string::StringExecFns;

/// What one character becomes in text escaped for embedding between
/// markup tags: the three markup-significant characters become entities,
/// everything else stands as it is.
pub open spec fn spec_text_escape_char(c: char) -> Seq<char> {
    if c == '&' {
        "&amp;"@
    } else if c == '<' {
        "&lt;"@
    } else if c == '>' {
        "&gt;"@
    } else {
        seq![c]
    }
}

/// Text escaped for embedding between markup tags, character by
/// character.
pub open spec fn spec_text_escaped(s: Seq<char>) -> Seq<char>
    decreases s.len(),
{
    if s.len() == 0 {
        Seq::empty()
    } else {
        spec_text_escaped(s.drop_last()) + spec_text_escape_char(s.last())
    }
}

/// What one character becomes in a double-quoted attribute: as between
/// tags, with the double quote also becoming an entity.
pub open spec fn spec_attr_escape_char(c: char) -> Seq<char> {
    if c == '"' {
        "&quot;"@
    } else {
        spec_text_escape_char(c)
    }
}

/// Text escaped for embedding in a double-quoted attribute, character by
/// character.
pub open spec fn spec_attr_escaped(s: Seq<char>) -> Seq<char>
    decreases s.len(),
{
    if s.len() == 0 {
        Seq::empty()
    } else {
        spec_attr_escaped(s.drop_last()) + spec_attr_escape_char(s.last())
    }
}

/// Relies on `html_escape::encode_text`: escapes exactly `&`, `<` and `>`
/// as `&amp;`, `&lt;` and `&gt;`, leaving every other character as it is.
#[verifier::external_body]
fn encode_text(s: &str) -> (r: String)
    ensures
        r@ == spec_text_escaped(s@),
{
    html_escape::encode_text(s).into_owned()
}

/// Relies on `html_escape::encode_double_quoted_attribute`: escapes
/// exactly `&`, `<`, `>` and `"` as `&amp;`, `&lt;`, `&gt;` and `&quot;`,
/// leaving every other character as it is.
#[verifier::external_body]
fn encode_attr(s: &str) -> (r: String)
    ensures
        r@ == spec_attr_escaped(s@),
{
    html_escape::encode_double_quoted_attribute(s).into_owned()
}

/// The annotated block of one successfully extracted file: a header
/// carrying the sequential id and the path, then the escaped content under
/// a language hint derived from the extension.
pub open spec fn spec_success_block(idx: int, path: Seq<char>, content: Seq<char>) -> Seq<char> {
    "<div id='file-"@ + spec_dec(idx) + "' class='file-header' data-path='"@ + spec_attr_escaped(path) + "'>\n-------------------\n"@ + path + " \n-------------------\n</div>\n<pre><code class='language-"@
        + spec_extension(path) + "'>"@ + spec_text_escaped(content) + "</code></pre>\n<hr/>\n"@
}

/// The inline error block substituted for a failed extraction.
pub open spec fn spec_error_block(path: Seq<char>, msg: Seq<char>) -> Seq<char> {
    "<div class='error'>Error reading "@ + path + ": "@ + msg + "</div>"@
}

/// The block standing at position `idx` of the merged document.
pub open spec fn spec_render_block(idx: int, path: Seq<char>, outcome: Result<String, String>) -> Seq<
    char,
> {
    match outcome {
        Ok(content) => spec_success_block(idx, path, content@),
        Err(msg) => spec_error_block(path, msg@),
    }
}

/// The first `k` blocks joined with a blank separator line, in input
/// order.
pub open spec fn spec_merged(paths: Seq<String>, outcomes: Seq<Result<String, String>>, k: int) -> Seq<
    char,
>
    decreases k,
{
    if k <= 0 || paths.len() < k || outcomes.len() < k {
        Seq::empty()
    } else if k == 1 {
        spec_render_block(0, paths[0]@, outcomes[0])
    } else {
        spec_merged(paths, outcomes, k - 1) + "\n"@ + spec_render_block(
            k - 1,
            paths[k - 1]@,
            outcomes[k - 1],
        )
    }
}

/// Blocks joined with a blank separator line, in their given order.
pub open spec fn spec_join_nl(blocks: Seq<Seq<char>>) -> Seq<char>
    decreases blocks.len(),
{
    if blocks.len() == 0 {
        Seq::empty()
    } else if blocks.len() == 1 {
        blocks[0]
    } else {
        spec_join_nl(blocks.drop_last()) + "\n"@ + blocks.last()
    }
}

/// The merged document is exactly the join, in input index order, of each
/// path's own block: the block of an earlier path always stands before
/// that of a later one. The order extraction outcomes were computed in
/// never enters, since each block is taken from its path's own position.
pub proof fn lemma_merged_keeps_input_order(
    paths: Seq<String>,
    outcomes: Seq<Result<String, String>>,
    k: int,
)
    requires
        0 <= k <= paths.len(),
        paths.len() == outcomes.len(),
    ensures
        spec_merged(paths, outcomes, k) == spec_join_nl(
            Seq::new(k as nat, |i: int| spec_render_block(i, paths[i]@, outcomes[i])),
        ),
    decreases k,
{
    let blocks = Seq::new(k as nat, |i: int| spec_render_block(i, paths[i]@, outcomes[i]));
    if k > 0 {
        lemma_merged_keeps_input_order(paths, outcomes, k - 1);
        assert(blocks.drop_last() =~= Seq::new(
            (k - 1) as nat,
            |i: int| spec_render_block(i, paths[i]@, outcomes[i]),
        ));
    }
}

/// Renders the block of one file at its position: the annotated, escaped
/// content block on success, the inline error block on failure.
pub fn render_block(idx: usize, path: &String, outcome: &Result<String, String>) -> (r: String)
    ensures
        r@ == spec_render_block(idx as int, path@, *outcome),
{
    match outcome {
        Ok(content) => {
            let num = u64_to_string(idx as u64);
            let attr = encode_attr(path.as_str());
            let ext = extension(path.as_str());
            let body = encode_text(content.as_str());
            let mut out = String::from_str("<div id='file-");
            out.append(num.as_str());
            out.append("' class='file-header' data-path='");
            out.append(attr.as_str());
            out.append("'>\n-------------------\n");
            out.append(path.as_str());
            out.append(" \n-------------------\n</div>\n<pre><code class='language-");
            out.append(ext.as_str());
            out.append("'>");
            out.append(body.as_str());
            out.append("</code></pre>\n<hr/>\n");
            proof {
                assert(out@ =~= spec_success_block(idx as int, path@, content@));
            }
            out
        },
        Err(msg) => {
            let mut out = String::from_str("<div class='error'>Error reading ");
            out.append(path.as_str());
            out.append(": ");
            out.append(msg.as_str());
            out.append("</div>");
            proof {
                assert(out@ =~= spec_error_block(path@, msg@));
            }
            out
        },
    }
}

/// Joins the per-file blocks into the merged document, in input order:
/// the block of path `i` stands at position `i` whatever order the
/// extraction outcomes were produced in, since each outcome is taken from
/// its path's own position.
pub fn merged_document(paths: &Vec<String>, outcomes: &Vec<Result<String, String>>) -> (r: String)
    requires
        paths@.len() == outcomes@.len(),
    ensures
        r@ == spec_merged(paths@, outcomes@, paths@.len() as int),
{
    let mut out = String::new();
    let mut i: usize = 0;
    while i < paths.len()
        invariant
            paths@.len() == outcomes@.len(),
            i <= paths@.len(),
            out@ == spec_merged(paths@, outcomes@, i as int),
        decreases paths@.len() - i,
    {
        if i > 0 {
            out.append("\n");
        }
        let block = render_block(i, &paths[i], &outcomes[i]);
        out.append(block.as_str());
        proof {
            assert(out@ =~= spec_merged(paths@, outcomes@, i + 1 as int));
        }
        i = i + 1;
    }
    out
}

} // verus!
