//! The export walker: one text line per export, in the order the decoder
//! reported them — no filtering, no sorting, no deduplication.

use vstd::prelude::*;

use crate::render::export_line_text;
use crate::render::render_extern;
use crate::types::Export;

verus! {

use vstd::string::StringExecFns;

/// The single output line for one export: `{name}: {rendered-signature}`
/// with a trailing newline. The name is taken as given, unescaped.
pub fn export_line(e: &Export) -> (r: String)
    ensures
        r@ == export_line_text(*e),
{
    let mut s = e.name.clone();
    s.append(": ");
    let sig = render_extern(&e.signature);
    s.append(sig.as_str());
    s.append("\n");
    proof {
        assert(s@ =~= export_line_text(*e));
    }
    s
}

/// One line per export, in input order: the result has exactly as many lines
/// as there are exports, and the line at each position renders the export at
/// that same position (duplicates included, nothing reordered).
pub fn export_lines(exports: &Vec<Export>) -> (r: Vec<String>)
    ensures
        r@.len() == exports@.len(),
        forall|i: int| 0 <= i < exports@.len() ==> r@[i]@ == export_line_text(exports@[i]),
{
    let mut lines: Vec<String> = Vec::new();
    for i in 0..exports.len()
        invariant
            lines@.len() == i,
            forall|j: int| 0 <= j < i ==> lines@[j]@ == export_line_text(exports@[j]),
    {
        let line = export_line(&exports[i]);
        lines.push(line);
    }
    lines
}

} // verus!
