//! Laws of the renderer, stated over the same spec functions that the
//! executable renderers are proved against.

use vstd::prelude::*;

use crate::render::export_line_text;
use crate::render::value_type_text;
use crate::types::Export;
use crate::types::ValueType;

verus! {

/// Law: the value-type rendering is a bijection between the seven variants
/// and seven distinct non-empty literals — every variant renders to non-empty
/// text, and no two variants render alike.
pub proof fn lemma_value_type_text_bijective(a: ValueType, b: ValueType)
    ensures
        value_type_text(a).len() > 0,
        value_type_text(a) == value_type_text(b) ==> a == b,
{
    reveal_strlit("i32");
    reveal_strlit("i64");
    reveal_strlit("f32");
    reveal_strlit("f64");
    reveal_strlit("v128");
    reveal_strlit("$func");
    reveal_strlit("$extern");
    assert("i32"@.len() == 3);
    assert("i64"@.len() == 3);
    assert("f32"@.len() == 3);
    assert("f64"@.len() == 3);
    assert("v128"@.len() == 4);
    assert("$func"@.len() == 5);
    assert("$extern"@.len() == 7);
    assert("i32"@[0] == 'i' && "i32"@[1] == '3');
    assert("i64"@[0] == 'i' && "i64"@[1] == '6');
    assert("f32"@[0] == 'f' && "f32"@[1] == '3');
    assert("f64"@[0] == 'f' && "f64"@[1] == '6');
    assert("i32"@ != "i64"@);
    assert("i32"@ != "f32"@);
    assert("i32"@ != "f64"@);
    assert("i64"@ != "f32"@);
    assert("i64"@ != "f64"@);
    assert("f32"@ != "f64"@);
}

/// Law: rendering is idempotent — the line text is a function of the export's
/// value alone, so two renderings of one export are identical.
pub proof fn lemma_render_idempotent(e: Export, first: Seq<char>, second: Seq<char>)
    requires
        first == export_line_text(e),
        second == export_line_text(e),
    ensures
        first == second,
{
}

} // verus!
