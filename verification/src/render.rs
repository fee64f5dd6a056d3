//! The type renderer: pure, total functions from each signature kind to its
//! canonical one-line text. The text of each kind is pinned down by a spec
//! function, and every executable renderer is proved to return exactly that
//! text.

use vstd::prelude::*;

use itertools::Itertools;

use crate::types::Export;
use crate::types::ExternSignature;
use crate::types::FuncSignature;
use crate::types::GlobalSignature;
use crate::types::MemorySignature;
use crate::types::Mutability;
use crate::types::TableSignature;
use crate::types::ValueType;

verus! {

use vstd::string::StringExecFns;

/// The canonical literal for each value type.
pub open spec fn value_type_text(t: ValueType) -> Seq<char> {
    match t {
        ValueType::I32 => "i32"@,
        ValueType::I64 => "i64"@,
        ValueType::F32 => "f32"@,
        ValueType::F64 => "f64"@,
        ValueType::V128 => "v128"@,
        ValueType::FuncRef => "$func"@,
        ValueType::ExternRef => "$extern"@,
    }
}

/// The canonical literal for each mutability.
pub open spec fn mutability_text(m: Mutability) -> Seq<char> {
    match m {
        Mutability::Const => "const"@,
        Mutability::Var => "var"@,
    }
}

/// The elements in order with `sep` between each adjacent pair; empty for no
/// elements.
pub open spec fn join_text(parts: Seq<Seq<char>>, sep: Seq<char>) -> Seq<char>
    decreases parts.len(),
{
    if parts.len() == 0 {
        Seq::empty()
    } else if parts.len() == 1 {
        parts[0]
    } else {
        parts[0] + sep + join_text(parts.drop_first(), sep)
    }
}

/// A comma-and-space-joined list of value types, in declared order.
pub open spec fn type_list_text(ts: Seq<ValueType>) -> Seq<char> {
    join_text(ts.map_values(|t: ValueType| value_type_text(t)), ", "@)
}

/// `fn(P) -> (R)` with the parameter and result lists joined by `, `.
pub open spec fn func_text(f: FuncSignature) -> Seq<char> {
    "fn("@ + type_list_text(f.params@) + ") -> ("@ + type_list_text(f.results@) + ")"@
}

/// `global {mutability} {value-type}`.
pub open spec fn global_text(g: GlobalSignature) -> Seq<char> {
    "global "@ + mutability_text(g.mutability) + " "@ + value_type_text(g.ty)
}

/// The decimal digit character for one digit value.
pub open spec fn dec_digit_text(d: nat) -> Seq<char> {
    if d == 0 {
        "0"@
    } else if d == 1 {
        "1"@
    } else if d == 2 {
        "2"@
    } else if d == 3 {
        "3"@
    } else if d == 4 {
        "4"@
    } else if d == 5 {
        "5"@
    } else if d == 6 {
        "6"@
    } else if d == 7 {
        "7"@
    } else if d == 8 {
        "8"@
    } else {
        "9"@
    }
}

/// The decimal rendering of a non-negative integer: no sign, no separators,
/// no leading zeros (`0` itself is the single digit `0`).
pub open spec fn dec_text(n: nat) -> Seq<char>
    decreases n,
{
    if n < 10 {
        dec_digit_text(n)
    } else {
        dec_text(n / 10) + dec_digit_text(n % 10)
    }
}

/// `[{min}..{max?}]`: the maximum's digits if present, nothing after `..`
/// otherwise.
pub open spec fn range_text(min: u64, max: Option<u64>) -> Seq<char> {
    "["@ + dec_text(min as nat) + ".."@ + (match max {
        Some(m) => dec_text(m as nat),
        None => Seq::<char>::empty(),
    }) + "]"@
}

/// `table {element-type} [{min}..{max?}]`.
pub open spec fn table_text(t: TableSignature) -> Seq<char> {
    "table "@ + value_type_text(t.elem) + " "@ + range_text(t.min, t.max)
}

/// `shared `? `memory ` then `32`/`64` then ` [{min}..{max?}]`.
pub open spec fn memory_text(m: MemorySignature) -> Seq<char> {
    (if m.shared {
        "shared "@
    } else {
        Seq::<char>::empty()
    }) + "memory "@ + (if m.is64 {
        "64"@
    } else {
        "32"@
    }) + " "@ + range_text(m.min, m.max)
}

/// The rendering of whichever kind the export's type is; no extra prefix
/// beyond what the kind's own rendering carries.
pub open spec fn extern_text(e: ExternSignature) -> Seq<char> {
    match e {
        ExternSignature::Func(f) => func_text(f),
        ExternSignature::Global(g) => global_text(g),
        ExternSignature::Table(t) => table_text(t),
        ExternSignature::Memory(m) => memory_text(m),
    }
}

/// One output line: `{name}: {rendered-signature}` with a trailing newline.
pub open spec fn export_line_text(e: Export) -> Seq<char> {
    e.name@ + ": "@ + extern_text(e.signature) + "\n"@
}

/// Relies on itertools' `Itertools::join`: the elements in order, with the
/// separator between each adjacent pair, and the empty string for an empty
/// sequence.
#[verifier::external_body]
fn join_with(parts: &Vec<String>, sep: &str) -> (r: String)
    ensures
        r@ == join_text(parts.deep_view(), sep@),
{
    parts.iter().join(sep)
}

fn render_value_type(t: ValueType) -> (r: String)
    ensures
        r@ == value_type_text(t),
{
    match t {
        ValueType::I32 => String::from_str("i32"),
        ValueType::I64 => String::from_str("i64"),
        ValueType::F32 => String::from_str("f32"),
        ValueType::F64 => String::from_str("f64"),
        ValueType::V128 => String::from_str("v128"),
        ValueType::FuncRef => String::from_str("$func"),
        ValueType::ExternRef => String::from_str("$extern"),
    }
}

fn render_digit(d: u64) -> (r: String)
    requires
        d < 10,
    ensures
        r@ == dec_digit_text(d as nat),
{
    if d == 0 {
        String::from_str("0")
    } else if d == 1 {
        String::from_str("1")
    } else if d == 2 {
        String::from_str("2")
    } else if d == 3 {
        String::from_str("3")
    } else if d == 4 {
        String::from_str("4")
    } else if d == 5 {
        String::from_str("5")
    } else if d == 6 {
        String::from_str("6")
    } else if d == 7 {
        String::from_str("7")
    } else if d == 8 {
        String::from_str("8")
    } else {
        String::from_str("9")
    }
}

fn render_u64(n: u64) -> (r: String)
    ensures
        r@ == dec_text(n as nat),
    decreases n,
{
    if n < 10 {
        render_digit(n)
    } else {
        proof {
            assert(n / 10 < n) by (nonlinear_arith)
                requires
                    n >= 10,
            ;
        }
        let mut s = render_u64(n / 10);
        let d = render_digit(n % 10);
        s.append(d.as_str());
        s
    }
}

fn render_type_list(ts: &Vec<ValueType>) -> (r: String)
    ensures
        r@ == type_list_text(ts@),
{
    let mut parts: Vec<String> = Vec::new();
    for i in 0..ts.len()
        invariant
            parts@.len() == i,
            forall|j: int| 0 <= j < i ==> parts@[j]@ == value_type_text(ts@[j]),
    {
        parts.push(render_value_type(ts[i]));
    }
    proof {
        assert(parts.deep_view() =~~= ts@.map_values(|t: ValueType| value_type_text(t)));
    }
    join_with(&parts, ", ")
}

fn render_func(f: &FuncSignature) -> (r: String)
    ensures
        r@ == func_text(*f),
{
    let mut s = String::from_str("fn(");
    let params = render_type_list(&f.params);
    s.append(params.as_str());
    s.append(") -> (");
    let results = render_type_list(&f.results);
    s.append(results.as_str());
    s.append(")");
    proof {
        assert(s@ =~= func_text(*f));
    }
    s
}

fn render_mutability(m: Mutability) -> (r: String)
    ensures
        r@ == mutability_text(m),
{
    match m {
        Mutability::Const => String::from_str("const"),
        Mutability::Var => String::from_str("var"),
    }
}

fn render_global(g: &GlobalSignature) -> (r: String)
    ensures
        r@ == global_text(*g),
{
    let mut s = String::from_str("global ");
    let m = render_mutability(g.mutability);
    s.append(m.as_str());
    s.append(" ");
    let t = render_value_type(g.ty);
    s.append(t.as_str());
    proof {
        assert(s@ =~= global_text(*g));
    }
    s
}

fn render_range(min: u64, max: Option<u64>) -> (r: String)
    ensures
        r@ == range_text(min, max),
{
    let mut s = String::from_str("[");
    let lo = render_u64(min);
    s.append(lo.as_str());
    s.append("..");
    match max {
        Some(m) => {
            let hi = render_u64(m);
            s.append(hi.as_str());
        },
        None => {},
    }
    s.append("]");
    proof {
        assert(s@ =~= range_text(min, max));
    }
    s
}

fn render_table(t: &TableSignature) -> (r: String)
    ensures
        r@ == table_text(*t),
{
    let mut s = String::from_str("table ");
    let e = render_value_type(t.elem);
    s.append(e.as_str());
    s.append(" ");
    let range = render_range(t.min, t.max);
    s.append(range.as_str());
    proof {
        assert(s@ =~= table_text(*t));
    }
    s
}

fn render_memory(m: &MemorySignature) -> (r: String)
    ensures
        r@ == memory_text(*m),
{
    let mut s = String::new();
    if m.shared {
        s.append("shared ");
    }
    s.append("memory ");
    if m.is64 {
        s.append("64");
    } else {
        s.append("32");
    }
    s.append(" ");
    let range = render_range(m.min, m.max);
    s.append(range.as_str());
    proof {
        assert(s@ =~= memory_text(*m));
    }
    s
}

pub(crate) fn render_extern(e: &ExternSignature) -> (r: String)
    ensures
        r@ == extern_text(*e),
{
    match e {
        ExternSignature::Func(f) => render_func(f),
        ExternSignature::Global(g) => render_global(g),
        ExternSignature::Table(t) => render_table(t),
        ExternSignature::Memory(m) => render_memory(m),
    }
}

/// A rendering adapter: pairs a value with its canonical-text method, one
/// specialisation per signature kind.
pub struct CustomDisplay<T> {
    pub inner: T,
}

impl<T> CustomDisplay<T> {
    /// Wraps a value for rendering.
    pub fn new(inner: T) -> (r: Self)
        ensures
            r.inner == inner,
    {
        CustomDisplay { inner }
    }
}

impl CustomDisplay<ValueType> {
    /// The canonical literal for the wrapped value type.
    pub fn render(&self) -> (r: String)
        ensures
            r@ == value_type_text(self.inner),
    {
        render_value_type(self.inner)
    }
}

impl CustomDisplay<Mutability> {
    /// The canonical literal for the wrapped mutability.
    pub fn render(&self) -> (r: String)
        ensures
            r@ == mutability_text(self.inner),
    {
        render_mutability(self.inner)
    }
}

impl CustomDisplay<FuncSignature> {
    /// `fn(P) -> (R)` for the wrapped function signature.
    pub fn render(&self) -> (r: String)
        ensures
            r@ == func_text(self.inner),
    {
        render_func(&self.inner)
    }
}

impl CustomDisplay<GlobalSignature> {
    /// `global {mutability} {value-type}` for the wrapped global signature.
    pub fn render(&self) -> (r: String)
        ensures
            r@ == global_text(self.inner),
    {
        render_global(&self.inner)
    }
}

impl CustomDisplay<TableSignature> {
    /// `table {element-type} [{min}..{max?}]` for the wrapped table signature.
    pub fn render(&self) -> (r: String)
        ensures
            r@ == table_text(self.inner),
    {
        render_table(&self.inner)
    }
}

impl CustomDisplay<MemorySignature> {
    /// `shared `? `memory {32|64} [{min}..{max?}]` for the wrapped memory
    /// signature.
    pub fn render(&self) -> (r: String)
        ensures
            r@ == memory_text(self.inner),
    {
        render_memory(&self.inner)
    }
}

impl CustomDisplay<ExternSignature> {
    /// The rendering of whichever kind the wrapped export type is.
    pub fn render(&self) -> (r: String)
        ensures
            r@ == extern_text(self.inner),
    {
        render_extern(&self.inner)
    }
}

} // verus!
