//! The method printer and the exception-table printer.
//!
//! A method renders as its header line — with the reserved
//! instance-initializer name replaced by the declaring class's name — then
//! its descriptor, a flags placeholder line, and its `Code:` block: the
//! stack/locals/args line, the instruction listing, and, only when it is
//! non-empty, the exception table.  A method without a Code attribute
//! aborts the render with `MissingCode`.

use vstd::prelude::*;

use crate::instr::{format_instruction_line, spec_instruction_line, Instruction};
use crate::model::{Code, CodeV, ExceptionTableEntry, Method, MethodV, PoolEntry, PoolEntryV,
    RenderError};
use crate::pool::{chars_result_v, pool_v, resolve_class, resolve_utf8, spec_resolve_class,
    spec_resolve_utf8};
use crate::text::{append_str, dec_nat, eq_chars, extend_chars, extend_padded_left, pad_left,
    push_dec_u64};

verus! {

/// The reserved name the class format gives every instance initializer.
pub open spec fn spec_init_name() -> Seq<char> {
    "<init>"@
}

/// A method's header line: two spaces, the display name, `();` and a
/// newline — where a method named by the reserved instance-initializer
/// symbol displays the declaring class's name instead.
pub open spec fn spec_method_header(class_name: Seq<char>, name: Seq<char>) -> Seq<char> {
    "  "@ + (if name == spec_init_name() {
        class_name
    } else {
        name
    }) + "();\n"@
}

/// Constructors render under the declaring class's name: whenever a
/// method's resolved name is the reserved instance-initializer symbol, its
/// header shows the class name — whatever characters that name holds,
/// package separators included — and the reserved symbol never appears.
pub proof fn lemma_constructor_uses_class_name(class_name: Seq<char>, name: Seq<char>)
    requires
        name == spec_init_name(),
    ensures
        spec_method_header(class_name, name) == "  "@ + class_name + "();\n"@,
{
}

/// One exception-table row: the three offsets right-aligned to width 5 and
/// separated by single spaces, then `   Class ` and the resolved catch
/// type.  A catch-type index of 0 is the catch-all sentinel `any`,
/// resolved without touching the pool; any other index must name a `Class`
/// entry.
pub open spec fn spec_exception_row(pool: Seq<PoolEntryV>, e: ExceptionTableEntry) -> Result<
    Seq<char>,
    RenderError,
> {
    match (if e.catch_type == 0 {
        Ok("any"@)
    } else {
        spec_resolve_class(pool, e.catch_type as int)
    }) {
        Ok(c) => Ok(
            "         "@ + pad_left(dec_nat(e.start_pc as int), 5) + " "@ + pad_left(
                dec_nat(e.end_pc as int),
                5,
            ) + " "@ + pad_left(dec_nat(e.handler_pc as int), 5) + "   Class "@ + c + "\n"@,
        ),
        Err(er) => Err(er),
    }
}

/// A catch-type index of 0 always renders as the `any` sentinel and never
/// attempts a pool lookup: the row succeeds, and reads the same, for every
/// pool — in particular it can never raise `OutOfRangeIndex`.
pub proof fn lemma_catch_all_without_lookup(
    pool1: Seq<PoolEntryV>,
    pool2: Seq<PoolEntryV>,
    e: ExceptionTableEntry,
)
    requires
        e.catch_type == 0,
    ensures
        spec_exception_row(pool1, e) == spec_exception_row(pool2, e),
        spec_exception_row(pool1, e) is Ok,
{
}

/// The exception-table rows from position `i` on.
pub open spec fn spec_exception_rows(
    pool: Seq<PoolEntryV>,
    table: Seq<ExceptionTableEntry>,
    i: int,
) -> Result<Seq<char>, RenderError>
    decreases table.len() - i,
{
    if i < 0 || i >= table.len() {
        Ok(Seq::empty())
    } else {
        match spec_exception_row(pool, table[i]) {
            Ok(row) => match spec_exception_rows(pool, table, i + 1) {
                Ok(rest) => Ok(row + rest),
                Err(e) => Err(e),
            },
            Err(e) => Err(e),
        }
    }
}

/// The whole exception-table block: its two header lines, then one row per
/// entry.
pub open spec fn spec_exception_table(
    pool: Seq<PoolEntryV>,
    table: Seq<ExceptionTableEntry>,
) -> Result<Seq<char>, RenderError> {
    match spec_exception_rows(pool, table, 0) {
        Ok(rows) => Ok("      Exception table:\n"@ + "         from    to  target type\n"@ + rows),
        Err(e) => Err(e),
    }
}

/// The instruction-listing lines from position `i` on.
pub open spec fn spec_bytecode_lines(code: Seq<(u16, Instruction)>, i: int) -> Seq<char>
    decreases code.len() - i,
{
    if i < 0 || i >= code.len() {
        Seq::empty()
    } else {
        spec_instruction_line(code[i].0, code[i].1) + spec_bytecode_lines(code, i + 1)
    }
}

/// A method's `Code:` block: the block header, the
/// `stack=..., locals=..., args_size=TODO` line (the argument-slot count is
/// a documented placeholder, not computed from the descriptor), the
/// instruction listing, and — only when non-empty — the exception table.
pub open spec fn spec_code_block(pool: Seq<PoolEntryV>, c: CodeV) -> Result<
    Seq<char>,
    RenderError,
> {
    match (if c.exception_table.len() > 0 {
        spec_exception_table(pool, c.exception_table)
    } else {
        Ok(Seq::empty())
    }) {
        Ok(exc) => Ok(
            "    Code:\n"@ + "      stack="@ + dec_nat(c.max_stack as int) + ", locals="@ + dec_nat(
                c.max_locals as int,
            ) + ", args_size=TODO\n"@ + spec_bytecode_lines(c.code, 0) + exc,
        ),
        Err(e) => Err(e),
    }
}

/// A whole method's text: header line, descriptor line, the flags
/// placeholder line (per-method flag text is a documented gap), and the
/// Code block.  The first failure wins: an unresolvable name or descriptor
/// index, then a missing Code attribute, then a failure inside the block.
pub open spec fn spec_method_text(
    pool: Seq<PoolEntryV>,
    class_name: Seq<char>,
    m: MethodV,
) -> Result<Seq<char>, RenderError> {
    match spec_resolve_utf8(pool, m.name_index as int) {
        Ok(name) => match spec_resolve_utf8(pool, m.descriptor_index as int) {
            Ok(desc) => match m.code {
                Some(c) => match spec_code_block(pool, c) {
                    Ok(cb) => Ok(
                        spec_method_header(class_name, name) + "    descriptor: "@ + desc + "\n"@
                            + "    flags: TODO\n"@ + cb,
                    ),
                    Err(e) => Err(e),
                },
                None => Err(RenderError::MissingCode),
            },
            Err(e) => Err(e),
        },
        Err(e) => Err(e),
    }
}

/// Renders the instruction listing, one line per (offset, instruction)
/// pair, in stream order.
pub fn format_bytecode(code: &Vec<(u16, Instruction)>) -> (r: Vec<char>)
    ensures
        r@ == spec_bytecode_lines(code@, 0),
{
    let mut out: Vec<char> = Vec::new();
    let mut i: usize = 0;
    while i < code.len()
        invariant
            i <= code@.len(),
            out@ + spec_bytecode_lines(code@, i as int) == spec_bytecode_lines(code@, 0),
        decreases code@.len() - i,
    {
        let line = format_instruction_line(code[i].0, &code[i].1);
        extend_chars(&mut out, &line);
        proof {
            assert(out@ + spec_bytecode_lines(code@, i as int + 1) =~= spec_bytecode_lines(
                code@,
                0,
            ));
        }
        i = i + 1;
    }
    proof {
        assert(out@ =~= spec_bytecode_lines(code@, 0));
    }
    out
}

/// Renders the exception-table block for a method's handlers.
pub fn format_exception_table(pool: &Vec<PoolEntry>, table: &Vec<ExceptionTableEntry>) -> (r:
    Result<Vec<char>, RenderError>)
    ensures
        chars_result_v(r) == spec_exception_table(pool_v(pool), table@),
{
    let ghost pv = pool_v(pool);
    let mut out: Vec<char> = Vec::new();
    append_str(&mut out, "      Exception table:\n");
    append_str(&mut out, "         from    to  target type\n");
    let ghost header = "      Exception table:\n"@ + "         from    to  target type\n"@;
    let ghost mut done: Seq<char> = Seq::empty();
    proof {
        assert(out@ =~= header + done);
        match spec_exception_rows(pv, table@, 0) {
            Ok(rest) => {
                assert(done + rest =~= rest);
            },
            Err(e) => {},
        }
    }
    let mut i: usize = 0;
    while i < table.len()
        invariant
            i <= table@.len(),
            pv == pool_v(pool),
            out@ == header + done,
            header == "      Exception table:\n"@ + "         from    to  target type\n"@,
            match spec_exception_rows(pv, table@, i as int) {
                Ok(rest) => spec_exception_rows(pv, table@, 0) == Ok::<Seq<char>, RenderError>(
                    done + rest,
                ),
                Err(e) => spec_exception_rows(pv, table@, 0) == Err::<Seq<char>, RenderError>(e),
            },
        decreases table@.len() - i,
    {
        let entry = table[i];
        let catch: Vec<char> = if entry.catch_type == 0 {
            let mut c: Vec<char> = Vec::new();
            append_str(&mut c, "any");
            proof {
                assert(c@ =~= "any"@);
            }
            c
        } else {
            match resolve_class(pool, entry.catch_type) {
                Ok(c) => c,
                Err(e) => {
                    proof {
                        assert(spec_exception_rows(pv, table@, i as int) == Err::<
                            Seq<char>,
                            RenderError,
                        >(e));
                    }
                    return Err(e);
                },
            }
        };
        let mut row: Vec<char> = Vec::new();
        append_str(&mut row, "         ");
        let mut f1: Vec<char> = Vec::new();
        push_dec_u64(&mut f1, entry.start_pc as u64);
        extend_padded_left(&mut row, &f1, 5);
        append_str(&mut row, " ");
        let mut f2: Vec<char> = Vec::new();
        push_dec_u64(&mut f2, entry.end_pc as u64);
        extend_padded_left(&mut row, &f2, 5);
        append_str(&mut row, " ");
        let mut f3: Vec<char> = Vec::new();
        push_dec_u64(&mut f3, entry.handler_pc as u64);
        extend_padded_left(&mut row, &f3, 5);
        append_str(&mut row, "   Class ");
        extend_chars(&mut row, &catch);
        append_str(&mut row, "\n");
        proof {
            assert(row@ =~= "         "@ + pad_left(dec_nat(entry.start_pc as int), 5) + " "@
                + pad_left(dec_nat(entry.end_pc as int), 5) + " "@ + pad_left(
                dec_nat(entry.handler_pc as int),
                5,
            ) + "   Class "@ + catch@ + "\n"@);
            assert(spec_exception_row(pv, table@[i as int]) == Ok::<Seq<char>, RenderError>(row@));
        }
        extend_chars(&mut out, &row);
        proof {
            match spec_exception_rows(pv, table@, i as int + 1) {
                Ok(rest) => {
                    assert((done + row@) + rest =~= done + (row@ + rest));
                },
                Err(e) => {},
            }
        }
        i = i + 1;
        proof {
            done = done + row@;
            assert(out@ =~= header + done);
        }
    }
    proof {
        assert(done + Seq::<char>::empty() =~= done);
        assert(spec_exception_rows(pv, table@, 0) == Ok::<Seq<char>, RenderError>(done));
    }
    Ok(out)
}

/// Renders one whole method: header, descriptor, flags placeholder, and
/// Code block.
pub fn format_method(pool: &Vec<PoolEntry>, class_name: &Vec<char>, m: &Method) -> (r: Result<
    Vec<char>,
    RenderError,
>)
    ensures
        chars_result_v(r) == spec_method_text(pool_v(pool), class_name@, m@),
{
    let name = match resolve_utf8(pool, m.name_index) {
        Ok(n) => n,
        Err(e) => {
            return Err(e);
        },
    };
    let desc = match resolve_utf8(pool, m.descriptor_index) {
        Ok(d) => d,
        Err(e) => {
            return Err(e);
        },
    };
    let code: &Code = match &m.code {
        Some(c) => c,
        None => {
            return Err(RenderError::MissingCode);
        },
    };
    let mut init: Vec<char> = Vec::new();
    append_str(&mut init, "<init>");
    proof {
        assert(init@ =~= spec_init_name());
    }
    let mut out: Vec<char> = Vec::new();
    append_str(&mut out, "  ");
    if eq_chars(&name, &init) {
        extend_chars(&mut out, class_name);
    } else {
        extend_chars(&mut out, &name);
    }
    append_str(&mut out, "();\n");
    proof {
        assert(out@ =~= spec_method_header(class_name@, name@));
    }
    append_str(&mut out, "    descriptor: ");
    extend_chars(&mut out, &desc);
    append_str(&mut out, "\n");
    append_str(&mut out, "    flags: TODO\n");
    append_str(&mut out, "    Code:\n");
    append_str(&mut out, "      stack=");
    push_dec_u64(&mut out, code.max_stack as u64);
    append_str(&mut out, ", locals=");
    push_dec_u64(&mut out, code.max_locals as u64);
    append_str(&mut out, ", args_size=TODO\n");
    let listing = format_bytecode(&code.code);
    extend_chars(&mut out, &listing);
    let exc: Vec<char> = if code.exception_table.len() > 0 {
        match format_exception_table(pool, &code.exception_table) {
            Ok(t) => t,
            Err(e) => {
                return Err(e);
            },
        }
    } else {
        Vec::new()
    };
    extend_chars(&mut out, &exc);
    proof {
        assert(m@.code == Some(code@));
        assert(spec_code_block(pool_v(pool), code@) is Ok);
        assert(out@ =~= spec_method_header(class_name@, name@) + "    descriptor: "@ + desc@
            + "\n"@ + "    flags: TODO\n"@ + spec_code_block(pool_v(pool), code@)->Ok_0);
    }
    Ok(out)
}

} // verus!
