//! The constant-pool resolver and printer.
//!
//! The resolver turns a 1-based pool index into the human-readable form of
//! the entry it addresses, following one level of indirection where the
//! entry references other indices.  An index of zero, one past the pool's
//! end, or one addressing an entry of the wrong variant is a fatal
//! `OutOfRangeIndex`.  The printer emits one line per entry with fixed
//! column widths: the tag label left-aligned to 20 characters and the inline
//! operand column left-aligned to 16, so the listing stays vertically
//! aligned whatever the content.

use vstd::prelude::*;

use crate::model::{PoolEntry, PoolEntryV, RenderError};
use crate::text::{
    append_str,
    dec_nat,
    extend_chars,
    extend_padded_left,
    pad_field_right,
    pad_left,
    pad_right,
    push_dec_u64,
};

verus! {

/// The mathematical view of a pool: each entry's view, in order.
pub open spec fn pool_v(pool: &Vec<PoolEntry>) -> Seq<PoolEntryV> {
    pool@.map_values(|e: PoolEntry| e@)
}

/// The view of a text-or-error result: the text's view on success.
pub open spec fn chars_result_v(r: Result<Vec<char>, RenderError>) -> Result<
    Seq<char>,
    RenderError,
> {
    match r {
        Ok(v) => Ok(v@),
        Err(e) => Err(e),
    }
}

/// The UTF-8 text at pool index `idx`, 1-based.
pub open spec fn spec_resolve_utf8(pool: Seq<PoolEntryV>, idx: int) -> Result<
    Seq<char>,
    RenderError,
> {
    if 1 <= idx && idx <= pool.len() {
        match pool[idx - 1] {
            PoolEntryV::Utf8(s) => Ok(s),
            _ => Err(RenderError::OutOfRangeIndex),
        }
    } else {
        Err(RenderError::OutOfRangeIndex)
    }
}

/// The binary class name at pool index `idx`: the `Class` entry there,
/// its `name_index` resolved as UTF-8.
pub open spec fn spec_resolve_class(pool: Seq<PoolEntryV>, idx: int) -> Result<
    Seq<char>,
    RenderError,
> {
    if 1 <= idx && idx <= pool.len() {
        match pool[idx - 1] {
            PoolEntryV::Class { name_index } => spec_resolve_utf8(pool, name_index as int),
            _ => Err(RenderError::OutOfRangeIndex),
        }
    } else {
        Err(RenderError::OutOfRangeIndex)
    }
}

/// A resolved name-and-type pair: the name in double quotes, a colon, then
/// the descriptor.
pub open spec fn spec_name_and_type_text(name: Seq<char>, descriptor: Seq<char>) -> Seq<char> {
    "\""@ + name + "\":"@ + descriptor
}

/// The `name:descriptor` form of the `NameAndType` entry at pool index
/// `idx`, both fields resolved as UTF-8.
pub open spec fn spec_resolve_name_and_type(pool: Seq<PoolEntryV>, idx: int) -> Result<
    Seq<char>,
    RenderError,
> {
    if 1 <= idx && idx <= pool.len() {
        match pool[idx - 1] {
            PoolEntryV::NameAndType { name_index, descriptor_index } => match spec_resolve_utf8(
                pool,
                name_index as int,
            ) {
                Ok(n) => match spec_resolve_utf8(pool, descriptor_index as int) {
                    Ok(d) => Ok(spec_name_and_type_text(n, d)),
                    Err(e) => Err(e),
                },
                Err(e) => Err(e),
            },
            _ => Err(RenderError::OutOfRangeIndex),
        }
    } else {
        Err(RenderError::OutOfRangeIndex)
    }
}

/// The text of an entry that references another entry: tag column, `#idx`
/// inline column, and the resolved trailing comment.
pub open spec fn spec_indirect_entry_text(tag: Seq<char>, idx: u16, resolved: Seq<char>) -> Seq<
    char,
> {
    pad_right(tag, 20) + pad_right("#"@ + dec_nat(idx as int), 16) + "// "@ + resolved
}

/// The text of a `Fieldref` or `Methodref` entry: tag column, `#a.#b`
/// inline column, and the comment `<class>.<name:descriptor>`.
pub open spec fn spec_ref_entry_text(
    tag: Seq<char>,
    class_index: u16,
    name_and_type_index: u16,
    class_text: Seq<char>,
    name_and_type_text: Seq<char>,
) -> Seq<char> {
    pad_right(tag, 20) + pad_right(
        "#"@ + dec_nat(class_index as int) + ".#"@ + dec_nat(name_and_type_index as int),
        16,
    ) + "// "@ + class_text + "."@ + name_and_type_text
}

/// The resolved text of a `Fieldref`/`Methodref` entry with the given tag:
/// both indices resolved against the pool, with the first resolution
/// failure passed through.
pub open spec fn spec_ref_resolved(
    pool: Seq<PoolEntryV>,
    tag: Seq<char>,
    class_index: u16,
    name_and_type_index: u16,
) -> Result<Seq<char>, RenderError> {
    match spec_resolve_class(pool, class_index as int) {
        Ok(c) => match spec_resolve_name_and_type(pool, name_and_type_index as int) {
            Ok(t) => Ok(spec_ref_entry_text(tag, class_index, name_and_type_index, c, t)),
            Err(e) => Err(e),
        },
        Err(e) => Err(e),
    }
}

/// The tag-and-operand-and-comment text of one pool entry, before the
/// `#index = ` prefix.
pub open spec fn spec_entry_text(pool: Seq<PoolEntryV>, e: PoolEntryV) -> Result<
    Seq<char>,
    RenderError,
> {
    match e {
        PoolEntryV::Utf8(s) => Ok(pad_right("Utf8"@, 20) + s),
        PoolEntryV::Class { name_index } => match spec_resolve_utf8(pool, name_index as int) {
            Ok(n) => Ok(spec_indirect_entry_text("Class"@, name_index, n)),
            Err(e) => Err(e),
        },
        PoolEntryV::Str { string_index } => match spec_resolve_utf8(pool, string_index as int) {
            Ok(n) => Ok(spec_indirect_entry_text("String"@, string_index, n)),
            Err(e) => Err(e),
        },
        PoolEntryV::Fieldref { class_index, name_and_type_index } => spec_ref_resolved(
            pool,
            "Fieldref"@,
            class_index,
            name_and_type_index,
        ),
        PoolEntryV::Methodref { class_index, name_and_type_index } => spec_ref_resolved(
            pool,
            "Methodref"@,
            class_index,
            name_and_type_index,
        ),
        PoolEntryV::NameAndType { name_index, descriptor_index } => match spec_resolve_utf8(
            pool,
            name_index as int,
        ) {
            Ok(n) => match spec_resolve_utf8(pool, descriptor_index as int) {
                Ok(d) => Ok(
                    pad_right("NameAndType"@, 20) + pad_right(
                        "#"@ + dec_nat(name_index as int) + ":#"@ + dec_nat(descriptor_index as int),
                        16,
                    ) + "// "@ + spec_name_and_type_text(n, d),
                ),
                Err(e) => Err(e),
            },
            Err(e) => Err(e),
        },
    }
}

/// The whole listing line of the entry at 0-based position `i`: its 1-based
/// `#index` right-aligned to width 5, ` = `, the entry text, a newline.
pub open spec fn spec_pool_line(pool: Seq<PoolEntryV>, i: int) -> Result<Seq<char>, RenderError> {
    match spec_entry_text(pool, pool[i]) {
        Ok(t) => Ok(pad_left("#"@ + dec_nat(i + 1), 5) + " = "@ + t + "\n"@),
        Err(e) => Err(e),
    }
}

/// The listing lines of all entries from 0-based position `i` on.
pub open spec fn spec_pool_lines(pool: Seq<PoolEntryV>, i: int) -> Result<Seq<char>, RenderError>
    decreases pool.len() - i,
{
    if i < 0 || i >= pool.len() {
        Ok(Seq::empty())
    } else {
        match spec_pool_line(pool, i) {
            Ok(l) => match spec_pool_lines(pool, i + 1) {
                Ok(rest) => Ok(l + rest),
                Err(e) => Err(e),
            },
            Err(e) => Err(e),
        }
    }
}

/// The whole constant-pool block: its header line, then one line per entry.
pub open spec fn spec_pool_block(pool: Seq<PoolEntryV>) -> Result<Seq<char>, RenderError> {
    match spec_pool_lines(pool, 0) {
        Ok(ls) => Ok("Constant pool:\n"@ + ls),
        Err(e) => Err(e),
    }
}

/// A `Fieldref` or `Methodref` trailing comment is built purely from what
/// the entry's two indices resolve to: whenever the class reference
/// resolves to `c` and the name-and-type reference resolves to `t`, the
/// comment reads `c`, a dot, `t` — so any two pools in which those
/// resolutions agree render the entry identically.
pub proof fn lemma_ref_comment_from_indices(
    pool: Seq<PoolEntryV>,
    class_index: u16,
    name_and_type_index: u16,
    c: Seq<char>,
    t: Seq<char>,
)
    requires
        spec_resolve_class(pool, class_index as int) == Ok::<Seq<char>, RenderError>(c),
        spec_resolve_name_and_type(pool, name_and_type_index as int) == Ok::<
            Seq<char>,
            RenderError,
        >(t),
    ensures
        spec_entry_text(pool, PoolEntryV::Fieldref { class_index, name_and_type_index }) == Ok::<
            Seq<char>,
            RenderError,
        >(spec_ref_entry_text("Fieldref"@, class_index, name_and_type_index, c, t)),
        spec_entry_text(pool, PoolEntryV::Methodref { class_index, name_and_type_index }) == Ok::<
            Seq<char>,
            RenderError,
        >(spec_ref_entry_text("Methodref"@, class_index, name_and_type_index, c, t)),
{
}

/// Copies a character buffer.
fn copy_chars(src: &Vec<char>) -> (r: Vec<char>)
    ensures
        r@ == src@,
{
    let mut r: Vec<char> = Vec::new();
    extend_chars(&mut r, src);
    proof {
        assert(r@ =~= src@);
    }
    r
}

/// Resolves the UTF-8 text at pool index `idx`, 1-based.
pub fn resolve_utf8(pool: &Vec<PoolEntry>, idx: u16) -> (r: Result<Vec<char>, RenderError>)
    ensures
        chars_result_v(r) == spec_resolve_utf8(pool_v(pool), idx as int),
{
    if 1 <= idx && (idx as usize) <= pool.len() {
        match &pool[(idx - 1) as usize] {
            PoolEntry::Utf8(s) => Ok(copy_chars(s)),
            _ => Err(RenderError::OutOfRangeIndex),
        }
    } else {
        Err(RenderError::OutOfRangeIndex)
    }
}

/// Resolves the binary class name named by the `Class` entry at pool index
/// `idx`.
pub fn resolve_class(pool: &Vec<PoolEntry>, idx: u16) -> (r: Result<Vec<char>, RenderError>)
    ensures
        chars_result_v(r) == spec_resolve_class(pool_v(pool), idx as int),
{
    if 1 <= idx && (idx as usize) <= pool.len() {
        match &pool[(idx - 1) as usize] {
            PoolEntry::Class { name_index } => resolve_utf8(pool, *name_index),
            _ => Err(RenderError::OutOfRangeIndex),
        }
    } else {
        Err(RenderError::OutOfRangeIndex)
    }
}

/// Resolves the `NameAndType` entry at pool index `idx` to its quoted
/// `"name":descriptor` form.
pub fn resolve_name_and_type(pool: &Vec<PoolEntry>, idx: u16) -> (r: Result<
    Vec<char>,
    RenderError,
>)
    ensures
        chars_result_v(r) == spec_resolve_name_and_type(pool_v(pool), idx as int),
{
    if 1 <= idx && (idx as usize) <= pool.len() {
        match &pool[(idx - 1) as usize] {
            PoolEntry::NameAndType { name_index, descriptor_index } => {
                let n = match resolve_utf8(pool, *name_index) {
                    Ok(n) => n,
                    Err(e) => {
                        return Err(e);
                    },
                };
                let d = match resolve_utf8(pool, *descriptor_index) {
                    Ok(d) => d,
                    Err(e) => {
                        return Err(e);
                    },
                };
                let mut out: Vec<char> = Vec::new();
                append_str(&mut out, "\"");
                extend_chars(&mut out, &n);
                append_str(&mut out, "\":");
                extend_chars(&mut out, &d);
                proof {
                    assert(out@ =~= spec_name_and_type_text(n@, d@));
                }
                Ok(out)
            },
            _ => Err(RenderError::OutOfRangeIndex),
        }
    } else {
        Err(RenderError::OutOfRangeIndex)
    }
}

/// Renders one pool entry's tag, inline operand column and trailing
/// comment.
pub fn format_constant_pool_entry(pool: &Vec<PoolEntry>, e: &PoolEntry) -> (r: Result<
    Vec<char>,
    RenderError,
>)
    ensures
        chars_result_v(r) == spec_entry_text(pool_v(pool), e@),
{
    match e {
        PoolEntry::Utf8(s) => {
            let mut out: Vec<char> = Vec::new();
            append_str(&mut out, "Utf8");
            proof {
                assert(out@ =~= "Utf8"@);
            }
            pad_field_right(&mut out, 20);
            extend_chars(&mut out, s);
            Ok(out)
        },
        PoolEntry::Class { name_index } => {
            let n = match resolve_utf8(pool, *name_index) {
                Ok(n) => n,
                Err(e) => {
                    return Err(e);
                },
            };
            let mut out: Vec<char> = Vec::new();
            append_str(&mut out, "Class");
            proof {
                assert(out@ =~= "Class"@);
            }
            pad_field_right(&mut out, 20);
            let mut inline: Vec<char> = Vec::new();
            append_str(&mut inline, "#");
            push_dec_u64(&mut inline, *name_index as u64);
            proof {
                assert(inline@ =~= "#"@ + dec_nat(*name_index as int));
            }
            pad_field_right(&mut inline, 16);
            extend_chars(&mut out, &inline);
            append_str(&mut out, "// ");
            extend_chars(&mut out, &n);
            proof {
                assert(out@ =~= spec_indirect_entry_text("Class"@, *name_index, n@));
            }
            Ok(out)
        },
        PoolEntry::Str { string_index } => {
            let n = match resolve_utf8(pool, *string_index) {
                Ok(n) => n,
                Err(e) => {
                    return Err(e);
                },
            };
            let mut out: Vec<char> = Vec::new();
            append_str(&mut out, "String");
            proof {
                assert(out@ =~= "String"@);
            }
            pad_field_right(&mut out, 20);
            let mut inline: Vec<char> = Vec::new();
            append_str(&mut inline, "#");
            push_dec_u64(&mut inline, *string_index as u64);
            proof {
                assert(inline@ =~= "#"@ + dec_nat(*string_index as int));
            }
            pad_field_right(&mut inline, 16);
            extend_chars(&mut out, &inline);
            append_str(&mut out, "// ");
            extend_chars(&mut out, &n);
            proof {
                assert(out@ =~= spec_indirect_entry_text("String"@, *string_index, n@));
            }
            Ok(out)
        },
        PoolEntry::Fieldref { class_index, name_and_type_index } => {
            format_ref_operand(pool, "Fieldref", *class_index, *name_and_type_index)
        },
        PoolEntry::Methodref { class_index, name_and_type_index } => {
            format_ref_operand(pool, "Methodref", *class_index, *name_and_type_index)
        },
        PoolEntry::NameAndType { name_index, descriptor_index } => {
            let n = match resolve_utf8(pool, *name_index) {
                Ok(n) => n,
                Err(e) => {
                    return Err(e);
                },
            };
            let d = match resolve_utf8(pool, *descriptor_index) {
                Ok(d) => d,
                Err(e) => {
                    return Err(e);
                },
            };
            let mut out: Vec<char> = Vec::new();
            append_str(&mut out, "NameAndType");
            proof {
                assert(out@ =~= "NameAndType"@);
            }
            pad_field_right(&mut out, 20);
            let mut inline: Vec<char> = Vec::new();
            append_str(&mut inline, "#");
            push_dec_u64(&mut inline, *name_index as u64);
            append_str(&mut inline, ":#");
            push_dec_u64(&mut inline, *descriptor_index as u64);
            proof {
                assert(inline@ =~= "#"@ + dec_nat(*name_index as int) + ":#"@ + dec_nat(
                    *descriptor_index as int,
                ));
            }
            pad_field_right(&mut inline, 16);
            extend_chars(&mut out, &inline);
            append_str(&mut out, "// ");
            append_str(&mut out, "\"");
            extend_chars(&mut out, &n);
            append_str(&mut out, "\":");
            extend_chars(&mut out, &d);
            proof {
                assert(out@ =~= pad_right("NameAndType"@, 20) + pad_right(
                    "#"@ + dec_nat(*name_index as int) + ":#"@ + dec_nat(*descriptor_index as int),
                    16,
                ) + "// "@ + spec_name_and_type_text(n@, d@));
            }
            Ok(out)
        },
    }
}

/// Renders the shared `Fieldref`/`Methodref` shape for one tag.
fn format_ref_operand(
    pool: &Vec<PoolEntry>,
    tag: &str,
    class_index: u16,
    name_and_type_index: u16,
) -> (r: Result<Vec<char>, RenderError>)
    ensures
        chars_result_v(r) == spec_ref_resolved(pool_v(pool), tag@, class_index, name_and_type_index),
{
    let c = match resolve_class(pool, class_index) {
        Ok(c) => c,
        Err(e) => {
            return Err(e);
        },
    };
    let t = match resolve_name_and_type(pool, name_and_type_index) {
        Ok(t) => t,
        Err(e) => {
            return Err(e);
        },
    };
    let mut out: Vec<char> = Vec::new();
    append_str(&mut out, tag);
    proof {
        assert(out@ =~= tag@);
    }
    pad_field_right(&mut out, 20);
    let mut inline: Vec<char> = Vec::new();
    append_str(&mut inline, "#");
    push_dec_u64(&mut inline, class_index as u64);
    append_str(&mut inline, ".#");
    push_dec_u64(&mut inline, name_and_type_index as u64);
    proof {
        assert(inline@ =~= "#"@ + dec_nat(class_index as int) + ".#"@ + dec_nat(
            name_and_type_index as int,
        ));
    }
    pad_field_right(&mut inline, 16);
    extend_chars(&mut out, &inline);
    append_str(&mut out, "// ");
    extend_chars(&mut out, &c);
    append_str(&mut out, ".");
    extend_chars(&mut out, &t);
    proof {
        assert(out@ =~= spec_ref_entry_text(tag@, class_index, name_and_type_index, c@, t@));
    }
    Ok(out)
}

/// Renders the whole constant-pool block: the header line, then one line
/// per entry, 1-indexed, in pool order.
pub fn format_constant_pool(pool: &Vec<PoolEntry>) -> (r: Result<Vec<char>, RenderError>)
    ensures
        chars_result_v(r) == spec_pool_block(pool_v(pool)),
{
    let ghost pv = pool_v(pool);
    let mut out: Vec<char> = Vec::new();
    append_str(&mut out, "Constant pool:\n");
    let ghost header = "Constant pool:\n"@;
    let ghost mut done: Seq<char> = Seq::empty();
    proof {
        assert(out@ =~= header + done);
        assert(done + spec_pool_lines(pv, 0)->Ok_0 =~= spec_pool_lines(pv, 0)->Ok_0);
    }
    let mut i: usize = 0;
    while i < pool.len()
        invariant
            i <= pool@.len(),
            pv == pool_v(pool),
            pv.len() == pool@.len(),
            out@ == header + done,
            header == "Constant pool:\n"@,
            match spec_pool_lines(pv, i as int) {
                Ok(rest) => spec_pool_lines(pv, 0) == Ok::<Seq<char>, RenderError>(done + rest),
                Err(e) => spec_pool_lines(pv, 0) == Err::<Seq<char>, RenderError>(e),
            },
        decreases pool@.len() - i,
    {
        proof {
            assert(pv[i as int] == pool@[i as int]@);
        }
        let t = match format_constant_pool_entry(pool, &pool[i]) {
            Ok(t) => t,
            Err(e) => {
                proof {
                    assert(spec_pool_lines(pv, i as int) == Err::<Seq<char>, RenderError>(e));
                }
                return Err(e);
            },
        };
        let mut line: Vec<char> = Vec::new();
        let mut idx_field: Vec<char> = Vec::new();
        append_str(&mut idx_field, "#");
        push_dec_u64(&mut idx_field, (i as u64) + 1);
        proof {
            assert(idx_field@ =~= "#"@ + dec_nat(i + 1));
        }
        extend_padded_left(&mut line, &idx_field, 5);
        append_str(&mut line, " = ");
        extend_chars(&mut line, &t);
        append_str(&mut line, "\n");
        proof {
            assert(line@ =~= Seq::empty() + pad_left("#"@ + dec_nat(i + 1), 5) + " = "@ + t@
                + "\n"@);
            assert(line@ =~= pad_left("#"@ + dec_nat(i + 1), 5) + " = "@ + t@ + "\n"@);
            assert(spec_pool_line(pv, i as int) == Ok::<Seq<char>, RenderError>(line@));
        }
        extend_chars(&mut out, &line);
        proof {
            match spec_pool_lines(pv, i + 1) {
                Ok(rest) => {
                    assert((done + line@) + rest =~= done + (line@ + rest));
                },
                Err(e) => {},
            }
        }
        i = i + 1;
        proof {
            done = done + line@;
            assert(out@ =~= header + done);
        }
    }
    proof {
        assert(spec_pool_lines(pv, i as int) == Ok::<Seq<char>, RenderError>(Seq::empty()));
        assert(done + Seq::<char>::empty() =~= done);
        assert(spec_pool_lines(pv, 0) == Ok::<Seq<char>, RenderError>(done));
    }
    Ok(out)
}

} // verus!
