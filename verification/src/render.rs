//! The disassembler orchestrator.
//!
//! One class model becomes one fixed sequence of lines: the `Classfile`
//! header with the caller-supplied absolute path, the optional
//! `Compiled from` line, the class declaration, the version numbers, the
//! access-flags line, the constant pool, a brace-delimited method section in
//! declaration order, and the optional trailing `SourceFile` line repeating
//! the same source-file name.  Nothing is reordered, filtered or paginated;
//! the first error aborts the whole render.

use vstd::prelude::*;

use crate::flags::{format_access_flags, spec_flags_text};
use crate::method::{format_method, spec_method_text};
use crate::model::{ClassModel, ClassModelV, MethodV, PoolEntryV, RenderError};
use crate::pool::{chars_result_v, format_constant_pool, pool_v, spec_pool_block};
use crate::text::{append_str, chars_to_string, dec_nat, extend_chars, push_dec_u64};

verus! {

/// The optional `Compiled from` line: present exactly when the model names
/// a source file.
pub open spec fn spec_compiled_from(source_file: Option<Seq<char>>) -> Seq<char> {
    match source_file {
        Some(s) => "  Compiled from: \""@ + s + "\"\n"@,
        None => Seq::empty(),
    }
}

/// The optional trailing `SourceFile` line: present exactly when the model
/// names a source file, repeating the same name.
pub open spec fn spec_source_trailer(source_file: Option<Seq<char>>) -> Seq<char> {
    match source_file {
        Some(s) => "SourceFile: \""@ + s + "\"\n"@,
        None => Seq::empty(),
    }
}

/// Everything above the constant pool: the `Classfile` path header, the
/// optional `Compiled from` line, the class declaration, the two version
/// lines, and the access-flags line.
pub open spec fn spec_class_header(path: Seq<char>, m: ClassModelV) -> Seq<char> {
    "Classfile "@ + path + "\n"@ + spec_compiled_from(m.source_file) + "class "@ + m.class_name
        + "\n"@ + "  minor version: "@ + dec_nat(m.minor_version as int) + "\n"@
        + "  major version: "@ + dec_nat(m.major_version as int) + "\n"@ + "  flags: "@
        + spec_flags_text(m.access_flags) + "\n"@
}

/// The method texts from position `i` on, in declaration order.
pub open spec fn spec_methods_text(
    pool: Seq<PoolEntryV>,
    class_name: Seq<char>,
    methods: Seq<MethodV>,
    i: int,
) -> Result<Seq<char>, RenderError>
    decreases methods.len() - i,
{
    if i < 0 || i >= methods.len() {
        Ok(Seq::empty())
    } else {
        match spec_method_text(pool, class_name, methods[i]) {
            Ok(t) => match spec_methods_text(pool, class_name, methods, i + 1) {
                Ok(rest) => Ok(t + rest),
                Err(e) => Err(e),
            },
            Err(e) => Err(e),
        }
    }
}

/// The whole disassembly of one class, rendered against the given absolute
/// path: header block, constant pool, `{`, the methods, `}`, and the
/// optional `SourceFile` trailer.  The first failure — in pool order, then
/// in method order — aborts the whole text.
pub open spec fn spec_render_class(path: Seq<char>, m: ClassModelV) -> Result<
    Seq<char>,
    RenderError,
> {
    match spec_pool_block(m.constant_pool) {
        Ok(pb) => match spec_methods_text(m.constant_pool, m.class_name, m.methods, 0) {
            Ok(ms) => Ok(
                spec_class_header(path, m) + pb + "{\n"@ + ms + "}\n"@ + spec_source_trailer(
                    m.source_file,
                ),
            ),
            Err(e) => Err(e),
        },
        Err(e) => Err(e),
    }
}

/// Rendering is deterministic: the text is a function of the path and the
/// class model alone, with nothing time- or iteration-order-dependent, so
/// rendering the same model twice gives byte-identical output.
pub proof fn lemma_render_deterministic(path: Seq<char>, m1: ClassModelV, m2: ClassModelV)
    requires
        m1 == m2,
    ensures
        spec_render_class(path, m1) == spec_render_class(path, m2),
{
}

/// Renders the whole disassembly of `model` as a character buffer.
#[verifier::rlimit(100)]
pub fn render_class_chars(path: &str, model: &ClassModel) -> (r: Result<Vec<char>, RenderError>)
    ensures
        chars_result_v(r) == spec_render_class(path@, model@),
{
    let ghost mv = model@;
    let ghost pv = pool_v(&model.constant_pool);
    proof {
        assert(mv.constant_pool =~= pv);
    }
    let mut out: Vec<char> = Vec::new();
    append_str(&mut out, "Classfile ");
    append_str(&mut out, path);
    append_str(&mut out, "\n");
    match &model.source_file {
        Some(sf) => {
            append_str(&mut out, "  Compiled from: \"");
            extend_chars(&mut out, sf);
            append_str(&mut out, "\"\n");
        },
        None => {},
    }
    proof {
        assert(out@ =~= "Classfile "@ + path@ + "\n"@ + spec_compiled_from(mv.source_file));
    }
    append_str(&mut out, "class ");
    extend_chars(&mut out, &model.class_name);
    append_str(&mut out, "\n");
    append_str(&mut out, "  minor version: ");
    push_dec_u64(&mut out, model.minor_version as u64);
    append_str(&mut out, "\n");
    append_str(&mut out, "  major version: ");
    push_dec_u64(&mut out, model.major_version as u64);
    append_str(&mut out, "\n");
    append_str(&mut out, "  flags: ");
    let flags_text = format_access_flags(&model.access_flags);
    extend_chars(&mut out, &flags_text);
    append_str(&mut out, "\n");
    proof {
        assert(out@ =~= spec_class_header(path@, mv));
    }
    let pb = match format_constant_pool(&model.constant_pool) {
        Ok(pb) => pb,
        Err(e) => {
            return Err(e);
        },
    };
    extend_chars(&mut out, &pb);
    append_str(&mut out, "{\n");
    let ghost before_methods = out@;
    proof {
        assert(before_methods =~= spec_class_header(path@, mv) + pb@ + "{\n"@);
    }
    let ghost mut done: Seq<char> = Seq::empty();
    proof {
        match spec_methods_text(pv, mv.class_name, mv.methods, 0) {
            Ok(rest) => {
                assert(done + rest =~= rest);
            },
            Err(e) => {},
        }
    }
    let mut i: usize = 0;
    while i < model.methods.len()
        invariant
            i <= model.methods@.len(),
            mv == model@,
            pv == pool_v(&model.constant_pool),
            mv.constant_pool == pv,
            mv.methods.len() == model.methods@.len(),
            spec_pool_block(pv) == Ok::<Seq<char>, RenderError>(pb@),
            before_methods == spec_class_header(path@, mv) + pb@ + "{\n"@,
            out@ == before_methods + done,
            match spec_methods_text(pv, mv.class_name, mv.methods, i as int) {
                Ok(rest) => spec_methods_text(pv, mv.class_name, mv.methods, 0) == Ok::<
                    Seq<char>,
                    RenderError,
                >(done + rest),
                Err(e) => spec_methods_text(pv, mv.class_name, mv.methods, 0) == Err::<
                    Seq<char>,
                    RenderError,
                >(e),
            },
        decreases model.methods@.len() - i,
    {
        proof {
            assert(mv.methods[i as int] == model.methods@[i as int]@);
        }
        let t = match format_method(&model.constant_pool, &model.class_name, &model.methods[i]) {
            Ok(t) => t,
            Err(e) => {
                proof {
                    assert(spec_methods_text(pv, mv.class_name, mv.methods, i as int) == Err::<
                        Seq<char>,
                        RenderError,
                    >(e));
                }
                return Err(e);
            },
        };
        extend_chars(&mut out, &t);
        proof {
            match spec_methods_text(pv, mv.class_name, mv.methods, i as int + 1) {
                Ok(rest) => {
                    assert((done + t@) + rest =~= done + (t@ + rest));
                },
                Err(e) => {},
            }
        }
        i = i + 1;
        proof {
            done = done + t@;
            assert(out@ =~= before_methods + done);
        }
    }
    proof {
        assert(done + Seq::<char>::empty() =~= done);
        assert(spec_methods_text(pv, mv.class_name, mv.methods, 0) == Ok::<Seq<char>, RenderError>(
            done,
        ));
    }
    append_str(&mut out, "}\n");
    match &model.source_file {
        Some(sf) => {
            append_str(&mut out, "SourceFile: \"");
            extend_chars(&mut out, sf);
            append_str(&mut out, "\"\n");
        },
        None => {},
    }
    proof {
        assert(out@ =~= spec_class_header(path@, mv) + pb@ + "{\n"@ + done + "}\n"@
            + spec_source_trailer(mv.source_file));
    }
    Ok(out)
}

/// Renders the whole disassembly of `model` against the given absolute
/// path, as the final output text.
pub fn render_class(path: &str, model: &ClassModel) -> (r: Result<String, RenderError>)
    ensures
        match r {
            Ok(s) => spec_render_class(path@, model@) == Ok::<Seq<char>, RenderError>(s@),
            Err(e) => spec_render_class(path@, model@) == Err::<Seq<char>, RenderError>(e),
        },
{
    match render_class_chars(path, model) {
        Ok(v) => Ok(chars_to_string(&v)),
        Err(e) => Err(e),
    }
}

} // verus!
