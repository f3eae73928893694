//! The access-flag formatter.
//!
//! A set of class modifiers becomes a comma-space-joined list of `ACC_*`
//! mnemonics in one fixed canonical order — the enumeration order below —
//! never the order in which the set happens to be stored or iterated.

use vstd::prelude::*;

use crate::model::ClassAccess;
use crate::text::append_str;

verus! {

/// The mnemonic of one class modifier.
pub open spec fn spec_flag_name(f: ClassAccess) -> Seq<char> {
    match f {
        ClassAccess::Public => "ACC_PUBLIC"@,
        ClassAccess::Final => "ACC_FINAL"@,
        ClassAccess::Super => "ACC_SUPER"@,
        ClassAccess::Interface => "ACC_INTERFACE"@,
        ClassAccess::Abstract => "ACC_ABSTRACT"@,
        ClassAccess::Synthetic => "ACC_SYNTHETIC"@,
        ClassAccess::Annotation => "ACC_ANNOTATION"@,
        ClassAccess::Enum => "ACC_ENUM"@,
        ClassAccess::Module => "ACC_MODULE"@,
    }
}

/// The flags present in `s`, listed in the fixed canonical order.  The
/// result depends only on which flags `s` contains, not on their order or
/// multiplicity in `s`.
pub open spec fn spec_canonical_flags(s: Seq<ClassAccess>) -> Seq<ClassAccess> {
    (if s.contains(ClassAccess::Public) {
        seq![ClassAccess::Public]
    } else {
        Seq::empty()
    }) + (if s.contains(ClassAccess::Final) {
        seq![ClassAccess::Final]
    } else {
        Seq::empty()
    }) + (if s.contains(ClassAccess::Super) {
        seq![ClassAccess::Super]
    } else {
        Seq::empty()
    }) + (if s.contains(ClassAccess::Interface) {
        seq![ClassAccess::Interface]
    } else {
        Seq::empty()
    }) + (if s.contains(ClassAccess::Abstract) {
        seq![ClassAccess::Abstract]
    } else {
        Seq::empty()
    }) + (if s.contains(ClassAccess::Synthetic) {
        seq![ClassAccess::Synthetic]
    } else {
        Seq::empty()
    }) + (if s.contains(ClassAccess::Annotation) {
        seq![ClassAccess::Annotation]
    } else {
        Seq::empty()
    }) + (if s.contains(ClassAccess::Enum) {
        seq![ClassAccess::Enum]
    } else {
        Seq::empty()
    }) + (if s.contains(ClassAccess::Module) {
        seq![ClassAccess::Module]
    } else {
        Seq::empty()
    })
}

/// The names of `fs`, joined by `", "`, starting at position `i`.
pub open spec fn spec_joined_names(fs: Seq<ClassAccess>, i: int) -> Seq<char>
    decreases fs.len() - i,
{
    if i < 0 || i >= fs.len() {
        Seq::empty()
    } else if i == fs.len() - 1 {
        spec_flag_name(fs[i])
    } else {
        spec_flag_name(fs[i]) + ", "@ + spec_joined_names(fs, i + 1)
    }
}

/// The canonical comma-space-joined modifier text of the flag set `s`:
/// empty for the empty set, and in the fixed canonical order for any other.
pub open spec fn spec_flags_text(s: Seq<ClassAccess>) -> Seq<char> {
    spec_joined_names(spec_canonical_flags(s), 0)
}

/// The formatted modifier order is canonical, not storage order: two flag
/// collections holding the same flags — in any order, with any repetition —
/// render as the same text.
pub proof fn lemma_flags_text_order_independent(a: Seq<ClassAccess>, b: Seq<ClassAccess>)
    requires
        forall|f: ClassAccess| a.contains(f) <==> b.contains(f),
    ensures
        spec_flags_text(a) == spec_flags_text(b),
{
    assert(a.contains(ClassAccess::Public) <==> b.contains(ClassAccess::Public));
    assert(a.contains(ClassAccess::Final) <==> b.contains(ClassAccess::Final));
    assert(a.contains(ClassAccess::Super) <==> b.contains(ClassAccess::Super));
    assert(a.contains(ClassAccess::Interface) <==> b.contains(ClassAccess::Interface));
    assert(a.contains(ClassAccess::Abstract) <==> b.contains(ClassAccess::Abstract));
    assert(a.contains(ClassAccess::Synthetic) <==> b.contains(ClassAccess::Synthetic));
    assert(a.contains(ClassAccess::Annotation) <==> b.contains(ClassAccess::Annotation));
    assert(a.contains(ClassAccess::Enum) <==> b.contains(ClassAccess::Enum));
    assert(a.contains(ClassAccess::Module) <==> b.contains(ClassAccess::Module));
}

/// The mnemonic of one class modifier.
pub fn access_flag_to_name(f: &ClassAccess) -> (r: &'static str)
    ensures
        r@ == spec_flag_name(*f),
{
    match f {
        ClassAccess::Public => "ACC_PUBLIC",
        ClassAccess::Final => "ACC_FINAL",
        ClassAccess::Super => "ACC_SUPER",
        ClassAccess::Interface => "ACC_INTERFACE",
        ClassAccess::Abstract => "ACC_ABSTRACT",
        ClassAccess::Synthetic => "ACC_SYNTHETIC",
        ClassAccess::Annotation => "ACC_ANNOTATION",
        ClassAccess::Enum => "ACC_ENUM",
        ClassAccess::Module => "ACC_MODULE",
    }
}

/// Whether `flags` holds `f`.
fn has_flag(flags: &Vec<ClassAccess>, f: ClassAccess) -> (r: bool)
    ensures
        r == flags@.contains(f),
{
    let mut i: usize = 0;
    while i < flags.len()
        invariant
            i <= flags@.len(),
            forall|j: int| 0 <= j < i ==> flags@[j] != f,
        decreases flags@.len() - i,
    {
        if flags[i] == f {
            return true;
        }
        i = i + 1;
    }
    false
}

/// Collects the flags of `flags` in the fixed canonical order, each at most
/// once.
#[verifier::rlimit(100)]
fn canonical_flags(flags: &Vec<ClassAccess>) -> (r: Vec<ClassAccess>)
    ensures
        r@ == spec_canonical_flags(flags@),
{
    let ghost s = flags@;
    let ghost p1: Seq<ClassAccess> = if s.contains(ClassAccess::Public) {
        seq![ClassAccess::Public]
    } else {
        Seq::empty()
    };
    let ghost p2: Seq<ClassAccess> = if s.contains(ClassAccess::Final) {
        seq![ClassAccess::Final]
    } else {
        Seq::empty()
    };
    let ghost p3: Seq<ClassAccess> = if s.contains(ClassAccess::Super) {
        seq![ClassAccess::Super]
    } else {
        Seq::empty()
    };
    let ghost p4: Seq<ClassAccess> = if s.contains(ClassAccess::Interface) {
        seq![ClassAccess::Interface]
    } else {
        Seq::empty()
    };
    let ghost p5: Seq<ClassAccess> = if s.contains(ClassAccess::Abstract) {
        seq![ClassAccess::Abstract]
    } else {
        Seq::empty()
    };
    let ghost p6: Seq<ClassAccess> = if s.contains(ClassAccess::Synthetic) {
        seq![ClassAccess::Synthetic]
    } else {
        Seq::empty()
    };
    let ghost p7: Seq<ClassAccess> = if s.contains(ClassAccess::Annotation) {
        seq![ClassAccess::Annotation]
    } else {
        Seq::empty()
    };
    let ghost p8: Seq<ClassAccess> = if s.contains(ClassAccess::Enum) {
        seq![ClassAccess::Enum]
    } else {
        Seq::empty()
    };
    let ghost p9: Seq<ClassAccess> = if s.contains(ClassAccess::Module) {
        seq![ClassAccess::Module]
    } else {
        Seq::empty()
    };
    let mut r: Vec<ClassAccess> = Vec::new();
    if has_flag(flags, ClassAccess::Public) {
        r.push(ClassAccess::Public);
    }
    proof {
        assert(r@ =~= p1);
    }
    if has_flag(flags, ClassAccess::Final) {
        r.push(ClassAccess::Final);
    }
    proof {
        assert(r@ =~= p1 + p2);
    }
    if has_flag(flags, ClassAccess::Super) {
        r.push(ClassAccess::Super);
    }
    proof {
        assert(r@ =~= p1 + p2 + p3);
    }
    if has_flag(flags, ClassAccess::Interface) {
        r.push(ClassAccess::Interface);
    }
    proof {
        assert(r@ =~= p1 + p2 + p3 + p4);
    }
    if has_flag(flags, ClassAccess::Abstract) {
        r.push(ClassAccess::Abstract);
    }
    proof {
        assert(r@ =~= p1 + p2 + p3 + p4 + p5);
    }
    if has_flag(flags, ClassAccess::Synthetic) {
        r.push(ClassAccess::Synthetic);
    }
    proof {
        assert(r@ =~= p1 + p2 + p3 + p4 + p5 + p6);
    }
    if has_flag(flags, ClassAccess::Annotation) {
        r.push(ClassAccess::Annotation);
    }
    proof {
        assert(r@ =~= p1 + p2 + p3 + p4 + p5 + p6 + p7);
    }
    if has_flag(flags, ClassAccess::Enum) {
        r.push(ClassAccess::Enum);
    }
    proof {
        assert(r@ =~= p1 + p2 + p3 + p4 + p5 + p6 + p7 + p8);
    }
    if has_flag(flags, ClassAccess::Module) {
        r.push(ClassAccess::Module);
    }
    proof {
        assert(r@ =~= p1 + p2 + p3 + p4 + p5 + p6 + p7 + p8 + p9);
        assert(spec_canonical_flags(s) == p1 + p2 + p3 + p4 + p5 + p6 + p7 + p8 + p9);
    }
    r
}

/// Renders the flag set as its canonical comma-space-joined modifier list.
pub fn format_access_flags(flags: &Vec<ClassAccess>) -> (r: Vec<char>)
    ensures
        r@ == spec_flags_text(flags@),
{
    let fs = canonical_flags(flags);
    let mut out: Vec<char> = Vec::new();
    let mut i: usize = 0;
    while i < fs.len()
        invariant
            i <= fs@.len(),
            out@ + spec_joined_names(fs@, i as int) == spec_joined_names(fs@, 0),
        decreases fs@.len() - i,
    {
        append_str(&mut out, access_flag_to_name(&fs[i]));
        if i + 1 < fs.len() {
            append_str(&mut out, ", ");
        }
        proof {
            assert(out@ + spec_joined_names(fs@, i + 1) =~= spec_joined_names(fs@, 0));
        }
        i = i + 1;
    }
    proof {
        assert(out@ =~= spec_joined_names(fs@, 0));
    }
    out
}

} // verus!
