//! Laws of the generated text, stated over the specifications of the
//! emitters.
use vstd::prelude::*;
use crate::args::{arg_name, call_arg, first_at, occurs_at, substitute_first, FROM_VAR_TEMPLATE};
use crate::doc::c_comments;
use crate::emit::{
    c_field, c_fields, c_interface_header, c_struct_start, cpp_class, cpp_class_body,
    cpp_interface_header,
    cpp_preamble, enum_header, enum_members, enum_prefix,
};
use crate::model::{CppForeignMethodSignature, CppForeignTypeInfo, ForeignEnumInfo, ForeignInterface};
use crate::text::{dec, flatten};
use crate::write_cache::write_needed;

verus! {

/// `s` ends with `p`.
pub open spec fn ends_with(s: Seq<char>, p: Seq<char>) -> bool {
    p.len() <= s.len() && s.skip(s.len() - p.len()) == p
}

proof fn lemma_ends_with_concat(a: Seq<char>, p: Seq<char>)
    ensures
        ends_with(a + p, p),
{
    assert((a + p).skip((a + p).len() - p.len()) =~= p);
}

/// The header of an enum with `n` items holds `n` members in declaration
/// order; member `i` is the item's documentation, its name, ` = `, the
/// value `i`, and a comma, but the last, which is followed by a blank line.
pub proof fn lemma_enum_members(e: ForeignEnumInfo)
    ensures
        enum_header(e) == enum_prefix(e) + flatten(enum_members(e.items@)) + "};\n"@,
        enum_members(e.items@).len() == e.items@.len(),
        forall|i: int|
            0 <= i < e.items@.len() ==> #[trigger] enum_members(e.items@)[i] == c_comments(
                e.items@[i].doc_comments@,
                false,
            ) + e.items@[i].name@ + " = "@ + dec(i as nat) + if i == e.items@.len() - 1 {
                "\n"@ + "\n"@
            } else {
                ","@ + "\n"@
            },
{
}

/// The C struct of an interface with `k` methods holds the context pointer,
/// the deref field and then `k` method fields in declaration order, each
/// of whose parameter lists ends with the context pointer.
pub proof fn lemma_c_struct_fields(iface: ForeignInterface, sigs: Seq<CppForeignMethodSignature>)
    requires
        iface.items@.len() == sigs.len(),
    ensures
        c_interface_header(iface, sigs) == c_struct_start(iface) + flatten(c_fields(iface.items@, sigs))
            + "\n};\n"@,
        ends_with(c_struct_start(iface), "    void (*C_"@ + iface.name@ + "_deref)(void *opaque);\n    "@),
        c_fields(iface.items@, sigs).len() == sigs.len(),
        forall|i: int|
            0 <= i < sigs.len() ==> ends_with(#[trigger] c_fields(iface.items@, sigs)[i], "void *opaque);\n"@),
{
    let tail = "    void (*C_"@ + iface.name@ + "_deref)(void *opaque);\n    "@;
    assert(c_struct_start(iface) =~= struct_head(iface) + tail);
    lemma_ends_with_concat(struct_head(iface), tail);
    assert forall|i: int| 0 <= i < sigs.len() implies ends_with(
        #[trigger] c_fields(iface.items@, sigs)[i],
        "void *opaque);\n"@,
    ) by {
        let m = iface.items@[i];
        let sig = sigs[i];
        let head = "\n"@ + c_comments(m.doc_comments@, false) + "\n    void (*"@ + m.name@ + ")("@
            + crate::args::c_args_spec(sig.input@, true);
        assert(c_field(m, sig) =~= head + "void *opaque);\n"@);
        lemma_ends_with_concat(head, "void *opaque);\n"@);
    }
}

/// What precedes the deref field in the C struct of an interface.
pub open spec fn struct_head(iface: ForeignInterface) -> Seq<char> {
    crate::emit::BANNER@ + c_comments(iface.doc_comments@, true) + "\nstruct C_"@ + iface.name@ + " {\n"@
        + "    void *opaque;\n"@ + "    //! call by Rust side when callback not need anymore\n"@
}

/// An argument without conversion is forwarded as `a_<i>`; one with a
/// conversion as its template with the first placeholder replaced by
/// `a_<i>` and all else, later placeholders included, kept as it is.
pub proof fn lemma_call_arg(args: Seq<CppForeignTypeInfo>, i: int)
    requires
        0 <= i < args.len(),
    ensures
        args[i].cpp_converter is None ==> call_arg(args, i) == arg_name(i as nat),
        args[i].cpp_converter matches Some(conv) ==> forall|p: int|
            #[trigger] first_at(conv.input_converter@, FROM_VAR_TEMPLATE@, p) ==> call_arg(args, i)
                == conv.input_converter@.take(p) + arg_name(i as nat)
                + conv.input_converter@.skip(p + FROM_VAR_TEMPLATE@.len()),
        args[i].cpp_converter matches Some(conv) ==> (forall|p: int|
            !occurs_at(conv.input_converter@, FROM_VAR_TEMPLATE@, p)) ==> call_arg(args, i)
            == conv.input_converter@,
{
    if let Some(conv) = args[i].cpp_converter {
        let t = conv.input_converter@;
        let pat = FROM_VAR_TEMPLATE@;
        assert forall|p: int| #[trigger] first_at(t, pat, p) implies substitute_first(t, pat, arg_name(i as nat))
            == t.take(p) + arg_name(i as nat) + t.skip(p + pat.len()) by {
            let c = choose|q: int| first_at(t, pat, q);
            assert(c == p) by {
                if c < p {
                    assert(!occurs_at(t, pat, c));
                } else if c > p {
                    assert(!occurs_at(t, pat, p));
                }
            }
        }
        if forall|p: int| !occurs_at(t, pat, p) {
            assert(!exists|p: int| first_at(t, pat, p));
        }
    }
}

/// The C++ header holds the class once, inside one opening and one
/// closing line of the requested namespace.
pub proof fn lemma_namespace_encloses_class(
    namespace_name: Seq<char>,
    iface: ForeignInterface,
    sigs: Seq<CppForeignMethodSignature>,
)
    ensures
        cpp_interface_header(namespace_name, iface, sigs) == cpp_preamble(iface.name@) + "namespace "@
            + namespace_name + " {\n"@ + cpp_class(iface, sigs) + "} // namespace "@ + namespace_name
            + "\n"@,
        ends_with(cpp_class(iface, sigs), "\n};\n"@),
{
    lemma_ends_with_concat(cpp_class_body(iface, sigs), "\n};\n"@);
}

/// Generating the same descriptors again gives the same text, so a second
/// write of what the first stored is skipped.
pub proof fn lemma_second_write_skipped(
    namespace_name: Seq<char>,
    iface: ForeignInterface,
    sigs: Seq<CppForeignMethodSignature>,
    e: ForeignEnumInfo,
)
    ensures
        !write_needed(Some(c_interface_header(iface, sigs)), c_interface_header(iface, sigs)),
        !write_needed(
            Some(cpp_interface_header(namespace_name, iface, sigs)),
            cpp_interface_header(namespace_name, iface, sigs),
        ),
        !write_needed(Some(enum_header(e)), enum_header(e)),
{
}

} // verus!
