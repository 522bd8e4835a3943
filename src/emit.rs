//! The emitters: one C header per enum, and for a callback interface a C
//! struct of function pointers together with a C++ class that fills it.
use vstd::prelude::*;
use crate::args::{
    c_args_spec, c_generate_args_with_types, call_args_spec, cpp_args_spec,
    cpp_generate_args_to_call_c, cpp_generate_args_with_types,
};
use crate::doc::{c_comments, doc_comments_to_c_comments};
use crate::model::{
    CppForeignMethodSignature, ForeignEnumInfo, ForeignEnumItem, ForeignInterface,
    ForeignInterfaceMethod, ForeignerClassInfo, GeneratedFile,
};
use crate::text::{dec, flatten, lemma_flatten_take, push_decimal};

verus! {

/// The first lines of every generated header.
pub const BANNER: &'static str = "// Automaticaly generated by rust_swig\n#pragma once\n";

/// The name of the C header of an enum or interface called `name`.
pub open spec fn c_header_name(name: Seq<char>) -> Seq<char> {
    "c_"@ + name + ".h"@
}

/// The name of the C++ header of an interface called `name`.
pub open spec fn cpp_header_name(name: Seq<char>) -> Seq<char> {
    name + ".hpp"@
}

/// What ends the member at position `i` of `n`: a blank line after the
/// last one, a comma after every other.
pub open spec fn member_end(i: int, n: int) -> Seq<char> {
    if i == n - 1 {
        "\n"@ + "\n"@
    } else {
        ","@ + "\n"@
    }
}

/// The member of an enum at position `i`, valued `i`.
pub open spec fn enum_member(items: Seq<ForeignEnumItem>, i: int) -> Seq<char> {
    c_comments(items[i].doc_comments@, false) + items[i].name@ + " = "@ + dec(i as nat)
        + member_end(i, items.len() as int)
}

/// The members of an enum, in declaration order.
pub open spec fn enum_members(items: Seq<ForeignEnumItem>) -> Seq<Seq<char>> {
    Seq::new(items.len(), |i: int| enum_member(items, i))
}

/// What comes before the members of an enum.
pub open spec fn enum_prefix(e: ForeignEnumInfo) -> Seq<char> {
    BANNER@ + "\n"@ + c_comments(e.doc_comments@, true) + "\nenum "@ + e.name@ + " {\n"@
}

/// The C header of an enum.
pub open spec fn enum_header(e: ForeignEnumInfo) -> Seq<char> {
    enum_prefix(e) + flatten(enum_members(e.items@)) + "};\n"@
}

/// Generates the C header of an enum: its documentation, then each item
/// valued by its position, in declaration order.
pub fn generate_code_for_enum(enum_info: &ForeignEnumInfo) -> (r: GeneratedFile)
    ensures
        r.file_name@ == c_header_name(enum_info.name@),
        r.content@ == enum_header(*enum_info),
{
    let mut file_name = String::new();
    file_name.append("c_");
    file_name.append(enum_info.name.as_str());
    file_name.append(".h");

    let ghost items = enum_info.items@;
    let ghost parts = enum_members(items);
    let mut file = String::new();
    file.append(BANNER);
    file.append("\n");
    let enum_doc_comments = doc_comments_to_c_comments(&enum_info.doc_comments, true);
    file.append(enum_doc_comments.as_str());
    file.append("\nenum ");
    file.append(enum_info.name.as_str());
    file.append(" {\n");
    let ghost prefix = file@;
    assert(prefix =~= enum_prefix(*enum_info));

    let n = enum_info.items.len();
    let mut i: usize = 0;
    while i < n
        invariant
            n == items.len(),
            items == enum_info.items@,
            parts == enum_members(items),
            i <= n,
            file@ == prefix + flatten(parts.take(i as int)),
        decreases n - i,
    {
        let ghost before = file@;
        let item = &enum_info.items[i];
        let docs = doc_comments_to_c_comments(&item.doc_comments, false);
        file.append(docs.as_str());
        file.append(item.name.as_str());
        file.append(" = ");
        push_decimal(&mut file, i);
        if i == n - 1 {
            file.append("\n");
        } else {
            file.append(",");
        }
        file.append("\n");
        proof {
            assert(file@ =~= before + parts[i as int]);
            lemma_flatten_take(parts, i as int);
        }
        i = i + 1;
    }
    assert(parts.take(n as int) =~= parts);
    file.append("};\n");
    GeneratedFile { file_name, content: file }
}

/// The type of the opaque handle of a foreign class: `<Name>Opaque`.
pub fn c_class_type(class: &ForeignerClassInfo) -> (r: String)
    ensures
        r@ == class.name@ + "Opaque"@,
{
    let mut r = String::new();
    r.append(class.name.as_str());
    r.append("Opaque");
    r
}

/// The message of a failed write: `write failed: <cause>`.
pub fn map_write_err(err: &str) -> (r: String)
    ensures
        r@ == "write failed: "@ + err@,
{
    let mut r = String::new();
    r.append("write failed: ");
    r.append(err);
    r
}


/// The start of the C struct of an interface, up to its method fields.
pub open spec fn c_struct_start(iface: ForeignInterface) -> Seq<char> {
    BANNER@ + c_comments(iface.doc_comments@, true) + "\nstruct C_"@ + iface.name@ + " {\n"@
        + "    void *opaque;\n"@ + "    //! call by Rust side when callback not need anymore\n"@
        + "    void (*C_"@ + iface.name@ + "_deref)(void *opaque);\n    "@
}

/// The function-pointer field of a method; its parameters end with the
/// context pointer.
pub open spec fn c_field(m: ForeignInterfaceMethod, sig: CppForeignMethodSignature) -> Seq<char> {
    "\n"@ + c_comments(m.doc_comments@, false) + "\n    void (*"@ + m.name@ + ")("@
        + c_args_spec(sig.input@, true) + "void *opaque);\n"@
}

/// The fields of the methods, in declaration order.
pub open spec fn c_fields(methods: Seq<ForeignInterfaceMethod>, sigs: Seq<CppForeignMethodSignature>) -> Seq<Seq<char>> {
    Seq::new(methods.len(), |i: int| c_field(methods[i], sigs[i]))
}

/// The C header of an interface.
pub open spec fn c_interface_header(iface: ForeignInterface, sigs: Seq<CppForeignMethodSignature>) -> Seq<char> {
    c_struct_start(iface) + flatten(c_fields(iface.items@, sigs)) + "\n};\n"@
}

/// The pure virtual method of a method.
pub open spec fn virtual_method(m: ForeignInterfaceMethod, sig: CppForeignMethodSignature) -> Seq<char> {
    "\n"@ + c_comments(m.doc_comments@, false) + "\n    virtual void "@ + m.name@ + "("@
        + cpp_args_spec(sig.input@) + ") = 0;\n"@
}

/// The trampoline that releases the instance behind the context pointer.
pub open spec fn deref_trampoline(name: Seq<char>) -> Seq<char> {
    "\n    static void c_"@ + name + "_deref(void *opaque)\n    {\n"@ + "        auto p = static_cast<"@
        + name + " *>(opaque);\n"@ + "        delete p;\n    }\n"@
}

/// The trampoline of a method: it calls the virtual method on the
/// instance behind the context pointer.
pub open spec fn trampoline(name: Seq<char>, m: ForeignInterfaceMethod, sig: CppForeignMethodSignature) -> Seq<char> {
    "\n   static void c_"@ + m.name@ + "("@ + c_args_spec(sig.input@, true) + "void *opaque)\n   {\n"@
        + "        auto p = static_cast<"@ + name + " *>(opaque);\n"@
        + "        assert(p != nullptr);\n"@ + "        p->"@ + m.name@ + "("@
        + call_args_spec(sig.input@) + ");\n   }\n"@
}

/// The statement that binds the deref field to its trampoline.
pub open spec fn deref_binding(name: Seq<char>) -> Seq<char> {
    "\n        ret.C_"@ + name + "_deref = c_"@ + name + "_deref;\n"@
}

/// The statement that binds a method's field to its trampoline.
pub open spec fn binding(m: ForeignInterfaceMethod) -> Seq<char> {
    "        ret."@ + m.name@ + " = c_"@ + m.name@ + ";\n"@
}

/// The virtual methods, in declaration order.
pub open spec fn virtual_methods(methods: Seq<ForeignInterfaceMethod>, sigs: Seq<CppForeignMethodSignature>) -> Seq<Seq<char>> {
    Seq::new(methods.len(), |i: int| virtual_method(methods[i], sigs[i]))
}

/// The trampolines of the methods, in declaration order.
pub open spec fn trampolines(name: Seq<char>, methods: Seq<ForeignInterfaceMethod>, sigs: Seq<CppForeignMethodSignature>) -> Seq<Seq<char>> {
    Seq::new(methods.len(), |i: int| trampoline(name, methods[i], sigs[i]))
}

/// The bindings of the method fields, in declaration order.
pub open spec fn bindings(methods: Seq<ForeignInterfaceMethod>) -> Seq<Seq<char>> {
    Seq::new(methods.len(), |i: int| binding(methods[i]))
}

/// What comes before the namespace in the C++ header.
pub open spec fn cpp_preamble(name: Seq<char>) -> Seq<char> {
    BANNER@ + "\n#include <cassert>\n"@ + "#include \""@ + c_header_name(name) + "\"\n\n"@
}

/// The C++ class of an interface without its closing brace, around the
/// given sections: virtual methods, bindings and trampolines.
pub open spec fn cpp_class_layout(
    iface: ForeignInterface,
    virtuals: Seq<char>,
    binds: Seq<char>,
    reroutes: Seq<char>,
) -> Seq<char> {
    let name = iface.name@;
    c_comments(iface.doc_comments@, true) + "\nclass "@ + name + " {\npublic:\n"@ + "    virtual ~"@ + name
        + "() {}\n"@ + virtuals + "\n    //! @p should be allocated by new\n"@ + "    static C_"@ + name
        + " to_c_interface("@ + name + " *p)\n    {\n        assert(p != nullptr);\n"@ + "        C_"@ + name
        + " ret;\n        ret.opaque = p;\n"@ + deref_binding(name) + binds
        + "\n        return ret;\n    }\nprivate:\n"@ + deref_trampoline(name) + reroutes
}

/// The C++ class of an interface without its closing brace.
pub open spec fn cpp_class_body(iface: ForeignInterface, sigs: Seq<CppForeignMethodSignature>) -> Seq<char> {
    let methods = iface.items@;
    cpp_class_layout(
        iface,
        flatten(virtual_methods(methods, sigs)),
        flatten(bindings(methods)),
        flatten(trampolines(iface.name@, methods, sigs)),
    )
}

/// The C++ class of an interface.
pub open spec fn cpp_class(iface: ForeignInterface, sigs: Seq<CppForeignMethodSignature>) -> Seq<char> {
    cpp_class_body(iface, sigs) + "\n};\n"@
}

/// The C++ header of an interface: the class inside the namespace.
pub open spec fn cpp_interface_header(
    namespace_name: Seq<char>,
    iface: ForeignInterface,
    sigs: Seq<CppForeignMethodSignature>,
) -> Seq<char> {
    cpp_preamble(iface.name@) + "namespace "@ + namespace_name + " {\n"@ + cpp_class(iface, sigs)
        + "} // namespace "@ + namespace_name + "\n"@
}

fn push_c_field(out: &mut String, m: &ForeignInterfaceMethod, sig: &CppForeignMethodSignature)
    ensures
        final(out)@ == old(out)@ + c_field(*m, *sig),
{
    let docs = doc_comments_to_c_comments(&m.doc_comments, false);
    let c_args = c_generate_args_with_types(sig, true).unwrap();
    out.append("\n");
    out.append(docs.as_str());
    out.append("\n    void (*");
    out.append(m.name.as_str());
    out.append(")(");
    out.append(c_args.as_str());
    out.append("void *opaque);\n");
    assert(out@ =~= old(out)@ + c_field(*m, *sig));
}

fn push_virtual_method(out: &mut String, m: &ForeignInterfaceMethod, sig: &CppForeignMethodSignature)
    ensures
        final(out)@ == old(out)@ + virtual_method(*m, *sig),
{
    let docs = doc_comments_to_c_comments(&m.doc_comments, false);
    let cpp_args = cpp_generate_args_with_types(sig).unwrap();
    out.append("\n");
    out.append(docs.as_str());
    out.append("\n    virtual void ");
    out.append(m.name.as_str());
    out.append("(");
    out.append(cpp_args.as_str());
    out.append(") = 0;\n");
    assert(out@ =~= old(out)@ + virtual_method(*m, *sig));
}

fn push_trampoline(out: &mut String, name: &str, m: &ForeignInterfaceMethod, sig: &CppForeignMethodSignature)
    ensures
        final(out)@ == old(out)@ + trampoline(name@, *m, *sig),
{
    let c_args = c_generate_args_with_types(sig, true).unwrap();
    let input_args = cpp_generate_args_to_call_c(sig).unwrap();
    out.append("\n   static void c_");
    out.append(m.name.as_str());
    out.append("(");
    out.append(c_args.as_str());
    out.append("void *opaque)\n   {\n");
    out.append("        auto p = static_cast<");
    out.append(name);
    out.append(" *>(opaque);\n");
    out.append("        assert(p != nullptr);\n");
    out.append("        p->");
    out.append(m.name.as_str());
    out.append("(");
    out.append(input_args.as_str());
    out.append(");\n   }\n");
    assert(out@ =~= old(out)@ + trampoline(name@, *m, *sig));
}

fn push_binding(out: &mut String, m: &ForeignInterfaceMethod)
    ensures
        final(out)@ == old(out)@ + binding(*m),
{
    out.append("        ret.");
    out.append(m.name.as_str());
    out.append(" = c_");
    out.append(m.name.as_str());
    out.append(";\n");
    assert(out@ =~= old(out)@ + binding(*m));
}

/// The per-method sections of both headers: the C fields, the virtual
/// methods, the trampolines and the bindings, each in declaration order.
fn method_sections(
    name: &str,
    methods: &Vec<ForeignInterfaceMethod>,
    sigs: &Vec<CppForeignMethodSignature>,
) -> (r: (String, String, String, String))
    requires
        methods@.len() == sigs@.len(),
    ensures
        r.0@ == flatten(c_fields(methods@, sigs@)),
        r.1@ == flatten(virtual_methods(methods@, sigs@)),
        r.2@ == flatten(trampolines(name@, methods@, sigs@)),
        r.3@ == flatten(bindings(methods@)),
{
    let ghost fields = c_fields(methods@, sigs@);
    let ghost virtuals = virtual_methods(methods@, sigs@);
    let ghost reroutes = trampolines(name@, methods@, sigs@);
    let ghost binds = bindings(methods@);
    let mut c_fields_text = String::new();
    let mut virtuals_text = String::new();
    let mut reroutes_text = String::new();
    let mut binds_text = String::new();
    let n = methods.len();
    let mut i: usize = 0;
    while i < n
        invariant
            n == methods@.len(),
            n == sigs@.len(),
            fields == c_fields(methods@, sigs@),
            virtuals == virtual_methods(methods@, sigs@),
            reroutes == trampolines(name@, methods@, sigs@),
            binds == bindings(methods@),
            i <= n,
            c_fields_text@ == flatten(fields.take(i as int)),
            virtuals_text@ == flatten(virtuals.take(i as int)),
            reroutes_text@ == flatten(reroutes.take(i as int)),
            binds_text@ == flatten(binds.take(i as int)),
        decreases n - i,
    {
        push_c_field(&mut c_fields_text, &methods[i], &sigs[i]);
        push_virtual_method(&mut virtuals_text, &methods[i], &sigs[i]);
        push_trampoline(&mut reroutes_text, name, &methods[i], &sigs[i]);
        push_binding(&mut binds_text, &methods[i]);
        proof {
            lemma_flatten_take(fields, i as int);
            lemma_flatten_take(virtuals, i as int);
            lemma_flatten_take(reroutes, i as int);
            lemma_flatten_take(binds, i as int);
        }
        i = i + 1;
    }
    assert(fields.take(n as int) =~= fields);
    assert(virtuals.take(n as int) =~= virtuals);
    assert(reroutes.take(n as int) =~= reroutes);
    assert(binds.take(n as int) =~= binds);
    (c_fields_text, virtuals_text, reroutes_text, binds_text)
}

fn c_header_text(interface: &ForeignInterface, comments: &str, fields: &str) -> (r: String)
    requires
        comments@ == c_comments(interface.doc_comments@, true),
    ensures
        r@ == c_struct_start(*interface) + fields@ + "\n};\n"@,
{
    let name = interface.name.as_str();
    let mut file_c = String::new();
    file_c.append(BANNER);
    file_c.append(comments);
    file_c.append("\nstruct C_");
    file_c.append(name);
    file_c.append(" {\n");
    file_c.append("    void *opaque;\n");
    file_c.append("    //! call by Rust side when callback not need anymore\n");
    file_c.append("    void (*C_");
    file_c.append(name);
    file_c.append("_deref)(void *opaque);\n    ");
    file_c.append(fields);
    file_c.append("\n};\n");
    assert(file_c@ =~= c_struct_start(*interface) + fields@ + "\n};\n"@);
    file_c
}

#[verifier::rlimit(20)]
fn cpp_class_text(
    interface: &ForeignInterface,
    comments: &str,
    virtuals: &str,
    binds: &str,
    reroutes: &str,
) -> (r: String)
    requires
        comments@ == c_comments(interface.doc_comments@, true),
    ensures
        r@ == cpp_class_layout(*interface, virtuals@, binds@, reroutes@) + "\n};\n"@,
{
    let name = interface.name.as_str();
    let mut out = String::new();
    out.append(comments);
    out.append("\nclass ");
    out.append(name);
    out.append(" {\npublic:\n");
    out.append("    virtual ~");
    out.append(name);
    out.append("() {}\n");
    out.append(virtuals);
    out.append("\n    //! @p should be allocated by new\n");
    out.append("    static C_");
    out.append(name);
    out.append(" to_c_interface(");
    out.append(name);
    out.append(" *p)\n    {\n        assert(p != nullptr);\n");
    out.append("        C_");
    out.append(name);
    out.append(" ret;\n        ret.opaque = p;\n");
    out.append("\n        ret.C_");
    out.append(name);
    out.append("_deref = c_");
    out.append(name);
    out.append("_deref;\n");
    out.append(binds);
    out.append("\n        return ret;\n    }\nprivate:\n");
    out.append("\n    static void c_");
    out.append(name);
    out.append("_deref(void *opaque)\n    {\n");
    out.append("        auto p = static_cast<");
    out.append(name);
    out.append(" *>(opaque);\n");
    out.append("        delete p;\n    }\n");
    out.append(reroutes);
    out.append("\n};\n");
    assert(out@ =~= cpp_class_layout(*interface, virtuals@, binds@, reroutes@) + "\n};\n"@);
    out
}

/// Generates the two headers of a callback interface: the C struct of
/// function pointers (`c_<Name>.h`) and the C++ class that fills it
/// (`<Name>.hpp`). Each method is paired with the signature at the same
/// position; lists of different lengths are refused.
pub fn generate_for_interface(
    namespace_name: &str,
    interface: &ForeignInterface,
    f_methods: &Vec<CppForeignMethodSignature>,
) -> (r: Result<(GeneratedFile, GeneratedFile), String>)
    ensures
        r is Err <==> interface.items@.len() != f_methods@.len(),
        r matches Ok((c, cpp)) ==> {
            &&& c.file_name@ == c_header_name(interface.name@)
            &&& c.content@ == c_interface_header(*interface, f_methods@)
            &&& cpp.file_name@ == cpp_header_name(interface.name@)
            &&& cpp.content@ == cpp_interface_header(namespace_name@, *interface, f_methods@)
        },
{
    if interface.items.len() != f_methods.len() {
        return Err(String::from_str("interface methods and method signatures differ in number"));
    }
    let name = interface.name.as_str();
    let mut c_interface_struct_header = String::new();
    c_interface_struct_header.append("c_");
    c_interface_struct_header.append(name);
    c_interface_struct_header.append(".h");
    let mut cpp_file_name = String::new();
    cpp_file_name.append(name);
    cpp_file_name.append(".hpp");
    assert(c_interface_struct_header@ =~= c_header_name(name@));
    assert(cpp_file_name@ =~= cpp_header_name(name@));

    let interface_comments = doc_comments_to_c_comments(&interface.doc_comments, true);
    let (fields, virtuals, reroutes, binds) = method_sections(name, &interface.items, f_methods);
    let file_c = c_header_text(interface, interface_comments.as_str(), fields.as_str());
    let class = cpp_class_text(
        interface,
        interface_comments.as_str(),
        virtuals.as_str(),
        binds.as_str(),
        reroutes.as_str(),
    );

    let mut file_cpp = String::new();
    file_cpp.append(BANNER);
    file_cpp.append("\n#include <cassert>\n");
    file_cpp.append("#include \"");
    file_cpp.append(c_interface_struct_header.as_str());
    file_cpp.append("\"\n\n");
    file_cpp.append("namespace ");
    file_cpp.append(namespace_name);
    file_cpp.append(" {\n");
    file_cpp.append(class.as_str());
    file_cpp.append("} // namespace ");
    file_cpp.append(namespace_name);
    file_cpp.append("\n");
    assert(file_cpp@ =~= cpp_interface_header(namespace_name@, *interface, f_methods@));
    Ok((
        GeneratedFile { file_name: c_interface_struct_header, content: file_c },
        GeneratedFile { file_name: cpp_file_name, content: file_cpp },
    ))
}

} // verus!
