use swig_cpp_gen::block_comment::is_strippable_block;
use swig_cpp_gen::{
    c_class_type, c_generate_args_with_types, cpp_generate_args_to_call_c,
    cpp_generate_args_with_types, decimal, doc_comments_to_c_comments, generate_code_for_enum,
    generate_for_interface, map_write_err, update_needed, CppConverter, CppForeignMethodSignature,
    CppForeignTypeInfo, ForeignEnumInfo, ForeignEnumItem, ForeignInterface, ForeignInterfaceMethod,
    ForeignerClassInfo,
};

fn raw(name: &str) -> CppForeignTypeInfo {
    CppForeignTypeInfo { name: name.to_string(), cpp_converter: None }
}

fn converted(name: &str, typename: &str, template: &str) -> CppForeignTypeInfo {
    CppForeignTypeInfo {
        name: name.to_string(),
        cpp_converter: Some(CppConverter {
            typename: typename.to_string(),
            input_converter: template.to_string(),
        }),
    }
}

fn sig(input: Vec<CppForeignTypeInfo>) -> CppForeignMethodSignature {
    CppForeignMethodSignature { input }
}

fn method(name: &str, docs: &[&str]) -> ForeignInterfaceMethod {
    ForeignInterfaceMethod {
        name: name.to_string(),
        doc_comments: docs.iter().map(|s| s.to_string()).collect(),
    }
}

fn listener() -> (ForeignInterface, Vec<CppForeignMethodSignature>) {
    let iface = ForeignInterface {
        name: "Listener".to_string(),
        items: vec![method("on_event", &[])],
        doc_comments: vec![],
    };
    (iface, vec![sig(vec![raw("int32_t")])])
}

fn color_enum() -> ForeignEnumInfo {
    ForeignEnumInfo {
        name: "Color".to_string(),
        items: vec![
            ForeignEnumItem { name: "Red".to_string(), doc_comments: vec![] },
            ForeignEnumItem { name: "Green".to_string(), doc_comments: vec![] },
            ForeignEnumItem { name: "Blue".to_string(), doc_comments: vec![] },
        ],
        doc_comments: vec!["/// Colours.".to_string()],
    }
}

#[test]
fn decimal_renders_numbers() {
    assert_eq!(decimal(0), "0");
    assert_eq!(decimal(7), "7");
    assert_eq!(decimal(10), "10");
    assert_eq!(decimal(4096), "4096");
    assert_eq!(decimal(usize::MAX), usize::MAX.to_string());
}

#[test]
fn doc_comments_top_level() {
    let docs = vec!["/// First line".to_string(), "//! second".to_string()];
    assert_eq!(doc_comments_to_c_comments(&docs, true), "// First line\n// second");
}

#[test]
fn doc_comments_member_level() {
    let docs = vec!["/// a".to_string(), "///! b".to_string(), "// c".to_string()];
    assert_eq!(doc_comments_to_c_comments(&docs, false), "    // a\n    // b\n    // c");
}

#[test]
fn doc_comments_empty() {
    assert_eq!(doc_comments_to_c_comments(&vec![], true), "");
    assert_eq!(doc_comments_to_c_comments(&vec![], false), "");
}

#[test]
fn doc_comments_undecorated_line_kept() {
    let docs = vec!["plain".to_string()];
    assert_eq!(doc_comments_to_c_comments(&docs, true), "//plain");
}

#[test]
fn c_args_plain_and_trailing_comma() {
    let s = sig(vec![raw("int32_t"), converted("const char *", "std::string", "std::string({from_var})")]);
    assert_eq!(c_generate_args_with_types(&s, false).unwrap(), "int32_t a_0, const char * a_1");
    assert_eq!(c_generate_args_with_types(&s, true).unwrap(), "int32_t a_0, const char * a_1, ");
}

#[test]
fn c_args_empty_has_no_comma() {
    let s = sig(vec![]);
    assert_eq!(c_generate_args_with_types(&s, true).unwrap(), "");
    assert_eq!(c_generate_args_with_types(&s, false).unwrap(), "");
}

#[test]
fn cpp_args_use_converted_type() {
    let s = sig(vec![raw("int32_t"), converted("const char *", "std::string", "std::string({from_var})")]);
    assert_eq!(cpp_generate_args_with_types(&s).unwrap(), "int32_t a_0, std::string a_1");
    assert_eq!(cpp_generate_args_with_types(&sig(vec![])).unwrap(), "");
}

#[test]
fn call_args_bare_identifier_without_conversion() {
    let s = sig(vec![raw("int32_t"), raw("double")]);
    assert_eq!(cpp_generate_args_to_call_c(&s).unwrap(), "a_0, a_1");
}

#[test]
fn call_args_substitute_placeholder() {
    let s = sig(vec![raw("int32_t"), converted("const char *", "std::string", "std::string({from_var})")]);
    assert_eq!(cpp_generate_args_to_call_c(&s).unwrap(), "a_0, std::string(a_1)");
}

#[test]
fn call_args_substitute_first_placeholder_only() {
    let s = sig(vec![converted("T", "U", "f({from_var}, {from_var}, {other})")]);
    assert_eq!(cpp_generate_args_to_call_c(&s).unwrap(), "f(a_0, {from_var}, {other})");
}

#[test]
fn call_args_template_without_placeholder_kept() {
    let s = sig(vec![converted("T", "U", "g()")]);
    assert_eq!(cpp_generate_args_to_call_c(&s).unwrap(), "g()");
}

#[test]
fn enum_members_sequential() {
    let file = generate_code_for_enum(&color_enum());
    assert_eq!(file.file_name, "c_Color.h");
    assert_eq!(
        file.content,
        "// Automaticaly generated by rust_swig\n#pragma once\n\n// Colours.\nenum Color {\nRed = 0,\nGreen = 1,\nBlue = 2\n\n};\n"
    );
}

#[test]
fn enum_single_item_and_member_docs() {
    let e = ForeignEnumInfo {
        name: "Mode".to_string(),
        items: vec![ForeignEnumItem { name: "Only".to_string(), doc_comments: vec!["/// one".to_string()] }],
        doc_comments: vec![],
    };
    let file = generate_code_for_enum(&e);
    assert_eq!(
        file.content,
        "// Automaticaly generated by rust_swig\n#pragma once\n\n\nenum Mode {\n    // oneOnly = 0\n\n};\n"
    );
}

#[test]
fn enum_empty() {
    let e = ForeignEnumInfo { name: "Nothing".to_string(), items: vec![], doc_comments: vec![] };
    let file = generate_code_for_enum(&e);
    assert_eq!(
        file.content,
        "// Automaticaly generated by rust_swig\n#pragma once\n\n\nenum Nothing {\n};\n"
    );
}

#[test]
fn listener_scenario() {
    let (iface, sigs) = listener();
    let (c, cpp) = generate_for_interface("ns", &iface, &sigs).unwrap();
    assert_eq!(c.file_name, "c_Listener.h");
    assert_eq!(cpp.file_name, "Listener.hpp");
    assert_eq!(
        c.content,
        "// Automaticaly generated by rust_swig\n#pragma once\n\nstruct C_Listener {\n    void *opaque;\n    //! call by Rust side when callback not need anymore\n    void (*C_Listener_deref)(void *opaque);\n    \n\n    void (*on_event)(int32_t a_0, void *opaque);\n\n};\n"
    );
    assert!(cpp.content.contains("    virtual void on_event(int32_t a_0) = 0;\n"));
    assert!(cpp.content.contains("        p->on_event(a_0);\n"));
    assert!(cpp.content.contains("   static void c_on_event(int32_t a_0, void *opaque)\n"));
    assert!(cpp.content.contains("        ret.on_event = c_on_event;\n"));
    assert!(cpp.content.contains("        ret.C_Listener_deref = c_Listener_deref;\n"));
    assert!(cpp.content.contains("    static void c_Listener_deref(void *opaque)\n"));
    assert!(cpp.content.contains("#include \"c_Listener.h\"\n"));
}

#[test]
fn interface_fields_per_method() {
    let iface = ForeignInterface {
        name: "Observer".to_string(),
        items: vec![method("a", &["/// first"]), method("b", &[]), method("c", &[])],
        doc_comments: vec!["/// Observes.".to_string()],
    };
    let sigs = vec![sig(vec![]), sig(vec![raw("int")]), sig(vec![raw("int"), raw("bool")])];
    let (c, cpp) = generate_for_interface("app", &iface, &sigs).unwrap();
    assert!(c.content.contains("\n    // first\n    void (*a)(void *opaque);\n"));
    assert!(c.content.contains("void (*b)(int a_0, void *opaque);"));
    assert!(c.content.contains("void (*c)(int a_0, bool a_1, void *opaque);"));
    assert_eq!(c.content.matches("void *opaque);").count(), 4);
    assert!(c.content.contains("// Observes.\nstruct C_Observer {"));
    assert!(cpp.content.contains("virtual void a() = 0;"));
    assert!(cpp.content.contains("p->c(a_0, a_1);"));
}

#[test]
fn interface_namespace_encloses_class_once() {
    let (iface, sigs) = listener();
    let (_, cpp) = generate_for_interface("my_space", &iface, &sigs).unwrap();
    assert_eq!(cpp.content.matches("namespace my_space {\n").count(), 1);
    assert_eq!(cpp.content.matches("} // namespace my_space\n").count(), 1);
    assert_eq!(cpp.content.matches("class Listener {").count(), 1);
    let open = cpp.content.find("namespace my_space {").unwrap();
    let class = cpp.content.find("class Listener {").unwrap();
    let close = cpp.content.find("} // namespace my_space").unwrap();
    assert!(open < class && class < close);
    assert!(cpp.content.ends_with("\n};\n} // namespace my_space\n"));
}

#[test]
fn interface_conversion_in_trampoline() {
    let iface = ForeignInterface {
        name: "Sink".to_string(),
        items: vec![method("put", &[])],
        doc_comments: vec![],
    };
    let sigs = vec![sig(vec![converted("const char *", "std::string", "std::string({from_var})")])];
    let (c, cpp) = generate_for_interface("ns", &iface, &sigs).unwrap();
    assert!(c.content.contains("void (*put)(const char * a_0, void *opaque);"));
    assert!(cpp.content.contains("virtual void put(std::string a_0) = 0;"));
    assert!(cpp.content.contains("p->put(std::string(a_0));"));
}

#[test]
fn interface_length_mismatch_is_error() {
    let (iface, _) = listener();
    assert!(generate_for_interface("ns", &iface, &vec![]).is_err());
    let two = vec![sig(vec![]), sig(vec![])];
    assert!(generate_for_interface("ns", &iface, &two).is_err());
}

#[test]
fn generation_is_idempotent() {
    let (iface, sigs) = listener();
    let (c1, cpp1) = generate_for_interface("ns", &iface, &sigs).unwrap();
    let (c2, cpp2) = generate_for_interface("ns", &iface, &sigs).unwrap();
    assert_eq!(c1.content, c2.content);
    assert_eq!(cpp1.content, cpp2.content);
    assert!(update_needed(None, &c1.content));
    assert!(!update_needed(Some(&c1.content), &c2.content));
    assert!(!update_needed(Some(&cpp1.content), &cpp2.content));
    let e1 = generate_code_for_enum(&color_enum());
    let e2 = generate_code_for_enum(&color_enum());
    assert_eq!(e1.content, e2.content);
    assert!(!update_needed(Some(&e1.content), &e2.content));
}

#[test]
fn update_needed_on_change() {
    assert!(update_needed(Some("old"), "new"));
    assert!(!update_needed(Some("same"), "same"));
    assert!(update_needed(None, ""));
}

#[test]
fn class_type_and_error_message() {
    assert_eq!(c_class_type(&ForeignerClassInfo { name: "Foo".to_string() }), "FooOpaque");
    assert_eq!(map_write_err("disk full"), "write failed: disk full");
}

#[test]
fn doc_comments_block_stripped() {
    let docs = vec!["/** x */".to_string()];
    assert_eq!(doc_comments_to_c_comments(&docs, true), "// x ");
    assert_eq!(doc_comments_to_c_comments(&docs, false), "    // x ");
}

#[test]
fn doc_comments_block_edge_lines_dropped() {
    let docs = vec!["/**\n x\n*/".to_string(), "/// y".to_string()];
    assert_eq!(doc_comments_to_c_comments(&docs, true), "// x\n// y");
    assert_eq!(doc_comments_to_c_comments(&docs, false), "    // x\n    // y");
}

#[test]
fn doc_comments_block_star_column_removed() {
    let docs = vec!["/**\n * a\n * b\n */".to_string()];
    assert_eq!(doc_comments_to_c_comments(&docs, true), "// a\n b");
}

#[test]
fn doc_comments_block_unstrippable_kept() {
    let docs = vec!["/**\n*a\n\n*b\n*/".to_string()];
    assert_eq!(doc_comments_to_c_comments(&docs, true), "///**\n*a\n\n*b\n*/");
}

#[test]
fn block_comment_check() {
    assert!(is_strippable_block("/** x */"));
    assert!(is_strippable_block("/**\n * a\n * b\n */"));
    assert!(!is_strippable_block("/**\n*a\n\n*b\n*/"));
    assert!(!is_strippable_block("/**/"));
    assert!(!is_strippable_block("/// x"));
    assert!(!is_strippable_block("/* open"));
}

#[test]
fn enum_block_doc_comment() {
    let e = ForeignEnumInfo {
        name: "Mode".to_string(),
        items: vec![ForeignEnumItem { name: "On".to_string(), doc_comments: vec!["/** on */".to_string()] }],
        doc_comments: vec!["/** Modes */".to_string()],
    };
    let file = generate_code_for_enum(&e);
    assert_eq!(
        file.content,
        "// Automaticaly generated by rust_swig\n#pragma once\n\n// Modes \nenum Mode {\n    // on On = 0\n\n};\n"
    );
}
