//! Descriptors of the foreign items that headers are generated for.
use vstd::prelude::*;

verus! {

/// One item of an enum, with its documentation lines.
pub struct ForeignEnumItem {
    pub name: String,
    pub doc_comments: Vec<String>,
}

/// An enum: its name, documentation and items in declaration order.
pub struct ForeignEnumInfo {
    pub name: String,
    pub items: Vec<ForeignEnumItem>,
    pub doc_comments: Vec<String>,
}

/// One method of a callback interface.
pub struct ForeignInterfaceMethod {
    pub name: String,
    pub doc_comments: Vec<String>,
}

/// A callback interface: its name, documentation and methods in
/// declaration order.
pub struct ForeignInterface {
    pub name: String,
    pub items: Vec<ForeignInterfaceMethod>,
    pub doc_comments: Vec<String>,
}

/// A foreign class, known here by its name only.
pub struct ForeignerClassInfo {
    pub name: String,
}

/// How an argument is presented on the C++ side: the C++ type and an
/// expression template with one placeholder for the raw argument.
pub struct CppConverter {
    pub typename: String,
    pub input_converter: String,
}

/// One argument: its raw C type name and an optional conversion.
pub struct CppForeignTypeInfo {
    pub name: String,
    pub cpp_converter: Option<CppConverter>,
}

/// The resolved arguments of one method.
pub struct CppForeignMethodSignature {
    pub input: Vec<CppForeignTypeInfo>,
}

/// A generated header: the file name and the whole text.
pub struct GeneratedFile {
    pub file_name: String,
    pub content: String,
}

} // verus!
