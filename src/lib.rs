//! Generation of C and C++ headers for callback interfaces and enums.
pub mod args;
pub mod block_comment;
pub mod doc;
pub mod emit;
pub mod lemmas;
pub mod model;
pub mod text;
pub mod write_cache;

pub use args::{
    c_generate_args_with_types, cpp_generate_args_to_call_c, cpp_generate_args_with_types,
    FROM_VAR_TEMPLATE,
};
pub use doc::doc_comments_to_c_comments;
pub use emit::{c_class_type, generate_code_for_enum, generate_for_interface, map_write_err};
pub use model::{
    CppConverter, CppForeignMethodSignature, CppForeignTypeInfo, ForeignEnumInfo, ForeignEnumItem,
    ForeignInterface, ForeignInterfaceMethod, ForeignerClassInfo, GeneratedFile,
};
pub use text::decimal;
pub use write_cache::update_needed;
