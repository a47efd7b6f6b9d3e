//! Type information for Lua and Teal: a model of types, its rendering in Teal syntax,
//! and the generators that describe records, enums and global instances.
pub mod types;
pub mod name_part;
pub mod teal_parts;
pub mod text;
pub mod to_typename;
pub mod name_container;
pub mod meta_method;
pub mod exported_function;
pub mod type_generator;
pub mod macro_expressions;
pub mod type_walker;
pub mod export_instance;
pub mod user_data;
pub mod typed_function;
pub mod laws;
