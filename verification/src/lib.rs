pub mod error;
pub mod text;
pub mod desc_types;
pub mod decode;
pub mod class_reader;
pub mod instruction;
pub mod constant;
pub mod constant_pool;
pub mod pool_reader;
pub mod flags;
pub mod type_verification;
pub mod annotation;
pub mod attribute;
pub mod code_reader;
pub mod class_attr_reader;
pub mod anno_reader;
pub mod method;
pub mod field;
pub mod member_reader;
pub mod class_file;
pub mod registry;
pub mod system_props;
pub mod natives;
