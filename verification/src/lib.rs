//! Reflection over compiled shader modules: a decoder for the binary format,
//! queries over the decoded instructions, and the description of a module's
//! interface that is derived from them.

pub mod capabilities;
pub mod descriptor_sets;
pub mod encode;
pub mod entry_point;
pub mod enums;
pub mod error;
pub mod layout_def;
pub mod literal;
pub mod parse;
pub mod reflect;
pub mod resolve;
pub mod structs;
pub mod types;
pub mod views;
pub mod words;

pub use capabilities::capability_name;
pub use entry_point::write_entry_point;
pub use error::Error;
pub use parse::ParseError;
pub use reflect::reflect;
pub use resolve::{is_builtin, location_decoration, member_name_from_id, name_from_id};
pub use types::type_from_id;
