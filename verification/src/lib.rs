//! Decoder for the property announcements that a VLC plugin module makes
//! through its entry export.
//!
//! A loaded plugin announces its metadata by calling back into the host once
//! per property, passing an integer tag and a variadic argument list whose
//! layout is fixed by the tag. This crate holds the verified core of a tool
//! that introspects such a module: the registry that maps each tag to its
//! decode rule, the cursor over one call's argument stream, the decoder that
//! turns a tag plus arguments into a structured property, and the driver
//! state machine that sequences opening the module, resolving its exports
//! and running the enumeration.

pub mod cursor;
pub mod decode;
pub mod driver;
pub mod property;
