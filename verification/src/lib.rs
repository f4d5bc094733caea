//! In-memory representation of a parsed schema declaration: an AST node for a
//! project declaration with opaque, index-based field identifiers, and an
//! unquoted-value wrapper for rendering identifiers verbatim into generated
//! text.

pub mod ast;
pub mod constant;
pub mod dml;
