//! The schema model: what a module's declarations are once they are parsed.

pub mod err;
pub mod lor;
pub mod opentype;
pub mod symbols;
pub mod tag;
pub mod tokens;
pub mod types;

pub use err::Error;
pub use lor::{LitOrRef, LiteralValue, ResolveState, Resolved, Resolver, Unresolved};
pub use opentype::{OpenType, OpenTypeVariant};
pub use symbols::SymbolTable;
pub use tag::{Tag, TagProperty};
pub use tokens::PeekableTokens;
pub use types::{Bounds, Type};
