//! Verified core of the Pathfinder binding for Unity: the calling-convention
//! rewrite of the native API source, the decision of when a file on disk must
//! be rewritten, the configuration of the C# binding emitter, and the plain
//! data types of the native API surface.

pub mod text;
pub mod convention;
pub mod materialize;
pub mod bindings;
pub mod generation;
pub mod api;
