//! Exposes [`build_context`](crate::context::build_context) and
//! [`TideTeraExt`](crate::TideTeraExt).

pub use crate::context::build_context;
pub use crate::TideTeraExt;
