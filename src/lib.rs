//! Merge-mining proxy core: the shared mining state, the height interceptor,
//! the submission coordinator, template acceptance and request routing.

pub mod config;
pub mod error;
pub mod state;
pub mod height;
pub mod router;
pub mod text;
pub mod codec;
pub mod block;
