//! A lazily filled, per-handle cache slot for one asset identified by a path.

pub mod handle;
pub mod laws;
pub mod state;

pub use handle::AssetHandle;
pub use state::HandleState;
