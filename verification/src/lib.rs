//! A manual sealing engine for development chains, the block-author API that
//! feeds it with extrinsics, and the transfer chain that both are exercised on.

pub mod author;
pub mod consensus;
pub mod contract_rounds;
pub mod engine;
pub mod engine_laws;
pub mod extrinsic;
pub mod hashing;
pub mod keyring;
pub mod primitives;
pub mod test_api;
pub mod transaction_format;

pub use author::Author;
pub use consensus::import_queue;
pub use consensus::ManualSealBlockImport;
pub use engine::EngineCommand;
pub use engine::SealError;
pub use test_api::pool;
pub use test_api::uxt;
pub use test_api::TestApi;
