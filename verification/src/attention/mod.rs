//! Full-attention decoder layers and their latent-attention paths.

pub mod enqueued;
pub mod init;
pub mod launched;
pub mod meaning;
pub mod mla_cache_skip;
pub mod mla_decode;
pub mod mla_paged;
pub mod ordering;
pub mod overrides;
pub mod types;
