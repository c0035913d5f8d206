//! Batch-signs raw Bitcoin transactions. The library decodes each raw
//! transaction into its inputs, decides which inputs still need previous
//! output data, resolves that data from the node, assembles the signing
//! request, and reads the wallet signer's report — all as a sequential state
//! machine whose commands an unverified driver carries to the node/wallet
//! service and whose replies it hands back.

pub mod json;
pub mod parse;
pub mod request;
pub mod session;
pub mod types;
