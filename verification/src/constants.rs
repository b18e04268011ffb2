//! Defaults and limits shared by the command-line client.
use vstd::prelude::*;

verus! {

/// Default RPC endpoint.
pub const DEFAULT_RPC_URL: &'static str = "https://api.mainnet-beta.solana.com";

/// Default websocket endpoint.
pub const DEFAULT_WSS_URL: &'static str = "wss://api.mainnet-beta.solana.com";

/// Default RPC endpoint on mainnet.
pub const DEFAULT_MAINNET_RPC_URL: &'static str = "https://api.mainnet-beta.solana.com";

/// Default RPC endpoint on testnet.
pub const DEFAULT_TESTNET_RPC_URL: &'static str = "https://api.testnet.solana.com";

/// Default operator API endpoint.
pub const DEFAULT_OPERATOR_API_URL: &'static str = "https://ncn-governance.solana.com";

/// Total of a vote split in basis points.
pub const BASIS_POINTS_TOTAL: u64 = 10_000;

/// Compute-unit limit requested for `support_proposal` and `retally_support`,
/// which re-tally the whole supporter list on every call (about 20k units plus
/// about 132 per supporter, so about 285k at the cap of 2000 supporters) and
/// outgrow the default limit of 200k at 1347 supporters. More than twice the
/// worst case at the cap, and well under the ceiling of 1.4M.
pub const SUPPORT_COMPUTE_UNIT_LIMIT: u32 = 600_000;

/// Tick of the progress spinner, in milliseconds.
pub const SPINNER_TICK_DURATION_MS: u64 = 100;

/// Environment variable that names the signing key.
pub const SVMGOV_KEY_ENV: &'static str = "SVMGOV_KEY";

/// Environment variable that names the RPC endpoint.
pub const SVMGOV_RPC_ENV: &'static str = "SVMGOV_RPC";

} // verus!
