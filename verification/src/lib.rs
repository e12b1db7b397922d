//! Fee estimation over the tiered quotes of the BlockNative gas platform.
//!
//! The crate holds the decision logic of a gas oracle: which confidence tier
//! of a decoded quote answers a configured [`GasCategory`], and how the gwei
//! figures of that tier become integer wei amounts. Fetching and decoding the
//! quote is left to the caller.

pub mod category;
pub mod error;
pub mod oracle;
pub mod response;
pub mod select;
pub mod wei;

pub use category::{gas_category_to_confidence, GasCategory};
pub use error::GasOracleError;
pub use oracle::{BlockNative, BLOCKNATIVE_GAS_PRICE_ENDPOINT};
pub use response::{BlockNativeGasResponse, BlockPrice, EstimatedPrice};
pub use select::{find_confidence, select_tier};
pub use wei::{centigwei_to_wei, gwei_price_to_wei, GWEI_TO_WEI};
