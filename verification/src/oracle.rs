//! The BlockNative oracle: its configuration, and what it answers from a quote.

use crate::category::GasCategory;
use crate::error::GasOracleError;
use crate::response::BlockNativeGasResponse;
use crate::select::{select_tier, selected_tier};
use crate::wei::{
    centigwei_to_wei, centigwei_wei, gwei_price_to_wei, legacy_price_wei, u256_value, GWEI_TO_WEI,
};
use ethers_core::types::U256;
use reqwest::header::HeaderValue;
use vstd::prelude::*;

verus! {

/// Where the service answers.
pub const BLOCKNATIVE_GAS_PRICE_ENDPOINT: &'static str =
    "https://api.blocknative.com/gasprices/blockprices";

/// A character that may stand in the value of an HTTP header: a tab, or
/// anything from the space upwards but the delete character.
pub open spec fn header_char_allowed(c: char) -> bool {
    c == '\t' || (c as u32 >= 32 && c as u32 != 127)
}

/// The credential can be sent as the value of an authorization header.
pub open spec fn credential_encodable(api_key: Seq<char>) -> bool {
    forall|i: int| 0 <= i < api_key.len() ==> header_char_allowed(#[trigger] api_key[i])
}

/// `reqwest::header::HeaderValue::from_str`, asked only whether it accepts the
/// text. It refuses a text exactly when one of its bytes is a control
/// character other than the tab; the bytes of a character beyond ASCII are
/// all accepted, so the test can be stated character by character.
#[verifier::external_body]
fn header_value_accepts(text: &str) -> (accepted: bool)
    ensures
        accepted == credential_encodable(text@),
{
    HeaderValue::from_str(text).is_ok()
}

/// The legacy gas price, in wei, that a quote gives for a category: the
/// composite price of the selected tier, converted; or the reason the quote
/// gives none.
pub open spec fn quoted_price(response: &BlockNativeGasResponse, gas_category: GasCategory) -> Result<
    nat,
    GasOracleError,
> {
    match selected_tier(response, gas_category) {
        Ok(tier) => Ok(legacy_price_wei(tier.price)),
        Err(reason) => Err(reason),
    }
}

/// The fee pair, in wei, that a quote gives for a category: first the
/// selected tier's maximum fee, then its maximum priority fee, both
/// converted; or the reason the quote gives none.
pub open spec fn quoted_fees(response: &BlockNativeGasResponse, gas_category: GasCategory) -> Result<
    (nat, nat),
    GasOracleError,
> {
    match selected_tier(response, gas_category) {
        Ok(tier) => Ok(
            (centigwei_wei(tier.max_fee_per_gas), centigwei_wei(tier.max_priority_fee_per_gas)),
        ),
        Err(reason) => Err(reason),
    }
}

/// An answer of `fetch`, with the amount as a number.
pub open spec fn price_outcome(price: Result<U256, GasOracleError>) -> Result<nat, GasOracleError> {
    match price {
        Ok(wei) => Ok(u256_value(wei)),
        Err(reason) => Err(reason),
    }
}

/// An answer of `estimate_eip1559_fees`, with the amounts as numbers.
pub open spec fn fees_outcome(fees: Result<(U256, U256), GasOracleError>) -> Result<
    (nat, nat),
    GasOracleError,
> {
    match fees {
        Ok(pair) => Ok((u256_value(pair.0), u256_value(pair.1))),
        Err(reason) => Err(reason),
    }
}

/// The configuration of a gas oracle over the BlockNative gas platform: the
/// credential sent with every request, and the category asked for.
#[derive(Clone)]
pub struct BlockNative {
    api_key: String,
    gas_category: GasCategory,
}

impl BlockNative {
    /// The credential, as text.
    pub closed spec fn credential(&self) -> Seq<char> {
        self.api_key@
    }

    /// The category that estimates are made for.
    pub closed spec fn configured(&self) -> GasCategory {
        self.gas_category
    }

    /// The credential can be sent as a header value.
    pub open spec fn well_formed(&self) -> bool {
        credential_encodable(self.credential())
    }

    /// Whether `api_key` can be sent as the value of an authorization header,
    /// which [`BlockNative::new`] asks of its argument.
    pub fn accepts_credential(api_key: &str) -> (accepted: bool)
        ensures
            accepted == credential_encodable(api_key@),
    {
        header_value_accepts(api_key)
    }

    /// Creates an oracle with the given credential, for the standard category.
    pub fn new(api_key: &str) -> (oracle: Self)
        requires
            credential_encodable(api_key@),
        ensures
            oracle.well_formed(),
            oracle.credential() == api_key@,
            oracle.configured() == GasCategory::Standard,
    {
        BlockNative { api_key: api_key.to_owned(), gas_category: GasCategory::Standard }
    }

    /// Sets the gas price category to be used when estimating.
    #[must_use]
    pub fn category(self, gas_category: GasCategory) -> (oracle: Self)
        ensures
            oracle.configured() == gas_category,
            oracle.credential() == self.credential(),
            self.well_formed() ==> oracle.well_formed(),
    {
        let mut oracle = self;
        oracle.gas_category = gas_category;
        oracle
    }

    /// The category that estimates are made for.
    pub fn gas_category(&self) -> (gas_category: GasCategory)
        ensures
            gas_category == self.configured(),
    {
        self.gas_category
    }

    /// The credential to send as the authorization header of each request.
    pub fn api_key(&self) -> (api_key: &str)
        ensures
            api_key@ == self.credential(),
    {
        self.api_key.as_str()
    }

    /// The legacy gas price, in wei, that `response` quotes for the configured
    /// category. The oracle is only read: the answer is decided by the quote
    /// and the category alone.
    pub fn fetch(&self, response: &BlockNativeGasResponse) -> (price: Result<U256, GasOracleError>)
        ensures
            price_outcome(price) == quoted_price(response, self.configured()),
    {
        match select_tier(response, self.gas_category) {
            Ok(tier) => Ok(gwei_price_to_wei(tier.price)),
            Err(reason) => Err(reason),
        }
    }

    /// The fee pair, in wei, that `response` quotes for the configured
    /// category: the base fee to offer, then the priority fee. The oracle is
    /// only read: the answer is decided by the quote and the category alone.
    pub fn estimate_eip1559_fees(&self, response: &BlockNativeGasResponse) -> (fees: Result<
        (U256, U256),
        GasOracleError,
    >)
        ensures
            fees_outcome(fees) == quoted_fees(response, self.configured()),
    {
        match select_tier(response, self.gas_category) {
            Ok(tier) => {
                let base_fee = centigwei_to_wei(tier.max_fee_per_gas);
                let prio_fee = centigwei_to_wei(tier.max_priority_fee_per_gas);
                Ok((base_fee, prio_fee))
            },
            Err(reason) => Err(reason),
        }
    }
}

/// The estimates of a quote are those of its last block: two quotes whose
/// last blocks carry the same tiers give the same price and the same fees.
pub proof fn lemma_estimates_read_last_block(
    a: &BlockNativeGasResponse,
    b: &BlockNativeGasResponse,
    gas_category: GasCategory,
)
    requires
        a.blocks().len() > 0,
        b.blocks().len() > 0,
        a.blocks().last().tiers() == b.blocks().last().tiers(),
    ensures
        quoted_price(a, gas_category) == quoted_price(b, gas_category),
        quoted_fees(a, gas_category) == quoted_fees(b, gas_category),
{
}

/// A quoted fee pair loses nothing of the tier's figures: a hundred times
/// each amount is the figure in hundredths of a gwei times one gwei.
pub proof fn lemma_quoted_fees_exact(response: &BlockNativeGasResponse, gas_category: GasCategory)
    requires
        selected_tier(response, gas_category) is Ok,
    ensures
        quoted_fees(response, gas_category) is Ok,
        quoted_fees(response, gas_category)->Ok_0.0 * 100 == selected_tier(
            response,
            gas_category,
        )->Ok_0.max_fee_per_gas as nat * GWEI_TO_WEI as nat,
        quoted_fees(response, gas_category)->Ok_0.1 * 100 == selected_tier(
            response,
            gas_category,
        )->Ok_0.max_priority_fee_per_gas as nat * GWEI_TO_WEI as nat,
{
}

} // verus!
