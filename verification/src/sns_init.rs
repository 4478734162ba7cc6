//! The parameters necessary to initialize an SNS.
use vstd::prelude::*;
use std::collections::HashMap;

verus! {

/// This struct contains all the parameters necessary to initialize an SNS. All fields are optional
/// to avoid future candid compatibility problems. However, for the struct to be "valid", all fields
/// must be populated.
#[derive(Debug, Clone, PartialEq, Eq, Default)]
pub struct SnsInitPayload {
    /// The transaction fee that must be paid for ledger transactions (except
    /// minting and burning governance tokens), denominated in e8s (1 token = 100,000,000 e8s).
    pub transaction_fee_e8s: Option<u64>,
    /// The name of the governance token controlled by this SNS, for example "Bitcoin".
    pub token_name: Option<String>,
    /// The symbol of the governance token controlled by this SNS, for example "BTC".
    pub token_symbol: Option<String>,
    /// The number of e8s (10E-8 of a token) that a rejected proposal costs the proposer.
    pub proposal_reject_cost_e8s: Option<u64>,
    /// The minimum number of e8s (10E-8 of a token) that can be staked in a neuron.
    ///
    /// To ensure that staking and disbursing of the neuron work, the chosen value
    /// must be larger than the transaction_fee_e8s.
    pub neuron_minimum_stake_e8s: Option<u64>,
    /// The initial tokens and neurons will be distributed according to the
    /// `InitialTokenDistribution`. This configures the accounts for the
    /// the decentralization swap, and will store distributions for future
    /// use.
    pub initial_token_distribution: Option<InitialTokenDistribution>,
    /// Amount targeted by the sale, if the amount is reach the sale is triggered. Must be at least
    /// min_participants * min_participant_icp_e8.
    pub max_icp_e8s: Option<u64>,
    /// Time when the swap will end. Must be between 1 day and 3 months.
    pub token_sale_timestamp_seconds: Option<u64>,
    /// Minimum number of participants for the sale to take place. Has to larger than zero.
    pub min_participants: Option<u32>,
    /// The minimum amount of icp that each buyer must contribute to participate.
    pub min_participant_icp_e8s: Option<u64>,
    /// The maximum amount of ICP that each buyer can contribute. Must be
    /// greater than or equal to `min_participant_icp_e8s` and less than
    /// or equal to `max_icp_e8s`. Can effectively be disabled by
    /// setting it to `max_icp_e8s`.
    pub max_participant_icp_e8s: Option<u64>,
    /// The total number of ICP that is required for this token sale to
    /// take place. This number divided by the number of SNS tokens for
    /// sale gives the seller's reserve price for the sale, i.e., the
    /// minimum number of ICP per SNS tokens that the seller of SNS
    /// tokens is willing to accept. If this amount is not achieved, the
    /// sale will be aborted (instead of committed) when the due date/time
    /// occurs. Must be smaller than or equal to `max_icp_e8s`.
    pub min_icp_e8s: Option<u64>,
}

/// An `InitialTokenDistribution` structures the configuration of the SNS Ledger and SNS
/// Governance at genesis. Developers can allocate tokens to the different buckets needed
/// for a decentralization swap.
#[derive(Debug, Clone, PartialEq, Eq, Default)]
pub struct InitialTokenDistribution {
    /// The developer bucket distributes tokens to the original developers of the dapp.
    /// Each distribution will create a neuron in `PreInitializationSwap` mode controlled
    /// by the PrincipalId and with the provided stake.
    pub developers: Option<TokenDistribution>,
    /// The treasury bucket distributes tokens to the SNS's treasury account and creates neurons
    /// for the SNS community for use at genesis.
    pub treasury: Option<TokenDistribution>,
    /// The total amount of tokens denominated in e8s (1 token = 100,000,000 e8s) used to fund
    /// the Swap Canister for the decentralization swap.
    pub swap: u64,
}

/// A `TokenDistribution` couples a bucket's total distribution, and distributions
/// of neurons created at genesis from that bucket's total distribution.
#[derive(Debug, Clone, PartialEq, Eq, Default)]
pub struct TokenDistribution {
    /// The total number of tokens denominated in e8s (1 token = 100,000,000 e8s)
    /// for a bucket at genesis. The stake of neurons created from this bucket
    /// will be pulled from `total_e8s`.
    pub total_e8s: u64,
    /// A map of string `PrincipalId` to tokens denominated in e8s (1 token = 100,000,000 e8s)
    /// that represent Neurons and their stakes available at genesis.
    pub distributions: HashMap<String, u64>,
}

} // verus!
