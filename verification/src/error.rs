//! Error types for the collator monitor.
use crate::text::{decimal, decimal_text, two};
use vstd::prelude::*;

verus! {

/// What can go wrong while a collator is monitored.
#[derive(Debug)]
pub enum CollatorError {
    ConnectionFailed(String),
    StorageQueryFailed(String),
    TransactionFailed(String),
    AccountNotFound(String),
    InsufficientFunds { have: u128, need: u128 },
    InvalidAddress(String),
    SlackNotificationFailed(String),
    ConfigError(String),
    ChainNotAvailable { chain: String, network: String },
}

impl CollatorError {
    /// The text of the error.
    pub open spec fn spec_message(self) -> Seq<char> {
        match self {
            CollatorError::ConnectionFailed(s) => "Failed to connect to chain: "@ + s@,
            CollatorError::StorageQueryFailed(s) => "Failed to query storage: "@ + s@,
            CollatorError::TransactionFailed(s) => "Failed to submit transaction: "@ + s@,
            CollatorError::AccountNotFound(s) => "Account not found: "@ + s@,
            CollatorError::InsufficientFunds { have, need } => "Insufficient funds: have "@
                + decimal(have as nat) + ", need "@ + decimal(need as nat),
            CollatorError::InvalidAddress(s) => "Invalid address format: "@ + s@,
            CollatorError::SlackNotificationFailed(s) => "Slack notification failed: "@ + s@,
            CollatorError::ConfigError(s) => "Configuration error: "@ + s@,
            CollatorError::ChainNotAvailable { chain, network } => "Chain "@ + chain@
                + " is not available on "@ + network@,
        }
    }

    /// The text of the error.
    pub fn message(&self) -> (r: String)
        ensures
            r@ == self.spec_message(),
    {
        match self {
            CollatorError::ConnectionFailed(s) => two("Failed to connect to chain: ", s.as_str()),
            CollatorError::StorageQueryFailed(s) => two("Failed to query storage: ", s.as_str()),
            CollatorError::TransactionFailed(s) => two(
                "Failed to submit transaction: ",
                s.as_str(),
            ),
            CollatorError::AccountNotFound(s) => two("Account not found: ", s.as_str()),
            CollatorError::InsufficientFunds { have, need } => {
                let mut r = "Insufficient funds: have ".to_string();
                r.append(decimal_text(*have).as_str());
                r.append(", need ");
                r.append(decimal_text(*need).as_str());
                r
            },
            CollatorError::InvalidAddress(s) => two("Invalid address format: ", s.as_str()),
            CollatorError::SlackNotificationFailed(s) => two(
                "Slack notification failed: ",
                s.as_str(),
            ),
            CollatorError::ConfigError(s) => two("Configuration error: ", s.as_str()),
            CollatorError::ChainNotAvailable { chain, network } => {
                let mut r = "Chain ".to_string();
                r.append(chain.as_str());
                r.append(" is not available on ");
                r.append(network.as_str());
                r
            },
        }
    }
}

/// The words of an error are the same whatever it is about, and what it is about is
/// told in full: a text as it is, amounts as numerals, and a chain before its
/// network.
pub proof fn law_errors_are_worded_alike()
    ensures
        exists|words: Seq<Seq<char>>|
            #[trigger] words.len() == 11 && forall|error: CollatorError|
                #[trigger] error.spec_message() == match error {
                    CollatorError::ConnectionFailed(s) => words[0] + s@,
                    CollatorError::StorageQueryFailed(s) => words[1] + s@,
                    CollatorError::TransactionFailed(s) => words[2] + s@,
                    CollatorError::AccountNotFound(s) => words[3] + s@,
                    CollatorError::InsufficientFunds { have, need } => words[4] + decimal(
                        have as nat,
                    ) + words[5] + decimal(need as nat),
                    CollatorError::InvalidAddress(s) => words[6] + s@,
                    CollatorError::SlackNotificationFailed(s) => words[7] + s@,
                    CollatorError::ConfigError(s) => words[8] + s@,
                    CollatorError::ChainNotAvailable { chain, network } => words[9] + chain@
                        + words[10] + network@,
                },
{
    let words = seq![
        "Failed to connect to chain: "@,
        "Failed to query storage: "@,
        "Failed to submit transaction: "@,
        "Account not found: "@,
        "Insufficient funds: have "@,
        ", need "@,
        "Invalid address format: "@,
        "Slack notification failed: "@,
        "Configuration error: "@,
        "Chain "@,
        " is not available on "@,
    ];
    assert(words.len() == 11);
}

} // verus!
