use vstd::prelude::*;

verus! {

/// Subscription type for WebSocket messages.
#[derive(Debug, Clone, Copy, PartialEq, Eq, Structural)]
pub enum SubscriptionType {
    /// Quote subscription
    Quote,
    /// Order subscription
    Order,
    /// Account subscription
    Account,
    /// Trade subscription
    Trade,
}

/// Subscription request for WebSocket messages.
#[derive(Debug, Clone, PartialEq, Eq)]
pub struct SubscriptionRequest {
    /// Subscription type
    pub subscription_type: SubscriptionType,
    /// Symbols to subscribe to (for quote subscriptions)
    pub symbols: Option<Vec<String>>,
    /// Account ID to subscribe to (for order, account, and trade subscriptions)
    pub account_id: Option<String>,
}

impl SubscriptionRequest {
    /// Create a new quote subscription request.
    pub fn new_quote(symbols: Vec<String>) -> (request: Self)
        ensures
            request == (SubscriptionRequest {
                subscription_type: SubscriptionType::Quote,
                symbols: Some(symbols),
                account_id: None,
            }),
    {
        SubscriptionRequest {
            subscription_type: SubscriptionType::Quote,
            symbols: Some(symbols),
            account_id: None,
        }
    }

    /// Create a new order subscription request.
    pub fn new_order(account_id: String) -> (request: Self)
        ensures
            request == (SubscriptionRequest {
                subscription_type: SubscriptionType::Order,
                symbols: None,
                account_id: Some(account_id),
            }),
    {
        SubscriptionRequest {
            subscription_type: SubscriptionType::Order,
            symbols: None,
            account_id: Some(account_id),
        }
    }

    /// Create a new account subscription request.
    pub fn new_account(account_id: String) -> (request: Self)
        ensures
            request == (SubscriptionRequest {
                subscription_type: SubscriptionType::Account,
                symbols: None,
                account_id: Some(account_id),
            }),
    {
        SubscriptionRequest {
            subscription_type: SubscriptionType::Account,
            symbols: None,
            account_id: Some(account_id),
        }
    }

    /// Create a new trade subscription request.
    pub fn new_trade(account_id: String) -> (request: Self)
        ensures
            request == (SubscriptionRequest {
                subscription_type: SubscriptionType::Trade,
                symbols: None,
                account_id: Some(account_id),
            }),
    {
        SubscriptionRequest {
            subscription_type: SubscriptionType::Trade,
            symbols: None,
            account_id: Some(account_id),
        }
    }
}

/// Unsubscription request for WebSocket messages.
#[derive(Debug, Clone, PartialEq, Eq)]
pub struct UnsubscriptionRequest {
    /// Subscription type
    pub subscription_type: SubscriptionType,
    /// Symbols to unsubscribe from (for quote subscriptions)
    pub symbols: Option<Vec<String>>,
    /// Account ID to unsubscribe from (for order, account, and trade subscriptions)
    pub account_id: Option<String>,
}

impl UnsubscriptionRequest {
    /// Create a new quote unsubscription request.
    pub fn new_quote(symbols: Vec<String>) -> (request: Self)
        ensures
            request == (UnsubscriptionRequest {
                subscription_type: SubscriptionType::Quote,
                symbols: Some(symbols),
                account_id: None,
            }),
    {
        UnsubscriptionRequest {
            subscription_type: SubscriptionType::Quote,
            symbols: Some(symbols),
            account_id: None,
        }
    }

    /// Create a new order unsubscription request.
    pub fn new_order(account_id: String) -> (request: Self)
        ensures
            request == (UnsubscriptionRequest {
                subscription_type: SubscriptionType::Order,
                symbols: None,
                account_id: Some(account_id),
            }),
    {
        UnsubscriptionRequest {
            subscription_type: SubscriptionType::Order,
            symbols: None,
            account_id: Some(account_id),
        }
    }

    /// Create a new account unsubscription request.
    pub fn new_account(account_id: String) -> (request: Self)
        ensures
            request == (UnsubscriptionRequest {
                subscription_type: SubscriptionType::Account,
                symbols: None,
                account_id: Some(account_id),
            }),
    {
        UnsubscriptionRequest {
            subscription_type: SubscriptionType::Account,
            symbols: None,
            account_id: Some(account_id),
        }
    }

    /// Create a new trade unsubscription request.
    pub fn new_trade(account_id: String) -> (request: Self)
        ensures
            request == (UnsubscriptionRequest {
                subscription_type: SubscriptionType::Trade,
                symbols: None,
                account_id: Some(account_id),
            }),
    {
        UnsubscriptionRequest {
            subscription_type: SubscriptionType::Trade,
            symbols: None,
            account_id: Some(account_id),
        }
    }
}

} // verus!
