use vstd::prelude::*;

use crate::account::{AccountId, CreateAccount, UpdateAccount, UserId};
use crate::money::{Amount, Currency};
use crate::transaction::{Receipt, TransactionId, TransactionStatus};
use crate::user::{DeviceId, DeviceType, EmailConfirmToken, OauthToken, Password, Provider};

verus! {

/// Sign-in with email and password.
#[derive(Clone)]
pub struct PostSessionsRequest {
    pub email: String,
    pub password: Password,
    pub device_type: DeviceType,
    pub device_os: Option<String>,
    pub device_id: Option<DeviceId>,
}

/// Sign-in through an OAuth provider.
#[derive(Clone, Debug)]
pub struct PostSessionsOauthRequest {
    pub oauth_token: OauthToken,
    pub oauth_provider: Provider,
    pub device_type: DeviceType,
    pub device_os: Option<String>,
    pub device_id: Option<DeviceId>,
}

/// Registration.
#[derive(Clone)]
pub struct PostUsersRequest {
    pub email: String,
    pub password: Password,
    pub first_name: String,
    pub last_name: String,
    pub device_type: DeviceType,
    pub device_os: Option<String>,
    pub device_id: Option<DeviceId>,
}

/// Confirmation of an email address.
#[derive(Clone, Debug)]
pub struct PostUsersConfirmEmailRequest {
    pub email_confirm_token: EmailConfirmToken,
}

/// Opening an account; the account gets the default daily limit.
#[derive(Debug)]
pub struct PostAccountsRequest {
    pub id: AccountId,
    pub user_id: UserId,
    pub currency: Currency,
    pub name: String,
}

impl From<PostAccountsRequest> for CreateAccount {
    fn from(req: PostAccountsRequest) -> (r: Self) {
        CreateAccount {
            id: req.id,
            user_id: req.user_id,
            currency: req.currency,
            name: req.name,
            daily_limit_type: None,
        }
    }
}

impl vstd::std_specs::convert::FromSpecImpl<PostAccountsRequest> for CreateAccount {
    open spec fn obeys_from_spec() -> bool {
        true
    }

    open spec fn from_spec(req: PostAccountsRequest) -> Self {
        CreateAccount {
            id: req.id,
            user_id: req.user_id,
            currency: req.currency,
            name: req.name,
            daily_limit_type: None,
        }
    }
}

/// Renaming an account.
#[derive(Debug)]
pub struct PutAccountsRequest {
    pub name: String,
}

impl From<PutAccountsRequest> for UpdateAccount {
    fn from(req: PutAccountsRequest) -> (r: Self) {
        UpdateAccount { name: req.name }
    }
}

impl vstd::std_specs::convert::FromSpecImpl<PutAccountsRequest> for UpdateAccount {
    open spec fn obeys_from_spec() -> bool {
        true
    }

    open spec fn from_spec(req: PutAccountsRequest) -> Self {
        UpdateAccount { name: req.name }
    }
}

/// A page of a user's accounts.
#[derive(Clone, Copy, Debug)]
pub struct GetUsersAccountsParams {
    pub limit: i64,
    pub offset: AccountId,
}

/// A transfer as a client asks for it.
#[derive(Debug)]
pub struct PostTransactionsRequest {
    pub user_id: UserId,
    pub from: AccountId,
    pub to: Receipt,
    pub to_currency: Currency,
    pub value: Amount,
    pub fee: Amount,
    /// Milliseconds since the Unix epoch.
    pub hold_until: Option<u64>,
}

/// A status change of a transaction.
#[derive(Clone, Copy, Debug)]
pub struct PutTransactionsRequest {
    pub status: TransactionStatus,
}

impl From<PutTransactionsRequest> for TransactionStatus {
    fn from(req: PutTransactionsRequest) -> (r: Self) {
        req.status
    }
}

impl vstd::std_specs::convert::FromSpecImpl<PutTransactionsRequest> for TransactionStatus {
    open spec fn obeys_from_spec() -> bool {
        true
    }

    open spec fn from_spec(req: PutTransactionsRequest) -> Self {
        req.status
    }
}

/// A page of a user's transactions.
#[derive(Clone, Copy, Debug)]
pub struct GetUsersTransactionsParams {
    pub limit: i64,
    pub offset: TransactionId,
}

} // verus!
