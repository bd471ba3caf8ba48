use vstd::prelude::*;

use crate::account::{AccountId, CreateAccount, DailyLimitType, WorkspaceId};
use crate::money::{Amount, Currency, Rate};
use crate::transaction::{CreateTransaction, ExchangeId, Receipt, TransactionId};

verus! {

/// Opening an account on the transactions service, on behalf of a workspace.
#[derive(Debug)]
pub struct CreateAccountRequest {
    pub id: AccountId,
    pub user_id: WorkspaceId,
    pub currency: Currency,
    pub name: String,
    pub daily_limit_type: Option<DailyLimitType>,
}

impl From<(CreateAccount, WorkspaceId)> for CreateAccountRequest {
    fn from(req: (CreateAccount, WorkspaceId)) -> (r: Self) {
        CreateAccountRequest {
            id: req.0.id,
            user_id: req.1,
            currency: req.0.currency,
            name: req.0.name,
            daily_limit_type: req.0.daily_limit_type,
        }
    }
}

impl vstd::std_specs::convert::FromSpecImpl<(CreateAccount, WorkspaceId)> for CreateAccountRequest {
    open spec fn obeys_from_spec() -> bool {
        true
    }

    open spec fn from_spec(req: (CreateAccount, WorkspaceId)) -> Self {
        CreateAccountRequest {
            id: req.0.id,
            user_id: req.1,
            currency: req.0.currency,
            name: req.0.name,
            daily_limit_type: req.0.daily_limit_type,
        }
    }
}

/// A page of accounts on the transactions service.
#[derive(Clone, Copy, Debug)]
pub struct GetUsersAccountsParams {
    pub limit: i64,
    pub offset: i64,
}

/// A transfer sent to the transactions service, on behalf of a workspace.
#[derive(Debug)]
pub struct CreateTransactionRequest {
    pub id: TransactionId,
    pub user_id: WorkspaceId,
    pub from: AccountId,
    pub to: Receipt,
    pub to_currency: Currency,
    pub value_currency: Currency,
    pub exchange_id: Option<ExchangeId>,
    pub exchange_rate: Option<Rate>,
    pub value: Amount,
    pub fee: Amount,
}

pub open spec fn transaction_request_of(cmd: CreateTransaction, workspace: WorkspaceId) -> CreateTransactionRequest {
    CreateTransactionRequest {
        id: cmd.id,
        user_id: workspace,
        from: cmd.from,
        to: cmd.to,
        to_currency: cmd.to_currency,
        value_currency: cmd.value_currency,
        exchange_id: cmd.exchange_id,
        exchange_rate: cmd.exchange_rate,
        value: cmd.value,
        fee: cmd.fee,
    }
}

impl From<(CreateTransaction, WorkspaceId)> for CreateTransactionRequest {
    fn from(req: (CreateTransaction, WorkspaceId)) -> (r: Self) {
        CreateTransactionRequest {
            id: req.0.id,
            user_id: req.1,
            from: req.0.from,
            to: req.0.to,
            to_currency: req.0.to_currency,
            value_currency: req.0.value_currency,
            exchange_id: req.0.exchange_id,
            exchange_rate: req.0.exchange_rate,
            value: req.0.value,
            fee: req.0.fee,
        }
    }
}

impl vstd::std_specs::convert::FromSpecImpl<(CreateTransaction, WorkspaceId)> for CreateTransactionRequest {
    open spec fn obeys_from_spec() -> bool {
        true
    }

    open spec fn from_spec(req: (CreateTransaction, WorkspaceId)) -> Self {
        transaction_request_of(req.0, req.1)
    }
}

/// A page of transactions on the transactions service.
#[derive(Clone, Copy, Debug)]
pub struct GetUsersTransactionsParams {
    pub limit: i64,
    pub offset: i64,
}

} // verus!
