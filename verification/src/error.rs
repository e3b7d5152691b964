//! What can go wrong, as values.

use vstd::prelude::*;
use crate::text::{decimal, decimal_text, with_detail};

verus! {

/// A field that every imported record must carry.
#[derive(Debug, Clone, Copy, PartialEq, Eq, Structural)]
pub enum RequiredField {
    Id,
    AuthSession,
    CreatedAt,
}

/// A remote record that cannot become a local one.
#[derive(Debug, Clone, Copy, PartialEq, Eq, Structural)]
pub struct MissingFieldError {
    pub field: RequiredField,
}

/// Why a store operation was refused.
#[derive(Debug, Clone, PartialEq, Eq)]
pub enum StoreError {
    /// The stored content is not a list of records; the text says why.
    Corrupt(String),
    /// The storage could not be read or written; the text says why.
    Unavailable(String),
    /// A record with the same session is already stored.
    DuplicateSession,
    /// No stored record has the given id.
    NotFound,
}

/// Why a request to a remote service gave no usable answer.
#[derive(Debug, Clone, PartialEq, Eq)]
pub enum ApiFailure {
    /// The request was not answered; the text says why.
    Transport(String),
    /// The answer's status was outside 200 to 299; `body` is what came with it.
    Status { code: u16, body: String },
    /// The answer was not of the expected shape; the text says why.
    Malformed(String),
}

/// Why an import from a remote source was given up.
#[derive(Debug, Clone, PartialEq, Eq)]
pub enum ImportError {
    /// The remote source gave no usable answer.
    RemoteFetch(ApiFailure),
    /// The remote source answered with a status other than 1.
    RemoteStatus(i32),
    /// The local store could not be read or written.
    Store(StoreError),
    /// An event came that answers no request that was made.
    OutOfTurn,
}

/// A value that the consent page must carry.
#[derive(Debug, Clone, Copy, PartialEq, Eq, Structural)]
pub enum PageField {
    Code,
    State,
    TenantUrl,
}

/// Why a session could not be turned into a credential.
#[derive(Debug, Clone, PartialEq, Eq)]
pub enum ExchangeError {
    /// The consent page could not be fetched; the text says why.
    Network(String),
    /// The consent page lacks a value: the session is invalid or the account
    /// is restricted.
    Extraction(PageField),
    /// The code was not exchanged for a token.
    TokenExchange(ApiFailure),
    /// The profile of the account was not had.
    ProfileFetch(ApiFailure),
    /// The credit of the account was not had.
    CreditFetch(ApiFailure),
    /// An event came that answers no request that was made.
    OutOfTurn,
}

/// The name of a required field as remote sources spell it.
pub open spec fn field_name(field: RequiredField) -> Seq<char> {
    match field {
        RequiredField::Id => "id"@,
        RequiredField::AuthSession => "auth_session"@,
        RequiredField::CreatedAt => "created_at"@,
    }
}

/// What is said of a missing field.
pub open spec fn missing_field_message(e: MissingFieldError) -> Seq<char> {
    "缺少必需字段: "@ + field_name(e.field)
}

impl MissingFieldError {
    /// The error in words.
    pub fn message(&self) -> (text: String)
        ensures
            text@ == missing_field_message(*self),
    {
        match self.field {
            RequiredField::Id => with_detail("缺少必需字段: ", "id"),
            RequiredField::AuthSession => with_detail("缺少必需字段: ", "auth_session"),
            RequiredField::CreatedAt => with_detail("缺少必需字段: ", "created_at"),
        }
    }
}

/// What is said of a refused store operation.
pub open spec fn store_message(e: StoreError) -> Seq<char> {
    match e {
        StoreError::Corrupt(reason) => "解析 tokens.json 失败: "@ + reason@,
        StoreError::Unavailable(reason) => reason@,
        StoreError::DuplicateSession => "该 Session 已存在"@,
        StoreError::NotFound => "未找到指定的 Token 记录"@,
    }
}

impl StoreError {
    /// The error in words.
    pub fn message(&self) -> (text: String)
        ensures
            text@ == store_message(*self),
    {
        match self {
            StoreError::Corrupt(reason) => with_detail("解析 tokens.json 失败: ", reason.as_str()),
            StoreError::Unavailable(reason) => reason.clone(),
            StoreError::DuplicateSession => String::from_str("该 Session 已存在"),
            StoreError::NotFound => String::from_str("未找到指定的 Token 记录"),
        }
    }
}

/// What is said when the tenant gave no usable answer about an account.
pub open spec fn account_message(failure: ApiFailure) -> Seq<char> {
    match failure {
        ApiFailure::Transport(reason) => "HTTP 请求失败: "@ + reason@,
        ApiFailure::Status { code, body } => "API 请求失败: "@ + body@,
        ApiFailure::Malformed(reason) => "解析响应失败: "@ + reason@,
    }
}

/// What is said when the tenant gave no token for a code.
pub open spec fn token_message(failure: ApiFailure) -> Seq<char> {
    match failure {
        ApiFailure::Transport(reason) => "交换 token 失败: "@ + reason@,
        ApiFailure::Status { code, body } => "交换 token 失败: HTTP "@ + decimal_text(code as nat),
        ApiFailure::Malformed(reason) => "解析 token 响应失败: "@ + reason@,
    }
}

/// What is said when a remote source gave no usable answer.
pub open spec fn remote_message(failure: ApiFailure) -> Seq<char> {
    match failure {
        ApiFailure::Transport(reason) => "请求远端 API 失败: "@ + reason@,
        ApiFailure::Status { code, body } => "远端 API 返回错误: "@ + decimal_text(code as nat),
        ApiFailure::Malformed(reason) => "解析远端 API 响应失败: "@ + reason@,
    }
}

impl ApiFailure {
    /// The failure in words, where the tenant was asked about an account.
    pub fn account_message(&self) -> (text: String)
        ensures
            text@ == account_message(*self),
    {
        match self {
            ApiFailure::Transport(reason) => with_detail("HTTP 请求失败: ", reason.as_str()),
            ApiFailure::Status { code, body } => with_detail("API 请求失败: ", body.as_str()),
            ApiFailure::Malformed(reason) => with_detail("解析响应失败: ", reason.as_str()),
        }
    }

    /// The failure in words, where the tenant was asked for a token.
    pub fn token_message(&self) -> (text: String)
        ensures
            text@ == token_message(*self),
    {
        match self {
            ApiFailure::Transport(reason) => with_detail("交换 token 失败: ", reason.as_str()),
            ApiFailure::Status { code, body } => with_detail(
                "交换 token 失败: HTTP ",
                decimal(*code).as_str(),
            ),
            ApiFailure::Malformed(reason) => with_detail("解析 token 响应失败: ", reason.as_str()),
        }
    }

    /// The failure in words, where a remote source was asked for records.
    pub fn remote_message(&self) -> (text: String)
        ensures
            text@ == remote_message(*self),
    {
        match self {
            ApiFailure::Transport(reason) => with_detail("请求远端 API 失败: ", reason.as_str()),
            ApiFailure::Status { code, body } => with_detail(
                "远端 API 返回错误: ",
                decimal(*code).as_str(),
            ),
            ApiFailure::Malformed(reason) => with_detail(
                "解析远端 API 响应失败: ",
                reason.as_str(),
            ),
        }
    }
}

/// What is said of an import that was given up.
pub open spec fn import_message(e: ImportError) -> Seq<char> {
    match e {
        ImportError::RemoteFetch(failure) => remote_message(failure),
        ImportError::RemoteStatus(_) => "远端 API 返回失败状态"@,
        ImportError::Store(inner) => store_message(inner),
        ImportError::OutOfTurn => "内部错误: 收到了未请求的事件"@,
    }
}

impl ImportError {
    /// The error in words.
    pub fn message(&self) -> (text: String)
        ensures
            text@ == import_message(*self),
    {
        match self {
            ImportError::RemoteFetch(failure) => failure.remote_message(),
            ImportError::RemoteStatus(_) => String::from_str("远端 API 返回失败状态"),
            ImportError::Store(inner) => inner.message(),
            ImportError::OutOfTurn => String::from_str("内部错误: 收到了未请求的事件"),
        }
    }
}

/// What is said of a value that the consent page lacks. Each of the three
/// texts begins with `SESSION_ERROR_OR_ACCOUNT_BANNED`.
pub open spec fn extraction_message(field: PageField) -> Seq<char> {
    match field {
        PageField::Code => "SESSION_ERROR_OR_ACCOUNT_BANNED: 无法提取授权码"@,
        PageField::State => "SESSION_ERROR_OR_ACCOUNT_BANNED: 无法提取 state"@,
        PageField::TenantUrl => "SESSION_ERROR_OR_ACCOUNT_BANNED: 无法提取 tenant_url"@,
    }
}

/// What is said of an exchange that failed.
pub open spec fn exchange_message(e: ExchangeError) -> Seq<char> {
    match e {
        ExchangeError::Network(reason) => "访问 terms-accept 页面失败: "@ + reason@,
        ExchangeError::Extraction(field) => extraction_message(field),
        ExchangeError::TokenExchange(failure) => token_message(failure),
        ExchangeError::ProfileFetch(failure) => account_message(failure),
        ExchangeError::CreditFetch(failure) => account_message(failure),
        ExchangeError::OutOfTurn => "内部错误: 收到了未请求的事件"@,
    }
}

impl ExchangeError {
    /// The error in words.
    pub fn message(&self) -> (text: String)
        ensures
            text@ == exchange_message(*self),
    {
        match self {
            ExchangeError::Network(reason) => with_detail(
                "访问 terms-accept 页面失败: ",
                reason.as_str(),
            ),
            ExchangeError::Extraction(field) => match field {
                PageField::Code => String::from_str(
                    "SESSION_ERROR_OR_ACCOUNT_BANNED: 无法提取授权码",
                ),
                PageField::State => String::from_str(
                    "SESSION_ERROR_OR_ACCOUNT_BANNED: 无法提取 state",
                ),
                PageField::TenantUrl => String::from_str(
                    "SESSION_ERROR_OR_ACCOUNT_BANNED: 无法提取 tenant_url",
                ),
            },
            ExchangeError::TokenExchange(failure) => failure.token_message(),
            ExchangeError::ProfileFetch(failure) => failure.account_message(),
            ExchangeError::CreditFetch(failure) => failure.account_message(),
            ExchangeError::OutOfTurn => String::from_str("内部错误: 收到了未请求的事件"),
        }
    }
}

} // verus!
