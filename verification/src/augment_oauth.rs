//! Turning a session into a credential: what to ask the authorization
//! service and the tenant, and what to make of their answers.

use vstd::prelude::*;
use crate::challenge::{
    ChallengeParameters, STATE_BYTES, VERIFIER_BYTES, generate_parameters, made_from,
};
use crate::error::{ExchangeError, PageField};
use crate::http::{ApiReply, classify_reply, reply_outcome};
use crate::text::{ends_with_slash, has_trailing_slash, opt_text};

verus! {

/// The client that the authorization service knows this program as.
pub const CLIENT_ID: &'static str = "v";

/// Where the authorization service lives.
pub const AUTH_BASE_URL: &'static str = "https://auth.augmentcode.com";

/// What the program calls itself when it fetches the consent page.
pub const USER_AGENT: &'static str =
    "Mozilla/5.0 (Windows NT 10.0; Win64; x64) AppleWebKit/537.36";

/// How the consent page's script carries the authorization code.
pub const CODE_PATTERN: &'static str = r#"code:\s*"([^"]+)""#;

/// How the consent page's script carries the echoed state.
pub const STATE_PATTERN: &'static str = r#"state:\s*"([^"]+)""#;

/// How the consent page's script carries the tenant's endpoint.
pub const TENANT_URL_PATTERN: &'static str = r#"tenant_url:\s*"([^"]+)""#;

/// What the first group of the regular expression `pattern` holds in its
/// first match in `text`. It is `None` where `pattern` is no regular
/// expression, where it matches nowhere in `text`, and where it matches
/// without its first group.
pub uninterp spec fn first_capture(pattern: Seq<char>, text: Seq<char>) -> Option<Seq<char>>;

/// `Regex::new`, `Regex::captures`, `Captures::get` and `Match::as_str` of
/// `regex`, in a row: compiles `pattern`, searches `text` for its first
/// match and copies what the first group holds there.
#[verifier::external_body]
fn capture_first(pattern: &str, text: &str) -> (captured: Option<String>)
    ensures
        opt_text(captured) == first_capture(pattern@, text@),
{
    let expression = regex::Regex::new(pattern).ok()?;
    let captures = expression.captures(text)?;
    captures.get(1).map(|found| found.as_str().to_string())
}

/// The address of the consent page for the given challenge, client and
/// state. The values go in as they are.
pub open spec fn consent_url_text(challenge: Seq<char>, client_id: Seq<char>, state: Seq<char>) -> Seq<
    char,
> {
    AUTH_BASE_URL@ + "/terms-accept?response_type=code&code_challenge="@ + challenge
        + "&client_id="@ + client_id + "&state="@ + state + "&prompt=login"@
}

/// The address of the consent page for the given challenge, client and
/// state.
pub fn build_consent_url(challenge: &str, client_id: &str, state: &str) -> (url: String)
    ensures
        url@ == consent_url_text(challenge@, client_id@, state@),
{
    let mut url = String::from_str(AUTH_BASE_URL);
    url.append("/terms-accept?response_type=code&code_challenge=");
    url.append(challenge);
    url.append("&client_id=");
    url.append(client_id);
    url.append("&state=");
    url.append(state);
    url.append("&prompt=login");
    url
}

/// The three values that the consent page carries.
#[derive(Debug, Clone, PartialEq, Eq)]
pub struct ExtractedFields {
    pub code: String,
    pub state: String,
    pub tenant_url: String,
}

/// The first value that is absent, asked in the order code, state, tenant.
pub open spec fn missing_page_field(
    code: Option<Seq<char>>,
    state: Option<Seq<char>>,
    tenant_url: Option<Seq<char>>,
) -> Option<PageField> {
    if code is None {
        Some(PageField::Code)
    } else if state is None {
        Some(PageField::State)
    } else if tenant_url is None {
        Some(PageField::TenantUrl)
    } else {
        None
    }
}

/// Whether `fields` are what a search of the page gave, where `code`,
/// `state` and `tenant_url` are what was found of each: the three values
/// where all were found, else `Extraction` with the first that was not.
pub open spec fn is_extraction(
    fields: Result<ExtractedFields, ExchangeError>,
    code: Option<Seq<char>>,
    state: Option<Seq<char>>,
    tenant_url: Option<Seq<char>>,
) -> bool {
    match fields {
        Ok(found) => {
            &&& code == Some(found.code@)
            &&& state == Some(found.state@)
            &&& tenant_url == Some(found.tenant_url@)
        },
        Err(e) => {
            &&& missing_page_field(code, state, tenant_url) is Some
            &&& e == ExchangeError::Extraction(missing_page_field(code, state, tenant_url)->0)
        },
    }
}

/// The three values, where all were found; else which one was not.
pub fn fields_from_captures(
    code: Option<String>,
    state: Option<String>,
    tenant_url: Option<String>,
) -> (fields: Result<ExtractedFields, ExchangeError>)
    ensures
        is_extraction(fields, opt_text(code), opt_text(state), opt_text(tenant_url)),
{
    match code {
        None => Err(ExchangeError::Extraction(PageField::Code)),
        Some(code) => match state {
            None => Err(ExchangeError::Extraction(PageField::State)),
            Some(state) => match tenant_url {
                None => Err(ExchangeError::Extraction(PageField::TenantUrl)),
                Some(tenant_url) => Ok(ExtractedFields { code, state, tenant_url }),
            },
        },
    }
}

/// The authorization code, the echoed state and the tenant's endpoint that
/// the script of the consent page `html` carries. Each is searched for by
/// itself. The state is handed out as it was found: it is not held against
/// the state that was sent.
pub fn extract_fields(html: &str) -> (fields: Result<ExtractedFields, ExchangeError>)
    ensures
        is_extraction(
            fields,
            first_capture(CODE_PATTERN@, html@),
            first_capture(STATE_PATTERN@, html@),
            first_capture(TENANT_URL_PATTERN@, html@),
        ),
{
    let code = capture_first(CODE_PATTERN, html);
    let state = capture_first(STATE_PATTERN, html);
    let tenant_url = capture_first(TENANT_URL_PATTERN, html);
    fields_from_captures(code, state, tenant_url)
}

/// The credential that a session was turned into, with what could be
/// learned of the account.
#[derive(Debug, Clone, PartialEq, Eq)]
pub struct AugmentTokenResponse {
    pub access_token: String,
    pub tenant_url: String,
    pub email: Option<String>,
    pub credits_balance: Option<i32>,
    pub expiry_date: Option<String>,
}

/// What the tenant tells of the account behind a token.
#[derive(Debug, Clone, PartialEq, Eq)]
pub struct ModelsResponse {
    pub user: UserData,
}

/// The account behind a token.
#[derive(Debug, Clone, PartialEq, Eq)]
pub struct UserData {
    pub id: String,
    pub email: String,
    pub tenant_id: String,
    pub tenant_name: String,
}

/// What the tenant tells of the account's credit: the whole units that are
/// left, and the day on which the billing cycle ends.
#[derive(Debug, Clone, PartialEq, Eq)]
pub struct CreditInfo {
    pub credits_balance: i32,
    pub expiry_date: String,
}

/// What is sent to the tenant to exchange a code for a token.
#[derive(Debug, Clone, PartialEq, Eq)]
pub struct TokenRequest {
    pub grant_type: String,
    pub client_id: String,
    pub code_verifier: String,
    pub redirect_uri: String,
    pub code: String,
}

/// A request to the tenant in the name of a token: where it goes, and the
/// authorization it carries. Its body is an empty object.
#[derive(Debug, Clone, PartialEq, Eq)]
pub struct ApiRequest {
    pub url: String,
    pub authorization: String,
}

/// Where a code is exchanged: the tenant's endpoint with `token` behind it.
pub open spec fn token_url_text(tenant_url: Seq<char>) -> Seq<char> {
    tenant_url + "token"@
}

/// The tenant's endpoint with a slash at its end.
pub open spec fn api_base_text(tenant_url: Seq<char>) -> Seq<char> {
    if ends_with_slash(tenant_url) {
        tenant_url
    } else {
        tenant_url + "/"@
    }
}

/// Where the tenant tells of the account.
pub open spec fn models_url_text(tenant_url: Seq<char>) -> Seq<char> {
    api_base_text(tenant_url) + "get-models"@
}

/// Where the tenant tells of the account's credit.
pub open spec fn credit_url_text(tenant_url: Seq<char>) -> Seq<char> {
    api_base_text(tenant_url) + "get-credit-info"@
}

/// The authorization that a token gives.
pub open spec fn bearer_text(token: Seq<char>) -> Seq<char> {
    "Bearer "@ + token
}

/// The cookie that carries a session.
pub open spec fn cookie_text(session: Seq<char>) -> Seq<char> {
    "session="@ + session
}

/// Whether `request` asks for the code `code` to be exchanged, with the
/// verifier `verifier`, in the name of the client `client_id`.
pub open spec fn is_token_request(
    request: TokenRequest,
    code: Seq<char>,
    verifier: Seq<char>,
    client_id: Seq<char>,
) -> bool {
    &&& request.grant_type@ == "authorization_code"@
    &&& request.client_id@ == client_id
    &&& request.code_verifier@ == verifier
    &&& request.redirect_uri@ == Seq::<char>::empty()
    &&& request.code@ == code
}

/// Whether `request` goes to `url` in the name of `token`.
pub open spec fn is_api_request(request: ApiRequest, url: Seq<char>, token: Seq<char>) -> bool {
    &&& request.url@ == url
    &&& request.authorization@ == bearer_text(token)
}

/// Where the code that `tenant_url` goes with is exchanged.
pub fn token_url(tenant_url: &str) -> (url: String)
    ensures
        url@ == token_url_text(tenant_url@),
{
    let mut url = String::from_str(tenant_url);
    url.append("token");
    url
}

/// The request that exchanges `code`.
pub fn token_request(code: String, verifier: String, client_id: &str) -> (request: TokenRequest)
    ensures
        is_token_request(request, code@, verifier@, client_id@),
{
    TokenRequest {
        grant_type: String::from_str("authorization_code"),
        client_id: String::from_str(client_id),
        code_verifier: verifier,
        redirect_uri: String::new(),
        code,
    }
}

/// The tenant's endpoint with `path` behind it, and a slash between the
/// two where the endpoint has none at its end.
fn endpoint(tenant_url: &str, path: &str) -> (url: String)
    ensures
        url@ == api_base_text(tenant_url@) + path@,
{
    let mut url = String::from_str(tenant_url);
    if !has_trailing_slash(tenant_url) {
        url.append("/");
    }
    url.append(path);
    url
}

/// The authorization that `token` gives.
fn bearer(token: &str) -> (authorization: String)
    ensures
        authorization@ == bearer_text(token@),
{
    let mut authorization = String::from_str("Bearer ");
    authorization.append(token);
    authorization
}

/// The request that asks the tenant at `tenant_url` for the account behind
/// `token`.
pub fn get_models(token: &str, tenant_url: &str) -> (request: ApiRequest)
    ensures
        is_api_request(request, models_url_text(tenant_url@), token@),
{
    ApiRequest { url: endpoint(tenant_url, "get-models"), authorization: bearer(token) }
}

/// The request that asks the tenant at `tenant_url` for the credit of the
/// account behind `token`.
pub fn get_credit_info(token: &str, tenant_url: &str) -> (request: ApiRequest)
    ensures
        is_api_request(request, credit_url_text(tenant_url@), token@),
{
    ApiRequest { url: endpoint(tenant_url, "get-credit-info"), authorization: bearer(token) }
}

/// What the tenant told of the account, or `ProfileFetch` with the reason
/// why it told nothing usable.
pub open spec fn profile_outcome(reply: Result<ApiReply<ModelsResponse>, String>) -> Result<
    ModelsResponse,
    ExchangeError,
> {
    match reply_outcome(reply) {
        Ok(models) => Ok(models),
        Err(failure) => Err(ExchangeError::ProfileFetch(failure)),
    }
}

/// What the tenant told of the credit, or `CreditFetch` with the reason why
/// it told nothing usable.
pub open spec fn credit_outcome(reply: Result<ApiReply<CreditInfo>, String>) -> Result<
    CreditInfo,
    ExchangeError,
> {
    match reply_outcome(reply) {
        Ok(credit) => Ok(credit),
        Err(failure) => Err(ExchangeError::CreditFetch(failure)),
    }
}

/// The token that the tenant gave for the code, or `TokenExchange` with the
/// reason why it gave none.
pub open spec fn token_outcome(reply: Result<ApiReply<String>, String>) -> Result<
    String,
    ExchangeError,
> {
    match reply_outcome(reply) {
        Ok(token) => Ok(token),
        Err(failure) => Err(ExchangeError::TokenExchange(failure)),
    }
}

/// Reads the tenant's answer about the account.
pub fn profile_from_reply(reply: Result<ApiReply<ModelsResponse>, String>) -> (profile: Result<
    ModelsResponse,
    ExchangeError,
>)
    ensures
        profile == profile_outcome(reply),
{
    match classify_reply(reply) {
        Ok(models) => Ok(models),
        Err(failure) => Err(ExchangeError::ProfileFetch(failure)),
    }
}

/// Reads the tenant's answer about the credit.
pub fn credit_from_reply(reply: Result<ApiReply<CreditInfo>, String>) -> (credit: Result<
    CreditInfo,
    ExchangeError,
>)
    ensures
        credit == credit_outcome(reply),
{
    match classify_reply(reply) {
        Ok(credit) => Ok(credit),
        Err(failure) => Err(ExchangeError::CreditFetch(failure)),
    }
}

/// Reads the tenant's answer to the exchange of the code.
pub fn token_from_reply(reply: Result<ApiReply<String>, String>) -> (token: Result<
    String,
    ExchangeError,
>)
    ensures
        token == token_outcome(reply),
{
    match classify_reply(reply) {
        Ok(token) => Ok(token),
        Err(failure) => Err(ExchangeError::TokenExchange(failure)),
    }
}

/// The credential for `access_token` at `tenant_url`, with what the tenant
/// told of the account. What it did not tell is absent: the email where the
/// profile failed, balance and expiry where the credit failed.
pub open spec fn composed(
    access_token: String,
    tenant_url: String,
    profile: Result<ModelsResponse, ExchangeError>,
    credit: Result<CreditInfo, ExchangeError>,
) -> AugmentTokenResponse {
    AugmentTokenResponse {
        access_token,
        tenant_url,
        email: match profile {
            Ok(models) => Some(models.user.email),
            Err(_) => None,
        },
        credits_balance: match credit {
            Ok(info) => Some(info.credits_balance),
            Err(_) => None,
        },
        expiry_date: match credit {
            Ok(info) => Some(info.expiry_date),
            Err(_) => None,
        },
    }
}

/// Puts the credential together. No failure of the profile or of the credit
/// is a failure of the whole.
pub fn compose_response(
    access_token: String,
    tenant_url: String,
    profile: Result<ModelsResponse, ExchangeError>,
    credit: Result<CreditInfo, ExchangeError>,
) -> (response: AugmentTokenResponse)
    ensures
        response == composed(access_token, tenant_url, profile, credit),
{
    let email = match profile {
        Ok(models) => Some(models.user.email),
        Err(_) => None,
    };
    let (credits_balance, expiry_date) = match credit {
        Ok(info) => (Some(info.credits_balance), Some(info.expiry_date)),
        Err(_) => (None, None),
    };
    AugmentTokenResponse { access_token, tenant_url, email, credits_balance, expiry_date }
}

/// Where an exchange stands.
#[derive(Debug, PartialEq, Eq)]
pub enum ExchangeState {
    /// The consent page was asked for. The verifier is kept for the
    /// exchange of the code.
    AwaitingConsentPage { verifier: String },
    /// The tenant was asked to exchange the code.
    AwaitingToken { tenant_url: String },
    /// The token is here; the tenant was asked about the account.
    AwaitingEnrichment { access_token: String, tenant_url: String },
    /// The exchange is over.
    Finished,
}

/// What the outside world answers to an exchange's requests.
#[derive(Debug, PartialEq, Eq)]
pub enum ExchangeEvent {
    /// The text of the consent page, whatever its status was, or why none
    /// came.
    ConsentPage(Result<String, String>),
    /// The tenant's answer to the exchange of the code; what is read from
    /// its body is the access token.
    Token(Result<ApiReply<String>, String>),
    /// The tenant's two answers about the account. Neither waits for the
    /// other.
    Enrichment {
        profile: Result<ApiReply<ModelsResponse>, String>,
        credit: Result<ApiReply<CreditInfo>, String>,
    },
}

/// What an exchange asks the outside world to do next.
#[derive(Debug, PartialEq, Eq)]
pub enum ExchangeAction {
    /// Get the page at `url`, with these two headers.
    FetchConsentPage { url: String, cookie: String, user_agent: String },
    /// Post `body` to `url`.
    ExchangeCode { url: String, body: TokenRequest },
    /// Send both requests at once.
    Enrich { profile: ApiRequest, credit: ApiRequest },
    /// Hand the outcome to the caller.
    Finish(Result<AugmentTokenResponse, ExchangeError>),
}

/// The next state of an exchange, and what it asks for.
#[derive(Debug, PartialEq, Eq)]
pub struct ExchangeStep {
    pub state: ExchangeState,
    pub action: ExchangeAction,
}

/// Whether `step` ends the exchange with the error `e`.
pub open spec fn fails_with(step: ExchangeStep, e: ExchangeError) -> bool {
    step.state is Finished && step.action == ExchangeAction::Finish(
        Err::<AugmentTokenResponse, ExchangeError>(e),
    )
}

/// Whether `step` begins the exchange of `session` with `parameters`: it
/// asks for the consent page, with the session as a cookie, and keeps the
/// verifier.
pub open spec fn is_first_step(session: Seq<char>, parameters: ChallengeParameters, step: ExchangeStep) -> bool {
    &&& step.state == (ExchangeState::AwaitingConsentPage { verifier: parameters.verifier })
    &&& step.action matches ExchangeAction::FetchConsentPage { url, cookie, user_agent }
    &&& url@ == consent_url_text(parameters.challenge@, CLIENT_ID@, parameters.state@)
    &&& cookie@ == cookie_text(session)
    &&& user_agent@ == USER_AGENT@
}

/// Whether `step` is what follows the consent page `html`, with `verifier`
/// kept: where the page lacks a value the exchange ends with `Extraction`
/// and the tenant is not asked; else the tenant that the page names is
/// asked to exchange the code that the page carries.
pub open spec fn is_step_after_page(verifier: String, html: Seq<char>, step: ExchangeStep) -> bool {
    let code = first_capture(CODE_PATTERN@, html);
    let state = first_capture(STATE_PATTERN@, html);
    let tenant_url = first_capture(TENANT_URL_PATTERN@, html);
    match missing_page_field(code, state, tenant_url) {
        Some(field) => fails_with(step, ExchangeError::Extraction(field)),
        None => {
            &&& step.state matches ExchangeState::AwaitingToken { tenant_url: kept }
            &&& kept@ == tenant_url->0
            &&& step.action matches ExchangeAction::ExchangeCode { url, body }
            &&& url@ == token_url_text(tenant_url->0)
            &&& is_token_request(body, code->0, verifier@, CLIENT_ID@)
        },
    }
}

/// Whether `step` is what follows the tenant's answer `reply` to the
/// exchange of the code: without a token the exchange ends with
/// `TokenExchange`; with one the tenant at `tenant_url` is asked about the
/// account and its credit.
pub open spec fn is_step_after_token(
    tenant_url: String,
    reply: Result<ApiReply<String>, String>,
    step: ExchangeStep,
) -> bool {
    match token_outcome(reply) {
        Err(e) => fails_with(step, e),
        Ok(access_token) => {
            &&& step.state == (ExchangeState::AwaitingEnrichment { access_token, tenant_url })
            &&& step.action matches ExchangeAction::Enrich { profile, credit }
            &&& is_api_request(profile, models_url_text(tenant_url@), access_token@)
            &&& is_api_request(credit, credit_url_text(tenant_url@), access_token@)
        },
    }
}

/// Whether `step` is what follows when `event` comes in `state`.
///
/// The requests follow one another: the consent page, the exchange of the
/// code, then the two questions about the account. A page that could not be
/// fetched ends the exchange with `Network`. After the token is here nothing
/// makes the exchange fail. An event that answers no request ends it with
/// `OutOfTurn`.
pub open spec fn is_exchange_step(state: ExchangeState, event: ExchangeEvent, step: ExchangeStep) -> bool {
    match (state, event) {
        (ExchangeState::AwaitingConsentPage { .. }, ExchangeEvent::ConsentPage(Err(reason))) => fails_with(
            step,
            ExchangeError::Network(reason),
        ),
        (ExchangeState::AwaitingConsentPage { verifier }, ExchangeEvent::ConsentPage(Ok(html))) => is_step_after_page(
            verifier,
            html@,
            step,
        ),
        (ExchangeState::AwaitingToken { tenant_url }, ExchangeEvent::Token(reply)) => is_step_after_token(
            tenant_url,
            reply,
            step,
        ),
        (
            ExchangeState::AwaitingEnrichment { access_token, tenant_url },
            ExchangeEvent::Enrichment { profile, credit },
        ) => {
            &&& step.state is Finished
            &&& step.action == ExchangeAction::Finish(
                Ok::<AugmentTokenResponse, ExchangeError>(
                    composed(
                        access_token,
                        tenant_url,
                        profile_outcome(profile),
                        credit_outcome(credit),
                    ),
                ),
            )
        },
        _ => fails_with(step, ExchangeError::OutOfTurn),
    }
}

/// Begins the exchange of `session` with the given parameters.
pub fn begin_exchange(session: &str, parameters: ChallengeParameters) -> (step: ExchangeStep)
    ensures
        is_first_step(session@, parameters, step),
{
    let url = build_consent_url(
        parameters.challenge.as_str(),
        CLIENT_ID,
        parameters.state.as_str(),
    );
    let mut cookie = String::from_str("session=");
    cookie.append(session);
    ExchangeStep {
        state: ExchangeState::AwaitingConsentPage { verifier: parameters.verifier },
        action: ExchangeAction::FetchConsentPage {
            url,
            cookie,
            user_agent: String::from_str(USER_AGENT),
        },
    }
}

/// Begins the exchange of `session` for a credential, with fresh
/// parameters: the first thing to do is to fetch the consent page.
pub fn extract_token_from_session(session: &str) -> (step: ExchangeStep)
    ensures
        exists|parameters: ChallengeParameters, verifier_bytes: Seq<u8>, state_bytes: Seq<u8>|
            {
                &&& verifier_bytes.len() == VERIFIER_BYTES
                &&& state_bytes.len() == STATE_BYTES
                &&& #[trigger] made_from(parameters, verifier_bytes, state_bytes)
                &&& is_first_step(session@, parameters, step)
            },
{
    let parameters = generate_parameters();
    let ghost made = parameters;
    let step = begin_exchange(session, parameters);
    proof {
        let (verifier_bytes, state_bytes) = choose|verifier_bytes: Seq<u8>, state_bytes: Seq<u8>|
            verifier_bytes.len() == VERIFIER_BYTES && state_bytes.len() == STATE_BYTES
                && #[trigger] made_from(made, verifier_bytes, state_bytes);
        assert(made_from(made, verifier_bytes, state_bytes));
    }
    step
}

/// Carries an exchange on with the answer to what it last asked for.
pub fn continue_exchange(state: ExchangeState, event: ExchangeEvent) -> (step: ExchangeStep)
    ensures
        is_exchange_step(state, event, step),
{
    match (state, event) {
        (ExchangeState::AwaitingConsentPage { .. }, ExchangeEvent::ConsentPage(Err(reason))) => ExchangeStep {
            state: ExchangeState::Finished,
            action: ExchangeAction::Finish(Err(ExchangeError::Network(reason))),
        },
        (ExchangeState::AwaitingConsentPage { verifier }, ExchangeEvent::ConsentPage(Ok(html))) => {
            match extract_fields(html.as_str()) {
                Err(e) => ExchangeStep {
                    state: ExchangeState::Finished,
                    action: ExchangeAction::Finish(Err(e)),
                },
                Ok(fields) => {
                    let url = token_url(fields.tenant_url.as_str());
                    let body = token_request(fields.code, verifier, CLIENT_ID);
                    ExchangeStep {
                        state: ExchangeState::AwaitingToken { tenant_url: fields.tenant_url },
                        action: ExchangeAction::ExchangeCode { url, body },
                    }
                },
            }
        },
        (ExchangeState::AwaitingToken { tenant_url }, ExchangeEvent::Token(reply)) => {
            match token_from_reply(reply) {
                Err(e) => ExchangeStep {
                    state: ExchangeState::Finished,
                    action: ExchangeAction::Finish(Err(e)),
                },
                Ok(access_token) => {
                    let profile = get_models(access_token.as_str(), tenant_url.as_str());
                    let credit = get_credit_info(access_token.as_str(), tenant_url.as_str());
                    ExchangeStep {
                        state: ExchangeState::AwaitingEnrichment { access_token, tenant_url },
                        action: ExchangeAction::Enrich { profile, credit },
                    }
                },
            }
        },
        (
            ExchangeState::AwaitingEnrichment { access_token, tenant_url },
            ExchangeEvent::Enrichment { profile, credit },
        ) => {
            let response = compose_response(
                access_token,
                tenant_url,
                profile_from_reply(profile),
                credit_from_reply(credit),
            );
            ExchangeStep {
                state: ExchangeState::Finished,
                action: ExchangeAction::Finish(Ok(response)),
            }
        },
        _ => ExchangeStep {
            state: ExchangeState::Finished,
            action: ExchangeAction::Finish(Err(ExchangeError::OutOfTurn)),
        },
    }
}

/// Whether the consent page `html` carries all three values.
pub open spec fn page_is_complete(html: Seq<char>) -> bool {
    &&& first_capture(CODE_PATTERN@, html) is Some
    &&& first_capture(STATE_PATTERN@, html) is Some
    &&& first_capture(TENANT_URL_PATTERN@, html) is Some
}

/// A consent page that lacks one of the three values ends the exchange with
/// `Extraction`. The tenant is not asked to exchange anything, and whatever
/// event comes later is answered with `OutOfTurn`: no request follows.
pub proof fn law_incomplete_page_ends_the_exchange(
    verifier: String,
    html: String,
    step: ExchangeStep,
    later: ExchangeEvent,
    next: ExchangeStep,
)
    requires
        !page_is_complete(html@),
        is_exchange_step(
            ExchangeState::AwaitingConsentPage { verifier },
            ExchangeEvent::ConsentPage(Ok(html)),
            step,
        ),
        is_exchange_step(step.state, later, next),
    ensures
        step.state is Finished,
        step.action matches ExchangeAction::Finish(Err(ExchangeError::Extraction(_))),
        !(step.action is ExchangeCode),
        fails_with(next, ExchangeError::OutOfTurn),
{
}

/// Once the token is here, no failure of the profile or of the credit makes
/// the exchange fail: it ends with the credential, in which the email is
/// absent where the profile failed, and balance and expiry are absent where
/// the credit failed.
pub proof fn law_enrichment_never_fails(
    access_token: String,
    tenant_url: String,
    profile: Result<ApiReply<ModelsResponse>, String>,
    credit: Result<ApiReply<CreditInfo>, String>,
    step: ExchangeStep,
)
    requires
        is_exchange_step(
            ExchangeState::AwaitingEnrichment { access_token, tenant_url },
            ExchangeEvent::Enrichment { profile, credit },
            step,
        ),
    ensures
        step.state is Finished,
        step.action matches ExchangeAction::Finish(Ok(response)) && {
            &&& response.access_token == access_token
            &&& response.tenant_url == tenant_url
            &&& match profile_outcome(profile) {
                Ok(models) => response.email == Some(models.user.email),
                Err(_) => response.email is None,
            }
            &&& match credit_outcome(credit) {
                Ok(info) => response.credits_balance == Some(info.credits_balance)
                    && response.expiry_date == Some(info.expiry_date),
                Err(_) => response.credits_balance is None && response.expiry_date is None,
            }
        },
{
}

/// Where the consent page carries all three values and the tenant gives a
/// token for the code, the exchange ends with a credential, whatever the
/// tenant tells of the account: its token is the one that the tenant gave,
/// its endpoint the one that the page named. Both are non-empty where what
/// the tenant gave and what the page named are.
pub proof fn law_complete_page_leads_to_a_credential(
    verifier: String,
    html: String,
    token_reply: Result<ApiReply<String>, String>,
    profile: Result<ApiReply<ModelsResponse>, String>,
    credit: Result<ApiReply<CreditInfo>, String>,
    after_page: ExchangeStep,
    after_token: ExchangeStep,
    last: ExchangeStep,
)
    requires
        page_is_complete(html@),
        first_capture(TENANT_URL_PATTERN@, html@)->0.len() > 0,
        token_outcome(token_reply) is Ok,
        token_outcome(token_reply)->Ok_0@.len() > 0,
        is_exchange_step(
            ExchangeState::AwaitingConsentPage { verifier },
            ExchangeEvent::ConsentPage(Ok(html)),
            after_page,
        ),
        is_exchange_step(after_page.state, ExchangeEvent::Token(token_reply), after_token),
        is_exchange_step(
            after_token.state,
            ExchangeEvent::Enrichment { profile, credit },
            last,
        ),
    ensures
        last.action matches ExchangeAction::Finish(Ok(response)) && {
            &&& response.access_token == token_outcome(token_reply)->Ok_0
            &&& response.tenant_url@ == first_capture(TENANT_URL_PATTERN@, html@)->0
            &&& response.access_token@.len() > 0
            &&& response.tenant_url@.len() > 0
        },
{
}

} // verus!
