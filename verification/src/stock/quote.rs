//! The dispatcher for quotation requests.

use vstd::prelude::*;
use crate::address::{build_url, url_with_params, within_limits};
use crate::auth::Auth;
use crate::error::{Error, UrlError};
use crate::types::request::{
    DailyPriceParameter, DailyPriceParameterView, PeriodicPriceParameter,
    PeriodicPriceParameterView, VolumeRankParameter,
};
use crate::types::{Account, Environment, MarketCode, PeriodCode, TrId};

verus! {

/// Makes `reqwest::Client` known to the verifier, as a handle that is carried
/// through and never looked into.
#[verifier::external_type_specification]
#[verifier::external_body]
pub struct ExClient(reqwest::Client);

/// Calls `reqwest::Client::clone`.
///
/// Trusted: that the clone is the same handle as the one it was made from. A
/// client is one reference-counted pointer to its connection pool, and its
/// clone is another pointer to that same pool; no new pool is built.
#[verifier::external_body]
fn share(client: &reqwest::Client) -> (copy: reqwest::Client)
    ensures
        copy == *client,
{
    client.clone()
}

/// The headers every request carries, in the order they are attached.
pub open spec fn header_lines(
    token: Seq<char>,
    appkey: Seq<char>,
    appsecret: Seq<char>,
    tr_id: Seq<char>,
) -> Seq<(Seq<char>, Seq<char>)> {
    seq![
        ("Content-Type"@, "application/json"@),
        ("Authorization"@, "Bearer "@ + token),
        ("appkey"@, appkey),
        ("appsecret"@, appsecret),
        ("tr_id"@, tr_id),
        ("custtype"@, "P"@),
    ]
}

/// Assembles the headers of one request.
pub fn headers(token: &str, appkey: &str, appsecret: &str, tr_id: &str) -> (lines: Vec<
    (String, String),
>)
    ensures
        lines.deep_view() == header_lines(token@, appkey@, appsecret@, tr_id@),
{
    let mut lines: Vec<(String, String)> = Vec::new();
    lines.push((String::from_str("Content-Type"), String::from_str("application/json")));
    lines.push((String::from_str("Authorization"), String::from_str("Bearer ").concat(token)));
    lines.push((String::from_str("appkey"), String::from_str(appkey)));
    lines.push((String::from_str("appsecret"), String::from_str(appsecret)));
    lines.push((String::from_str("tr_id"), String::from_str(tr_id)));
    lines.push((String::from_str("custtype"), String::from_str("P")));
    assert(lines.deep_view() =~= header_lines(token@, appkey@, appsecret@, tr_id@));
    lines
}

/// One HTTP GET, ready to be sent.
#[derive(Debug, PartialEq)]
pub struct Request {
    /// The full address, query included.
    pub url: String,
    /// The headers, in the order they are attached.
    pub headers: Vec<(String, String)>,
}

/// What a [`Request`] holds, as mathematical values.
pub struct RequestView {
    pub url: Seq<char>,
    pub headers: Seq<(Seq<char>, Seq<char>)>,
}

impl View for Request {
    type V = RequestView;

    open spec fn view(&self) -> RequestView {
        RequestView { url: self.url@, headers: self.headers.deep_view() }
    }
}

/// The address an operation is sent to: the base URL of the environment,
/// followed by the operation's path.
///
/// The volume ranking has no simulated counterpart on the server, so it is
/// always addressed to the live host.
pub open spec fn target_of(tr_id: TrId, environment: Environment) -> Seq<char> {
    match tr_id {
        TrId::VolumeRank => Environment::Real.endpoint() + tr_id.path(),
        _ => environment.endpoint() + tr_id.path(),
    }
}

/// The dispatcher: everything a quotation request is made from.
///
/// Its base URL is fixed by its environment when it is made and never
/// changes afterwards.
pub struct Quote {
    client: reqwest::Client,
    endpoint_url: String,
    environment: Environment,
    auth: Auth,
    account: Account,
}

impl Quote {
    #[verifier::type_invariant]
    spec fn consistent(&self) -> bool {
        self.endpoint_url@ == self.environment.endpoint()
    }

    /// The environment this dispatcher was made for.
    pub closed spec fn environment(&self) -> Environment {
        self.environment
    }

    /// The authentication provider this dispatcher signs with.
    pub closed spec fn auth(&self) -> Auth {
        self.auth
    }

    /// The account this dispatcher was made for.
    pub closed spec fn account(&self) -> Account {
        self.account
    }

    /// The handle to the connection pool that this dispatcher holds.
    pub closed spec fn handle(&self) -> reqwest::Client {
        self.client
    }

    /// What [`Quote::send_request`] returns for an address and an operation:
    /// the signed request, or the authentication failure where no token is held.
    pub open spec fn signed(&self, url: Seq<char>, tr_id: TrId, r: Result<Request, Error>) -> bool {
        match self.auth().token() {
            Some(token) => r matches Ok(request) && request@ == (RequestView {
                url,
                headers: header_lines(
                    token,
                    self.auth().appkey(),
                    self.auth().appsecret(),
                    tr_id.code(),
                ),
            }),
            None => r == Err::<Request, Error>(Error::AuthInitFailed("token")),
        }
    }

    /// What an operation returns for its address, its query parameters and
    /// its transaction identifier.
    ///
    /// The token is asked for first: without one the operation fails with
    /// the authentication failure on every input. With one, the address is
    /// built and its failures are reported, the parser's error unchanged.
    pub open spec fn dispatched(
        &self,
        target: Seq<char>,
        pairs: Seq<(Seq<char>, Seq<char>)>,
        tr_id: TrId,
        r: Result<Request, Error>,
    ) -> bool {
        if self.auth().token() is None {
            r == Err::<Request, Error>(Error::AuthInitFailed("token"))
        } else if !within_limits(target, pairs) {
            r == Err::<Request, Error>(Error::Url(UrlError::Oversize))
        } else {
            match url_with_params(target, pairs) {
                Err(e) => r == Err::<Request, Error>(Error::Url(UrlError::Rejected(e))),
                Ok(url) => self.signed(url, tr_id, r),
            }
        }
    }

    /// A dispatcher for an environment, signing with `auth` on behalf of
    /// `account`. It shares the connection pool of `client`.
    pub fn new(
        client: &reqwest::Client,
        environment: Environment,
        auth: Auth,
        account: Account,
    ) -> (r: Result<Self, Error>)
        ensures
            r matches Ok(quote) && quote.environment() == environment && quote.auth() == auth
                && quote.account() == account && quote.handle() == *client,
    {
        let endpoint_url = String::from_str(environment.endpoint_url());
        Ok(Quote { client: share(client), endpoint_url, environment, auth, account })
    }

    /// The connection pool requests are to be sent through: the handle this
    /// dispatcher holds, not a fresh one.
    pub fn client(&self) -> (client: &reqwest::Client)
        ensures
            *client == self.handle(),
    {
        &self.client
    }

    /// The base URL of this dispatcher's environment.
    pub fn endpoint_url(&self) -> (url: &String)
        ensures
            url@ == self.environment().endpoint(),
    {
        proof {
            use_type_invariant(self);
        }
        &self.endpoint_url
    }

    /// The address of an operation, before its query is attached.
    pub fn target(&self, tr_id: TrId) -> (target: String)
        ensures
            target@ == target_of(tr_id, self.environment()),
    {
        proof {
            use_type_invariant(self);
        }
        match tr_id {
            TrId::VolumeRank => String::from_str(Environment::Real.endpoint_url()).concat(
                tr_id.path_str(),
            ),
            _ => self.endpoint_url.clone().concat(tr_id.path_str()),
        }
    }

    /// Signs a request for a fully resolved address.
    ///
    /// The token is read from the authentication provider at this moment.
    /// Where none is held the call fails at once and no request exists to be
    /// sent.
    pub fn send_request(&self, url: String, tr_id: TrId) -> (r: Result<Request, Error>)
        ensures
            self.signed(url@, tr_id, r),
    {
        match self.auth.get_token() {
            Some(token) => Ok(self.sign(token.as_str(), url, tr_id)),
            None => Err(Error::AuthInitFailed("token")),
        }
    }

    /// The request for an address and an operation, signed with a token and
    /// the provider's static credentials.
    fn sign(&self, token: &str, url: String, tr_id: TrId) -> (request: Request)
        ensures
            request@ == (RequestView {
                url: url@,
                headers: header_lines(
                    token@,
                    self.auth().appkey(),
                    self.auth().appsecret(),
                    tr_id.code(),
                ),
            }),
    {
        let appkey = self.auth.get_appkey();
        let appsecret = self.auth.get_appsecret();
        let lines = headers(token, appkey.as_str(), appsecret.as_str(), tr_id.as_str());
        Request { url, headers: lines }
    }

    /// Prepares the request for the daily prices of one symbol.
    pub fn daily_price(
        &self,
        market_code: MarketCode,
        shortcode: &str,
        period_code: PeriodCode,
        is_adjust_price: bool,
    ) -> (r: Result<Request, Error>)
        ensures
            self.dispatched(
                target_of(TrId::DailyPrice, self.environment()),
                (DailyPriceParameterView {
                    market_code,
                    shortcode: shortcode@,
                    period_code,
                    is_adjust_price,
                }).pairs(),
                TrId::DailyPrice,
                r,
            ),
    {
        let param = DailyPriceParameter::new(
            market_code,
            String::from_str(shortcode),
            period_code,
            is_adjust_price,
        );
        self.dispatch(TrId::DailyPrice, &param.query_pairs())
    }

    /// Prepares the request for the prices of one symbol between two days,
    /// each written `YYYYMMDD`.
    pub fn periodic_price(
        &self,
        market_code: MarketCode,
        shortcode: &str,
        period_code: PeriodCode,
        start_day: &str,
        end_day: &str,
        is_adjust_price: bool,
    ) -> (r: Result<Request, Error>)
        ensures
            self.dispatched(
                target_of(TrId::PeriodicPrice, self.environment()),
                (PeriodicPriceParameterView {
                    market_code,
                    shortcode: shortcode@,
                    start_day: start_day@,
                    end_day: end_day@,
                    period_code,
                    is_adjust_price,
                }).pairs(),
                TrId::PeriodicPrice,
                r,
            ),
    {
        let param = PeriodicPriceParameter::new(
            market_code,
            String::from_str(shortcode),
            String::from_str(start_day),
            String::from_str(end_day),
            period_code,
            is_adjust_price,
        );
        self.dispatch(TrId::PeriodicPrice, &param.query_pairs())
    }

    /// Prepares the request for the symbols ranked by traded volume.
    ///
    /// The server offers this ranking on the live host only, so the request
    /// is addressed there whatever environment the dispatcher was made for.
    pub fn volume_rank(&self, params: VolumeRankParameter) -> (r: Result<Request, Error>)
        ensures
            self.dispatched(
                target_of(TrId::VolumeRank, Environment::Real),
                params@.pairs(),
                TrId::VolumeRank,
                r,
            ),
    {
        self.dispatch(TrId::VolumeRank, &params.query_pairs())
    }

    /// Asks for the token, resolves the address of an operation and signs
    /// the request.
    fn dispatch(&self, tr_id: TrId, pairs: &Vec<(String, String)>) -> (r: Result<Request, Error>)
        ensures
            self.dispatched(target_of(tr_id, self.environment()), pairs.deep_view(), tr_id, r),
    {
        let token = match self.auth.get_token() {
            Some(token) => token,
            None => {
                return Err(Error::AuthInitFailed("token"));
            },
        };
        let target = self.target(tr_id);
        match build_url(target.as_str(), pairs) {
            Ok(url) => Ok(self.sign(token.as_str(), url, tr_id)),
            Err(e) => Err(e),
        }
    }
}

impl Clone for Quote {
    /// Another dispatcher with the same configuration, sharing the
    /// connection pool.
    fn clone(&self) -> (copy: Self)
        ensures
            copy.environment() == self.environment(),
            copy.auth().appkey() == self.auth().appkey(),
            copy.auth().appsecret() == self.auth().appsecret(),
            copy.auth().token() == self.auth().token(),
            copy.account() == self.account(),
            copy.handle() == self.handle(),
    {
        proof {
            use_type_invariant(self);
        }
        Quote {
            client: share(&self.client),
            endpoint_url: self.endpoint_url.clone(),
            environment: self.environment,
            auth: self.auth.clone(),
            account: self.account.clone(),
        }
    }
}

/// Every operation but the volume ranking is addressed to the host and port
/// of the configured environment: port 9443 of the live host, port 29443 of
/// the simulated one. The volume ranking is addressed to the live host
/// whatever the environment.
pub proof fn target_follows_environment(tr_id: TrId, environment: Environment)
    ensures
        Environment::Real.endpoint() == "https://openapi.koreainvestment.com:9443"@,
        Environment::Virtual.endpoint() == "https://openapivts.koreainvestment.com:29443"@,
        tr_id != TrId::VolumeRank ==> target_of(tr_id, environment) == environment.endpoint()
            + tr_id.path(),
        target_of(TrId::VolumeRank, environment) == Environment::Real.endpoint()
            + TrId::VolumeRank.path(),
        target_of(TrId::VolumeRank, environment) == target_of(TrId::VolumeRank, Environment::Real),
{
}

/// Without a token every operation fails with the authentication failure,
/// whatever its address and its parameters: no request comes to be, so
/// nothing can be sent.
pub proof fn no_token_no_request(
    quote: Quote,
    target: Seq<char>,
    pairs: Seq<(Seq<char>, Seq<char>)>,
    tr_id: TrId,
    r: Result<Request, Error>,
)
    requires
        quote.auth().token() is None,
        quote.dispatched(target, pairs, tr_id, r),
    ensures
        r == Err::<Request, Error>(Error::AuthInitFailed("token")),
{
}

/// Without a token, signing fails with the authentication failure for every
/// address and every operation.
pub proof fn no_token_no_signature(
    quote: Quote,
    url: Seq<char>,
    tr_id: TrId,
    r: Result<Request, Error>,
)
    requires
        quote.auth().token() is None,
        quote.signed(url, tr_id, r),
    ensures
        r == Err::<Request, Error>(Error::AuthInitFailed("token")),
{
}

/// A signed request carries exactly the six headers of the server's
/// contract, with the token as bearer credential and `P` as customer type.
pub proof fn signed_request_headers(
    quote: Quote,
    url: Seq<char>,
    tr_id: TrId,
    r: Result<Request, Error>,
)
    requires
        quote.signed(url, tr_id, r),
        quote.auth().token() is Some,
    ensures
        r is Ok,
        r.unwrap()@.url == url,
        r.unwrap()@.headers.len() == 6,
        r.unwrap()@.headers[0] == ("Content-Type"@, "application/json"@),
        r.unwrap()@.headers[1] == ("Authorization"@, "Bearer "@ + quote.auth().token().unwrap()),
        r.unwrap()@.headers[2] == ("appkey"@, quote.auth().appkey()),
        r.unwrap()@.headers[3] == ("appsecret"@, quote.auth().appsecret()),
        r.unwrap()@.headers[4] == ("tr_id"@, tr_id.code()),
        r.unwrap()@.headers[5] == ("custtype"@, "P"@),
{
}

} // verus!
