//! The client of the gateway's management API.
//!
//! The client is in one of two states, told apart by its type. A client
//! that has not logged in can only log in. Logging in yields a client that
//! holds the session's token and can ask for everything else; there is no
//! other way to make one.
//!
//! The client sends nothing itself. It says which request is to be sent, and
//! what an exchange that has taken place means.
use vstd::prelude::*;
use vstd::string::*;
use secrecy::ExposeSecret;
use secrecy::SecretString;
pub use crate::api::responses::ConnectedDevice;
use crate::api::responses::SessionResponse;

pub mod responses;

verus! {

/// The states in which a client can be.
pub trait ApiState {

}

/// The state of a client that has not logged in.
pub struct Unauthenticated;

/// The state of a client that has logged in: it holds the token of the
/// session, kept as a `secrecy::SecretString` so that it is wiped when the
/// client is dropped and is never shown by accident.
///
/// Verus does not look inside this type. What it holds is spoken of as
/// `sealed_token`.
#[verifier::external_body]
pub struct Authenticated {
    token: SecretString,
}

impl ApiState for Unauthenticated {

}

impl ApiState for Authenticated {

}

/// The text of the token that a logged-in state holds.
pub uninterp spec fn sealed_token(state: Authenticated) -> Seq<char>;

/// Puts a token under seal with `SecretString::from`, which moves the text
/// into the secret unchanged: the state that results holds exactly `token`.
#[verifier::external_body]
fn seal(token: String) -> (state: Authenticated)
    ensures
        sealed_token(state) == token@,
{
    Authenticated { token: SecretString::from(token) }
}

/// Reads the token with `ExposeSecret::expose_secret`, which hands out a
/// reference to the text inside the secret: the result is exactly what the
/// state holds.
#[verifier::external_body]
fn expose(state: &Authenticated) -> (token: &str)
    ensures
        token@ == sealed_token(*state),
{
    state.token.expose_secret()
}

/// The methods of HTTP that the client uses.
#[derive(Clone, Copy, PartialEq, Eq, Debug, Structural)]
pub enum Method {
    Get,
    Post,
    Put,
}

/// The name and password that a login sends, as the fields `username` and
/// `password` of a JSON object.
#[derive(Clone, PartialEq, Eq, Debug)]
pub struct Credentials {
    pub username: String,
    pub password: String,
}

/// A request that is to be sent to the gateway.
#[derive(Clone, PartialEq, Eq, Debug)]
pub struct Request {
    pub method: Method,
    /// The full address: the base of the API and the route.
    pub url: String,
    /// The value of the `authorization` header, where the request has one.
    pub authorization: Option<String>,
    /// The body, where the request has one.
    pub body: Option<Credentials>,
}

/// The mathematical value of a [`Request`].
pub ghost struct RequestView {
    pub method: Method,
    pub url: Seq<char>,
    pub authorization: Option<Seq<char>>,
    pub body: Option<(Seq<char>, Seq<char>)>,
}

impl View for Request {
    type V = RequestView;

    open spec fn view(&self) -> RequestView {
        RequestView {
            method: self.method,
            url: self.url@,
            authorization: match self.authorization {
                Some(value) => Some(value@),
                None => None,
            },
            body: match self.body {
                Some(credentials) => Some((credentials.username@, credentials.password@)),
                None => None,
            },
        }
    }
}

/// What became of a request.
#[derive(PartialEq, Eq, Debug)]
pub enum Exchange<T> {
    /// No answer came: the request could not be sent, or the connection
    /// broke. `cause` says what went wrong.
    Failed { cause: String },
    /// The gateway answered with `status`. `body` is the body of the answer
    /// read in the shape that was expected, or else why it could not be read
    /// so.
    Answered { status: u16, body: Result<T, String> },
}

/// Why a login did not succeed.
#[derive(Clone, PartialEq, Eq, Debug)]
pub enum LoginError {
    /// No answer came from the gateway.
    Unreachable { cause: String },
    /// The gateway turned the login down.
    Rejected,
    /// The gateway accepted the login, but its answer holds no token that
    /// could be read.
    Malformed { cause: String },
}

/// The mathematical value of a [`LoginError`].
pub ghost enum LoginFault {
    Unreachable { cause: Seq<char> },
    Rejected,
    Malformed { cause: Seq<char> },
}

impl View for LoginError {
    type V = LoginFault;

    open spec fn view(&self) -> LoginFault {
        match self {
            LoginError::Unreachable { cause } => LoginFault::Unreachable { cause: cause@ },
            LoginError::Rejected => LoginFault::Rejected,
            LoginError::Malformed { cause } => LoginFault::Malformed { cause: cause@ },
        }
    }
}

/// Whether a status is one of success, 200 to 299.
pub open spec fn is_success(status: u16) -> bool {
    200 <= status <= 299
}

/// What a login's exchange yields: the token of the session, or the reason
/// why there is none. The status is judged before the body is looked at.
pub open spec fn session_token(outcome: Exchange<SessionResponse>) -> Result<
    Seq<char>,
    LoginFault,
> {
    match outcome {
        Exchange::Failed { cause } => Err(LoginFault::Unreachable { cause: cause@ }),
        Exchange::Answered { status, body } => if !is_success(status) {
            Err(LoginFault::Rejected)
        } else {
            match body {
                Ok(session) => Ok(session.token@),
                Err(cause) => Err(LoginFault::Malformed { cause: cause@ }),
            }
        },
    }
}

/// What an exchange yields when only its body counts: the body, if an answer
/// came and could be read, whatever its status.
pub open spec fn fetched<T>(outcome: Exchange<T>) -> Option<T> {
    match outcome {
        Exchange::Answered { status, body: Ok(value) } => Some(value),
        _ => None,
    }
}

/// What is said of a login that did not succeed.
pub open spec fn login_fault_text(fault: LoginFault) -> Seq<char> {
    match fault {
        LoginFault::Unreachable { cause } => "can't send /session: "@ + cause,
        LoginFault::Rejected => "login failed. (are the credentials correct?)"@,
        LoginFault::Malformed { cause } => "can't parse /session response: "@ + cause,
    }
}

/// The exit code with which the program ends after a failed login: 0 when
/// the gateway turned the login down, 101 when the login broke.
pub open spec fn login_fault_code(fault: LoginFault) -> i32 {
    match fault {
        LoginFault::Rejected => 0,
        _ => 101,
    }
}

impl LoginError {
    /// What to tell the operator.
    pub fn to_string(&self) -> (text: String)
        ensures
            text@ == login_fault_text(self@),
    {
        match self {
            LoginError::Unreachable { cause } => {
                let mut text = String::from_str("can't send /session: ");
                text.append(cause.as_str());
                text
            },
            LoginError::Rejected => String::from_str(
                "login failed. (are the credentials correct?)",
            ),
            LoginError::Malformed { cause } => {
                let mut text = String::from_str("can't parse /session response: ");
                text.append(cause.as_str());
                text
            },
        }
    }

    /// The exit code with which the program is to end.
    pub fn exit_code(&self) -> (code: i32)
        ensures
            code == login_fault_code(self@),
    {
        match self {
            LoginError::Rejected => 0,
            _ => 101,
        }
    }
}

/// What is said of an exchange that brought no body: why the request could
/// not be sent, or that the answer could not be read. Nothing is said of one
/// that brought a body.
pub open spec fn complaint_text<T>(outcome: Exchange<T>) -> Option<Seq<char>> {
    match outcome {
        Exchange::Failed { cause } => Some("failed to GET /connected_device: "@ + cause@),
        Exchange::Answered { status, body: Err(cause) } => Some("failed to parse response."@),
        Exchange::Answered { status, body: Ok(value) } => None,
    }
}

impl<T> Exchange<T> {
    /// The complaint to log about this exchange, if it brought no body.
    pub fn complaint(&self) -> (text: Option<String>)
        ensures
            match text {
                Some(t) => complaint_text(*self) == Some(t@),
                None => complaint_text(*self) is None,
            },
    {
        match self {
            Exchange::Failed { cause } => {
                let mut text = String::from_str("failed to GET /connected_device: ");
                text.append(cause.as_str());
                Some(text)
            },
            Exchange::Answered { status: _, body: Err(_) } => Some(
                String::from_str("failed to parse response."),
            ),
            Exchange::Answered { status: _, body: Ok(_) } => None,
        }
    }
}

/// A client of the API, in the state `State`.
pub struct Api<'a, State: ApiState> {
    url: &'a str,
    state: State,
}

impl<State: ApiState> Api<'_, State> {
    /// The address under which the API is reached.
    pub closed spec fn base(&self) -> Seq<char> {
        self.url@
    }

    /// The full address of `route`.
    pub fn with_route(&self, route: &str) -> (url: String)
        ensures
            url@ == self.base() + route@,
    {
        let mut url = String::from_str(self.url);
        url.append(route);
        url
    }
}

impl<'a> Api<'a, Unauthenticated> {
    /// A client of the gateway at its fixed address, not logged in.
    pub fn new() -> (api: Self)
        ensures
            api.base() == "http://10.0.0.1/api/v1"@,
    {
        Api { url: "http://10.0.0.1/api/v1", state: Unauthenticated }
    }

    /// The request that logs in: a `POST` of the credentials to `/session`,
    /// with no `authorization` header.
    pub fn login(&self, username: &str, password: &str) -> (request: Request)
        ensures
            request@ == (RequestView {
                method: Method::Post,
                url: self.base() + "/session"@,
                authorization: None,
                body: Some((username@, password@)),
            }),
    {
        Request {
            method: Method::Post,
            url: self.with_route("/session"),
            authorization: None,
            body: Some(
                Credentials {
                    username: String::from_str(username),
                    password: String::from_str(password),
                },
            ),
        }
    }

    /// Turns the client into a logged-in one, given what became of the
    /// request of `login`. It succeeds exactly when the gateway answered with
    /// a status of success and a token that could be read; the new client
    /// then holds that token and has the same address.
    pub fn authenticate(self, outcome: Exchange<SessionResponse>) -> (entered: Result<
        Api<'a, Authenticated>,
        LoginError,
    >)
        ensures
            match entered {
                Ok(api) => session_token(outcome) == Ok::<Seq<char>, LoginFault>(api.bearer())
                    && api.base() == self.base(),
                Err(e) => session_token(outcome) == Err::<Seq<char>, LoginFault>(e@),
            },
    {
        match self.get_token(outcome) {
            Ok(state) => Ok(Api { url: self.url, state }),
            Err(e) => Err(e),
        }
    }

    /// Judges a login's exchange and puts the token that it brought under
    /// seal.
    fn get_token(&self, outcome: Exchange<SessionResponse>) -> (sealed: Result<
        Authenticated,
        LoginError,
    >)
        ensures
            match sealed {
                Ok(state) => session_token(outcome) == Ok::<Seq<char>, LoginFault>(
                    sealed_token(state),
                ),
                Err(e) => session_token(outcome) == Err::<Seq<char>, LoginFault>(e@),
            },
    {
        match outcome {
            Exchange::Failed { cause } => Err(LoginError::Unreachable { cause }),
            Exchange::Answered { status, body } => {
                if status < 200 || status > 299 {
                    Err(LoginError::Rejected)
                } else {
                    match body {
                        Ok(session) => Ok(seal(session.token)),
                        Err(cause) => Err(LoginError::Malformed { cause }),
                    }
                }
            },
        }
    }
}

impl<'a> Api<'a, Authenticated> {
    /// The token of the session.
    pub closed spec fn bearer(&self) -> Seq<char> {
        sealed_token(self.state)
    }

    /// The value of the `authorization` header of this session.
    pub open spec fn authorization(&self) -> Seq<char> {
        "Bearer "@ + self.bearer()
    }

    /// The token of the session, in the clear. It is meant for the
    /// `authorization` header and for nothing else.
    pub fn token(&self) -> (token: String)
        ensures
            token@ == self.bearer(),
    {
        String::from_str(expose(&self.state))
    }

    /// A request without a body that carries the session's token, as every
    /// request of a logged-in client does.
    fn authorized(&self, method: Method, route: &str) -> (request: Request)
        ensures
            request@ == (RequestView {
                method,
                url: self.base() + route@,
                authorization: Some(self.authorization()),
                body: None,
            }),
    {
        let mut value = String::from_str("Bearer ");
        value.append(self.token().as_str());
        Request { method, url: self.with_route(route), authorization: Some(value), body: None }
    }

    /// A `GET` of `route` that carries the session's token.
    pub fn get<'b>(&self, route: &'b str) -> (request: Request)
        ensures
            request@ == (RequestView {
                method: Method::Get,
                url: self.base() + route@,
                authorization: Some(self.authorization()),
                body: None,
            }),
    {
        self.authorized(Method::Get, route)
    }

    /// A `POST` to `route` that carries the session's token.
    pub fn post<'b>(&self, route: &'b str) -> (request: Request)
        ensures
            request@ == (RequestView {
                method: Method::Post,
                url: self.base() + route@,
                authorization: Some(self.authorization()),
                body: None,
            }),
    {
        self.authorized(Method::Post, route)
    }

    /// A `PUT` to `route` that carries the session's token.
    pub fn put<'b>(&self, route: &'b str) -> (request: Request)
        ensures
            request@ == (RequestView {
                method: Method::Put,
                url: self.base() + route@,
                authorization: Some(self.authorization()),
                body: None,
            }),
    {
        self.authorized(Method::Put, route)
    }

    /// The request for the list of connected devices.
    pub fn connected_devices_request(&self) -> (request: Request)
        ensures
            request@ == (RequestView {
                method: Method::Get,
                url: self.base() + "/connected_device"@,
                authorization: Some(self.authorization()),
                body: None,
            }),
    {
        self.get("/connected_device")
    }

    /// The connected devices that the gateway listed, given what became of
    /// the request for them: nothing when no answer came or it could not be
    /// read, and the list otherwise, which may be empty.
    pub fn connected_devices(&self, outcome: Exchange<Vec<ConnectedDevice>>) -> (devices: Option<
        Vec<ConnectedDevice>,
    >)
        ensures
            devices == fetched(outcome),
    {
        match outcome {
            Exchange::Answered { status: _, body: Ok(devices) } => Some(devices),
            _ => None,
        }
    }

    /// The request for the connected device with the address `mac_address`.
    /// The address is passed on as it is written.
    pub fn connected_device_request(&self, mac_address: &str) -> (request: Request)
        ensures
            request@ == (RequestView {
                method: Method::Get,
                url: self.base() + "/connected_device/"@ + mac_address@,
                authorization: Some(self.authorization()),
                body: None,
            }),
    {
        let mut route = String::from_str("/connected_device/");
        route.append(mac_address);
        let request = self.get(route.as_str());
        assert(self.base() + ("/connected_device/"@ + mac_address@) == self.base()
            + "/connected_device/"@ + mac_address@);
        request
    }

    /// The connected device that the gateway described, given what became of
    /// the request for it: nothing when no answer came or it could not be
    /// read.
    pub fn connected_device(&self, outcome: Exchange<ConnectedDevice>) -> (device: Option<
        ConnectedDevice,
    >)
        ensures
            device == fetched(outcome),
    {
        match outcome {
            Exchange::Answered { status: _, body: Ok(device) } => Some(device),
            _ => None,
        }
    }

    /// The request that restarts the gateway.
    pub fn restart_request(&self) -> (request: Request)
        ensures
            request@ == (RequestView {
                method: Method::Put,
                url: self.base() + "/action/1"@,
                authorization: Some(self.authorization()),
                body: None,
            }),
    {
        self.put("/action/1")
    }

    /// Whether the gateway took the order to restart, given what became of
    /// the request: it did exactly when an answer came, whatever the answer
    /// says.
    pub fn restart(&self, outcome: Exchange<()>) -> (taken: Result<(), ()>)
        ensures
            taken is Ok <==> outcome is Answered,
    {
        match outcome {
            Exchange::Answered { status: _, body: _ } => Ok(()),
            Exchange::Failed { cause: _ } => Err(()),
        }
    }

    /// The state of the local network. The API has no route for it, so there
    /// is never one to report.
    pub fn lan_status(&self) -> (status: Option<LanStatus>)
        ensures
            status is None,
    {
        None
    }
}

/// The name servers of one address family.
#[derive(Clone, PartialEq, Eq, Debug)]
pub struct DnsStatus {
    pub auto: bool,
    pub dns1: String,
    pub dns2: String,
    pub dns3: String,
}

/// The state of the link to the provider.
#[derive(Clone, PartialEq, Eq, Debug)]
pub struct WanStatus {
    pub id: String,
    pub mode: WanMode,
    pub gateway_v4: String,
    pub gateway_v6: String,
    pub dns_v4: DnsStatus,
    pub dns_v6: DnsStatus,
}

/// How the link to the provider gets its address.
#[derive(Clone, Copy, PartialEq, Eq, Debug, Structural)]
pub enum WanMode {
    PPPoE,
    DHCP,
    Static,
}

/// The error for a number that stands for no [`WanMode`].
#[derive(Clone, Copy, PartialEq, Eq, Debug, Structural)]
pub struct InvalidWanMode;

/// The mode that a number stands for: 0 for DHCP, 1 for a static address,
/// 2 for PPPoE, and none for any other number.
pub open spec fn wan_mode_of(value: usize) -> Result<WanMode, InvalidWanMode> {
    if value == 0 {
        Ok(WanMode::DHCP)
    } else if value == 1 {
        Ok(WanMode::Static)
    } else if value == 2 {
        Ok(WanMode::PPPoE)
    } else {
        Err(InvalidWanMode)
    }
}

impl TryFrom<usize> for WanMode {
    type Error = InvalidWanMode;

    fn try_from(value: usize) -> (mode: Result<Self, Self::Error>)
    {
        match value {
            0 => Ok(Self::DHCP),
            1 => Ok(Self::Static),
            2 => Ok(Self::PPPoE),
            _ => Err(InvalidWanMode),
        }
    }
}

impl vstd::std_specs::convert::TryFromSpecImpl<usize> for WanMode {
    open spec fn obeys_try_from_spec() -> bool {
        true
    }

    open spec fn try_from_spec(value: usize) -> Result<Self, Self::Error> {
        wan_mode_of(value)
    }
}

/// The state of the local network.
#[derive(Clone, PartialEq, Eq, Debug)]
pub struct LanStatus {
    pub id: String,
    pub ip4: String,
    pub ip6_count: usize,
    pub ip6_list: Vec<String>,
    pub mac: String,
    pub mtu: usize,
    pub netmask: String,
}

/// The gateway itself.
#[derive(Clone, PartialEq, Eq, Debug)]
pub struct Device {
    pub id: String,
    pub model: String,
    pub uptime: usize,
    pub fw_version: String,
}

} // verus!
