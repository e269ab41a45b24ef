//! What the shell holds while it runs, and what it asks of the gateway.
use vstd::prelude::*;
use crate::api::Api;
use crate::api::Authenticated;
use crate::api::Method;
use crate::api::Request;
use crate::api::RequestView;
use crate::repl::commands::given_texts;
use crate::repl::commands::Action;
use crate::repl::commands::Command;

verus! {

/// The state of a running shell: the client, which has logged in, and the
/// commands that the shell knows. It is made once, after the login.
pub struct AppState<'a> {
    pub api: Api<'a, Authenticated>,
    pub commands: Vec<Command>,
}

/// The request without a body that a logged-in client sends to `route`.
pub open spec fn authorized(api: Api<Authenticated>, method: Method, route: Seq<char>) -> RequestView {
    RequestView {
        method,
        url: api.base() + route,
        authorization: Some(api.authorization()),
        body: None,
    }
}

/// The request that running `action` with `args` sends to the gateway, if it
/// sends one: the list of devices for `Devices`, the device whose address is
/// the first argument for `Device`, the order to restart for `Restart`, and
/// nothing for the others.
pub open spec fn request_for(api: Api<Authenticated>, action: Action, args: Seq<Seq<char>>) -> Option<
    RequestView,
> {
    match action {
        Action::Devices => Some(authorized(api, Method::Get, "/connected_device"@)),
        Action::Device => Some(authorized(api, Method::Get, "/connected_device/"@ + args[0])),
        Action::Restart => Some(authorized(api, Method::Put, "/action/1"@)),
        Action::LanStatus => None,
        Action::Help => None,
    }
}

/// The value of a request that may be absent.
pub open spec fn request_view(request: Option<Request>) -> Option<RequestView> {
    match request {
        Some(r) => Some(r@),
        None => None,
    }
}

impl AppState<'_> {
    /// The request that running `action` with `args` sends to the gateway,
    /// if it sends one. `Device` needs its argument, the address.
    pub fn request_of(&self, action: Action, args: &Vec<&str>) -> (request: Option<Request>)
        requires
            action == Action::Device ==> args@.len() >= 1,
        ensures
            request_view(request) == request_for(self.api, action, given_texts(args@)),
    {
        match action {
            Action::Devices => Some(self.api.connected_devices_request()),
            Action::Device => {
                let mac = args[0];
                assert(given_texts(args@)[0] == mac@);
                assert(self.api.base() + "/connected_device/"@ + mac@ == self.api.base() + (
                "/connected_device/"@ + mac@));
                Some(self.api.connected_device_request(mac))
            },
            Action::Restart => Some(self.api.restart_request()),
            Action::LanStatus => None,
            Action::Help => None,
        }
    }
}

} // verus!
