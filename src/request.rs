//! The requests sent to the heating service: where they go and what they
//! carry.
use vstd::prelude::*;
use vstd::string::StringExecFns;
use crate::command::Mode;
use crate::config::Credentials;
use crate::device::DeviceError;
use crate::json::{json_str_at, str_at};
use crate::text::same_text;

verus! {

/// The base address of the service.
pub const API_ENDPOINT: &'static str = "https://beekeeper.hivehome.com/1.0/";

/// A request's address and body.
pub struct Request {
    pub url: String,
    pub body: String,
}

/// The login request: the credentials, and flags that ask for devices,
/// products, actions and homes in the response. The credentials are written
/// into the body as they are.
pub fn login_request(credentials: &Credentials) -> (r: Request)
    ensures
        r.url@ == API_ENDPOINT@ + "global/login"@,
        r.body@ == "{\"username\":\""@ + credentials.username@ + "\",\"password\":\""@
            + credentials.password@
            + "\",\"devices\":true,\"products\":true,\"actions\":true,\"homes\":true}"@,
{
    let mut url = API_ENDPOINT.to_owned();
    url.append("global/login");
    let mut body = "{\"username\":\"".to_owned();
    body.append(credentials.username.as_str());
    body.append("\",\"password\":\"");
    body.append(credentials.password.as_str());
    body.append("\",\"devices\":true,\"products\":true,\"actions\":true,\"homes\":true}");
    Request { url, body }
}

/// The address of the product listing.
pub fn listing_url() -> (r: String)
    ensures
        r@ == API_ENDPOINT@ + "products?after="@,
{
    let mut url = API_ENDPOINT.to_owned();
    url.append("products?after=");
    url
}

/// The address of the heating node `device_id`.
pub fn node_url(device_id: &str) -> (r: String)
    ensures
        r@ == API_ENDPOINT@ + "nodes/heating/"@ + device_id@,
{
    let mut url = API_ENDPOINT.to_owned();
    url.append("nodes/heating/");
    url.append(device_id);
    url
}

/// The body that switches the heating to `mode`. The mode goes on the wire
/// as a bare word (`{"mode":MANUAL}`), which is what the service has always
/// been sent.
pub fn mode_body(mode: Mode) -> (r: String)
    ensures
        r@ == "{\"mode\":"@ + mode.spec_literal() + "}"@,
{
    let mut body = "{\"mode\":".to_owned();
    body.append(mode.literal());
    body.append("}");
    body
}

/// The body that sets the target temperature to `target_text`, given the
/// device's current mode: a device that is off is switched to manual in the
/// same request, any other keeps its mode.
pub fn target_body(current_mode: &str, target_text: &str) -> (r: String)
    ensures
        current_mode@ == Mode::Off.spec_literal() ==> r@ == "{\"target\":"@ + target_text@
            + ", \"mode\": MANUAL}"@,
        current_mode@ != Mode::Off.spec_literal() ==> r@ == "{\"target\":"@ + target_text@
            + "}"@,
{
    let off = Mode::Off.literal();
    let mut body = "{\"target\":".to_owned();
    body.append(target_text);
    if same_text(current_mode, off) {
        body.append(", \"mode\": MANUAL}");
    } else {
        body.append("}");
    }
    body
}

/// The pointer to a device's identifier.
pub open spec fn id_pointer() -> Seq<char> {
    seq!['/', 'i', 'd']
}

/// The pointer to a device's current mode.
pub open spec fn mode_pointer() -> Seq<char> {
    seq!['/', 's', 't', 'a', 't', 'e', '/', 'm', 'o', 'd', 'e']
}

/// The request that switches the heating device `device` (a JSON record of
/// the listing) to `mode`; it fails where the record has no string `id`.
pub fn set_mode_request(device: &str, mode: Mode) -> (r: Result<Request, DeviceError>)
    ensures
        match json_str_at(device@, id_pointer()) {
            Some(id) => r matches Ok(q) && q.url@ == API_ENDPOINT@ + "nodes/heating/"@ + id
                && q.body@ == "{\"mode\":"@ + mode.spec_literal() + "}"@,
            None => r matches Err(DeviceError::MissingField),
        },
{
    proof {
        reveal_strlit("/id");
        assert("/id"@ =~= id_pointer());
    }
    match str_at(device, "/id") {
        Some(id) => Ok(Request { url: node_url(id.as_str()), body: mode_body(mode) }),
        None => Err(DeviceError::MissingField),
    }
}

/// The request that sets the target temperature of the heating device
/// `device` (a JSON record of the listing) to `target_text`; it fails where
/// the record has no string `id` or no string `state.mode`.
pub fn set_target_request(device: &str, target_text: &str) -> (r: Result<Request, DeviceError>)
    ensures
        match (json_str_at(device@, mode_pointer()), json_str_at(device@, id_pointer())) {
            (Some(mode), Some(id)) => r matches Ok(q) && q.url@ == API_ENDPOINT@
                + "nodes/heating/"@ + id && q.body@ == if mode == Mode::Off.spec_literal() {
                "{\"target\":"@ + target_text@ + ", \"mode\": MANUAL}"@
            } else {
                "{\"target\":"@ + target_text@ + "}"@
            },
            _ => r matches Err(DeviceError::MissingField),
        },
{
    proof {
        reveal_strlit("/id");
        reveal_strlit("/state/mode");
        assert("/id"@ =~= id_pointer());
        assert("/state/mode"@ =~= mode_pointer());
    }
    let mode = str_at(device, "/state/mode");
    let id = str_at(device, "/id");
    match (mode, id) {
        (Some(mode), Some(id)) => Ok(
            Request { url: node_url(id.as_str()), body: target_body(mode.as_str(), target_text) },
        ),
        _ => Err(DeviceError::MissingField),
    }
}

} // verus!
