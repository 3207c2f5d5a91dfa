//! Request routing of the minimal Redfish power controller image.
//!
//! It serves the same endpoints as the management web server, always reports
//! the system as powered on, and knows the `On` reset type and the power-off
//! types `ForceOff` and `GracefulShutdown` (both cut the power); its LED
//! follows the last power signal.

use vstd::prelude::*;
use crate::services::web_server::{
    contains, contains_bytes, is_reset_post, request_method, request_path, request_text, reset_path,
    route, route_http_request, HttpReply,
};
use crate::utils::{ascii, ascii_bytes};

verus! {

/// A POST to the reset action whose body asks for a graceful shutdown.
pub open spec fn graceful_shutdown(req: Seq<u8>) -> bool {
    &&& request_method(request_text(req)) == "POST"@
    &&& request_path(request_text(req)) == reset_path()
    &&& contains(req, ascii("\"ResetType\":\"GracefulShutdown\""@))
}

/// Reply of the power controller image to the request bytes `req`.
pub open spec fn bmc_route(req: Seq<u8>) -> HttpReply {
    match route(req, true) {
        HttpReply::ForceRestart | HttpReply::NotFound => if graceful_shutdown(req) {
            HttpReply::ForceOff
        } else {
            HttpReply::NotFound
        },
        r => r,
    }
}

/// Routes one request of the power controller image.
pub fn route_bmc_request(req: &[u8]) -> (r: HttpReply)
    ensures
        r == bmc_route(req@),
        r != HttpReply::ForceRestart,
        route(req@, true) != HttpReply::ForceRestart && route(req@, true) != HttpReply::NotFound
            ==> r == route(req@, true),
{
    match route_http_request(req, true) {
        HttpReply::ForceRestart | HttpReply::NotFound => {
            proof {
                reveal_strlit("\"ResetType\":\"GracefulShutdown\"");
            }
            if is_reset_post(req) && contains_bytes(req, ascii_bytes("\"ResetType\":\"GracefulShutdown\"")) {
                HttpReply::ForceOff
            } else {
                HttpReply::NotFound
            }
        },
        r => r,
    }
}

/// Power signal raised by a reply: `true` to power on, `false` to force off.
pub fn bmc_power_signal(reply: &HttpReply) -> (r: Option<bool>)
    ensures
        r == match *reply {
            HttpReply::PowerOn => Some(true),
            HttpReply::ForceOff => Some(false),
            _ => None,
        },
{
    match reply {
        HttpReply::PowerOn => Some(true),
        HttpReply::ForceOff => Some(false),
        _ => None,
    }
}

/// Replies of the management server that the power controller image gives
/// too: the documents and the power-on and force-off actions.
pub open spec fn served_by_both(r: HttpReply) -> bool {
    match r {
        HttpReply::Pong | HttpReply::ServiceRoot | HttpReply::SystemsCollection | HttpReply::SystemInfo(_)
        | HttpReply::PowerOn | HttpReply::ForceOff => true,
        _ => false,
    }
}

/// The image serves the management server's endpoints unchanged (with the
/// system reported as powered on): every request the server answers with a
/// document or with a power-on or force-off action gets the same reply.
/// Only the reset types the image does not know differ: `ForceRestart` is
/// not served, and a graceful shutdown request powers off.
pub proof fn lemma_bmc_serves_server_endpoints(req: Seq<u8>)
    ensures
        served_by_both(route(req, true)) ==> bmc_route(req) == route(req, true),
        route(req, true) == HttpReply::SystemInfo(true) ==> bmc_route(req) == HttpReply::SystemInfo(true),
        bmc_route(req) != HttpReply::ForceRestart,
        graceful_shutdown(req) && route(req, true) != HttpReply::PowerOn
            && route(req, true) != HttpReply::ForceOff ==> bmc_route(req) == HttpReply::ForceOff,
{
    reveal_strlit("GET");
    reveal_strlit("POST");
    assert("GET"@ != "POST"@) by {
        assert("GET"@.len() != "POST"@.len());
    }
}

} // verus!
