//! Whether the VPN is connected, as the daemon tells it. Updating without a
//! connection is insecure.

use vstd::prelude::*;

verus! {

/// Where the daemon's socket is, unless told otherwise.
pub const DEFAULT_SOCKET_PATH: &'static str = "/var/run/gnosisvpn.sock";

/// The environment variable that tells where the daemon's socket is.
pub const ENV_VAR: &'static str = "GNOSISVPN_SOCKET_PATH";

/// How it is worded that the VPN is not connected.
pub const NOT_CONNECTED: &'static str =
    "VPN not connected — updating without an active VPN connection is insecure";

/// Why an update is not made now.
#[derive(Clone, Copy, Debug, PartialEq, Eq, Structural)]
pub enum Error {
    NotConnected,
}

impl Error {
    /// How the reason is worded.
    pub fn to_string(self) -> (r: String)
        ensures
            r@ == NOT_CONNECTED@,
    {
        NOT_CONNECTED.to_owned()
    }
}

/// Passes only if the daemon said that a tunnel is up. A daemon that could not
/// be asked, or whose answer could not be read, counts as not connected.
pub fn ensure_connected(answer: Result<bool, String>) -> (r: Result<(), Error>)
    ensures
        r is Ok <==> answer == Ok::<bool, String>(true),
        r is Err ==> r->Err_0 == Error::NotConnected,
{
    match answer {
        Ok(true) => Ok(()),
        Ok(false) => Err(Error::NotConnected),
        Err(_) => Err(Error::NotConnected),
    }
}

} // verus!
