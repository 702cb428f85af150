use vstd::prelude::*;
use crate::app_error::AppError;

verus! {

/// HTTP status of a successful protocol upgrade.
pub const SWITCHING_PROTOCOLS: u16 = 101;

/// Address of the socket for an access token: the base address, a `/`, the token.
pub fn ws_url(ws_address: &str, token: &str) -> (r: String)
    ensures
        r@ == ws_address@ + "/"@ + token@,
{
    let mut s = String::from_str(ws_address);
    s.append("/");
    s.append(token);
    s
}

/// The handshake succeeded only with status 101.
pub fn check_upgrade_status(status: u16) -> (r: Result<(), AppError>)
    ensures
        r is Ok <==> status == SWITCHING_PROTOCOLS,
        r matches Err(e) ==> e is WsStatus,
{
    if status == SWITCHING_PROTOCOLS {
        Ok(())
    } else {
        Err(AppError::WsStatus)
    }
}

} // verus!
