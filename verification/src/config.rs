//! Connection configuration and command-line parsing.
//!
//! The process needs three connection parameters before any network activity:
//! the RPC server address, the TLS certificate path and the macaroon path.
//! A missing parameter is a configuration error, fatal before anything runs.

use vstd::prelude::*;

verus! {

/// The connection parameters for the node's RPC endpoint.
pub struct LndCfg {
    pub address: String,
    pub cert: String,
    pub macaroon: String,
}

/// Which required connection parameter was missing.
#[derive(Debug, Clone, Copy, PartialEq, Eq, Structural)]
pub enum ArgsError {
    NoArgs,
    AddressRequired,
    CertRequired,
    MacaroonRequired,
}

impl ArgsError {
    /// A human-readable description of the missing parameter.
    pub fn message(&self) -> (r: &'static str)
        ensures
            *self == ArgsError::NoArgs ==> r@ == "No command line arguments provided."@,
            *self == ArgsError::AddressRequired ==> r@ == "LND's RPC server address is required."@,
            *self == ArgsError::CertRequired ==> r@ == "Path to LND's tls certificate is required."@,
            *self == ArgsError::MacaroonRequired ==> r@ == "Path to LND's macaroon is required."@,
    {
        match self {
            ArgsError::NoArgs => "No command line arguments provided.",
            ArgsError::AddressRequired => "LND's RPC server address is required.",
            ArgsError::CertRequired => "Path to LND's tls certificate is required.",
            ArgsError::MacaroonRequired => "Path to LND's macaroon is required.",
        }
    }
}

impl LndCfg {
    /// Bundle the three connection parameters.
    pub fn new(address: String, cert: String, macaroon: String) -> (r: LndCfg)
        ensures
            r.address == address,
            r.cert == cert,
            r.macaroon == macaroon,
    {
        LndCfg { address, cert, macaroon }
    }
}

/// Read the connection parameters out of the raw command line.
///
/// `args` is the full argument list, program name first. Each parameter that
/// is absent yields its own error, so the operator learns exactly which one
/// to supply; extra arguments are ignored.
pub fn parse_args(args: Vec<String>) -> (r: Result<LndCfg, ArgsError>)
    ensures
        args@.len() == 0 ==> r == Err::<LndCfg, ArgsError>(ArgsError::NoArgs),
        args@.len() == 1 ==> r == Err::<LndCfg, ArgsError>(ArgsError::AddressRequired),
        args@.len() == 2 ==> r == Err::<LndCfg, ArgsError>(ArgsError::CertRequired),
        args@.len() == 3 ==> r == Err::<LndCfg, ArgsError>(ArgsError::MacaroonRequired),
        args@.len() >= 4 ==> (r matches Ok(cfg)
            && cfg.address == args@[1]
            && cfg.cert == args@[2]
            && cfg.macaroon == args@[3]),
{
    if args.len() == 0 {
        return Err(ArgsError::NoArgs);
    }
    if args.len() == 1 {
        return Err(ArgsError::AddressRequired);
    }
    if args.len() == 2 {
        return Err(ArgsError::CertRequired);
    }
    if args.len() == 3 {
        return Err(ArgsError::MacaroonRequired);
    }
    let mut rest = args;
    let _program = rest.remove(0);
    let address = rest.remove(0);
    let cert = rest.remove(0);
    let macaroon = rest.remove(0);
    Ok(LndCfg::new(address, cert, macaroon))
}

} // verus!
