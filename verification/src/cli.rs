//! Command-line configuration: which provider the receiver serves, and the
//! optional TLS key pair, parsed from the process's argument strings.

use vstd::prelude::*;
use vstd::slice::slice_to_vec;

use crate::bytestr::{ascii_seq, bytes_eq, str_to_bytes};
use crate::common::opt_bytes;

verus! {

/// The provider mode, fixed for the process lifetime: serve GitHub, GitLab,
/// or both at once with per-request disambiguation.
#[derive(Clone, Copy, Debug, PartialEq, Eq, Structural)]
pub enum Provider {
    Github,
    Gitlab,
    Both,
}

/// Paths of the TLS key material, as raw argument bytes: both must be given
/// together to enable TLS.
#[derive(Debug)]
pub struct Tls {
    pub private_key: Vec<u8>,
    pub fullchain_key: Vec<u8>,
}

/// The parsed command line: optional TLS paths and the provider mode.
#[derive(Debug)]
pub struct Cli {
    pub tls: Option<Tls>,
    pub provider: Provider,
}

/// Why a command line is rejected.
#[derive(Clone, Copy, Debug, PartialEq, Eq, Structural)]
pub enum CliError {
    UnknownArgument,
    DuplicateArgument,
    MissingValue,
    IncompleteTlsPair,
}

impl CliError {
    /// A fixed diagnostic line for this rejection.
    pub fn message(&self) -> (m: &'static str)
        ensures
            match self {
                CliError::UnknownArgument => m@ == "unknown argument"@,
                CliError::DuplicateArgument => m@ == "argument given twice"@,
                CliError::MissingValue => m@ == "option is missing its value"@,
                CliError::IncompleteTlsPair => m@
                    == "private key and fullchain key must be given together"@,
            },
    {
        match self {
            CliError::UnknownArgument => "unknown argument",
            CliError::DuplicateArgument => "argument given twice",
            CliError::MissingValue => "option is missing its value",
            CliError::IncompleteTlsPair => "private key and fullchain key must be given together",
        }
    }
}

/// The provider mode a positional argument names, if any.
pub open spec fn provider_token(a: Seq<u8>) -> Option<Provider> {
    if a == ascii_seq("github"@) {
        Option::Some(Provider::Github)
    } else if a == ascii_seq("gitlab"@) {
        Option::Some(Provider::Gitlab)
    } else if a == ascii_seq("both"@) {
        Option::Some(Provider::Both)
    } else {
        Option::None
    }
}

/// Close the parse: the two TLS paths must come together or not at all, and
/// the provider defaults to GitHub.
pub open spec fn finish_parse(
    pk: Option<Seq<u8>>,
    fc: Option<Seq<u8>>,
    prov: Option<Provider>,
) -> Result<(Option<(Seq<u8>, Seq<u8>)>, Provider), CliError> {
    let provider = match prov {
        Option::None => Provider::Github,
        Option::Some(p) => p,
    };
    match (pk, fc) {
        (Option::Some(p), Option::Some(f)) => Result::Ok((Option::Some((p, f)), provider)),
        (Option::None, Option::None) => Result::Ok((Option::None, provider)),
        _ => Result::Err(CliError::IncompleteTlsPair),
    }
}

/// One pass over the arguments from position `i` on: each key option takes
/// the following argument as its value and may be given once, anything else
/// must name a provider mode, given at most once.
pub open spec fn parse_args_rec(
    args: Seq<Seq<u8>>,
    i: int,
    pk: Option<Seq<u8>>,
    fc: Option<Seq<u8>>,
    prov: Option<Provider>,
) -> Result<(Option<(Seq<u8>, Seq<u8>)>, Provider), CliError>
    decreases args.len() - i,
{
    if i < 0 || i >= args.len() {
        finish_parse(pk, fc, prov)
    } else {
        let a = args[i];
        if a == ascii_seq("--private-key"@) || a == ascii_seq("-p"@) {
            if pk is Some {
                Result::Err(CliError::DuplicateArgument)
            } else if i + 1 >= args.len() {
                Result::Err(CliError::MissingValue)
            } else {
                parse_args_rec(args, i + 2, Option::Some(args[i + 1]), fc, prov)
            }
        } else if a == ascii_seq("--fullchain-key"@) || a == ascii_seq("-f"@) {
            if fc is Some {
                Result::Err(CliError::DuplicateArgument)
            } else if i + 1 >= args.len() {
                Result::Err(CliError::MissingValue)
            } else {
                parse_args_rec(args, i + 2, pk, Option::Some(args[i + 1]), prov)
            }
        } else {
            match provider_token(a) {
                Option::None => Result::Err(CliError::UnknownArgument),
                Option::Some(p) => if prov is Some {
                    Result::Err(CliError::DuplicateArgument)
                } else {
                    parse_args_rec(args, i + 1, pk, fc, Option::Some(p))
                },
            }
        }
    }
}

/// Parse the process arguments (without the program name). Supported forms:
/// `--private-key FILE` or `-p FILE`, `--fullchain-key FILE` or `-f FILE`,
/// and one positional provider mode `github`, `gitlab` or `both`, defaulting
/// to `github`.
pub fn parse(args: Vec<Vec<u8>>) -> (r: Result<Cli, CliError>)
    ensures
        ({
            let s = parse_args_rec(
                args.deep_view(),
                0,
                Option::None,
                Option::None,
                Option::None,
            );
            match r {
                Result::Ok(cli) => {
                    &&& s matches Result::Ok(sp)
                    &&& cli.provider == sp.1
                    &&& match (cli.tls, sp.0) {
                        (Option::None, Option::None) => true,
                        (Option::Some(t), Option::Some(pair)) => t.private_key@ == pair.0
                            && t.fullchain_key@ == pair.1,
                        _ => false,
                    }
                },
                Result::Err(e) => s matches Result::Err(se) && se == e,
            }
        }),
{
    let ghost argsv = args.deep_view();
    let n = args.len();
    let mut i: usize = 0;
    let mut pk: Option<Vec<u8>> = None;
    let mut fc: Option<Vec<u8>> = None;
    let mut prov: Option<Provider> = None;
    while i < n
        invariant
            i <= n,
            n == args@.len(),
            argsv == args.deep_view(),
            parse_args_rec(argsv, 0, Option::None, Option::None, Option::None)
                == parse_args_rec(argsv, i as int, opt_bytes(pk), opt_bytes(fc), prov),
        decreases n - i,
    {
        proof {
            reveal_strlit("--private-key");
            reveal_strlit("-p");
            reveal_strlit("--fullchain-key");
            reveal_strlit("-f");
            reveal_strlit("github");
            reveal_strlit("gitlab");
            reveal_strlit("both");
        }
        let a = &args[i];
        proof {
            assert(argsv[i as int] == a@);
        }
        if bytes_eq(a.as_slice(), str_to_bytes("--private-key")) || bytes_eq(
            a.as_slice(),
            str_to_bytes("-p"),
        ) {
            if pk.is_some() {
                return Err(CliError::DuplicateArgument);
            }
            if i + 1 >= n {
                return Err(CliError::MissingValue);
            }
            proof {
                assert(argsv[i + 1] == args@[i + 1]@);
            }
            pk = Some(slice_to_vec((&args[i + 1]).as_slice()));
            i = i + 2;
        } else if bytes_eq(a.as_slice(), str_to_bytes("--fullchain-key")) || bytes_eq(
            a.as_slice(),
            str_to_bytes("-f"),
        ) {
            if fc.is_some() {
                return Err(CliError::DuplicateArgument);
            }
            if i + 1 >= n {
                return Err(CliError::MissingValue);
            }
            proof {
                assert(argsv[i + 1] == args@[i + 1]@);
            }
            fc = Some(slice_to_vec((&args[i + 1]).as_slice()));
            i = i + 2;
        } else {
            let pv: Option<Provider> = if bytes_eq(a.as_slice(), str_to_bytes("github")) {
                Some(Provider::Github)
            } else if bytes_eq(a.as_slice(), str_to_bytes("gitlab")) {
                Some(Provider::Gitlab)
            } else if bytes_eq(a.as_slice(), str_to_bytes("both")) {
                Some(Provider::Both)
            } else {
                None
            };
            match pv {
                None => {
                    return Err(CliError::UnknownArgument);
                },
                Some(p) => {
                    if prov.is_some() {
                        return Err(CliError::DuplicateArgument);
                    }
                    prov = Some(p);
                    i = i + 1;
                },
            }
        }
    }
    let provider = match prov {
        Some(p) => p,
        None => Provider::Github,
    };
    match (pk, fc) {
        (Some(p), Some(f)) => Ok(Cli { tls: Some(Tls { private_key: p, fullchain_key: f }), provider }),
        (None, None) => Ok(Cli { tls: None, provider }),
        _ => Err(CliError::IncompleteTlsPair),
    }
}

} // verus!
