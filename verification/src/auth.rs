//! The provenance guard.
//!
//! Two independent checks: the caller must be, literally, the configured
//! gateway — the gateway is a relay, so this alone is not enough — and,
//! when an allow-list of remote senders is configured, the original
//! `(source_chain, source_address)` pair must be a member. Read-only over
//! the configuration; no side effects.

use vstd::prelude::*;

use crate::config::State;
use crate::errors::ContractError;

verus! {

/// A trusted remote sender: a `(chain, address)` pair of the allow-list.
/// A pair is either fully trusted or absent; there is no partial trust.
#[derive(Debug)]
pub struct RemoteSender {
    pub source_chain: String,
    pub source_address: String,
}

/// Whether the allow-list admits a remote pair: an empty list admits every
/// pair, a non-empty one only its members.
pub open spec fn source_allowed(allow: Seq<RemoteSender>, sc: Seq<char>, sa: Seq<char>) -> bool {
    allow.len() == 0 || exists|i: int|
        0 <= i < allow.len() && (#[trigger] allow[i]).source_chain@ == sc
            && allow[i].source_address@ == sa
}

/// What authorization decides, for every caller and source.
pub open spec fn authorize_spec(
    gateway: Seq<char>,
    allow: Seq<RemoteSender>,
    caller: Seq<char>,
    sc: Seq<char>,
    sa: Seq<char>,
) -> Result<(), ContractError> {
    if caller != gateway {
        Err(ContractError::Unauthorized)
    } else if !source_allowed(allow, sc, sa) {
        Err(ContractError::UntrustedSource)
    } else {
        Ok(())
    }
}

/// Authorizes an inbound call against the configuration, returning exactly
/// what [`authorize_spec`] says.
pub fn authorize(
    caller: &String,
    source_chain: &String,
    source_address: &String,
    config: &State,
    allowlist: &Vec<RemoteSender>,
) -> (r: Result<(), ContractError>)
    ensures
        r == authorize_spec(
            config.axelar_gateway@,
            allowlist@,
            caller@,
            source_chain@,
            source_address@,
        ),
{
    if !(*caller == config.axelar_gateway) {
        return Err(ContractError::Unauthorized);
    }
    let n = allowlist.len();
    if n == 0 {
        return Ok(());
    }
    let mut i: usize = 0;
    while i < n
        invariant
            caller@ == config.axelar_gateway@,
            n == allowlist@.len(),
            i <= n,
            forall|j: int|
                0 <= j < i ==> !((#[trigger] allowlist@[j]).source_chain@ == source_chain@
                    && allowlist@[j].source_address@ == source_address@),
        decreases n - i,
    {
        let entry = &allowlist[i];
        if entry.source_chain == *source_chain && entry.source_address == *source_address {
            proof {
                assert((allowlist@[i as int]).source_chain@ == source_chain@);
                assert((allowlist@[i as int]).source_address@ == source_address@);
                assert(source_allowed(allowlist@, source_chain@, source_address@));
            }
            return Ok(());
        }
        i += 1;
    }
    Err(ContractError::UntrustedSource)
}

} // verus!
