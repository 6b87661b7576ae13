//! Trusted boundary to the host execution environment (the `soroban_sdk`
//! crate). The host owns the invocation context and the memory of every
//! native value; Verus sees its types as opaque and believes, without
//! proof, the contracts stated here, each backed by the named function's
//! source.
use vstd::prelude::*;
use vstd::string::StringSliceAdditionalSpecFns;

verus! {

/// The host's invocation-context handle, `soroban_sdk::Env`: an opaque
/// capability through which native values are constructed. It is handed
/// to an entry point at invocation and owns everything built through it.
#[verifier::external_type_specification]
#[verifier::external_body]
pub struct ExEnv(soroban_sdk::Env);

/// The host's native string, `soroban_sdk::String`: an immutable array of
/// bytes stored in the host's memory, opaque to Verus.
#[verifier::external_type_specification]
#[verifier::external_body]
pub struct ExString(soroban_sdk::String);

/// The bytes a host-native string holds.
pub uninterp spec fn string_bytes(s: soroban_sdk::String) -> Seq<u8>;

/// Relies on `soroban_sdk::String::from_str`: it copies the UTF-8 bytes
/// of `s` (`s.as_bytes()`) into a new string object in the host's memory.
/// If the host's metering budget runs out during construction, the host
/// aborts the whole invocation; no value is returned in that case.
pub assume_specification[ soroban_sdk::String::from_str ](
    env: &soroban_sdk::Env,
    s: &str,
) -> (r: soroban_sdk::String)
    ensures
        string_bytes(r) == s.spec_bytes(),
;

} // verus!
