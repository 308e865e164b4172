//! Opaque credential payloads carried over the attested channel.
//!
//! The anonymous-credential system that mints and consumes these lives
//! elsewhere; the connection layer only moves them. Each type fixes its
//! wire shape — a reserved version byte followed by a fixed-length
//! body — so a payload can be framed, carried and handed back without
//! being interpreted.

use vstd::prelude::*;

verus! {

/// An encrypted user identifier, as carried in group state.
pub struct UuidCiphertext {
    /// Version byte; zero in this format.
    pub reserved: u8,
    /// The two encrypted group elements, 64 bytes.
    pub ciphertext: Vec<u8>,
}

impl UuidCiphertext {
    /// The fixed body length of this payload.
    pub open spec fn spec_body_len() -> int {
        64
    }

    /// Wire shape: version zero, body of the fixed length.
    pub open spec fn wf(&self) -> bool {
        self.reserved == 0 && self.ciphertext@.len() == Self::spec_body_len()
    }

    /// Wrap a raw body, exactly when it has the fixed length.
    pub fn new(ciphertext: Vec<u8>) -> (r: Option<UuidCiphertext>)
        ensures
            match r {
                Some(c) => c.wf() && c.ciphertext@ == ciphertext@ && ciphertext@.len() == 64,
                None => ciphertext@.len() != 64,
            },
    {
        if ciphertext.len() == 64 {
            Some(UuidCiphertext { reserved: 0, ciphertext })
        } else {
            None
        }
    }
}

/// A commitment to a profile key, as carried in a profile.
pub struct ProfileKeyCommitment {
    /// Version byte; zero in this format.
    pub reserved: u8,
    /// The three committed group elements, 96 bytes.
    pub commitment: Vec<u8>,
}

impl ProfileKeyCommitment {
    /// The fixed body length of this payload.
    pub open spec fn spec_body_len() -> int {
        96
    }

    /// Wire shape: version zero, body of the fixed length.
    pub open spec fn wf(&self) -> bool {
        self.reserved == 0 && self.commitment@.len() == Self::spec_body_len()
    }

    /// Wrap a raw body, exactly when it has the fixed length.
    pub fn new(commitment: Vec<u8>) -> (r: Option<ProfileKeyCommitment>)
        ensures
            match r {
                Some(c) => c.wf() && c.commitment@ == commitment@ && commitment@.len() == 96,
                None => commitment@.len() != 96,
            },
    {
        if commitment.len() == 96 {
            Some(ProfileKeyCommitment { reserved: 0, commitment })
        } else {
            None
        }
    }
}

/// A blinded request for a profile-key credential.
pub struct ProfileKeyCredentialRequest {
    /// Version byte; zero in this format.
    pub reserved: u8,
    /// The requester's blinding public key, 32 bytes.
    pub public_key: Vec<u8>,
    /// The blinded ciphertext, 128 bytes.
    pub ciphertext: Vec<u8>,
    /// The accompanying knowledge proof, variable length.
    pub proof: Vec<u8>,
}

impl ProfileKeyCredentialRequest {
    /// Wire shape: version zero, fixed key and ciphertext lengths.
    pub open spec fn wf(&self) -> bool {
        self.reserved == 0 && self.public_key@.len() == 32 && self.ciphertext@.len() == 128
    }

    /// Assemble a request, exactly when the fixed-length parts fit.
    pub fn new(public_key: Vec<u8>, ciphertext: Vec<u8>, proof: Vec<u8>) -> (r: Option<
        ProfileKeyCredentialRequest,
    >)
        ensures
            match r {
                Some(c) => {
                    &&& c.wf()
                    &&& c.public_key@ == public_key@
                    &&& c.ciphertext@ == ciphertext@
                    &&& c.proof@ == proof@
                },
                None => public_key@.len() != 32 || ciphertext@.len() != 128,
            },
    {
        if public_key.len() == 32 && ciphertext.len() == 128 {
            Some(ProfileKeyCredentialRequest { reserved: 0, public_key, ciphertext, proof })
        } else {
            None
        }
    }
}

/// The issuer's answer to a profile-key credential request: a blinded
/// credential with an expiration and an issuance proof.
pub struct ExpiringProfileKeyCredentialResponse {
    /// Version byte; zero in this format.
    pub reserved: u8,
    /// The blinded credential, 160 bytes.
    pub blinded_credential: Vec<u8>,
    /// When the credential expires, in seconds.
    pub credential_expiration_time: u64,
    /// The issuance proof, variable length.
    pub proof: Vec<u8>,
}

impl ExpiringProfileKeyCredentialResponse {
    /// Wire shape: version zero, fixed credential length.
    pub open spec fn wf(&self) -> bool {
        self.reserved == 0 && self.blinded_credential@.len() == 160
    }

    /// Assemble a response, exactly when the credential part fits.
    pub fn new(blinded_credential: Vec<u8>, credential_expiration_time: u64, proof: Vec<u8>) -> (r:
        Option<ExpiringProfileKeyCredentialResponse>)
        ensures
            match r {
                Some(c) => {
                    &&& c.wf()
                    &&& c.blinded_credential@ == blinded_credential@
                    &&& c.credential_expiration_time == credential_expiration_time
                    &&& c.proof@ == proof@
                },
                None => blinded_credential@.len() != 160,
            },
    {
        if blinded_credential.len() == 160 {
            Some(
                ExpiringProfileKeyCredentialResponse {
                    reserved: 0,
                    blinded_credential,
                    credential_expiration_time,
                    proof,
                },
            )
        } else {
            None
        }
    }
}

/// Failures of the statement-proof system backing the credentials.
#[derive(Clone, Copy, Debug, PartialEq, Eq, Structural)]
pub enum PokshoError {
    /// Bad arguments were passed to the function.
    BadArgs,
    /// Bad arguments: wrong number of scalar arguments.
    BadArgsWrongNumberOfScalarArgs,
    /// Bad arguments: wrong number of point arguments.
    BadArgsWrongNumberOfPointArgs,
    /// Bad arguments: a named scalar argument is missing.
    BadArgsMissingScalarArg,
    /// Bad arguments: a named point argument is missing.
    BadArgsMissingPointArg,
    /// Proof verification failed.
    VerificationFailure,
    /// Verification failed during proof creation, indicating bad inputs
    /// or faulty computation.
    ProofCreationVerificationFailure,
}

} // verus!
