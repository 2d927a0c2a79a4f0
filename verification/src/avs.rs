//! Operator registration on the AVS: the operator's public key, the expiry
//! and salt of its registration signature, where passwords come from, and
//! the checks that precede registering and de-registering.

use vstd::prelude::*;
use crate::encoding::{hex_encode, hex_lower};

verus! {

/// How long a registration signature stays valid, in seconds.
pub const DEFAULT_EXPIRY_SECONDS: u64 = 300;

/// A public key: the coordinates of its curve point, each a 256-bit number
/// held as its 32 big-endian bytes.
pub struct PublicKey {
    pub x: [u8; 32],
    pub y: [u8; 32],
}

impl PublicKey {
    /// The key in hexadecimal: the 64 digits of `x`, then those of `y`.
    pub fn to_hex(&self) -> (r: String)
        ensures
            r@ == hex_lower(self.x@) + hex_lower(self.y@),
    {
        let mut s1 = hex_encode(&self.x);
        let s2 = hex_encode(&self.y);
        s1.append(s2.as_str());
        s1
    }
}

/// The expiry of a registration signature made when the latest block has
/// timestamp `block_timestamp`.
pub fn expiry_timestamp(block_timestamp: u64) -> (r: u64)
    requires
        block_timestamp + DEFAULT_EXPIRY_SECONDS <= u64::MAX,
    ensures
        r == block_timestamp + DEFAULT_EXPIRY_SECONDS,
{
    block_timestamp + DEFAULT_EXPIRY_SECONDS
}

/// Draws a 32-byte salt with `rand::thread_rng`.
///
/// Trusted: the bytes are random; nothing is stated of them.
#[verifier::external_body]
pub fn salt() -> [u8; 32] {
    rand::Rng::gen(&mut rand::thread_rng())
}

/// Where a password comes from.
#[derive(Debug)]
pub enum PasswordSource {
    /// The environment variable holds it.
    Environment(String),
    /// Ask the user.
    Prompt,
}

/// Decides where a password comes from, given the value of its environment
/// variable, if set: a non-empty value is the password, else the user is
/// asked.
pub fn password_source(env_value: Option<String>) -> (r: PasswordSource)
    ensures
        match env_value {
            Some(p) => if p@.len() > 0 {
                (r matches PasswordSource::Environment(q) && q@ == p@)
            } else {
                r is Prompt
            },
            None => r is Prompt,
        },
{
    match env_value {
        Some(p) => if p.as_str().is_empty() {
            PasswordSource::Prompt
        } else {
            PasswordSource::Environment(p)
        },
        None => PasswordSource::Prompt,
    }
}

/// Where the operator's main key comes from.
#[derive(Debug)]
pub enum MainKeySource {
    /// The private key given in the environment.
    PrivateKey(String),
    /// The main keystore, opened with a password.
    Keystore,
}

/// Decides where the main key comes from, given the value of its environment
/// variable, if set: a set variable is the private key (even when empty),
/// else the keystore is used.
pub fn main_key_source(env_private_key: Option<String>) -> (r: MainKeySource)
    ensures
        match env_private_key {
            Some(k) => r matches MainKeySource::PrivateKey(p) && p@ == k@,
            None => r is Keystore,
        },
{
    match env_private_key {
        Some(k) => MainKeySource::PrivateKey(k),
        None => MainKeySource::Keystore,
    }
}

/// Why an operator cannot register or de-register.
#[derive(Clone, Copy, Debug, PartialEq, Eq, Structural)]
pub enum RegistrationError {
    /// The main key is not an EigenLayer operator.
    NotOperator,
    /// The operator is not on the Lagrange whitelist.
    NotWhitelisted,
    /// The operator is registered already.
    AlreadyRegistered,
}

/// The first failing registration check: the main key must be an EigenLayer
/// operator, whitelisted by Lagrange, and not registered yet.
pub open spec fn registration_error(is_operator: bool, is_whitelisted: bool, is_registered: bool) -> Option<
    RegistrationError,
> {
    if !is_operator {
        Some(RegistrationError::NotOperator)
    } else if !is_whitelisted {
        Some(RegistrationError::NotWhitelisted)
    } else if is_registered {
        Some(RegistrationError::AlreadyRegistered)
    } else {
        None
    }
}

/// Checks, in order, that the main key may register the operator.
pub fn check_registration(is_operator: bool, is_whitelisted: bool, is_registered: bool) -> (r: Result<
    (),
    RegistrationError,
>)
    ensures
        r == match registration_error(is_operator, is_whitelisted, is_registered) {
            Some(e) => Err::<(), RegistrationError>(e),
            None => Ok(()),
        },
        r is Ok <==> is_operator && is_whitelisted && !is_registered,
        !is_operator ==> r == Err::<(), RegistrationError>(RegistrationError::NotOperator),
        is_operator && !is_whitelisted ==> r == Err::<(), RegistrationError>(RegistrationError::NotWhitelisted),
        is_operator && is_whitelisted && is_registered ==> r == Err::<(), RegistrationError>(
            RegistrationError::AlreadyRegistered,
        ),
{
    if !is_operator {
        return Err(RegistrationError::NotOperator);
    }
    if !is_whitelisted {
        return Err(RegistrationError::NotWhitelisted);
    }
    if is_registered {
        return Err(RegistrationError::AlreadyRegistered);
    }
    Ok(())
}

/// Only whitelisted operators that are not registered yet may register, and
/// a refusal names the first check that fails: not an operator, then not
/// whitelisted, then already registered.
pub proof fn lemma_registration_checks(is_operator: bool, is_whitelisted: bool, is_registered: bool)
    ensures
        registration_error(is_operator, is_whitelisted, is_registered) is None <==> is_operator && is_whitelisted
            && !is_registered,
        !is_operator ==> registration_error(is_operator, is_whitelisted, is_registered) == Some(
            RegistrationError::NotOperator,
        ),
        is_operator && !is_whitelisted ==> registration_error(is_operator, is_whitelisted, is_registered)
            == Some(RegistrationError::NotWhitelisted),
        is_operator && is_whitelisted && is_registered ==> registration_error(
            is_operator,
            is_whitelisted,
            is_registered,
        ) == Some(RegistrationError::AlreadyRegistered),
{
}

/// Checks that the main key may de-register: it must be an operator.
pub fn check_deregistration(is_operator: bool) -> (r: Result<(), RegistrationError>)
    ensures
        r == (if is_operator {
            Ok::<(), RegistrationError>(())
        } else {
            Err(RegistrationError::NotOperator)
        }),
{
    if is_operator {
        Ok(())
    } else {
        Err(RegistrationError::NotOperator)
    }
}

} // verus!
