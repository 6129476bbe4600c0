//! Plain forms of the persisted rows the core works on.
use vstd::prelude::*;
use crate::cipher_util::{chain_bytes, cipher_chain, hex_of, sha256_of};

verus! {

/// A registered user.
pub struct User {
    pub id: i32,
    pub openid: String,
    pub team: Option<i32>,
    pub username: String,
    /// Hex-encoded salted password hash.
    pub password: String,
    /// Hex-encoded salt the password was hashed with.
    pub salt: String,
    pub privilege: i32,
}

/// A team row.
pub struct Team {
    pub id: i32,
    pub is_staff: bool,
    pub token_balance: i64,
    pub confirmed: bool,
    pub max_size: i32,
    pub size: i32,
    /// Secret used to derive the team's join verification code.
    pub salt: String,
}

/// An unlock row: the depth a team has reached on a decipher chain
/// (0 = fully solved).
#[derive(Clone, Copy, Debug, PartialEq, Eq, Structural)]
pub struct Unlock {
    pub level: i32,
    pub team: i32,
    pub decipher: i32,
}

/// A decipher chain row.
pub struct Decipher {
    /// Which pricing schedule applies to unlocking it.
    pub pricing_type: i32,
    pub base_price: i32,
    /// Number of unlock levels in the chain.
    pub depth: i32,
    /// The terminal key; the key at level `k` is derived by `k` rounds of
    /// hashing.
    pub root: String,
}

/// The key shown at `level` of a decipher chain: the root itself at level
/// 0, one more round of hex-encoded SHA-256 for each level above it.
pub open spec fn decipher_key_spec(d: Decipher, level: int) -> Seq<char> {
    if level == 0 {
        d.root@
    } else {
        hex_of(sha256_of(chain_bytes(vstd::utf8::encode_utf8(d.root@), (level - 1) as nat)))
    }
}

impl Decipher {
    /// The key a team standing at `level` may see.
    pub fn get_key(&self, level: i32) -> (r: String)
        requires
            level >= 0,
        ensures
            r@ == decipher_key_spec(*self, level as int),
    {
        cipher_chain(self.root.as_str(), level as usize)
    }
}

} // verus!
