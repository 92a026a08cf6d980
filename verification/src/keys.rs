//! WireGuard key material exchanged with the embedding application, and its
//! conversions from and to raw byte vectors.
use vstd::prelude::*;
use crate::text::{decimal, push_decimal};

verus! {

/// Size in bytes of a WireGuard client private key.
pub const CLIENT_PRIV_KEY_SIZE_BYTES: usize = 32;

/// Size in bytes of a WireGuard peer public key.
pub const PEER_PUB_KEY_SIZE_BYTES: usize = 32;

/// [CLIENT_PRIV_KEY_SIZE_BYTES] bytes long client private key.
#[derive(Clone)]
pub struct WgClientPrivateKey(pub [u8; CLIENT_PRIV_KEY_SIZE_BYTES]);

/// [PEER_PUB_KEY_SIZE_BYTES] bytes long peer public key.
#[derive(Clone, PartialEq, Eq, Debug)]
pub struct WgPeerPublicKey(pub [u8; PEER_PUB_KEY_SIZE_BYTES]);

impl View for WgClientPrivateKey {
    type V = Seq<u8>;

    open spec fn view(&self) -> Seq<u8> {
        self.0@
    }
}

impl View for WgPeerPublicKey {
    type V = Seq<u8>;

    open spec fn view(&self) -> Seq<u8> {
        self.0@
    }
}

/// Error returned when a byte vector does not have the length of a key.
pub struct KeyConversionError(String);

impl KeyConversionError {
    /// The human-readable description of the error.
    pub closed spec fn spec_message(&self) -> Seq<char> {
        self.0@
    }

    /// The human-readable description of the error (what `Display` prints).
    pub fn message(&self) -> (m: String)
        ensures
            m@ == self.spec_message(),
    {
        self.0.clone()
    }
}

/// The message of the error for a wrongly sized private key.
pub open spec fn private_key_size_message() -> Seq<char> {
    "private key must be "@ + decimal(CLIENT_PRIV_KEY_SIZE_BYTES as nat) + " bytes"@
}

/// The message of the error for a wrongly sized peer public key.
pub open spec fn public_key_size_message() -> Seq<char> {
    "peer public key must be "@ + decimal(PEER_PUB_KEY_SIZE_BYTES as nat) + " bytes"@
}

/// Copies exactly 32 bytes into an array.
fn bytes_to_array(value: &Vec<u8>) -> (a: [u8; 32])
    requires
        value@.len() == 32,
    ensures
        a@ == value@,
{
    let mut a: [u8; 32] = [0u8; 32];
    let mut i: usize = 0;
    while i < 32
        invariant
            i <= 32,
            value@.len() == 32,
            a@.len() == 32,
            forall|j: int| 0 <= j < i ==> a@[j] == value@[j],
        decreases 32 - i,
    {
        a[i] = value[i];
        i = i + 1;
    }
    assert(a@ =~= value@);
    a
}

/// Copies an array of 32 bytes into a new vector.
fn array_to_bytes(a: &[u8; 32]) -> (v: Vec<u8>)
    ensures
        v@ == a@,
{
    let mut v: Vec<u8> = Vec::new();
    let mut i: usize = 0;
    while i < 32
        invariant
            i <= 32,
            a@.len() == 32,
            v@ == a@.take(i as int),
        decreases 32 - i,
    {
        v.push(a[i]);
        i = i + 1;
        assert(v@ =~= a@.take(i as int));
    }
    assert(a@.take(32) =~= a@);
    v
}

impl WgClientPrivateKey {
    /// Builds a key from its bytes; fails unless there are exactly
    /// [CLIENT_PRIV_KEY_SIZE_BYTES] of them.
    pub fn from_bytes(value: Vec<u8>) -> (r: Result<WgClientPrivateKey, KeyConversionError>)
        ensures
            r is Ok <==> value@.len() == CLIENT_PRIV_KEY_SIZE_BYTES,
            r matches Ok(k) ==> k@ == value@,
            r matches Err(e) ==> e.spec_message() == private_key_size_message(),
    {
        if value.len() == CLIENT_PRIV_KEY_SIZE_BYTES {
            Ok(WgClientPrivateKey(bytes_to_array(&value)))
        } else {
            let mut m = String::from_str("private key must be ");
            push_decimal(&mut m, CLIENT_PRIV_KEY_SIZE_BYTES as u64);
            m.append(" bytes");
            Err(KeyConversionError(m))
        }
    }

    /// The bytes of the key.
    pub fn to_bytes(&self) -> (v: Vec<u8>)
        ensures
            v@ == self@,
    {
        array_to_bytes(&self.0)
    }
}

impl WgPeerPublicKey {
    /// Builds a key from its bytes; fails unless there are exactly
    /// [PEER_PUB_KEY_SIZE_BYTES] of them.
    pub fn from_bytes(value: Vec<u8>) -> (r: Result<WgPeerPublicKey, KeyConversionError>)
        ensures
            r is Ok <==> value@.len() == PEER_PUB_KEY_SIZE_BYTES,
            r matches Ok(k) ==> k@ == value@,
            r matches Err(e) ==> e.spec_message() == public_key_size_message(),
    {
        if value.len() == PEER_PUB_KEY_SIZE_BYTES {
            Ok(WgPeerPublicKey(bytes_to_array(&value)))
        } else {
            let mut m = String::from_str("peer public key must be ");
            push_decimal(&mut m, PEER_PUB_KEY_SIZE_BYTES as u64);
            m.append(" bytes");
            Err(KeyConversionError(m))
        }
    }

    /// The bytes of the key.
    pub fn to_bytes(&self) -> (v: Vec<u8>)
        ensures
            v@ == self@,
    {
        array_to_bytes(&self.0)
    }

    /// A copy of the key.
    pub fn duplicate(&self) -> (k: WgPeerPublicKey)
        ensures
            k@ == self@,
    {
        WgPeerPublicKey(self.0)
    }
}

// The std conversion traits delegate to the inherent functions above. Each impl
// states its own contract over the keys' views; the trait-level specs are not
// claimed (`obeys_*` is false), since neither a key nor a `Vec` is determined by
// its view in spec code, which those specs would need.
impl TryFrom<Vec<u8>> for WgClientPrivateKey {
    type Error = KeyConversionError;

    fn try_from(value: Vec<u8>) -> (r: Result<Self, Self::Error>)
        ensures
            r is Ok <==> value@.len() == CLIENT_PRIV_KEY_SIZE_BYTES,
            r matches Ok(k) ==> k@ == value@,
            r matches Err(e) ==> e.spec_message() == private_key_size_message(),
    {
        WgClientPrivateKey::from_bytes(value)
    }
}

impl vstd::std_specs::convert::TryFromSpecImpl<Vec<u8>> for WgClientPrivateKey {
    open spec fn obeys_try_from_spec() -> bool {
        false
    }

    open spec fn try_from_spec(v: Vec<u8>) -> Result<Self, KeyConversionError> {
        arbitrary()
    }
}

impl TryFrom<Vec<u8>> for WgPeerPublicKey {
    type Error = KeyConversionError;

    fn try_from(value: Vec<u8>) -> (r: Result<Self, Self::Error>)
        ensures
            r is Ok <==> value@.len() == PEER_PUB_KEY_SIZE_BYTES,
            r matches Ok(k) ==> k@ == value@,
            r matches Err(e) ==> e.spec_message() == public_key_size_message(),
    {
        WgPeerPublicKey::from_bytes(value)
    }
}

impl vstd::std_specs::convert::TryFromSpecImpl<Vec<u8>> for WgPeerPublicKey {
    open spec fn obeys_try_from_spec() -> bool {
        false
    }

    open spec fn try_from_spec(v: Vec<u8>) -> Result<Self, KeyConversionError> {
        arbitrary()
    }
}

impl From<WgClientPrivateKey> for Vec<u8> {
    fn from(value: WgClientPrivateKey) -> (v: Vec<u8>)
        ensures
            v@ == value@,
    {
        value.to_bytes()
    }
}

impl vstd::std_specs::convert::FromSpecImpl<WgClientPrivateKey> for Vec<u8> {
    open spec fn obeys_from_spec() -> bool {
        false
    }

    open spec fn from_spec(v: WgClientPrivateKey) -> Vec<u8> {
        arbitrary()
    }
}

impl From<WgPeerPublicKey> for Vec<u8> {
    fn from(value: WgPeerPublicKey) -> (v: Vec<u8>)
        ensures
            v@ == value@,
    {
        value.to_bytes()
    }
}

impl vstd::std_specs::convert::FromSpecImpl<WgPeerPublicKey> for Vec<u8> {
    open spec fn obeys_from_spec() -> bool {
        false
    }

    open spec fn from_spec(v: WgPeerPublicKey) -> Vec<u8> {
        arbitrary()
    }
}

/// Law: every private key has exactly [CLIENT_PRIV_KEY_SIZE_BYTES] bytes, so
/// that [WgClientPrivateKey::from_bytes] accepts what
/// [WgClientPrivateKey::to_bytes] gives, as a key of the same bytes.
pub proof fn lemma_private_key_bytes_accepted(k: WgClientPrivateKey)
    ensures
        k@.len() == CLIENT_PRIV_KEY_SIZE_BYTES,
{
}

/// Law: every peer public key has exactly [PEER_PUB_KEY_SIZE_BYTES] bytes, so
/// that [WgPeerPublicKey::from_bytes] accepts what [WgPeerPublicKey::to_bytes]
/// gives, as a key of the same bytes.
pub proof fn lemma_public_key_bytes_accepted(k: WgPeerPublicKey)
    ensures
        k@.len() == PEER_PUB_KEY_SIZE_BYTES,
{
}

} // verus!
