//! The key that an endpoint is known by, in iroh and in libp2p.
//!
//! An iroh endpoint id is an Ed25519 public key. A libp2p peer id is a multihash of an encoded
//! public key; for a key as short as an Ed25519 key, the multihash holds the encoding itself.

use vstd::prelude::*;

use crate::text::join;
use crate::transport::{TransportError, TransportFault};

verus! {

/// An iroh endpoint id: the 32 bytes of an Ed25519 public key.
pub type EndpointId = [u8; 32];

/// An iroh secret key: the 32 bytes of an Ed25519 seed.
pub type SecretKey = [u8; 32];

/// Whether 32 bytes decode to an Ed25519 public key, that is to a point of the curve.
pub uninterp spec fn decodes_as_ed25519(key: Seq<u8>) -> bool;

/// The Ed25519 public key that belongs to a secret key.
pub uninterp spec fn public_key_of(secret: Seq<u8>) -> Seq<u8>;

/// The bytes of the peer id of an Ed25519 public key: an identity multihash (code 0, length 36) of
/// the key's protobuf encoding (key type 1 in field 1, then the 32 bytes of the key in field 2).
pub open spec fn ed25519_peer_id(key: Seq<u8>) -> Seq<u8> {
    seq![0x00u8, 0x24u8, 0x08u8, 0x01u8, 0x12u8, 0x20u8] + key
}

/// What libp2p says of bytes that are no Ed25519 public key.
pub open spec fn ed25519_decoding_error() -> Seq<char> {
    "Key decoding error: failed to parse Ed25519 public key"@
}

/// A libp2p peer id, as the bytes of its multihash.
#[derive(Debug, Clone)]
pub struct PeerId {
    bytes: Vec<u8>,
}

impl View for PeerId {
    type V = Seq<u8>;

    closed spec fn view(&self) -> Seq<u8> {
        self.bytes@
    }
}

impl PeerId {
    /// The bytes of the multihash.
    pub fn as_bytes(&self) -> (r: &Vec<u8>)
        ensures
            r@ == self@,
    {
        &self.bytes
    }
}

/// What the transport reads of a libp2p keypair: its secret key, if it is an Ed25519 keypair.
#[derive(Clone, Copy)]
pub struct Keypair {
    pub ed25519_secret: Option<SecretKey>,
}

/// Calls `libp2p::identity::ed25519::PublicKey::try_from_bytes`.
///
/// Claimed: it accepts the bytes exactly if they decode to a curve point, the accepted key has the
/// bytes that were given, and the error prints as [`ed25519_decoding_error`].
#[verifier::external_body]
fn decode_ed25519(key: &EndpointId) -> (r: Result<EndpointId, String>)
    ensures
        match r {
            Ok(decoded) => decodes_as_ed25519(key@) && decoded@ == key@,
            Err(text) => !decodes_as_ed25519(key@) && text@ == ed25519_decoding_error(),
        },
{
    libp2p::identity::ed25519::PublicKey::try_from_bytes(key)
        .map(|k| k.to_bytes())
        .map_err(|e| e.to_string())
}

/// Calls `libp2p::PeerId::from_public_key` on an Ed25519 key.
///
/// Claimed: the peer id's bytes are [`ed25519_peer_id`] of the key.
#[verifier::external_body]
fn peer_id_from_ed25519(key: &EndpointId) -> (r: Vec<u8>)
    requires
        decodes_as_ed25519(key@),
    ensures
        r@ == ed25519_peer_id(key@),
{
    let decoded = libp2p::identity::ed25519::PublicKey::try_from_bytes(key).expect("decodes");
    libp2p::PeerId::from_public_key(&libp2p::identity::PublicKey::from(decoded)).to_bytes()
}

/// Calls `libp2p::identity::Keypair::public` on the Ed25519 keypair of a secret key, and
/// `libp2p::PeerId::from` on what it returns.
///
/// Claimed: the peer id is that of the public key that belongs to the secret key.
#[verifier::external_body]
fn peer_id_from_keypair(secret: &SecretKey) -> (r: Vec<u8>)
    ensures
        r@ == ed25519_peer_id(public_key_of(secret@)),
{
    let keypair = libp2p::identity::Keypair::ed25519_from_bytes(*secret).expect("32 bytes");
    libp2p::PeerId::from(keypair.public()).to_bytes()
}

/// Calls `iroh::SecretKey::public`.
///
/// Claimed: the result is the public key that belongs to the secret key, and decodes to a curve
/// point.
#[verifier::external_body]
fn public_key(secret: &SecretKey) -> (r: EndpointId)
    ensures
        r@ == public_key_of(secret@),
        decodes_as_ed25519(r@),
{
    *iroh::SecretKey::from_bytes(secret).public().as_bytes()
}

/// Calls `iroh::SecretKey::generate`.
///
/// The bytes are random: nothing is claimed of them.
#[verifier::external_body]
fn generate_secret_key() -> SecretKey {
    iroh::SecretKey::generate().to_bytes()
}

/// The peer id that belongs to an iroh endpoint id.
pub fn peer_id_of_endpoint(node_id: &EndpointId) -> (r: Result<PeerId, String>)
    ensures
        match r {
            Ok(peer_id) => decodes_as_ed25519(node_id@) && peer_id@ == ed25519_peer_id(node_id@),
            Err(text) => !decodes_as_ed25519(node_id@) && text@ == ed25519_decoding_error(),
        },
{
    match decode_ed25519(node_id) {
        Ok(key) => {
            assert(key@ == node_id@);
            Ok(PeerId { bytes: peer_id_from_ed25519(&key) })
        },
        Err(text) => Err(text),
    }
}

/// The peer id that belongs to an iroh endpoint id, if the id is an Ed25519 public key.
pub fn node_id_to_peerid(node_id: &EndpointId) -> (r: Option<PeerId>)
    ensures
        r is Some <==> decodes_as_ed25519(node_id@),
        r matches Some(peer_id) ==> peer_id@ == ed25519_peer_id(node_id@),
{
    match peer_id_of_endpoint(node_id) {
        Ok(peer_id) => Some(peer_id),
        Err(_) => None,
    }
}

/// The keys of a transport.
#[derive(Clone)]
pub struct Identity {
    pub secret_key: SecretKey,
    pub node_id: EndpointId,
    pub peer_id: PeerId,
}

impl Identity {
    /// The endpoint id is the public key of the secret key, and the peer id is that of the same
    /// public key.
    pub open spec fn wf(self) -> bool {
        &&& self.node_id@ == public_key_of(self.secret_key@)
        &&& decodes_as_ed25519(self.node_id@)
        &&& self.peer_id@ == ed25519_peer_id(self.node_id@)
    }

    /// The identity of a secret key.
    ///
    /// The public key of a secret key always decodes, so that this never fails.
    pub fn from_secret_key(secret_key: SecretKey) -> (r: Result<Identity, TransportError>)
        ensures
            r matches Ok(identity) && identity.wf() && identity.secret_key == secret_key,
    {
        let node_id = public_key(&secret_key);
        match peer_id_of_endpoint(&node_id) {
            Ok(peer_id) => Ok(Identity { secret_key, node_id, peer_id }),
            Err(text) => Err(
                TransportError::listen(
                    join(
                        "Failed to create libp2p public key from iroh node id: ",
                        text.as_str(),
                    ),
                ),
            ),
        }
    }

    /// The identity of a keypair that was handed in, which has to be an Ed25519 keypair.
    pub fn from_keypair(keypair: &Keypair) -> (r: Result<Identity, TransportError>)
        ensures
            match keypair.ed25519_secret {
                Some(secret_key) => {
                    r matches Ok(identity) && identity.wf() && identity.secret_key == secret_key
                },
                None => {
                    r matches Err(error) && error@ == TransportFault::Listen(
                        "Failed to convert libp2p keypair to iroh secret key"@,
                    )
                },
            },
    {
        match keypair.ed25519_secret {
            Some(secret_key) => {
                let peer_id = PeerId { bytes: peer_id_from_keypair(&secret_key) };
                let node_id = public_key(&secret_key);
                Ok(Identity { secret_key, node_id, peer_id })
            },
            None => Err(
                TransportError::listen(
                    "Failed to convert libp2p keypair to iroh secret key".to_string(),
                ),
            ),
        }
    }

    /// The identity of the given keypair, or of a new one if none is given.
    ///
    /// A new secret key is random, so that nothing is said of which one it is.
    pub fn select(keypair: Option<Keypair>) -> (r: Result<Identity, TransportError>)
        ensures
            match keypair {
                Some(Keypair { ed25519_secret: Some(secret_key) }) => {
                    r matches Ok(identity) && identity.wf() && identity.secret_key == secret_key
                },
                Some(Keypair { ed25519_secret: None }) => {
                    r matches Err(error) && error@ == TransportFault::Listen(
                        "Failed to convert libp2p keypair to iroh secret key"@,
                    )
                },
                None => r matches Ok(identity) && identity.wf(),
            },
    {
        match keypair {
            Some(keypair) => Identity::from_keypair(&keypair),
            None => Identity::from_secret_key(generate_secret_key()),
        }
    }
}

/// Two endpoints have the same peer id exactly if they have the same endpoint id.
pub proof fn law_peer_ids_distinct(a: Seq<u8>, b: Seq<u8>)
    ensures
        ed25519_peer_id(a) == ed25519_peer_id(b) <==> a == b,
{
    assert(ed25519_peer_id(a).skip(6) == a);
    assert(ed25519_peer_id(b).skip(6) == b);
}

/// The bytes of a peer id name the key that they were made from: they are six fixed bytes and then
/// the key, for every endpoint id that is a public key, and there is no peer id for any other.
pub proof fn law_peer_id_holds_key(
    node_id: EndpointId,
    found: Option<PeerId>,
    derived: Result<PeerId, String>,
    bytes: &Vec<u8>,
)
    requires
        call_ensures(node_id_to_peerid, (&node_id,), found),
        call_ensures(peer_id_of_endpoint, (&node_id,), derived),
        found is Some ==> call_ensures(PeerId::as_bytes, (&found->0,), bytes),
    ensures
        found is Some <==> decodes_as_ed25519(node_id@),
        derived is Ok <==> decodes_as_ed25519(node_id@),
        found is Some ==> bytes@.len() == 38 && bytes@.subrange(6, 38) == node_id@,
        found is Some ==> bytes@.subrange(0, 6) == seq![0u8, 36u8, 8u8, 1u8, 18u8, 32u8],
        found is Some ==> derived->Ok_0@ == bytes@,
        derived matches Err(text) ==> text@
            == "Key decoding error: failed to parse Ed25519 public key"@,
{
    if found is Some {
        assert(bytes@.subrange(6, 38) =~= node_id@);
        assert(bytes@.subrange(0, 6) =~= seq![0u8, 36u8, 8u8, 1u8, 18u8, 32u8]);
    }
}

/// The keys of an identity belong together, whether the secret key was handed in alone, in a
/// keypair, or not at all: the endpoint id is the public key of the secret key, and the peer id is
/// the one that everybody derives from that endpoint id. A secret key that was handed in is kept.
pub proof fn law_keys_belong_together(
    secret: SecretKey,
    alone: Result<Identity, TransportError>,
    paired: Result<Identity, TransportError>,
    chosen: Result<Identity, TransportError>,
    generated: Result<Identity, TransportError>,
)
    requires
        call_ensures(Identity::from_secret_key, (secret,), alone),
        call_ensures(Identity::from_keypair, (&Keypair { ed25519_secret: Some(secret) },), paired),
        call_ensures(Identity::select, (Some(Keypair { ed25519_secret: Some(secret) }),), chosen),
        call_ensures(Identity::select, (None,), generated),
    ensures
        alone is Ok && alone->Ok_0.secret_key == secret && belong_together(alone->Ok_0),
        paired is Ok && paired->Ok_0.secret_key == secret && belong_together(paired->Ok_0),
        chosen is Ok && chosen->Ok_0.secret_key == secret && belong_together(chosen->Ok_0),
        generated is Ok && belong_together(generated->Ok_0),
        alone->Ok_0.node_id@ == public_key_of(secret@),
        paired->Ok_0.node_id@ == public_key_of(secret@),
        chosen->Ok_0.node_id@ == public_key_of(secret@),
        generated->Ok_0.node_id@ == public_key_of(generated->Ok_0.secret_key@),
{
}

/// Whether an identity's endpoint id is the public key of its secret key, and its peer id is what
/// the endpoint id is turned into.
pub open spec fn belong_together(identity: Identity) -> bool {
    &&& identity.node_id@ == public_key_of(identity.secret_key@)
    &&& forall|found: Option<PeerId>| #[trigger]
        call_ensures(node_id_to_peerid, (&identity.node_id,), found) ==> found is Some && found->0@
            == identity.peer_id@
}

/// A keypair without an Ed25519 secret key is refused, wherever it is handed in.
pub proof fn law_other_keypairs_refused(
    paired: Result<Identity, TransportError>,
    chosen: Result<Identity, TransportError>,
)
    requires
        call_ensures(Identity::from_keypair, (&Keypair { ed25519_secret: None },), paired),
        call_ensures(Identity::select, (Some(Keypair { ed25519_secret: None }),), chosen),
    ensures
        paired is Err && paired->Err_0@ == TransportFault::Listen(
            "Failed to convert libp2p keypair to iroh secret key"@,
        ),
        chosen is Err && chosen->Err_0@ == paired->Err_0@,
{
}

} // verus!
