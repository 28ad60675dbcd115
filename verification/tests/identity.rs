use iroh_transport::identity::{peer_id_of_endpoint, Identity, Keypair};
use iroh_transport::node_id_to_peerid;

const SECRET: [u8; 32] = [
    0x9d, 0x61, 0xb1, 0x9d, 0xef, 0xfd, 0x5a, 0x60, 0xba, 0x84, 0x4a, 0xf4, 0x92, 0xec, 0x2c, 0xc4,
    0x44, 0x49, 0xc5, 0x69, 0x7b, 0x32, 0x69, 0x19, 0x70, 0x3b, 0xac, 0x03, 0x1c, 0xae, 0x7f, 0x60,
];

const PUBLIC: [u8; 32] = [
    0xd7, 0x5a, 0x98, 0x01, 0x82, 0xb1, 0x0a, 0xb7, 0xd5, 0x4b, 0xfe, 0xd3, 0xc9, 0x64, 0x07, 0x3a,
    0x0e, 0xe1, 0x72, 0xf3, 0xda, 0xa6, 0x23, 0x25, 0xaf, 0x02, 0x1a, 0x68, 0xf7, 0x07, 0x51, 0x1a,
];

fn expected_peer_id(key: &[u8; 32]) -> Vec<u8> {
    let mut bytes = vec![0x00, 0x24, 0x08, 0x01, 0x12, 0x20];
    bytes.extend_from_slice(key);
    bytes
}

fn no_point() -> [u8; 32] {
    let mut bytes = [0u8; 32];
    bytes[0] = 2;
    bytes
}

#[test]
fn peer_id_of_a_public_key() {
    let peer_id = node_id_to_peerid(&PUBLIC).unwrap();
    assert_eq!(*peer_id.as_bytes(), expected_peer_id(&PUBLIC));
    assert!(libp2p::PeerId::from_bytes(peer_id.as_bytes()).is_ok());
}

#[test]
fn bytes_off_the_curve_have_no_peer_id() {
    assert!(node_id_to_peerid(&no_point()).is_none());
    assert_eq!(
        peer_id_of_endpoint(&no_point()).unwrap_err(),
        "Key decoding error: failed to parse Ed25519 public key"
    );
}

#[test]
fn identity_of_a_secret_key() {
    let identity = Identity::from_secret_key(SECRET).unwrap();
    assert_eq!(identity.secret_key, SECRET);
    assert_eq!(identity.node_id, PUBLIC);
    assert_eq!(*identity.peer_id.as_bytes(), expected_peer_id(&PUBLIC));
}

#[test]
fn identity_of_an_ed25519_keypair() {
    let identity = Identity::select(Some(Keypair { ed25519_secret: Some(SECRET) })).unwrap();
    assert_eq!(identity.node_id, PUBLIC);
    let keypair = libp2p::identity::Keypair::ed25519_from_bytes(SECRET).unwrap();
    assert_eq!(
        *identity.peer_id.as_bytes(),
        libp2p::PeerId::from(keypair.public()).to_bytes()
    );
}

#[test]
fn other_keypairs_are_refused() {
    let error = Identity::select(Some(Keypair { ed25519_secret: None })).err().unwrap();
    assert_eq!(
        error.to_string(),
        "TransportError: Listen(\"Failed to convert libp2p keypair to iroh secret key\")"
    );
}

#[test]
fn generated_identities_are_consistent_and_differ() {
    let a = Identity::select(None).unwrap();
    let b = Identity::select(None).unwrap();
    assert_ne!(a.secret_key, b.secret_key);
    assert_ne!(a.node_id, a.secret_key);
    assert_eq!(*iroh::SecretKey::from_bytes(&a.secret_key).public().as_bytes(), a.node_id);
    assert_eq!(*a.peer_id.as_bytes(), expected_peer_id(&a.node_id));
    assert_ne!(a.peer_id.as_bytes(), b.peer_id.as_bytes());
}
