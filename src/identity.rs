use vstd::prelude::*;

use crate::hex::{decode_hex_bytes, encode_hex_bytes, hex_bytes, hex_decoded, lemma_hex_round_trip};

verus! {

/// Length in bytes of a secret key and of a public key.
pub const KEY_LEN: usize = 32;

/// Name of the file, inside the data directory, that holds the node's secret key.
pub const KEY_FILE_NAME: &'static str = "private_key";

/// The Ed25519 public key that belongs to the 32-byte secret `secret`.
pub uninterp spec fn public_key_of(secret: Seq<u8>) -> Seq<u8>;

/// Relies on p2panda_core::PrivateKey::public_key: the Ed25519 public key of a secret,
/// a 32-byte value that depends on the secret alone.
#[verifier::external_body]
fn derive_public_key(secret: &Vec<u8>) -> (r: Vec<u8>)
    requires
        secret@.len() == KEY_LEN,
    ensures
        r@ == public_key_of(secret@),
        r@.len() == KEY_LEN,
{
    let bytes: [u8; 32] = secret.as_slice().try_into().unwrap();
    p2panda_core::PrivateKey::from_bytes(&bytes).public_key().as_bytes().to_vec()
}

/// Relies on p2panda_core::PrivateKey::new: a secret key drawn from the system's
/// cryptographic random number generator, 32 bytes long.
#[verifier::external_body]
fn random_secret() -> (r: Vec<u8>)
    ensures
        r@.len() == KEY_LEN,
{
    p2panda_core::PrivateKey::new().as_bytes().to_vec()
}

/// Why a stored identity could not be used.
#[derive(Clone, Copy, Debug, PartialEq, Eq, Structural)]
pub enum IdentityError {
    /// The key file exists but could not be read.
    Unreadable,
    /// The key file does not hold the hexadecimal text of a 32-byte secret.
    Malformed,
}

/// A node's key pair: a secret key and the public key derived from it.
pub struct Identity {
    pub secret: Vec<u8>,
    pub public: Vec<u8>,
}

impl Identity {
    /// The secret is 32 bytes long and the public key is the one it derives.
    pub open spec fn wf(&self) -> bool {
        &&& self.secret@.len() == KEY_LEN
        &&& self.public@ == public_key_of(self.secret@)
    }

    /// The key pair of the given 32-byte secret.
    pub fn from_secret(secret: Vec<u8>) -> (r: Identity)
        requires
            secret@.len() == KEY_LEN,
        ensures
            r.wf(),
            r.secret@ == secret@,
    {
        let public = derive_public_key(&secret);
        Identity { secret, public }
    }

    /// A fresh random identity that is stored nowhere.
    pub fn create_ephemeral() -> (r: Identity)
        ensures
            r.wf(),
    {
        Identity::from_secret(random_secret())
    }

    /// The contents of the key file that stores this identity.
    pub fn key_file_contents(&self) -> (r: Vec<u8>)
        requires
            self.wf(),
        ensures
            r@ == key_file_text(self.secret@),
    {
        let mut r = encode_hex_bytes(self.secret.as_slice());
        r.push(10u8);
        r
    }
}

/// What a key file holds for `secret`: its lower-case hexadecimal text and a line feed.
pub open spec fn key_file_text(secret: Seq<u8>) -> Seq<u8> {
    hex_bytes(secret).push(10)
}

/// The key text of a key file: its contents without one trailing line feed.
pub open spec fn key_text(c: Seq<u8>) -> Seq<u8> {
    if c.len() > 0 && c.last() == 10 {
        c.drop_last()
    } else {
        c
    }
}

/// The secret stored in a key file with contents `c`, if it holds one.
pub open spec fn key_file_secret(c: Seq<u8>) -> Option<Seq<u8>> {
    match hex_decoded(key_text(c)) {
        Some(s) => if s.len() == KEY_LEN { Some(s) } else { None },
        None => None,
    }
}

/// Reads the secret out of the contents of a key file.
pub fn parse_key_file(contents: &[u8]) -> (r: Result<Vec<u8>, IdentityError>)
    ensures
        match r {
            Ok(s) => key_file_secret(contents@) == Some(s@),
            Err(e) => key_file_secret(contents@) is None && e == IdentityError::Malformed,
        },
{
    let n = contents.len();
    let text: &[u8] = if n > 0 && contents[n - 1] == 10 {
        vstd::slice::slice_subrange(contents, 0, n - 1)
    } else {
        contents
    };
    assert(text@ =~= key_text(contents@));
    match decode_hex_bytes(text) {
        Some(s) => {
            if s.len() == KEY_LEN {
                Ok(s)
            } else {
                Err(IdentityError::Malformed)
            }
        },
        None => Err(IdentityError::Malformed),
    }
}

/// The bytes held by an optional buffer.
pub open spec fn bytes_of(o: Option<Vec<u8>>) -> Option<Seq<u8>> {
    match o {
        Some(v) => Some(v@),
        None => None,
    }
}

/// What loading or creating an identity gives, when the key file holds `existing`
/// (`None`: there is no key file) and `fresh` is the secret to use if none is stored:
/// the secret in use and what is to be written to the key file, if anything.
pub open spec fn load_or_create_result(existing: Option<Seq<u8>>, fresh: Seq<u8>) -> Result<
    (Seq<u8>, Option<Seq<u8>>),
    IdentityError,
> {
    match existing {
        None => Ok((fresh, Some(key_file_text(fresh)))),
        Some(c) => match key_file_secret(c) {
            Some(s) => Ok((s, None)),
            None => Err(IdentityError::Malformed),
        },
    }
}

/// The identity in use and the key file contents still to be written, if any.
pub struct KeyResolution {
    pub identity: Identity,
    pub persist: Option<Vec<u8>>,
}

/// Loads the identity stored in a key file with contents `existing`, or, where there is no
/// key file, adopts `fresh` and hands back the contents to store for it. A stored key is
/// never replaced.
pub fn load_or_create(existing: Option<Vec<u8>>, fresh: Identity) -> (r: Result<
    KeyResolution,
    IdentityError,
>)
    requires
        fresh.wf(),
    ensures
        match r {
            Ok(k) => {
                &&& k.identity.wf()
                &&& load_or_create_result(bytes_of(existing), fresh.secret@) == Ok::<
                    (Seq<u8>, Option<Seq<u8>>),
                    IdentityError,
                >((k.identity.secret@, bytes_of(k.persist)))
            },
            Err(e) => load_or_create_result(bytes_of(existing), fresh.secret@) == Err::<
                (Seq<u8>, Option<Seq<u8>>),
                IdentityError,
            >(e),
        },
{
    match existing {
        None => {
            let contents = fresh.key_file_contents();
            Ok(KeyResolution { identity: fresh, persist: Some(contents) })
        },
        Some(c) => match parse_key_file(c.as_slice()) {
            Ok(s) => Ok(KeyResolution { identity: Identity::from_secret(s), persist: None }),
            Err(e) => Err(e),
        },
    }
}

/// Loading or creating an identity twice against the same key file gives the same key
/// pair: the second run reads what the first one found or stored, whatever fresh secret
/// each run had at hand.
pub proof fn lemma_load_or_create_twice(
    existing: Option<Seq<u8>>,
    fresh1: Seq<u8>,
    fresh2: Seq<u8>,
)
    requires
        fresh1.len() == KEY_LEN,
        load_or_create_result(existing, fresh1) is Ok,
    ensures
        ({
            let (secret, persist) = load_or_create_result(existing, fresh1)->Ok_0;
            let stored = match persist {
                Some(p) => Some(p),
                None => existing,
            };
            &&& load_or_create_result(stored, fresh2) == Ok::<
                (Seq<u8>, Option<Seq<u8>>),
                IdentityError,
            >((secret, None))
            &&& public_key_of(load_or_create_result(stored, fresh2)->Ok_0.0) == public_key_of(
                secret,
            )
        }),
{
    if existing is None {
        lemma_key_file_round_trip(fresh1);
    }
}

/// A key file written for a 32-byte secret is read back as that secret.
pub proof fn lemma_key_file_round_trip(secret: Seq<u8>)
    requires
        secret.len() == KEY_LEN,
    ensures
        key_file_secret(key_file_text(secret)) == Some(secret),
{
    lemma_hex_round_trip(secret);
    assert(key_text(key_file_text(secret)) =~= hex_bytes(secret));
}

} // verus!
