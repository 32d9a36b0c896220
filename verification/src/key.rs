use vstd::prelude::*;

verus! {

/// The least length of an adequate secret: as many bytes as the digest of
/// HMAC-SHA-512 has.
pub const MIN_SECRET_LEN: usize = 64;

/// The secret as the issuer holds it. Built once at startup and shared by
/// reference; nothing changes it afterwards.
#[derive(Clone, Debug)]
pub struct EncodingKey {
    secret: Vec<u8>,
}

/// The secret as the validator holds it.
#[derive(Clone, Debug)]
pub struct DecodingKey {
    secret: Vec<u8>,
}

impl View for EncodingKey {
    type V = Seq<u8>;

    closed spec fn view(&self) -> Seq<u8> {
        self.secret@
    }
}

impl View for DecodingKey {
    type V = Seq<u8>;

    closed spec fn view(&self) -> Seq<u8> {
        self.secret@
    }
}

impl EncodingKey {
    /// A signing key over the given secret bytes.
    pub fn from_secret(secret: Vec<u8>) -> (key: EncodingKey)
        ensures
            key@ == secret@,
    {
        EncodingKey { secret }
    }

    /// The secret bytes.
    pub fn as_bytes(&self) -> (bytes: &[u8])
        ensures
            bytes@ == self@,
    {
        self.secret.as_slice()
    }
}

impl DecodingKey {
    /// A verification key over the given secret bytes.
    pub fn from_secret(secret: Vec<u8>) -> (key: DecodingKey)
        ensures
            key@ == secret@,
    {
        DecodingKey { secret }
    }

    /// The secret bytes.
    pub fn as_bytes(&self) -> (bytes: &[u8])
        ensures
            bytes@ == self@,
    {
        self.secret.as_slice()
    }
}

/// Both keys over one configured secret, or nothing where the secret is
/// shorter than `MIN_SECRET_LEN`: a process without an adequate secret must
/// not start.
pub fn key_pair(secret: Vec<u8>) -> (keys: Option<(EncodingKey, DecodingKey)>)
    ensures
        match keys {
            Some((e_key, d_key)) => secret@.len() >= MIN_SECRET_LEN && e_key@ == secret@ && d_key@
                == secret@,
            None => secret@.len() < MIN_SECRET_LEN,
        },
{
    if secret.len() < MIN_SECRET_LEN {
        None
    } else {
        let copy = secret.clone();
        Some((EncodingKey::from_secret(secret), DecodingKey::from_secret(copy)))
    }
}

} // verus!
