//! Id generation and ActivityPub extension objects.
use crate::ext::{uuid_new_v4, uuid_now_v7, uuid_rfc_variant, uuid_simple_string, uuid_simple_text, uuid_version};
use vstd::prelude::*;

verus! {

/// A fresh time-ordered UUID: version 7, RFC variant; its other bits come
/// from the clock and from chance.
pub fn generate_uuid() -> (r: u128)
    ensures
        uuid_version(r) == 7,
        uuid_rfc_variant(r),
{
    uuid_now_v7()
}

/// A fresh random UUID: version 4, RFC variant; its other bits come from
/// chance.
pub fn generate_uuid_random() -> (r: u128)
    ensures
        uuid_version(r) == 4,
        uuid_rfc_variant(r),
{
    uuid_new_v4()
}

/// The UUID as 32 hex digits.
pub fn uuid_to_string(uuid: u128) -> (r: String)
    ensures
        r@ == uuid_simple_text(uuid),
{
    uuid_simple_string(uuid)
}

/// The `Hashtag` object type.
#[derive(Debug, Clone, Copy)]
pub struct HashtagKind;

/// A hashtag object: its type and its name.
#[derive(Debug, Clone)]
pub struct HashtagObject {
    pub kind: HashtagKind,
    pub name: String,
}

/// An actor's public key as it is published: id, owner, key in PEM form and
/// object type (`Key`, serialized as `type`).
#[derive(Debug, Clone)]
pub struct PublicKey {
    pub id: String,
    pub owner: String,
    pub public_key_pem: String,
    pub key_type: String,
}

/// The actor extension that carries the public key.
#[derive(Debug, Clone)]
pub struct PublicKeyExtension {
    pub public_key: PublicKey,
}

impl PublicKey {
    /// A public key of type `Key`.
    pub fn new(id: String, owner: String, public_key_pem: String) -> (r: Self)
        ensures
            r.id == id,
            r.owner == owner,
            r.public_key_pem == public_key_pem,
            r.key_type@ == "Key"@,
    {
        PublicKey { id, owner, public_key_pem, key_type: "Key".to_owned() }
    }

    pub fn into_ext(self) -> (r: PublicKeyExtension)
        ensures
            r.public_key == self,
    {
        PublicKeyExtension { public_key: self }
    }
}

} // verus!
