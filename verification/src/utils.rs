//! Player identities for servers that do not authenticate.

use crate::network::primitives::be_u128;
use vstd::prelude::*;
use vstd::string::StringSliceAdditionalSpecFns;

verus! {

/// The MD5 digest of a byte sequence: sixteen bytes.
pub uninterp spec fn md5_digest(data: Seq<u8>) -> Seq<u8>;

/// The bytes of `"OfflinePlayer:"`, which come before the player's name
/// in what is hashed.
pub open spec fn offline_prefix() -> Seq<u8> {
    seq![
        0x4fu8, 0x66u8, 0x66u8, 0x6cu8, 0x69u8, 0x6eu8, 0x65u8, 0x50u8, 0x6cu8, 0x61u8, 0x79u8,
        0x65u8, 0x72u8, 0x3au8,
    ]
}

/// A digest marked as a name-based UUID: version 3 in the high half of
/// byte 6, the RFC 4122 variant in the top two bits of byte 8.
pub open spec fn stamp_v3(digest: Seq<u8>) -> Seq<u8> {
    digest.update(6, (digest[6] & 0x0f) | 0x30).update(8, (digest[8] & 0x3f) | 0x80)
}

/// The UUID of the player `name` on a server that does not authenticate:
/// the marked MD5 digest of `"OfflinePlayer:"` and the name, read as one
/// number, most significant byte first.
pub open spec fn offline_uuid(name: Seq<u8>) -> u128 {
    be_u128(stamp_v3(md5_digest(offline_prefix() + name)))
}

/// `md5::Context::new`, `consume` for each part, then `finalize`: the
/// digest of the first part followed by the second.
#[verifier::external_body]
fn md5_of_parts(first: &[u8], second: &[u8]) -> (digest: [u8; 16])
    ensures
        digest@ == md5_digest(first@ + second@),
{
    let mut context = md5::Context::new();
    context.consume(first);
    context.consume(second);
    context.finalize().0
}

/// `uuid::Builder::from_md5_bytes`: the digest with the variant bits of
/// byte 8 set to `10` and the version nibble of byte 6 set to 3, all
/// other bits as they are.
#[verifier::external_body]
fn uuid_from_md5(digest: [u8; 16]) -> (bytes: [u8; 16])
    ensures
        bytes@ == stamp_v3(digest@),
{
    uuid::Builder::from_md5_bytes(digest).into_uuid().into_bytes()
}

/// Something that can name the UUID of an offline player.
pub trait MCPlayerUUID {
    /// The UUID of the player `player_name` on a server that does not
    /// authenticate.
    fn new_mc_offline_player(player_name: &str) -> (uuid: u128)
        ensures
            uuid == offline_uuid(player_name.spec_bytes()),
    {
        let prefix: [u8; 14] = [
            0x4f, 0x66, 0x66, 0x6c, 0x69, 0x6e, 0x65, 0x50, 0x6c, 0x61, 0x79, 0x65, 0x72, 0x3a,
        ];
        assert(prefix@ =~= offline_prefix());
        let digest = md5_of_parts(prefix.as_slice(), player_name.as_bytes());
        let bytes = uuid_from_md5(digest);
        let uuid = crate::network::primitives::get_be_u128(bytes.as_slice(), 0);
        assert(bytes@.skip(0) =~= bytes@);
        uuid
    }
}

/// The UUIDs of this library are 128-bit numbers.
impl MCPlayerUUID for u128 {

}

} // verus!
