use vstd::prelude::*;
use vstd::slice::slice_to_vec;
use vstd::utf8::{decode_utf8, valid_utf8};

use crate::game::enums::TileKind;
use crate::protocol::packet::{le64_val, u64_from_le};
use crate::utils::errors::Error;

verus! {

/// A join (or rejoin) request: the client-chosen 64-bit player id followed
/// by a UTF-8 alias.
#[derive(Clone, Debug)]
pub struct JoinRequest {
    pub id: u64,
    pub alias: String,
}

/// Relies on `String::from_utf8` of the standard library: it accepts exactly
/// the byte sequences that are valid UTF-8 and decodes them, and the result
/// depends on the bytes alone.
#[verifier::external_body]
fn bytes_to_string(bytes: Vec<u8>) -> (r: Option<String>)
    ensures
        r is Some <==> valid_utf8(bytes@),
        r matches Some(s) ==> s@ == decode_utf8(bytes@),
{
    String::from_utf8(bytes).ok()
}

impl JoinRequest {
    /// Parses the hand-packed wire form: 8 bytes little-endian id, then the
    /// alias in UTF-8. Too-short bodies and invalid UTF-8 are both rejected
    /// with connection-failure code 54.
    pub fn parse(bytes: &[u8]) -> (r: Result<Self, Error>)
        ensures
            r is Ok <==> bytes@.len() >= 8 && valid_utf8(bytes@.skip(8)),
            r matches Ok(j) ==> j.id == le64_val(
                bytes@[0],
                bytes@[1],
                bytes@[2],
                bytes@[3],
                bytes@[4],
                bytes@[5],
                bytes@[6],
                bytes@[7],
            ) && j.alias@ == decode_utf8(bytes@.skip(8)),
            r is Err ==> r == Err::<Self, Error>(Error::ConnectionFailed(54)),
    {
        if bytes.len() < 8 {
            return Err(Error::ConnectionFailed(54));
        }
        let id = u64_from_le(
            bytes[0],
            bytes[1],
            bytes[2],
            bytes[3],
            bytes[4],
            bytes[5],
            bytes[6],
            bytes[7],
        );
        let alias_slice = &bytes[8..bytes.len()];
        assert(alias_slice@ =~= bytes@.skip(8));
        let alias_bytes: Vec<u8> = slice_to_vec(alias_slice);
        match bytes_to_string(alias_bytes) {
            None => Err(Error::ConnectionFailed(54)),
            Some(alias) => Ok(JoinRequest { id, alias }),
        }
    }
}

/// The broadcast payload announcing a discarded tile.
#[derive(Clone, Copy, Debug, PartialEq, Eq, Structural)]
pub struct Discard {
    pub player_id: u64,
    pub tile_copy: u8,
    pub tile_kind: TileKind,
}

/// The private payload announcing a drawn tile to its drawer.
#[derive(Clone, Copy, Debug, PartialEq, Eq, Structural)]
pub struct Draw {
    pub player_id: u64,
    pub tile_kind: TileKind,
    pub tile_copy: u8,
}

/// The four call permissions the rule oracle grants one seat on one discard.
#[derive(Clone, Copy, Debug, PartialEq, Eq, Structural)]
pub struct MeldFlags {
    pub pid: u64,
    pub ron: bool,
    pub pon: bool,
    pub chi: bool,
    pub kan: bool,
}

impl MeldFlags {
    /// Flags that allow nothing; what the core assumes when the oracle
    /// fails.
    pub fn none(pid: u64) -> (r: MeldFlags)
        ensures
            r == (MeldFlags { pid, ron: false, pon: false, chi: false, kan: false }),
    {
        MeldFlags { pid, ron: false, pon: false, chi: false, kan: false }
    }
}

} // verus!
