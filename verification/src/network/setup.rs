use vstd::prelude::*;

use crate::protocol::packet::{le32, le32_val, u32_from_le};

verus! {

/// The operations of the `Setup` packet kind, identified by the leading
/// 32-bit little-endian word of the body.
#[derive(Clone, Copy, Debug, PartialEq, Eq, Structural)]
pub enum Setup {
    Connection,
    Reconnection,
    Initialization,
    Ready,
}

/// The wire code of each setup operation.
pub open spec fn setup_code(s: Setup) -> u32 {
    match s {
        Setup::Connection => 1,
        Setup::Reconnection => 2,
        Setup::Initialization => 3,
        Setup::Ready => 4,
    }
}

impl Setup {
    /// Decodes the leading operation word of a `Setup` body. Bodies shorter
    /// than the word, like unknown codes, name no operation.
    pub fn from(bytes: &[u8]) -> (r: Option<Self>)
        ensures
            bytes@.len() < 4 ==> r is None,
            bytes@.len() >= 4 ==> (r is Some <==> 1 <= le32_val(
                bytes@[0],
                bytes@[1],
                bytes@[2],
                bytes@[3],
            ) <= 4),
            r matches Some(s) ==> bytes@.len() >= 4 && setup_code(s) == le32_val(
                bytes@[0],
                bytes@[1],
                bytes@[2],
                bytes@[3],
            ),
    {
        if bytes.len() < 4 {
            return None;
        }
        match u32_from_le(bytes[0], bytes[1], bytes[2], bytes[3]) {
            1 => Some(Self::Connection),
            2 => Some(Self::Reconnection),
            3 => Some(Self::Initialization),
            4 => Some(Self::Ready),
            _ => None,
        }
    }

    /// The four-byte little-endian form of the operation code.
    pub fn bytes(&self) -> (r: [u8; 4])
        ensures
            r@ =~= le32(setup_code(*self)),
    {
        let x: u32 = match self {
            Self::Connection => 0x01,
            Self::Reconnection => 0x02,
            Self::Initialization => 0x03,
            Self::Ready => 0x04,
        };
        [(x & 0xff) as u8, ((x >> 8) & 0xff) as u8, ((x >> 16) & 0xff) as u8, ((x >> 24)
            & 0xff) as u8]
    }
}

} // verus!
