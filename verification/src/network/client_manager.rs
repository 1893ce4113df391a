use vstd::prelude::*;

use crate::network::setup::{setup_code, Setup};
use crate::protocol::packet::{le32_val, le64_val, Packet, PacketKind};
use crate::protocol::protocol::parse_join_body;
use crate::utils::errors::Error;
use crate::utils::models::JoinRequest;

verus! {

/// What the accept loop does with one decoded packet of an unauthenticated
/// connection.
#[derive(Debug)]
pub enum HandshakeStep {
    /// Reply with this error under the given id: the packet was not a
    /// usable setup request. Like every failed attempt it spends one of the
    /// five the handshake allows; after the fifth the socket closes
    /// silently.
    Refuse(u32, Error),
    /// Reply with this error under the given id and let the client try
    /// again: a connection or reconnection body that did not parse.
    BadRequest(u32, Error),
    /// A valid join request; seat the player and answer under this id.
    Connect(u32, JoinRequest),
    /// A valid rejoin request; look the session up and answer under this id.
    Reconnect(u32, JoinRequest),
}

/// Classifies one packet of the join handshake. Anything but a
/// `Setup.Connection` or `Setup.Reconnection` request is refused with the
/// connection-needed error; every failure spends one of the handshake's
/// five attempts.
pub fn handshake_decision(packet: &Packet) -> (r: HandshakeStep)
    ensures
        packet.kind != PacketKind::Setup ==> r == HandshakeStep::Refuse(
            packet.id,
            Error::ConnectionNeeded,
        ),
        packet.kind == PacketKind::Setup && (packet.body@.len() < 4 || !(1 <= le32_val(
            packet.body@[0],
            packet.body@[1],
            packet.body@[2],
            packet.body@[3],
        ) <= 2)) ==> r == HandshakeStep::Refuse(packet.id, Error::ConnectionNeeded),
        packet.kind == PacketKind::Setup && packet.body@.len() >= 4 && le32_val(
            packet.body@[0],
            packet.body@[1],
            packet.body@[2],
            packet.body@[3],
        ) == setup_code(Setup::Connection) ==> {
            if packet.body@.len() >= 13 && vstd::utf8::valid_utf8(packet.body@.skip(13)) {
                r matches HandshakeStep::Connect(id, j) && id == packet.id && j.alias@
                    == vstd::utf8::decode_utf8(packet.body@.skip(13)) && j.id == le64_val(
                    packet.body@[5],
                    packet.body@[6],
                    packet.body@[7],
                    packet.body@[8],
                    packet.body@[9],
                    packet.body@[10],
                    packet.body@[11],
                    packet.body@[12],
                )
            } else {
                r == HandshakeStep::BadRequest(packet.id, Error::ConnectionFailed(54))
            }
        },
        packet.kind == PacketKind::Setup && packet.body@.len() >= 4 && le32_val(
            packet.body@[0],
            packet.body@[1],
            packet.body@[2],
            packet.body@[3],
        ) == setup_code(Setup::Reconnection) ==> {
            if packet.body@.len() >= 13 && vstd::utf8::valid_utf8(packet.body@.skip(13)) {
                r matches HandshakeStep::Reconnect(id, j) && id == packet.id && j.alias@
                    == vstd::utf8::decode_utf8(packet.body@.skip(13)) && j.id == le64_val(
                    packet.body@[5],
                    packet.body@[6],
                    packet.body@[7],
                    packet.body@[8],
                    packet.body@[9],
                    packet.body@[10],
                    packet.body@[11],
                    packet.body@[12],
                )
            } else {
                r == HandshakeStep::BadRequest(packet.id, Error::ConnectionFailed(54))
            }
        },
{
    let is_setup = match packet.kind {
        PacketKind::Setup => true,
        _ => false,
    };
    if !is_setup {
        return HandshakeStep::Refuse(packet.id, Error::ConnectionNeeded);
    }
    match Setup::from(packet.body.as_slice()) {
        Some(Setup::Connection) => {
            match parse_join_body(packet.body.as_slice()) {
                Ok(req) => HandshakeStep::Connect(packet.id, req),
                Err(e) => HandshakeStep::BadRequest(packet.id, e),
            }
        },
        Some(Setup::Reconnection) => {
            match parse_join_body(packet.body.as_slice()) {
                Ok(req) => HandshakeStep::Reconnect(packet.id, req),
                Err(e) => HandshakeStep::BadRequest(packet.id, e),
            }
        },
        _ => HandshakeStep::Refuse(packet.id, Error::ConnectionNeeded),
    }
}

} // verus!
