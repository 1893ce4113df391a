use vstd::prelude::*;

use crate::game::enums::{action_code, Action, PlayerStatus, Seat};
use crate::game::match_manager::free_seat_spec;
use crate::protocol::packet::le64_val;
use vstd::utf8::{decode_utf8, valid_utf8};
use crate::game::match_manager::{MatchManager, MatchStatus};
use crate::network::setup::{setup_code, Setup};
use crate::protocol::packet::{le32, Packet, PacketKind};
use crate::utils::errors::Error;
use crate::utils::models::JoinRequest;

verus! {

/// Parses the join request carried after the 4-byte operation word and the
/// reserved byte of a `Setup` connection or reconnection body.
pub fn parse_join_body(body: &[u8]) -> (r: Result<JoinRequest, Error>)
    ensures
        r is Ok <==> body@.len() >= 13 && valid_utf8(body@.skip(13)),
        r is Err ==> r == Err::<JoinRequest, Error>(Error::ConnectionFailed(54)),
        r matches Ok(j) ==> j.alias@ == decode_utf8(body@.skip(13)) && j.id == le64_val(
            body@[5],
            body@[6],
            body@[7],
            body@[8],
            body@[9],
            body@[10],
            body@[11],
            body@[12],
        ),
{
    if body.len() < 5 {
        return Err(Error::ConnectionFailed(54));
    }
    let tail = &body[5..body.len()];
    proof {
        assert(tail@ =~= body@.skip(5));
        if body@.len() >= 13 {
            assert(body@.skip(5).skip(8) =~= body@.skip(13));
        }
    }
    JoinRequest::parse(tail)
}

/// Handles a `Setup.Connection` request: parses the join request and seats
/// the player, dealing the initial hand.
pub fn handle_connect(manager: &mut MatchManager, packet: &Packet) -> (r: Result<Seat, Error>)
    requires
        old(manager).inv(),
    ensures
        final(manager).inv(),
        !(packet.body@.len() >= 13 && valid_utf8(packet.body@.skip(13))) ==> r == Err::<
            Seat,
            Error,
        >(Error::ConnectionFailed(54)) && *final(manager) == *old(manager),
        packet.body@.len() >= 13 && valid_utf8(packet.body@.skip(13)) ==> {
            &&& r is Ok <==> free_seat_spec(old(manager).state.player_pool) is Some
            &&& (r == Err::<Seat, Error>(Error::NoAvailableSeats) ==> *final(manager) == *old(manager))
            &&& (r matches Ok(s) ==> Some(s) == free_seat_spec(old(manager).state.player_pool)
                && (final(manager).state.player_pool.spec_get(s) matches Some(p) && p.id
                == le64_val(
                packet.body@[5],
                packet.body@[6],
                packet.body@[7],
                packet.body@[8],
                packet.body@[9],
                packet.body@[10],
                packet.body@[11],
                packet.body@[12],
            ) && p.alias@ == decode_utf8(packet.body@.skip(13)) && p.player_state
                == PlayerStatus::WAITING))
        },
{
    let req = match parse_join_body(packet.body.as_slice()) {
        Err(e) => {
            return Err(e);
        },
        Ok(req) => req,
    };
    manager.assign_player(&req)
}

/// Handles a `Setup.Reconnection` request: parses and returns the join
/// request, touching nothing; the session registry correlates it with a
/// stored session.
pub fn handle_reconnect(packet: &Packet) -> (r: Result<JoinRequest, Error>)
    ensures
        r is Ok <==> packet.body@.len() >= 13 && valid_utf8(packet.body@.skip(13)),
        r is Err ==> r == Err::<JoinRequest, Error>(Error::ConnectionFailed(54)),
        r matches Ok(j) ==> j.alias@ == decode_utf8(packet.body@.skip(13)) && j.id == le64_val(
            packet.body@[5],
            packet.body@[6],
            packet.body@[7],
            packet.body@[8],
            packet.body@[9],
            packet.body@[10],
            packet.body@[11],
            packet.body@[12],
        ),
{
    parse_join_body(packet.body.as_slice())
}

/// Handles a `Setup.Ready` request: marks the seat ready and builds the
/// acknowledgement, whose body is the single byte zero. An empty seat gets
/// the operation-failure reply instead.
pub fn handle_ready(manager: &mut MatchManager, seat: Seat, packet_id: u32) -> (p: Packet)
    requires
        old(manager).inv(),
    ensures
        final(manager).inv(),
        final(manager).status == old(manager).status,
        old(manager).state.player_pool.spec_get(seat) is Some ==> p.id == packet_id && p.kind
            == PacketKind::Setup && p.body@ =~= seq![0u8] && (final(manager).state.player_pool.spec_get(seat) matches Some(q) && q.player_state
            == PlayerStatus::READY),
        old(manager).state.player_pool.spec_get(seat) is None ==> *final(manager) == *old(manager)
            && p.id == packet_id && p.kind == PacketKind::Error,
{
    if manager.set_player_ready(seat) {
        let body: [u8; 1] = [0x00];
        Packet::create(packet_id, PacketKind::Setup, body.as_slice())
    } else {
        Packet::error(packet_id, Error::OperationFailed(57))
    }
}

/// Builds the `Setup.Initialization` response: the operation word followed
/// by the serialized player view.
pub fn initialization_response(packet_id: u32, view_bytes: &[u8]) -> (p: Packet)
    requires
        view_bytes@.len() + 18 <= u32::MAX,
    ensures
        p.id == packet_id,
        p.kind == PacketKind::Setup,
        p.body@ =~= le32(setup_code(Setup::Initialization)) + view_bytes@,
{
    let op = Setup::Initialization.bytes();
    let mut body: Vec<u8> = Vec::new();
    body.push(op[0]);
    body.push(op[1]);
    body.push(op[2]);
    body.push(op[3]);
    let mut i: usize = 0;
    while i < view_bytes.len()
        invariant
            i <= view_bytes@.len(),
            body@ =~= le32(setup_code(Setup::Initialization)) + view_bytes@.subrange(0, i as int),
        decreases view_bytes@.len() - i,
    {
        body.push(view_bytes[i]);
        i = i + 1;
    }
    proof {
        assert(body@ =~= le32(setup_code(Setup::Initialization)) + view_bytes@);
    }
    Packet::create(packet_id, PacketKind::Setup, body.as_slice())
}

/// Builds an `Action`-kind packet: the action code word followed by the
/// payload. The draw reply and per-seat call offers take this shape.
pub fn action_response(packet_id: u32, action: Action, payload: &[u8]) -> (p: Packet)
    requires
        payload@.len() + 18 <= u32::MAX,
    ensures
        p.id == packet_id,
        p.kind == PacketKind::Action,
        p.body@ =~= seq![action_code(action), 0u8, 0u8, 0u8] + payload@,
{
    let op = action.bytes();
    let mut body: Vec<u8> = Vec::new();
    body.push(op[0]);
    body.push(op[1]);
    body.push(op[2]);
    body.push(op[3]);
    let mut i: usize = 0;
    while i < payload.len()
        invariant
            i <= payload@.len(),
            body@ =~= seq![action_code(action), 0u8, 0u8, 0u8] + payload@.subrange(0, i as int),
        decreases payload@.len() - i,
    {
        body.push(payload[i]);
        i = i + 1;
    }
    proof {
        assert(body@ =~= seq![action_code(action), 0u8, 0u8, 0u8] + payload@);
    }
    Packet::create(packet_id, PacketKind::Action, body.as_slice())
}

/// Builds a `Broadcast`-kind packet: the event code word followed by the
/// payload. Discard events take this shape.
pub fn event_broadcast(packet_id: u32, action: Action, payload: &[u8]) -> (p: Packet)
    requires
        payload@.len() + 18 <= u32::MAX,
    ensures
        p.id == packet_id,
        p.kind == PacketKind::Broadcast,
        p.body@ =~= seq![action_code(action), 0u8, 0u8, 0u8] + payload@,
{
    let inner = action_response(packet_id, action, payload);
    Packet::create(packet_id, PacketKind::Broadcast, inner.body.as_slice())
}

/// Builds the `Broadcast`-kind packet that announces a status transition,
/// with the status code word as its whole body.
pub fn status_broadcast(packet_id: u32, status: MatchStatus) -> (p: Packet)
    ensures
        p.id == packet_id,
        p.kind == PacketKind::Broadcast,
        p.body@ =~= le32(crate::game::match_manager::status_code(status)),
{
    let body = status.bytes();
    Packet::create(packet_id, PacketKind::Broadcast, body.as_slice())
}

} // verus!
