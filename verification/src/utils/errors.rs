use vstd::prelude::*;

verus! {

/// Every failure the server core can report. Variants carrying a `u16` keep
/// the numeric code that is embedded in the human-readable message.
#[derive(Clone, Copy, Debug, PartialEq, Eq, Structural)]
pub enum Error {
    // Server related errors
    ConnectionFailed(u16),
    SerializationFailed(u16),
    AuthenticationFailed(u16),
    InitializationFailed(u16),
    InternalError,
    // Client related errors
    ReconnectionFailed(u16),
    ConnectionNeeded,
    OperationFailed(u16),
    // Protocol related errors
    PacketParsingFailed(u16),
    TileParsingFailed,
    GameActionParsingFailed(u16),
    // Game related errors
    MatchAlreadyFull,
    DrawFailed(u16),
    MatchStartFailed(u16),
    NextPlayerFailed,
    NoAvailableSeats,
    DiscardFailed(u16),
    GameActionFailed,
}

/// The human form of each error, exactly as `message` returns it.
/// Codes that the core actually emits appear verbatim in the text; any other
/// code falls back to the same text without the number.
pub open spec fn message_spec(e: Error) -> Seq<char> {
    match e {
        Error::ConnectionFailed(c) => if c == 54 {
            "network error: failed to authenticate client (54)"@
        } else {
            "network error: failed to authenticate client"@
        },
        Error::SerializationFailed(c) => if c == 10 {
            "SERVER ERROR: (10)"@
        } else {
            "SERVER ERROR"@
        },
        Error::AuthenticationFailed(_) => "network error: authentication failed"@,
        Error::InitializationFailed(c) => if c == 4 {
            "server error: initialization failed (4)"@
        } else if c == 5 {
            "server error: initialization failed (5)"@
        } else {
            "server error: initialization failed"@
        },
        Error::InternalError => "SERVER ERROR"@,
        Error::ReconnectionFailed(c) => if c == 55 {
            "CLIENT ERROR (55)"@
        } else {
            "CLIENT ERROR"@
        },
        Error::ConnectionNeeded => "CLIENT ERROR (56)"@,
        Error::OperationFailed(c) => if c == 57 {
            "CLIENT ERROR (57)"@
        } else {
            "CLIENT ERROR"@
        },
        Error::PacketParsingFailed(c) => if c == 101 {
            "Could not parse received packet (101)"@
        } else if c == 102 {
            "Could not parse received packet (102)"@
        } else {
            "Could not parse received packet"@
        },
        Error::TileParsingFailed => "request error: failed to parse target Tile"@,
        Error::GameActionParsingFailed(c) => if c == 1 {
            "request error: failed do parse game action packet (1)"@
        } else {
            "request error: failed do parse game action packet"@
        },
        Error::MatchAlreadyFull => "request error: failed to join match"@,
        Error::DrawFailed(c) => if c == 161 {
            "game error: unable to draw a tile (161)"@
        } else if c == 162 {
            "game error: unable to draw a tile (162)"@
        } else if c == 163 {
            "game error: unable to draw a tile (163)"@
        } else {
            "game error: unable to draw a tile"@
        },
        Error::MatchStartFailed(c) => if c == 151 {
            "game error: could not start match (151)"@
        } else if c == 152 {
            "game error: could not start match (152)"@
        } else if c == 153 {
            "game error: could not start match (153)"@
        } else if c == 154 {
            "game error: could not start match (154)"@
        } else if c == 155 {
            "game error: could not start match (155)"@
        } else {
            "game error: could not start match"@
        },
        Error::NextPlayerFailed => "game error: could not get next player"@,
        Error::NoAvailableSeats => ""@,
        Error::DiscardFailed(c) => if c == 164 {
            "game error: could not discard tile (164)"@
        } else if c == 165 {
            "game error: could not discard tile (165)"@
        } else {
            "game error: could not discard tile"@
        },
        Error::GameActionFailed => "game error: game action failed"@,
    }
}

impl Error {
    /// The display string sent to clients inside an `Error` packet body.
    pub fn message(&self) -> (r: String)
        ensures
            r@ == message_spec(*self),
    {
        match self {
            Error::ConnectionFailed(c) => if *c == 54 {
                "network error: failed to authenticate client (54)".to_owned()
            } else {
                "network error: failed to authenticate client".to_owned()
            },
            Error::SerializationFailed(c) => if *c == 10 {
                "SERVER ERROR: (10)".to_owned()
            } else {
                "SERVER ERROR".to_owned()
            },
            Error::AuthenticationFailed(_) => "network error: authentication failed".to_owned(),
            Error::InitializationFailed(c) => if *c == 4 {
                "server error: initialization failed (4)".to_owned()
            } else if *c == 5 {
                "server error: initialization failed (5)".to_owned()
            } else {
                "server error: initialization failed".to_owned()
            },
            Error::InternalError => "SERVER ERROR".to_owned(),
            Error::ReconnectionFailed(c) => if *c == 55 {
                "CLIENT ERROR (55)".to_owned()
            } else {
                "CLIENT ERROR".to_owned()
            },
            Error::ConnectionNeeded => "CLIENT ERROR (56)".to_owned(),
            Error::OperationFailed(c) => if *c == 57 {
                "CLIENT ERROR (57)".to_owned()
            } else {
                "CLIENT ERROR".to_owned()
            },
            Error::PacketParsingFailed(c) => if *c == 101 {
                "Could not parse received packet (101)".to_owned()
            } else if *c == 102 {
                "Could not parse received packet (102)".to_owned()
            } else {
                "Could not parse received packet".to_owned()
            },
            Error::TileParsingFailed => "request error: failed to parse target Tile".to_owned(),
            Error::GameActionParsingFailed(c) => if *c == 1 {
                "request error: failed do parse game action packet (1)".to_owned()
            } else {
                "request error: failed do parse game action packet".to_owned()
            },
            Error::MatchAlreadyFull => "request error: failed to join match".to_owned(),
            Error::DrawFailed(c) => if *c == 161 {
                "game error: unable to draw a tile (161)".to_owned()
            } else if *c == 162 {
                "game error: unable to draw a tile (162)".to_owned()
            } else if *c == 163 {
                "game error: unable to draw a tile (163)".to_owned()
            } else {
                "game error: unable to draw a tile".to_owned()
            },
            Error::MatchStartFailed(c) => if *c == 151 {
                "game error: could not start match (151)".to_owned()
            } else if *c == 152 {
                "game error: could not start match (152)".to_owned()
            } else if *c == 153 {
                "game error: could not start match (153)".to_owned()
            } else if *c == 154 {
                "game error: could not start match (154)".to_owned()
            } else if *c == 155 {
                "game error: could not start match (155)".to_owned()
            } else {
                "game error: could not start match".to_owned()
            },
            Error::NextPlayerFailed => "game error: could not get next player".to_owned(),
            Error::NoAvailableSeats => "".to_owned(),
            Error::DiscardFailed(c) => if *c == 164 {
                "game error: could not discard tile (164)".to_owned()
            } else if *c == 165 {
                "game error: could not discard tile (165)".to_owned()
            } else {
                "game error: could not discard tile".to_owned()
            },
            Error::GameActionFailed => "game error: game action failed".to_owned(),
        }
    }
}

} // verus!
