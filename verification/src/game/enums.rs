use vstd::prelude::*;

use crate::utils::errors::Error;

verus! {

/// One of the four fixed positions at the table. East is the dealer and acts
/// first; play rotates East, North, West, South.
#[derive(Clone, Copy, Debug, Hash, PartialEq, Eq, Structural)]
pub enum Seat {
    North,
    South,
    East,
    West,
}

/// The seat that acts after `s` in the fixed rotation.
pub open spec fn next_seat(s: Seat) -> Seat {
    match s {
        Seat::East => Seat::North,
        Seat::North => Seat::West,
        Seat::West => Seat::South,
        Seat::South => Seat::East,
    }
}

/// The lowercase name of each seat, exactly as `Seat::to_string` returns it.
pub open spec fn seat_name(s: Seat) -> Seq<char> {
    match s {
        Seat::North => "north"@,
        Seat::South => "south"@,
        Seat::East => "east"@,
        Seat::West => "west"@,
    }
}

/// The stable integer code of each seat.
pub open spec fn seat_code(s: Seat) -> i8 {
    match s {
        Seat::North => 0,
        Seat::South => 1,
        Seat::East => 2,
        Seat::West => 3,
    }
}

impl Seat {
    /// The stable integer code of this seat: North 0, South 1, East 2,
    /// West 3. Independent of the turn rotation.
    pub fn code(&self) -> (r: i8)
        ensures
            r == seat_code(*self),
    {
        match self {
            Seat::North => 0,
            Seat::South => 1,
            Seat::East => 2,
            Seat::West => 3,
        }
    }

    pub fn to_string(&self) -> (r: String)
        ensures
            r@ == seat_name(*self),
    {
        match self {
            Seat::North => "north".to_owned(),
            Seat::South => "south".to_owned(),
            Seat::East => "east".to_owned(),
            Seat::West => "west".to_owned(),
        }
    }

    /// The seat whose turn follows this one.
    pub fn next(&self) -> (r: Seat)
        ensures
            r == next_seat(*self),
    {
        match self {
            Seat::East => Seat::North,
            Seat::North => Seat::West,
            Seat::West => Seat::South,
            Seat::South => Seat::East,
        }
    }
}

/// Per-seat readiness and turn progress.
#[derive(Clone, Copy, Debug, PartialEq, Eq, Structural)]
pub enum PlayerStatus {
    WAITING,
    DRAW,
    DISCARD,
    READY,
}

/// A player action, also the leading code of action and broadcast bodies.
#[derive(Clone, Copy, Debug, PartialEq, Eq, Structural)]
pub enum Action {
    DRAW,
    DISCARD,
    KAN,
    PON,
    CHI,
    RON,
    TSUMO,
}

/// The wire code of each action.
pub open spec fn action_code(a: Action) -> u8 {
    match a {
        Action::DRAW => 0,
        Action::DISCARD => 1,
        Action::KAN => 2,
        Action::PON => 3,
        Action::CHI => 4,
        Action::RON => 5,
        Action::TSUMO => 6,
    }
}

impl Action {
    /// The four-byte little-endian form of the action code.
    pub fn bytes(&self) -> (r: [u8; 4])
        ensures
            r@ =~= seq![action_code(*self), 0u8, 0u8, 0u8],
    {
        let leading: u8 = match self {
            Action::DRAW => 0x00,
            Action::DISCARD => 0x01,
            Action::KAN => 0x02,
            Action::PON => 0x03,
            Action::CHI => 0x04,
            Action::RON => 0x05,
            Action::TSUMO => 0x06,
        };
        [leading, 0x00, 0x00, 0x00]
    }

    /// Decodes an action code; codes 0 through 6 are the only valid ones.
    pub fn get(value: u8) -> (r: Option<Action>)
        ensures
            r is Some <==> value <= 6,
            r matches Some(a) ==> action_code(a) == value,
    {
        match value {
            0 => Some(Action::DRAW),
            1 => Some(Action::DISCARD),
            2 => Some(Action::KAN),
            3 => Some(Action::PON),
            4 => Some(Action::CHI),
            5 => Some(Action::RON),
            6 => Some(Action::TSUMO),
            _ => None,
        }
    }
}

/// The 34 tile kinds: 9 bamboos, 9 circles, 9 characters, 3 dragons, 4 winds.
#[derive(Clone, Copy, Debug, Hash, PartialEq, Eq, Structural)]
pub enum TileKind {
    // Bamboos
    Souzu1,
    Souzu2,
    Souzu3,
    Souzu4,
    Souzu5,
    Souzu6,
    Souzu7,
    Souzu8,
    Souzu9,
    // Circles
    Pinzu1,
    Pinzu2,
    Pinzu3,
    Pinzu4,
    Pinzu5,
    Pinzu6,
    Pinzu7,
    Pinzu8,
    Pinzu9,
    // Characters
    Manzu1,
    Manzu2,
    Manzu3,
    Manzu4,
    Manzu5,
    Manzu6,
    Manzu7,
    Manzu8,
    Manzu9,
    // Dragons
    Red,
    White,
    Green,
    // Winds
    East,
    West,
    North,
    South,
}

/// The stable integer code of each tile kind: bamboos 11..19, circles 21..29,
/// characters 31..39, dragons 41..43, winds 44..47.
pub open spec fn kind_code(k: TileKind) -> i8 {
    match k {
        TileKind::Souzu1 => 11,
        TileKind::Souzu2 => 12,
        TileKind::Souzu3 => 13,
        TileKind::Souzu4 => 14,
        TileKind::Souzu5 => 15,
        TileKind::Souzu6 => 16,
        TileKind::Souzu7 => 17,
        TileKind::Souzu8 => 18,
        TileKind::Souzu9 => 19,
        TileKind::Pinzu1 => 21,
        TileKind::Pinzu2 => 22,
        TileKind::Pinzu3 => 23,
        TileKind::Pinzu4 => 24,
        TileKind::Pinzu5 => 25,
        TileKind::Pinzu6 => 26,
        TileKind::Pinzu7 => 27,
        TileKind::Pinzu8 => 28,
        TileKind::Pinzu9 => 29,
        TileKind::Manzu1 => 31,
        TileKind::Manzu2 => 32,
        TileKind::Manzu3 => 33,
        TileKind::Manzu4 => 34,
        TileKind::Manzu5 => 35,
        TileKind::Manzu6 => 36,
        TileKind::Manzu7 => 37,
        TileKind::Manzu8 => 38,
        TileKind::Manzu9 => 39,
        TileKind::Red => 41,
        TileKind::White => 42,
        TileKind::Green => 43,
        TileKind::East => 44,
        TileKind::West => 45,
        TileKind::North => 46,
        TileKind::South => 47,
    }
}

/// Whether `v` is the code of some tile kind.
pub open spec fn valid_kind_code(v: int) -> bool {
    ||| 11 <= v <= 19
    ||| 21 <= v <= 29
    ||| 31 <= v <= 39
    ||| 41 <= v <= 47
}

impl TileKind {
    /// Decodes a tile-kind code.
    pub fn parse(value: i8) -> (r: Option<Self>)
        ensures
            r is Some <==> valid_kind_code(value as int),
            r matches Some(k) ==> kind_code(k) == value,
    {
        match value {
            11 => Some(TileKind::Souzu1),
            12 => Some(TileKind::Souzu2),
            13 => Some(TileKind::Souzu3),
            14 => Some(TileKind::Souzu4),
            15 => Some(TileKind::Souzu5),
            16 => Some(TileKind::Souzu6),
            17 => Some(TileKind::Souzu7),
            18 => Some(TileKind::Souzu8),
            19 => Some(TileKind::Souzu9),
            21 => Some(TileKind::Pinzu1),
            22 => Some(TileKind::Pinzu2),
            23 => Some(TileKind::Pinzu3),
            24 => Some(TileKind::Pinzu4),
            25 => Some(TileKind::Pinzu5),
            26 => Some(TileKind::Pinzu6),
            27 => Some(TileKind::Pinzu7),
            28 => Some(TileKind::Pinzu8),
            29 => Some(TileKind::Pinzu9),
            31 => Some(TileKind::Manzu1),
            32 => Some(TileKind::Manzu2),
            33 => Some(TileKind::Manzu3),
            34 => Some(TileKind::Manzu4),
            35 => Some(TileKind::Manzu5),
            36 => Some(TileKind::Manzu6),
            37 => Some(TileKind::Manzu7),
            38 => Some(TileKind::Manzu8),
            39 => Some(TileKind::Manzu9),
            41 => Some(TileKind::Red),
            42 => Some(TileKind::White),
            43 => Some(TileKind::Green),
            44 => Some(TileKind::East),
            45 => Some(TileKind::West),
            46 => Some(TileKind::North),
            47 => Some(TileKind::South),
            _ => None,
        }
    }

    /// The integer code of this kind.
    pub fn code(&self) -> (r: i8)
        ensures
            r == kind_code(*self),
    {
        match self {
            TileKind::Souzu1 => 11,
            TileKind::Souzu2 => 12,
            TileKind::Souzu3 => 13,
            TileKind::Souzu4 => 14,
            TileKind::Souzu5 => 15,
            TileKind::Souzu6 => 16,
            TileKind::Souzu7 => 17,
            TileKind::Souzu8 => 18,
            TileKind::Souzu9 => 19,
            TileKind::Pinzu1 => 21,
            TileKind::Pinzu2 => 22,
            TileKind::Pinzu3 => 23,
            TileKind::Pinzu4 => 24,
            TileKind::Pinzu5 => 25,
            TileKind::Pinzu6 => 26,
            TileKind::Pinzu7 => 27,
            TileKind::Pinzu8 => 28,
            TileKind::Pinzu9 => 29,
            TileKind::Manzu1 => 31,
            TileKind::Manzu2 => 32,
            TileKind::Manzu3 => 33,
            TileKind::Manzu4 => 34,
            TileKind::Manzu5 => 35,
            TileKind::Manzu6 => 36,
            TileKind::Manzu7 => 37,
            TileKind::Manzu8 => 38,
            TileKind::Manzu9 => 39,
            TileKind::Red => 41,
            TileKind::White => 42,
            TileKind::Green => 43,
            TileKind::East => 44,
            TileKind::West => 45,
            TileKind::North => 46,
            TileKind::South => 47,
        }
    }
}

/// The short display name of each tile kind, exactly as `TileKind::name`
/// returns it.
pub open spec fn kind_name(k: TileKind) -> Seq<char> {
    match k {
        TileKind::Souzu1 => "1s"@,
        TileKind::Souzu2 => "2s"@,
        TileKind::Souzu3 => "3s"@,
        TileKind::Souzu4 => "4s"@,
        TileKind::Souzu5 => "5s"@,
        TileKind::Souzu6 => "6s"@,
        TileKind::Souzu7 => "7s"@,
        TileKind::Souzu8 => "8s"@,
        TileKind::Souzu9 => "9s"@,
        TileKind::Pinzu1 => "1p"@,
        TileKind::Pinzu2 => "2p"@,
        TileKind::Pinzu3 => "3p"@,
        TileKind::Pinzu4 => "4p"@,
        TileKind::Pinzu5 => "5p"@,
        TileKind::Pinzu6 => "6p"@,
        TileKind::Pinzu7 => "7p"@,
        TileKind::Pinzu8 => "8p"@,
        TileKind::Pinzu9 => "9p"@,
        TileKind::Manzu1 => "1m"@,
        TileKind::Manzu2 => "2m"@,
        TileKind::Manzu3 => "3m"@,
        TileKind::Manzu4 => "4m"@,
        TileKind::Manzu5 => "5m"@,
        TileKind::Manzu6 => "6m"@,
        TileKind::Manzu7 => "7m"@,
        TileKind::Manzu8 => "8m"@,
        TileKind::Manzu9 => "9m"@,
        TileKind::Red => "Red"@,
        TileKind::White => "White"@,
        TileKind::Green => "Green"@,
        TileKind::East => "East"@,
        TileKind::West => "West"@,
        TileKind::North => "North"@,
        TileKind::South => "South"@,
    }
}

impl TileKind {
    /// The short display name of this kind.
    pub fn name(&self) -> (r: String)
        ensures
            r@ == kind_name(*self),
    {
        match self {
            TileKind::Souzu1 => "1s".to_owned(),
            TileKind::Souzu2 => "2s".to_owned(),
            TileKind::Souzu3 => "3s".to_owned(),
            TileKind::Souzu4 => "4s".to_owned(),
            TileKind::Souzu5 => "5s".to_owned(),
            TileKind::Souzu6 => "6s".to_owned(),
            TileKind::Souzu7 => "7s".to_owned(),
            TileKind::Souzu8 => "8s".to_owned(),
            TileKind::Souzu9 => "9s".to_owned(),
            TileKind::Pinzu1 => "1p".to_owned(),
            TileKind::Pinzu2 => "2p".to_owned(),
            TileKind::Pinzu3 => "3p".to_owned(),
            TileKind::Pinzu4 => "4p".to_owned(),
            TileKind::Pinzu5 => "5p".to_owned(),
            TileKind::Pinzu6 => "6p".to_owned(),
            TileKind::Pinzu7 => "7p".to_owned(),
            TileKind::Pinzu8 => "8p".to_owned(),
            TileKind::Pinzu9 => "9p".to_owned(),
            TileKind::Manzu1 => "1m".to_owned(),
            TileKind::Manzu2 => "2m".to_owned(),
            TileKind::Manzu3 => "3m".to_owned(),
            TileKind::Manzu4 => "4m".to_owned(),
            TileKind::Manzu5 => "5m".to_owned(),
            TileKind::Manzu6 => "6m".to_owned(),
            TileKind::Manzu7 => "7m".to_owned(),
            TileKind::Manzu8 => "8m".to_owned(),
            TileKind::Manzu9 => "9m".to_owned(),
            TileKind::Red => "Red".to_owned(),
            TileKind::White => "White".to_owned(),
            TileKind::Green => "Green".to_owned(),
            TileKind::East => "East".to_owned(),
            TileKind::West => "West".to_owned(),
            TileKind::North => "North".to_owned(),
            TileKind::South => "South".to_owned(),
        }
    }
}

/// One physical tile: a kind together with which of its four copies this is.
#[derive(Clone, Copy, Debug, Hash, PartialEq, Eq, Structural)]
pub struct Tile {
    /// Which of the four identical tiles of this kind, 0 through 3.
    pub copy: u8,
    pub kind: TileKind,
}

impl Tile {
    /// Decodes a `(kind, copy)` byte pair. The kind byte must be a valid tile
    /// code and the copy byte must be below 4.
    pub fn from_bytes(t: u8, c: u8) -> (r: Result<Tile, Error>)
        ensures
            r is Ok <==> valid_kind_code((t as i8) as int) && c < 4,
            r matches Ok(tile) ==> kind_code(tile.kind) == t as i8 && tile.copy == c,
            r is Err ==> r == Err::<Tile, Error>(Error::TileParsingFailed),
    {
        if c >= 4 {
            return Err(Error::TileParsingFailed);
        }
        if let Some(kind) = TileKind::parse(t as i8) {
            return Ok(Tile { kind, copy: c });
        }
        Err(Error::TileParsingFailed)
    }
}

} // verus!
