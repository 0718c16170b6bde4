//! Messages of the game socket.

use vstd::prelude::*;

use super::player::Player;
use super::session::Origin;

verus! {

/// What a client sends over the game socket.
pub enum ClientMessage {
    RollDice,
    MakeMove { origin: OriginDto, die: u8 },
    Undo,
    ConfirmTurn,
    Resign,
    Emoji { emoji: String },
    AcceptAi,
    DeclineAi,
}

/// The wire form of a move's origin: `{"kind": "bar"}` or
/// `{"kind": "point", "point": n}`.
#[derive(Clone, Copy, Debug, PartialEq, Eq, Structural)]
pub enum OriginDto {
    Bar,
    Point { point: u8 },
}

pub open spec fn spec_origin_to_dto(value: Origin) -> OriginDto {
    match value {
        Origin::Bar => OriginDto::Bar,
        Origin::Point(point) => OriginDto::Point { point },
    }
}

pub open spec fn spec_dto_to_origin(value: OriginDto) -> Origin {
    match value {
        OriginDto::Bar => Origin::Bar,
        OriginDto::Point { point } => Origin::Point(point),
    }
}

impl From<Origin> for OriginDto {
    fn from(value: Origin) -> (dto: OriginDto) {
        match value {
            Origin::Bar => OriginDto::Bar,
            Origin::Point(point) => OriginDto::Point { point },
        }
    }
}

impl vstd::std_specs::convert::FromSpecImpl<Origin> for OriginDto {
    open spec fn obeys_from_spec() -> bool {
        true
    }

    open spec fn from_spec(value: Origin) -> OriginDto {
        spec_origin_to_dto(value)
    }
}

impl From<OriginDto> for Origin {
    fn from(value: OriginDto) -> (origin: Origin) {
        match value {
            OriginDto::Bar => Origin::Bar,
            OriginDto::Point { point } => Origin::Point(point),
        }
    }
}

impl vstd::std_specs::convert::FromSpecImpl<OriginDto> for Origin {
    open spec fn obeys_from_spec() -> bool {
        true
    }

    open spec fn from_spec(value: OriginDto) -> Origin {
        spec_dto_to_origin(value)
    }
}

/// Converting an origin to its wire form and back gives the same origin, and
/// the other way round.
pub proof fn lemma_origin_wire_form_round_trips(origin: Origin, dto: OriginDto)
    ensures
        spec_dto_to_origin(spec_origin_to_dto(origin)) == origin,
        spec_origin_to_dto(spec_dto_to_origin(dto)) == dto,
{
}

/// The move a `state` message announces: who moved, from where, with which
/// die, and whether the server chose it.
#[derive(Clone, Copy, Debug, PartialEq, Eq, Structural)]
pub struct LastMoveDto {
    pub player: Player,
    pub origin: OriginDto,
    pub die: u8,
    pub is_ai: bool,
}

} // verus!
