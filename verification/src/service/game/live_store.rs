//! Keys of the live-match store.

use vstd::prelude::*;

use crate::utils::text::{decimal, push_decimal, push_str, string_of};

verus! {

/// The list the database writer drains.
pub const OUTBOX_KEY: &'static str = "db:outbox";

/// A live match's state expires a day after its last write.
pub const STATE_TTL_SECONDS: u64 = 86_400;

pub open spec fn spec_state_key(game_id: u64) -> Seq<char> {
    "game:"@ + decimal(game_id as nat) + ":state"@
}

/// The key of a live match's state: `game:{game_id}:state`.
pub fn state_key(game_id: u64) -> (key: String)
    ensures
        key@ == spec_state_key(game_id),
{
    let mut key = string_of("game:");
    push_decimal(&mut key, game_id);
    push_str(&mut key, ":state");
    key
}

/// Two games never share a state key.
pub proof fn lemma_state_keys_are_per_game(a: u64, b: u64)
    requires
        a != b,
    ensures
        spec_state_key(a) != spec_state_key(b),
{
    reveal_strlit("game:");
    reveal_strlit(":state");
    crate::utils::text::lemma_decimal_injective(a as nat, b as nat);
    let ka = spec_state_key(a);
    let kb = spec_state_key(b);
    if ka == kb {
        assert(ka.subrange(5, ka.len() - 6) =~= decimal(a as nat));
        assert(kb.subrange(5, kb.len() - 6) =~= decimal(b as nat));
    }
}

} // verus!
