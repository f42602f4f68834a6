use vstd::prelude::*;
use vstd::string::*;
use crate::address::Address;
use crate::types::{GameError, Player};

verus! {

/// Longest display name, in characters.
pub const MAX_NAME_LEN: usize = 32;

/// Longest title, in characters.
pub const MAX_TITLE_LEN: usize = 32;

/// Longest picture URI, in characters.
pub const MAX_PICTURE_LEN: usize = 200;

/// Characters of the address text that make up a default display name.
pub const DEFAULT_NAME_LEN: usize = 8;

/// Games a player has completed.
pub open spec fn games_played(p: Player) -> int {
    p.wins + p.losses
}

/// A title may be set when the number of completed games is a multiple of 42.
pub open spec fn title_unlocked(p: Player) -> bool {
    games_played(p) % 42 == 0
}

/// The base58 text of an address, as the ledger prints it.
pub uninterp spec fn base58_of(bytes: Seq<u8>) -> Seq<char>;

/// Relies on the `Display` impl of `solana_program::pubkey::Pubkey`, which writes
/// the base58 encoding of the 32 bytes.
#[verifier::external_body]
fn address_text(a: &Address) -> (r: String)
    ensures
        r@ == base58_of(a@),
{
    solana_program::pubkey::Pubkey::new_from_array(a.bytes).to_string()
}

/// The first eight characters of `text`, or all of it if it is shorter.
pub open spec fn name_prefix(text: Seq<char>) -> Seq<char> {
    if text.len() <= 8 {
        text
    } else {
        text.subrange(0, 8)
    }
}

/// A fresh profile: no games, no earnings, no links, and a display name made
/// of the first eight characters of the address text.
pub fn new_player(address: &Address) -> (r: Player)
    ensures
        r.wins == 0 && r.losses == 0 && r.earnings == 0,
        r.name@ == name_prefix(base58_of(address@)),
        r.title@.len() == 0 && r.picture@.len() == 0,
        r.game_id is None && r.creator_of is None && r.position == 0,
{
    let text = address_text(address);
    let len = text.as_str().unicode_len();
    let end = if len < DEFAULT_NAME_LEN {
        len
    } else {
        DEFAULT_NAME_LEN
    };
    let name = text.as_str().substring_char(0, end).to_string();
    proof {
        if len <= 8 {
            assert(text@.subrange(0, len as int) =~= text@);
        }
    }
    Player {
        wins: 0,
        losses: 0,
        earnings: 0,
        name,
        title: String::new(),
        picture: String::new(),
        game_id: None,
        position: 0,
        creator_of: None,
    }
}

/// Sets the display name, if it has at most `MAX_NAME_LEN` characters.
pub fn set_name(player: &mut Player, name: &str) -> (r: Result<(), GameError>)
    ensures
        name@.len() > 32 <==> r == Err::<(), GameError>(GameError::TooLong),
        r is Err ==> *final(player) == *old(player),
        r is Ok ==> final(player).name@ == name@ && *final(player) == (Player {
            name: final(player).name,
            ..*old(player)
        }),
{
    if name.unicode_len() > MAX_NAME_LEN {
        return Err(GameError::TooLong);
    }
    player.name = name.to_string();
    Ok(())
}

/// Sets the picture URI, if it has at most `MAX_PICTURE_LEN` characters.
pub fn set_picture(player: &mut Player, picture: &str) -> (r: Result<(), GameError>)
    ensures
        picture@.len() > 200 <==> r == Err::<(), GameError>(GameError::TooLong),
        r is Err ==> *final(player) == *old(player),
        r is Ok ==> final(player).picture@ == picture@ && *final(player) == (Player {
            picture: final(player).picture,
            ..*old(player)
        }),
{
    if picture.unicode_len() > MAX_PICTURE_LEN {
        return Err(GameError::TooLong);
    }
    player.picture = picture.to_string();
    Ok(())
}

/// Sets the title, only when the completed games are a multiple of 42 and the
/// title has at most `MAX_TITLE_LEN` characters.
pub fn set_title(player: &mut Player, title: &str) -> (r: Result<(), GameError>)
    ensures
        !title_unlocked(*old(player)) <==> r == Err::<(), GameError>(GameError::TitleLocked),
        title_unlocked(*old(player)) && title@.len() > 32 <==> r == Err::<(), GameError>(
            GameError::TooLong,
        ),
        r is Ok <==> title_unlocked(*old(player)) && title@.len() <= 32,
        r is Err ==> *final(player) == *old(player),
        r is Ok ==> final(player).title@ == title@ && *final(player) == (Player {
            title: final(player).title,
            ..*old(player)
        }),
{
    let games = player.wins as u64 + player.losses as u64;
    if games % 42 != 0 {
        return Err(GameError::TitleLocked);
    }
    if title.unicode_len() > MAX_TITLE_LEN {
        return Err(GameError::TooLong);
    }
    player.title = title.to_string();
    Ok(())
}

} // verus!
