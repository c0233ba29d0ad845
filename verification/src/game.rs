//! Open games.

use crate::manager::{Id, Item, Manager};
use crate::user::User;
use vstd::prelude::*;

verus! {

/// A game, opened by its host. Nobody has joined a game that was just
/// created.
#[derive(Debug)]
pub struct Game {
    pub id: Id,
    pub host: User,
    pub guest: Option<User>,
}

impl Clone for Game {
    fn clone(&self) -> (copy: Self)
        ensures
            copy == *self,
    {
        Game {
            id: self.id,
            host: self.host.clone(),
            guest: match &self.guest {
                Some(guest) => Some(guest.clone()),
                None => None,
            },
        }
    }
}

impl Item<User> for Game {
    fn new(id: &Id, host: &User) -> (game: Self)
        ensures
            game == (Game { id: *id, host: *host, guest: None }),
    {
        Game { id: *id, host: host.clone(), guest: None }
    }
}

pub type GameManager = Manager<Game, User>;

} // verus!
