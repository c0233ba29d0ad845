//! What the server does with one datagram.
//!
//! The server keeps no state of its own between datagrams: all it knows is
//! in the two registries. A datagram is read as text, decoded as a request
//! and answered; a datagram that is no request, or that names an unknown
//! user, is reported to the caller and nothing is sent.

use crate::game::{Game, GameManager};
use crate::manager::Id;
use crate::message::{of_text, wire_text, ClientToServer, DecodeError, DecodeFault, Message};
use crate::message::ServerToClient;
use crate::text::{from_utf8_lossy, text_of_bytes, trim_end, trimmed_end};
use crate::user::{NetworkAddress, User, UserManager};
use vstd::prelude::*;

verus! {

/// Why a datagram got no answer.
#[derive(Debug)]
pub enum ServerError {
    /// The text is no request.
    Decode(DecodeError),
    /// The request names a user that was never registered.
    UnknownUser(Id),
}

/// A `ServerError` as contracts speak of it.
pub enum ServerFault {
    Decode(DecodeFault),
    UnknownUser(Id),
}

impl View for ServerError {
    type V = ServerFault;

    open spec fn view(&self) -> ServerFault {
        match self {
            ServerError::Decode(error) => ServerFault::Decode(error@),
            ServerError::UnknownUser(id) => ServerFault::UnknownUser(*id),
        }
    }
}

/// What `result` says, with its error as contracts speak of it.
pub open spec fn report<T>(result: Result<T, ServerError>) -> Result<T, ServerFault> {
    match result {
        Ok(value) => Ok(value),
        Err(error) => Err(error@),
    }
}

/// All that the server knows: the users and the games, each at the index
/// that is its identifier.
pub struct World {
    pub users: Seq<User>,
    pub games: Seq<Game>,
}

/// The world after `command` arrived from `src`, and the answer to it.
pub open spec fn reaction(world: World, command: ClientToServer, src: NetworkAddress) -> (
    World,
    Result<ServerToClient, ServerFault>,
) {
    match command {
        ClientToServer::ConnectRequest => {
            let user_id = world.users.len() as Id;
            (
                World { users: world.users.push(User { id: user_id, addr: src }), ..world },
                Ok(ServerToClient::ConnectResponse { user_id }),
            )
        },
        ClientToServer::CreateGameRequest { user_id } => {
            if user_id < world.users.len() {
                let game_id = world.games.len() as Id;
                let game = Game { id: game_id, host: world.users[user_id as int], guest: None };
                (
                    World { games: world.games.push(game), ..world },
                    Ok(ServerToClient::CreateGameResponse { game_id }),
                )
            } else {
                (world, Err(ServerFault::UnknownUser(user_id)))
            }
        },
    }
}

/// The world of a server that has seen no request yet.
pub open spec fn fresh() -> World {
    World { users: Seq::empty(), games: Seq::empty() }
}

/// The world after each of `requests` arrived in turn, each from the
/// address that goes with it, at a server that had seen none.
pub open spec fn world_after(requests: Seq<(ClientToServer, NetworkAddress)>) -> World
    decreases requests.len(),
{
    if requests.len() == 0 {
        fresh()
    } else {
        reaction(world_after(requests.drop_last()), requests.last().0, requests.last().1).0
    }
}

/// Whether every user and every game of `world` has the index it stands at
/// as its identifier, and every game is one that nobody joined, hosted by
/// the user of `world` whose identifier its host has.
pub open spec fn in_order(world: World) -> bool {
    &&& forall|i: int| 0 <= i < world.users.len() ==> (#[trigger] world.users[i]).id == i
    &&& forall|i: int|
        0 <= i < world.games.len() ==> {
            let game = #[trigger] world.games[i];
            &&& game.id == i
            &&& game.guest is None
            &&& game.host.id < world.users.len()
            &&& game.host == world.users[game.host.id as int]
        }
}

/// A request adds one user or one game at most, at the end, and changes
/// nothing that was there.
pub proof fn lemma_reaction_appends(world: World, command: ClientToServer, src: NetworkAddress)
    ensures
        ({
            let next = reaction(world, command, src).0;
            &&& world.users.is_prefix_of(next.users)
            &&& world.games.is_prefix_of(next.games)
            &&& next.users.len() + next.games.len() <= world.users.len() + world.games.len() + 1
        }),
{
}

/// Identifiers stay in order: in a world where each user and each game has
/// its index as its identifier, the next one gets the next index, as long
/// as that is an identifier at all.
pub proof fn lemma_reaction_keeps_order(world: World, command: ClientToServer, src: NetworkAddress)
    requires
        in_order(world),
        world.users.len() <= usize::MAX,
        world.games.len() <= usize::MAX,
    ensures
        in_order(reaction(world, command, src).0),
{
}

/// Whatever requests arrive at a server that has seen none, and in whatever
/// order: the `n`-th user registered gets the identifier `n - 1`, and so
/// does the `n`-th game opened; no identifier is given twice and none is
/// left out.
pub proof fn lemma_ids_in_order(requests: Seq<(ClientToServer, NetworkAddress)>)
    requires
        requests.len() <= usize::MAX,
    ensures
        in_order(world_after(requests)),
        world_after(requests).users.len() + world_after(requests).games.len() <= requests.len(),
    decreases requests.len(),
{
    if requests.len() > 0 {
        let earlier = requests.drop_last();
        lemma_ids_in_order(earlier);
        lemma_reaction_appends(world_after(earlier), requests.last().0, requests.last().1);
        lemma_reaction_keeps_order(world_after(earlier), requests.last().0, requests.last().1);
    }
}

/// Carries out `command`, which arrived from `src`: registers a user, or
/// opens a game for a registered one.
pub fn handle_command(
    command: &ClientToServer,
    src: &NetworkAddress,
    user_manager: &mut UserManager,
    game_manager: &mut GameManager,
) -> (result: Result<ServerToClient, ServerError>)
    ensures
        ({
            let before = World { users: old(user_manager)@, games: old(game_manager)@ };
            let after = World { users: final(user_manager)@, games: final(game_manager)@ };
            (after, report(result)) == reaction(before, *command, *src)
        }),
{
    match command {
        ClientToServer::ConnectRequest => {
            let user = user_manager.create(src);
            Ok(ServerToClient::ConnectResponse { user_id: user.id })
        },
        ClientToServer::CreateGameRequest { user_id } => match user_manager.get(*user_id) {
            None => Err(ServerError::UnknownUser(*user_id)),
            Some(user) => {
                let game = game_manager.create(user);
                Ok(ServerToClient::CreateGameResponse { game_id: game.id })
            },
        },
    }
}

/// The world after a datagram with `text` arrived from `src`, and the
/// answer to it.
pub open spec fn answer_to(world: World, text: Seq<char>, src: NetworkAddress) -> (
    World,
    Result<ServerToClient, ServerFault>,
) {
    match of_text::<ClientToServer>(text) {
        Ok(command) => reaction(world, command, src),
        Err(fault) => (world, Err(ServerFault::Decode(fault))),
    }
}

/// What goes back to the sender: the answer, and the text that stands for
/// it on the wire.
#[derive(Debug)]
pub struct Reply {
    pub response: ServerToClient,
    pub text: String,
}

/// What `result` says, with its text and its error as contracts speak of
/// them.
pub open spec fn replied(result: Result<Reply, ServerError>) -> Result<
    (ServerToClient, Seq<char>),
    ServerFault,
> {
    match result {
        Ok(reply) => Ok((reply.response, reply.text@)),
        Err(error) => Err(error@),
    }
}

/// What the server hands back where `answer` is due: the answer with its
/// text on the wire; and where none is due, the reason.
pub open spec fn delivery(answer: Result<ServerToClient, ServerFault>) -> Result<
    (ServerToClient, Seq<char>),
    ServerFault,
> {
    match answer {
        Ok(response) => Ok((response, wire_text(response))),
        Err(fault) => Err(fault),
    }
}

/// Decodes `text` as a request from `src`, carries it out and encodes the
/// answer. An `Err` means that nothing is to be sent.
pub fn respond(
    text: &str,
    src: &NetworkAddress,
    user_manager: &mut UserManager,
    game_manager: &mut GameManager,
) -> (result: Result<Reply, ServerError>)
    ensures
        ({
            let before = World { users: old(user_manager)@, games: old(game_manager)@ };
            let after = World { users: final(user_manager)@, games: final(game_manager)@ };
            let (world, answer) = answer_to(before, text@, *src);
            after == world && replied(result) == delivery(answer)
        }),
{
    let command = match ClientToServer::parse(text) {
        Ok(command) => command,
        Err(error) => {
            return Err(ServerError::Decode(error));
        },
    };
    let response = handle_command(&command, src, user_manager, game_manager)?;
    match response.stringify() {
        Ok(text) => Ok(Reply { response, text }),
        Err(_) => vstd::pervasive::unreached(),
    }
}

/// Answers one datagram: reads `payload` as text, leaves out the white
/// space at its end, and responds to the rest.
pub fn handle_datagram(
    payload: &[u8],
    src: &NetworkAddress,
    user_manager: &mut UserManager,
    game_manager: &mut GameManager,
) -> (result: Result<Reply, ServerError>)
    ensures
        ({
            let before = World { users: old(user_manager)@, games: old(game_manager)@ };
            let after = World { users: final(user_manager)@, games: final(game_manager)@ };
            let (world, answer) = answer_to(before, trimmed_end(text_of_bytes(payload@)), *src);
            after == world && replied(result) == delivery(answer)
        }),
{
    let text = from_utf8_lossy(payload);
    respond(trim_end(text.as_str()), src, user_manager, game_manager)
}

} // verus!
