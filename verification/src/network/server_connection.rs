//! What a client knows of the game on the server, and how what the server
//! sends changes it.

use vstd::prelude::*;
use std::collections::{HashMap, HashSet, VecDeque};
use crate::network_car::StatusUpdate;

verus! {

/// What the game has to act on.
#[derive(Clone, Copy, Debug, PartialEq, Eq, Structural)]
pub enum NetworkEvent {
    PlayerConnected { player_id: u8 },
    PlayerDisconnected { player_id: u8 },
    MoveToStartPos,
}

/// What a packet says, once it is read.
#[derive(Clone, Copy, Debug, PartialEq, Eq, Structural)]
pub enum ServerMessage {
    /// A client asks to take part. The server never sends this.
    Register,
    /// Another player has joined.
    NewPlayer { player_id: u8 },
    /// The number of this client.
    Inform { player_id: u8 },
    /// Where the car of a player is.
    StatusUpdate { player_id: u8, status: StatusUpdate },
    /// A player has left.
    DropPlayer { player_id: u8 },
    /// A client leaves. The server never sends this.
    End { player_id: u8 },
}

/// What a client knows of the game on the server.
pub struct ServerConnection {
    /// Whether there is a server at all.
    pub connected: bool,
    /// The other players that have joined and not left.
    pub connected_players: HashSet<u8>,
    /// The last that was heard of each player.
    pub last_status: HashMap<u8, StatusUpdate>,
    /// The number of this client, once the server has told it.
    pub player_id: Option<u8>,
    /// What the game has yet to act on, oldest first.
    pub game_events: VecDeque<NetworkEvent>,
}

impl ServerConnection {
    /// The players after the message.
    pub open spec fn players_after(players: Set<u8>, message: ServerMessage) -> Set<u8> {
        match message {
            ServerMessage::NewPlayer { player_id } => players.insert(player_id),
            ServerMessage::DropPlayer { player_id } => players.remove(player_id),
            _ => players,
        }
    }

    /// What is known of the cars after the message: a status is taken of
    /// a player that was heard of before or that has joined.
    pub open spec fn status_after(
        known: Map<u8, StatusUpdate>,
        players: Set<u8>,
        message: ServerMessage,
    ) -> Map<u8, StatusUpdate> {
        match message {
            ServerMessage::StatusUpdate { player_id, status } => if known.dom().contains(
                player_id,
            ) || players.contains(player_id) {
                known.insert(player_id, status)
            } else {
                known
            },
            _ => known,
        }
    }

    /// The events after the message.
    pub open spec fn events_after(events: Seq<NetworkEvent>, message: ServerMessage) -> Seq<
        NetworkEvent,
    > {
        match message {
            ServerMessage::NewPlayer { player_id } => events.push(
                NetworkEvent::PlayerConnected { player_id },
            ),
            ServerMessage::Inform { player_id } => events.push(NetworkEvent::MoveToStartPos),
            ServerMessage::DropPlayer { player_id } => events.push(
                NetworkEvent::PlayerDisconnected { player_id },
            ),
            _ => events,
        }
    }

    /// A client without a server.
    pub fn new() -> (r: ServerConnection)
        ensures
            !r.connected,
            r.connected_players@ == Set::<u8>::empty(),
            r.last_status@ == Map::<u8, StatusUpdate>::empty(),
            r.player_id is None,
            r.game_events@ == Seq::<NetworkEvent>::empty(),
    {
        ServerConnection {
            connected: false,
            connected_players: HashSet::new(),
            last_status: HashMap::new(),
            player_id: None,
            game_events: VecDeque::new(),
        }
    }

    /// Whether there is a server.
    pub fn is_multiplayer(&self) -> (r: bool)
        ensures
            r == self.connected,
    {
        self.connected
    }

    /// The last that was heard of the player.
    pub fn last_status(&self, player_id: u8) -> (r: Option<&StatusUpdate>)
        ensures
            match r {
                Some(s) => self.last_status@.dom().contains(player_id) && *s
                    == self.last_status@[player_id],
                None => !self.last_status@.dom().contains(player_id),
            },
    {
        self.last_status.get(&player_id)
    }

    /// The number of this client, if the server has told it.
    pub fn player_id(&self) -> (r: Option<u8>)
        ensures
            r == self.player_id,
    {
        self.player_id
    }

    /// What the client tells the server of its car: nothing before it has
    /// a number.
    pub fn send_status_update(&self, status: StatusUpdate) -> (r: Option<ServerMessage>)
        ensures
            r == match self.player_id {
                Some(player_id) => Some(ServerMessage::StatusUpdate { player_id, status }),
                None => None,
            },
    {
        match self.player_id {
            Some(player_id) => Some(ServerMessage::StatusUpdate { player_id, status }),
            None => None,
        }
    }

    /// Ends the connection. Returns what the client tells the server as it
    /// leaves: nothing if it never had a number.
    pub fn end_connection(&mut self) -> (r: Option<ServerMessage>)
        ensures
            r == match old(self).player_id {
                Some(player_id) => Some(ServerMessage::End { player_id }),
                None => None,
            },
            !final(self).connected,
            final(self).connected_players@ == old(self).connected_players@,
            final(self).last_status@ == old(self).last_status@,
            final(self).player_id == old(self).player_id,
            final(self).game_events@ == old(self).game_events@,
    {
        self.connected = false;
        match self.player_id {
            Some(player_id) => Some(ServerMessage::End { player_id }),
            None => None,
        }
    }

    /// Takes a message of the server.
    ///
    /// A new player is remembered and announced to the game. The number of
    /// this client is kept, and the game is told to move the car to its
    /// start. A status is kept if its player is known. A player that has
    /// left is forgotten as a player, and the game is told.
    pub fn update(&mut self, message: ServerMessage)
        ensures
            final(self).connected == old(self).connected,
            final(self).connected_players@ == ServerConnection::players_after(
                old(self).connected_players@,
                message,
            ),
            final(self).last_status@ == ServerConnection::status_after(
                old(self).last_status@,
                old(self).connected_players@,
                message,
            ),
            final(self).player_id == match message {
                ServerMessage::Inform { player_id } => Some(player_id),
                _ => old(self).player_id,
            },
            final(self).game_events@ == ServerConnection::events_after(
                old(self).game_events@,
                message,
            ),
    {
        broadcast use vstd::std_specs::hash::group_hash_axioms;

        match message {
            // The server never sends these.
            ServerMessage::Register => {},
            ServerMessage::End { player_id } => {},
            ServerMessage::NewPlayer { player_id } => {
                self.connected_players.insert(player_id);
                self.game_events.push_back(NetworkEvent::PlayerConnected { player_id });
            },
            ServerMessage::Inform { player_id } => {
                self.player_id = Some(player_id);
                self.game_events.push_back(NetworkEvent::MoveToStartPos);
            },
            ServerMessage::StatusUpdate { player_id, status } => {
                if self.last_status.contains_key(&player_id) || self.connected_players.contains(
                    &player_id,
                ) {
                    self.last_status.insert(player_id, status);
                }
            },
            ServerMessage::DropPlayer { player_id } => {
                self.connected_players.remove(&player_id);
                self.game_events.push_back(NetworkEvent::PlayerDisconnected { player_id });
            },
        }
    }

    /// Takes the oldest event that the game has yet to act on.
    pub fn next_event(&mut self) -> (r: Option<NetworkEvent>)
        ensures
            old(self).game_events@.len() == 0 ==> r is None,
            old(self).game_events@.len() == 0 ==> final(self).game_events@ == old(self).game_events@,
            old(self).game_events@.len() > 0 ==> r == Some(old(self).game_events@[0]),
            old(self).game_events@.len() > 0 ==> final(self).game_events@ == old(
                self
            ).game_events@.drop_first(),
            final(self).connected == old(self).connected,
            final(self).connected_players@ == old(self).connected_players@,
            final(self).last_status@ == old(self).last_status@,
            final(self).player_id == old(self).player_id,
    {
        self.game_events.pop_front()
    }
}

} // verus!
