//! A client's connection that follows its board by reading the log.
//!
//! The connection asks the store for the events behind those it has seen,
//! applies them to its view of the board and sends the view to the client.
//! It also speaks for the client as a participant: it joins the board when
//! it opens, votes on the client's behalf, and leaves when it closes.
use vstd::prelude::*;
use vstd::string::StringExecFns;
use crate::command::domain::add_participant::AddParticipantCommandView;
use crate::command::domain::remove_participant::RemoveParticipantCommandView;
use crate::command::domain::vote::ParticipantVoteView;
use crate::command::event::{BoardModifiedEvent, VoteValueView, VoteView};
use crate::command::BoardCommand;
use crate::query;
use crate::query::presentation::{BoardPresentation, BoardPresentationView};
use crate::util::entity;
use crate::util::entity::HandleEvent;
use crate::util::query::PresentationOf;
use crate::util::view;

verus! {

/// How often, in milliseconds, a connection pings its client.
pub const HEARTBEAT_INTERVAL_MILLIS: u64 = 1000;

/// After how many milliseconds without a sign of life a client counts as
/// dead.
pub const CLIENT_TIMEOUT_MILLIS: u64 = 5000;

/// The vote type of the votes that clients cast over a connection.
pub open spec fn vote_type() -> Seq<char> {
    "1"@
}

/// What a client can ask for.
#[derive(Debug, Clone, Copy, PartialEq, Eq, Structural)]
pub enum WsCommand {
    ParticipantVoted { vote: u8 },
}

/// What a client sends.
#[derive(Debug, Clone, Copy, PartialEq, Eq, Structural)]
pub struct Command {
    pub command: WsCommand,
}

/// What a client is sent.
#[derive(Debug)]
pub enum ServerMessage {
    QueryUpdated(BoardPresentation),
    CommandResult(Vec<BoardModifiedEvent>),
    Error(String),
}

/// A command on its way to the one who runs the commands, with the address
/// that the answer goes to.
#[derive(Debug)]
pub struct UseCaseMessage<R> {
    pub board_id: String,
    pub command: BoardCommand,
    pub receiver: R,
}

/// What came in over a connection.
#[derive(Debug)]
pub enum Frame {
    Ping,
    Pong,
    Close,
    /// A text, as the command it was read as or as the reason why it could not
    /// be read.
    Text(Result<Command, String>),
    /// The connection failed.
    Failed,
    /// Anything else.
    Other,
}

/// What a connection does about what came in.
#[derive(Debug)]
pub enum Reaction {
    /// The client is alive; answer its ping.
    Pong,
    /// The client is alive.
    Alive,
    /// Close the connection and stop.
    Close,
    /// Hand the command to the one who runs the commands.
    Submit(BoardCommand),
    /// Tell the client.
    Reply(ServerMessage),
    /// Stop.
    Stop,
    /// Nothing.
    Ignore,
}

/// What a connection does when its heartbeat is due.
#[derive(Debug, Clone, Copy, PartialEq, Eq, Structural)]
pub enum Heartbeat {
    /// Ping the client.
    Ping,
    /// The client is dead; stop.
    Stop,
}

/// What a client is told when its command could not be read: a fixed text,
/// then the reason.
pub open spec fn error_text(reason: Seq<char>) -> Seq<char> {
    "There was an error processing your command "@ + reason
}

/// A connection of one client to one board.
#[derive(Debug)]
pub struct WebSocket {
    board_id: String,
    id: String,
    name: String,
    last_event: usize,
    state: query::Board,
}

/// A connection as mathematics.
pub struct WebSocketView {
    pub board_id: Seq<char>,
    /// The id under which the client takes part in the board.
    pub id: Seq<char>,
    /// The name under which the client takes part in the board.
    pub name: Seq<char>,
    /// How many events of the log the connection has seen.
    pub last_event: nat,
    /// The view of the board after the events that the connection has seen.
    pub state: query::BoardView,
}

impl View for WebSocket {
    type V = WebSocketView;

    closed spec fn view(&self) -> WebSocketView {
        WebSocketView {
            board_id: self.board_id@,
            id: self.id@,
            name: self.name@,
            last_event: self.last_event as nat,
            state: self.state@,
        }
    }
}

impl WebSocket {
    #[verifier::type_invariant]
    closed spec fn well_formed(&self) -> bool {
        self.state.headroom() + self.last_event >= usize::MAX
    }

    /// A connection to the board `board_id` for a client of the name `name`,
    /// who takes part under a fresh id. The connection has seen nothing.
    pub fn new(board_id: String, name: String) -> (connection: Self)
        ensures
            connection@.board_id == board_id@,
            connection@.name == name@,
            crate::command::domain::add_participant::is_fresh_id(connection@.id),
            connection@.last_event == 0,
            connection@.state == query::BoardView::empty(),
    {
        Self::with_id(board_id, name, crate::command::domain::add_participant::fresh_id())
    }

    /// A connection to the board `board_id` for a client of the name `name`,
    /// who takes part under `id`. The connection has seen nothing.
    pub fn with_id(board_id: String, name: String, id: String) -> (connection: Self)
        ensures
            connection@ == (WebSocketView {
                board_id: board_id@,
                id: id@,
                name: name@,
                last_event: 0,
                state: query::BoardView::empty(),
            }),
    {
        Self { board_id, id, name, last_event: 0, state: query::Board::new() }
    }

    /// The key of the log that the connection follows.
    pub fn board_id(&self) -> (board_id: &String)
        ensures
            board_id@ == self@.board_id,
    {
        &self.board_id
    }

    /// How many events of the log the connection has seen: the position from
    /// which it asks the store for more.
    pub fn last_event(&self) -> (last_event: usize)
        ensures
            last_event == self@.last_event,
    {
        self.last_event
    }

    /// What is done when the heartbeat is due and the client gave its last
    /// sign of life `elapsed_millis` milliseconds ago: a client that was
    /// silent for longer than the timeout is given up.
    pub fn hb(elapsed_millis: u128) -> (heartbeat: Heartbeat)
        ensures
            heartbeat == if elapsed_millis > CLIENT_TIMEOUT_MILLIS {
                Heartbeat::Stop
            } else {
                Heartbeat::Ping
            },
    {
        if elapsed_millis > CLIENT_TIMEOUT_MILLIS as u128 {
            Heartbeat::Stop
        } else {
            Heartbeat::Ping
        }
    }

    /// The command that a request of the client stands for: a vote of this
    /// client, of the one vote type that connections know.
    pub fn convert_command(&self, command: WsCommand) -> (converted: BoardCommand)
        ensures
            converted matches BoardCommand::Vote(request) && request@ == (ParticipantVoteView {
                participant_id: self@.id,
                vote: VoteView {
                    vote_type_id: vote_type(),
                    value: VoteValueView::Number(command->vote),
                },
            }),
    {
        match command {
            WsCommand::ParticipantVoted { vote } => crate::command::vote(
                vote,
                "1".to_string(),
                self.id.clone(),
            ),
        }
    }

    /// The command that is run when the connection opens: the client joins
    /// the board under its id and name.
    pub fn started(&self) -> (command: BoardCommand)
        ensures
            command matches BoardCommand::AddParticipant(request) && request@ == (
            AddParticipantCommandView {
                participant_name: self@.name,
                participant_id: Some(self@.id),
            }),
    {
        crate::command::add_participant(self.name.clone(), self.id.clone())
    }

    /// The command that is run when the connection has closed: the client
    /// leaves the board.
    pub fn stopped(&self) -> (command: BoardCommand)
        ensures
            command matches BoardCommand::RemoveParticipant(request) && request@ == (
            RemoveParticipantCommandView { participant_id: self@.id }),
    {
        crate::command::remove_participant(self.id.clone())
    }

    /// What the connection does about `frame`.
    ///
    /// Pings and pongs show that the client is alive, and a ping is answered.
    /// A close frame closes the connection, a failure stops it. A text that
    /// was read as a command is handed on as the command it stands for; of
    /// one that could not be read the client is told.
    pub fn handle(&self, frame: Frame) -> (reaction: Reaction)
        ensures
            match frame {
                Frame::Ping => reaction is Pong,
                Frame::Pong => reaction is Alive,
                Frame::Close => reaction is Close,
                Frame::Text(Ok(command)) => reaction matches Reaction::Submit(
                    BoardCommand::Vote(request),
                ) && request@ == (ParticipantVoteView {
                    participant_id: self@.id,
                    vote: VoteView {
                        vote_type_id: vote_type(),
                        value: VoteValueView::Number(command.command->vote),
                    },
                }),
                Frame::Text(Err(reason)) => reaction matches Reaction::Reply(
                    ServerMessage::Error(text),
                ) && text@ == error_text(reason@),
                Frame::Failed => reaction is Stop,
                Frame::Other => reaction is Ignore,
            },
    {
        match frame {
            Frame::Ping => Reaction::Pong,
            Frame::Pong => Reaction::Alive,
            Frame::Close => Reaction::Close,
            Frame::Text(Ok(command)) => Reaction::Submit(self.convert_command(command.command)),
            Frame::Text(Err(reason)) => {
                let text = "There was an error processing your command ".to_string().concat(
                    reason.as_str(),
                );
                Reaction::Reply(ServerMessage::Error(text))
            },
            Frame::Failed => Reaction::Stop,
            Frame::Other => Reaction::Ignore,
        }
    }

    /// Takes the events that the store has behind those that the connection
    /// has seen: they are applied to the view in their order and count as
    /// seen. The client is to be sent the view as it is then.
    pub fn update(&mut self, updates: &Vec<BoardModifiedEvent>) -> (message: ServerMessage)
        requires
            old(self)@.last_event + updates@.len() <= usize::MAX,
        ensures
            final(self)@ == (WebSocketView {
                last_event: old(self)@.last_event + updates@.len(),
                state: entity::apply_all::<query::Board>(old(self)@.state, view::views(updates@)),
                ..old(self)@
            }),
            message matches ServerMessage::QueryUpdated(presentation) && presentation@
                == BoardPresentationView::of(
                crate::query::presentation::shown_participants(final(self)@.state.participants),
                final(self)@.state.voting_complete,
            ),
    {
        proof {
            use_type_invariant(&*self);
        }
        let mut state = query::Board::new();
        std::mem::swap(&mut self.state, &mut state);
        let mut i: usize = 0;
        while i < updates.len()
            invariant
                i <= updates@.len(),
                self.last_event == old(self).last_event,
                self.last_event + updates@.len() <= usize::MAX,
                state.headroom() + self.last_event + i >= usize::MAX,
                state@ == entity::apply_all::<query::Board>(
                    old(self)@.state,
                    view::views(updates@).take(i as int),
                ),
            decreases updates@.len() - i,
        {
            proof {
                let all = view::views(updates@);
                assert(all.take(i + 1).drop_last() =~= all.take(i as int));
            }
            state.apply(&updates[i]);
            i += 1;
        }
        let presentation = BoardPresentation::from_model(&state);
        let last_event = self.last_event + updates.len();
        self.last_event = last_event;
        self.state = state;
        ServerMessage::QueryUpdated(presentation)
    }
}

} // verus!
