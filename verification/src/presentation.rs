//! Commands that come in as text and go out as a status.
use vstd::prelude::*;

pub mod input;

verus! {

/// Reads a command from its text.
pub trait CommandDeserializer {
    type Command;

    /// Whether `outcome` is what reading `command` can come to. Unless an
    /// implementation says more, anything can happen.
    open spec fn deserializes(&self, command: String, outcome: Result<Self::Command, String>) -> bool {
        true
    }

    /// The command that `command` stands for, or why it stands for none.
    fn deserialize_command(&self, command: String) -> (outcome: Result<Self::Command, String>)
        ensures
            self.deserializes(command, outcome),
    ;
}

/// Carries out commands of one kind.
pub trait CommandHandler<Command>: Sized {
    /// Whether carrying out `command` can turn this handler into `handled`
    /// and come to `outcome`. Unless an implementation says more, anything
    /// can happen.
    open spec fn handles(&self, command: Command, handled: Self, outcome: Result<(), String>) -> bool {
        true
    }

    /// Carries out `command`, or says why it could not.
    fn handle_command(&mut self, command: Command) -> (outcome: Result<(), String>)
        ensures
            old(self).handles(command, *final(self), outcome),
    ;
}

/// What a request is answered with.
#[derive(Debug)]
pub enum Status {
    /// The command was carried out.
    Done,
    /// The request could not be read as a command.
    BadRequest(String),
    /// The command could not be carried out.
    InternalServerError(String),
}

impl Status {
    /// The status as a number: 200 for a command that was carried out, 400
    /// for a bad request and 500 for an error of the server.
    pub fn code(&self) -> (code: u16)
        ensures
            code == match self {
                Status::Done => 200u16,
                Status::BadRequest(_) => 400u16,
                Status::InternalServerError(_) => 500u16,
            },
    {
        match self {
            Status::Done => 200,
            Status::BadRequest(_) => 400,
            Status::InternalServerError(_) => 500,
        }
    }
}

/// Takes requests, reads them as commands and has them carried out.
pub struct Controller<D, H> {
    deserializer: D,
    handler: H,
}

impl<D, H> Controller<D, H> {
    /// The one who reads the requests.
    pub closed spec fn deserializer(&self) -> D {
        self.deserializer
    }

    /// The one who carries the commands out.
    pub closed spec fn handler(&self) -> H {
        self.handler
    }

    pub fn new(handler: H, deserializer: D) -> (controller: Self)
        ensures
            controller.handler() == handler,
            controller.deserializer() == deserializer,
    {
        Self { handler, deserializer }
    }
}

impl<D: CommandDeserializer, H: CommandHandler<D::Command>> Controller<D, H> {
    /// Whether `status` answers a request that was read as `read`: a request
    /// that could not be read is a bad request, and nothing is carried out;
    /// a command is carried out, and its failure is an error of the server.
    pub open spec fn answers(
        &self,
        read: Result<D::Command, String>,
        handled: Self,
        status: Status,
    ) -> bool {
        handled.deserializer() == self.deserializer() && match read {
            Err(reason) => status == Status::BadRequest(reason) && handled.handler()
                == self.handler(),
            Ok(command) => exists|outcome: Result<(), String>| #[trigger]
                self.handler().handles(command, handled.handler(), outcome) && match outcome {
                    Ok(_) => status == Status::Done,
                    Err(reason) => status == Status::InternalServerError(reason),
                },
        }
    }

    /// Answers the request `req_body`.
    pub fn handle(&mut self, req_body: String) -> (status: Status)
        ensures
            exists|read: Result<D::Command, String>| #[trigger]
                old(self).deserializer().deserializes(req_body, read) && old(self).answers(
                    read,
                    *final(self),
                    status,
                ),
    {
        let read = self.deserializer.deserialize_command(req_body);
        let ghost found = read;
        let status = match read {
            Err(reason) => Status::BadRequest(reason),
            Ok(command) => {
                let outcome = self.handler.handle_command(command);
                let ghost handled = outcome;
                let status = match outcome {
                    Ok(_) => Status::Done,
                    Err(reason) => Status::InternalServerError(reason),
                };
                assert(old(self).handler().handles(command, self.handler(), handled));
                status
            },
        };
        assert(old(self).deserializer().deserializes(req_body, found) && old(self).answers(
            found,
            *self,
            status,
        ));
        status
    }
}

} // verus!
