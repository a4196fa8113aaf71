//! Commands: actions that the host, other plugins and this plugin can trigger and handle.
use vstd::prelude::*;

use crate::ffi::{check_c_string, check_c_string_ok, text_len, NulByteError};
use crate::registry::{ContextBlock, HostId, LifeEvent, RegistrationError, Stage};
use crate::XPAPI;
use vstd::string::*;

verus! {

/// The host's codes of the phases of a command.
pub const COMMAND_BEGIN: i32 = 0;
/// The command is held down
pub const COMMAND_CONTINUE: i32 = 1;
/// The command was released
pub const COMMAND_END: i32 = 2;

/// A command created by the host or another plugin, that can be triggered
#[derive(Debug, Clone, Copy, PartialEq, Eq, Structural)]
pub struct Command {
    /// The host's reference of the command
    pub id: HostId,
}

/// Errors that can occur when finding a command
#[derive(Debug, Clone, Copy, PartialEq, Eq, Structural)]
pub enum CommandFindError {
    /// The provided command name contained a null byte
    Null(NulByteError),
    /// The Command could not be found
    NotFound,
}

/// Errors that can occur when creating a Command
#[derive(Debug, Clone, Copy, PartialEq, Eq, Structural)]
pub enum CommandCreateError {
    /// The provided name or description contained a null byte
    Null(NulByteError),
    /// The Command exists already
    Exists { existing_command: Command },
}

impl CommandFindError {
    /// The error in the taxonomy shared by every registration.
    pub fn kind(&self) -> (r: RegistrationError)
        ensures
            r == match *self {
                CommandFindError::Null(e) => RegistrationError::InvalidIdentifier(e),
                CommandFindError::NotFound => RegistrationError::NotFound,
            },
    {
        match *self {
            CommandFindError::Null(e) => RegistrationError::InvalidIdentifier(e),
            CommandFindError::NotFound => RegistrationError::NotFound,
        }
    }
}

impl CommandCreateError {
    /// The error in the taxonomy shared by every registration.
    pub fn kind(&self) -> (r: RegistrationError)
        ensures
            r == match *self {
                CommandCreateError::Null(e) => RegistrationError::InvalidIdentifier(e),
                CommandCreateError::Exists { .. } => RegistrationError::NameConflict,
            },
    {
        match *self {
            CommandCreateError::Null(e) => RegistrationError::InvalidIdentifier(e),
            CommandCreateError::Exists { .. } => RegistrationError::NameConflict,
        }
    }
}

impl Command {
    /// Decides the creation of a command named `name`, given what the host's lookup of that
    /// name found. Names with a null byte are refused first, then a name that exists; on
    /// success the host creates the command.
    pub fn validate_new(name: &str, description: &str, existing: Option<HostId>) -> (r: Result<
        (),
        CommandCreateError,
    >)
        ensures
            !check_c_string_ok(name) ==> r == Err::<(), CommandCreateError>(
                CommandCreateError::Null(NulByteError { position: text_len(name.spec_bytes()) as usize }),
            ),
            check_c_string_ok(name) && !check_c_string_ok(description) ==> r == Err::<
                (),
                CommandCreateError,
            >(
                CommandCreateError::Null(
                    NulByteError { position: text_len(description.spec_bytes()) as usize },
                ),
            ),
            check_c_string_ok(name) && check_c_string_ok(description) ==> r == match existing {
                Some(id) => Err(CommandCreateError::Exists { existing_command: Command { id } }),
                None => Ok(()),
            },
    {
        match check_c_string(name) {
            Err(e) => {
                return Err(CommandCreateError::Null(e));
            },
            Ok(()) => {},
        }
        match check_c_string(description) {
            Err(e) => {
                return Err(CommandCreateError::Null(e));
            },
            Ok(()) => {},
        }
        match existing {
            Some(id) => Err(CommandCreateError::Exists { existing_command: Command { id } }),
            None => Ok(()),
        }
    }

    /// Decides the lookup of a command named `name`, given what the host found.
    pub fn try_find(name: &str, found: Option<HostId>) -> (r: Result<Command, CommandFindError>)
        ensures
            !check_c_string_ok(name) ==> r == Err::<Command, CommandFindError>(
                CommandFindError::Null(NulByteError { position: text_len(name.spec_bytes()) as usize }),
            ),
            check_c_string_ok(name) ==> r == match found {
                Some(id) => Ok(Command { id }),
                None => Err(CommandFindError::NotFound),
            },
    {
        match check_c_string(name) {
            Err(e) => {
                return Err(CommandFindError::Null(e));
            },
            Ok(()) => {},
        }
        match found {
            Some(id) => Ok(Command { id }),
            None => Err(CommandFindError::NotFound),
        }
    }
}

/// Enum returned from all functions of a [`CommandHandler`].
#[derive(Debug, Clone, Copy, PartialEq, Eq, Structural)]
pub enum CommandHandlerResult {
    /// If handling before the host, prevent it from running its own handler on this command.
    DisallowXPlaneProcessing,
    /// If handling before the host, allow it to run its own handler on this command.
    AllowXPlaneProcessing,
    /// Return this if handling a command after the host.
    Irrelevant,
}

/// The number the host receives for each result: 0 stops its processing, 1 lets it go on.
pub open spec fn spec_command_code(r: CommandHandlerResult) -> i32 {
    match r {
        CommandHandlerResult::DisallowXPlaneProcessing => 0,
        _ => 1,
    }
}

impl CommandHandlerResult {
    /// The number the host receives for this result.
    pub fn code(self) -> (r: i32)
        ensures
            r == spec_command_code(self),
    {
        match self {
            CommandHandlerResult::DisallowXPlaneProcessing => 0,
            CommandHandlerResult::AllowXPlaneProcessing => 1,
            CommandHandlerResult::Irrelevant => 1,
        }
    }
}

/// Trait for things that can handle commands. Store your state data within the struct
/// implementing this.
pub trait CommandHandler {
    /// Called when the command begins (corresponds to a button being pressed down)
    fn command_begin(&mut self, x: &mut XPAPI) -> CommandHandlerResult;
    /// Called frequently while the command button is held down
    fn command_continue(&mut self, x: &mut XPAPI) -> CommandHandlerResult;
    /// Called when the command ends (corresponds to a button being released)
    fn command_end(&mut self, x: &mut XPAPI) -> CommandHandlerResult;
}

/// What the host needs to register and unregister a command handler.
#[derive(Debug, Clone, Copy, PartialEq, Eq, Structural)]
pub struct CommandBinding {
    /// The command handled
    pub command: HostId,
    /// Whether the handler runs before the host's own
    pub before: bool,
}

/// A command handler registered with the host.
pub struct RegisteredCommandHandler<H> {
    block: ContextBlock<H, CommandBinding>,
}

impl<H: CommandHandler> RegisteredCommandHandler<H> {
    pub closed spec fn block(&self) -> ContextBlock<H, CommandBinding> {
        self.block
    }

    /// Allocates the registration of `handler` for `command`, before the host call.
    pub fn new(command: &Command, handler: H, before: bool) -> (r: Self)
        ensures
            r.block().wf(),
            r.block().stage() == Stage::Allocated,
            r.block().spec_state() == (CommandBinding { command: command.id, before }),
            r.block().history() == seq![LifeEvent::Allocate],
    {
        RegisteredCommandHandler {
            block: ContextBlock::new(handler, CommandBinding { command: command.id, before }),
        }
    }

    /// The command and the order, for the host's register and unregister calls.
    pub fn binding(&self) -> (r: CommandBinding)
        ensures
            r == self.block().spec_state(),
    {
        *self.block.state_ref()
    }

    /// Records the host registration; it cannot fail, and is known by the command's id.
    pub fn bind(&mut self)
        requires
            old(self).block().wf(),
            old(self).block().stage() == Stage::Allocated,
        ensures
            final(self).block().wf(),
            final(self).block().stage() == Stage::Registered,
            final(self).block().spec_state() == old(self).block().spec_state(),
            final(self).block().spec_active(),
            final(self).block().spec_host_id() == Some(old(self).block().spec_state().command),
            final(self).block().outcome() == Some(old(self).block().spec_state().command),
            final(self).block().history() == old(self).block().history().push(
                LifeEvent::Register(old(self).block().spec_state().command),
            ),
    {
        let command = self.block.state_ref().command;
        let _ = self.block.bind(Some(command));
    }

    /// The trampoline's work for one host call in phase `phase`: the handler's answer as the
    /// host's number; a phase the host never sends lets the host go on.
    pub fn handle(&mut self, x: &mut XPAPI, phase: i32) -> (r: i32)
        requires
            old(self).block().wf(),
            old(self).block().stage() == Stage::Registered,
        ensures
            final(self).block().wf(),
            final(self).block().stage() == Stage::Registered,
            final(self).block().spec_state() == old(self).block().spec_state(),
            final(self).block().spec_host_id() == old(self).block().spec_host_id(),
            final(self).block().history() == old(self).block().history().push(
                LifeEvent::Invoke(false),
            ),
            final(self).block().spec_active() == old(self).block().spec_active(),
            final(self).block().outcome() == old(self).block().outcome(),
            !(0 <= phase <= 2) ==> r == 1,
            r == 0 || r == 1,
    {
        let (handler, _) = self.block.parts_mut();
        let r = if phase == COMMAND_BEGIN {
            handler.command_begin(x).code()
        } else if phase == COMMAND_CONTINUE {
            handler.command_continue(x).code()
        } else if phase == COMMAND_END {
            handler.command_end(x).code()
        } else {
            1
        };
        self.block.record_invocation(false);
        r
    }

    /// Begins the teardown: the binding the host must unregister before the handler is
    /// released.
    pub fn detach(&mut self) -> (r: Option<HostId>)
        requires
            old(self).block().wf(),
            old(self).block().stage() == Stage::Registered,
        ensures
            final(self).block().wf(),
            final(self).block().stage() == Stage::Detached,
            final(self).block().spec_state() == old(self).block().spec_state(),
            r == (if old(self).block().spec_active() {
                old(self).block().spec_host_id()
            } else {
                None
            }),
    {
        self.block.detach()
    }

    /// Frees the handler, and returns the registration's complete history.
    pub fn release(self) -> (history: Ghost<Seq<LifeEvent>>)
        requires
            self.block().wf(),
            self.block().stage() == Stage::Detached,
        ensures
            history@ == self.block().history().push(LifeEvent::Release),
            history@ == crate::registry::lifecycle(self.block().outcome(), self.block().finals()),
    {
        self.block.release()
    }
}

} // verus!
