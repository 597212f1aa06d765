//! The command history: an ordered log of executed commands with a cursor
//! separating done from undone, supporting undo, redo and
//! truncation-on-new-command.

use crate::commands::SceneCommand;
use crate::scene::SceneContext;
use vstd::prelude::*;

verus! {

/// An ordered stack of executed commands plus a cursor. Commands at indices
/// below the cursor have been executed (or redone); commands at and above it
/// have been undone and await a redo. Submitting a new command while the
/// cursor is not at the end discards the undone tail.
pub struct CommandStack {
    commands: Vec<SceneCommand>,
    cursor: usize,
}

impl CommandStack {
    /// The stored commands, oldest first.
    pub closed spec fn commands_seq(self) -> Seq<SceneCommand> {
        self.commands@
    }

    /// Index of the next command to redo; equally, the number of commands
    /// currently in effect.
    pub closed spec fn cursor_pos(self) -> int {
        self.cursor as int
    }

    /// The cursor never leaves the stored range.
    pub open spec fn inv(self) -> bool {
        0 <= self.cursor_pos() <= self.commands_seq().len()
    }

    /// An empty history.
    pub fn new() -> (s: CommandStack)
        ensures
            s.inv(),
            s.commands_seq() == Seq::<SceneCommand>::empty(),
            s.cursor_pos() == 0,
    {
        CommandStack { commands: Vec::new(), cursor: 0 }
    }

    /// Number of stored commands (undone ones included).
    pub fn len(&self) -> (n: usize)
        ensures
            n == self.commands_seq().len(),
    {
        self.commands.len()
    }

    /// Current cursor position.
    pub fn cursor(&self) -> (n: usize)
        ensures
            n == self.cursor_pos(),
    {
        self.cursor
    }

    /// Whether `undo` would actually revert a command against this context:
    /// the cursor is above the bottom and the command below it can still
    /// resolve every handle it captured.
    pub fn undo_ready(&self, context: &SceneContext) -> (r: bool)
        requires
            self.inv(),
        ensures
            r == (self.cursor_pos() > 0 && self.commands_seq()[self.cursor_pos()
                - 1].revertible(context.graph@, context.camera_controller.camera)),
    {
        if self.cursor > 0 {
            let command = &self.commands[self.cursor - 1];
            command.is_revertible(context)
        } else {
            false
        }
    }

    /// Whether `redo` would actually re-execute a command against this
    /// context: the cursor is below the top and the command at it can
    /// resolve its handles.
    pub fn redo_ready(&self, context: &SceneContext) -> (r: bool)
        requires
            self.inv(),
        ensures
            r == (self.cursor_pos() < self.commands_seq().len()
                && self.commands_seq()[self.cursor_pos()].executable(
                context.graph@,
                context.camera_controller.camera,
            )),
    {
        if self.cursor < self.commands.len() {
            let command = &self.commands[self.cursor];
            command.is_executable(context)
        } else {
            false
        }
    }

    /// Submits a new command: discards and finalizes every undone command
    /// after the cursor (the redo branch is lost — expected, silent
    /// behavior, not an error), executes the command against the context,
    /// appends it, and advances the cursor past it.
    pub fn do_command(&mut self, context: &mut SceneContext, command: SceneCommand)
        requires
            old(self).inv(),
            command.executable(old(context).graph@, old(context).camera_controller.camera),
        ensures
            final(self).inv(),
            final(self).cursor_pos() == old(self).cursor_pos() + 1,
            final(self).commands_seq().len() == old(self).cursor_pos() + 1,
            final(self).commands_seq().take(old(self).cursor_pos()) == old(
                self,
            ).commands_seq().take(old(self).cursor_pos()),
            command.executed_as(
                old(context).graph@,
                final(self).commands_seq()[old(self).cursor_pos()],
            ),
            final(context).graph@ == command.exec_graph(
                old(context).graph@,
                old(context).camera_controller.camera,
            ),
            final(context).camera_controller == old(context).camera_controller,
    {
        while self.commands.len() > self.cursor
            invariant
                self.cursor == old(self).cursor,
                self.cursor <= self.commands@.len(),
                self.commands@.len() <= old(self).commands@.len(),
                forall|i: int|
                    0 <= i < self.commands@.len() ==> self.commands@[i] == old(
                        self,
                    ).commands@[i],
                *context == *old(context),
            decreases self.commands@.len(),
        {
            let ghost prev = self.commands@;
            let dropped = self.commands.pop();
            match dropped {
                Some(mut c) => c.finalize(context),
                None => {},
            }
            proof {
                assert(self.commands@ == prev.drop_last());
                assert(forall|i: int|
                    0 <= i < self.commands@.len() ==> self.commands@[i] == prev[i]);
            }
        }
        let mut command = command;
        command.execute(context);
        self.commands.push(command);
        self.cursor = self.commands.len();
        proof {
            assert(self.commands@.take(old(self).cursor as int) =~= old(
                self,
            ).commands@.take(old(self).cursor as int));
        }
    }

    /// Undoes the command just below the cursor: moves the cursor down one
    /// and reverts that command, leaving it stored for a later redo. At the
    /// bottom of the stack this is a no-op, never an error.
    pub fn undo(&mut self, context: &mut SceneContext)
        requires
            old(self).inv(),
            old(self).cursor_pos() > 0 ==> old(self).commands_seq()[old(self).cursor_pos()
                - 1].revertible(old(context).graph@, old(context).camera_controller.camera),
        ensures
            final(self).inv(),
            final(self).commands_seq() == old(self).commands_seq(),
            old(self).cursor_pos() == 0 ==> {
                &&& final(self).cursor_pos() == 0
                &&& *final(context) == *old(context)
            },
            old(self).cursor_pos() > 0 ==> {
                &&& final(self).cursor_pos() == old(self).cursor_pos() - 1
                &&& final(context).graph@ == old(self).commands_seq()[old(self).cursor_pos()
                    - 1].revert_graph(
                    old(context).graph@,
                    old(context).camera_controller.camera,
                )
                &&& final(context).camera_controller == old(context).camera_controller
            },
    {
        if self.cursor > 0 {
            self.cursor = self.cursor - 1;
            let command = &self.commands[self.cursor];
            command.revert(context);
        }
    }

    /// Redoes the command at the cursor: executes it afresh against the
    /// current context (recapturing its old state) and moves the cursor up
    /// one. At the top of the stack this is a no-op, never an error.
    pub fn redo(&mut self, context: &mut SceneContext)
        requires
            old(self).inv(),
            old(self).cursor_pos() < old(self).commands_seq().len() ==> old(
                self,
            ).commands_seq()[old(self).cursor_pos()].executable(
                old(context).graph@,
                old(context).camera_controller.camera,
            ),
        ensures
            final(self).inv(),
            final(self).commands_seq().len() == old(self).commands_seq().len(),
            old(self).cursor_pos() == old(self).commands_seq().len() ==> {
                &&& final(self).cursor_pos() == old(self).cursor_pos()
                &&& final(self).commands_seq() == old(self).commands_seq()
                &&& *final(context) == *old(context)
            },
            old(self).cursor_pos() < old(self).commands_seq().len() ==> {
                &&& final(self).cursor_pos() == old(self).cursor_pos() + 1
                &&& forall|i: int|
                    0 <= i < old(self).commands_seq().len() && i != old(self).cursor_pos()
                        ==> final(self).commands_seq()[i] == old(self).commands_seq()[i]
                &&& old(self).commands_seq()[old(self).cursor_pos()].executed_as(
                    old(context).graph@,
                    final(self).commands_seq()[old(self).cursor_pos()],
                )
                &&& final(context).graph@ == old(self).commands_seq()[old(
                    self,
                ).cursor_pos()].exec_graph(
                    old(context).graph@,
                    old(context).camera_controller.camera,
                )
                &&& final(context).camera_controller == old(context).camera_controller
            },
    {
        if self.cursor < self.commands.len() {
            let mut command = self.commands.remove(self.cursor);
            command.execute(context);
            self.commands.insert(self.cursor, command);
            self.cursor = self.cursor + 1;
        }
    }

    /// Finalizes and discards every stored command and resets the cursor.
    pub fn clear(&mut self, context: &mut SceneContext)
        ensures
            final(self).inv(),
            final(self).commands_seq() == Seq::<SceneCommand>::empty(),
            final(self).cursor_pos() == 0,
            *final(context) == *old(context),
    {
        while self.commands.len() > 0
            invariant
                *context == *old(context),
            decreases self.commands@.len(),
        {
            let dropped = self.commands.pop();
            match dropped {
                Some(mut c) => c.finalize(context),
                None => {},
            }
        }
        self.cursor = 0;
        proof {
            assert(self.commands@ =~= Seq::<SceneCommand>::empty());
        }
    }
}

} // verus!
