//! The control service: a visibility flag reachable by other processes.
//!
//! The service owns a single boolean. Every write, toggle or forced shutdown
//! write flips the flag and hands back exactly one command for the shared
//! channel to the consumer; the ghost `sent` log records the full sequence of
//! commands in the order they were produced. The transport that publishes the
//! service on the session bus, and the channel itself, live outside the
//! library and only forward what these methods return.

use vstd::prelude::*;

verus! {

/// A command telling the consumer whether the window should be shown.
pub enum Messages {
    Show,
    Hide,
}

/// The command a write of `value` produces: `Show` for true, `Hide` for false.
pub open spec fn command_for(value: bool) -> Messages {
    if value {
        Messages::Show
    } else {
        Messages::Hide
    }
}

/// One visibility write: the flag takes the written value, and exactly one
/// matching command is appended to the log of sent commands.
pub open spec fn write_rel(
    pre: ControlService,
    value: bool,
    post: ControlService,
    cmd: Messages,
) -> bool {
    &&& post.spec_visible() == value
    &&& cmd == command_for(value)
    &&& post.sent() == pre.sent().push(cmd)
}

/// The state behind the control endpoint.
pub struct ControlService {
    visible: bool,
    sent: Ghost<Seq<Messages>>,
}

impl ControlService {
    /// The current value of the visibility flag.
    pub closed spec fn spec_visible(self) -> bool {
        self.visible
    }

    /// Every command this service has produced, oldest first.
    pub closed spec fn sent(self) -> Seq<Messages> {
        self.sent@
    }

    /// A fresh service starts hidden, with nothing sent.
    pub fn new() -> (s: ControlService)
        ensures
            !s.spec_visible(),
            s.sent() == Seq::<Messages>::empty(),
    {
        ControlService { visible: false, sent: Ghost(Seq::empty()) }
    }

    /// Reads the flag; no side effect and no command.
    pub fn visible(&self) -> (b: bool)
        ensures
            b == self.spec_visible(),
    {
        self.visible
    }

    /// Writes the flag. A command is produced on every write, also when the
    /// value written equals the current one.
    pub fn set_visible(&mut self, value: bool) -> (cmd: Messages)
        ensures
            write_rel(*old(self), value, *final(self), cmd),
    {
        let cmd = if value {
            Messages::Show
        } else {
            Messages::Hide
        };
        self.sent = Ghost(self.sent@.push(cmd));
        self.visible = value;
        cmd
    }

    /// Flips the flag, as the externally callable toggle action does.
    pub fn toggle_visibility(&mut self) -> (cmd: Messages)
        ensures
            write_rel(*old(self), !old(self).spec_visible(), *final(self), cmd),
    {
        let value = !self.visible;
        self.set_visible(value)
    }

    /// The shutdown path: before the window close proceeds, the flag is
    /// forced to hidden and the returned `Hide` must be forwarded.
    pub fn force_hidden(&mut self) -> (cmd: Messages)
        ensures
            write_rel(*old(self), false, *final(self), cmd),
            cmd == Messages::Hide,
    {
        self.set_visible(false)
    }
}

/// Two writes of the same value each enqueue a command: idempotence is not
/// assumed, so writing true twice yields two `Show` commands.
pub proof fn lemma_repeated_write_enqueues_each_time(
    s0: ControlService,
    s1: ControlService,
    s2: ControlService,
    c1: Messages,
    c2: Messages,
    value: bool,
)
    requires
        write_rel(s0, value, s1, c1),
        write_rel(s1, value, s2, c2),
    ensures
        c1 == c2,
        s2.sent() == s0.sent().push(c1).push(c2),
        s2.sent().len() == s0.sent().len() + 2,
{
}

/// Toggling while hidden shows the window: the state becomes shown, exactly
/// one `Show` command is enqueued, and a read of the flag now returns true.
pub proof fn lemma_toggle_while_hidden_shows(s0: ControlService, s1: ControlService, cmd: Messages)
    requires
        !s0.spec_visible(),
        write_rel(s0, !s0.spec_visible(), s1, cmd),
    ensures
        s1.spec_visible(),
        cmd == Messages::Show,
        s1.sent() == s0.sent().push(Messages::Show),
{
}

/// A shutdown request while shown transitions the service to hidden and
/// enqueues exactly one `Hide` before the close may proceed.
pub proof fn lemma_shutdown_forces_hidden(s0: ControlService, s1: ControlService, cmd: Messages)
    requires
        s0.spec_visible(),
        write_rel(s0, false, s1, cmd),
    ensures
        !s1.spec_visible(),
        cmd == Messages::Hide,
        s1.sent() == s0.sent().push(Messages::Hide),
        s1.sent().len() == s0.sent().len() + 1,
{
}

} // verus!
