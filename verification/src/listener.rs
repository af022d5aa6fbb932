//! The input listener: key presses and the two shared flags.

use vstd::prelude::*;

verus! {

/// The key that ends the session.
pub const QUIT_KEY: char = 'q';

/// The key that pauses the timer, and resumes it.
pub const PAUSE_KEY: char = 'p';

/// How long the listener waits for a key before it looks again, in
/// milliseconds.
pub const POLL_MILLIS: u64 = 100;

/// A key press as the listener sees it: a character key, or any other key.
#[derive(Clone, Copy, Debug, PartialEq, Eq)]
pub enum Key {
    Char(char),
    Other,
}

/// What a key asks for.
#[derive(Clone, Copy, Debug, PartialEq, Eq)]
pub enum KeyCommand {
    /// Set the quit flag and stop listening.
    Quit,
    /// Flip the pause flag.
    TogglePause,
    /// Nothing: the key is not bound.
    Ignore,
}

/// The two flags that the listener writes and the timer loop reads.
#[derive(Clone, Copy, Debug, PartialEq, Eq)]
pub struct Flags {
    /// Set while the display is frozen.
    pub pause: bool,
    /// Set once the quit key was seen; never cleared.
    pub quit: bool,
}

/// The command bound to a key. Only the two lower-case letters are bound.
pub open spec fn command_for(key: Key) -> KeyCommand {
    match key {
        Key::Char(c) => if c == QUIT_KEY {
            KeyCommand::Quit
        } else if c == PAUSE_KEY {
            KeyCommand::TogglePause
        } else {
            KeyCommand::Ignore
        },
        Key::Other => KeyCommand::Ignore,
    }
}

/// The flags after a command was carried out.
pub open spec fn commanded(flags: Flags, command: KeyCommand) -> Flags {
    match command {
        KeyCommand::Quit => Flags { quit: true, ..flags },
        KeyCommand::TogglePause => Flags { pause: !flags.pause, ..flags },
        KeyCommand::Ignore => flags,
    }
}

/// Where the listener stands: the flags as it left them, and whether it
/// still listens.
#[derive(Clone, Copy, Debug, PartialEq, Eq)]
pub struct Listener {
    pub flags: Flags,
    pub listening: bool,
}

/// The listener after one key. A listener that has stopped sees no key.
pub open spec fn heard(l: Listener, key: Key) -> Listener {
    if l.listening {
        Listener {
            flags: commanded(l.flags, command_for(key)),
            listening: command_for(key) != KeyCommand::Quit,
        }
    } else {
        l
    }
}

/// The listener after a run of keys.
pub open spec fn listen(l: Listener, keys: Seq<Key>) -> Listener
    decreases keys.len(),
{
    if keys.len() == 0 {
        l
    } else {
        listen(heard(l, keys[0]), keys.drop_first())
    }
}

/// Finds the command bound to a key.
pub fn classify(key: Key) -> (command: KeyCommand)
    ensures
        command == command_for(key),
{
    match key {
        Key::Char(c) => {
            if c == QUIT_KEY {
                KeyCommand::Quit
            } else if c == PAUSE_KEY {
                KeyCommand::TogglePause
            } else {
                KeyCommand::Ignore
            }
        },
        Key::Other => KeyCommand::Ignore,
    }
}

impl Flags {
    /// Both flags clear: the timer runs and nobody has quit.
    pub fn new() -> (flags: Flags)
        ensures
            flags == (Flags { pause: false, quit: false }),
    {
        Flags { pause: false, quit: false }
    }

    /// Carries out a command on the flags.
    pub fn apply(self, command: KeyCommand) -> (flags: Flags)
        ensures
            flags == commanded(self, command),
    {
        match command {
            KeyCommand::Quit => Flags { pause: self.pause, quit: true },
            KeyCommand::TogglePause => Flags { pause: !self.pause, quit: self.quit },
            KeyCommand::Ignore => self,
        }
    }
}

impl Listener {
    /// A listener that starts on the given flags.
    pub fn new(flags: Flags) -> (l: Listener)
        ensures
            l == (Listener { flags, listening: true }),
    {
        Listener { flags, listening: true }
    }

    /// Handles one key and returns the command that was carried out.
    pub fn hear(&mut self, key: Key) -> (command: KeyCommand)
        ensures
            *final(self) == heard(*old(self), key),
            command == if old(self).listening {
                command_for(key)
            } else {
                KeyCommand::Ignore
            },
    {
        if !self.listening {
            return KeyCommand::Ignore;
        }
        let command = classify(key);
        self.flags = self.flags.apply(command);
        match command {
            KeyCommand::Quit => {
                self.listening = false;
            },
            _ => {},
        }
        command
    }
}

/// A listener that has ended stays as it is, whatever keys follow.
pub proof fn lemma_ended_listener_hears_nothing(l: Listener, keys: Seq<Key>)
    requires
        !l.listening,
    ensures
        listen(l, keys) == l,
    decreases keys.len(),
{
    if keys.len() > 0 {
        lemma_ended_listener_hears_nothing(l, keys.drop_first());
    }
}

/// The input listener over the keys that were pressed, in order: every key
/// up to the first quit key acts on the flags, and the quit key ends the
/// listening, so that later keys change nothing.
pub fn keypress_listen(flags: Flags, keys: &[Key]) -> (l: Listener)
    ensures
        l == listen(Listener { flags, listening: true }, keys@),
{
    let mut l = Listener::new(flags);
    let mut i: usize = 0;
    assert(keys@.skip(0) =~= keys@);
    while i < keys.len() && l.listening
        invariant
            i <= keys.len(),
            listen(Listener { flags, listening: true }, keys@) == listen(l, keys@.skip(i as int)),
        decreases keys.len() - i,
    {
        proof {
            assert(keys@.skip(i as int)[0] == keys[i as int]);
            assert(keys@.skip(i as int).drop_first() =~= keys@.skip(i + 1));
        }
        l.hear(keys[i]);
        i += 1;
    }
    proof {
        if !l.listening {
            lemma_ended_listener_hears_nothing(l, keys@.skip(i as int));
        }
    }
    l
}

} // verus!
