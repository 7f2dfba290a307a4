//! The debug shell: the line a user types and the command it names.
//!
//! Keys come from the keyboard one by one. Printable keys add to the line,
//! backspace takes the last character away, and enter runs the line as a
//! command. What a command does is left to the caller.

use crate::ascii::{ascii, spells};
use crate::interrupts::keyboard::ps2::KeyCode;
use vstd::prelude::*;
use vstd::slice::slice_subrange;
use vstd::string::*;

verus! {

/// Longest line the shell takes.
pub const COMMAND_MAX: usize = 32;

/// The line feed character.
pub const NEWLINE: char = '\n';

/// The commands of the shell.
#[derive(Clone, Copy, Debug, PartialEq, Eq, Structural)]
pub enum Command {
    /// `help`: list the commands.
    Help,
    /// `sections`: print the kernel's ELF sections.
    Sections,
    /// `memory`: print the memory areas.
    Memory,
    /// `registers`: print some CPU registers.
    Registers,
    /// `mbi`: print where the boot information lies.
    Mbi,
    /// `stackoverflow`: overflow the stack.
    StackOverflow,
    /// `pagefault`: cause a page fault.
    PageFault,
    /// `scanpci`: scan the PCI bus.
    ScanPci,
    /// `mbitags`: print the tags of the boot information.
    MbiTags,
    /// `clear`: clear the screen.
    Clear,
    /// Anything else.
    Unknown,
}

/// The command a line names.
pub open spec fn command_of(cmd: Seq<u8>) -> Command {
    if cmd == ascii("help"@) {
        Command::Help
    } else if cmd == ascii("sections"@) {
        Command::Sections
    } else if cmd == ascii("memory"@) {
        Command::Memory
    } else if cmd == ascii("registers"@) {
        Command::Registers
    } else if cmd == ascii("mbi"@) {
        Command::Mbi
    } else if cmd == ascii("stackoverflow"@) {
        Command::StackOverflow
    } else if cmd == ascii("pagefault"@) {
        Command::PageFault
    } else if cmd == ascii("scanpci"@) {
        Command::ScanPci
    } else if cmd == ascii("mbitags"@) {
        Command::MbiTags
    } else if cmd == ascii("clear"@) {
        Command::Clear
    } else {
        Command::Unknown
    }
}

/// Names the command of a line.
pub fn handle_cmd(cmd: &[u8]) -> (command: Command)
    ensures
        command == command_of(cmd@),
{
    proof {
        reveal_strlit("help");
        reveal_strlit("sections");
        reveal_strlit("memory");
        reveal_strlit("registers");
        reveal_strlit("mbi");
        reveal_strlit("stackoverflow");
        reveal_strlit("pagefault");
        reveal_strlit("scanpci");
        reveal_strlit("mbitags");
        reveal_strlit("clear");
    }
    if spells(cmd, "help") {
        Command::Help
    } else if spells(cmd, "sections") {
        Command::Sections
    } else if spells(cmd, "memory") {
        Command::Memory
    } else if spells(cmd, "registers") {
        Command::Registers
    } else if spells(cmd, "mbi") {
        Command::Mbi
    } else if spells(cmd, "stackoverflow") {
        Command::StackOverflow
    } else if spells(cmd, "pagefault") {
        Command::PageFault
    } else if spells(cmd, "scanpci") {
        Command::ScanPci
    } else if spells(cmd, "mbitags") {
        Command::MbiTags
    } else if spells(cmd, "clear") {
        Command::Clear
    } else {
        Command::Unknown
    }
}

/// What the shell does in answer to a key.
#[derive(Clone, Copy, Debug, PartialEq, Eq, Structural)]
pub enum Edit {
    /// Nothing.
    Nothing,
    /// Print the character that was added to the line.
    Echo(char),
    /// Take the last character off the screen.
    Erase,
    /// End the line on the screen, run the command, and prompt again.
    Run(Command),
}

/// The line and the answer after a key.
///
/// A printable key other than enter is added to the line unless the line is
/// full. Enter runs the line and starts an empty one. Backspace takes the
/// last character away, if there is one. Other keys do nothing.
pub open spec fn edited(line: Seq<u8>, key: KeyCode) -> (Seq<u8>, Edit) {
    match key.spec_to_char() {
        Some(c) => if c != NEWLINE {
            if line.len() < COMMAND_MAX {
                (line.push(c as u8), Edit::Echo(c))
            } else {
                (line, Edit::Nothing)
            }
        } else {
            (Seq::empty(), Edit::Run(command_of(line)))
        },
        None => if key == KeyCode::Backspace && line.len() > 0 {
            (line.drop_last(), Edit::Erase)
        } else {
            (line, Edit::Nothing)
        },
    }
}

/// The line being typed. Its view is the characters typed so far.
pub struct LineEditor {
    command: [u8; 32],
    index: usize,
}

impl View for LineEditor {
    type V = Seq<u8>;

    closed spec fn view(&self) -> Seq<u8> {
        self.command@.take(self.index as int)
    }
}

impl LineEditor {
    #[verifier::type_invariant]
    spec fn well_formed(self) -> bool {
        self.index <= COMMAND_MAX
    }

    /// An empty line.
    pub fn new() -> (editor: LineEditor)
        ensures
            editor@ == Seq::<u8>::empty(),
    {
        let editor = LineEditor { command: [0u8;32], index: 0 };
        assert(editor@ =~= Seq::<u8>::empty());
        editor
    }

    /// Number of characters typed so far.
    pub fn len(&self) -> (len: usize)
        ensures
            len == self@.len(),
            len <= COMMAND_MAX,
    {
        proof {
            use_type_invariant(self);
        }
        self.index
    }

    /// Takes one key.
    pub fn on_key(&mut self, key: KeyCode) -> (edit: Edit)
        ensures
            (final(self)@, edit) == edited(old(self)@, key),
    {
        proof {
            use_type_invariant(&*self);
        }
        let ghost line = self@;
        if let Ok(c) = char::try_from(key) {
            if c != NEWLINE {
                if self.index < COMMAND_MAX {
                    let mut command = self.command;
                    command[self.index] = c as u8;
                    *self = LineEditor { command, index: self.index + 1 };
                    assert(self@ =~= line.push(c as u8));
                    Edit::Echo(c)
                } else {
                    Edit::Nothing
                }
            } else {
                let cmd = slice_subrange(self.command.as_slice(), 0, self.index);
                assert(cmd@ =~= line);
                let command = handle_cmd(cmd);
                *self = LineEditor { command: [0u8;32], index: 0 };
                assert(self@ =~= Seq::<u8>::empty());
                Edit::Run(command)
            }
        } else {
            if key == KeyCode::Backspace && self.index > 0 {
                *self = LineEditor { command: self.command, index: (self.index - 1) as usize };
                assert(self@ =~= line.drop_last());
                Edit::Erase
            } else {
                Edit::Nothing
            }
        }
    }
}

} // verus!
