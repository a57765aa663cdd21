//! The debugger: a foreground actor that drives the runner and waits for it to
//! hand control back.
use crate::gba::Gba;
use crate::message::{Message, MessageChannel};
use crate::notification::{Notification, NotificationChannel};
use vstd::prelude::*;
use vstd::string::StrSliceExecFns;

verus! {

/// A command line of the debugger, as read.
#[derive(Copy, Clone, Debug, PartialEq, Eq, Structural)]
pub enum ReplCommand {
    /// A blank line.
    Empty,
    /// `run`: start the engine, then wait until it pauses.
    Run,
    /// `pause`: stop the engine.
    Pause,
    /// Any other first word.
    Invalid,
}

/// The characters with the Unicode White_Space property, which separate words:
/// tab to carriage return, space, next line, no-break space, ogham space mark,
/// the spaces from en quad to hair space, line and paragraph separators,
/// narrow no-break space, medium mathematical space and ideographic space.
pub open spec fn is_space(c: char) -> bool {
    let v = c as u32;
    (0x09 <= v && v <= 0x0D) || v == 0x20 || v == 0x85 || v == 0xA0 || v == 0x1680 || (0x2000
        <= v && v <= 0x200A) || v == 0x2028 || v == 0x2029 || v == 0x202F || v == 0x205F || v
        == 0x3000
}

/// The first index at or after `i` that holds no white space.
pub open spec fn skip_spaces(s: Seq<char>, i: int) -> int
    decreases s.len() - i,
{
    if 0 <= i < s.len() && is_space(s[i]) {
        skip_spaces(s, i + 1)
    } else {
        i
    }
}

/// The first index at or after `i` that holds white space, or the end.
pub open spec fn word_end(s: Seq<char>, i: int) -> int
    decreases s.len() - i,
{
    if 0 <= i < s.len() && !is_space(s[i]) {
        word_end(s, i + 1)
    } else {
        i
    }
}

/// The first word of `s`.
pub open spec fn first_word(s: Seq<char>) -> Seq<char> {
    let start = skip_spaces(s, 0);
    s.subrange(start, word_end(s, start))
}

/// The command a line stands for: its first word decides, the rest is ignored.
pub open spec fn command_of(line: Seq<char>) -> ReplCommand {
    let w = first_word(line);
    if w.len() == 0 {
        ReplCommand::Empty
    } else if w == "run"@ {
        ReplCommand::Run
    } else if w == "pause"@ {
        ReplCommand::Pause
    } else {
        ReplCommand::Invalid
    }
}

/// The message a command sends to the runner: `run` and `pause` map one to one
/// onto `Run` and `Pause`; a blank or unknown line sends nothing.
pub open spec fn message_of(command: ReplCommand) -> Option<Message> {
    match command {
        ReplCommand::Run => Some(Message::Run),
        ReplCommand::Pause => Some(Message::Pause),
        _ => None,
    }
}

/// The message `command` sends to the runner, if any.
pub fn message_for(command: ReplCommand) -> (r: Option<Message>)
    ensures
        r == message_of(command),
{
    match command {
        ReplCommand::Run => Some(Message::Run),
        ReplCommand::Pause => Some(Message::Pause),
        _ => None,
    }
}

/// Whether `c` has the Unicode White_Space property.
pub fn is_whitespace(c: char) -> (r: bool)
    ensures
        r == is_space(c),
{
    let v = c as u32;
    (0x09 <= v && v <= 0x0D) || v == 0x20 || v == 0x85 || v == 0xA0 || v == 0x1680 || (0x2000
        <= v && v <= 0x200A) || v == 0x2028 || v == 0x2029 || v == 0x202F || v == 0x205F || v
        == 0x3000
}

/// Whether the characters `start..end` of `line` spell `word`.
fn word_is(line: &str, start: usize, end: usize, word: &str) -> (r: bool)
    requires
        start <= end <= line@.len(),
    ensures
        r == (line@.subrange(start as int, end as int) == word@),
{
    let n = word.unicode_len();
    if end - start != n {
        return false;
    }
    let mut i: usize = 0;
    while i < n
        invariant
            start <= end <= line@.len(),
            end - start == n,
            n == word@.len(),
            i <= n,
            forall|k: int| 0 <= k < i ==> line@[start + k] == word@[k],
        decreases n - i,
    {
        if line.get_char(start + i) != word.get_char(i) {
            assert(line@.subrange(start as int, end as int)[i as int] != word@[i as int]);
            return false;
        }
        i = i + 1;
    }
    assert(line@.subrange(start as int, end as int) =~= word@);
    true
}

/// Reads a debugger command line: `run` and `pause` map onto the messages of the
/// same name; words are separated by Unicode white space.
pub fn parse_command(line: &str) -> (r: ReplCommand)
    ensures
        r == command_of(line@),
{
    let n = line.unicode_len();
    let mut start: usize = 0;
    while start < n && is_whitespace(line.get_char(start))
        invariant
            n == line@.len(),
            start <= n,
            skip_spaces(line@, start as int) == skip_spaces(line@, 0),
        decreases n - start,
    {
        start = start + 1;
    }
    let mut end: usize = start;
    while end < n && !is_whitespace(line.get_char(end))
        invariant
            n == line@.len(),
            start <= end <= n,
            start == skip_spaces(line@, 0),
            word_end(line@, end as int) == word_end(line@, start as int),
        decreases n - end,
    {
        end = end + 1;
    }
    if end == start {
        ReplCommand::Empty
    } else if word_is(line, start, end, "run") {
        ReplCommand::Run
    } else if word_is(line, start, end, "pause") {
        ReplCommand::Pause
    } else {
        ReplCommand::Invalid
    }
}

/// A debugger attached to a session.
pub struct Debugger<'a> {
    message_channel: MessageChannel<'a>,
    notification_channel: NotificationChannel<'a>,
}

impl<'a> Debugger<'a> {
    pub fn from(gba: &'a Gba) -> Self {
        let (message_channel, notification_channel) = gba.channels();
        Debugger { message_channel, notification_channel }
    }

    /// Blocks until the runner publishes a pause, the point where it has handed
    /// control back, and consumes the notifications buffered until then; the
    /// others are ignored.
    pub fn wait_for_gba(&mut self) {
        self.notification_channel.wait_for(Notification::Pause);
        let _ = self.notification_channel.pop();
    }

    /// Carries out one command line, and returns the command it was read as.
    /// The line sends `message_for` of that command and nothing else; a blank or
    /// unknown line sends nothing and pops nothing. Before `run` the
    /// notifications published so far are dropped, so that an old pause does not
    /// end the wait; after it the call waits for the runner to pause again.
    pub fn execute(&mut self, cmd: &str) -> (r: ReplCommand)
        ensures
            r == command_of(cmd@),
    {
        let command = parse_command(cmd);
        let waits = command == ReplCommand::Run;
        if let Some(message) = message_for(command) {
            if waits {
                let _ = self.notification_channel.pop();
                self.message_channel.send(message);
                self.wait_for_gba();
            } else {
                self.message_channel.send(message);
            }
        }
        command
    }
}

} // verus!
