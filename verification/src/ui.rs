//! The state of the terminal chat client: the transcript of shown messages,
//! the line being typed, and what each incoming frame and key press does.

use vstd::prelude::*;
use crate::clock::{
    formatted_text, get_string_time, local_time_in_range, offset_in_range, spec_string_time, timestamp_in_range,
    MAX_OFFSET_SECONDS, MAX_UNIX_TIMESTAMP, MIN_UNIX_TIMESTAMP,
};
use crate::messages::ChatMessageUnAuth;
use crate::server::{end_stream, end_stream_text};
use crate::text::{line_count, spec_line_count, spec_trimmed, trim_white_space};

verus! {

/// The most messages the transcript holds.
pub const MAX_SHOWN_MESSAGES: usize = 1000;

/// The separator between two messages of the transcript: an empty line.
pub open spec fn message_separator() -> Seq<char> {
    seq!['\n', '\n']
}

/// `parts` joined with `separator` between each two of them.
pub open spec fn spec_join(parts: Seq<Seq<char>>, separator: Seq<char>) -> Seq<char>
    decreases parts.len(),
{
    if parts.len() == 0 {
        Seq::empty()
    } else if parts.len() == 1 {
        parts[0]
    } else {
        spec_join(parts.drop_last(), separator) + separator + parts.last()
    }
}

/// The texts of a list of strings.
pub open spec fn texts(strings: Seq<String>) -> Seq<Seq<char>> {
    strings.map_values(|s: String| s@)
}

/// Joins `messages` with an empty line between each two of them.
pub fn join_messages(messages: &Vec<String>) -> (joined: String)
    ensures
        joined@ == spec_join(texts(messages@), message_separator()),
{
    let mut joined = String::new();
    let separator = "\n\n";
    proof {
        reveal_strlit("\n\n");
    }
    let count = messages.len();
    for i in 0..count
        invariant
            count == messages@.len(),
            separator@ == message_separator(),
            joined@ == spec_join(texts(messages@).take(i as int), message_separator()),
    {
        let ghost parts = texts(messages@);
        assert(parts.take(i + 1).drop_last() == parts.take(i as int));
        if i != 0 {
            joined.append(separator);
        }
        joined.append(messages[i].as_str());
    }
    assert(texts(messages@).take(count as int) == texts(messages@));
    joined
}

/// A key the user pressed.
pub enum KeyInput {
    Char(char),
    Backspace,
    Enter,
    Esc,
    Other,
}

/// The mathematical state of the client screen.
pub struct ChatViewModel {
    /// The shown messages, oldest first.
    pub messages: Seq<Seq<char>>,
    /// The line being typed.
    pub input: Seq<char>,
    /// Whether the user asked to quit.
    pub should_quit: bool,
}

/// How a chat message is shown: its local time, its author and its text.
pub open spec fn spec_display_line(chat: ChatMessageUnAuth, offset_seconds: i32) -> Seq<char> {
    seq!['['] + spec_string_time(chat.timestamp, offset_seconds) + seq![']', ' '] + chat.username@
        + seq![':', '\n'] + chat.content@
}

/// The screen after an incoming text frame `raw`, where `parsed` is the chat
/// message the frame holds, if any: a message is shown formatted, the
/// end-of-stream frame is dropped, any other text is shown as it came.
pub open spec fn spec_received(
    m: ChatViewModel,
    raw: Seq<char>,
    parsed: Option<ChatMessageUnAuth>,
    offset_seconds: i32,
) -> ChatViewModel {
    match parsed {
        Some(chat) => ChatViewModel {
            messages: m.messages.push(spec_display_line(chat, offset_seconds)),
            ..m
        },
        None => if raw == end_stream_text() {
            m
        } else {
            ChatViewModel { messages: m.messages.push(raw), ..m }
        },
    }
}

/// Whether the client can take the incoming frame: a message's time can be
/// shown at the offset, and the transcript stays within its limit.
pub open spec fn spec_can_receive(
    m: ChatViewModel,
    raw: Seq<char>,
    parsed: Option<ChatMessageUnAuth>,
    offset_seconds: i32,
) -> bool {
    &&& parsed is Some ==> offset_in_range(offset_seconds)
    &&& parsed matches Some(chat) ==> (timestamp_in_range(chat.timestamp as int) ==> local_time_in_range(
        chat.timestamp as int,
        offset_seconds,
    ))
    &&& spec_received(m, raw, parsed, offset_seconds).messages.len() <= MAX_SHOWN_MESSAGES
}

/// The screen after a key press, with the line to send, if any: a character
/// is typed, backspace deletes the last one, enter sends the trimmed line when
/// it is not empty and clears the line, escape asks to quit.
pub open spec fn spec_key(m: ChatViewModel, key: KeyInput) -> (ChatViewModel, Option<Seq<char>>) {
    match key {
        KeyInput::Char(c) => (ChatViewModel { input: m.input.push(c), ..m }, None),
        KeyInput::Backspace => (
            ChatViewModel {
                input: if m.input.len() > 0 { m.input.drop_last() } else { m.input },
                ..m
            },
            None,
        ),
        KeyInput::Enter => (
            ChatViewModel { input: Seq::empty(), ..m },
            if spec_trimmed(m.input).len() > 0 { Some(spec_trimmed(m.input)) } else { None },
        ),
        KeyInput::Esc => (ChatViewModel { should_quit: true, ..m }, None),
        KeyInput::Other => (m, None),
    }
}

/// The number of lines of the whole transcript.
pub open spec fn spec_total_lines(m: ChatViewModel) -> nat {
    spec_line_count(spec_join(m.messages, message_separator()))
}

/// The number of lines of the newest message, 0 without messages.
pub open spec fn spec_last_lines(m: ChatViewModel) -> nat {
    if m.messages.len() == 0 {
        0
    } else {
        spec_line_count(m.messages.last())
    }
}

/// Whether the scroll position is defined for a message area of
/// `view_height` lines: the counts fit in a machine word, and the transcript
/// alone is not shorter than the area while it overflows it with the newest
/// message counted twice (the subtraction would go below zero there).
pub open spec fn spec_scroll_defined(m: ChatViewModel, view_height: usize) -> bool {
    &&& spec_total_lines(m) + spec_last_lines(m) <= usize::MAX
    &&& !(spec_total_lines(m) < view_height && spec_total_lines(m) + spec_last_lines(m) > view_height)
}

/// The first transcript line shown in a message area of `view_height` lines,
/// so that the bottom of the transcript stays in view.
pub open spec fn spec_scroll(m: ChatViewModel, view_height: usize) -> u16 {
    if spec_total_lines(m) + spec_last_lines(m) > view_height {
        (spec_total_lines(m) - view_height + spec_last_lines(m)) as u16
    } else {
        0
    }
}

/// The client screen.
pub struct ChatView {
    messages: Vec<String>,
    input: String,
    should_quit: bool,
}

impl View for ChatView {
    type V = ChatViewModel;

    closed spec fn view(&self) -> ChatViewModel {
        ChatViewModel { messages: texts(self.messages@), input: self.input@, should_quit: self.should_quit }
    }
}

impl ChatView {
    /// An empty screen.
    pub fn new() -> (view: Self)
        ensures
            view@.messages.len() == 0,
            view@.input.len() == 0,
            !view@.should_quit,
    {
        ChatView { messages: Vec::new(), input: String::new(), should_quit: false }
    }

    /// The shown messages, oldest first.
    pub fn messages(&self) -> (messages: &Vec<String>)
        ensures
            texts(messages@) == self@.messages,
    {
        &self.messages
    }

    /// The line being typed.
    pub fn input(&self) -> (input: &str)
        ensures
            input@ == self@.input,
    {
        self.input.as_str()
    }

    /// Whether the user asked to quit.
    pub fn should_quit(&self) -> (quit: bool)
        ensures
            quit == self@.should_quit,
    {
        self.should_quit
    }

    /// The whole transcript, messages separated by empty lines.
    pub fn transcript(&self) -> (joined: String)
        ensures
            joined@ == spec_join(self@.messages, message_separator()),
    {
        join_messages(&self.messages)
    }

    /// Whether `receive` can take the frame `raw` with the message `parsed`
    /// at `offset_seconds`.
    pub fn can_receive(&self, raw: &String, parsed: &Option<ChatMessageUnAuth>, offset_seconds: i32) -> (ok: bool)
        ensures
            ok == spec_can_receive(self@, raw@, *parsed, offset_seconds),
            parsed matches Some(chat) ==> (ok <==> {
                &&& -93599 <= offset_seconds <= 93599
                &&& (-377705116800 <= chat.timestamp <= 253402300799 ==> -377705116800
                    <= chat.timestamp + offset_seconds <= 253402300799)
                &&& self@.messages.len() < 1000
            }),
    {
        let count = self.messages.len();
        match parsed {
            Some(chat) => {
                let offset_ok = -MAX_OFFSET_SECONDS <= offset_seconds && offset_seconds <= MAX_OFFSET_SECONDS;
                let stamp = chat.timestamp as i128;
                let local = stamp + offset_seconds as i128;
                let in_range = MIN_UNIX_TIMESTAMP as i128 <= stamp && stamp <= MAX_UNIX_TIMESTAMP as i128;
                let local_ok = MIN_UNIX_TIMESTAMP as i128 <= local && local <= MAX_UNIX_TIMESTAMP as i128;
                offset_ok && (!in_range || local_ok) && count < MAX_SHOWN_MESSAGES
            },
            None => {
                let end = end_stream();
                if *raw == end {
                    count <= MAX_SHOWN_MESSAGES
                } else {
                    count < MAX_SHOWN_MESSAGES
                }
            },
        }
    }

    /// Takes an incoming text frame `raw`, with the chat message it holds if
    /// any, showing message times at `offset_seconds`. (The transcript is
    /// never allowed past its limit: where it would be, the client stops
    /// instead, which `requires` leaves out.)
    pub fn receive(&mut self, raw: String, parsed: Option<ChatMessageUnAuth>, offset_seconds: i32)
        requires
            spec_can_receive(old(self)@, raw@, parsed, offset_seconds),
        ensures
            final(self)@ == spec_received(old(self)@, raw@, parsed, offset_seconds),
            parsed matches Some(chat) ==> final(self)@.messages == old(self)@.messages.push(
                seq!['['] + spec_string_time(chat.timestamp, offset_seconds) + seq![']', ' ']
                    + chat.username@ + seq![':', '\n'] + chat.content@,
            ),
    {
        let ghost before = texts(self.messages@);
        match parsed {
            Some(chat) => {
                let time = get_string_time(chat.timestamp, offset_seconds);
                let mut line = String::new();
                proof {
                    reveal_strlit("[");
                    reveal_strlit("] ");
                    reveal_strlit(":\n");
                }
                line.append("[");
                line.append(time.as_str());
                line.append("] ");
                line.append(chat.username.as_str());
                line.append(":\n");
                line.append(chat.content.as_str());
                assert(line@ == spec_display_line(chat, offset_seconds));
                self.messages.push(line);
                assert(texts(self.messages@) == before.push(spec_display_line(chat, offset_seconds)));
            },
            None => {
                let end = end_stream();
                if raw == end {
                } else {
                    let ghost text = raw@;
                    self.messages.push(raw);
                    assert(texts(self.messages@) == before.push(text));
                }
            },
        }
    }

    /// Takes a key press; returns the line to send, if any.
    pub fn key(&mut self, key: KeyInput) -> (to_send: Option<String>)
        ensures
            final(self)@ == spec_key(old(self)@, key).0,
            match to_send {
                Some(text) => spec_key(old(self)@, key).1 == Some(text@),
                None => spec_key(old(self)@, key).1 is None,
            },
            key is Enter ==> final(self)@.input.len() == 0,
            key is Enter && spec_trimmed(old(self)@.input).len() > 0 ==> (to_send matches Some(text)
                && text@ == spec_trimmed(old(self)@.input)),
            key is Enter && spec_trimmed(old(self)@.input).len() == 0 ==> to_send is None,
    {
        match key {
            KeyInput::Char(c) => {
                self.input.push(c);
                None
            },
            KeyInput::Backspace => {
                self.input.pop();
                None
            },
            KeyInput::Enter => {
                let trimmed = trim_white_space(self.input.as_str());
                let to_send = if !trimmed.as_str().is_empty() {
                    Some(trimmed)
                } else {
                    None
                };
                self.input.clear();
                to_send
            },
            KeyInput::Esc => {
                self.should_quit = true;
                None
            },
            KeyInput::Other => None,
        }
    }

    /// The line counts of the transcript and of its newest message.
    fn line_counts(&self) -> (counts: (usize, usize))
        ensures
            counts.0 == spec_total_lines(self@),
            counts.1 == spec_last_lines(self@),
    {
        let joined = self.transcript();
        let total = line_count(joined.as_str());
        let count = self.messages.len();
        let last = if count == 0 {
            0
        } else {
            line_count(self.messages[count - 1].as_str())
        };
        (total, last)
    }

    /// Whether `scroll` is defined for a message area of `view_height` lines.
    pub fn scroll_is_defined(&self, view_height: usize) -> (defined: bool)
        ensures
            defined == spec_scroll_defined(self@, view_height),
    {
        let (total, last) = self.line_counts();
        match total.checked_add(last) {
            Some(height) => !(total < view_height && height > view_height),
            None => false,
        }
    }

    /// The first transcript line to show in a message area of `view_height`
    /// lines.
    pub fn scroll(&self, view_height: usize) -> (scroll: u16)
        requires
            spec_scroll_defined(self@, view_height),
        ensures
            scroll == spec_scroll(self@, view_height),
    {
        let (total, last) = self.line_counts();
        let height = total + last;
        if height > view_height {
            (total - view_height + last) as u16
        } else {
            0
        }
    }
}

/// Typing a character and deleting it again leaves the screen as it was.
pub proof fn lemma_backspace_undoes_typing(m: ChatViewModel, c: char)
    ensures
        spec_key(spec_key(m, KeyInput::Char(c)).0, KeyInput::Backspace).0 == m,
{
    assert(m.input.push(c).drop_last() == m.input);
}

/// Key presses never change the transcript.
pub proof fn lemma_keys_keep_transcript(m: ChatViewModel, key: KeyInput)
    ensures
        spec_key(m, key).0.messages == m.messages,
{
}

/// The end-of-stream frame that closes a history stream never shows on the
/// screen, and does not change it.
pub proof fn lemma_end_of_stream_not_shown(m: ChatViewModel, offset_seconds: i32)
    ensures
        spec_received(m, end_stream_text(), None, offset_seconds) == m,
{
}

/// Every other frame adds exactly one line at the bottom of the transcript,
/// and leaves the line being typed alone.
pub proof fn lemma_receive_appends_one(
    m: ChatViewModel,
    raw: Seq<char>,
    parsed: Option<ChatMessageUnAuth>,
    offset_seconds: i32,
)
    requires
        parsed is Some || raw != end_stream_text(),
    ensures
        spec_received(m, raw, parsed, offset_seconds).messages.len() == m.messages.len() + 1,
        spec_received(m, raw, parsed, offset_seconds).messages.drop_last() == m.messages,
        spec_received(m, raw, parsed, offset_seconds).input == m.input,
{
    assert(m.messages.push(raw).drop_last() == m.messages);
    if let Some(chat) = parsed {
        assert(m.messages.push(spec_display_line(chat, offset_seconds)).drop_last() == m.messages);
    }
}

/// Sending a line with enter always leaves an empty line to type, and sends
/// nothing when the line is only white space.
pub proof fn lemma_enter_clears_input(m: ChatViewModel)
    ensures
        spec_key(m, KeyInput::Enter).0.input.len() == 0,
        spec_key(m, KeyInput::Enter).0.messages == m.messages,
        spec_trimmed(m.input).len() == 0 ==> spec_key(m, KeyInput::Enter).1 is None,
        spec_trimmed(m.input).len() > 0 ==> spec_key(m, KeyInput::Enter).1 == Some(spec_trimmed(m.input)),
{
}

/// A chat message is shown as `[`, its time as `time` formats it at exactly
/// the given offset (east or west of UTC, whole hours or not), or `Invalid
/// date` for a timestamp outside the calendar range, then `] `, its author,
/// `:`, a line break and its text; it goes at the bottom of the transcript.
pub proof fn lemma_chat_message_line(
    m: ChatViewModel,
    raw: Seq<char>,
    chat: ChatMessageUnAuth,
    offset_seconds: i32,
)
    ensures
        spec_received(m, raw, Some(chat), offset_seconds).messages == m.messages.push(
            seq!['['] + (if -377705116800 <= chat.timestamp <= 253402300799 {
                formatted_text(chat.timestamp, offset_seconds, "[year]-[month]-[day] [hour]:[minute]"@)
            } else {
                "Invalid date"@
            }) + seq![']', ' '] + chat.username@ + seq![':', '\n'] + chat.content@,
        ),
        spec_received(m, raw, Some(chat), offset_seconds).input == m.input,
        spec_received(m, raw, Some(chat), offset_seconds).should_quit == m.should_quit,
{
}

/// A chat message can always be taken while the transcript is below its
/// limit, at every valid offset, negative ones included, at which the
/// wall-clock date of its timestamp stays in the calendar range.
pub proof fn lemma_chat_message_accepted(
    m: ChatViewModel,
    raw: Seq<char>,
    chat: ChatMessageUnAuth,
    offset_seconds: i32,
)
    requires
        -93599 <= offset_seconds <= 93599,
        -377705116800 <= chat.timestamp <= 253402300799 ==> -377705116800 <= chat.timestamp
            + offset_seconds <= 253402300799,
        m.messages.len() < 1000,
    ensures
        spec_can_receive(m, raw, Some(chat), offset_seconds),
{
}

/// Any other text frame can be taken while the transcript is below its limit,
/// and the end-of-stream frame always can be while it is within it.
pub proof fn lemma_text_frame_accepted(m: ChatViewModel, raw: Seq<char>, offset_seconds: i32)
    ensures
        m.messages.len() < 1000 ==> spec_can_receive(m, raw, None, offset_seconds),
        m.messages.len() <= 1000 && raw == "End stream"@ ==> spec_can_receive(m, raw, None, offset_seconds),
{
}

/// When the transcript fits in the message area, it is shown from its first line.
pub proof fn lemma_fitting_transcript_not_scrolled(m: ChatViewModel, view_height: usize)
    requires
        spec_total_lines(m) + spec_last_lines(m) <= view_height,
    ensures
        spec_scroll_defined(m, view_height),
        spec_scroll(m, view_height) == 0,
{
}

} // verus!
