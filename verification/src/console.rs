//! The console-attach stream's protocol decisions. The PTY and the RPC
//! stream are pumped outside; which bytes move where is decided here.

use vstd::prelude::*;

verus! {

/// Bytes read from the PTY per chunk sent to the client.
pub const CONSOLE_CHUNK_SIZE: usize = 4096;

/// One inbound message of an attach stream.
#[derive(Debug)]
pub struct ConsoleInput {
    /// The VM addressed; meaningful on the first message.
    pub vm_id: String,
    /// Bytes to write to the console.
    pub data: Vec<u8>,
    /// Whether this message asks for a terminal resize instead of a write.
    pub resize: bool,
    pub cols: u32,
    pub rows: u32,
}

/// One outbound message of an attach stream.
#[derive(Debug)]
pub struct ConsoleOutput {
    pub data: Vec<u8>,
    pub error: bool,
    pub error_message: String,
}

/// Opens an attach session: the first inbound message carries the VM id and
/// possibly initial bytes to write; an empty stream is a caller error.
pub fn console_open(first: Option<ConsoleInput>) -> (r: Result<(String, Vec<u8>), String>)
    ensures
        match first {
            Some(m) => r matches Ok(o) && o.0 == m.vm_id && o.1 == m.data,
            None => r matches Err(e) && e@ == "Empty input stream"@,
        },
{
    match first {
        Some(m) => Ok((m.vm_id, m.data)),
        None => Err(String::from_str("Empty input stream")),
    }
}

/// What to do with one inbound message.
#[derive(Debug)]
pub enum ConsoleAction {
    /// Resize the terminal.
    Resize(u32, u32),
    /// Write these bytes to the PTY and flush.
    Write(Vec<u8>),
    /// Nothing to do.
    Ignore,
}

/// Routes one inbound message: a resize request is honored as such, data is
/// written, and an empty non-resize message does nothing.
pub fn console_input_action(msg: ConsoleInput) -> (r: ConsoleAction)
    ensures
        msg.resize ==> (r matches ConsoleAction::Resize(c, w) && c == msg.cols && w == msg.rows),
        !msg.resize && msg.data@.len() > 0 ==> (r matches ConsoleAction::Write(d) && d == msg.data),
        !msg.resize && msg.data@.len() == 0 ==> r is Ignore,
{
    if msg.resize {
        ConsoleAction::Resize(msg.cols, msg.rows)
    } else if msg.data.len() > 0 {
        ConsoleAction::Write(msg.data)
    } else {
        ConsoleAction::Ignore
    }
}

/// What one PTY read produced.
#[derive(Debug)]
pub enum PtyRead {
    /// End of file: the stream ends.
    Eof,
    /// Bytes to forward.
    Data(Vec<u8>),
    /// The read failed with this message.
    Failed(String),
}

/// Maps one PTY read onto the outbound stream: end of file ends the stream,
/// bytes travel as a plain chunk, and a read error travels as a terminal
/// error message.
pub fn console_read_output(read: PtyRead) -> (r: Option<ConsoleOutput>)
    ensures
        match read {
            PtyRead::Eof => r is None,
            PtyRead::Data(d) => r matches Some(o) && o.data == d && o.error == false
                && o.error_message@.len() == 0,
            PtyRead::Failed(m) => r matches Some(o) && o.data@.len() == 0 && o.error == true
                && o.error_message@ == "PTY read error: "@ + m@,
        },
{
    match read {
        PtyRead::Eof => None,
        PtyRead::Data(d) => Some(
            ConsoleOutput { data: d, error: false, error_message: String::new() },
        ),
        PtyRead::Failed(m) => {
            let mut message = String::from_str("PTY read error: ");
            message.append(m.as_str());
            Some(ConsoleOutput { data: Vec::new(), error: true, error_message: message })
        },
    }
}

} // verus!
