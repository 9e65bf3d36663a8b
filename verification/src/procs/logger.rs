//! The Logger: receives read-pipe-ends over its control-in and copies each
//! source, line by line, onto its own standard output under a uniform
//! prefix. The receiving and printing loops live with the event loop; the
//! formatting and the per-event decisions are here.

use vstd::prelude::*;
use vstd::string::StringExecFns;

use crate::dec::{append_i64, dec_int};
use crate::fork::{StdIoConf, StdioMode};
use crate::procs::{HasCtlIn, NoCtlOut, Process};

verus! {

/// Recv stdout file descriptors to poll and copy onto the log.
///
/// Rules:
///  - may listen for new file descriptors on its control-in
///  - may channel those file descriptors to stdout
#[derive(Debug)]
pub struct Logger;

impl Process<HasCtlIn, NoCtlOut> for Logger {
    open spec fn spec_name() -> Seq<char> {
        "logger"@
    }

    open spec fn spec_stdio() -> StdIoConf {
        StdIoConf {
            stdin: StdioMode::Null,
            stdout: StdioMode::Inherit,
            stderr: StdioMode::Inherit,
        }
    }

    fn name() -> (s: &'static str)
        ensures
            s@ == Self::spec_name(),
    {
        "logger"
    }

    fn get_stdio() -> (r: StdIoConf)
        ensures
            r == Self::spec_stdio(),
    {
        StdIoConf {
            stdin: StdioMode::Null,
            stdout: StdioMode::Inherit,
            stderr: StdioMode::Inherit,
        }
    }
}

/// One observation of a source pipe by the task that reads it.
#[derive(Debug)]
pub enum ReadEvent {
    /// One whole line arrived.
    Line(String),
    /// End of file: the source closed its write end.
    Eof,
    /// Transient back-pressure.
    WouldBlock,
    /// Any other read error.
    Failed,
}

/// What a logging task does after one observation: maybe print a line, and
/// either keep reading or stop.
pub struct LogStep {
    pub line: Option<String>,
    pub done: bool,
}

/// The line printed for each line read from a source.
pub open spec fn spec_log_line(name: Seq<char>, pid: int, line: Seq<char>) -> Seq<char> {
    "LOG:"@ + name + "["@ + dec_int(pid) + "]: "@ + line
}

/// The line printed when a source reaches end of file.
pub open spec fn spec_shutdown_line(pid: int) -> Seq<char> {
    dec_int(pid) + " LOGGING SHUTDOWN"@
}

/// The line printed on transient back-pressure.
pub open spec fn spec_would_block_line() -> Seq<char> {
    "LOG: WOULD_BLOCK"@
}

/// The line printed when a source fails with a real read error.
pub open spec fn spec_read_error_line(pid: int) -> Seq<char> {
    dec_int(pid) + " LOG: error reading from pipe"@
}

/// Formats one log line: `LOG:<role>[<pid>]: <line>`.
pub fn format_log_line(name: &str, pid: i32, line: &str) -> (r: String)
    ensures
        r@ == spec_log_line(name@, pid as int, line@),
{
    proof {
        reveal_strlit("LOG:");
        reveal_strlit("[");
        reveal_strlit("]: ");
    }
    let mut s = String::from_str("LOG:");
    s.append(name);
    s.append("[");
    append_i64(&mut s, pid as i64);
    s.append("]: ");
    s.append(line);
    proof {
        assert(s@ =~= spec_log_line(name@, pid as int, line@));
    }
    s
}

/// Formats the end-of-file line: `<pid> LOGGING SHUTDOWN`.
pub fn format_shutdown_line(pid: i32) -> (r: String)
    ensures
        r@ == spec_shutdown_line(pid as int),
{
    proof {
        reveal_strlit(" LOGGING SHUTDOWN");
    }
    let mut s = String::new();
    append_i64(&mut s, pid as i64);
    s.append(" LOGGING SHUTDOWN");
    proof {
        assert(s@ =~= spec_shutdown_line(pid as int));
    }
    s
}

/// Whether a newline byte occurs in a buffer.
pub open spec fn has_newline(s: Seq<u8>) -> bool {
    exists|i: int| 0 <= i < s.len() && s[i] == 10u8
}

/// Assembles the byte stream of one source into whole lines: bytes are
/// pushed as they arrive and each completed line is taken off the front.
pub struct LineBuffer {
    held: Vec<u8>,
}

impl View for LineBuffer {
    type V = Seq<u8>;

    closed spec fn view(&self) -> Seq<u8> {
        self.held@
    }
}

impl LineBuffer {
    pub fn new() -> (r: LineBuffer)
        ensures
            r@ =~= Seq::<u8>::empty(),
    {
        LineBuffer { held: Vec::new() }
    }

    /// Appends freshly read bytes to the held tail.
    pub fn push_bytes(&mut self, bytes: &[u8])
        ensures
            final(self)@ == old(self)@ + bytes@,
    {
        let n = bytes.len();
        let mut i: usize = 0;
        while i < n
            invariant
                0 <= i <= n,
                n == bytes@.len(),
                self@ == old(self)@ + bytes@.take(i as int),
            decreases n - i,
        {
            self.held.push(bytes[i]);
            proof {
                assert(self@ =~= old(self)@ + bytes@.take(i as int + 1));
            }
            i = i + 1;
        }
        proof {
            assert(bytes@.take(n as int) =~= bytes@);
        }
    }

    /// Takes the first completed line off the front: the bytes before the
    /// first newline, which is consumed with them. Without a newline the
    /// buffer is left as it is.
    pub fn next_line(&mut self) -> (r: Option<Vec<u8>>)
        ensures
            r is Some <==> has_newline(old(self)@),
            r matches Some(line) ==> !has_newline(line@) && old(self)@ =~= line@ + seq![10u8]
                + final(self)@,
            r is None ==> *final(self) == *old(self),
    {
        let n = self.held.len();
        let mut j: usize = 0;
        let mut found = false;
        while j < n && !found
            invariant
                0 <= j <= n,
                n == self@.len(),
                *self == *old(self),
                !found ==> forall|k: int| 0 <= k < j ==> self@[k] != 10u8,
                found ==> j < n && self@[j as int] == 10u8 && forall|k: int|
                    0 <= k < j ==> self@[k] != 10u8,
            decreases n - j + (if found { 0int } else { 1int }),
        {
            if self.held[j] == 10u8 {
                found = true;
            } else {
                j = j + 1;
            }
        }
        if !found {
            return None;
        }
        let mut line: Vec<u8> = Vec::new();
        let mut i: usize = 0;
        while i < j
            invariant
                0 <= i <= j < self@.len(),
                *self == *old(self),
                line@ == self@.take(i as int),
            decreases j - i,
        {
            line.push(self.held[i]);
            proof {
                assert(line@ =~= self@.take(i as int + 1));
            }
            i = i + 1;
        }
        let mut rest: Vec<u8> = Vec::new();
        let mut k: usize = j + 1;
        while k < n
            invariant
                j + 1 <= k <= n,
                n == self@.len(),
                *self == *old(self),
                rest@ == self@.subrange(j as int + 1, k as int),
            decreases n - k,
        {
            rest.push(self.held[k]);
            proof {
                assert(rest@ =~= self@.subrange(j as int + 1, k as int + 1));
            }
            k = k + 1;
        }
        self.held = rest;
        proof {
            assert(old(self)@ =~= line@ + seq![10u8] + final(self)@);
        }
        Some(line)
    }
}

/// Decides what one logging task does after one observation of its source:
/// a line is copied out under the prefix and reading continues; end of file
/// prints the shutdown line and stops; back-pressure prints a note and
/// continues; any other read error prints an error line and stops.
pub fn logger_step(name: &str, pid: i32, event: ReadEvent) -> (r: LogStep)
    ensures
        match event {
            ReadEvent::Line(l) => (r.line matches Some(s) && s@ == spec_log_line(
                name@,
                pid as int,
                l@,
            )) && !r.done,
            ReadEvent::Eof => (r.line matches Some(s) && s@ == spec_shutdown_line(pid as int))
                && r.done,
            ReadEvent::WouldBlock => (r.line matches Some(s) && s@ == spec_would_block_line())
                && !r.done,
            ReadEvent::Failed => (r.line matches Some(s) && s@ == spec_read_error_line(pid as int))
                && r.done,
        },
{
    match event {
        ReadEvent::Line(l) => LogStep { line: Some(format_log_line(name, pid, l.as_str())), done: false },
        ReadEvent::Eof => LogStep { line: Some(format_shutdown_line(pid)), done: true },
        ReadEvent::WouldBlock => {
            let s = String::from_str("LOG: WOULD_BLOCK");
            LogStep { line: Some(s), done: false }
        },
        ReadEvent::Failed => {
            proof {
                reveal_strlit(" LOG: error reading from pipe");
            }
            let mut s = String::new();
            append_i64(&mut s, pid as i64);
            s.append(" LOG: error reading from pipe");
            proof {
                assert(s@ =~= spec_read_error_line(pid as int));
            }
            LogStep { line: Some(s), done: true }
        },
    }
}

} // verus!
