//! Log messages.
//!
//! A message goes to the console, or to the kernel's logging subsystem.
use crate::printk::{
    console, lemma_line_printed, printed, printkln, prints, prints_whole_chunks,
};
use crate::raw::{Call, LOG_LEVEL_DBG, LOG_LEVEL_ERR, LOG_LEVEL_INF, LOG_LEVEL_WRN};
use vstd::prelude::*;
use vstd::string::*;

verus! {

/// The importance of a message.
#[derive(Clone, Copy, Debug, PartialEq, Eq, Structural)]
pub enum Level {
    /// Something failed.
    Error,
    /// Something may be wrong.
    Warn,
    /// Useful to know.
    Info,
    /// Useful for debugging.
    Debug,
    /// Even less important.
    Trace,
}

/// The least important messages that are logged.
pub fn max_level() -> (r: Level)
    ensures
        r == Level::Info,
{
    Level::Info
}

impl Level {
    /// The name of a level.
    pub open spec fn name(self) -> Seq<char> {
        match self {
            Level::Error => "ERROR"@,
            Level::Warn => "WARN"@,
            Level::Info => "INFO"@,
            Level::Debug => "DEBUG"@,
            Level::Trace => "TRACE"@,
        }
    }

    /// The level of the kernel's logging subsystem, which has none below debugging.
    pub open spec fn severity(self) -> u32 {
        match self {
            Level::Error => LOG_LEVEL_ERR,
            Level::Warn => LOG_LEVEL_WRN,
            Level::Info => LOG_LEVEL_INF,
            Level::Debug => LOG_LEVEL_DBG,
            Level::Trace => LOG_LEVEL_DBG,
        }
    }

    /// The name of a level.
    pub fn as_str(&self) -> (r: &'static str)
        ensures
            r@ == self.name(),
    {
        match self {
            Level::Error => "ERROR",
            Level::Warn => "WARN",
            Level::Info => "INFO",
            Level::Debug => "DEBUG",
            Level::Trace => "TRACE",
        }
    }
}

/// Messages go to the console.
pub struct PrintkLogger;

impl PrintkLogger {
    /// Every message is logged.
    pub fn enabled(&self) -> (r: bool)
        ensures
            r,
    {
        true
    }

    /// Log a message: its level, what it is about, and its text.
    pub fn log(&self, level: Level, target: &str, args: &str) -> (calls: Vec<Call>)
        ensures
            prints(
                calls@,
                printed(
                    vstd::utf8::encode_utf8(
                        level.name() + ":"@ + target@ + ": "@ + args@,
                    ).push(10),
                ),
            ),
    {
        let mut line = String::new();
        line.append(level.as_str());
        line.append(":");
        line.append(target);
        line.append(": ");
        line.append(args);
        assert(line@ =~= level.name() + ":"@ + target@ + ": "@ + args@);
        printkln(line.as_str())
    }

    /// Nothing is held back.
    pub fn flush(&self) {
    }
}

/// Messages go to the kernel's logging subsystem.
pub struct ZlogLogger;

impl ZlogLogger {
    /// Every message is logged.
    pub fn enabled(&self) -> (r: bool)
        ensures
            r,
    {
        true
    }

    /// Log a message, as a string that ends with a zero byte: what it is about, and its text.
    pub fn log(&self, level: Level, target: &str, args: &str) -> (call: Call)
        ensures
            call matches Call::LogMessage { severity, message } && severity == level.severity()
                && message@ == vstd::utf8::encode_utf8(target@ + ": "@ + args@).push(0),
    {
        let severity: u32 = match level {
            Level::Error => LOG_LEVEL_ERR,
            Level::Warn => LOG_LEVEL_WRN,
            Level::Info => LOG_LEVEL_INF,
            Level::Debug => LOG_LEVEL_DBG,
            Level::Trace => LOG_LEVEL_DBG,
        };
        let mut line = String::new();
        line.append(target);
        line.append(": ");
        line.append(args);
        assert(line@ =~= target@ + ": "@ + args@);
        let mut message = to_bytes(line.as_str());
        message.push(0);
        Call::LogMessage { severity, message }
    }

    /// Nothing is held back.
    pub fn flush(&self) {
    }
}

fn to_bytes(s: &str) -> (r: Vec<u8>)
    ensures
        r@ == s.spec_bytes(),
{
    let bytes = s.as_bytes();
    let mut r: Vec<u8> = Vec::new();
    let mut i: usize = 0;
    while i < bytes.len()
        invariant
            i <= bytes@.len(),
            r@ == bytes@.take(i as int),
        decreases bytes@.len() - i,
    {
        r.push(bytes[i]);
        i = i + 1;
        assert(bytes@.take(i as int) =~= bytes@.take(i - 1).push(bytes@[i - 1]));
    }
    assert(bytes@.take(bytes@.len() as int) =~= bytes@);
    r
}

/// A message on the console is one line: the level, what the message is about, and its text.
pub proof fn law_message_is_printed(
    logger: PrintkLogger,
    level: Level,
    target: &str,
    args: &str,
    calls: Vec<Call>,
)
    requires
        call_ensures(PrintkLogger::log, (&logger, level, target, args), calls),
    ensures
        ({
            let name = match level {
                Level::Error => "ERROR"@,
                Level::Warn => "WARN"@,
                Level::Info => "INFO"@,
                Level::Debug => "DEBUG"@,
                Level::Trace => "TRACE"@,
            };
            console(calls@) == vstd::utf8::encode_utf8(
                name + ":"@ + target@ + ": "@ + args@,
            ).push(10)
        }),
        prints_whole_chunks(calls@),
{
    lemma_line_printed(calls@, level.name() + ":"@ + target@ + ": "@ + args@);
}

/// A message to the kernel's logging subsystem is what it is about and its text, ends with its only
/// added zero byte, and has the kernel's number for the level.
pub proof fn law_message_is_logged(
    logger: ZlogLogger,
    level: Level,
    target: &str,
    args: &str,
    call: Call,
)
    requires
        call_ensures(ZlogLogger::log, (&logger, level, target, args), call),
    ensures
        call matches Call::LogMessage { severity, message } && {
            &&& severity == match level {
                Level::Error => 1u32,
                Level::Warn => 2,
                Level::Info => 3,
                Level::Debug => 4,
                Level::Trace => 4,
            }
            &&& message@.last() == 0
            &&& message@.drop_last() == vstd::utf8::encode_utf8(target@ + ": "@ + args@)
        },
{
    let text = vstd::utf8::encode_utf8(target@ + ": "@ + args@);
    assert(text.push(0).drop_last() =~= text);
}

/// The levels have their names.
pub proof fn law_level_names(level: Level, name: &'static str)
    requires
        call_ensures(Level::as_str, (&level,), name),
    ensures
        level == Level::Error <==> name@ == "ERROR"@,
        level == Level::Warn <==> name@ == "WARN"@,
        level == Level::Info <==> name@ == "INFO"@,
        level == Level::Debug <==> name@ == "DEBUG"@,
        level == Level::Trace <==> name@ == "TRACE"@,
{
    reveal_strlit("ERROR");
    reveal_strlit("WARN");
    reveal_strlit("INFO");
    reveal_strlit("DEBUG");
    reveal_strlit("TRACE");
    assert("ERROR"@[0] == 'E' && "DEBUG"@[0] == 'D' && "TRACE"@[0] == 'T');
    assert("WARN"@[0] == 'W' && "INFO"@[0] == 'I');
}

} // verus!
