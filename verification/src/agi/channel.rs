//! The decisions of an AGI channel around one command round trip: whether a
//! command may start, what each response line means, and the state the
//! channel is left in. The connection's reads and writes are done by the
//! caller, which hands each line read to this state machine.
use vstd::prelude::*;
use crate::text::{trim_chars, trim_str, starts_with, strip_prefix_str, str_eq, push_char, concat_str};
use crate::agi::error::AgiError;
use crate::agi::response::{AgiResponse, ResponseView, ParseOutcome, parse_spec, parse_panics};

verus! {

/// tracks whether a command round-trip is currently in progress
#[derive(PartialEq, Eq, Structural, Clone, Copy, Debug)]
pub enum ChannelState {
    /// ready to accept the next command
    Ready,
    /// write has been sent; waiting for the response line(s)
    InFlight,
    /// a previous I/O error left the stream in an undefined state
    Poisoned,
}

/// The command state of one AGI connection.
pub struct CommandChannel {
    hung_up: bool,
    state: ChannelState,
    /// text of a `520-` usage response being collected
    usage: Option<String>,
}

/// Abstract state of a channel.
pub struct ChannelView {
    pub hung_up: bool,
    pub state: ChannelState,
    pub usage: Option<Seq<char>>,
}

/// What the caller does after handing over a line.
pub enum LineOutcome {
    /// read another line
    ReadMore,
    /// the command is over
    Done(Result<AgiResponse, AgiError>),
}

/// `520 End of proper usage.`
pub open spec fn usage_end() -> Seq<char> {
    "520 End of proper usage."@
}

/// The usage text extended by one continuation line.
pub open spec fn usage_extend(usage: Seq<char>, line: Seq<char>) -> Seq<char> {
    if usage.len() == 0 { line } else { usage.push('\n') + line }
}

impl CommandChannel {
    pub closed spec fn view(&self) -> ChannelView {
        ChannelView {
            hung_up: self.hung_up,
            state: self.state,
            usage: match self.usage { Some(u) => Some(u@), None => None },
        }
    }

    /// A fresh connection: ready, not hung up.
    pub fn new() -> (r: Self)
        ensures
            r.view() == (ChannelView { hung_up: false, state: ChannelState::Ready, usage: None }),
    {
        CommandChannel { hung_up: false, state: ChannelState::Ready, usage: None }
    }

    /// Whether the far end has hung up.
    pub fn is_hung_up(&self) -> (r: bool)
        ensures
            r == self.view().hung_up,
    {
        self.hung_up
    }

    /// Whether the channel is collecting the lines of a usage message.
    pub fn collecting_usage(&self) -> (r: bool)
        ensures
            r == (self.view().usage is Some),
    {
        self.usage.is_some()
    }

    /// The round-trip state.
    pub fn state(&self) -> (r: ChannelState)
        ensures
            r == self.view().state,
    {
        self.state
    }

    /// Starts a command: refused while another is in flight, after an I/O
    /// failure, or once the channel hung up; otherwise the channel is in flight.
    pub fn begin(&mut self) -> (r: Result<(), AgiError>)
        ensures
            match begin_refusal(old(self).view()) {
                Some(e) => r == Err::<(), AgiError>(e) && final(self).view() == old(self).view(),
                None => r is Ok,
            },
            match old(self).view().state {
                ChannelState::InFlight => r matches Err(AgiError::CommandInFlight) && final(self).view() == old(self).view(),
                ChannelState::Poisoned => r matches Err(AgiError::ChannelPoisoned) && final(self).view() == old(self).view(),
                ChannelState::Ready => if old(self).view().hung_up {
                    r matches Err(AgiError::ChannelHungUp) && final(self).view() == old(self).view()
                } else {
                    r is Ok && final(self).view() == (ChannelView { state: ChannelState::InFlight, usage: None, ..old(self).view() })
                },
            },
    {
        match self.state {
            ChannelState::InFlight => return Err(AgiError::CommandInFlight),
            ChannelState::Poisoned => return Err(AgiError::ChannelPoisoned),
            ChannelState::Ready => {},
        }
        if self.hung_up {
            return Err(AgiError::ChannelHungUp);
        }
        self.state = ChannelState::InFlight;
        self.usage = None;
        Ok(())
    }

    /// An I/O failure while writing or reading: the stream is left in an
    /// undefined state.
    pub fn io_failed(&mut self, details: String) -> (e: AgiError)
        ensures
            e matches AgiError::Io { details: d } && d@ == details@,
            final(self).view() == (ChannelView { state: ChannelState::Poisoned, usage: None, ..old(self).view() }),
    {
        self.state = ChannelState::Poisoned;
        self.usage = None;
        AgiError::Io { details }
    }

    /// A line read while the command is in flight (the empty string at end
    /// of input).
    pub fn on_line(&mut self, line: &str) -> (r: LineOutcome)
        requires
            old(self).view().state == ChannelState::InFlight,
            old(self).view().usage is None ==> !parse_panics(line@),
        ensures
            line_spec(old(self).view(), line@, final(self).view(), r),
    {
        let was_collecting = self.usage.is_some();
        if line.unicode_len() == 0 {
            self.hung_up = true;
            self.state = ChannelState::Ready;
            self.usage = None;
            return LineOutcome::Done(Err(AgiError::ChannelHungUp));
        }
        if was_collecting {
            let trimmed = trim_str(line);
            let end = "520 End of proper usage.";
            if str_eq(trimmed, end) {
                let mut usage: Option<String> = None;
                std::mem::swap(&mut usage, &mut self.usage);
                self.state = ChannelState::Ready;
                let message = match usage {
                    Some(u) => u,
                    None => String::new(),
                };
                return LineOutcome::Done(Err(AgiError::CommandFailed { code: 520, message }));
            }
            let mut usage: Option<String> = None;
            std::mem::swap(&mut usage, &mut self.usage);
            let mut u = match usage {
                Some(u) => u,
                None => String::new(),
            };
            if u.as_str().unicode_len() > 0 {
                push_char(&mut u, '\n');
            }
            vstd::string::StringExecFns::append(&mut u, trimmed);
            self.usage = Some(u);
            return LineOutcome::ReadMore;
        }
        if let Some(stripped) = strip_prefix_str(line, "520-") {
            proof {
                reveal_strlit("520-");
            }
            self.usage = Some(trim_str(stripped).to_owned());
            return LineOutcome::ReadMore;
        }
        let response = match AgiResponse::parse(line) {
            Ok(r) => r,
            Err(e) => {
                self.state = ChannelState::Poisoned;
                return LineOutcome::Done(Err(e));
            },
        };
        if response.code == 511 {
            self.hung_up = true;
            self.state = ChannelState::Ready;
            return LineOutcome::Done(Err(AgiError::ChannelHungUp));
        }
        self.state = ChannelState::Ready;
        LineOutcome::Done(Ok(response))
    }
}

/// What a line read in flight does, from state `s` to state `t` with outcome `r`.
pub open spec fn line_spec(s: ChannelView, line: Seq<char>, t: ChannelView, r: LineOutcome) -> bool {
    if line.len() == 0 {
        // end of input: the channel hung up
        &&& t == (ChannelView { hung_up: true, state: ChannelState::Ready, usage: None })
        &&& r matches LineOutcome::Done(Err(AgiError::ChannelHungUp))
    } else if s.usage is Some {
        if trim_chars(line) == usage_end() {
            &&& t == (ChannelView { state: ChannelState::Ready, usage: None, ..s })
            &&& r matches LineOutcome::Done(Err(AgiError::CommandFailed { code, message }))
            &&& code == 520 && message@ == s.usage->0
        } else {
            &&& t == (ChannelView { usage: Some(usage_extend(s.usage->0, trim_chars(line))), ..s })
            &&& r is ReadMore
        }
    } else if starts_with(line, "520-"@) {
        &&& t == (ChannelView { usage: Some(trim_chars(line.subrange(4, line.len() as int))), ..s })
        &&& r is ReadMore
    } else {
        match parse_spec(line) {
            ParseOutcome::Invalid(raw) => {
                &&& t == (ChannelView { state: ChannelState::Poisoned, ..s })
                &&& r matches LineOutcome::Done(Err(AgiError::InvalidResponse { raw: x }))
                &&& x@ == raw
            },
            ParseOutcome::Parsed(v) => if v.code == 511 {
                &&& t == (ChannelView { hung_up: true, state: ChannelState::Ready, ..s })
                &&& r matches LineOutcome::Done(Err(AgiError::ChannelHungUp))
            } else {
                &&& t == (ChannelView { state: ChannelState::Ready, ..s })
                &&& r matches LineOutcome::Done(Ok(resp))
                &&& resp.view() == v
            },
            ParseOutcome::Panics => false,
        }
    }
}


/// Why the next command would be refused in state `v`, if it would be.
pub open spec fn begin_refusal(v: ChannelView) -> Option<AgiError> {
    match v.state {
        ChannelState::InFlight => Some(AgiError::CommandInFlight),
        ChannelState::Poisoned => Some(AgiError::ChannelPoisoned),
        ChannelState::Ready => if v.hung_up { Some(AgiError::ChannelHungUp) } else { None },
    }
}

/// After a line of a command's reply, the next command is refused as the
/// reply left the channel: while the reply is still being read it is in
/// flight; an unparseable reply poisons the channel; end of input or a 511
/// reply leaves it hung up; any other finished reply lets the next command
/// through unless the channel had already hung up.
pub proof fn lemma_refusal_after_line(s: ChannelView, line: Seq<char>, t: ChannelView, r: LineOutcome)
    requires
        s.state == ChannelState::InFlight,
        line_spec(s, line, t, r),
    ensures
        r is ReadMore ==> begin_refusal(t) == Some(AgiError::CommandInFlight),
        r matches LineOutcome::Done(Err(AgiError::InvalidResponse { .. })) ==> begin_refusal(t) == Some(
            AgiError::ChannelPoisoned,
        ),
        r matches LineOutcome::Done(Err(AgiError::ChannelHungUp)) ==> begin_refusal(t) == Some(AgiError::ChannelHungUp),
        r matches LineOutcome::Done(Ok(_)) ==> begin_refusal(t) == (if s.hung_up { Some(AgiError::ChannelHungUp) } else { None::<AgiError> }),
{
}

/// After an I/O failure the next command is refused as poisoned.
pub proof fn lemma_refusal_after_io_failure(s: ChannelView, t: ChannelView)
    requires
        t == (ChannelView { state: ChannelState::Poisoned, usage: None, ..s }),
    ensures
        begin_refusal(t) == Some(AgiError::ChannelPoisoned),
{
}

} // verus!
