//! The AGI request prelude: the `agi_*` variables Asterisk sends when a
//! session starts, one `name: value` line each, ended by a blank line.
use vstd::prelude::*;
use crate::text::{
    trim_chars, trim_str, char_index, find_char, starts_with, strip_prefix_str, str_has_char, is_space_char,
    lemma_char_index, lemma_lead_space_exact, lemma_trail_space_exact,
};
use crate::ami::codec::{pairs_view, vget, vindex, vinsert, blen, find_variable, insert_variable};
use crate::agi::error::AgiError;

verus! {

/// Most bytes in one prelude line, its line feed included.
pub const MAX_PRELUDE_LINE_BYTES: usize = 8192;
/// Most bytes in the whole prelude.
pub const MAX_PRELUDE_BYTES: usize = 65536;
/// Most distinct variables in the prelude.
pub const MAX_PRELUDE_VARIABLES: usize = 128;

/// parsed AGI request environment sent by asterisk on connection
pub struct AgiRequest {
    /// all agi_* variables as key-value pairs (key without "agi_" prefix),
    /// each key once
    variables: Vec<(String, String)>,
    /// the TCP peer, as text, when the request came through the server
    peer_addr: Option<String>,
}

/// Why a prelude is rejected; each is reported as
/// `AgiError::InvalidRequest` with the text of `prelude_fault_text`.
pub enum PreludeFault {
    TooLarge,
    Unterminated,
    LineTooLong,
    NoNewline,
    ControlCharacter,
    MissingColon,
    EmptyName,
    TooManyVariables,
}

pub open spec fn prelude_fault_text(f: PreludeFault) -> Seq<char> {
    match f {
        PreludeFault::TooLarge => "AGI prelude exceeds 65536 bytes"@,
        PreludeFault::Unterminated => "AGI prelude ended before its blank-line terminator"@,
        PreludeFault::LineTooLong => "AGI prelude line exceeds 8192 bytes"@,
        PreludeFault::NoNewline => "AGI prelude line ended without a newline"@,
        PreludeFault::ControlCharacter => "AGI prelude line contains a forbidden control character"@,
        PreludeFault::MissingColon => "AGI prelude line is missing ':'"@,
        PreludeFault::EmptyName => "AGI prelude variable name is empty"@,
        PreludeFault::TooManyVariables => "AGI prelude exceeds 128 variables"@,
    }
}

/// What one line read from the connection does to the prelude.
pub enum PreludeStep {
    /// the line set `name` to `value`
    Variable { name: Seq<char>, value: Seq<char> },
    /// the blank line that ends the prelude
    End,
    Fault(PreludeFault),
}

/// The line without its line feed and then without a carriage return.
pub open spec fn line_content(line: Seq<char>) -> Seq<char> {
    let a = line.drop_last();
    if a.len() > 0 && a.last() == '\r' { a.drop_last() } else { a }
}

/// Strips one leading space.
pub open spec fn strip_one_space(v: Seq<char>) -> Seq<char> {
    if v.len() > 0 && v[0] == ' ' { v.drop_first() } else { v }
}

/// The line `line` (as read, line feed included), given the bytes read
/// before it and the variables so far.
pub open spec fn prelude_step(line: Seq<char>, before: nat, vars: Seq<(Seq<char>, Seq<char>)>) -> PreludeStep {
    let n = blen(line);
    if before + n > MAX_PRELUDE_BYTES {
        PreludeStep::Fault(PreludeFault::TooLarge)
    } else if n == 0 {
        PreludeStep::Fault(PreludeFault::Unterminated)
    } else if n > MAX_PRELUDE_LINE_BYTES {
        PreludeStep::Fault(PreludeFault::LineTooLong)
    } else if !(line.len() > 0 && line.last() == '\n') {
        PreludeStep::Fault(PreludeFault::NoNewline)
    } else {
        let content = line_content(line);
        if content.len() == 0 {
            PreludeStep::End
        } else if content.contains('\r') || content.contains('\0') {
            PreludeStep::Fault(PreludeFault::ControlCharacter)
        } else {
            match char_index(content, ':') {
                None => PreludeStep::Fault(PreludeFault::MissingColon),
                Some(c) => {
                    let key = trim_chars(content.subrange(0, c));
                    let value = strip_one_space(content.subrange(c + 1, content.len() as int));
                    let name = if starts_with(key, "agi_"@) { key.subrange(4, key.len() as int) } else { key };
                    if key.len() == 0 || name.len() == 0 {
                        PreludeStep::Fault(PreludeFault::EmptyName)
                    } else if vindex(vars, name) is None && vars.len() >= MAX_PRELUDE_VARIABLES {
                        PreludeStep::Fault(PreludeFault::TooManyVariables)
                    } else {
                        PreludeStep::Variable { name, value }
                    }
                },
            }
        }
    }
}

/// The prelude line `agi_<name>: <value>`, line feed included.
pub open spec fn agi_line(name: Seq<char>, value: Seq<char>) -> Seq<char> {
    "agi_"@ + name + ": "@ + value + seq!['\n']
}

/// A line `agi_<name>: <value>` sets the variable `<name>` to `<value>`: the
/// name is what stands between `agi_` and the first colon, and the value is
/// everything after the colon and one space, colons included. This holds for
/// a name that is not empty, holds no colon and does not end in blank space,
/// for text without carriage returns or NULs, and within the line, prelude
/// and variable limits.
pub proof fn lemma_variable_line(k: Seq<char>, v: Seq<char>, before: nat, vars: Seq<(Seq<char>, Seq<char>)>)
    requires
        k.len() > 0,
        !k.contains(':'),
        !is_space_char(k.last()),
        !k.contains('\r'),
        !k.contains('\0'),
        !v.contains('\r'),
        !v.contains('\0'),
        vstd::utf8::encode_utf8(agi_line(k, v)).len() <= MAX_PRELUDE_LINE_BYTES,
        before + vstd::utf8::encode_utf8(agi_line(k, v)).len() <= MAX_PRELUDE_BYTES,
        vindex(vars, k) is Some || vars.len() < MAX_PRELUDE_VARIABLES,
    ensures
        prelude_step(agi_line(k, v), before, vars) == (PreludeStep::Variable { name: k, value: v }),
{
    reveal_strlit("agi_");
    reveal_strlit(": ");
    let line = agi_line(k, v);
    let ak = "agi_"@ + k;
    let content = ak + ": "@ + v;
    assert(line =~= content.push('\n'));
    assert(line.drop_last() =~= content);
    assert(vstd::utf8::encode_utf8(line).len() > 0);
    if v.len() > 0 {
        assert(content.last() == v.last());
        assert(v.contains(v.last()));
    } else {
        assert(content.last() == ' ');
    }
    assert(line_content(line) == content);
    let c = ak.len() as int;
    assert forall|j: int| 0 <= j < content.len() implies #[trigger] content[j] != '\r' && content[j] != '\0' by {
        if 4 <= j < c {
            assert(content[j] == k[j - 4]);
            assert(k.contains(k[j - 4]));
        } else if j > c + 1 {
            assert(content[j] == v[j - c - 2]);
            assert(v.contains(v[j - c - 2]));
        }
    }
    assert(!content.contains('\r'));
    assert(!content.contains('\0'));
    assert forall|j: int| 0 <= j < c implies #[trigger] content[j] != ':' by {
        if 4 <= j {
            assert(content[j] == k[j - 4]);
            assert(k.contains(k[j - 4]));
        }
    }
    lemma_char_index(content, ':', c);
    assert(content.subrange(0, c) =~= ak);
    lemma_lead_space_exact(ak, 0);
    assert(ak.last() == k.last());
    lemma_trail_space_exact(ak, 0);
    assert(ak.subrange(0, ak.len() as int).subrange(0, ak.len() as int) =~= ak);
    assert(trim_chars(ak) == ak);
    assert(content.subrange(c + 1, content.len() as int) =~= seq![' '] + v);
    assert((seq![' '] + v).drop_first() =~= v);
    assert(starts_with(ak, "agi_"@)) by {
        assert(ak.subrange(0, 4) =~= "agi_"@);
    }
    assert(ak.subrange(4, ak.len() as int) =~= k);
}

/// A prelude being read.
pub struct PreludeParser {
    variables: Vec<(String, String)>,
    total_bytes: usize,
}

/// What the reading loop does after a line.
pub enum PreludeProgress {
    /// read the next line
    NeedLine,
    /// the prelude is complete
    Complete(AgiRequest),
    Failed(AgiError),
}

impl PreludeParser {
    pub closed spec fn vars(&self) -> Seq<(Seq<char>, Seq<char>)> {
        pairs_view(self.variables@)
    }

    pub closed spec fn bytes_read(&self) -> nat {
        self.total_bytes as nat
    }

    pub fn new() -> (r: Self)
        ensures
            r.vars() == Seq::<(Seq<char>, Seq<char>)>::empty(),
            r.bytes_read() == 0,
    {
        let r = PreludeParser { variables: Vec::new(), total_bytes: 0 };
        assert(r.vars() =~= Seq::<(Seq<char>, Seq<char>)>::empty());
        r
    }

    /// Takes one line as read (at most 8193 bytes, line feed included; the
    /// empty string at end of input).
    pub fn feed_line(&mut self, line: &str) -> (r: PreludeProgress)
        requires
            old(self).bytes_read() <= MAX_PRELUDE_BYTES,
        ensures
            final(self).bytes_read() <= MAX_PRELUDE_BYTES,
            match prelude_step(line@, old(self).bytes_read(), old(self).vars()) {
                PreludeStep::Fault(f) => r matches PreludeProgress::Failed(AgiError::InvalidRequest { details })
                    && details@ == prelude_fault_text(f),
                PreludeStep::End => r matches PreludeProgress::Complete(req) && req.vars() == old(self).vars()
                    && req.peer() is None,
                PreludeStep::Variable { name, value } => r is NeedLine
                    && final(self).vars() == vinsert(old(self).vars(), name, value)
                    && final(self).bytes_read() == old(self).bytes_read() + blen(line@),
            },
    {
        let n = line.len();
        if n > MAX_PRELUDE_BYTES - self.total_bytes {
            return PreludeProgress::Failed(invalid_request("AGI prelude exceeds 65536 bytes"));
        }
        if n == 0 {
            return PreludeProgress::Failed(invalid_request("AGI prelude ended before its blank-line terminator"));
        }
        if n > MAX_PRELUDE_LINE_BYTES {
            return PreludeProgress::Failed(invalid_request("AGI prelude line exceeds 8192 bytes"));
        }
        let cn = line.unicode_len();
        if cn == 0 || line.get_char(cn - 1) != '\n' {
            return PreludeProgress::Failed(invalid_request("AGI prelude line ended without a newline"));
        }
        let mut end = cn - 1;
        if end > 0 && line.get_char(end - 1) == '\r' {
            end = end - 1;
        }
        let content = line.substring_char(0, end);
        assert(content@ == line_content(line@)) by {
            assert(line@.drop_last() =~= line@.subrange(0, cn - 1));
            if cn - 1 > 0 && line@[cn - 2] == '\r' {
                assert(line@.drop_last().drop_last() =~= line@.subrange(0, cn - 2));
            }
        }
        if end == 0 {
            let mut variables: Vec<(String, String)> = Vec::new();
            std::mem::swap(&mut variables, &mut self.variables);
            return PreludeProgress::Complete(AgiRequest { variables, peer_addr: None });
        }
        if str_has_char(content, '\r') || str_has_char(content, '\0') {
            return PreludeProgress::Failed(invalid_request("AGI prelude line contains a forbidden control character"));
        }
        let c = match find_char(content, ':') {
            Some(c) => c,
            None => return PreludeProgress::Failed(invalid_request("AGI prelude line is missing ':'")),
        };
        let key = trim_str(content.substring_char(0, c));
        let raw_value = content.substring_char(c + 1, end);
        let value = if raw_value.unicode_len() > 0 && raw_value.get_char(0) == ' ' {
            let vn = raw_value.unicode_len();
            let v = raw_value.substring_char(1, vn);
            assert(v@ =~= raw_value@.drop_first());
            v
        } else {
            raw_value
        };
        if key.unicode_len() == 0 {
            return PreludeProgress::Failed(invalid_request("AGI prelude variable name is empty"));
        }
        let name = match strip_prefix_str(key, "agi_") {
            Some(rest) => {
                proof {
                    reveal_strlit("agi_");
                }
                rest
            },
            None => key,
        };
        if name.unicode_len() == 0 {
            return PreludeProgress::Failed(invalid_request("AGI prelude variable name is empty"));
        }
        if find_variable(&self.variables, name).is_none() && self.variables.len() >= MAX_PRELUDE_VARIABLES {
            proof {
                crate::ami::codec::lemma_vget_vindex(self.vars(), name@);
            }
            return PreludeProgress::Failed(invalid_request("AGI prelude exceeds 128 variables"));
        }
        proof {
            crate::ami::codec::lemma_vget_vindex(self.vars(), name@);
        }
        insert_variable(&mut self.variables, name.to_owned(), value.to_owned());
        self.total_bytes = self.total_bytes + n;
        PreludeProgress::NeedLine
    }
}

fn invalid_request(details: &str) -> (e: AgiError)
    ensures
        e matches AgiError::InvalidRequest { details: d } && d@ == details@,
{
    AgiError::InvalidRequest { details: details.to_owned() }
}

impl AgiRequest {
    pub closed spec fn vars(&self) -> Seq<(Seq<char>, Seq<char>)> {
        pairs_view(self.variables@)
    }

    pub closed spec fn peer(&self) -> Option<Seq<char>> {
        match self.peer_addr { Some(p) => Some(p@), None => None }
    }

    /// record the TCP peer observed by the server
    pub fn set_peer_addr(&mut self, peer_addr: String)
        ensures
            final(self).vars() == old(self).vars(),
            final(self).peer() == Some(peer_addr@),
    {
        self.peer_addr = Some(peer_addr);
    }

    /// return the TCP peer observed by the server; requests parsed directly
    /// from a reader do not have peer metadata
    pub fn peer_addr(&self) -> (r: Option<&str>)
        ensures
            match r { Some(p) => self.peer() == Some(p@), None => self.peer() is None },
    {
        match &self.peer_addr {
            Some(p) => Some(p.as_str()),
            None => None,
        }
    }

    /// generic accessor for any variable by key (without `agi_` prefix)
    pub fn get(&self, key: &str) -> (r: Option<&str>)
        ensures
            match r { Some(v) => vget(self.vars(), key@) == Some(v@), None => vget(self.vars(), key@) is None },
    {
        find_variable(&self.variables, key)
    }

    /// get the value of `agi_network`
    pub fn network(&self) -> (r: Option<&str>)
        ensures
            match r { Some(v) => vget(self.vars(), "network"@) == Some(v@), None => vget(self.vars(), "network"@) is None },
    {
        self.get("network")
    }

    /// get the value of `agi_network_script`
    pub fn network_script(&self) -> (r: Option<&str>)
        ensures
            match r { Some(v) => vget(self.vars(), "network_script"@) == Some(v@), None => vget(self.vars(), "network_script"@) is None },
    {
        self.get("network_script")
    }

    /// get the value of `agi_request`
    pub fn request(&self) -> (r: Option<&str>)
        ensures
            match r { Some(v) => vget(self.vars(), "request"@) == Some(v@), None => vget(self.vars(), "request"@) is None },
    {
        self.get("request")
    }

    /// get the value of `agi_channel`
    pub fn channel(&self) -> (r: Option<&str>)
        ensures
            match r { Some(v) => vget(self.vars(), "channel"@) == Some(v@), None => vget(self.vars(), "channel"@) is None },
    {
        self.get("channel")
    }

    /// get the value of `agi_language`
    pub fn language(&self) -> (r: Option<&str>)
        ensures
            match r { Some(v) => vget(self.vars(), "language"@) == Some(v@), None => vget(self.vars(), "language"@) is None },
    {
        self.get("language")
    }

    /// get the value of `agi_type`
    pub fn channel_type(&self) -> (r: Option<&str>)
        ensures
            match r { Some(v) => vget(self.vars(), "type"@) == Some(v@), None => vget(self.vars(), "type"@) is None },
    {
        self.get("type")
    }

    /// get the value of `agi_uniqueid`
    pub fn unique_id(&self) -> (r: Option<&str>)
        ensures
            match r { Some(v) => vget(self.vars(), "uniqueid"@) == Some(v@), None => vget(self.vars(), "uniqueid"@) is None },
    {
        self.get("uniqueid")
    }

    /// get the value of `agi_callerid`
    pub fn caller_id(&self) -> (r: Option<&str>)
        ensures
            match r { Some(v) => vget(self.vars(), "callerid"@) == Some(v@), None => vget(self.vars(), "callerid"@) is None },
    {
        self.get("callerid")
    }

    /// get the value of `agi_calleridname`
    pub fn caller_id_name(&self) -> (r: Option<&str>)
        ensures
            match r { Some(v) => vget(self.vars(), "calleridname"@) == Some(v@), None => vget(self.vars(), "calleridname"@) is None },
    {
        self.get("calleridname")
    }

    /// get the value of `agi_context`
    pub fn context(&self) -> (r: Option<&str>)
        ensures
            match r { Some(v) => vget(self.vars(), "context"@) == Some(v@), None => vget(self.vars(), "context"@) is None },
    {
        self.get("context")
    }

    /// get the value of `agi_extension`
    pub fn extension(&self) -> (r: Option<&str>)
        ensures
            match r { Some(v) => vget(self.vars(), "extension"@) == Some(v@), None => vget(self.vars(), "extension"@) is None },
    {
        self.get("extension")
    }

    /// get the value of `agi_priority`
    pub fn priority(&self) -> (r: Option<&str>)
        ensures
            match r { Some(v) => vget(self.vars(), "priority"@) == Some(v@), None => vget(self.vars(), "priority"@) is None },
    {
        self.get("priority")
    }
}

} // verus!
