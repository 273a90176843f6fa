//! Typed AMI actions; each one serializes to a [`RawAmiMessage`] for
//! transmission.
use vstd::prelude::*;
use crate::ami::codec::{RawAmiMessage, RawView, pairs_view};
use crate::secret::{SecretString, secret_text};
use crate::text::{dec, u32_to_string, u64_to_string, bool_to_string};

pub mod fields;
pub mod fax;

use fields::{
    new_headers, push_header, push_opt_text, push_opt_u32, push_opt_u64, push_opt_bool, push_flag,
    push_assignments, push_pairs, push_update_lines, opt_text, opt_u32, opt_u64, opt_bool, flag_pair,
    assignments, update_lines, bool_text,
};

verus! {

/// The action-id counter after one id was taken from it (it wraps at the top).
pub open spec fn next_counter(c: u64) -> u64 {
    if c == u64::MAX { 0 } else { (c + 1) as u64 }
}

/// Takes the next action id from `counter`: its decimal text, and the
/// counter moves on by one.
pub fn next_action_id(counter: &mut u64) -> (r: String)
    ensures
        r@ == dec(*old(counter) as nat),
        *final(counter) == next_counter(*old(counter)),
{
    let id = u64_to_string(*counter);
    *counter = counter.wrapping_add(1);
    id
}

/// Two ids taken one after the other from a counter below its top value are
/// the decimal texts of consecutive numbers, so they differ.
pub proof fn lemma_consecutive_ids(c: u64)
    requires
        c < u64::MAX,
    ensures
        next_counter(c) == c + 1,
        dec(c as nat) != dec(next_counter(c) as nat),
{
    if dec(c as nat) == dec(next_counter(c) as nat) {
        crate::text::lemma_dec_injective(c as nat, next_counter(c) as nat);
    }
}

/// The message that carries an action: `Action` and `ActionID` first, then
/// the action's own header lines; no output and no channel variables.
pub open spec fn action_message(name: Seq<char>, id: Seq<char>, headers: Seq<(Seq<char>, Seq<char>)>) -> RawView {
    RawView {
        headers: seq![("Action"@, name), ("ActionID"@, id)] + headers,
        output: Seq::empty(),
        variables: Seq::empty(),
    }
}

/// A type that can be sent as an AMI action.
pub trait AmiAction {
    /// The action name.
    spec fn name_view(&self) -> Seq<char>;

    /// The header lines after `Action` and `ActionID`.
    spec fn headers_view(&self) -> Seq<(Seq<char>, Seq<char>)>;

    /// The AMI action name (e.g. "Login", "Originate").
    fn action_name(&self) -> (r: &str)
        ensures
            r@ == self.name_view(),
    ;

    /// Key-value pairs, excluding the `Action` and `ActionID` headers.
    fn to_headers(&self) -> (r: Vec<(String, String)>)
        ensures
            pairs_view(r@) == self.headers_view(),
    ;

    /// The complete message with `Action` and `ActionID` headers, the id
    /// taken from `counter`; returns the id and the message.
    fn to_message(&self, counter: &mut u64) -> (r: (String, RawAmiMessage))
        ensures
            r.0@ == dec(*old(counter) as nat),
            *final(counter) == next_counter(*old(counter)),
            r.1@ == action_message(self.name_view(), r.0@, self.headers_view()),
    {
        let action_id = next_action_id(counter);
        let mut headers = new_headers();
        push_header(&mut headers, "Action", self.action_name().to_owned());
        push_header(&mut headers, "ActionID", action_id.clone());
        let ghost first = headers@;
        let mut rest = self.to_headers();
        let ghost rest_v = rest@;
        headers.append(&mut rest);
        let msg = RawAmiMessage { headers, output: Vec::new(), channel_variables: Vec::new() };
        proof {
            assert(pairs_view(msg.headers@) =~= pairs_view(first) + pairs_view(rest_v)) by {
                assert(msg.headers@ =~= first + rest_v);
            }
            assert(msg@.headers =~= seq![("Action"@, self.name_view()), ("ActionID"@, action_id@)] + self.headers_view());
            assert(msg@.output =~= Seq::<Seq<char>>::empty());
            assert(msg@.variables =~= Seq::<(Seq<char>, Seq<char>)>::empty());
        }
        (action_id, msg)
    }
}

/// login with plaintext credentials
pub struct LoginAction {
    pub username: String,
    secret: SecretString,
}

impl AmiAction for LoginAction {
    open spec fn name_view(&self) -> Seq<char> {
        "Login"@
    }

    open spec fn headers_view(&self) -> Seq<(Seq<char>, Seq<char>)> {
        Seq::empty().push(("Username"@, self.username_view())).push(("Secret"@, self.secret_view()))
    }

    fn action_name(&self) -> (r: &str) {
        "Login"
    }

    fn to_headers(&self) -> (r: Vec<(String, String)>) {
        let mut h = new_headers();
        push_header(&mut h, "Username", self.username.clone());
        push_header(&mut h, "Secret", self.secret.as_str().to_owned());
        h
    }
}

/// request MD5 challenge
pub struct ChallengeAction;

impl AmiAction for ChallengeAction {
    open spec fn name_view(&self) -> Seq<char> {
        "Challenge"@
    }

    open spec fn headers_view(&self) -> Seq<(Seq<char>, Seq<char>)> {
        Seq::empty().push(("AuthType"@, "md5"@))
    }

    fn action_name(&self) -> (r: &str) {
        "Challenge"
    }

    fn to_headers(&self) -> (r: Vec<(String, String)>) {
        let mut h = new_headers();
        push_header(&mut h, "AuthType", "md5".to_owned());
        h
    }
}

/// login with MD5 challenge-response
pub struct ChallengeLoginAction {
    pub username: String,
    pub key: SecretString,
}

impl AmiAction for ChallengeLoginAction {
    open spec fn name_view(&self) -> Seq<char> {
        "Login"@
    }

    open spec fn headers_view(&self) -> Seq<(Seq<char>, Seq<char>)> {
        Seq::empty().push(("AuthType"@, "md5"@)).push(("Username"@, self.username@)).push(("Key"@, secret_text(self.key)))
    }

    fn action_name(&self) -> (r: &str) {
        "Login"
    }

    fn to_headers(&self) -> (r: Vec<(String, String)>) {
        let mut h = new_headers();
        push_header(&mut h, "AuthType", "md5".to_owned());
        push_header(&mut h, "Username", self.username.clone());
        push_header(&mut h, "Key", self.key.as_str().to_owned());
        h
    }
}

/// logoff from AMI
pub struct LogoffAction;

impl AmiAction for LogoffAction {
    open spec fn name_view(&self) -> Seq<char> {
        "Logoff"@
    }

    open spec fn headers_view(&self) -> Seq<(Seq<char>, Seq<char>)> {
        Seq::empty()
    }

    fn action_name(&self) -> (r: &str) {
        "Logoff"
    }

    fn to_headers(&self) -> (r: Vec<(String, String)>) {
        let mut h = new_headers();
        h
    }
}

/// ping the server (keep-alive)
pub struct PingAction;

impl AmiAction for PingAction {
    open spec fn name_view(&self) -> Seq<char> {
        "Ping"@
    }

    open spec fn headers_view(&self) -> Seq<(Seq<char>, Seq<char>)> {
        Seq::empty()
    }

    fn action_name(&self) -> (r: &str) {
        "Ping"
    }

    fn to_headers(&self) -> (r: Vec<(String, String)>) {
        let mut h = new_headers();
        h
    }
}

/// originate a call
pub struct OriginateAction {
    pub channel: String,
    pub context: Option<String>,
    pub exten: Option<String>,
    pub priority: Option<u32>,
    pub application: Option<String>,
    pub data: Option<String>,
    pub timeout: Option<u64>,
    pub caller_id: Option<String>,
    pub account: Option<String>,
    pub async_: bool,
    pub variables: Vec<(String, String)>,
}

impl AmiAction for OriginateAction {
    open spec fn name_view(&self) -> Seq<char> {
        "Originate"@
    }

    open spec fn headers_view(&self) -> Seq<(Seq<char>, Seq<char>)> {
        Seq::empty().push(("Channel"@, self.channel@)) + opt_text("Context"@, self.context) + opt_text("Exten"@, self.exten) + opt_u32("Priority"@, self.priority) + opt_text("Application"@, self.application) + opt_text("Data"@, self.data) + opt_u64("Timeout"@, self.timeout) + opt_text("CallerID"@, self.caller_id) + opt_text("Account"@, self.account) + flag_pair("Async"@, self.async_) + assignments("Variable"@, pairs_view(self.variables@))
    }

    fn action_name(&self) -> (r: &str) {
        "Originate"
    }

    fn to_headers(&self) -> (r: Vec<(String, String)>) {
        let mut h = new_headers();
        push_header(&mut h, "Channel", self.channel.clone());
        push_opt_text(&mut h, "Context", &self.context);
        push_opt_text(&mut h, "Exten", &self.exten);
        push_opt_u32(&mut h, "Priority", self.priority);
        push_opt_text(&mut h, "Application", &self.application);
        push_opt_text(&mut h, "Data", &self.data);
        push_opt_u64(&mut h, "Timeout", self.timeout);
        push_opt_text(&mut h, "CallerID", &self.caller_id);
        push_opt_text(&mut h, "Account", &self.account);
        push_flag(&mut h, "Async", self.async_);
        push_assignments(&mut h, "Variable", &self.variables);
        h
    }
}

/// hangup a channel
pub struct HangupAction {
    pub channel: String,
    pub cause: Option<u32>,
}

impl AmiAction for HangupAction {
    open spec fn name_view(&self) -> Seq<char> {
        "Hangup"@
    }

    open spec fn headers_view(&self) -> Seq<(Seq<char>, Seq<char>)> {
        Seq::empty().push(("Channel"@, self.channel@)) + opt_u32("Cause"@, self.cause)
    }

    fn action_name(&self) -> (r: &str) {
        "Hangup"
    }

    fn to_headers(&self) -> (r: Vec<(String, String)>) {
        let mut h = new_headers();
        push_header(&mut h, "Channel", self.channel.clone());
        push_opt_u32(&mut h, "Cause", self.cause);
        h
    }
}

/// redirect (transfer) a channel
pub struct RedirectAction {
    pub channel: String,
    pub context: String,
    pub exten: String,
    pub priority: u32,
}

impl AmiAction for RedirectAction {
    open spec fn name_view(&self) -> Seq<char> {
        "Redirect"@
    }

    open spec fn headers_view(&self) -> Seq<(Seq<char>, Seq<char>)> {
        Seq::empty().push(("Channel"@, self.channel@)).push(("Context"@, self.context@)).push(("Exten"@, self.exten@)).push(("Priority"@, dec(self.priority as nat)))
    }

    fn action_name(&self) -> (r: &str) {
        "Redirect"
    }

    fn to_headers(&self) -> (r: Vec<(String, String)>) {
        let mut h = new_headers();
        push_header(&mut h, "Channel", self.channel.clone());
        push_header(&mut h, "Context", self.context.clone());
        push_header(&mut h, "Exten", self.exten.clone());
        push_header(&mut h, "Priority", u32_to_string(self.priority));
        h
    }
}

/// A redirect moves the channel to the given place in the dialplan: its
/// headers are the channel, then the context, then the extension, then the
/// priority in decimal, each under its own name.
pub proof fn lemma_redirect_headers(a: RedirectAction)
    ensures
        a.headers_view().len() == 4,
        a.headers_view()[0] == ("Channel"@, a.channel@),
        a.headers_view()[1] == ("Context"@, a.context@),
        a.headers_view()[2] == ("Exten"@, a.exten@),
        a.headers_view()[3] == ("Priority"@, dec(a.priority as nat)),
{
}

/// execute a CLI command
pub struct CommandAction {
    pub command: String,
}

impl AmiAction for CommandAction {
    open spec fn name_view(&self) -> Seq<char> {
        "Command"@
    }

    open spec fn headers_view(&self) -> Seq<(Seq<char>, Seq<char>)> {
        Seq::empty().push(("Command"@, self.command@))
    }

    fn action_name(&self) -> (r: &str) {
        "Command"
    }

    fn to_headers(&self) -> (r: Vec<(String, String)>) {
        let mut h = new_headers();
        push_header(&mut h, "Command", self.command.clone());
        h
    }
}

/// get a channel variable
pub struct GetVarAction {
    pub channel: Option<String>,
    pub variable: String,
}

impl AmiAction for GetVarAction {
    open spec fn name_view(&self) -> Seq<char> {
        "GetVar"@
    }

    open spec fn headers_view(&self) -> Seq<(Seq<char>, Seq<char>)> {
        Seq::empty().push(("Variable"@, self.variable@)) + opt_text("Channel"@, self.channel)
    }

    fn action_name(&self) -> (r: &str) {
        "GetVar"
    }

    fn to_headers(&self) -> (r: Vec<(String, String)>) {
        let mut h = new_headers();
        push_header(&mut h, "Variable", self.variable.clone());
        push_opt_text(&mut h, "Channel", &self.channel);
        h
    }
}

/// set a channel variable
pub struct SetVarAction {
    pub channel: Option<String>,
    pub variable: String,
    pub value: String,
}

impl AmiAction for SetVarAction {
    open spec fn name_view(&self) -> Seq<char> {
        "SetVar"@
    }

    open spec fn headers_view(&self) -> Seq<(Seq<char>, Seq<char>)> {
        Seq::empty().push(("Variable"@, self.variable@)).push(("Value"@, self.value@)) + opt_text("Channel"@, self.channel)
    }

    fn action_name(&self) -> (r: &str) {
        "SetVar"
    }

    fn to_headers(&self) -> (r: Vec<(String, String)>) {
        let mut h = new_headers();
        push_header(&mut h, "Variable", self.variable.clone());
        push_header(&mut h, "Value", self.value.clone());
        push_opt_text(&mut h, "Channel", &self.channel);
        h
    }
}

/// query channel status
pub struct StatusAction {
    pub channel: Option<String>,
}

impl AmiAction for StatusAction {
    open spec fn name_view(&self) -> Seq<char> {
        "Status"@
    }

    open spec fn headers_view(&self) -> Seq<(Seq<char>, Seq<char>)> {
        Seq::empty() + opt_text("Channel"@, self.channel)
    }

    fn action_name(&self) -> (r: &str) {
        "Status"
    }

    fn to_headers(&self) -> (r: Vec<(String, String)>) {
        let mut h = new_headers();
        push_opt_text(&mut h, "Channel", &self.channel);
        h
    }
}

/// query core system status
pub struct CoreStatusAction;

impl AmiAction for CoreStatusAction {
    open spec fn name_view(&self) -> Seq<char> {
        "CoreStatus"@
    }

    open spec fn headers_view(&self) -> Seq<(Seq<char>, Seq<char>)> {
        Seq::empty()
    }

    fn action_name(&self) -> (r: &str) {
        "CoreStatus"
    }

    fn to_headers(&self) -> (r: Vec<(String, String)>) {
        let mut h = new_headers();
        h
    }
}

/// query core settings
pub struct CoreSettingsAction;

impl AmiAction for CoreSettingsAction {
    open spec fn name_view(&self) -> Seq<char> {
        "CoreSettings"@
    }

    open spec fn headers_view(&self) -> Seq<(Seq<char>, Seq<char>)> {
        Seq::empty()
    }

    fn action_name(&self) -> (r: &str) {
        "CoreSettings"
    }

    fn to_headers(&self) -> (r: Vec<(String, String)>) {
        let mut h = new_headers();
        h
    }
}

/// list active channels
pub struct CoreShowChannelsAction;

impl AmiAction for CoreShowChannelsAction {
    open spec fn name_view(&self) -> Seq<char> {
        "CoreShowChannels"@
    }

    open spec fn headers_view(&self) -> Seq<(Seq<char>, Seq<char>)> {
        Seq::empty()
    }

    fn action_name(&self) -> (r: &str) {
        "CoreShowChannels"
    }

    fn to_headers(&self) -> (r: Vec<(String, String)>) {
        let mut h = new_headers();
        h
    }
}

/// show channel map for a given channel
pub struct CoreShowChannelMapAction {
    pub channel: String,
}

impl AmiAction for CoreShowChannelMapAction {
    open spec fn name_view(&self) -> Seq<char> {
        "CoreShowChannelMap"@
    }

    open spec fn headers_view(&self) -> Seq<(Seq<char>, Seq<char>)> {
        Seq::empty().push(("Channel"@, self.channel@))
    }

    fn action_name(&self) -> (r: &str) {
        "CoreShowChannelMap"
    }

    fn to_headers(&self) -> (r: Vec<(String, String)>) {
        let mut h = new_headers();
        push_header(&mut h, "Channel", self.channel.clone());
        h
    }
}

/// list available AMI commands
pub struct ListCommandsAction;

impl AmiAction for ListCommandsAction {
    open spec fn name_view(&self) -> Seq<char> {
        "ListCommands"@
    }

    open spec fn headers_view(&self) -> Seq<(Seq<char>, Seq<char>)> {
        Seq::empty()
    }

    fn action_name(&self) -> (r: &str) {
        "ListCommands"
    }

    fn to_headers(&self) -> (r: Vec<(String, String)>) {
        let mut h = new_headers();
        h
    }
}

/// control event output
pub struct EventsAction {
    pub event_mask: String,
}

impl AmiAction for EventsAction {
    open spec fn name_view(&self) -> Seq<char> {
        "Events"@
    }

    open spec fn headers_view(&self) -> Seq<(Seq<char>, Seq<char>)> {
        Seq::empty().push(("EventMask"@, self.event_mask@))
    }

    fn action_name(&self) -> (r: &str) {
        "Events"
    }

    fn to_headers(&self) -> (r: Vec<(String, String)>) {
        let mut h = new_headers();
        push_header(&mut h, "EventMask", self.event_mask.clone());
        h
    }
}

/// manage event filters
pub struct FilterAction {
    pub operation: String,
    pub filter: Option<String>,
}

impl AmiAction for FilterAction {
    open spec fn name_view(&self) -> Seq<char> {
        "Filter"@
    }

    open spec fn headers_view(&self) -> Seq<(Seq<char>, Seq<char>)> {
        Seq::empty().push(("Operation"@, self.operation@)) + opt_text("Filter"@, self.filter)
    }

    fn action_name(&self) -> (r: &str) {
        "Filter"
    }

    fn to_headers(&self) -> (r: Vec<(String, String)>) {
        let mut h = new_headers();
        push_header(&mut h, "Operation", self.operation.clone());
        push_opt_text(&mut h, "Filter", &self.filter);
        h
    }
}

/// wait for an event to occur
pub struct WaitEventAction {
    pub timeout: u32,
}

impl AmiAction for WaitEventAction {
    open spec fn name_view(&self) -> Seq<char> {
        "WaitEvent"@
    }

    open spec fn headers_view(&self) -> Seq<(Seq<char>, Seq<char>)> {
        Seq::empty().push(("Timeout"@, dec(self.timeout as nat)))
    }

    fn action_name(&self) -> (r: &str) {
        "WaitEvent"
    }

    fn to_headers(&self) -> (r: Vec<(String, String)>) {
        let mut h = new_headers();
        push_header(&mut h, "Timeout", u32_to_string(self.timeout));
        h
    }
}

/// reload asterisk modules
pub struct ReloadAction {
    pub module: Option<String>,
}

impl AmiAction for ReloadAction {
    open spec fn name_view(&self) -> Seq<char> {
        "Reload"@
    }

    open spec fn headers_view(&self) -> Seq<(Seq<char>, Seq<char>)> {
        Seq::empty() + opt_text("Module"@, self.module)
    }

    fn action_name(&self) -> (r: &str) {
        "Reload"
    }

    fn to_headers(&self) -> (r: Vec<(String, String)>) {
        let mut h = new_headers();
        push_opt_text(&mut h, "Module", &self.module);
        h
    }
}

/// rotate logger files
pub struct LoggerRotateAction;

impl AmiAction for LoggerRotateAction {
    open spec fn name_view(&self) -> Seq<char> {
        "LoggerRotate"@
    }

    open spec fn headers_view(&self) -> Seq<(Seq<char>, Seq<char>)> {
        Seq::empty()
    }

    fn action_name(&self) -> (r: &str) {
        "LoggerRotate"
    }

    fn to_headers(&self) -> (r: Vec<(String, String)>) {
        let mut h = new_headers();
        h
    }
}

/// check if a module is loaded
pub struct ModuleCheckAction {
    pub module: String,
}

impl AmiAction for ModuleCheckAction {
    open spec fn name_view(&self) -> Seq<char> {
        "ModuleCheck"@
    }

    open spec fn headers_view(&self) -> Seq<(Seq<char>, Seq<char>)> {
        Seq::empty().push(("Module"@, self.module@))
    }

    fn action_name(&self) -> (r: &str) {
        "ModuleCheck"
    }

    fn to_headers(&self) -> (r: Vec<(String, String)>) {
        let mut h = new_headers();
        push_header(&mut h, "Module", self.module.clone());
        h
    }
}

/// load, unload, or reload a module
pub struct ModuleLoadAction {
    pub module: String,
    pub load_type: String,
}

impl AmiAction for ModuleLoadAction {
    open spec fn name_view(&self) -> Seq<char> {
        "ModuleLoad"@
    }

    open spec fn headers_view(&self) -> Seq<(Seq<char>, Seq<char>)> {
        Seq::empty().push(("Module"@, self.module@)).push(("LoadType"@, self.load_type@))
    }

    fn action_name(&self) -> (r: &str) {
        "ModuleLoad"
    }

    fn to_headers(&self) -> (r: Vec<(String, String)>) {
        let mut h = new_headers();
        push_header(&mut h, "Module", self.module.clone());
        push_header(&mut h, "LoadType", self.load_type.clone());
        h
    }
}

/// send a user-defined event
pub struct UserEventAction {
    pub user_event: String,
    pub headers: Vec<(String, String)>,
}

impl AmiAction for UserEventAction {
    open spec fn name_view(&self) -> Seq<char> {
        "UserEvent"@
    }

    open spec fn headers_view(&self) -> Seq<(Seq<char>, Seq<char>)> {
        Seq::empty().push(("UserEvent"@, self.user_event@)) + pairs_view(self.headers@)
    }

    fn action_name(&self) -> (r: &str) {
        "UserEvent"
    }

    fn to_headers(&self) -> (r: Vec<(String, String)>) {
        let mut h = new_headers();
        push_header(&mut h, "UserEvent", self.user_event.clone());
        push_pairs(&mut h, &self.headers);
        h
    }
}

/// set absolute timeout on a channel
pub struct AbsoluteTimeoutAction {
    pub channel: String,
    pub timeout: u32,
}

impl AmiAction for AbsoluteTimeoutAction {
    open spec fn name_view(&self) -> Seq<char> {
        "AbsoluteTimeout"@
    }

    open spec fn headers_view(&self) -> Seq<(Seq<char>, Seq<char>)> {
        Seq::empty().push(("Channel"@, self.channel@)).push(("Timeout"@, dec(self.timeout as nat)))
    }

    fn action_name(&self) -> (r: &str) {
        "AbsoluteTimeout"
    }

    fn to_headers(&self) -> (r: Vec<(String, String)>) {
        let mut h = new_headers();
        push_header(&mut h, "Channel", self.channel.clone());
        push_header(&mut h, "Timeout", u32_to_string(self.timeout));
        h
    }
}

/// mute or unmute audio on a channel
pub struct MuteAudioAction {
    pub channel: String,
    pub direction: String,
    pub state: String,
}

impl AmiAction for MuteAudioAction {
    open spec fn name_view(&self) -> Seq<char> {
        "MuteAudio"@
    }

    open spec fn headers_view(&self) -> Seq<(Seq<char>, Seq<char>)> {
        Seq::empty().push(("Channel"@, self.channel@)).push(("Direction"@, self.direction@)).push(("State"@, self.state@))
    }

    fn action_name(&self) -> (r: &str) {
        "MuteAudio"
    }

    fn to_headers(&self) -> (r: Vec<(String, String)>) {
        let mut h = new_headers();
        push_header(&mut h, "Channel", self.channel.clone());
        push_header(&mut h, "Direction", self.direction.clone());
        push_header(&mut h, "State", self.state.clone());
        h
    }
}

/// send text to a channel
pub struct SendTextAction {
    pub channel: String,
    pub message: String,
}

impl AmiAction for SendTextAction {
    open spec fn name_view(&self) -> Seq<char> {
        "SendText"@
    }

    open spec fn headers_view(&self) -> Seq<(Seq<char>, Seq<char>)> {
        Seq::empty().push(("Channel"@, self.channel@)).push(("Message"@, self.message@))
    }

    fn action_name(&self) -> (r: &str) {
        "SendText"
    }

    fn to_headers(&self) -> (r: Vec<(String, String)>) {
        let mut h = new_headers();
        push_header(&mut h, "Channel", self.channel.clone());
        push_header(&mut h, "Message", self.message.clone());
        h
    }
}

/// play a DTMF digit on a channel
pub struct PlayDTMFAction {
    pub channel: String,
    pub digit: String,
    pub duration: Option<u32>,
}

impl AmiAction for PlayDTMFAction {
    open spec fn name_view(&self) -> Seq<char> {
        "PlayDTMF"@
    }

    open spec fn headers_view(&self) -> Seq<(Seq<char>, Seq<char>)> {
        Seq::empty().push(("Channel"@, self.channel@)).push(("Digit"@, self.digit@)) + opt_u32("Duration"@, self.duration)
    }

    fn action_name(&self) -> (r: &str) {
        "PlayDTMF"
    }

    fn to_headers(&self) -> (r: Vec<(String, String)>) {
        let mut h = new_headers();
        push_header(&mut h, "Channel", self.channel.clone());
        push_header(&mut h, "Digit", self.digit.clone());
        push_opt_u32(&mut h, "Duration", self.duration);
        h
    }
}

/// execute an AGI command on a channel
pub struct AGIAction {
    pub channel: String,
    pub command: String,
    pub command_id: Option<String>,
}

impl AmiAction for AGIAction {
    open spec fn name_view(&self) -> Seq<char> {
        "AGI"@
    }

    open spec fn headers_view(&self) -> Seq<(Seq<char>, Seq<char>)> {
        Seq::empty().push(("Channel"@, self.channel@)).push(("Command"@, self.command@)) + opt_text("CommandID"@, self.command_id)
    }

    fn action_name(&self) -> (r: &str) {
        "AGI"
    }

    fn to_headers(&self) -> (r: Vec<(String, String)>) {
        let mut h = new_headers();
        push_header(&mut h, "Channel", self.channel.clone());
        push_header(&mut h, "Command", self.command.clone());
        push_opt_text(&mut h, "CommandID", &self.command_id);
        h
    }
}

/// get a value from the asterisk database
pub struct DBGetAction {
    pub family: String,
    pub key: String,
}

impl AmiAction for DBGetAction {
    open spec fn name_view(&self) -> Seq<char> {
        "DBGet"@
    }

    open spec fn headers_view(&self) -> Seq<(Seq<char>, Seq<char>)> {
        Seq::empty().push(("Family"@, self.family@)).push(("Key"@, self.key@))
    }

    fn action_name(&self) -> (r: &str) {
        "DBGet"
    }

    fn to_headers(&self) -> (r: Vec<(String, String)>) {
        let mut h = new_headers();
        push_header(&mut h, "Family", self.family.clone());
        push_header(&mut h, "Key", self.key.clone());
        h
    }
}

/// put a value into the asterisk database
pub struct DBPutAction {
    pub family: String,
    pub key: String,
    pub val: String,
}

impl AmiAction for DBPutAction {
    open spec fn name_view(&self) -> Seq<char> {
        "DBPut"@
    }

    open spec fn headers_view(&self) -> Seq<(Seq<char>, Seq<char>)> {
        Seq::empty().push(("Family"@, self.family@)).push(("Key"@, self.key@)).push(("Val"@, self.val@))
    }

    fn action_name(&self) -> (r: &str) {
        "DBPut"
    }

    fn to_headers(&self) -> (r: Vec<(String, String)>) {
        let mut h = new_headers();
        push_header(&mut h, "Family", self.family.clone());
        push_header(&mut h, "Key", self.key.clone());
        push_header(&mut h, "Val", self.val.clone());
        h
    }
}

/// delete a key from the asterisk database
pub struct DBDelAction {
    pub family: String,
    pub key: String,
}

impl AmiAction for DBDelAction {
    open spec fn name_view(&self) -> Seq<char> {
        "DBDel"@
    }

    open spec fn headers_view(&self) -> Seq<(Seq<char>, Seq<char>)> {
        Seq::empty().push(("Family"@, self.family@)).push(("Key"@, self.key@))
    }

    fn action_name(&self) -> (r: &str) {
        "DBDel"
    }

    fn to_headers(&self) -> (r: Vec<(String, String)>) {
        let mut h = new_headers();
        push_header(&mut h, "Family", self.family.clone());
        push_header(&mut h, "Key", self.key.clone());
        h
    }
}

/// delete a family or subtree from the asterisk database
pub struct DBDelTreeAction {
    pub family: String,
    pub key: Option<String>,
}

impl AmiAction for DBDelTreeAction {
    open spec fn name_view(&self) -> Seq<char> {
        "DBDelTree"@
    }

    open spec fn headers_view(&self) -> Seq<(Seq<char>, Seq<char>)> {
        Seq::empty().push(("Family"@, self.family@)) + opt_text("Key"@, self.key)
    }

    fn action_name(&self) -> (r: &str) {
        "DBDelTree"
    }

    fn to_headers(&self) -> (r: Vec<(String, String)>) {
        let mut h = new_headers();
        push_header(&mut h, "Family", self.family.clone());
        push_opt_text(&mut h, "Key", &self.key);
        h
    }
}

/// get a tree of values from the asterisk database
pub struct DBGetTreeAction {
    pub family: String,
    pub key: Option<String>,
}

impl AmiAction for DBGetTreeAction {
    open spec fn name_view(&self) -> Seq<char> {
        "DBGetTree"@
    }

    open spec fn headers_view(&self) -> Seq<(Seq<char>, Seq<char>)> {
        Seq::empty().push(("Family"@, self.family@)) + opt_text("Key"@, self.key)
    }

    fn action_name(&self) -> (r: &str) {
        "DBGetTree"
    }

    fn to_headers(&self) -> (r: Vec<(String, String)>) {
        let mut h = new_headers();
        push_header(&mut h, "Family", self.family.clone());
        push_opt_text(&mut h, "Key", &self.key);
        h
    }
}

/// attended transfer a channel
pub struct AtxferAction {
    pub channel: String,
    pub exten: String,
    pub context: String,
}

impl AmiAction for AtxferAction {
    open spec fn name_view(&self) -> Seq<char> {
        "Atxfer"@
    }

    open spec fn headers_view(&self) -> Seq<(Seq<char>, Seq<char>)> {
        Seq::empty().push(("Channel"@, self.channel@)).push(("Exten"@, self.exten@)).push(("Context"@, self.context@))
    }

    fn action_name(&self) -> (r: &str) {
        "Atxfer"
    }

    fn to_headers(&self) -> (r: Vec<(String, String)>) {
        let mut h = new_headers();
        push_header(&mut h, "Channel", self.channel.clone());
        push_header(&mut h, "Exten", self.exten.clone());
        push_header(&mut h, "Context", self.context.clone());
        h
    }
}

/// blind transfer a channel
pub struct BlindTransferAction {
    pub channel: String,
    pub exten: String,
    pub context: String,
}

impl AmiAction for BlindTransferAction {
    open spec fn name_view(&self) -> Seq<char> {
        "BlindTransfer"@
    }

    open spec fn headers_view(&self) -> Seq<(Seq<char>, Seq<char>)> {
        Seq::empty().push(("Channel"@, self.channel@)).push(("Exten"@, self.exten@)).push(("Context"@, self.context@))
    }

    fn action_name(&self) -> (r: &str) {
        "BlindTransfer"
    }

    fn to_headers(&self) -> (r: Vec<(String, String)>) {
        let mut h = new_headers();
        push_header(&mut h, "Channel", self.channel.clone());
        push_header(&mut h, "Exten", self.exten.clone());
        push_header(&mut h, "Context", self.context.clone());
        h
    }
}

/// cancel an attended transfer
pub struct CancelAtxferAction {
    pub channel: String,
}

impl AmiAction for CancelAtxferAction {
    open spec fn name_view(&self) -> Seq<char> {
        "CancelAtxfer"@
    }

    open spec fn headers_view(&self) -> Seq<(Seq<char>, Seq<char>)> {
        Seq::empty().push(("Channel"@, self.channel@))
    }

    fn action_name(&self) -> (r: &str) {
        "CancelAtxfer"
    }

    fn to_headers(&self) -> (r: Vec<(String, String)>) {
        let mut h = new_headers();
        push_header(&mut h, "Channel", self.channel.clone());
        h
    }
}

/// bridge two channels together
pub struct BridgeAction {
    pub channel1: String,
    pub channel2: String,
    pub tone: Option<String>,
}

impl AmiAction for BridgeAction {
    open spec fn name_view(&self) -> Seq<char> {
        "Bridge"@
    }

    open spec fn headers_view(&self) -> Seq<(Seq<char>, Seq<char>)> {
        Seq::empty().push(("Channel1"@, self.channel1@)).push(("Channel2"@, self.channel2@)) + opt_text("Tone"@, self.tone)
    }

    fn action_name(&self) -> (r: &str) {
        "Bridge"
    }

    fn to_headers(&self) -> (r: Vec<(String, String)>) {
        let mut h = new_headers();
        push_header(&mut h, "Channel1", self.channel1.clone());
        push_header(&mut h, "Channel2", self.channel2.clone());
        push_opt_text(&mut h, "Tone", &self.tone);
        h
    }
}

/// destroy a bridge
pub struct BridgeDestroyAction {
    pub bridge_unique_id: String,
}

impl AmiAction for BridgeDestroyAction {
    open spec fn name_view(&self) -> Seq<char> {
        "BridgeDestroy"@
    }

    open spec fn headers_view(&self) -> Seq<(Seq<char>, Seq<char>)> {
        Seq::empty().push(("BridgeUniqueid"@, self.bridge_unique_id@))
    }

    fn action_name(&self) -> (r: &str) {
        "BridgeDestroy"
    }

    fn to_headers(&self) -> (r: Vec<(String, String)>) {
        let mut h = new_headers();
        push_header(&mut h, "BridgeUniqueid", self.bridge_unique_id.clone());
        h
    }
}

/// get information about a bridge
pub struct BridgeInfoAction {
    pub bridge_unique_id: String,
}

impl AmiAction for BridgeInfoAction {
    open spec fn name_view(&self) -> Seq<char> {
        "BridgeInfo"@
    }

    open spec fn headers_view(&self) -> Seq<(Seq<char>, Seq<char>)> {
        Seq::empty().push(("BridgeUniqueid"@, self.bridge_unique_id@))
    }

    fn action_name(&self) -> (r: &str) {
        "BridgeInfo"
    }

    fn to_headers(&self) -> (r: Vec<(String, String)>) {
        let mut h = new_headers();
        push_header(&mut h, "BridgeUniqueid", self.bridge_unique_id.clone());
        h
    }
}

/// kick a channel from a bridge
pub struct BridgeKickAction {
    pub bridge_unique_id: String,
    pub channel: String,
}

impl AmiAction for BridgeKickAction {
    open spec fn name_view(&self) -> Seq<char> {
        "BridgeKick"@
    }

    open spec fn headers_view(&self) -> Seq<(Seq<char>, Seq<char>)> {
        Seq::empty().push(("BridgeUniqueid"@, self.bridge_unique_id@)).push(("Channel"@, self.channel@))
    }

    fn action_name(&self) -> (r: &str) {
        "BridgeKick"
    }

    fn to_headers(&self) -> (r: Vec<(String, String)>) {
        let mut h = new_headers();
        push_header(&mut h, "BridgeUniqueid", self.bridge_unique_id.clone());
        push_header(&mut h, "Channel", self.channel.clone());
        h
    }
}

/// list active bridges
pub struct BridgeListAction;

impl AmiAction for BridgeListAction {
    open spec fn name_view(&self) -> Seq<char> {
        "BridgeList"@
    }

    open spec fn headers_view(&self) -> Seq<(Seq<char>, Seq<char>)> {
        Seq::empty()
    }

    fn action_name(&self) -> (r: &str) {
        "BridgeList"
    }

    fn to_headers(&self) -> (r: Vec<(String, String)>) {
        let mut h = new_headers();
        h
    }
}

/// add a member to a queue
pub struct QueueAddAction {
    pub queue: String,
    pub interface: String,
    pub penalty: Option<u32>,
    pub paused: Option<bool>,
    pub member_name: Option<String>,
    pub state_interface: Option<String>,
}

impl AmiAction for QueueAddAction {
    open spec fn name_view(&self) -> Seq<char> {
        "QueueAdd"@
    }

    open spec fn headers_view(&self) -> Seq<(Seq<char>, Seq<char>)> {
        Seq::empty().push(("Queue"@, self.queue@)).push(("Interface"@, self.interface@)) + opt_u32("Penalty"@, self.penalty) + opt_bool("Paused"@, self.paused) + opt_text("MemberName"@, self.member_name) + opt_text("StateInterface"@, self.state_interface)
    }

    fn action_name(&self) -> (r: &str) {
        "QueueAdd"
    }

    fn to_headers(&self) -> (r: Vec<(String, String)>) {
        let mut h = new_headers();
        push_header(&mut h, "Queue", self.queue.clone());
        push_header(&mut h, "Interface", self.interface.clone());
        push_opt_u32(&mut h, "Penalty", self.penalty);
        push_opt_bool(&mut h, "Paused", self.paused);
        push_opt_text(&mut h, "MemberName", &self.member_name);
        push_opt_text(&mut h, "StateInterface", &self.state_interface);
        h
    }
}

/// remove a member from a queue
pub struct QueueRemoveAction {
    pub queue: String,
    pub interface: String,
}

impl AmiAction for QueueRemoveAction {
    open spec fn name_view(&self) -> Seq<char> {
        "QueueRemove"@
    }

    open spec fn headers_view(&self) -> Seq<(Seq<char>, Seq<char>)> {
        Seq::empty().push(("Queue"@, self.queue@)).push(("Interface"@, self.interface@))
    }

    fn action_name(&self) -> (r: &str) {
        "QueueRemove"
    }

    fn to_headers(&self) -> (r: Vec<(String, String)>) {
        let mut h = new_headers();
        push_header(&mut h, "Queue", self.queue.clone());
        push_header(&mut h, "Interface", self.interface.clone());
        h
    }
}

/// pause or unpause a queue member
pub struct QueuePauseAction {
    pub queue: Option<String>,
    pub interface: String,
    pub paused: bool,
    pub reason: Option<String>,
}

impl AmiAction for QueuePauseAction {
    open spec fn name_view(&self) -> Seq<char> {
        "QueuePause"@
    }

    open spec fn headers_view(&self) -> Seq<(Seq<char>, Seq<char>)> {
        Seq::empty().push(("Interface"@, self.interface@)).push(("Paused"@, bool_text(self.paused))) + opt_text("Queue"@, self.queue) + opt_text("Reason"@, self.reason)
    }

    fn action_name(&self) -> (r: &str) {
        "QueuePause"
    }

    fn to_headers(&self) -> (r: Vec<(String, String)>) {
        let mut h = new_headers();
        push_header(&mut h, "Interface", self.interface.clone());
        push_header(&mut h, "Paused", bool_to_string(self.paused));
        push_opt_text(&mut h, "Queue", &self.queue);
        push_opt_text(&mut h, "Reason", &self.reason);
        h
    }
}

/// set penalty for a queue member
pub struct QueuePenaltyAction {
    pub interface: String,
    pub penalty: u32,
    pub queue: Option<String>,
}

impl AmiAction for QueuePenaltyAction {
    open spec fn name_view(&self) -> Seq<char> {
        "QueuePenalty"@
    }

    open spec fn headers_view(&self) -> Seq<(Seq<char>, Seq<char>)> {
        Seq::empty().push(("Interface"@, self.interface@)).push(("Penalty"@, dec(self.penalty as nat))) + opt_text("Queue"@, self.queue)
    }

    fn action_name(&self) -> (r: &str) {
        "QueuePenalty"
    }

    fn to_headers(&self) -> (r: Vec<(String, String)>) {
        let mut h = new_headers();
        push_header(&mut h, "Interface", self.interface.clone());
        push_header(&mut h, "Penalty", u32_to_string(self.penalty));
        push_opt_text(&mut h, "Queue", &self.queue);
        h
    }
}

/// query queue status
pub struct QueueStatusAction {
    pub queue: Option<String>,
    pub member: Option<String>,
}

impl AmiAction for QueueStatusAction {
    open spec fn name_view(&self) -> Seq<char> {
        "QueueStatus"@
    }

    open spec fn headers_view(&self) -> Seq<(Seq<char>, Seq<char>)> {
        Seq::empty() + opt_text("Queue"@, self.queue) + opt_text("Member"@, self.member)
    }

    fn action_name(&self) -> (r: &str) {
        "QueueStatus"
    }

    fn to_headers(&self) -> (r: Vec<(String, String)>) {
        let mut h = new_headers();
        push_opt_text(&mut h, "Queue", &self.queue);
        push_opt_text(&mut h, "Member", &self.member);
        h
    }
}

/// query queue summary
pub struct QueueSummaryAction {
    pub queue: Option<String>,
}

impl AmiAction for QueueSummaryAction {
    open spec fn name_view(&self) -> Seq<char> {
        "QueueSummary"@
    }

    open spec fn headers_view(&self) -> Seq<(Seq<char>, Seq<char>)> {
        Seq::empty() + opt_text("Queue"@, self.queue)
    }

    fn action_name(&self) -> (r: &str) {
        "QueueSummary"
    }

    fn to_headers(&self) -> (r: Vec<(String, String)>) {
        let mut h = new_headers();
        push_opt_text(&mut h, "Queue", &self.queue);
        h
    }
}

/// reload queue configuration
pub struct QueueReloadAction {
    pub queue: Option<String>,
    pub members: Option<String>,
    pub rules: Option<String>,
    pub parameters: Option<String>,
}

impl AmiAction for QueueReloadAction {
    open spec fn name_view(&self) -> Seq<char> {
        "QueueReload"@
    }

    open spec fn headers_view(&self) -> Seq<(Seq<char>, Seq<char>)> {
        Seq::empty() + opt_text("Queue"@, self.queue) + opt_text("Members"@, self.members) + opt_text("Rules"@, self.rules) + opt_text("Parameters"@, self.parameters)
    }

    fn action_name(&self) -> (r: &str) {
        "QueueReload"
    }

    fn to_headers(&self) -> (r: Vec<(String, String)>) {
        let mut h = new_headers();
        push_opt_text(&mut h, "Queue", &self.queue);
        push_opt_text(&mut h, "Members", &self.members);
        push_opt_text(&mut h, "Rules", &self.rules);
        push_opt_text(&mut h, "Parameters", &self.parameters);
        h
    }
}

/// reset queue statistics
pub struct QueueResetAction {
    pub queue: Option<String>,
}

impl AmiAction for QueueResetAction {
    open spec fn name_view(&self) -> Seq<char> {
        "QueueReset"@
    }

    open spec fn headers_view(&self) -> Seq<(Seq<char>, Seq<char>)> {
        Seq::empty() + opt_text("Queue"@, self.queue)
    }

    fn action_name(&self) -> (r: &str) {
        "QueueReset"
    }

    fn to_headers(&self) -> (r: Vec<(String, String)>) {
        let mut h = new_headers();
        push_opt_text(&mut h, "Queue", &self.queue);
        h
    }
}

/// add a custom entry to the queue log
pub struct QueueLogAction {
    pub queue: String,
    pub event: String,
    pub interface: Option<String>,
    pub unique_id: Option<String>,
    pub message: Option<String>,
}

impl AmiAction for QueueLogAction {
    open spec fn name_view(&self) -> Seq<char> {
        "QueueLog"@
    }

    open spec fn headers_view(&self) -> Seq<(Seq<char>, Seq<char>)> {
        Seq::empty().push(("Queue"@, self.queue@)).push(("Event"@, self.event@)) + opt_text("Interface"@, self.interface) + opt_text("UniqueID"@, self.unique_id) + opt_text("Message"@, self.message)
    }

    fn action_name(&self) -> (r: &str) {
        "QueueLog"
    }

    fn to_headers(&self) -> (r: Vec<(String, String)>) {
        let mut h = new_headers();
        push_header(&mut h, "Queue", self.queue.clone());
        push_header(&mut h, "Event", self.event.clone());
        push_opt_text(&mut h, "Interface", &self.interface);
        push_opt_text(&mut h, "UniqueID", &self.unique_id);
        push_opt_text(&mut h, "Message", &self.message);
        h
    }
}

/// start recording a channel with mixmonitor
pub struct MixMonitorAction {
    pub channel: String,
    pub file: Option<String>,
    pub options: Option<String>,
}

impl AmiAction for MixMonitorAction {
    open spec fn name_view(&self) -> Seq<char> {
        "MixMonitor"@
    }

    open spec fn headers_view(&self) -> Seq<(Seq<char>, Seq<char>)> {
        Seq::empty().push(("Channel"@, self.channel@)) + opt_text("File"@, self.file) + opt_text("Options"@, self.options)
    }

    fn action_name(&self) -> (r: &str) {
        "MixMonitor"
    }

    fn to_headers(&self) -> (r: Vec<(String, String)>) {
        let mut h = new_headers();
        push_header(&mut h, "Channel", self.channel.clone());
        push_opt_text(&mut h, "File", &self.file);
        push_opt_text(&mut h, "Options", &self.options);
        h
    }
}

/// mute or unmute a mixmonitor recording
pub struct MixMonitorMuteAction {
    pub channel: String,
    pub direction: String,
    pub state: String,
}

impl AmiAction for MixMonitorMuteAction {
    open spec fn name_view(&self) -> Seq<char> {
        "MixMonitorMute"@
    }

    open spec fn headers_view(&self) -> Seq<(Seq<char>, Seq<char>)> {
        Seq::empty().push(("Channel"@, self.channel@)).push(("Direction"@, self.direction@)).push(("State"@, self.state@))
    }

    fn action_name(&self) -> (r: &str) {
        "MixMonitorMute"
    }

    fn to_headers(&self) -> (r: Vec<(String, String)>) {
        let mut h = new_headers();
        push_header(&mut h, "Channel", self.channel.clone());
        push_header(&mut h, "Direction", self.direction.clone());
        push_header(&mut h, "State", self.state.clone());
        h
    }
}

/// stop recording a channel with mixmonitor
pub struct StopMixMonitorAction {
    pub channel: String,
    pub mix_monitor_id: Option<String>,
}

impl AmiAction for StopMixMonitorAction {
    open spec fn name_view(&self) -> Seq<char> {
        "StopMixMonitor"@
    }

    open spec fn headers_view(&self) -> Seq<(Seq<char>, Seq<char>)> {
        Seq::empty().push(("Channel"@, self.channel@)) + opt_text("MixMonitorID"@, self.mix_monitor_id)
    }

    fn action_name(&self) -> (r: &str) {
        "StopMixMonitor"
    }

    fn to_headers(&self) -> (r: Vec<(String, String)>) {
        let mut h = new_headers();
        push_header(&mut h, "Channel", self.channel.clone());
        push_opt_text(&mut h, "MixMonitorID", &self.mix_monitor_id);
        h
    }
}

/// control playback on a channel
pub struct ControlPlaybackAction {
    pub channel: String,
    pub control: String,
}

impl AmiAction for ControlPlaybackAction {
    open spec fn name_view(&self) -> Seq<char> {
        "ControlPlayback"@
    }

    open spec fn headers_view(&self) -> Seq<(Seq<char>, Seq<char>)> {
        Seq::empty().push(("Channel"@, self.channel@)).push(("Control"@, self.control@))
    }

    fn action_name(&self) -> (r: &str) {
        "ControlPlayback"
    }

    fn to_headers(&self) -> (r: Vec<(String, String)>) {
        let mut h = new_headers();
        push_header(&mut h, "Channel", self.channel.clone());
        push_header(&mut h, "Control", self.control.clone());
        h
    }
}

/// list participants in a conference
pub struct ConfbridgeListAction {
    pub conference: String,
}

impl AmiAction for ConfbridgeListAction {
    open spec fn name_view(&self) -> Seq<char> {
        "ConfbridgeList"@
    }

    open spec fn headers_view(&self) -> Seq<(Seq<char>, Seq<char>)> {
        Seq::empty().push(("Conference"@, self.conference@))
    }

    fn action_name(&self) -> (r: &str) {
        "ConfbridgeList"
    }

    fn to_headers(&self) -> (r: Vec<(String, String)>) {
        let mut h = new_headers();
        push_header(&mut h, "Conference", self.conference.clone());
        h
    }
}

/// list active conference rooms
pub struct ConfbridgeListRoomsAction;

impl AmiAction for ConfbridgeListRoomsAction {
    open spec fn name_view(&self) -> Seq<char> {
        "ConfbridgeListRooms"@
    }

    open spec fn headers_view(&self) -> Seq<(Seq<char>, Seq<char>)> {
        Seq::empty()
    }

    fn action_name(&self) -> (r: &str) {
        "ConfbridgeListRooms"
    }

    fn to_headers(&self) -> (r: Vec<(String, String)>) {
        let mut h = new_headers();
        h
    }
}

/// kick a participant from a conference
pub struct ConfbridgeKickAction {
    pub conference: String,
    pub channel: String,
}

impl AmiAction for ConfbridgeKickAction {
    open spec fn name_view(&self) -> Seq<char> {
        "ConfbridgeKick"@
    }

    open spec fn headers_view(&self) -> Seq<(Seq<char>, Seq<char>)> {
        Seq::empty().push(("Conference"@, self.conference@)).push(("Channel"@, self.channel@))
    }

    fn action_name(&self) -> (r: &str) {
        "ConfbridgeKick"
    }

    fn to_headers(&self) -> (r: Vec<(String, String)>) {
        let mut h = new_headers();
        push_header(&mut h, "Conference", self.conference.clone());
        push_header(&mut h, "Channel", self.channel.clone());
        h
    }
}

/// mute a participant in a conference
pub struct ConfbridgeMuteAction {
    pub conference: String,
    pub channel: String,
}

impl AmiAction for ConfbridgeMuteAction {
    open spec fn name_view(&self) -> Seq<char> {
        "ConfbridgeMute"@
    }

    open spec fn headers_view(&self) -> Seq<(Seq<char>, Seq<char>)> {
        Seq::empty().push(("Conference"@, self.conference@)).push(("Channel"@, self.channel@))
    }

    fn action_name(&self) -> (r: &str) {
        "ConfbridgeMute"
    }

    fn to_headers(&self) -> (r: Vec<(String, String)>) {
        let mut h = new_headers();
        push_header(&mut h, "Conference", self.conference.clone());
        push_header(&mut h, "Channel", self.channel.clone());
        h
    }
}

/// unmute a participant in a conference
pub struct ConfbridgeUnmuteAction {
    pub conference: String,
    pub channel: String,
}

impl AmiAction for ConfbridgeUnmuteAction {
    open spec fn name_view(&self) -> Seq<char> {
        "ConfbridgeUnmute"@
    }

    open spec fn headers_view(&self) -> Seq<(Seq<char>, Seq<char>)> {
        Seq::empty().push(("Conference"@, self.conference@)).push(("Channel"@, self.channel@))
    }

    fn action_name(&self) -> (r: &str) {
        "ConfbridgeUnmute"
    }

    fn to_headers(&self) -> (r: Vec<(String, String)>) {
        let mut h = new_headers();
        push_header(&mut h, "Conference", self.conference.clone());
        push_header(&mut h, "Channel", self.channel.clone());
        h
    }
}

/// lock a conference
pub struct ConfbridgeLockAction {
    pub conference: String,
}

impl AmiAction for ConfbridgeLockAction {
    open spec fn name_view(&self) -> Seq<char> {
        "ConfbridgeLock"@
    }

    open spec fn headers_view(&self) -> Seq<(Seq<char>, Seq<char>)> {
        Seq::empty().push(("Conference"@, self.conference@))
    }

    fn action_name(&self) -> (r: &str) {
        "ConfbridgeLock"
    }

    fn to_headers(&self) -> (r: Vec<(String, String)>) {
        let mut h = new_headers();
        push_header(&mut h, "Conference", self.conference.clone());
        h
    }
}

/// unlock a conference
pub struct ConfbridgeUnlockAction {
    pub conference: String,
}

impl AmiAction for ConfbridgeUnlockAction {
    open spec fn name_view(&self) -> Seq<char> {
        "ConfbridgeUnlock"@
    }

    open spec fn headers_view(&self) -> Seq<(Seq<char>, Seq<char>)> {
        Seq::empty().push(("Conference"@, self.conference@))
    }

    fn action_name(&self) -> (r: &str) {
        "ConfbridgeUnlock"
    }

    fn to_headers(&self) -> (r: Vec<(String, String)>) {
        let mut h = new_headers();
        push_header(&mut h, "Conference", self.conference.clone());
        h
    }
}

/// start recording a conference
pub struct ConfbridgeStartRecordAction {
    pub conference: String,
    pub record_file: Option<String>,
}

impl AmiAction for ConfbridgeStartRecordAction {
    open spec fn name_view(&self) -> Seq<char> {
        "ConfbridgeStartRecord"@
    }

    open spec fn headers_view(&self) -> Seq<(Seq<char>, Seq<char>)> {
        Seq::empty().push(("Conference"@, self.conference@)) + opt_text("RecordFile"@, self.record_file)
    }

    fn action_name(&self) -> (r: &str) {
        "ConfbridgeStartRecord"
    }

    fn to_headers(&self) -> (r: Vec<(String, String)>) {
        let mut h = new_headers();
        push_header(&mut h, "Conference", self.conference.clone());
        push_opt_text(&mut h, "RecordFile", &self.record_file);
        h
    }
}

/// stop recording a conference
pub struct ConfbridgeStopRecordAction {
    pub conference: String,
}

impl AmiAction for ConfbridgeStopRecordAction {
    open spec fn name_view(&self) -> Seq<char> {
        "ConfbridgeStopRecord"@
    }

    open spec fn headers_view(&self) -> Seq<(Seq<char>, Seq<char>)> {
        Seq::empty().push(("Conference"@, self.conference@))
    }

    fn action_name(&self) -> (r: &str) {
        "ConfbridgeStopRecord"
    }

    fn to_headers(&self) -> (r: Vec<(String, String)>) {
        let mut h = new_headers();
        push_header(&mut h, "Conference", self.conference.clone());
        h
    }
}

/// park a channel
pub struct ParkAction {
    pub channel: String,
    pub timeout: Option<u32>,
    pub announce_channel: Option<String>,
    pub parking_lot: Option<String>,
}

impl AmiAction for ParkAction {
    open spec fn name_view(&self) -> Seq<char> {
        "Park"@
    }

    open spec fn headers_view(&self) -> Seq<(Seq<char>, Seq<char>)> {
        Seq::empty().push(("Channel"@, self.channel@)) + opt_u32("Timeout"@, self.timeout) + opt_text("AnnounceChannel"@, self.announce_channel) + opt_text("ParkingLot"@, self.parking_lot)
    }

    fn action_name(&self) -> (r: &str) {
        "Park"
    }

    fn to_headers(&self) -> (r: Vec<(String, String)>) {
        let mut h = new_headers();
        push_header(&mut h, "Channel", self.channel.clone());
        push_opt_u32(&mut h, "Timeout", self.timeout);
        push_opt_text(&mut h, "AnnounceChannel", &self.announce_channel);
        push_opt_text(&mut h, "ParkingLot", &self.parking_lot);
        h
    }
}

/// list parked calls
pub struct ParkedCallsAction {
    pub parking_lot: Option<String>,
}

impl AmiAction for ParkedCallsAction {
    open spec fn name_view(&self) -> Seq<char> {
        "ParkedCalls"@
    }

    open spec fn headers_view(&self) -> Seq<(Seq<char>, Seq<char>)> {
        Seq::empty() + opt_text("ParkingLot"@, self.parking_lot)
    }

    fn action_name(&self) -> (r: &str) {
        "ParkedCalls"
    }

    fn to_headers(&self) -> (r: Vec<(String, String)>) {
        let mut h = new_headers();
        push_opt_text(&mut h, "ParkingLot", &self.parking_lot);
        h
    }
}

/// list parking lots
pub struct ParkinglotsAction;

impl AmiAction for ParkinglotsAction {
    open spec fn name_view(&self) -> Seq<char> {
        "Parkinglots"@
    }

    open spec fn headers_view(&self) -> Seq<(Seq<char>, Seq<char>)> {
        Seq::empty()
    }

    fn action_name(&self) -> (r: &str) {
        "Parkinglots"
    }

    fn to_headers(&self) -> (r: Vec<(String, String)>) {
        let mut h = new_headers();
        h
    }
}

/// retrieve configuration file
pub struct GetConfigAction {
    pub filename: String,
    pub category: Option<String>,
}

impl AmiAction for GetConfigAction {
    open spec fn name_view(&self) -> Seq<char> {
        "GetConfig"@
    }

    open spec fn headers_view(&self) -> Seq<(Seq<char>, Seq<char>)> {
        Seq::empty().push(("Filename"@, self.filename@)) + opt_text("Category"@, self.category)
    }

    fn action_name(&self) -> (r: &str) {
        "GetConfig"
    }

    fn to_headers(&self) -> (r: Vec<(String, String)>) {
        let mut h = new_headers();
        push_header(&mut h, "Filename", self.filename.clone());
        push_opt_text(&mut h, "Category", &self.category);
        h
    }
}

/// retrieve configuration as JSON
pub struct GetConfigJSONAction {
    pub filename: String,
}

impl AmiAction for GetConfigJSONAction {
    open spec fn name_view(&self) -> Seq<char> {
        "GetConfigJSON"@
    }

    open spec fn headers_view(&self) -> Seq<(Seq<char>, Seq<char>)> {
        Seq::empty().push(("Filename"@, self.filename@))
    }

    fn action_name(&self) -> (r: &str) {
        "GetConfigJSON"
    }

    fn to_headers(&self) -> (r: Vec<(String, String)>) {
        let mut h = new_headers();
        push_header(&mut h, "Filename", self.filename.clone());
        h
    }
}

/// update a configuration file
pub struct UpdateConfigAction {
    pub src_filename: String,
    pub dst_filename: String,
    pub reload: Option<String>,
    pub actions: Vec<(String, String)>,
}

impl AmiAction for UpdateConfigAction {
    open spec fn name_view(&self) -> Seq<char> {
        "UpdateConfig"@
    }

    open spec fn headers_view(&self) -> Seq<(Seq<char>, Seq<char>)> {
        Seq::empty().push(("SrcFilename"@, self.src_filename@)).push(("DstFilename"@, self.dst_filename@)) + opt_text("Reload"@, self.reload) + update_lines(pairs_view(self.actions@))
    }

    fn action_name(&self) -> (r: &str) {
        "UpdateConfig"
    }

    fn to_headers(&self) -> (r: Vec<(String, String)>) {
        let mut h = new_headers();
        push_header(&mut h, "SrcFilename", self.src_filename.clone());
        push_header(&mut h, "DstFilename", self.dst_filename.clone());
        push_opt_text(&mut h, "Reload", &self.reload);
        push_update_lines(&mut h, &self.actions);
        h
    }
}

/// create an empty configuration file
pub struct CreateConfigAction {
    pub filename: String,
}

impl AmiAction for CreateConfigAction {
    open spec fn name_view(&self) -> Seq<char> {
        "CreateConfig"@
    }

    open spec fn headers_view(&self) -> Seq<(Seq<char>, Seq<char>)> {
        Seq::empty().push(("Filename"@, self.filename@))
    }

    fn action_name(&self) -> (r: &str) {
        "CreateConfig"
    }

    fn to_headers(&self) -> (r: Vec<(String, String)>) {
        let mut h = new_headers();
        push_header(&mut h, "Filename", self.filename.clone());
        h
    }
}

/// list categories in a configuration file
pub struct ListCategoriesAction {
    pub filename: String,
}

impl AmiAction for ListCategoriesAction {
    open spec fn name_view(&self) -> Seq<char> {
        "ListCategories"@
    }

    open spec fn headers_view(&self) -> Seq<(Seq<char>, Seq<char>)> {
        Seq::empty().push(("Filename"@, self.filename@))
    }

    fn action_name(&self) -> (r: &str) {
        "ListCategories"
    }

    fn to_headers(&self) -> (r: Vec<(String, String)>) {
        let mut h = new_headers();
        push_header(&mut h, "Filename", self.filename.clone());
        h
    }
}

/// show dialplan
pub struct ShowDialPlanAction {
    pub extension: Option<String>,
    pub context: Option<String>,
}

impl AmiAction for ShowDialPlanAction {
    open spec fn name_view(&self) -> Seq<char> {
        "ShowDialPlan"@
    }

    open spec fn headers_view(&self) -> Seq<(Seq<char>, Seq<char>)> {
        Seq::empty() + opt_text("Extension"@, self.extension) + opt_text("Context"@, self.context)
    }

    fn action_name(&self) -> (r: &str) {
        "ShowDialPlan"
    }

    fn to_headers(&self) -> (r: Vec<(String, String)>) {
        let mut h = new_headers();
        push_opt_text(&mut h, "Extension", &self.extension);
        push_opt_text(&mut h, "Context", &self.context);
        h
    }
}

/// list all pjsip endpoints
pub struct PJSIPShowEndpointsAction;

impl AmiAction for PJSIPShowEndpointsAction {
    open spec fn name_view(&self) -> Seq<char> {
        "PJSIPShowEndpoints"@
    }

    open spec fn headers_view(&self) -> Seq<(Seq<char>, Seq<char>)> {
        Seq::empty()
    }

    fn action_name(&self) -> (r: &str) {
        "PJSIPShowEndpoints"
    }

    fn to_headers(&self) -> (r: Vec<(String, String)>) {
        let mut h = new_headers();
        h
    }
}

/// show details for a pjsip endpoint
pub struct PJSIPShowEndpointAction {
    pub endpoint: String,
}

impl AmiAction for PJSIPShowEndpointAction {
    open spec fn name_view(&self) -> Seq<char> {
        "PJSIPShowEndpoint"@
    }

    open spec fn headers_view(&self) -> Seq<(Seq<char>, Seq<char>)> {
        Seq::empty().push(("Endpoint"@, self.endpoint@))
    }

    fn action_name(&self) -> (r: &str) {
        "PJSIPShowEndpoint"
    }

    fn to_headers(&self) -> (r: Vec<(String, String)>) {
        let mut h = new_headers();
        push_header(&mut h, "Endpoint", self.endpoint.clone());
        h
    }
}

/// qualify a pjsip endpoint
pub struct PJSIPQualifyAction {
    pub endpoint: String,
}

impl AmiAction for PJSIPQualifyAction {
    open spec fn name_view(&self) -> Seq<char> {
        "PJSIPQualify"@
    }

    open spec fn headers_view(&self) -> Seq<(Seq<char>, Seq<char>)> {
        Seq::empty().push(("Endpoint"@, self.endpoint@))
    }

    fn action_name(&self) -> (r: &str) {
        "PJSIPQualify"
    }

    fn to_headers(&self) -> (r: Vec<(String, String)>) {
        let mut h = new_headers();
        push_header(&mut h, "Endpoint", self.endpoint.clone());
        h
    }
}

/// register a pjsip outbound registration
pub struct PJSIPRegisterAction {
    pub registration: String,
}

impl AmiAction for PJSIPRegisterAction {
    open spec fn name_view(&self) -> Seq<char> {
        "PJSIPRegister"@
    }

    open spec fn headers_view(&self) -> Seq<(Seq<char>, Seq<char>)> {
        Seq::empty().push(("Registration"@, self.registration@))
    }

    fn action_name(&self) -> (r: &str) {
        "PJSIPRegister"
    }

    fn to_headers(&self) -> (r: Vec<(String, String)>) {
        let mut h = new_headers();
        push_header(&mut h, "Registration", self.registration.clone());
        h
    }
}

/// unregister a pjsip outbound registration
pub struct PJSIPUnregisterAction {
    pub registration: String,
}

impl AmiAction for PJSIPUnregisterAction {
    open spec fn name_view(&self) -> Seq<char> {
        "PJSIPUnregister"@
    }

    open spec fn headers_view(&self) -> Seq<(Seq<char>, Seq<char>)> {
        Seq::empty().push(("Registration"@, self.registration@))
    }

    fn action_name(&self) -> (r: &str) {
        "PJSIPUnregister"
    }

    fn to_headers(&self) -> (r: Vec<(String, String)>) {
        let mut h = new_headers();
        push_header(&mut h, "Registration", self.registration.clone());
        h
    }
}

/// list inbound pjsip registrations
pub struct PJSIPShowRegistrationsInboundAction;

impl AmiAction for PJSIPShowRegistrationsInboundAction {
    open spec fn name_view(&self) -> Seq<char> {
        "PJSIPShowRegistrationsInbound"@
    }

    open spec fn headers_view(&self) -> Seq<(Seq<char>, Seq<char>)> {
        Seq::empty()
    }

    fn action_name(&self) -> (r: &str) {
        "PJSIPShowRegistrationsInbound"
    }

    fn to_headers(&self) -> (r: Vec<(String, String)>) {
        let mut h = new_headers();
        h
    }
}

/// list outbound pjsip registrations
pub struct PJSIPShowRegistrationsOutboundAction;

impl AmiAction for PJSIPShowRegistrationsOutboundAction {
    open spec fn name_view(&self) -> Seq<char> {
        "PJSIPShowRegistrationsOutbound"@
    }

    open spec fn headers_view(&self) -> Seq<(Seq<char>, Seq<char>)> {
        Seq::empty()
    }

    fn action_name(&self) -> (r: &str) {
        "PJSIPShowRegistrationsOutbound"
    }

    fn to_headers(&self) -> (r: Vec<(String, String)>) {
        let mut h = new_headers();
        h
    }
}

/// list pjsip contacts
pub struct PJSIPShowContactsAction;

impl AmiAction for PJSIPShowContactsAction {
    open spec fn name_view(&self) -> Seq<char> {
        "PJSIPShowContacts"@
    }

    open spec fn headers_view(&self) -> Seq<(Seq<char>, Seq<char>)> {
        Seq::empty()
    }

    fn action_name(&self) -> (r: &str) {
        "PJSIPShowContacts"
    }

    fn to_headers(&self) -> (r: Vec<(String, String)>) {
        let mut h = new_headers();
        h
    }
}

/// list pjsip address of records
pub struct PJSIPShowAorsAction;

impl AmiAction for PJSIPShowAorsAction {
    open spec fn name_view(&self) -> Seq<char> {
        "PJSIPShowAors"@
    }

    open spec fn headers_view(&self) -> Seq<(Seq<char>, Seq<char>)> {
        Seq::empty()
    }

    fn action_name(&self) -> (r: &str) {
        "PJSIPShowAors"
    }

    fn to_headers(&self) -> (r: Vec<(String, String)>) {
        let mut h = new_headers();
        h
    }
}

/// list pjsip authentication objects
pub struct PJSIPShowAuthsAction;

impl AmiAction for PJSIPShowAuthsAction {
    open spec fn name_view(&self) -> Seq<char> {
        "PJSIPShowAuths"@
    }

    open spec fn headers_view(&self) -> Seq<(Seq<char>, Seq<char>)> {
        Seq::empty()
    }

    fn action_name(&self) -> (r: &str) {
        "PJSIPShowAuths"
    }

    fn to_headers(&self) -> (r: Vec<(String, String)>) {
        let mut h = new_headers();
        h
    }
}

/// send a notify to a pjsip endpoint
pub struct PJSIPNotifyAction {
    pub endpoint: String,
    pub variable: Vec<(String, String)>,
}

impl AmiAction for PJSIPNotifyAction {
    open spec fn name_view(&self) -> Seq<char> {
        "PJSIPNotify"@
    }

    open spec fn headers_view(&self) -> Seq<(Seq<char>, Seq<char>)> {
        Seq::empty().push(("Endpoint"@, self.endpoint@)) + assignments("Variable"@, pairs_view(self.variable@))
    }

    fn action_name(&self) -> (r: &str) {
        "PJSIPNotify"
    }

    fn to_headers(&self) -> (r: Vec<(String, String)>) {
        let mut h = new_headers();
        push_header(&mut h, "Endpoint", self.endpoint.clone());
        push_assignments(&mut h, "Variable", &self.variable);
        h
    }
}

/// hangup a pjsip channel
pub struct PJSIPHangupAction {
    pub channel: String,
    pub cause: Option<u32>,
}

impl AmiAction for PJSIPHangupAction {
    open spec fn name_view(&self) -> Seq<char> {
        "PJSIPHangup"@
    }

    open spec fn headers_view(&self) -> Seq<(Seq<char>, Seq<char>)> {
        Seq::empty().push(("Channel"@, self.channel@)) + opt_u32("Cause"@, self.cause)
    }

    fn action_name(&self) -> (r: &str) {
        "PJSIPHangup"
    }

    fn to_headers(&self) -> (r: Vec<(String, String)>) {
        let mut h = new_headers();
        push_header(&mut h, "Channel", self.channel.clone());
        push_opt_u32(&mut h, "Cause", self.cause);
        h
    }
}

/// query extension state
pub struct ExtensionStateAction {
    pub exten: String,
    pub context: String,
}

impl AmiAction for ExtensionStateAction {
    open spec fn name_view(&self) -> Seq<char> {
        "ExtensionState"@
    }

    open spec fn headers_view(&self) -> Seq<(Seq<char>, Seq<char>)> {
        Seq::empty().push(("Exten"@, self.exten@)).push(("Context"@, self.context@))
    }

    fn action_name(&self) -> (r: &str) {
        "ExtensionState"
    }

    fn to_headers(&self) -> (r: Vec<(String, String)>) {
        let mut h = new_headers();
        push_header(&mut h, "Exten", self.exten.clone());
        push_header(&mut h, "Context", self.context.clone());
        h
    }
}

/// list all extension states
pub struct ExtensionStateListAction;

impl AmiAction for ExtensionStateListAction {
    open spec fn name_view(&self) -> Seq<char> {
        "ExtensionStateList"@
    }

    open spec fn headers_view(&self) -> Seq<(Seq<char>, Seq<char>)> {
        Seq::empty()
    }

    fn action_name(&self) -> (r: &str) {
        "ExtensionStateList"
    }

    fn to_headers(&self) -> (r: Vec<(String, String)>) {
        let mut h = new_headers();
        h
    }
}

/// list all device states
pub struct DeviceStateListAction;

impl AmiAction for DeviceStateListAction {
    open spec fn name_view(&self) -> Seq<char> {
        "DeviceStateList"@
    }

    open spec fn headers_view(&self) -> Seq<(Seq<char>, Seq<char>)> {
        Seq::empty()
    }

    fn action_name(&self) -> (r: &str) {
        "DeviceStateList"
    }

    fn to_headers(&self) -> (r: Vec<(String, String)>) {
        let mut h = new_headers();
        h
    }
}

/// query presence state for a provider
pub struct PresenceStateAction {
    pub provider: String,
}

impl AmiAction for PresenceStateAction {
    open spec fn name_view(&self) -> Seq<char> {
        "PresenceState"@
    }

    open spec fn headers_view(&self) -> Seq<(Seq<char>, Seq<char>)> {
        Seq::empty().push(("Provider"@, self.provider@))
    }

    fn action_name(&self) -> (r: &str) {
        "PresenceState"
    }

    fn to_headers(&self) -> (r: Vec<(String, String)>) {
        let mut h = new_headers();
        push_header(&mut h, "Provider", self.provider.clone());
        h
    }
}

/// list all presence states
pub struct PresenceStateListAction;

impl AmiAction for PresenceStateListAction {
    open spec fn name_view(&self) -> Seq<char> {
        "PresenceStateList"@
    }

    open spec fn headers_view(&self) -> Seq<(Seq<char>, Seq<char>)> {
        Seq::empty()
    }

    fn action_name(&self) -> (r: &str) {
        "PresenceStateList"
    }

    fn to_headers(&self) -> (r: Vec<(String, String)>) {
        let mut h = new_headers();
        h
    }
}

/// add an extension to the dialplan
pub struct DialplanExtensionAddAction {
    pub context: String,
    pub extension: String,
    pub priority: String,
    pub application: String,
}

impl AmiAction for DialplanExtensionAddAction {
    open spec fn name_view(&self) -> Seq<char> {
        "DialplanExtensionAdd"@
    }

    open spec fn headers_view(&self) -> Seq<(Seq<char>, Seq<char>)> {
        Seq::empty().push(("Context"@, self.context@)).push(("Extension"@, self.extension@)).push(("Priority"@, self.priority@)).push(("Application"@, self.application@))
    }

    fn action_name(&self) -> (r: &str) {
        "DialplanExtensionAdd"
    }

    fn to_headers(&self) -> (r: Vec<(String, String)>) {
        let mut h = new_headers();
        push_header(&mut h, "Context", self.context.clone());
        push_header(&mut h, "Extension", self.extension.clone());
        push_header(&mut h, "Priority", self.priority.clone());
        push_header(&mut h, "Application", self.application.clone());
        h
    }
}

/// remove an extension from the dialplan
pub struct DialplanExtensionRemoveAction {
    pub context: String,
    pub extension: String,
    pub priority: Option<String>,
}

impl AmiAction for DialplanExtensionRemoveAction {
    open spec fn name_view(&self) -> Seq<char> {
        "DialplanExtensionRemove"@
    }

    open spec fn headers_view(&self) -> Seq<(Seq<char>, Seq<char>)> {
        Seq::empty().push(("Context"@, self.context@)).push(("Extension"@, self.extension@)) + opt_text("Priority"@, self.priority)
    }

    fn action_name(&self) -> (r: &str) {
        "DialplanExtensionRemove"
    }

    fn to_headers(&self) -> (r: Vec<(String, String)>) {
        let mut h = new_headers();
        push_header(&mut h, "Context", self.context.clone());
        push_header(&mut h, "Extension", self.extension.clone());
        push_opt_text(&mut h, "Priority", &self.priority);
        h
    }
}

/// request local channel optimization
pub struct LocalOptimizeAwayAction {
    pub channel: String,
}

impl AmiAction for LocalOptimizeAwayAction {
    open spec fn name_view(&self) -> Seq<char> {
        "LocalOptimizeAway"@
    }

    open spec fn headers_view(&self) -> Seq<(Seq<char>, Seq<char>)> {
        Seq::empty().push(("Channel"@, self.channel@))
    }

    fn action_name(&self) -> (r: &str) {
        "LocalOptimizeAway"
    }

    fn to_headers(&self) -> (r: Vec<(String, String)>) {
        let mut h = new_headers();
        push_header(&mut h, "Channel", self.channel.clone());
        h
    }
}

/// get mailbox message count
pub struct MailboxCountAction {
    pub mailbox: String,
}

impl AmiAction for MailboxCountAction {
    open spec fn name_view(&self) -> Seq<char> {
        "MailboxCount"@
    }

    open spec fn headers_view(&self) -> Seq<(Seq<char>, Seq<char>)> {
        Seq::empty().push(("Mailbox"@, self.mailbox@))
    }

    fn action_name(&self) -> (r: &str) {
        "MailboxCount"
    }

    fn to_headers(&self) -> (r: Vec<(String, String)>) {
        let mut h = new_headers();
        push_header(&mut h, "Mailbox", self.mailbox.clone());
        h
    }
}

/// get mailbox status
pub struct MailboxStatusAction {
    pub mailbox: String,
}

impl AmiAction for MailboxStatusAction {
    open spec fn name_view(&self) -> Seq<char> {
        "MailboxStatus"@
    }

    open spec fn headers_view(&self) -> Seq<(Seq<char>, Seq<char>)> {
        Seq::empty().push(("Mailbox"@, self.mailbox@))
    }

    fn action_name(&self) -> (r: &str) {
        "MailboxStatus"
    }

    fn to_headers(&self) -> (r: Vec<(String, String)>) {
        let mut h = new_headers();
        push_header(&mut h, "Mailbox", self.mailbox.clone());
        h
    }
}

/// get message waiting indicator state
pub struct MWIGetAction {
    pub mailbox: String,
}

impl AmiAction for MWIGetAction {
    open spec fn name_view(&self) -> Seq<char> {
        "MWIGet"@
    }

    open spec fn headers_view(&self) -> Seq<(Seq<char>, Seq<char>)> {
        Seq::empty().push(("Mailbox"@, self.mailbox@))
    }

    fn action_name(&self) -> (r: &str) {
        "MWIGet"
    }

    fn to_headers(&self) -> (r: Vec<(String, String)>) {
        let mut h = new_headers();
        push_header(&mut h, "Mailbox", self.mailbox.clone());
        h
    }
}

/// update message waiting indicator
pub struct MWIUpdateAction {
    pub mailbox: String,
    pub old_messages: Option<u32>,
    pub new_messages: Option<u32>,
}

impl AmiAction for MWIUpdateAction {
    open spec fn name_view(&self) -> Seq<char> {
        "MWIUpdate"@
    }

    open spec fn headers_view(&self) -> Seq<(Seq<char>, Seq<char>)> {
        Seq::empty().push(("Mailbox"@, self.mailbox@)) + opt_u32("OldMessages"@, self.old_messages) + opt_u32("NewMessages"@, self.new_messages)
    }

    fn action_name(&self) -> (r: &str) {
        "MWIUpdate"
    }

    fn to_headers(&self) -> (r: Vec<(String, String)>) {
        let mut h = new_headers();
        push_header(&mut h, "Mailbox", self.mailbox.clone());
        push_opt_u32(&mut h, "OldMessages", self.old_messages);
        push_opt_u32(&mut h, "NewMessages", self.new_messages);
        h
    }
}

/// delete message waiting indicator
pub struct MWIDeleteAction {
    pub mailbox: String,
}

impl AmiAction for MWIDeleteAction {
    open spec fn name_view(&self) -> Seq<char> {
        "MWIDelete"@
    }

    open spec fn headers_view(&self) -> Seq<(Seq<char>, Seq<char>)> {
        Seq::empty().push(("Mailbox"@, self.mailbox@))
    }

    fn action_name(&self) -> (r: &str) {
        "MWIDelete"
    }

    fn to_headers(&self) -> (r: Vec<(String, String)>) {
        let mut h = new_headers();
        push_header(&mut h, "Mailbox", self.mailbox.clone());
        h
    }
}

/// send a text message
pub struct MessageSendAction {
    pub to: String,
    pub from: Option<String>,
    pub body: Option<String>,
}

impl AmiAction for MessageSendAction {
    open spec fn name_view(&self) -> Seq<char> {
        "MessageSend"@
    }

    open spec fn headers_view(&self) -> Seq<(Seq<char>, Seq<char>)> {
        Seq::empty().push(("To"@, self.to@)) + opt_text("From"@, self.from) + opt_text("Body"@, self.body)
    }

    fn action_name(&self) -> (r: &str) {
        "MessageSend"
    }

    fn to_headers(&self) -> (r: Vec<(String, String)>) {
        let mut h = new_headers();
        push_header(&mut h, "To", self.to.clone());
        push_opt_text(&mut h, "From", &self.from);
        push_opt_text(&mut h, "Body", &self.body);
        h
    }
}

/// list voicemail users
pub struct VoicemailUsersListAction;

impl AmiAction for VoicemailUsersListAction {
    open spec fn name_view(&self) -> Seq<char> {
        "VoicemailUsersList"@
    }

    open spec fn headers_view(&self) -> Seq<(Seq<char>, Seq<char>)> {
        Seq::empty()
    }

    fn action_name(&self) -> (r: &str) {
        "VoicemailUsersList"
    }

    fn to_headers(&self) -> (r: Vec<(String, String)>) {
        let mut h = new_headers();
        h
    }
}

/// get voicemail user status
pub struct VoicemailUserStatusAction {
    pub context: String,
    pub mailbox: String,
}

impl AmiAction for VoicemailUserStatusAction {
    open spec fn name_view(&self) -> Seq<char> {
        "VoicemailUserStatus"@
    }

    open spec fn headers_view(&self) -> Seq<(Seq<char>, Seq<char>)> {
        Seq::empty().push(("Context"@, self.context@)).push(("Mailbox"@, self.mailbox@))
    }

    fn action_name(&self) -> (r: &str) {
        "VoicemailUserStatus"
    }

    fn to_headers(&self) -> (r: Vec<(String, String)>) {
        let mut h = new_headers();
        push_header(&mut h, "Context", self.context.clone());
        push_header(&mut h, "Mailbox", self.mailbox.clone());
        h
    }
}

/// refresh voicemail state
pub struct VoicemailRefreshAction {
    pub context: Option<String>,
    pub mailbox: Option<String>,
}

impl AmiAction for VoicemailRefreshAction {
    open spec fn name_view(&self) -> Seq<char> {
        "VoicemailRefresh"@
    }

    open spec fn headers_view(&self) -> Seq<(Seq<char>, Seq<char>)> {
        Seq::empty() + opt_text("Context"@, self.context) + opt_text("Mailbox"@, self.mailbox)
    }

    fn action_name(&self) -> (r: &str) {
        "VoicemailRefresh"
    }

    fn to_headers(&self) -> (r: Vec<(String, String)>) {
        let mut h = new_headers();
        push_opt_text(&mut h, "Context", &self.context);
        push_opt_text(&mut h, "Mailbox", &self.mailbox);
        h
    }
}

/// get voicemail box summary
pub struct VoicemailBoxSummaryAction {
    pub context: String,
    pub mailbox: String,
}

impl AmiAction for VoicemailBoxSummaryAction {
    open spec fn name_view(&self) -> Seq<char> {
        "VoicemailBoxSummary"@
    }

    open spec fn headers_view(&self) -> Seq<(Seq<char>, Seq<char>)> {
        Seq::empty().push(("Context"@, self.context@)).push(("Mailbox"@, self.mailbox@))
    }

    fn action_name(&self) -> (r: &str) {
        "VoicemailBoxSummary"
    }

    fn to_headers(&self) -> (r: Vec<(String, String)>) {
        let mut h = new_headers();
        push_header(&mut h, "Context", self.context.clone());
        push_header(&mut h, "Mailbox", self.mailbox.clone());
        h
    }
}

/// list meetme conference participants
pub struct MeetmeListAction {
    pub conference: Option<String>,
}

impl AmiAction for MeetmeListAction {
    open spec fn name_view(&self) -> Seq<char> {
        "MeetmeList"@
    }

    open spec fn headers_view(&self) -> Seq<(Seq<char>, Seq<char>)> {
        Seq::empty() + opt_text("Conference"@, self.conference)
    }

    fn action_name(&self) -> (r: &str) {
        "MeetmeList"
    }

    fn to_headers(&self) -> (r: Vec<(String, String)>) {
        let mut h = new_headers();
        push_opt_text(&mut h, "Conference", &self.conference);
        h
    }
}

/// list active meetme rooms
pub struct MeetmeListRoomsAction;

impl AmiAction for MeetmeListRoomsAction {
    open spec fn name_view(&self) -> Seq<char> {
        "MeetmeListRooms"@
    }

    open spec fn headers_view(&self) -> Seq<(Seq<char>, Seq<char>)> {
        Seq::empty()
    }

    fn action_name(&self) -> (r: &str) {
        "MeetmeListRooms"
    }

    fn to_headers(&self) -> (r: Vec<(String, String)>) {
        let mut h = new_headers();
        h
    }
}

/// mute a meetme participant
pub struct MeetmeMuteAction {
    pub meetme: String,
    pub usernum: String,
}

impl AmiAction for MeetmeMuteAction {
    open spec fn name_view(&self) -> Seq<char> {
        "MeetmeMute"@
    }

    open spec fn headers_view(&self) -> Seq<(Seq<char>, Seq<char>)> {
        Seq::empty().push(("Meetme"@, self.meetme@)).push(("Usernum"@, self.usernum@))
    }

    fn action_name(&self) -> (r: &str) {
        "MeetmeMute"
    }

    fn to_headers(&self) -> (r: Vec<(String, String)>) {
        let mut h = new_headers();
        push_header(&mut h, "Meetme", self.meetme.clone());
        push_header(&mut h, "Usernum", self.usernum.clone());
        h
    }
}

/// unmute a meetme participant
pub struct MeetmeUnmuteAction {
    pub meetme: String,
    pub usernum: String,
}

impl AmiAction for MeetmeUnmuteAction {
    open spec fn name_view(&self) -> Seq<char> {
        "MeetmeUnmute"@
    }

    open spec fn headers_view(&self) -> Seq<(Seq<char>, Seq<char>)> {
        Seq::empty().push(("Meetme"@, self.meetme@)).push(("Usernum"@, self.usernum@))
    }

    fn action_name(&self) -> (r: &str) {
        "MeetmeUnmute"
    }

    fn to_headers(&self) -> (r: Vec<(String, String)>) {
        let mut h = new_headers();
        push_header(&mut h, "Meetme", self.meetme.clone());
        push_header(&mut h, "Usernum", self.usernum.clone());
        h
    }
}

/// log off an agent
pub struct AgentLogoffAction {
    pub agent: String,
    pub soft: Option<bool>,
}

impl AmiAction for AgentLogoffAction {
    open spec fn name_view(&self) -> Seq<char> {
        "AgentLogoff"@
    }

    open spec fn headers_view(&self) -> Seq<(Seq<char>, Seq<char>)> {
        Seq::empty().push(("Agent"@, self.agent@)) + opt_bool("Soft"@, self.soft)
    }

    fn action_name(&self) -> (r: &str) {
        "AgentLogoff"
    }

    fn to_headers(&self) -> (r: Vec<(String, String)>) {
        let mut h = new_headers();
        push_header(&mut h, "Agent", self.agent.clone());
        push_opt_bool(&mut h, "Soft", self.soft);
        h
    }
}

/// list agents
pub struct AgentsAction;

impl AmiAction for AgentsAction {
    open spec fn name_view(&self) -> Seq<char> {
        "Agents"@
    }

    open spec fn headers_view(&self) -> Seq<(Seq<char>, Seq<char>)> {
        Seq::empty()
    }

    fn action_name(&self) -> (r: &str) {
        "Agents"
    }

    fn to_headers(&self) -> (r: Vec<(String, String)>) {
        let mut h = new_headers();
        h
    }
}

/// get info about a fax session
pub struct FAXSessionAction {
    pub session_number: String,
}

impl AmiAction for FAXSessionAction {
    open spec fn name_view(&self) -> Seq<char> {
        "FAXSession"@
    }

    open spec fn headers_view(&self) -> Seq<(Seq<char>, Seq<char>)> {
        Seq::empty().push(("SessionNumber"@, self.session_number@))
    }

    fn action_name(&self) -> (r: &str) {
        "FAXSession"
    }

    fn to_headers(&self) -> (r: Vec<(String, String)>) {
        let mut h = new_headers();
        push_header(&mut h, "SessionNumber", self.session_number.clone());
        h
    }
}

/// list active fax sessions
pub struct FAXSessionsAction;

impl AmiAction for FAXSessionsAction {
    open spec fn name_view(&self) -> Seq<char> {
        "FAXSessions"@
    }

    open spec fn headers_view(&self) -> Seq<(Seq<char>, Seq<char>)> {
        Seq::empty()
    }

    fn action_name(&self) -> (r: &str) {
        "FAXSessions"
    }

    fn to_headers(&self) -> (r: Vec<(String, String)>) {
        let mut h = new_headers();
        h
    }
}

/// get fax statistics
pub struct FAXStatsAction;

impl AmiAction for FAXStatsAction {
    open spec fn name_view(&self) -> Seq<char> {
        "FAXStats"@
    }

    open spec fn headers_view(&self) -> Seq<(Seq<char>, Seq<char>)> {
        Seq::empty()
    }

    fn action_name(&self) -> (r: &str) {
        "FAXStats"
    }

    fn to_headers(&self) -> (r: Vec<(String, String)>) {
        let mut h = new_headers();
        h
    }
}

/// send an advice of charge message
pub struct AOCMessageAction {
    pub channel: String,
    pub msg_type: String,
    pub charge_type: String,
}

impl AmiAction for AOCMessageAction {
    open spec fn name_view(&self) -> Seq<char> {
        "AOCMessage"@
    }

    open spec fn headers_view(&self) -> Seq<(Seq<char>, Seq<char>)> {
        Seq::empty().push(("Channel"@, self.channel@)).push(("MsgType"@, self.msg_type@)).push(("ChargeType"@, self.charge_type@))
    }

    fn action_name(&self) -> (r: &str) {
        "AOCMessage"
    }

    fn to_headers(&self) -> (r: Vec<(String, String)>) {
        let mut h = new_headers();
        push_header(&mut h, "Channel", self.channel.clone());
        push_header(&mut h, "MsgType", self.msg_type.clone());
        push_header(&mut h, "ChargeType", self.charge_type.clone());
        h
    }
}

/// send a flash signal on a channel
pub struct SendFlashAction {
    pub channel: String,
}

impl AmiAction for SendFlashAction {
    open spec fn name_view(&self) -> Seq<char> {
        "SendFlash"@
    }

    open spec fn headers_view(&self) -> Seq<(Seq<char>, Seq<char>)> {
        Seq::empty().push(("Channel"@, self.channel@))
    }

    fn action_name(&self) -> (r: &str) {
        "SendFlash"
    }

    fn to_headers(&self) -> (r: Vec<(String, String)>) {
        let mut h = new_headers();
        push_header(&mut h, "Channel", self.channel.clone());
        h
    }
}

/// play an MF digit on a channel
pub struct PlayMFAction {
    pub channel: String,
    pub digit: String,
    pub duration: Option<u32>,
}

impl AmiAction for PlayMFAction {
    open spec fn name_view(&self) -> Seq<char> {
        "PlayMF"@
    }

    open spec fn headers_view(&self) -> Seq<(Seq<char>, Seq<char>)> {
        Seq::empty().push(("Channel"@, self.channel@)).push(("Digit"@, self.digit@)) + opt_u32("Duration"@, self.duration)
    }

    fn action_name(&self) -> (r: &str) {
        "PlayMF"
    }

    fn to_headers(&self) -> (r: Vec<(String, String)>) {
        let mut h = new_headers();
        push_header(&mut h, "Channel", self.channel.clone());
        push_header(&mut h, "Digit", self.digit.clone());
        push_opt_u32(&mut h, "Duration", self.duration);
        h
    }
}

/// disable do not disturb on a DAHDI channel
pub struct DAHDIDNDoffAction {
    pub dahdi_channel: String,
}

impl AmiAction for DAHDIDNDoffAction {
    open spec fn name_view(&self) -> Seq<char> {
        "DAHDIDNDoff"@
    }

    open spec fn headers_view(&self) -> Seq<(Seq<char>, Seq<char>)> {
        Seq::empty().push(("DAHDIChannel"@, self.dahdi_channel@))
    }

    fn action_name(&self) -> (r: &str) {
        "DAHDIDNDoff"
    }

    fn to_headers(&self) -> (r: Vec<(String, String)>) {
        let mut h = new_headers();
        push_header(&mut h, "DAHDIChannel", self.dahdi_channel.clone());
        h
    }
}

/// enable do not disturb on a DAHDI channel
pub struct DAHDIDNDonAction {
    pub dahdi_channel: String,
}

impl AmiAction for DAHDIDNDonAction {
    open spec fn name_view(&self) -> Seq<char> {
        "DAHDIDNDon"@
    }

    open spec fn headers_view(&self) -> Seq<(Seq<char>, Seq<char>)> {
        Seq::empty().push(("DAHDIChannel"@, self.dahdi_channel@))
    }

    fn action_name(&self) -> (r: &str) {
        "DAHDIDNDon"
    }

    fn to_headers(&self) -> (r: Vec<(String, String)>) {
        let mut h = new_headers();
        push_header(&mut h, "DAHDIChannel", self.dahdi_channel.clone());
        h
    }
}

/// dial a number on a DAHDI channel that is off hook
pub struct DAHDIDialOffhookAction {
    pub dahdi_channel: String,
    pub number: String,
}

impl AmiAction for DAHDIDialOffhookAction {
    open spec fn name_view(&self) -> Seq<char> {
        "DAHDIDialOffhook"@
    }

    open spec fn headers_view(&self) -> Seq<(Seq<char>, Seq<char>)> {
        Seq::empty().push(("DAHDIChannel"@, self.dahdi_channel@)).push(("Number"@, self.number@))
    }

    fn action_name(&self) -> (r: &str) {
        "DAHDIDialOffhook"
    }

    fn to_headers(&self) -> (r: Vec<(String, String)>) {
        let mut h = new_headers();
        push_header(&mut h, "DAHDIChannel", self.dahdi_channel.clone());
        push_header(&mut h, "Number", self.number.clone());
        h
    }
}

/// hangup a DAHDI channel
pub struct DAHDIHangupAction {
    pub dahdi_channel: String,
}

impl AmiAction for DAHDIHangupAction {
    open spec fn name_view(&self) -> Seq<char> {
        "DAHDIHangup"@
    }

    open spec fn headers_view(&self) -> Seq<(Seq<char>, Seq<char>)> {
        Seq::empty().push(("DAHDIChannel"@, self.dahdi_channel@))
    }

    fn action_name(&self) -> (r: &str) {
        "DAHDIHangup"
    }

    fn to_headers(&self) -> (r: Vec<(String, String)>) {
        let mut h = new_headers();
        push_header(&mut h, "DAHDIChannel", self.dahdi_channel.clone());
        h
    }
}

/// restart the DAHDI channels
pub struct DAHDIRestartAction;

impl AmiAction for DAHDIRestartAction {
    open spec fn name_view(&self) -> Seq<char> {
        "DAHDIRestart"@
    }

    open spec fn headers_view(&self) -> Seq<(Seq<char>, Seq<char>)> {
        Seq::empty()
    }

    fn action_name(&self) -> (r: &str) {
        "DAHDIRestart"
    }

    fn to_headers(&self) -> (r: Vec<(String, String)>) {
        let mut h = new_headers();
        h
    }
}

/// show DAHDI channel information
pub struct DAHDIShowChannelsAction {
    pub dahdi_channel: Option<String>,
}

impl AmiAction for DAHDIShowChannelsAction {
    open spec fn name_view(&self) -> Seq<char> {
        "DAHDIShowChannels"@
    }

    open spec fn headers_view(&self) -> Seq<(Seq<char>, Seq<char>)> {
        Seq::empty() + opt_text("DAHDIChannel"@, self.dahdi_channel)
    }

    fn action_name(&self) -> (r: &str) {
        "DAHDIShowChannels"
    }

    fn to_headers(&self) -> (r: Vec<(String, String)>) {
        let mut h = new_headers();
        push_opt_text(&mut h, "DAHDIChannel", &self.dahdi_channel);
        h
    }
}

/// show DAHDI status
pub struct DAHDIShowStatusAction;

impl AmiAction for DAHDIShowStatusAction {
    open spec fn name_view(&self) -> Seq<char> {
        "DAHDIShowStatus"@
    }

    open spec fn headers_view(&self) -> Seq<(Seq<char>, Seq<char>)> {
        Seq::empty()
    }

    fn action_name(&self) -> (r: &str) {
        "DAHDIShowStatus"
    }

    fn to_headers(&self) -> (r: Vec<(String, String)>) {
        let mut h = new_headers();
        h
    }
}

/// transfer a DAHDI channel
pub struct DAHDITransferAction {
    pub dahdi_channel: String,
}

impl AmiAction for DAHDITransferAction {
    open spec fn name_view(&self) -> Seq<char> {
        "DAHDITransfer"@
    }

    open spec fn headers_view(&self) -> Seq<(Seq<char>, Seq<char>)> {
        Seq::empty().push(("DAHDIChannel"@, self.dahdi_channel@))
    }

    fn action_name(&self) -> (r: &str) {
        "DAHDITransfer"
    }

    fn to_headers(&self) -> (r: Vec<(String, String)>) {
        let mut h = new_headers();
        push_header(&mut h, "DAHDIChannel", self.dahdi_channel.clone());
        h
    }
}

/// show IAX2 network statistics
pub struct IAXnetstatsAction;

impl AmiAction for IAXnetstatsAction {
    open spec fn name_view(&self) -> Seq<char> {
        "IAXnetstats"@
    }

    open spec fn headers_view(&self) -> Seq<(Seq<char>, Seq<char>)> {
        Seq::empty()
    }

    fn action_name(&self) -> (r: &str) {
        "IAXnetstats"
    }

    fn to_headers(&self) -> (r: Vec<(String, String)>) {
        let mut h = new_headers();
        h
    }
}

/// list IAX2 peers
pub struct IAXpeerlistAction;

impl AmiAction for IAXpeerlistAction {
    open spec fn name_view(&self) -> Seq<char> {
        "IAXpeerlist"@
    }

    open spec fn headers_view(&self) -> Seq<(Seq<char>, Seq<char>)> {
        Seq::empty()
    }

    fn action_name(&self) -> (r: &str) {
        "IAXpeerlist"
    }

    fn to_headers(&self) -> (r: Vec<(String, String)>) {
        let mut h = new_headers();
        h
    }
}

/// list IAX2 peers (compact)
pub struct IAXpeersAction;

impl AmiAction for IAXpeersAction {
    open spec fn name_view(&self) -> Seq<char> {
        "IAXpeers"@
    }

    open spec fn headers_view(&self) -> Seq<(Seq<char>, Seq<char>)> {
        Seq::empty()
    }

    fn action_name(&self) -> (r: &str) {
        "IAXpeers"
    }

    fn to_headers(&self) -> (r: Vec<(String, String)>) {
        let mut h = new_headers();
        h
    }
}

/// list IAX2 registrations
pub struct IAXregistryAction;

impl AmiAction for IAXregistryAction {
    open spec fn name_view(&self) -> Seq<char> {
        "IAXregistry"@
    }

    open spec fn headers_view(&self) -> Seq<(Seq<char>, Seq<char>)> {
        Seq::empty()
    }

    fn action_name(&self) -> (r: &str) {
        "IAXregistry"
    }

    fn to_headers(&self) -> (r: Vec<(String, String)>) {
        let mut h = new_headers();
        h
    }
}

/// set the PRI debug log file
pub struct PRIDebugFileSetAction {
    pub filename: String,
}

impl AmiAction for PRIDebugFileSetAction {
    open spec fn name_view(&self) -> Seq<char> {
        "PRIDebugFileSet"@
    }

    open spec fn headers_view(&self) -> Seq<(Seq<char>, Seq<char>)> {
        Seq::empty().push(("Filename"@, self.filename@))
    }

    fn action_name(&self) -> (r: &str) {
        "PRIDebugFileSet"
    }

    fn to_headers(&self) -> (r: Vec<(String, String)>) {
        let mut h = new_headers();
        push_header(&mut h, "Filename", self.filename.clone());
        h
    }
}

/// unset the PRI debug log file
pub struct PRIDebugFileUnsetAction;

impl AmiAction for PRIDebugFileUnsetAction {
    open spec fn name_view(&self) -> Seq<char> {
        "PRIDebugFileUnset"@
    }

    open spec fn headers_view(&self) -> Seq<(Seq<char>, Seq<char>)> {
        Seq::empty()
    }

    fn action_name(&self) -> (r: &str) {
        "PRIDebugFileUnset"
    }

    fn to_headers(&self) -> (r: Vec<(String, String)>) {
        let mut h = new_headers();
        h
    }
}

/// set the PRI debug level for a span
pub struct PRIDebugSetAction {
    pub span: u32,
    pub level: u32,
}

impl AmiAction for PRIDebugSetAction {
    open spec fn name_view(&self) -> Seq<char> {
        "PRIDebugSet"@
    }

    open spec fn headers_view(&self) -> Seq<(Seq<char>, Seq<char>)> {
        Seq::empty().push(("Span"@, dec(self.span as nat))).push(("Level"@, dec(self.level as nat)))
    }

    fn action_name(&self) -> (r: &str) {
        "PRIDebugSet"
    }

    fn to_headers(&self) -> (r: Vec<(String, String)>) {
        let mut h = new_headers();
        push_header(&mut h, "Span", u32_to_string(self.span));
        push_header(&mut h, "Level", u32_to_string(self.level));
        h
    }
}

/// show PRI spans
pub struct PRIShowSpansAction {
    pub span: Option<u32>,
}

impl AmiAction for PRIShowSpansAction {
    open spec fn name_view(&self) -> Seq<char> {
        "PRIShowSpans"@
    }

    open spec fn headers_view(&self) -> Seq<(Seq<char>, Seq<char>)> {
        Seq::empty() + opt_u32("Span"@, self.span)
    }

    fn action_name(&self) -> (r: &str) {
        "PRIShowSpans"
    }

    fn to_headers(&self) -> (r: Vec<(String, String)>) {
        let mut h = new_headers();
        push_opt_u32(&mut h, "Span", self.span);
        h
    }
}

/// list available bridge technologies
pub struct BridgeTechnologyListAction;

impl AmiAction for BridgeTechnologyListAction {
    open spec fn name_view(&self) -> Seq<char> {
        "BridgeTechnologyList"@
    }

    open spec fn headers_view(&self) -> Seq<(Seq<char>, Seq<char>)> {
        Seq::empty()
    }

    fn action_name(&self) -> (r: &str) {
        "BridgeTechnologyList"
    }

    fn to_headers(&self) -> (r: Vec<(String, String)>) {
        let mut h = new_headers();
        h
    }
}

/// suspend a bridge technology
pub struct BridgeTechnologySuspendAction {
    pub bridge_technology: String,
}

impl AmiAction for BridgeTechnologySuspendAction {
    open spec fn name_view(&self) -> Seq<char> {
        "BridgeTechnologySuspend"@
    }

    open spec fn headers_view(&self) -> Seq<(Seq<char>, Seq<char>)> {
        Seq::empty().push(("BridgeTechnology"@, self.bridge_technology@))
    }

    fn action_name(&self) -> (r: &str) {
        "BridgeTechnologySuspend"
    }

    fn to_headers(&self) -> (r: Vec<(String, String)>) {
        let mut h = new_headers();
        push_header(&mut h, "BridgeTechnology", self.bridge_technology.clone());
        h
    }
}

/// unsuspend a bridge technology
pub struct BridgeTechnologyUnsuspendAction {
    pub bridge_technology: String,
}

impl AmiAction for BridgeTechnologyUnsuspendAction {
    open spec fn name_view(&self) -> Seq<char> {
        "BridgeTechnologyUnsuspend"@
    }

    open spec fn headers_view(&self) -> Seq<(Seq<char>, Seq<char>)> {
        Seq::empty().push(("BridgeTechnology"@, self.bridge_technology@))
    }

    fn action_name(&self) -> (r: &str) {
        "BridgeTechnologyUnsuspend"
    }

    fn to_headers(&self) -> (r: Vec<(String, String)>) {
        let mut h = new_headers();
        push_header(&mut h, "BridgeTechnology", self.bridge_technology.clone());
        h
    }
}

/// show PJSIP inbound registration contact statuses
pub struct PJSIPShowRegistrationInboundContactStatusesAction;

impl AmiAction for PJSIPShowRegistrationInboundContactStatusesAction {
    open spec fn name_view(&self) -> Seq<char> {
        "PJSIPShowRegistrationInboundContactStatuses"@
    }

    open spec fn headers_view(&self) -> Seq<(Seq<char>, Seq<char>)> {
        Seq::empty()
    }

    fn action_name(&self) -> (r: &str) {
        "PJSIPShowRegistrationInboundContactStatuses"
    }

    fn to_headers(&self) -> (r: Vec<(String, String)>) {
        let mut h = new_headers();
        h
    }
}

/// show PJSIP resource lists
pub struct PJSIPShowResourceListsAction;

impl AmiAction for PJSIPShowResourceListsAction {
    open spec fn name_view(&self) -> Seq<char> {
        "PJSIPShowResourceLists"@
    }

    open spec fn headers_view(&self) -> Seq<(Seq<char>, Seq<char>)> {
        Seq::empty()
    }

    fn action_name(&self) -> (r: &str) {
        "PJSIPShowResourceLists"
    }

    fn to_headers(&self) -> (r: Vec<(String, String)>) {
        let mut h = new_headers();
        h
    }
}

/// show PJSIP inbound subscriptions
pub struct PJSIPShowSubscriptionsInboundAction;

impl AmiAction for PJSIPShowSubscriptionsInboundAction {
    open spec fn name_view(&self) -> Seq<char> {
        "PJSIPShowSubscriptionsInbound"@
    }

    open spec fn headers_view(&self) -> Seq<(Seq<char>, Seq<char>)> {
        Seq::empty()
    }

    fn action_name(&self) -> (r: &str) {
        "PJSIPShowSubscriptionsInbound"
    }

    fn to_headers(&self) -> (r: Vec<(String, String)>) {
        let mut h = new_headers();
        h
    }
}

/// show PJSIP outbound subscriptions
pub struct PJSIPShowSubscriptionsOutboundAction;

impl AmiAction for PJSIPShowSubscriptionsOutboundAction {
    open spec fn name_view(&self) -> Seq<char> {
        "PJSIPShowSubscriptionsOutbound"@
    }

    open spec fn headers_view(&self) -> Seq<(Seq<char>, Seq<char>)> {
        Seq::empty()
    }

    fn action_name(&self) -> (r: &str) {
        "PJSIPShowSubscriptionsOutbound"
    }

    fn to_headers(&self) -> (r: Vec<(String, String)>) {
        let mut h = new_headers();
        h
    }
}

/// change priority of a caller in a queue
pub struct QueueChangePriorityCallerAction {
    pub queue: String,
    pub caller: String,
    pub priority: u32,
}

impl AmiAction for QueueChangePriorityCallerAction {
    open spec fn name_view(&self) -> Seq<char> {
        "QueueChangePriorityCaller"@
    }

    open spec fn headers_view(&self) -> Seq<(Seq<char>, Seq<char>)> {
        Seq::empty().push(("Queue"@, self.queue@)).push(("Caller"@, self.caller@)).push(("Priority"@, dec(self.priority as nat)))
    }

    fn action_name(&self) -> (r: &str) {
        "QueueChangePriorityCaller"
    }

    fn to_headers(&self) -> (r: Vec<(String, String)>) {
        let mut h = new_headers();
        push_header(&mut h, "Queue", self.queue.clone());
        push_header(&mut h, "Caller", self.caller.clone());
        push_header(&mut h, "Priority", u32_to_string(self.priority));
        h
    }
}

/// set ring in use for a queue member
pub struct QueueMemberRingInUseAction {
    pub interface: String,
    pub ring_in_use: bool,
}

impl AmiAction for QueueMemberRingInUseAction {
    open spec fn name_view(&self) -> Seq<char> {
        "QueueMemberRingInUse"@
    }

    open spec fn headers_view(&self) -> Seq<(Seq<char>, Seq<char>)> {
        Seq::empty().push(("Interface"@, self.interface@)).push(("RingInUse"@, bool_text(self.ring_in_use)))
    }

    fn action_name(&self) -> (r: &str) {
        "QueueMemberRingInUse"
    }

    fn to_headers(&self) -> (r: Vec<(String, String)>) {
        let mut h = new_headers();
        push_header(&mut h, "Interface", self.interface.clone());
        push_header(&mut h, "RingInUse", bool_to_string(self.ring_in_use));
        h
    }
}

/// show a queue rule
pub struct QueueRuleAction {
    pub rule: String,
}

impl AmiAction for QueueRuleAction {
    open spec fn name_view(&self) -> Seq<char> {
        "QueueRule"@
    }

    open spec fn headers_view(&self) -> Seq<(Seq<char>, Seq<char>)> {
        Seq::empty().push(("Rule"@, self.rule@))
    }

    fn action_name(&self) -> (r: &str) {
        "QueueRule"
    }

    fn to_headers(&self) -> (r: Vec<(String, String)>) {
        let mut h = new_headers();
        push_header(&mut h, "Rule", self.rule.clone());
        h
    }
}

/// withdraw a caller from a queue
pub struct QueueWithdrawCallerAction {
    pub queue: String,
    pub caller: String,
}

impl AmiAction for QueueWithdrawCallerAction {
    open spec fn name_view(&self) -> Seq<char> {
        "QueueWithdrawCaller"@
    }

    open spec fn headers_view(&self) -> Seq<(Seq<char>, Seq<char>)> {
        Seq::empty().push(("Queue"@, self.queue@)).push(("Caller"@, self.caller@))
    }

    fn action_name(&self) -> (r: &str) {
        "QueueWithdrawCaller"
    }

    fn to_headers(&self) -> (r: Vec<(String, String)>) {
        let mut h = new_headers();
        push_header(&mut h, "Queue", self.queue.clone());
        push_header(&mut h, "Caller", self.caller.clone());
        h
    }
}

/// expire all objects in a sorcery memory cache
pub struct SorceryMemoryCacheExpireAction {
    pub cache: String,
}

impl AmiAction for SorceryMemoryCacheExpireAction {
    open spec fn name_view(&self) -> Seq<char> {
        "SorceryMemoryCacheExpire"@
    }

    open spec fn headers_view(&self) -> Seq<(Seq<char>, Seq<char>)> {
        Seq::empty().push(("Cache"@, self.cache@))
    }

    fn action_name(&self) -> (r: &str) {
        "SorceryMemoryCacheExpire"
    }

    fn to_headers(&self) -> (r: Vec<(String, String)>) {
        let mut h = new_headers();
        push_header(&mut h, "Cache", self.cache.clone());
        h
    }
}

/// expire a specific object in a sorcery memory cache
pub struct SorceryMemoryCacheExpireObjectAction {
    pub cache: String,
    pub object: String,
}

impl AmiAction for SorceryMemoryCacheExpireObjectAction {
    open spec fn name_view(&self) -> Seq<char> {
        "SorceryMemoryCacheExpireObject"@
    }

    open spec fn headers_view(&self) -> Seq<(Seq<char>, Seq<char>)> {
        Seq::empty().push(("Cache"@, self.cache@)).push(("Object"@, self.object@))
    }

    fn action_name(&self) -> (r: &str) {
        "SorceryMemoryCacheExpireObject"
    }

    fn to_headers(&self) -> (r: Vec<(String, String)>) {
        let mut h = new_headers();
        push_header(&mut h, "Cache", self.cache.clone());
        push_header(&mut h, "Object", self.object.clone());
        h
    }
}

/// populate a sorcery memory cache
pub struct SorceryMemoryCachePopulateAction {
    pub cache: String,
}

impl AmiAction for SorceryMemoryCachePopulateAction {
    open spec fn name_view(&self) -> Seq<char> {
        "SorceryMemoryCachePopulate"@
    }

    open spec fn headers_view(&self) -> Seq<(Seq<char>, Seq<char>)> {
        Seq::empty().push(("Cache"@, self.cache@))
    }

    fn action_name(&self) -> (r: &str) {
        "SorceryMemoryCachePopulate"
    }

    fn to_headers(&self) -> (r: Vec<(String, String)>) {
        let mut h = new_headers();
        push_header(&mut h, "Cache", self.cache.clone());
        h
    }
}

/// mark all objects in a sorcery memory cache as stale
pub struct SorceryMemoryCacheStaleAction {
    pub cache: String,
}

impl AmiAction for SorceryMemoryCacheStaleAction {
    open spec fn name_view(&self) -> Seq<char> {
        "SorceryMemoryCacheStale"@
    }

    open spec fn headers_view(&self) -> Seq<(Seq<char>, Seq<char>)> {
        Seq::empty().push(("Cache"@, self.cache@))
    }

    fn action_name(&self) -> (r: &str) {
        "SorceryMemoryCacheStale"
    }

    fn to_headers(&self) -> (r: Vec<(String, String)>) {
        let mut h = new_headers();
        push_header(&mut h, "Cache", self.cache.clone());
        h
    }
}

/// mark a specific object in a sorcery memory cache as stale
pub struct SorceryMemoryCacheStaleObjectAction {
    pub cache: String,
    pub object: String,
}

impl AmiAction for SorceryMemoryCacheStaleObjectAction {
    open spec fn name_view(&self) -> Seq<char> {
        "SorceryMemoryCacheStaleObject"@
    }

    open spec fn headers_view(&self) -> Seq<(Seq<char>, Seq<char>)> {
        Seq::empty().push(("Cache"@, self.cache@)).push(("Object"@, self.object@))
    }

    fn action_name(&self) -> (r: &str) {
        "SorceryMemoryCacheStaleObject"
    }

    fn to_headers(&self) -> (r: Vec<(String, String)>) {
        let mut h = new_headers();
        push_header(&mut h, "Cache", self.cache.clone());
        push_header(&mut h, "Object", self.object.clone());
        h
    }
}

/// forward a voicemail message
pub struct VoicemailForwardAction {
    pub mailbox: String,
    pub context: String,
    pub from_mailbox: String,
    pub from_context: String,
    pub from_folder: String,
    pub message_id: String,
}

impl AmiAction for VoicemailForwardAction {
    open spec fn name_view(&self) -> Seq<char> {
        "VoicemailForward"@
    }

    open spec fn headers_view(&self) -> Seq<(Seq<char>, Seq<char>)> {
        Seq::empty().push(("Mailbox"@, self.mailbox@)).push(("Context"@, self.context@)).push(("FromMailbox"@, self.from_mailbox@)).push(("FromContext"@, self.from_context@)).push(("FromFolder"@, self.from_folder@)).push(("ID"@, self.message_id@))
    }

    fn action_name(&self) -> (r: &str) {
        "VoicemailForward"
    }

    fn to_headers(&self) -> (r: Vec<(String, String)>) {
        let mut h = new_headers();
        push_header(&mut h, "Mailbox", self.mailbox.clone());
        push_header(&mut h, "Context", self.context.clone());
        push_header(&mut h, "FromMailbox", self.from_mailbox.clone());
        push_header(&mut h, "FromContext", self.from_context.clone());
        push_header(&mut h, "FromFolder", self.from_folder.clone());
        push_header(&mut h, "ID", self.message_id.clone());
        h
    }
}

/// move a voicemail message
pub struct VoicemailMoveAction {
    pub mailbox: String,
    pub context: String,
    pub folder: String,
    pub message_id: String,
}

impl AmiAction for VoicemailMoveAction {
    open spec fn name_view(&self) -> Seq<char> {
        "VoicemailMove"@
    }

    open spec fn headers_view(&self) -> Seq<(Seq<char>, Seq<char>)> {
        Seq::empty().push(("Mailbox"@, self.mailbox@)).push(("Context"@, self.context@)).push(("Folder"@, self.folder@)).push(("ID"@, self.message_id@))
    }

    fn action_name(&self) -> (r: &str) {
        "VoicemailMove"
    }

    fn to_headers(&self) -> (r: Vec<(String, String)>) {
        let mut h = new_headers();
        push_header(&mut h, "Mailbox", self.mailbox.clone());
        push_header(&mut h, "Context", self.context.clone());
        push_header(&mut h, "Folder", self.folder.clone());
        push_header(&mut h, "ID", self.message_id.clone());
        h
    }
}

/// remove a voicemail message
pub struct VoicemailRemoveAction {
    pub mailbox: String,
    pub context: String,
    pub folder: String,
    pub message_id: String,
}

impl AmiAction for VoicemailRemoveAction {
    open spec fn name_view(&self) -> Seq<char> {
        "VoicemailRemove"@
    }

    open spec fn headers_view(&self) -> Seq<(Seq<char>, Seq<char>)> {
        Seq::empty().push(("Mailbox"@, self.mailbox@)).push(("Context"@, self.context@)).push(("Folder"@, self.folder@)).push(("ID"@, self.message_id@))
    }

    fn action_name(&self) -> (r: &str) {
        "VoicemailRemove"
    }

    fn to_headers(&self) -> (r: Vec<(String, String)>) {
        let mut h = new_headers();
        push_header(&mut h, "Mailbox", self.mailbox.clone());
        push_header(&mut h, "Context", self.context.clone());
        push_header(&mut h, "Folder", self.folder.clone());
        push_header(&mut h, "ID", self.message_id.clone());
        h
    }
}

/// set the single video source in a conference bridge
pub struct ConfbridgeSetSingleVideoSrcAction {
    pub conference: String,
    pub channel: String,
}

impl AmiAction for ConfbridgeSetSingleVideoSrcAction {
    open spec fn name_view(&self) -> Seq<char> {
        "ConfbridgeSetSingleVideoSrc"@
    }

    open spec fn headers_view(&self) -> Seq<(Seq<char>, Seq<char>)> {
        Seq::empty().push(("Conference"@, self.conference@)).push(("Channel"@, self.channel@))
    }

    fn action_name(&self) -> (r: &str) {
        "ConfbridgeSetSingleVideoSrc"
    }

    fn to_headers(&self) -> (r: Vec<(String, String)>) {
        let mut h = new_headers();
        push_header(&mut h, "Conference", self.conference.clone());
        push_header(&mut h, "Channel", self.channel.clone());
        h
    }
}

/// send a jabber (XMPP) message
pub struct JabberSendAction {
    pub jabber: String,
    pub jid: String,
    pub message: String,
}

impl AmiAction for JabberSendAction {
    open spec fn name_view(&self) -> Seq<char> {
        "JabberSend"@
    }

    open spec fn headers_view(&self) -> Seq<(Seq<char>, Seq<char>)> {
        Seq::empty().push(("Jabber"@, self.jabber@)).push(("JID"@, self.jid@)).push(("Message"@, self.message@))
    }

    fn action_name(&self) -> (r: &str) {
        "JabberSend"
    }

    fn to_headers(&self) -> (r: Vec<(String, String)>) {
        let mut h = new_headers();
        push_header(&mut h, "Jabber", self.jabber.clone());
        push_header(&mut h, "JID", self.jid.clone());
        push_header(&mut h, "Message", self.message.clone());
        h
    }
}

impl LoginAction {
    /// The plaintext secret held by this action.
    pub closed spec fn secret_view(&self) -> Seq<char> {
        secret_text(self.secret)
    }

    /// The user name.
    pub closed spec fn username_view(&self) -> Seq<char> {
        self.username@
    }

    /// A login with the given credentials.
    pub fn new(username: &str, secret: &str) -> (r: Self)
        ensures
            r.username_view() == username@,
            r.secret_view() == secret@,
    {
        LoginAction { username: username.to_owned(), secret: SecretString::new(secret.to_owned()) }
    }

    /// The plaintext secret.
    pub fn secret(&self) -> (r: &str)
        ensures
            r@ == self.secret_view(),
    {
        self.secret.as_str()
    }
}

impl ChallengeLoginAction {
    /// A challenge-response login with the given MD5 key.
    pub fn new(username: &str, key: &str) -> (r: Self)
        ensures
            r.username@ == username@,
            secret_text(r.key) == key@,
    {
        ChallengeLoginAction { username: username.to_owned(), key: SecretString::new(key.to_owned()) }
    }
}

impl OriginateAction {
    /// An origination on `channel` with every option unset.
    pub fn new(channel: &str) -> (r: Self)
        ensures
            r.channel@ == channel@,
            r.context is None,
            r.exten is None,
            r.priority is None,
            r.application is None,
            r.data is None,
            r.timeout is None,
            r.caller_id is None,
            r.account is None,
            !r.async_,
            r.variables@.len() == 0,
    {
        OriginateAction {
            channel: channel.to_owned(),
            context: None,
            exten: None,
            priority: None,
            application: None,
            data: None,
            timeout: None,
            caller_id: None,
            account: None,
            async_: false,
            variables: Vec::new(),
        }
    }

    /// Sets the dialplan context.
    pub fn context(self, ctx: &str) -> (r: Self)
        ensures
            r.context matches Some(c) && c@ == ctx@,
            r == (Self { context: r.context, ..self }),
    {
        Self { context: Some(ctx.to_owned()), ..self }
    }

    /// Sets the extension.
    pub fn extension(self, ext: &str) -> (r: Self)
        ensures
            r.exten matches Some(e) && e@ == ext@,
            r == (Self { exten: r.exten, ..self }),
    {
        Self { exten: Some(ext.to_owned()), ..self }
    }

    /// Sets the priority.
    pub fn priority(self, pri: u32) -> (r: Self)
        ensures
            r == (Self { priority: Some(pri), ..self }),
    {
        Self { priority: Some(pri), ..self }
    }

    /// Sets the application to run.
    pub fn application(self, app: &str) -> (r: Self)
        ensures
            r.application matches Some(a) && a@ == app@,
            r == (Self { application: r.application, ..self }),
    {
        Self { application: Some(app.to_owned()), ..self }
    }

    /// Sets the application data.
    pub fn data(self, data: &str) -> (r: Self)
        ensures
            r.data matches Some(d) && d@ == data@,
            r == (Self { data: r.data, ..self }),
    {
        Self { data: Some(data.to_owned()), ..self }
    }

    /// Sets the timeout in milliseconds.
    pub fn timeout_ms(self, ms: u64) -> (r: Self)
        ensures
            r == (Self { timeout: Some(ms), ..self }),
    {
        Self { timeout: Some(ms), ..self }
    }

    /// Sets the caller id.
    pub fn caller_id(self, cid: &str) -> (r: Self)
        ensures
            r.caller_id matches Some(c) && c@ == cid@,
            r == (Self { caller_id: r.caller_id, ..self }),
    {
        Self { caller_id: Some(cid.to_owned()), ..self }
    }

    /// Sets the account code.
    pub fn account(self, acct: &str) -> (r: Self)
        ensures
            r.account matches Some(a) && a@ == acct@,
            r == (Self { account: r.account, ..self }),
    {
        Self { account: Some(acct.to_owned()), ..self }
    }

    /// Sets whether the origination runs asynchronously.
    pub fn async_originate(self, async_: bool) -> (r: Self)
        ensures
            r == (Self { async_: async_, ..self }),
    {
        Self { async_: async_, ..self }
    }

    /// Adds a channel variable assignment after those already set.
    pub fn variable(self, key: &str, value: &str) -> (r: Self)
        ensures
            pairs_view(r.variables@) == pairs_view(self.variables@).push((key@, value@)),
            r == (Self { variables: r.variables, ..self }),
    {
        let mut s = self;
        s.variables.push((key.to_owned(), value.to_owned()));
        assert(pairs_view(s.variables@) =~= pairs_view(self.variables@).push((key@, value@)));
        s
    }
}

impl HangupAction {
    /// A hangup of `channel` with no cause.
    pub fn new(channel: &str) -> (r: Self)
        ensures
            r.channel@ == channel@,
            r.cause is None,
    {
        HangupAction { channel: channel.to_owned(), cause: None }
    }

    /// Sets the hangup cause code.
    pub fn cause(self, cause: u32) -> (r: Self)
        ensures
            r == (Self { cause: Some(cause), ..self }),
    {
        Self { cause: Some(cause), ..self }
    }
}

impl CommandAction {
    /// Runs a CLI command.
    pub fn new(command: &str) -> (r: Self)
        ensures
            r.command@ == command@,
    {
        CommandAction { command: command.to_owned() }
    }
}

impl QueueAddAction {
    /// Adds `interface` to `queue`, every option unset.
    pub fn new(queue: &str, interface: &str) -> (r: Self)
        ensures
            r.queue@ == queue@,
            r.interface@ == interface@,
            r.penalty is None,
            r.paused is None,
            r.member_name is None,
            r.state_interface is None,
    {
        QueueAddAction {
            queue: queue.to_owned(),
            interface: interface.to_owned(),
            penalty: None,
            paused: None,
            member_name: None,
            state_interface: None,
        }
    }

    /// Sets the penalty.
    pub fn penalty(self, penalty: u32) -> (r: Self)
        ensures
            r == (Self { penalty: Some(penalty), ..self }),
    {
        Self { penalty: Some(penalty), ..self }
    }

    /// Sets whether the member starts paused.
    pub fn paused(self, paused: bool) -> (r: Self)
        ensures
            r == (Self { paused: Some(paused), ..self }),
    {
        Self { paused: Some(paused), ..self }
    }

    /// Sets the member name.
    pub fn member_name(self, name: &str) -> (r: Self)
        ensures
            r.member_name matches Some(n) && n@ == name@,
            r == (Self { member_name: r.member_name, ..self }),
    {
        Self { member_name: Some(name.to_owned()), ..self }
    }

    /// Sets the state interface.
    pub fn state_interface(self, iface: &str) -> (r: Self)
        ensures
            r.state_interface matches Some(s) && s@ == iface@,
            r == (Self { state_interface: r.state_interface, ..self }),
    {
        Self { state_interface: Some(iface.to_owned()), ..self }
    }
}

impl MixMonitorAction {
    /// Records `channel`, every option unset.
    pub fn new(channel: &str) -> (r: Self)
        ensures
            r.channel@ == channel@,
            r.file is None,
            r.options is None,
    {
        MixMonitorAction { channel: channel.to_owned(), file: None, options: None }
    }

    /// Sets the recording file.
    pub fn file(self, file: &str) -> (r: Self)
        ensures
            r.file matches Some(f) && f@ == file@,
            r == (Self { file: r.file, ..self }),
    {
        Self { file: Some(file.to_owned()), ..self }
    }

    /// Sets the MixMonitor options.
    pub fn options(self, opts: &str) -> (r: Self)
        ensures
            r.options matches Some(o) && o@ == opts@,
            r == (Self { options: r.options, ..self }),
    {
        Self { options: Some(opts.to_owned()), ..self }
    }
}

impl ParkAction {
    /// Parks `channel`, every option unset.
    pub fn new(channel: &str) -> (r: Self)
        ensures
            r.channel@ == channel@,
            r.timeout is None,
            r.announce_channel is None,
            r.parking_lot is None,
    {
        ParkAction { channel: channel.to_owned(), timeout: None, announce_channel: None, parking_lot: None }
    }

    /// Sets the parking timeout.
    pub fn timeout(self, timeout: u32) -> (r: Self)
        ensures
            r == (Self { timeout: Some(timeout), ..self }),
    {
        Self { timeout: Some(timeout), ..self }
    }

    /// Sets the channel that hears the parking announcement.
    pub fn announce_channel(self, ch: &str) -> (r: Self)
        ensures
            r.announce_channel matches Some(c) && c@ == ch@,
            r == (Self { announce_channel: r.announce_channel, ..self }),
    {
        Self { announce_channel: Some(ch.to_owned()), ..self }
    }

    /// Sets the parking lot.
    pub fn parking_lot(self, lot: &str) -> (r: Self)
        ensures
            r.parking_lot matches Some(l) && l@ == lot@,
            r == (Self { parking_lot: r.parking_lot, ..self }),
    {
        Self { parking_lot: Some(lot.to_owned()), ..self }
    }
}

} // verus!
