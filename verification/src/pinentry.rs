//! The pinentry side of the protocol: the commands that set up the prompt,
//! and what each request does to the prompt state.

use vstd::prelude::*;
use vstd::string::*;

use crate::assuan::{
    Answer, AssuanContext, AssuanProcessResult, FlowView, ResultView, answer, lemma_option_request, lemma_option_space_request,
    lemma_registered_command_handed_on, lemma_unregistered_word_answered_ok, lemma_std_cmd_words, names, std_cmd_of, words,
};
use crate::error::ProtocolError;
use crate::text::{opt_view, same_text};

verus! {

/// What `urlencoding::decode` makes of a text: the text with each `%XX`
/// escape replaced by its byte, read as UTF-8; `None` when those bytes are
/// not UTF-8.
pub uninterp spec fn percent_decoded(text: Seq<char>) -> Option<Seq<char>>;

/// Calls `urlencoding::decode`. Claims that the result is
/// `percent_decoded` of the text, and, as the crate's source shows (a text
/// without `%` is handed back as it is), that a text without `%` decodes to
/// itself.
#[verifier::external_body]
fn url_decode(text: &str) -> (r: Result<String, std::string::FromUtf8Error>)
    ensures
        match r {
            Ok(s) => percent_decoded(text@) == Some(s@) && (!text@.contains('%') ==> s@ == text@),
            Err(_) => percent_decoded(text@) is None && text@.contains('%'),
        },
{
    match urlencoding::decode(text) {
        Ok(decoded) => Ok(decoded.into_owned()),
        Err(err) => Err(err),
    }
}

/// Calls the `Display` impl of `FromUtf8Error` through `format!`; nothing is
/// claimed of the text.
#[verifier::external_body]
fn utf8_error_text(err: &std::string::FromUtf8Error) -> String {
    format!("{err}")
}

/// Percent-decode a command's argument text.
pub fn unenc(val: &str) -> (r: Result<String, ProtocolError>)
    ensures
        match r {
            Ok(s) => percent_decoded(val@) == Some(s@),
            Err(e) => percent_decoded(val@) is None && e is Decode,
        },
        !val@.contains('%') ==> (r matches Ok(s) && s@ == val@),
{
    match url_decode(val) {
        Ok(s) => Ok(s),
        Err(err) => Err(ProtocolError::Decode(utf8_error_text(&err))),
    }
}

/// The commands that a pinentry serves.
#[derive(Debug, Clone, Copy, PartialEq, Eq, Structural)]
pub enum PinentryCmd {
    SetDesc,
    Prompt,
    KeyInfo,
    Repeat,
    SetOk,
    SetNotOk,
    SetCancel,
    GetPin,
    SetTitle,
    SetError,
}

pub const PE_CMD_SETDESC: &'static str = "SETDESC";
pub const PE_CMD_PROMPT: &'static str = "SETPROMPT";
pub const PE_CMD_KEYINFO: &'static str = "SETKEYINFO";
pub const PE_CMD_REPEAT: &'static str = "SETREPEAT";
pub const PE_CMD_SETOK: &'static str = "SETOK";
pub const PE_CMD_SETNOTOK: &'static str = "SETNOTOK";
pub const PE_CMD_SETCANCEL: &'static str = "SETCANCEL";
pub const PE_CMD_GETPIN: &'static str = "GETPIN";
pub const PE_CMD_SETTITLE: &'static str = "SETTITLE";
pub const PE_CMD_SETERROR: &'static str = "SETERROR";
pub const PE_OPT_TTYNAME: &'static str = "ttyname";

/// The first line a pinentry sends to its client.
pub const GREETING: &'static str = "OK pleased to meet you.";

/// The word that names a pinentry command.
pub open spec fn pinentry_cmd_name(c: PinentryCmd) -> Seq<char> {
    match c {
        PinentryCmd::SetDesc => "SETDESC"@,
        PinentryCmd::Prompt => "SETPROMPT"@,
        PinentryCmd::KeyInfo => "SETKEYINFO"@,
        PinentryCmd::Repeat => "SETREPEAT"@,
        PinentryCmd::SetOk => "SETOK"@,
        PinentryCmd::SetNotOk => "SETNOTOK"@,
        PinentryCmd::SetCancel => "SETCANCEL"@,
        PinentryCmd::GetPin => "GETPIN"@,
        PinentryCmd::SetTitle => "SETTITLE"@,
        PinentryCmd::SetError => "SETERROR"@,
    }
}

/// The pinentry command that a word names, if any.
pub open spec fn pinentry_cmd_of(s: Seq<char>) -> Option<PinentryCmd> {
    if s == "SETDESC"@ {
        Some(PinentryCmd::SetDesc)
    } else if s == "SETPROMPT"@ {
        Some(PinentryCmd::Prompt)
    } else if s == "SETKEYINFO"@ {
        Some(PinentryCmd::KeyInfo)
    } else if s == "SETREPEAT"@ {
        Some(PinentryCmd::Repeat)
    } else if s == "SETOK"@ {
        Some(PinentryCmd::SetOk)
    } else if s == "SETNOTOK"@ {
        Some(PinentryCmd::SetNotOk)
    } else if s == "SETCANCEL"@ {
        Some(PinentryCmd::SetCancel)
    } else if s == "GETPIN"@ {
        Some(PinentryCmd::GetPin)
    } else if s == "SETTITLE"@ {
        Some(PinentryCmd::SetTitle)
    } else if s == "SETERROR"@ {
        Some(PinentryCmd::SetError)
    } else {
        None
    }
}

/// The words of all pinentry commands, in the order they are registered.
pub open spec fn pinentry_cmd_words() -> Seq<Seq<char>> {
    seq![
        "SETDESC"@,
        "SETPROMPT"@,
        "SETKEYINFO"@,
        "SETREPEAT"@,
        "SETOK"@,
        "SETNOTOK"@,
        "SETCANCEL"@,
        "GETPIN"@,
        "SETTITLE"@,
        "SETERROR"@,
    ]
}

/// The words of all pinentry options.
pub open spec fn pinentry_option_words() -> Seq<Seq<char>> {
    seq!["ttyname"@]
}

impl PinentryCmd {
    /// The pinentry command that `s` names, if any.
    pub fn parse(s: &str) -> (r: Option<PinentryCmd>)
        ensures
            r == pinentry_cmd_of(s@),
    {
        if same_text(s, PE_CMD_SETDESC) {
            Some(PinentryCmd::SetDesc)
        } else if same_text(s, PE_CMD_PROMPT) {
            Some(PinentryCmd::Prompt)
        } else if same_text(s, PE_CMD_KEYINFO) {
            Some(PinentryCmd::KeyInfo)
        } else if same_text(s, PE_CMD_REPEAT) {
            Some(PinentryCmd::Repeat)
        } else if same_text(s, PE_CMD_SETOK) {
            Some(PinentryCmd::SetOk)
        } else if same_text(s, PE_CMD_SETNOTOK) {
            Some(PinentryCmd::SetNotOk)
        } else if same_text(s, PE_CMD_SETCANCEL) {
            Some(PinentryCmd::SetCancel)
        } else if same_text(s, PE_CMD_GETPIN) {
            Some(PinentryCmd::GetPin)
        } else if same_text(s, PE_CMD_SETTITLE) {
            Some(PinentryCmd::SetTitle)
        } else if same_text(s, PE_CMD_SETERROR) {
            Some(PinentryCmd::SetError)
        } else {
            None
        }
    }

    /// The pinentry command that `s` names, or the error that it names none.
    pub fn parse_or_err(s: &str) -> (r: Result<PinentryCmd, ProtocolError>)
        ensures
            match r {
                Ok(c) => pinentry_cmd_of(s@) == Some(c),
                Err(e) => pinentry_cmd_of(s@) is None && (e matches ProtocolError::InvalidPinentryCmd(t) && t@ == s@),
            },
    {
        match PinentryCmd::parse(s) {
            Some(c) => Ok(c),
            None => Err(ProtocolError::InvalidPinentryCmd(s.to_owned())),
        }
    }
}

impl std::str::FromStr for PinentryCmd {
    type Err = ProtocolError;

    fn from_str(s: &str) -> (r: Result<Self, Self::Err>)
        ensures
            match r {
                Ok(c) => pinentry_cmd_of(s@) == Some(c),
                Err(e) => pinentry_cmd_of(s@) is None && (e matches ProtocolError::InvalidPinentryCmd(t) && t@ == s@),
            },
    {
        PinentryCmd::parse_or_err(s)
    }
}

/// The options that a pinentry takes.
#[derive(Debug, Clone, Copy, PartialEq, Eq, Structural)]
pub enum PinentryOption {
    TtyName,
}

impl PinentryOption {
    /// The pinentry option that `s` names, if any.
    pub fn parse(s: &str) -> (r: Option<PinentryOption>)
        ensures
            r == (if s@ == "ttyname"@ { Some(PinentryOption::TtyName) } else { None }),
    {
        if same_text(s, PE_OPT_TTYNAME) {
            Some(PinentryOption::TtyName)
        } else {
            None
        }
    }

    /// The pinentry option that `s` names, or the error that it names none.
    pub fn parse_or_err(s: &str) -> (r: Result<PinentryOption, ProtocolError>)
        ensures
            match r {
                Ok(o) => s@ == "ttyname"@ && o == PinentryOption::TtyName,
                Err(e) => s@ != "ttyname"@ && (e matches ProtocolError::InvalidPinentryOption(t) && t@ == s@),
            },
    {
        match PinentryOption::parse(s) {
            Some(o) => Ok(o),
            None => Err(ProtocolError::InvalidPinentryOption(s.to_owned())),
        }
    }
}

impl std::str::FromStr for PinentryOption {
    type Err = ProtocolError;

    fn from_str(s: &str) -> (r: Result<Self, Self::Err>)
        ensures
            match r {
                Ok(o) => s@ == "ttyname"@ && o == PinentryOption::TtyName,
                Err(e) => s@ != "ttyname"@ && (e matches ProtocolError::InvalidPinentryOption(t) && t@ == s@),
            },
    {
        PinentryOption::parse_or_err(s)
    }
}

/// The words of all pinentry commands, to register with a connection.
pub fn pinentry_commands() -> (r: Vec<&'static str>)
    ensures
        words(r@) == pinentry_cmd_words(),
{
    let r = vec![
        PE_CMD_SETDESC,
        PE_CMD_PROMPT,
        PE_CMD_KEYINFO,
        PE_CMD_REPEAT,
        PE_CMD_SETOK,
        PE_CMD_SETNOTOK,
        PE_CMD_SETCANCEL,
        PE_CMD_GETPIN,
        PE_CMD_SETTITLE,
        PE_CMD_SETERROR,
    ];
    assert(words(r@) =~= pinentry_cmd_words());
    r
}

/// The words of all pinentry options, to register with a connection.
pub fn pinentry_options() -> (r: Vec<&'static str>)
    ensures
        words(r@) == pinentry_option_words(),
{
    let r = vec![PE_OPT_TTYNAME];
    assert(words(r@) =~= pinentry_option_words());
    r
}

/// A connection over `channel` with the pinentry commands and options registered.
pub fn pinentry_context<C>(channel: C) -> (r: AssuanContext<C>)
    ensures
        r.channel == channel,
        names(r.commands@) == pinentry_cmd_words(),
        names(r.options@) == pinentry_option_words(),
{
    let cmds = pinentry_commands();
    let opts = pinentry_options();
    let ctx = AssuanContext::new(channel);
    assert(names(ctx.commands@) =~= Seq::empty());
    assert(names(ctx.options@) =~= Seq::empty());
    let ctx = ctx.register_commands(cmds.as_slice());
    let ctx = ctx.register_options(opts.as_slice());
    assert(names(ctx.commands@) =~= pinentry_cmd_words());
    assert(names(ctx.options@) =~= pinentry_option_words());
    ctx
}

/// The state of a pinentry: the texts its client set for the prompt.
#[derive(Debug)]
pub struct Pinentry {
    /// The window title (Assuan: "SETTITLE TITLE".)
    pub title: Option<String>,
    /// The description to display (Assuan: "SETDESC DESC".)
    pub description: Option<String>,
    /// The error message to display (Assuan: "SETERROR MESSAGE".)
    pub error: Option<String>,
    /// The prompt to display, or NULL.  (Assuan: "SETPROMPT prompt".)
    pub prompt: Option<String>,
    /// The OK button text to display (Assuan: "SETOK OK".)
    pub ok: Option<String>,
    /// The Not-OK button text to display, or NULL.  This is the text for the alternative option shown by the third button.  (Assuan: "SETNOTOK NOTOK".)
    pub notok: Option<String>,
    /// The Cancel button text to display, or NULL.  (Assuan: "SETCANCEL CANCEL".)
    pub cancel: Option<String>,
    /// The name of the terminal node to open if X not available or supported (Assuan: "OPTION ttyname TTYNAME".)
    pub ttyname: Option<String>,
}

/// The view of a [`Pinentry`].
pub struct PinentryView {
    pub title: Option<Seq<char>>,
    pub description: Option<Seq<char>>,
    pub error: Option<Seq<char>>,
    pub prompt: Option<Seq<char>>,
    pub ok: Option<Seq<char>>,
    pub notok: Option<Seq<char>>,
    pub cancel: Option<Seq<char>>,
    pub ttyname: Option<Seq<char>>,
}

impl View for Pinentry {
    type V = PinentryView;

    open spec fn view(&self) -> PinentryView {
        PinentryView {
            title: opt_view(self.title),
            description: opt_view(self.description),
            error: opt_view(self.error),
            prompt: opt_view(self.prompt),
            ok: opt_view(self.ok),
            notok: opt_view(self.notok),
            cancel: opt_view(self.cancel),
            ttyname: opt_view(self.ttyname),
        }
    }
}

/// A pinentry on which the client has set nothing.
pub open spec fn blank_view() -> PinentryView {
    PinentryView {
        title: None,
        description: None,
        error: None,
        prompt: None,
        ok: None,
        notok: None,
        cancel: None,
        ttyname: None,
    }
}

impl Default for Pinentry {
    fn default() -> (r: Self)
        ensures
            r@ == blank_view(),
    {
        Pinentry {
            title: None,
            description: None,
            error: None,
            prompt: None,
            ok: None,
            notok: None,
            cancel: None,
            ttyname: None,
        }
    }
}

/// The state after the command `cmd` with the decoded argument `line`.
pub open spec fn after_command(p: PinentryView, cmd: PinentryCmd, line: Seq<char>) -> PinentryView {
    match cmd {
        PinentryCmd::SetDesc => PinentryView { description: Some(line), ..p },
        PinentryCmd::Prompt => PinentryView { prompt: Some(line), ..p },
        PinentryCmd::SetOk => PinentryView { ok: Some(line), ..p },
        PinentryCmd::SetNotOk => PinentryView { notok: Some(line), ..p },
        PinentryCmd::SetCancel => PinentryView { cancel: Some(line), ..p },
        PinentryCmd::SetTitle => PinentryView { title: Some(line), ..p },
        PinentryCmd::SetError => PinentryView { error: Some(line), ..p },
        _ => p,
    }
}

/// What the serving loop does after a request was handed to the pinentry.
#[derive(Debug, PartialEq, Eq)]
pub enum Step {
    /// Reply `OK` and read the next request.
    Done,
    /// Ask the resolver for the PIN, send it on a data line, then reply `OK`.
    GetPin,
    /// Read the next request without a reply.
    Continue,
    /// Stop serving, with this error.
    Stop(ProtocolError),
}

/// The state and the step after the request `res`, from the state `p`.
pub open spec fn handle_spec(p: PinentryView, res: ResultView) -> (PinentryView, Option<Step>) {
    match res {
        ResultView::Command(c, l) => match pinentry_cmd_of(c) {
            None => (p, Some(Step::Done)),
            Some(cmd) => match percent_decoded(l) {
                None => (p, None),
                Some(d) => (
                    after_command(p, cmd, d),
                    Some(if cmd == PinentryCmd::GetPin { Step::GetPin } else { Step::Done }),
                ),
            },
        },
        ResultView::Option(k, v) => {
            if k == "ttyname"@ {
                (PinentryView { ttyname: Some(v), ..p }, Some(Step::Continue))
            } else {
                (p, Some(Step::Continue))
            }
        },
        ResultView::Unknown => (p, Some(Step::Continue)),
    }
}

impl Pinentry {
    /// Take in a request that the connection handed on, and say what the
    /// serving loop does next. An argument that does not decode stops the
    /// loop with the decoding error and leaves the state as it was.
    pub fn handle(&mut self, res: AssuanProcessResult) -> (r: Step)
        ensures
            final(self)@ == handle_spec(old(self)@, res@).0,
            match handle_spec(old(self)@, res@).1 {
                Some(step) => r == step,
                None => r matches Step::Stop(e) && e is Decode,
            },
    {
        match res {
            AssuanProcessResult::Command(cmd_str, line) => {
                let cmd = match PinentryCmd::parse(cmd_str.as_str()) {
                    Some(cmd) => cmd,
                    None => {
                        return Step::Done;
                    },
                };
                let line = match unenc(line.as_str()) {
                    Ok(l) => l,
                    Err(e) => {
                        return Step::Stop(e);
                    },
                };
                match cmd {
                    PinentryCmd::SetDesc => {
                        self.description = Some(line);
                    },
                    PinentryCmd::Prompt => {
                        self.prompt = Some(line);
                    },
                    PinentryCmd::SetOk => {
                        self.ok = Some(line);
                    },
                    PinentryCmd::SetNotOk => {
                        self.notok = Some(line);
                    },
                    PinentryCmd::SetCancel => {
                        self.cancel = Some(line);
                    },
                    PinentryCmd::GetPin => {
                        return Step::GetPin;
                    },
                    PinentryCmd::SetTitle => {
                        self.title = Some(line);
                    },
                    PinentryCmd::SetError => {
                        self.error = Some(line);
                    },
                    _ => {},
                }
                Step::Done
            },
            AssuanProcessResult::Option(key, value) => {
                match PinentryOption::parse(key.as_str()) {
                    Some(PinentryOption::TtyName) => {
                        self.ttyname = Some(value);
                    },
                    None => {},
                }
                Step::Continue
            },
            AssuanProcessResult::Unknown => Step::Continue,
        }
    }

    /// The terminal nodes a resolver reads from and writes to: the client's
    /// `ttyname` for both, else standard input and standard output.
    pub fn resolver_paths(&self) -> (r: (String, String))
        ensures
            r.0@ == (match self.ttyname {
                Some(t) => t@,
                None => "/dev/stdin"@,
            }),
            r.1@ == (match self.ttyname {
                Some(t) => t@,
                None => "/dev/stdout"@,
            }),
    {
        match &self.ttyname {
            Some(t) => (t.clone(), t.clone()),
            None => ("/dev/stdin".to_owned(), "/dev/stdout".to_owned()),
        }
    }
}

/// Whoever asks the user for the PIN.
pub trait PinentryResolver {
    fn get_pin(&mut self, pinentry: &mut Pinentry) -> Result<String, anyhow::Error>;
}

/// What goes back to the client once the resolver was asked.
#[derive(Debug)]
pub enum PinReply {
    /// Send this data line.
    Data(String),
    /// The resolver failed; serving ends with its error.
    Failed(anyhow::Error),
}

/// The data line that carries a PIN.
pub open spec fn data_line(pin: Seq<char>) -> Seq<char> {
    "D "@ + pin
}

/// What goes back to the client for the resolver's answer `res`.
pub fn pin_reply(res: Result<String, anyhow::Error>) -> (r: PinReply)
    ensures
        match res {
            Ok(pin) => r matches PinReply::Data(line) && line@ == data_line(pin@)
                && line@.take(2) == seq!['D', ' '] && line@.skip(2) == pin@,
            Err(e) => r matches PinReply::Failed(f) && f == e,
        },
{
    proof {
        if res is Ok {
            lemma_data_line_carries_whole_pin(res->Ok_0@);
        }
    }
    match res {
        Ok(pin) => PinReply::Data("D ".to_owned().concat(pin.as_str())),
        Err(e) => PinReply::Failed(e),
    }
}

/// The resolver's answer to a PIN request and what goes back to the client.
#[derive(Debug)]
pub struct PinRequest {
    /// The PIN the resolver gave; `None` when it failed.
    pub pin: Option<String>,
    /// What goes back to the client.
    pub reply: PinReply,
}

impl Pinentry {
    /// Ask `resolver` for the PIN, and say what it answered and what goes
    /// back to the client: the data line with that PIN, or the resolver's
    /// error. The resolver decides the PIN, or that it fails; it may change
    /// the pinentry.
    pub fn request_pin<R: PinentryResolver>(&mut self, resolver: &mut R) -> (r: PinRequest)
        ensures
            match r.pin {
                Some(pin) => r.reply matches PinReply::Data(line) && line@ == data_line(pin@),
                None => r.reply is Failed,
            },
    {
        match resolver.get_pin(self) {
            Ok(pin) => {
                let answered = pin.clone();
                PinRequest { pin: Some(answered), reply: pin_reply(Ok(pin)) }
            },
            Err(e) => PinRequest { pin: None, reply: pin_reply(Err(e)) },
        }
    }
}

/// The lines that go back to the client once the resolver answered: the
/// data line, then `OK`; or the resolver's error, which ends serving.
pub fn lines_after_pin(reply: PinReply) -> (r: Result<Vec<String>, anyhow::Error>)
    ensures
        match reply {
            PinReply::Data(line) => r matches Ok(v) && v@.len() == 2 && v@[0]@ == line@ && v@[1]@ == "OK"@,
            PinReply::Failed(e) => r matches Err(f) && f == e,
        },
{
    match reply {
        PinReply::Data(line) => Ok(vec![line, "OK".to_owned()]),
        PinReply::Failed(e) => Err(e),
    }
}

/// The `OK` lines the serving loop writes for a request once the pinentry
/// has handled it.
pub open spec fn step_oks(step: Step) -> nat {
    match step {
        Step::Done => 1,
        Step::GetPin => 1,
        _ => 0,
    }
}

/// The words of the pinentry commands and option, character by character.
pub proof fn lemma_pinentry_words()
    ensures
        "SETDESC"@ =~= seq!['S', 'E', 'T', 'D', 'E', 'S', 'C'],
        "SETPROMPT"@ =~= seq!['S', 'E', 'T', 'P', 'R', 'O', 'M', 'P', 'T'],
        "SETKEYINFO"@ =~= seq!['S', 'E', 'T', 'K', 'E', 'Y', 'I', 'N', 'F', 'O'],
        "SETREPEAT"@ =~= seq!['S', 'E', 'T', 'R', 'E', 'P', 'E', 'A', 'T'],
        "SETOK"@ =~= seq!['S', 'E', 'T', 'O', 'K'],
        "SETNOTOK"@ =~= seq!['S', 'E', 'T', 'N', 'O', 'T', 'O', 'K'],
        "SETCANCEL"@ =~= seq!['S', 'E', 'T', 'C', 'A', 'N', 'C', 'E', 'L'],
        "GETPIN"@ =~= seq!['G', 'E', 'T', 'P', 'I', 'N'],
        "SETTITLE"@ =~= seq!['S', 'E', 'T', 'T', 'I', 'T', 'L', 'E'],
        "SETERROR"@ =~= seq!['S', 'E', 'T', 'E', 'R', 'R', 'O', 'R'],
        "ttyname"@ =~= seq!['t', 't', 'y', 'n', 'a', 'm', 'e'],
{
    reveal_strlit("SETDESC");
    reveal_strlit("SETPROMPT");
    reveal_strlit("SETKEYINFO");
    reveal_strlit("SETREPEAT");
    reveal_strlit("SETOK");
    reveal_strlit("SETNOTOK");
    reveal_strlit("SETCANCEL");
    reveal_strlit("GETPIN");
    reveal_strlit("SETTITLE");
    reveal_strlit("SETERROR");
    reveal_strlit("ttyname");
}

/// Every pinentry command is named by its word and by no other; that word
/// is registered, holds no space and names no standard command.
pub proof fn lemma_pinentry_cmd_names(c: PinentryCmd)
    ensures
        pinentry_cmd_of(pinentry_cmd_name(c)) == Some(c),
        pinentry_cmd_words().contains(pinentry_cmd_name(c)),
        !pinentry_cmd_name(c).contains(' '),
        std_cmd_of(pinentry_cmd_name(c)) is None,
{
    lemma_pinentry_words();
    lemma_std_cmd_words();
    let w = pinentry_cmd_words();
    match c {
        PinentryCmd::SetDesc => { assert(w[0] == pinentry_cmd_name(c)); },
        PinentryCmd::Prompt => { assert(w[1] == pinentry_cmd_name(c)); },
        PinentryCmd::KeyInfo => { assert(w[2] == pinentry_cmd_name(c)); },
        PinentryCmd::Repeat => { assert(w[3] == pinentry_cmd_name(c)); },
        PinentryCmd::SetOk => { assert(w[4] == pinentry_cmd_name(c)); },
        PinentryCmd::SetNotOk => { assert(w[5] == pinentry_cmd_name(c)); },
        PinentryCmd::SetCancel => { assert(w[6] == pinentry_cmd_name(c)); },
        PinentryCmd::GetPin => { assert(w[7] == pinentry_cmd_name(c)); },
        PinentryCmd::SetTitle => { assert(w[8] == pinentry_cmd_name(c)); },
        PinentryCmd::SetError => { assert(w[9] == pinentry_cmd_name(c)); },
    }
}

/// On a connection with the pinentry commands registered, `CMD arg` is
/// handed on without a reply; the pinentry then takes the decoded argument
/// into its state as `after_command` says, and asks for the PIN on
/// `GETPIN`; an argument that does not decode stops serving and changes
/// nothing.
pub proof fn lemma_pinentry_request(p: PinentryView, c: PinentryCmd, arg: Seq<char>)
    ensures
        answer(pinentry_cmd_words(), pinentry_cmd_name(c) + seq![' '] + arg) == (Answer {
            ok_replies: 0,
            flow: FlowView::Return(ResultView::Command(pinentry_cmd_name(c), arg)),
        }),
        match percent_decoded(arg) {
            Some(d) => handle_spec(p, ResultView::Command(pinentry_cmd_name(c), arg)) == (
                after_command(p, c, d),
                Some(if c == PinentryCmd::GetPin { Step::GetPin } else { Step::Done }),
            ),
            None => handle_spec(p, ResultView::Command(pinentry_cmd_name(c), arg)) == (p, None::<Step>),
        },
{
    lemma_pinentry_cmd_names(c);
    lemma_registered_command_handed_on(pinentry_cmd_words(), pinentry_cmd_name(c), arg);
}

/// `OPTION ttyname=VALUE`, and `OPTION ttyname VALUE` where `VALUE` holds
/// no `=`, are answered with one `OK` and set the terminal that the
/// resolver opens to `VALUE`, for input and output alike.
pub proof fn lemma_ttyname_request(p: PinentryView, commands: Seq<Seq<char>>, value: Seq<char>)
    ensures
        answer(commands, "OPTION"@ + seq![' '] + "ttyname"@ + seq!['='] + value)
            == (Answer { ok_replies: 1, flow: FlowView::Return(ResultView::Option("ttyname"@, value)) }),
        !value.contains('=') ==> answer(commands, "OPTION"@ + seq![' '] + "ttyname"@ + seq![' '] + value)
            == (Answer { ok_replies: 1, flow: FlowView::Return(ResultView::Option("ttyname"@, value)) }),
        handle_spec(p, ResultView::Option("ttyname"@, value))
            == (PinentryView { ttyname: Some(value), ..p }, Some(Step::Continue)),
{
    lemma_pinentry_words();
    lemma_option_request(commands, "ttyname"@, value);
    if !value.contains('=') {
        lemma_option_space_request(commands, "ttyname"@, value);
    }
}

/// `SETKEYINFO arg` and `SETREPEAT arg` with a decodable argument, on a
/// pinentry connection, get exactly one `OK` in all and leave the state as
/// it was.
pub proof fn lemma_keyinfo_repeat_no_effect(p: PinentryView, c: PinentryCmd, arg: Seq<char>)
    requires
        c == PinentryCmd::KeyInfo || c == PinentryCmd::Repeat,
        percent_decoded(arg) is Some,
    ensures
        answer(pinentry_cmd_words(), pinentry_cmd_name(c) + seq![' '] + arg).ok_replies
            + step_oks(handle_spec(p, ResultView::Command(pinentry_cmd_name(c), arg)).1->0) == 1,
        handle_spec(p, ResultView::Command(pinentry_cmd_name(c), arg)) == (p, Some(Step::Done)),
{
    lemma_pinentry_request(p, c, arg);
}

/// `GETPIN arg` with a decodable argument is handed on without a reply and
/// leaves the state as it was for the resolver, which is asked next.
pub proof fn lemma_getpin_asks_resolver(p: PinentryView, arg: Seq<char>)
    requires
        percent_decoded(arg) is Some,
    ensures
        answer(pinentry_cmd_words(), "GETPIN"@ + seq![' '] + arg).ok_replies == 0,
        handle_spec(p, ResultView::Command("GETPIN"@, arg)) == (p, Some(Step::GetPin)),
{
    lemma_pinentry_request(p, PinentryCmd::GetPin, arg);
}

/// `OPTION key=value` for any key but `ttyname` gets exactly one `OK` and
/// leaves the state as it was.
pub proof fn lemma_other_option_no_effect(p: PinentryView, key: Seq<char>, value: Seq<char>)
    requires
        key != "ttyname"@,
        !key.contains('='),
    ensures
        answer(pinentry_cmd_words(), "OPTION"@ + seq![' '] + key + seq!['='] + value).ok_replies
            + step_oks(handle_spec(p, ResultView::Option(key, value)).1->0) == 1,
        handle_spec(p, ResultView::Option(key, value)) == (p, Some(Step::Continue)),
{
    lemma_option_request(pinentry_cmd_words(), key, value);
}

/// A request whose first word is neither a standard command nor a pinentry
/// command gets exactly one `OK` and leaves the state as it was.
pub proof fn lemma_unknown_word_no_effect(p: PinentryView, word: Seq<char>, arg: Seq<char>)
    requires
        !pinentry_cmd_words().contains(word),
        std_cmd_of(word) is None,
        !word.contains(' '),
    ensures
        answer(pinentry_cmd_words(), word + seq![' '] + arg)
            == (Answer { ok_replies: 1, flow: FlowView::Return(ResultView::Unknown) }),
        handle_spec(p, ResultView::Unknown) == (p, Some(Step::Continue)),
        step_oks(Step::Continue) == 0,
{
    lemma_unregistered_word_answered_ok(pinentry_cmd_words(), word, arg);
}

/// Each `SET` command stores exactly the decoded argument, the whole of it,
/// in the field it names, whatever the field held before, and changes no
/// other field; the request is answered with `OK`.
pub proof fn lemma_set_commands_store_decoded_text(p: PinentryView, arg: Seq<char>, d: Seq<char>)
    requires
        percent_decoded(arg) == Some(d),
    ensures
        handle_spec(p, ResultView::Command(seq!['S', 'E', 'T', 'D', 'E', 'S', 'C'], arg))
            == (PinentryView { description: Some(d), ..p }, Some(Step::Done)),
        handle_spec(p, ResultView::Command(seq!['S', 'E', 'T', 'P', 'R', 'O', 'M', 'P', 'T'], arg))
            == (PinentryView { prompt: Some(d), ..p }, Some(Step::Done)),
        handle_spec(p, ResultView::Command(seq!['S', 'E', 'T', 'O', 'K'], arg))
            == (PinentryView { ok: Some(d), ..p }, Some(Step::Done)),
        handle_spec(p, ResultView::Command(seq!['S', 'E', 'T', 'N', 'O', 'T', 'O', 'K'], arg))
            == (PinentryView { notok: Some(d), ..p }, Some(Step::Done)),
        handle_spec(p, ResultView::Command(seq!['S', 'E', 'T', 'C', 'A', 'N', 'C', 'E', 'L'], arg))
            == (PinentryView { cancel: Some(d), ..p }, Some(Step::Done)),
        handle_spec(p, ResultView::Command(seq!['S', 'E', 'T', 'T', 'I', 'T', 'L', 'E'], arg))
            == (PinentryView { title: Some(d), ..p }, Some(Step::Done)),
        handle_spec(p, ResultView::Command(seq!['S', 'E', 'T', 'E', 'R', 'R', 'O', 'R'], arg))
            == (PinentryView { error: Some(d), ..p }, Some(Step::Done)),
{
    lemma_pinentry_words();
}

/// A later `SETERROR` replaces the error an earlier one set: after two, the
/// error is the second text.
pub proof fn lemma_last_error_wins(p: PinentryView, a1: Seq<char>, d1: Seq<char>, a2: Seq<char>, d2: Seq<char>)
    requires
        percent_decoded(a1) == Some(d1),
        percent_decoded(a2) == Some(d2),
    ensures
        handle_spec(
            handle_spec(p, ResultView::Command(seq!['S', 'E', 'T', 'E', 'R', 'R', 'O', 'R'], a1)).0,
            ResultView::Command(seq!['S', 'E', 'T', 'E', 'R', 'R', 'O', 'R'], a2),
        ).0.error == Some(d2),
{
    lemma_set_commands_store_decoded_text(p, a1, d1);
    lemma_set_commands_store_decoded_text(PinentryView { error: Some(d1), ..p }, a2, d2);
}

/// The data line is `D`, a space, and then the whole PIN, character for
/// character.
pub proof fn lemma_data_line_carries_whole_pin(pin: Seq<char>)
    ensures
        data_line(pin).len() == pin.len() + 2,
        data_line(pin).take(2) == seq!['D', ' '],
        data_line(pin).skip(2) == pin,
{
    reveal_strlit("D ");
    assert("D "@ =~= seq!['D', ' ']);
    assert(data_line(pin).take(2) =~= seq!['D', ' ']);
    assert(data_line(pin).skip(2) =~= pin);
}

} // verus!
