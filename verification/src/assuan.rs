//! The server side of the Assuan protocol: which request a line holds and
//! how it is answered.

use vstd::prelude::*;
use vstd::string::*;

use crate::error::ProtocolError;
use crate::text::{
    lemma_split_once_head, lemma_split_once_joined, lemma_split_once_keeps_out, opt_view, same_text, split_once, split_once_at, trim_text, trimmed,
};

verus! {

/// The standard commands of the Assuan protocol.
#[derive(Debug, Clone, Copy, PartialEq, Eq, Structural)]
pub enum AssuanStdCmd {
    Nop,
    Cancel,
    Option,
    Bye,
    Auth,
    Reset,
    End,
    Help,
    Input,
    Output,
    Sendfd,
}

/// The standard command that a word names, if any.
pub open spec fn std_cmd_of(s: Seq<char>) -> Option<AssuanStdCmd> {
    if s == "NOP"@ {
        Some(AssuanStdCmd::Nop)
    } else if s == "CANCEL"@ {
        Some(AssuanStdCmd::Cancel)
    } else if s == "OPTION"@ {
        Some(AssuanStdCmd::Option)
    } else if s == "BYE"@ {
        Some(AssuanStdCmd::Bye)
    } else if s == "AUTH"@ {
        Some(AssuanStdCmd::Auth)
    } else if s == "RESET"@ {
        Some(AssuanStdCmd::Reset)
    } else if s == "END"@ {
        Some(AssuanStdCmd::End)
    } else if s == "HELP"@ {
        Some(AssuanStdCmd::Help)
    } else if s == "INPUT"@ {
        Some(AssuanStdCmd::Input)
    } else if s == "OUTPUT"@ {
        Some(AssuanStdCmd::Output)
    } else if s == "SENDFD"@ {
        Some(AssuanStdCmd::Sendfd)
    } else {
        None
    }
}

/// The word that names a standard command.
pub open spec fn std_cmd_name(c: AssuanStdCmd) -> Seq<char> {
    match c {
        AssuanStdCmd::Nop => "NOP"@,
        AssuanStdCmd::Cancel => "CANCEL"@,
        AssuanStdCmd::Option => "OPTION"@,
        AssuanStdCmd::Bye => "BYE"@,
        AssuanStdCmd::Auth => "AUTH"@,
        AssuanStdCmd::Reset => "RESET"@,
        AssuanStdCmd::End => "END"@,
        AssuanStdCmd::Help => "HELP"@,
        AssuanStdCmd::Input => "INPUT"@,
        AssuanStdCmd::Output => "OUTPUT"@,
        AssuanStdCmd::Sendfd => "SENDFD"@,
    }
}

impl AssuanStdCmd {
    /// The standard command that `s` names, if any.
    pub fn parse(s: &str) -> (r: Option<AssuanStdCmd>)
        ensures
            r == std_cmd_of(s@),
    {
        if same_text(s, "NOP") {
            Some(AssuanStdCmd::Nop)
        } else if same_text(s, "CANCEL") {
            Some(AssuanStdCmd::Cancel)
        } else if same_text(s, "OPTION") {
            Some(AssuanStdCmd::Option)
        } else if same_text(s, "BYE") {
            Some(AssuanStdCmd::Bye)
        } else if same_text(s, "AUTH") {
            Some(AssuanStdCmd::Auth)
        } else if same_text(s, "RESET") {
            Some(AssuanStdCmd::Reset)
        } else if same_text(s, "END") {
            Some(AssuanStdCmd::End)
        } else if same_text(s, "HELP") {
            Some(AssuanStdCmd::Help)
        } else if same_text(s, "INPUT") {
            Some(AssuanStdCmd::Input)
        } else if same_text(s, "OUTPUT") {
            Some(AssuanStdCmd::Output)
        } else if same_text(s, "SENDFD") {
            Some(AssuanStdCmd::Sendfd)
        } else {
            None
        }
    }

    /// The standard command that `s` names, or the error that it names none.
    pub fn parse_or_err(s: &str) -> (r: Result<AssuanStdCmd, ProtocolError>)
        ensures
            match r {
                Ok(c) => std_cmd_of(s@) == Some(c),
                Err(e) => std_cmd_of(s@) is None && (e matches ProtocolError::InvalidStdCmd(t) && t@ == s@),
            },
    {
        match AssuanStdCmd::parse(s) {
            Some(c) => Ok(c),
            None => Err(ProtocolError::InvalidStdCmd(s.to_owned())),
        }
    }
}

impl std::str::FromStr for AssuanStdCmd {
    type Err = ProtocolError;

    fn from_str(s: &str) -> (r: Result<Self, Self::Err>)
        ensures
            match r {
                Ok(c) => std_cmd_of(s@) == Some(c),
                Err(e) => std_cmd_of(s@) is None && (e matches ProtocolError::InvalidStdCmd(t) && t@ == s@),
            },
    {
        AssuanStdCmd::parse_or_err(s)
    }
}

/// Every standard command is named by its word, and by no other.
pub proof fn lemma_std_cmd_names(c: AssuanStdCmd)
    ensures
        std_cmd_of(std_cmd_name(c)) == Some(c),
{
    lemma_std_cmd_words();
}

/// The words of the standard commands, character by character.
pub proof fn lemma_std_cmd_words()
    ensures
        "NOP"@ =~= seq!['N', 'O', 'P'],
        "CANCEL"@ =~= seq!['C', 'A', 'N', 'C', 'E', 'L'],
        "OPTION"@ =~= seq!['O', 'P', 'T', 'I', 'O', 'N'],
        "BYE"@ =~= seq!['B', 'Y', 'E'],
        "AUTH"@ =~= seq!['A', 'U', 'T', 'H'],
        "RESET"@ =~= seq!['R', 'E', 'S', 'E', 'T'],
        "END"@ =~= seq!['E', 'N', 'D'],
        "HELP"@ =~= seq!['H', 'E', 'L', 'P'],
        "INPUT"@ =~= seq!['I', 'N', 'P', 'U', 'T'],
        "OUTPUT"@ =~= seq!['O', 'U', 'T', 'P', 'U', 'T'],
        "SENDFD"@ =~= seq!['S', 'E', 'N', 'D', 'F', 'D'],
{
    reveal_strlit("NOP");
    reveal_strlit("CANCEL");
    reveal_strlit("OPTION");
    reveal_strlit("BYE");
    reveal_strlit("AUTH");
    reveal_strlit("RESET");
    reveal_strlit("END");
    reveal_strlit("HELP");
    reveal_strlit("INPUT");
    reveal_strlit("OUTPUT");
    reveal_strlit("SENDFD");
}

/// What a request line asks of the program that serves the protocol.
#[derive(Debug, PartialEq, Eq)]
pub enum AssuanProcessResult {
    /// A registered command with its argument text.
    Command(String, String),
    /// An `OPTION key=value` request.
    Option(String, String),
    /// Anything the serving program has no part in.
    Unknown,
}

/// The view of an [`AssuanProcessResult`].
pub enum ResultView {
    Command(Seq<char>, Seq<char>),
    Option(Seq<char>, Seq<char>),
    Unknown,
}

impl View for AssuanProcessResult {
    type V = ResultView;

    open spec fn view(&self) -> ResultView {
        match self {
            AssuanProcessResult::Command(c, l) => ResultView::Command(c@, l@),
            AssuanProcessResult::Option(k, v) => ResultView::Option(k@, v@),
            AssuanProcessResult::Unknown => ResultView::Unknown,
        }
    }
}

/// How the handling of a request ends, once its `OK` replies are written.
#[derive(Debug, PartialEq, Eq)]
pub enum Flow {
    /// Hand the request to the serving program.
    Return(AssuanProcessResult),
    /// End the process with success (`BYE`).
    Exit,
    /// Stop with this message (`CANCEL`, `END`).
    Fail(String),
}

/// The view of a [`Flow`].
pub enum FlowView {
    Return(ResultView),
    Exit,
    Fail(Seq<char>),
}

impl View for Flow {
    type V = FlowView;

    open spec fn view(&self) -> FlowView {
        match self {
            Flow::Return(r) => FlowView::Return(r@),
            Flow::Exit => FlowView::Exit,
            Flow::Fail(m) => FlowView::Fail(m@),
        }
    }
}

/// The answer to one request line: how many `OK` lines go back to the
/// client first, and how the handling ends.
#[derive(Debug, PartialEq, Eq)]
pub struct Processed {
    pub ok_replies: usize,
    pub flow: Flow,
}

/// The view of a [`Processed`].
pub struct Answer {
    pub ok_replies: nat,
    pub flow: FlowView,
}

impl View for Processed {
    type V = Answer;

    open spec fn view(&self) -> Answer {
        Answer { ok_replies: self.ok_replies as nat, flow: self.flow@ }
    }
}

/// The words of a list of owned strings.
pub open spec fn names(v: Seq<String>) -> Seq<Seq<char>> {
    v.map_values(|s: String| s@)
}

/// The words of a list of string slices.
pub open spec fn words(v: Seq<&str>) -> Seq<Seq<char>> {
    v.map_values(|s: &str| s@)
}

/// An Assuan connection: the channel to the client, and the commands and
/// options that the serving program registered.
pub struct AssuanContext<C> {
    pub channel: C,
    pub commands: Vec<String>,
    pub options: Vec<String>,
}

/// `v` with the words of `extra` appended as owned strings.
fn append_words(v: &mut Vec<String>, extra: &[&str])
    ensures
        names(final(v)@) == names(old(v)@) + words(extra@),
{
    let ghost start = names(v@);
    let mut i: usize = 0;
    while i < extra.len()
        invariant
            i <= extra@.len(),
            names(v@) == start + words(extra@.take(i as int)),
        decreases extra@.len() - i,
    {
        let w = extra[i].to_owned();
        let ghost before = v@;
        v.push(w);
        assert(names(v@) =~= names(before) + seq![w@]);
        assert(words(extra@.take(i + 1)) =~= words(extra@.take(i as int)) + seq![extra@[i as int]@]);
        i += 1;
    }
    assert(extra@.take(extra@.len() as int) =~= extra@);
}

impl<C> AssuanContext<C> {
    /// A connection over `channel` with nothing registered yet.
    pub fn new(channel: C) -> (r: Self)
        ensures
            r.channel == channel,
            r.commands@.len() == 0,
            r.options@.len() == 0,
    {
        AssuanContext { channel, commands: Vec::new(), options: Vec::new() }
    }

    /// Register further commands, after those registered before.
    pub fn register_commands(self, commands: &[&str]) -> (r: Self)
        ensures
            r.channel == self.channel,
            names(r.commands@) == names(self.commands@) + words(commands@),
            r.options == self.options,
    {
        let mut s = self;
        append_words(&mut s.commands, commands);
        s
    }

    /// Register further options, after those registered before.
    pub fn register_options(self, options: &[&str]) -> (r: Self)
        ensures
            r.channel == self.channel,
            r.commands == self.commands,
            names(r.options@) == names(self.options@) + words(options@),
    {
        let mut s = self;
        append_words(&mut s.options, options);
        s
    }
}

/// The argument text of a request, empty when there is none.
pub open spec fn arg_or_empty(rest: Option<Seq<char>>) -> Seq<char> {
    match rest {
        Some(r) => r,
        None => Seq::empty(),
    }
}

/// The answer once the request is left to the registered commands, after
/// `oks` replies: a registered word is handed on with `arg`, anything
/// else gets one more `OK`.
pub open spec fn command_answer(commands: Seq<Seq<char>>, word: Seq<char>, arg: Seq<char>, oks: nat) -> Answer {
    if commands.contains(word) {
        Answer { ok_replies: oks, flow: FlowView::Return(ResultView::Command(word, arg)) }
    } else {
        Answer { ok_replies: oks + 1, flow: FlowView::Return(ResultView::Unknown) }
    }
}

/// The answer to the request line `msg` when `commands` are registered.
pub open spec fn answer(commands: Seq<Seq<char>>, msg: Seq<char>) -> Answer {
    let (word, rest) = split_once(msg, ' ');
    match std_cmd_of(word) {
        Some(AssuanStdCmd::Nop) => command_answer(commands, word, arg_or_empty(rest), 1),
        Some(AssuanStdCmd::Option) => {
            if rest is Some && rest->0.contains('=') {
                let (key, value) = split_once(rest->0, '=');
                Answer {
                    ok_replies: 1,
                    flow: FlowView::Return(ResultView::Option(key, value->0)),
                }
            } else if rest is Some && rest->0.contains(' ') {
                let (name, value) = split_once(rest->0, ' ');
                Answer {
                    ok_replies: 1,
                    flow: FlowView::Return(ResultView::Option(name, value->0)),
                }
            } else {
                command_answer(commands, word, Seq::empty(), 1)
            }
        },
        Some(AssuanStdCmd::Bye) => Answer { ok_replies: 1, flow: FlowView::Exit },
        Some(AssuanStdCmd::Cancel) => Answer { ok_replies: 0, flow: FlowView::Fail("End. Not implemented"@) },
        Some(AssuanStdCmd::End) => Answer { ok_replies: 0, flow: FlowView::Fail("End. Not implemented"@) },
        Some(_) => Answer { ok_replies: 1, flow: FlowView::Return(ResultView::Unknown) },
        None => command_answer(commands, word, arg_or_empty(rest), 0),
    }
}

/// Whether `word` is among `list`.
fn is_listed(list: &Vec<String>, word: &String) -> (r: bool)
    ensures
        r == names(list@).contains(word@),
{
    let mut i: usize = 0;
    while i < list.len()
        invariant
            i <= list@.len(),
            forall|j: int| 0 <= j < i ==> list@[j]@ != word@,
        decreases list@.len() - i,
    {
        if list[i] == *word {
            assert(names(list@)[i as int] == word@);
            return true;
        }
        i += 1;
    }
    assert forall|j: int| 0 <= j < names(list@).len() implies names(list@)[j] != word@ by {
        assert(names(list@)[j] == list@[j]@);
    }
    false
}

/// The answer once the request is left to the registered commands.
fn command_step<C>(ctx: &AssuanContext<C>, word: String, arg: String, oks: usize) -> (r: Processed)
    requires
        oks < 2,
    ensures
        r@ == command_answer(names(ctx.commands@), word@, arg@, oks as nat),
{
    if is_listed(&ctx.commands, &word) {
        Processed { ok_replies: oks, flow: Flow::Return(AssuanProcessResult::Command(word, arg)) }
    } else {
        Processed { ok_replies: oks + 1, flow: Flow::Return(AssuanProcessResult::Unknown) }
    }
}

/// The argument text, empty when there is none.
fn arg_text(rest: Option<String>) -> (r: String)
    ensures
        r@ == arg_or_empty(opt_view(rest)),
{
    match rest {
        Some(r) => r,
        None => String::new(),
    }
}

/// How the request line `msg` is answered: the `OK` replies to write, then
/// what the serving program is handed, or whether the process ends.
pub fn process_request<C>(ctx: &AssuanContext<C>, msg: &str) -> (r: Processed)
    ensures
        r@ == answer(names(ctx.commands@), msg@),
{
    let (word, rest) = split_once_at(msg, ' ');
    match AssuanStdCmd::parse(word.as_str()) {
        Some(AssuanStdCmd::Nop) => command_step(ctx, word, arg_text(rest), 1),
        Some(AssuanStdCmd::Option) => {
            match rest {
                Some(r) => {
                    let (key, value) = split_once_at(r.as_str(), '=');
                    match value {
                        Some(v) => Processed {
                            ok_replies: 1,
                            flow: Flow::Return(AssuanProcessResult::Option(key, v)),
                        },
                        None => {
                            let (name, value) = split_once_at(r.as_str(), ' ');
                            match value {
                                Some(v) => Processed {
                                    ok_replies: 1,
                                    flow: Flow::Return(AssuanProcessResult::Option(name, v)),
                                },
                                None => command_step(ctx, word, String::new(), 1),
                            }
                        },
                    }
                },
                None => command_step(ctx, word, String::new(), 1),
            }
        },
        Some(AssuanStdCmd::Bye) => Processed { ok_replies: 1, flow: Flow::Exit },
        Some(AssuanStdCmd::Cancel) => Processed {
            ok_replies: 0,
            flow: Flow::Fail("End. Not implemented".to_owned()),
        },
        Some(AssuanStdCmd::End) => Processed {
            ok_replies: 0,
            flow: Flow::Fail("End. Not implemented".to_owned()),
        },
        Some(_) => Processed { ok_replies: 1, flow: Flow::Return(AssuanProcessResult::Unknown) },
        None => command_step(ctx, word, arg_text(rest), 0),
    }
}

/// How a line as read from the client is answered: the line loses its
/// leading and trailing whitespace (its newline among it) and is then
/// answered as `process_request` says.
pub fn process_line<C>(ctx: &AssuanContext<C>, raw: &str) -> (r: Processed)
    ensures
        r@ == answer(names(ctx.commands@), trimmed(raw@)),
{
    let msg = trim_text(raw);
    process_request(ctx, msg.as_str())
}

/// A request whose first word is a registered command that is not a
/// standard one is handed on, with the text after the first space as its
/// argument (empty when there is no space), and nothing is written back.
pub proof fn lemma_registered_command_handed_on(commands: Seq<Seq<char>>, name: Seq<char>, arg: Seq<char>)
    requires
        commands.contains(name),
        !name.contains(' '),
        std_cmd_of(name) is None,
    ensures
        answer(commands, name + seq![' '] + arg)
            == (Answer { ok_replies: 0, flow: FlowView::Return(ResultView::Command(name, arg)) }),
        answer(commands, name)
            == (Answer { ok_replies: 0, flow: FlowView::Return(ResultView::Command(name, Seq::empty())) }),
{
    lemma_split_once_joined(name, ' ', arg);
}

/// A request whose first word is neither registered nor standard gets one
/// `OK` and is handed on as unknown.
pub proof fn lemma_unregistered_word_answered_ok(commands: Seq<Seq<char>>, word: Seq<char>, arg: Seq<char>)
    requires
        !commands.contains(word),
        !word.contains(' '),
        std_cmd_of(word) is None,
    ensures
        answer(commands, word + seq![' '] + arg)
            == (Answer { ok_replies: 1, flow: FlowView::Return(ResultView::Unknown) }),
        answer(commands, word) == (Answer { ok_replies: 1, flow: FlowView::Return(ResultView::Unknown) }),
{
    lemma_split_once_joined(word, ' ', arg);
}

/// `OPTION key=value` gets one `OK` and is handed on as the option `key`
/// with the value `value`, whatever is registered.
pub proof fn lemma_option_request(commands: Seq<Seq<char>>, key: Seq<char>, value: Seq<char>)
    requires
        !key.contains('='),
    ensures
        answer(commands, "OPTION"@ + seq![' '] + key + seq!['='] + value)
            == (Answer { ok_replies: 1, flow: FlowView::Return(ResultView::Option(key, value)) }),
{
    lemma_std_cmd_words();
    let rest = key + seq!['='] + value;
    lemma_split_once_joined("OPTION"@, ' ', rest);
    assert("OPTION"@ + seq![' '] + key + seq!['='] + value =~= "OPTION"@ + seq![' '] + rest);
    lemma_split_once_joined(key, '=', value);
    assert(rest[key.len() as int] == '=');
}

/// `OPTION name value`, where neither part holds `=` and the name holds no
/// space, gets one `OK` and is handed on as the option `name` with the value
/// `value`, whatever is registered.
pub proof fn lemma_option_space_request(commands: Seq<Seq<char>>, name: Seq<char>, value: Seq<char>)
    requires
        !name.contains('='),
        !name.contains(' '),
        !value.contains('='),
    ensures
        answer(commands, "OPTION"@ + seq![' '] + name + seq![' '] + value)
            == (Answer { ok_replies: 1, flow: FlowView::Return(ResultView::Option(name, value)) }),
{
    lemma_std_cmd_words();
    let rest = name + seq![' '] + value;
    lemma_split_once_joined("OPTION"@, ' ', rest);
    assert("OPTION"@ + seq![' '] + name + seq![' '] + value =~= "OPTION"@ + seq![' '] + rest);
    lemma_split_once_joined(name, ' ', value);
    assert(rest[name.len() as int] == ' ');
    assert(!rest.contains('=')) by {
        if rest.contains('=') {
            let k = choose|k: int| 0 <= k < rest.len() && rest[k] == '=';
            if k < name.len() {
                assert(name[k] == '=');
            } else if k > name.len() {
                assert(value[k - name.len() - 1] == '=');
            }
        }
    }
}

/// `BYE` gets one `OK` and ends the process; `CANCEL` and `END` stop the
/// server without a reply; a `NOP` that no one registered gets two `OK`s.
pub proof fn lemma_session_commands(commands: Seq<Seq<char>>)
    ensures
        answer(commands, "BYE"@) == (Answer { ok_replies: 1, flow: FlowView::Exit }),
        answer(commands, "CANCEL"@) == (Answer { ok_replies: 0, flow: FlowView::Fail("End. Not implemented"@) }),
        answer(commands, "END"@) == (Answer { ok_replies: 0, flow: FlowView::Fail("End. Not implemented"@) }),
        !commands.contains("NOP"@) ==> answer(commands, "NOP"@)
            == (Answer { ok_replies: 2, flow: FlowView::Return(ResultView::Unknown) }),
{
    lemma_std_cmd_words();
    assert(split_once("BYE"@, ' ') == ("BYE"@, None::<Seq<char>>));
    assert(split_once("CANCEL"@, ' ') == ("CANCEL"@, None::<Seq<char>>));
    assert(split_once("END"@, ' ') == ("END"@, None::<Seq<char>>));
    assert(split_once("NOP"@, ' ') == ("NOP"@, None::<Seq<char>>));
}

/// Whatever the line: at most two `OK` replies go back; only registered
/// commands are handed on; an option's key holds no `=`; the process ends
/// only after one `OK`, and stops only without a reply.
pub proof fn lemma_answer_shape(commands: Seq<Seq<char>>, msg: Seq<char>)
    ensures
        answer(commands, msg).ok_replies <= 2,
        answer(commands, msg).flow matches FlowView::Return(ResultView::Command(c, _)) ==> commands.contains(c),
        answer(commands, msg).flow matches FlowView::Return(ResultView::Option(k, _)) ==> !k.contains('='),
        answer(commands, msg).flow is Exit ==> answer(commands, msg).ok_replies == 1,
        answer(commands, msg).flow is Fail ==> answer(commands, msg).ok_replies == 0,
{
    let (word, rest) = split_once(msg, ' ');
    if std_cmd_of(word) == Some(AssuanStdCmd::Option) && rest is Some {
        if rest->0.contains('=') {
            lemma_split_once_head(rest->0, '=');
        } else {
            lemma_split_once_keeps_out(rest->0, ' ', '=');
        }
    }
}

/// A word names a standard command exactly when it is one of the eleven
/// standard words, and then it names that word's command; every other word
/// names none.
pub proof fn lemma_std_words_exact(s: Seq<char>)
    ensures
        std_cmd_of(s) matches Some(c) ==> {
            ||| c == AssuanStdCmd::Nop && s == seq!['N', 'O', 'P']
            ||| c == AssuanStdCmd::Cancel && s == seq!['C', 'A', 'N', 'C', 'E', 'L']
            ||| c == AssuanStdCmd::Option && s == seq!['O', 'P', 'T', 'I', 'O', 'N']
            ||| c == AssuanStdCmd::Bye && s == seq!['B', 'Y', 'E']
            ||| c == AssuanStdCmd::Auth && s == seq!['A', 'U', 'T', 'H']
            ||| c == AssuanStdCmd::Reset && s == seq!['R', 'E', 'S', 'E', 'T']
            ||| c == AssuanStdCmd::End && s == seq!['E', 'N', 'D']
            ||| c == AssuanStdCmd::Help && s == seq!['H', 'E', 'L', 'P']
            ||| c == AssuanStdCmd::Input && s == seq!['I', 'N', 'P', 'U', 'T']
            ||| c == AssuanStdCmd::Output && s == seq!['O', 'U', 'T', 'P', 'U', 'T']
            ||| c == AssuanStdCmd::Sendfd && s == seq!['S', 'E', 'N', 'D', 'F', 'D']
        },
        s == seq!['B', 'Y', 'E'] ==> std_cmd_of(s) == Some(AssuanStdCmd::Bye),
        s == seq!['N', 'O', 'P'] ==> std_cmd_of(s) == Some(AssuanStdCmd::Nop),
        s == seq!['O', 'P', 'T', 'I', 'O', 'N'] ==> std_cmd_of(s) == Some(AssuanStdCmd::Option),
        s == seq!['C', 'A', 'N', 'C', 'E', 'L'] ==> std_cmd_of(s) == Some(AssuanStdCmd::Cancel),
        s == seq!['E', 'N', 'D'] ==> std_cmd_of(s) == Some(AssuanStdCmd::End),
{
    lemma_std_cmd_words();
}

/// A request whose first word is none of the eleven standard words and is
/// not registered gets exactly one `OK` and is handed on as unknown, so the
/// server keeps serving; with no space, the whole line is that word.
pub proof fn lemma_other_words_keep_serving(commands: Seq<Seq<char>>, word: Seq<char>, arg: Seq<char>)
    requires
        !commands.contains(word),
        !word.contains(' '),
        word != seq!['N', 'O', 'P'],
        word != seq!['C', 'A', 'N', 'C', 'E', 'L'],
        word != seq!['O', 'P', 'T', 'I', 'O', 'N'],
        word != seq!['B', 'Y', 'E'],
        word != seq!['A', 'U', 'T', 'H'],
        word != seq!['R', 'E', 'S', 'E', 'T'],
        word != seq!['E', 'N', 'D'],
        word != seq!['H', 'E', 'L', 'P'],
        word != seq!['I', 'N', 'P', 'U', 'T'],
        word != seq!['O', 'U', 'T', 'P', 'U', 'T'],
        word != seq!['S', 'E', 'N', 'D', 'F', 'D'],
    ensures
        answer(commands, word + seq![' '] + arg).ok_replies == 1,
        answer(commands, word + seq![' '] + arg).flow == FlowView::Return(ResultView::Unknown),
        answer(commands, word).ok_replies == 1,
        answer(commands, word).flow == FlowView::Return(ResultView::Unknown),
{
    lemma_std_words_exact(word);
    lemma_unregistered_word_answered_ok(commands, word, arg);
}

} // verus!
