use std::str::FromStr;

use pinentry::assuan::{process_request, AssuanProcessResult, Flow, Processed};
use pinentry::error::ProtocolError;
use pinentry::pinentry::{
    lines_after_pin, pin_reply, pinentry_commands, pinentry_context, pinentry_options, unenc, PinReply, Pinentry,
    PinentryCmd, PinentryOption, PinentryResolver, Step, GREETING,
};

fn command(cmd: &str, line: &str) -> AssuanProcessResult {
    AssuanProcessResult::Command(cmd.to_string(), line.to_string())
}

#[test]
fn pinentry_cmd_words_parse() {
    let all = [
        ("SETDESC", PinentryCmd::SetDesc),
        ("SETPROMPT", PinentryCmd::Prompt),
        ("SETKEYINFO", PinentryCmd::KeyInfo),
        ("SETREPEAT", PinentryCmd::Repeat),
        ("SETOK", PinentryCmd::SetOk),
        ("SETNOTOK", PinentryCmd::SetNotOk),
        ("SETCANCEL", PinentryCmd::SetCancel),
        ("GETPIN", PinentryCmd::GetPin),
        ("SETTITLE", PinentryCmd::SetTitle),
        ("SETERROR", PinentryCmd::SetError),
    ];
    for (word, cmd) in all {
        assert_eq!(PinentryCmd::from_str(word), Ok(cmd));
    }
    assert_eq!(pinentry_commands(), all.iter().map(|(w, _)| *w).collect::<Vec<_>>());
}

#[test]
fn pinentry_cmd_unknown_word_is_an_error() {
    let err = PinentryCmd::from_str("SETFOO").unwrap_err();
    assert_eq!(err, ProtocolError::InvalidPinentryCmd("SETFOO".to_string()));
    assert_eq!(err.message(), "SETFOO not valid PinentryCmd");
}

#[test]
fn pinentry_option_words() {
    assert_eq!(PinentryOption::from_str("ttyname"), Ok(PinentryOption::TtyName));
    let err = PinentryOption::from_str("lc-ctype").unwrap_err();
    assert_eq!(err.message(), "lc-ctype not valid PinentryOption");
    assert_eq!(pinentry_options(), vec!["ttyname"]);
}

#[test]
fn unenc_decodes_percent_escapes() {
    assert_eq!(unenc("Enter%20PIN%3A").unwrap(), "Enter PIN:");
    assert_eq!(unenc("plain+text").unwrap(), "plain+text");
    assert_eq!(unenc("100%").unwrap(), "100%");
    assert_eq!(unenc("%C3%A4").unwrap(), "ä");
}

#[test]
fn unenc_rejects_bytes_that_are_not_utf8() {
    let err = unenc("%FF").unwrap_err();
    assert!(matches!(err, ProtocolError::Decode(_)));
    assert!(err.message().starts_with("Fail urlencoding::decode. "));
}

#[test]
fn default_pinentry_is_blank() {
    let p = Pinentry::default();
    assert!(p.title.is_none() && p.description.is_none() && p.error.is_none());
    assert!(p.prompt.is_none() && p.ok.is_none() && p.notok.is_none());
    assert!(p.cancel.is_none() && p.ttyname.is_none());
    assert_eq!(GREETING, "OK pleased to meet you.");
}

#[test]
fn set_commands_fill_their_field() {
    let mut p = Pinentry::default();
    assert_eq!(p.handle(command("SETDESC", "Please%20enter")), Step::Done);
    assert_eq!(p.handle(command("SETPROMPT", "PIN:")), Step::Done);
    assert_eq!(p.handle(command("SETOK", "Yes")), Step::Done);
    assert_eq!(p.handle(command("SETNOTOK", "No")), Step::Done);
    assert_eq!(p.handle(command("SETCANCEL", "Abort")), Step::Done);
    assert_eq!(p.handle(command("SETTITLE", "Title")), Step::Done);
    assert_eq!(p.handle(command("SETERROR", "Bad%20PIN")), Step::Done);
    assert_eq!(p.description.as_deref(), Some("Please enter"));
    assert_eq!(p.prompt.as_deref(), Some("PIN:"));
    assert_eq!(p.ok.as_deref(), Some("Yes"));
    assert_eq!(p.notok.as_deref(), Some("No"));
    assert_eq!(p.cancel.as_deref(), Some("Abort"));
    assert_eq!(p.title.as_deref(), Some("Title"));
    assert_eq!(p.error.as_deref(), Some("Bad PIN"));
    assert!(p.ttyname.is_none());
}

#[test]
fn keyinfo_repeat_and_unknown_change_nothing() {
    let mut p = Pinentry::default();
    assert_eq!(p.handle(command("SETKEYINFO", "n/1234")), Step::Done);
    assert_eq!(p.handle(command("SETREPEAT", "")), Step::Done);
    assert_eq!(p.handle(command("SETFOO", "x")), Step::Done);
    assert_eq!(p.handle(AssuanProcessResult::Unknown), Step::Continue);
    assert!(p.description.is_none() && p.title.is_none() && p.error.is_none());
}

#[test]
fn getpin_asks_for_the_pin() {
    let mut p = Pinentry::default();
    assert_eq!(p.handle(command("GETPIN", "")), Step::GetPin);
    assert!(p.description.is_none());
}

#[test]
fn undecodable_argument_stops() {
    let mut p = Pinentry::default();
    let step = p.handle(command("SETDESC", "%FF"));
    assert!(matches!(step, Step::Stop(ProtocolError::Decode(_))));
    assert!(p.description.is_none());
}

#[test]
fn ttyname_option_sets_the_terminal() {
    let mut p = Pinentry::default();
    assert_eq!(p.resolver_paths(), ("/dev/stdin".to_string(), "/dev/stdout".to_string()));
    let opt = AssuanProcessResult::Option("ttyname".to_string(), "/dev/pts/3".to_string());
    assert_eq!(p.handle(opt), Step::Continue);
    assert_eq!(p.ttyname.as_deref(), Some("/dev/pts/3"));
    assert_eq!(p.resolver_paths(), ("/dev/pts/3".to_string(), "/dev/pts/3".to_string()));
    let other = AssuanProcessResult::Option("lc-ctype".to_string(), "C".to_string());
    assert_eq!(p.handle(other), Step::Continue);
    assert_eq!(p.ttyname.as_deref(), Some("/dev/pts/3"));
}

#[test]
fn pinentry_context_registers_everything() {
    let ctx = pinentry_context(());
    assert_eq!(ctx.commands.len(), 10);
    assert_eq!(ctx.options, vec!["ttyname".to_string()]);
    assert_eq!(
        process_request(&ctx, "SETTITLE My%20title"),
        Processed {
            ok_replies: 0,
            flow: Flow::Return(AssuanProcessResult::Command(
                "SETTITLE".to_string(),
                "My%20title".to_string()
            )),
        }
    );
}

#[test]
fn request_to_state_scenario() {
    let ctx = pinentry_context(());
    let mut p = Pinentry::default();
    for line in ["SETDESC Unlock%20key", "OPTION ttyname=/dev/tty1", "SETPROMPT PIN"] {
        let processed = process_request(&ctx, line);
        match processed.flow {
            Flow::Return(res) => {
                p.handle(res);
            }
            _ => panic!("unexpected flow"),
        }
    }
    assert_eq!(p.description.as_deref(), Some("Unlock key"));
    assert_eq!(p.ttyname.as_deref(), Some("/dev/tty1"));
    assert_eq!(p.prompt.as_deref(), Some("PIN"));
}

#[test]
fn pin_reply_builds_data_line() {
    match pin_reply(Ok("1234".to_string())) {
        PinReply::Data(line) => assert_eq!(line, "D 1234"),
        PinReply::Failed(_) => panic!("expected a data line"),
    }
    match pin_reply(Err(anyhow::Error::msg("no terminal"))) {
        PinReply::Failed(e) => assert_eq!(e.to_string(), "no terminal"),
        PinReply::Data(_) => panic!("expected a failure"),
    }
}

struct FixedPin(&'static str);

impl PinentryResolver for FixedPin {
    fn get_pin(&mut self, pinentry: &mut Pinentry) -> Result<String, anyhow::Error> {
        pinentry.error = None;
        Ok(self.0.to_string())
    }
}

struct NoPin;

impl PinentryResolver for NoPin {
    fn get_pin(&mut self, _pinentry: &mut Pinentry) -> Result<String, anyhow::Error> {
        Err(anyhow::Error::msg("Operation was cancelled"))
    }
}

#[test]
fn request_pin_asks_the_resolver() {
    let mut p = Pinentry::default();
    p.error = Some("old".to_string());
    let request = p.request_pin(&mut FixedPin("s3cret"));
    assert_eq!(request.pin.as_deref(), Some("s3cret"));
    match request.reply {
        PinReply::Data(line) => assert_eq!(line, "D s3cret"),
        PinReply::Failed(_) => panic!("expected a data line"),
    }
    assert!(p.error.is_none());
    let request = p.request_pin(&mut NoPin);
    assert!(request.pin.is_none());
    match request.reply {
        PinReply::Failed(e) => assert_eq!(e.to_string(), "Operation was cancelled"),
        PinReply::Data(_) => panic!("expected a failure"),
    }
}

#[test]
fn lines_after_pin_send_data_then_ok() {
    let lines = lines_after_pin(PinReply::Data("D 1234".to_string())).unwrap();
    assert_eq!(lines, vec!["D 1234".to_string(), "OK".to_string()]);
    let err = lines_after_pin(PinReply::Failed(anyhow::Error::msg("gone"))).unwrap_err();
    assert_eq!(err.to_string(), "gone");
}

#[test]
fn ttyname_option_space_form_sets_the_terminal() {
    let ctx = pinentry_context(());
    let processed = process_request(&ctx, "OPTION ttyname /dev/pts/7");
    assert_eq!(processed.ok_replies, 1);
    let mut p = Pinentry::default();
    match processed.flow {
        Flow::Return(res) => assert_eq!(p.handle(res), Step::Continue),
        _ => panic!("unexpected flow"),
    }
    assert_eq!(p.ttyname.as_deref(), Some("/dev/pts/7"));
}

#[test]
fn requests_without_effect_get_one_ok() {
    let ctx = pinentry_context(());
    for line in ["SETKEYINFO n/ABCD", "SETREPEAT", "OPTION lc-ctype=C", "FOO bar"] {
        let mut p = Pinentry::default();
        let processed = process_request(&ctx, line);
        let step = match processed.flow {
            Flow::Return(res) => p.handle(res),
            _ => panic!("unexpected flow"),
        };
        let step_oks = if step == Step::Done { 1 } else { 0 };
        assert_eq!(processed.ok_replies + step_oks, 1, "{line}");
        assert!(p.description.is_none() && p.ttyname.is_none());
    }
}
