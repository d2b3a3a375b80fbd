use std::str::FromStr;

use pinentry::assuan::{
    process_line, process_request, AssuanContext, AssuanProcessResult, AssuanStdCmd, Flow,
    Processed,
};
use pinentry::error::ProtocolError;

fn ctx_with(commands: &[&str]) -> AssuanContext<()> {
    AssuanContext::new(()).register_commands(commands)
}

fn handed(cmd: &str, line: &str) -> Processed {
    Processed {
        ok_replies: 0,
        flow: Flow::Return(AssuanProcessResult::Command(cmd.to_string(), line.to_string())),
    }
}

#[test]
fn std_cmd_words_parse() {
    let all = [
        ("NOP", AssuanStdCmd::Nop),
        ("CANCEL", AssuanStdCmd::Cancel),
        ("OPTION", AssuanStdCmd::Option),
        ("BYE", AssuanStdCmd::Bye),
        ("AUTH", AssuanStdCmd::Auth),
        ("RESET", AssuanStdCmd::Reset),
        ("END", AssuanStdCmd::End),
        ("HELP", AssuanStdCmd::Help),
        ("INPUT", AssuanStdCmd::Input),
        ("OUTPUT", AssuanStdCmd::Output),
        ("SENDFD", AssuanStdCmd::Sendfd),
    ];
    for (word, cmd) in all {
        assert_eq!(AssuanStdCmd::from_str(word), Ok(cmd));
        assert_eq!(AssuanStdCmd::parse(word), Some(cmd));
    }
}

#[test]
fn std_cmd_unknown_word_is_an_error() {
    let err = AssuanStdCmd::from_str("nop").unwrap_err();
    assert_eq!(err, ProtocolError::InvalidStdCmd("nop".to_string()));
    assert_eq!(err.message(), "nop is invalid AssuanStdCmd");
    assert_eq!(AssuanStdCmd::parse(""), None);
}

#[test]
fn register_appends_in_order() {
    let ctx = AssuanContext::new(7u8)
        .register_commands(&["A", "B"])
        .register_commands(&["C"])
        .register_options(&["x"]);
    assert_eq!(ctx.channel, 7);
    assert_eq!(ctx.commands, vec!["A".to_string(), "B".to_string(), "C".to_string()]);
    assert_eq!(ctx.options, vec!["x".to_string()]);
}

#[test]
fn registered_command_is_handed_on_with_its_argument() {
    let ctx = ctx_with(&["SETDESC", "GETPIN"]);
    assert_eq!(process_request(&ctx, "SETDESC Enter your PIN"), handed("SETDESC", "Enter your PIN"));
    assert_eq!(process_request(&ctx, "GETPIN"), handed("GETPIN", ""));
    assert_eq!(process_request(&ctx, "SETDESC  two  spaces"), handed("SETDESC", " two  spaces"));
}

#[test]
fn unregistered_word_gets_ok_and_unknown() {
    let ctx = ctx_with(&["SETDESC"]);
    let expected = Processed { ok_replies: 1, flow: Flow::Return(AssuanProcessResult::Unknown) };
    assert_eq!(process_request(&ctx, "SETTITLE hello"), expected);
    assert_eq!(process_request(&ctx, "setdesc x"), expected);
    assert_eq!(process_request(&ctx, ""), expected);
}

#[test]
fn nop_gets_two_oks() {
    let ctx = ctx_with(&["SETDESC"]);
    assert_eq!(
        process_request(&ctx, "NOP"),
        Processed { ok_replies: 2, flow: Flow::Return(AssuanProcessResult::Unknown) }
    );
}

#[test]
fn nop_registered_is_handed_on_after_one_ok() {
    let ctx = ctx_with(&["NOP"]);
    assert_eq!(
        process_request(&ctx, "NOP now"),
        Processed {
            ok_replies: 1,
            flow: Flow::Return(AssuanProcessResult::Command("NOP".to_string(), "now".to_string())),
        }
    );
}

#[test]
fn option_with_value() {
    let ctx = ctx_with(&[]);
    assert_eq!(
        process_request(&ctx, "OPTION ttyname=/dev/pts/3"),
        Processed {
            ok_replies: 1,
            flow: Flow::Return(AssuanProcessResult::Option(
                "ttyname".to_string(),
                "/dev/pts/3".to_string()
            )),
        }
    );
    assert_eq!(
        process_request(&ctx, "OPTION a=b=c"),
        Processed {
            ok_replies: 1,
            flow: Flow::Return(AssuanProcessResult::Option("a".to_string(), "b=c".to_string())),
        }
    );
}

#[test]
fn option_without_value_gets_two_oks() {
    let ctx = ctx_with(&[]);
    let expected = Processed { ok_replies: 2, flow: Flow::Return(AssuanProcessResult::Unknown) };
    assert_eq!(process_request(&ctx, "OPTION no-value"), expected);
    assert_eq!(process_request(&ctx, "OPTION"), expected);
}

#[test]
fn option_name_space_value() {
    let ctx = ctx_with(&[]);
    assert_eq!(
        process_request(&ctx, "OPTION ttyname /dev/pts/3"),
        Processed {
            ok_replies: 1,
            flow: Flow::Return(AssuanProcessResult::Option(
                "ttyname".to_string(),
                "/dev/pts/3".to_string()
            )),
        }
    );
    assert_eq!(
        process_request(&ctx, "OPTION display :0 extra"),
        Processed {
            ok_replies: 1,
            flow: Flow::Return(AssuanProcessResult::Option(
                "display".to_string(),
                ":0 extra".to_string()
            )),
        }
    );
}

#[test]
fn option_without_value_registered_drops_the_argument() {
    let ctx = ctx_with(&["OPTION"]);
    assert_eq!(
        process_request(&ctx, "OPTION no-value"),
        Processed {
            ok_replies: 1,
            flow: Flow::Return(AssuanProcessResult::Command("OPTION".to_string(), String::new())),
        }
    );
}

#[test]
fn bye_cancel_end() {
    let ctx = ctx_with(&[]);
    assert_eq!(process_request(&ctx, "BYE"), Processed { ok_replies: 1, flow: Flow::Exit });
    let fail = Processed { ok_replies: 0, flow: Flow::Fail("End. Not implemented".to_string()) };
    assert_eq!(process_request(&ctx, "CANCEL"), fail);
    assert_eq!(process_request(&ctx, "END"), fail);
}

#[test]
fn other_std_commands_get_ok_and_unknown() {
    let ctx = ctx_with(&["HELP"]);
    let expected = Processed { ok_replies: 1, flow: Flow::Return(AssuanProcessResult::Unknown) };
    for line in ["AUTH", "RESET x", "HELP", "INPUT FD=3", "OUTPUT", "SENDFD"] {
        assert_eq!(process_request(&ctx, line), expected);
    }
}

#[test]
fn line_is_trimmed_before_it_is_answered() {
    let ctx = ctx_with(&["SETDESC"]);
    assert_eq!(process_line(&ctx, "  SETDESC hello world \r\n"), handed("SETDESC", "hello world"));
    assert_eq!(process_line(&ctx, "BYE\n"), Processed { ok_replies: 1, flow: Flow::Exit });
}
