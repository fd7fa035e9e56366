use shellshot::app::Args;
use shellshot::constants::{
    FONT_SIZE, IMAGE_QUALITY_MULTIPLIER, MAX_SAVED_CURSORS, MAX_SCREEN_SIDE, SCREEN_MAX_HEIGHT,
    SCREEN_MAX_WIDTH,
};
use shellshot::os_command::merge_output;
use shellshot::pty_executor::dimension::Dimension;
use shellshot::pty_executor::{PtyExecutor, PtyExecutorError, PtyOptions};
use shellshot::window_decoration::WindowDecorationType;
use std::str::FromStr;

fn default_options() -> PtyOptions {
    PtyOptions { cols: Dimension::Value(80), rows: Dimension::Value(24), timeout: Some(5) }
}

fn args() -> Args {
    Args {
        command: vec!["echo".to_string(), "hello".to_string()],
        quiet: false,
        no_decoration: false,
        decoration: WindowDecorationType::Classic,
        output: Some("test.png".into()),
        clipboard: false,
        width: Dimension::Auto,
        height: Dimension::Value(30),
        timeout: None,
    }
}

#[test]
fn test_empty_command_error() {
    let options = default_options();
    let command: Vec<String> = vec![];

    let result = PtyExecutor::prepare(&options, &command);
    assert!(matches!(result, Err(PtyExecutorError::EmptyCommand)));
}

#[test]
fn a_command_is_split_into_program_and_arguments() {
    let options = default_options();
    let command = vec!["sh".to_string(), "-c".to_string(), "echo Hello World".to_string()];
    let request = PtyExecutor::prepare(&options, &command).unwrap();
    assert_eq!(request.program, "sh");
    assert_eq!(request.args, vec!["-c".to_string(), "echo Hello World".to_string()]);
    assert_eq!((request.cols, request.rows), (80, 24));

    let request = PtyExecutor::prepare(&options, &vec!["ls".to_string()]).unwrap();
    assert_eq!(request.program, "ls");
    assert!(request.args.is_empty());
}

#[test]
fn open_dimensions_take_the_largest_size() {
    let options = PtyOptions { cols: Dimension::Auto, rows: Dimension::Auto, timeout: None };
    assert_eq!(options.size(), (250, 500));
    let options = PtyOptions { cols: Dimension::Value(7), rows: Dimension::Auto, timeout: None };
    assert_eq!(options.size(), (7, 500));
    let request = PtyExecutor::prepare(&options, &vec!["ls".to_string()]).unwrap();
    assert_eq!((request.cols, request.rows), (7, 500));
}

#[test]
fn constants_have_their_values() {
    assert_eq!(FONT_SIZE, 20);
    assert_eq!(IMAGE_QUALITY_MULTIPLIER, 2);
    assert_eq!(SCREEN_MAX_HEIGHT, 500);
    assert_eq!(SCREEN_MAX_WIDTH, 250);
    assert_eq!(MAX_SCREEN_SIDE, 65_537);
    assert_eq!(MAX_SAVED_CURSORS, 1024);
}

#[test]
fn arguments_give_the_options_of_the_terminal() {
    let mut a = args();
    let options = a.pty_options();
    assert!(matches!(options.cols, Dimension::Auto));
    assert!(matches!(options.rows, Dimension::Value(30)));
    assert_eq!(options.timeout, None);
    a.timeout = Some(0);
    assert_eq!(a.pty_options().timeout, None);
    a.timeout = Some(7);
    assert_eq!(a.pty_options().timeout, Some(7));
}

#[test]
fn no_decoration_overrides_the_decoration() {
    let mut a = args();
    assert!(matches!(a.decoration_type(), Some(WindowDecorationType::Classic)));
    a.no_decoration = true;
    assert!(a.decoration_type().is_none());
}

#[test]
fn outputs_are_merged_without_empty_parts() {
    assert_eq!(merge_output("out", "err"), "out\nerr");
    assert_eq!(merge_output("out", ""), "out");
    assert_eq!(merge_output("", "err"), "err");
    assert_eq!(merge_output("", ""), "");
    assert_eq!(merge_output("a\n", "b"), "a\n\nb");
}

#[test]
fn dimensions_are_read_like_numbers() {
    for text in ["auto", "AUTO", "Auto", "aUtO"] {
        assert!(matches!(Dimension::from_str(text), Ok(Dimension::Auto)));
    }
    for (text, value) in
        [("0", 0u16), ("42", 42), ("+42", 42), ("0042", 42), ("65535", 65535), ("+065535", 65535)]
    {
        match Dimension::from_str(text) {
            Ok(Dimension::Value(v)) => assert_eq!(v, value),
            other => panic!("{text}: {other:?}"),
        }
        assert_eq!(text.parse::<u16>().unwrap(), value);
    }
    for text in [
        "", "+", "-", "-1", "65536", "99999999999999999999", " 42", "42 ", "4 2", "1_000", "0x10",
        "auto ", "autos", "aut", "4.2", "++1", "\u{661}",
    ] {
        let err = Dimension::from_str(text).unwrap_err();
        assert_eq!(
            err,
            format!("Invalid dimension value: {text}. Must be 'auto' or a positive integer")
        );
        assert!(text.parse::<u16>().is_err());
        assert!(Dimension::parse(text).is_err());
    }
}
