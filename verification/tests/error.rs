use simple_ffmpeg::error::{describe_exit, describe_io};
use simple_ffmpeg::{Error, ExitStatus};
use std::io::ErrorKind;

#[test]
fn exit_code_zero_is_success() {
    let status = ExitStatus::new(Some(0));
    assert!(status.success());
    assert_eq!(status.code(), Some(0));
}

#[test]
fn other_exit_codes_are_failures() {
    for code in [1, 3, 255, -1, i32::MIN, i32::MAX] {
        let status = ExitStatus::new(Some(code));
        assert!(!status.success());
        assert_eq!(status.code(), Some(code));
    }
}

#[test]
fn a_missing_exit_code_is_a_failure() {
    let status = ExitStatus::new(None);
    assert!(!status.success());
    assert_eq!(status.code(), None);
}

#[test]
fn message_names_the_exit_code() {
    let error = Error::FFMpegExitedAbnormally(ExitStatus::new(Some(3)));
    assert_eq!(error.message(), "ffmpeg exited abnormally with code 3");
}

#[test]
fn message_names_a_negative_exit_code() {
    let error = Error::FFMpegExitedAbnormally(ExitStatus::new(Some(-1073741819)));
    assert_eq!(error.message(), "ffmpeg exited abnormally with code -1073741819");
    assert_eq!(
        describe_exit(ExitStatus::new(Some(i32::MIN))),
        "ffmpeg exited abnormally with code -2147483648"
    );
}

#[test]
fn message_without_an_exit_code_guesses_none() {
    let error = Error::FFMpegExitedAbnormally(ExitStatus::new(None));
    assert_eq!(error.message(), "ffmpeg exited abnormally");
    assert_eq!(describe_exit(ExitStatus::new(None)), "ffmpeg exited abnormally");
}

#[test]
fn message_of_an_io_error_ends_with_its_text() {
    let error = Error::IOError(std::io::Error::new(ErrorKind::BrokenPipe, "the pipe broke"));
    assert_eq!(error.message(), "io error: the pipe broke");
}

#[test]
fn describe_io_puts_the_prefix_before_the_detail() {
    assert_eq!(describe_io("no such file"), "io error: no such file");
    assert_eq!(describe_io(""), "io error: ");
}

#[test]
fn an_io_error_converts_into_the_io_variant() {
    let error = Error::from(std::io::Error::new(ErrorKind::NotFound, "gone"));
    match error {
        Error::IOError(inner) => {
            assert_eq!(inner.kind(), ErrorKind::NotFound);
            assert_eq!(inner.to_string(), "gone");
        }
        Error::FFMpegExitedAbnormally(_) => panic!("an io error became an exit status"),
    }
}
