use tuikk::base_err::BaseErr;

#[test]
fn base_err_messages() {
    assert_eq!(
        BaseErr::TerminalInitFailed("no tty".to_string()).message(),
        "Failed to initialize terminal: no tty"
    );
    assert_eq!(
        BaseErr::TerminalRestoreFailed("broken pipe".to_string()).message(),
        "Failed to restore terminal state: broken pipe"
    );
    assert_eq!(
        BaseErr::TerminalTooSmall { width: 80, height: 24, min_width: 100, min_height: 30 }
            .message(),
        "Terminal window size too small: current 80x24, required min 100x30"
    );
    assert_eq!(
        BaseErr::TerminalTooSmall { width: 0, height: 65535, min_width: 9, min_height: 10 }
            .message(),
        "Terminal window size too small: current 0x65535, required min 9x10"
    );
    assert_eq!(BaseErr::Io("eof".to_string()).message(), "Standard I/O error: eof");
    assert_eq!(
        BaseErr::DirectoryResolutionFailed("no home".to_string()).message(),
        "Failed to resolve application directory: no home"
    );
    assert_eq!(
        BaseErr::ConfigNotFound { path: "/etc/tuikk/config.toml".to_string() }.message(),
        "Configuration file not found at /etc/tuikk/config.toml"
    );
    assert_eq!(
        BaseErr::ConfigParseError { path: "/c.toml".to_string(), reason: "line 3".to_string() }
            .message(),
        "Failed to parse configuration: line 3"
    );
    assert_eq!(
        BaseErr::Serialization("bad value".to_string()).message(),
        "Serialization error: bad value"
    );
}
