use bss::cli::{
    classify, client_main, parse_command_line, parse_decimal, server_main, CliError, CliToken,
    Command, Invocation, Launch, NumberOption, Reader, Stage, Step, TextOption, TokenKind, Want,
};
use bss::settings::GlobalSettings;
use bss::transport::TransportConfig;

fn parse(args: &[&str]) -> Result<Invocation, CliError> {
    parse_command_line(args.iter().map(|arg| arg.to_string()).collect())
}

fn received(args: &[&str]) -> Launch {
    match parse(args) {
        Ok(Invocation::Receive(launch)) => launch,
        other => panic!("not a launch of receive: {:?}", other),
    }
}

fn sent(args: &[&str]) -> Launch {
    match parse(args) {
        Ok(Invocation::Send(launch)) => launch,
        other => panic!("not a launch of send: {:?}", other),
    }
}

fn refused(args: &[&str]) -> CliError {
    match parse(args) {
        Err(error) => error,
        Ok(other) => panic!("accepted: {:?}", other),
    }
}

fn no_transport() -> TransportConfig {
    TransportConfig { vsock_address: None, unix_socket: None, ip_address: None }
}

fn value(text: &str) -> Option<CliToken> {
    Some(CliToken::Value(text.to_string()))
}

#[test]
fn no_arguments_ask_for_help() {
    assert!(matches!(parse(&[]), Ok(Invocation::Help)));
}

#[test]
fn the_help_options_ask_for_help() {
    assert!(matches!(parse(&["--help"]), Ok(Invocation::Help)));
    assert!(matches!(parse(&["-h"]), Ok(Invocation::Help)));
    assert!(matches!(parse(&["--port", "5", "-h", "receive", "m"]), Ok(Invocation::Help)));
    assert!(matches!(parse(&["-h", "--unknown"]), Ok(Invocation::Help)));
}

#[test]
fn options_without_a_subcommand_ask_for_help() {
    assert!(matches!(parse(&["--timeout=7"]), Ok(Invocation::Help)));
    assert!(matches!(parse(&["-p", "5", "-t", "6"]), Ok(Invocation::Help)));
}

#[test]
fn a_subcommand_without_a_manifest_asks_for_help() {
    assert!(matches!(parse(&["receive"]), Ok(Invocation::Help)));
    assert!(matches!(parse(&["send"]), Ok(Invocation::Help)));
    assert!(matches!(parse(&["--port", "5", "send"]), Ok(Invocation::Help)));
}

#[test]
fn receive_takes_the_manifest_path() {
    let launch = received(&["receive", "manifest.toml"]);
    assert_eq!(launch.manifest_path, "manifest.toml");
    assert_eq!(launch.settings, GlobalSettings::default());
    assert_eq!(launch.transport.vsock_address, None);
    assert_eq!(launch.transport.unix_socket, None);
    assert_eq!(launch.transport.ip_address, None);
}

#[test]
fn send_takes_the_manifest_path() {
    let launch = sent(&["send", "/etc/bss/manifest.toml"]);
    assert_eq!(launch.manifest_path, "/etc/bss/manifest.toml");
    assert_eq!(launch.settings.timeout_seconds, 3600);
    assert_eq!(launch.settings.socket_port, 21);
    assert_eq!(launch.settings.max_transmission_bytes, 1048576);
}

#[test]
fn long_options_set_the_settings() {
    let launch =
        received(&["--port", "8080", "--timeout", "10", "--bytes-max", "2048", "receive", "m"]);
    assert_eq!(launch.settings.socket_port, 8080);
    assert_eq!(launch.settings.timeout_seconds, 10);
    assert_eq!(launch.settings.max_transmission_bytes, 2048);
}

#[test]
fn short_options_set_the_settings() {
    let launch = sent(&["-p", "1", "-t", "2", "-b", "3", "send", "m"]);
    assert_eq!(launch.settings.socket_port, 1);
    assert_eq!(launch.settings.timeout_seconds, 2);
    assert_eq!(launch.settings.max_transmission_bytes, 3);
}

#[test]
fn values_may_be_joined_to_their_option() {
    let launch = sent(&["-p5", "--timeout=6", "-b=7", "send", "m"]);
    assert_eq!(launch.settings.socket_port, 5);
    assert_eq!(launch.settings.timeout_seconds, 6);
    assert_eq!(launch.settings.max_transmission_bytes, 7);
}

#[test]
fn an_option_changes_only_its_own_setting() {
    let launch = received(&["--port", "9", "receive", "m"]);
    assert_eq!(
        launch.settings,
        GlobalSettings { socket_port: 9, ..GlobalSettings::default() }
    );
    let launch = received(&["--timeout", "9", "receive", "m"]);
    assert_eq!(
        launch.settings,
        GlobalSettings { timeout_seconds: 9, ..GlobalSettings::default() }
    );
    let launch = received(&["--bytes-max", "9", "receive", "m"]);
    assert_eq!(
        launch.settings,
        GlobalSettings { max_transmission_bytes: 9, ..GlobalSettings::default() }
    );
}

#[test]
fn a_repeated_option_takes_its_last_value() {
    let launch = received(&["-p", "1", "--port", "2", "-p3", "receive", "m"]);
    assert_eq!(launch.settings.socket_port, 3);
}

#[test]
fn the_largest_number_is_accepted() {
    let launch = received(&["--bytes-max", "4294967295", "--port", "0", "receive", "m"]);
    assert_eq!(launch.settings.max_transmission_bytes, u32::MAX);
    assert_eq!(launch.settings.socket_port, 0);
}

#[test]
fn transport_addresses_are_taken_in() {
    let launch = sent(&[
        "--vsock-address",
        "3",
        "--unix-socket",
        "/run/bss.sock",
        "--ip-address",
        "192.0.2.7",
        "send",
        "m",
    ]);
    assert_eq!(launch.transport.vsock_address, Some(3));
    assert_eq!(launch.transport.unix_socket.as_deref(), Some("/run/bss.sock"));
    assert_eq!(launch.transport.ip_address.as_deref(), Some("192.0.2.7"));
    assert_eq!(launch.settings, GlobalSettings::default());
    let launch = sent(&["--unix-socket=/tmp/warp.sock", "send", "m"]);
    assert_eq!(launch.transport.vsock_address, None);
    assert_eq!(launch.transport.unix_socket.as_deref(), Some("/tmp/warp.sock"));
    assert_eq!(launch.transport.ip_address, None);
}

#[test]
fn an_unknown_subcommand_is_refused() {
    match refused(&["frobnicate"]) {
        CliError::UnknownSubcommand { name } => assert_eq!(name, "frobnicate"),
        other => panic!("unexpected error {:?}", other),
    }
    assert_eq!(refused(&["frobnicate"]).describe(), "unknown subcommand 'frobnicate'");
    assert_eq!(refused(&["Receive", "m"]).describe(), "unknown subcommand 'Receive'");
    assert_eq!(refused(&[""]).describe(), "unknown subcommand ''");
    assert_eq!(refused(&["--", "--port"]).describe(), "unknown subcommand '--port'");
}

#[test]
fn an_unknown_option_is_refused() {
    match refused(&["--verbose", "receive", "m"]) {
        CliError::Unexpected { token: CliToken::Long(name) } => assert_eq!(name, "verbose"),
        other => panic!("unexpected error {:?}", other),
    }
    match refused(&["-x"]) {
        CliError::Unexpected { token: CliToken::Short(c) } => assert_eq!(c, 'x'),
        other => panic!("unexpected error {:?}", other),
    }
    assert_eq!(refused(&["--verbose"]).describe(), "invalid option '--verbose'");
    assert_eq!(refused(&["-x"]).describe(), "invalid option '-x'");
    assert_eq!(refused(&["--Port", "5"]).describe(), "invalid option '--Port'");
}

#[test]
fn options_behind_the_subcommand_are_refused() {
    match refused(&["receive", "--port", "5", "m"]) {
        CliError::Unexpected { token: CliToken::Long(name) } => assert_eq!(name, "port"),
        other => panic!("unexpected error {:?}", other),
    }
    match refused(&["send", "m", "-h"]) {
        CliError::Unexpected { token: CliToken::Short(c) } => assert_eq!(c, 'h'),
        other => panic!("unexpected error {:?}", other),
    }
}

#[test]
fn a_second_value_behind_the_subcommand_is_refused() {
    match refused(&["receive", "m", "extra"]) {
        CliError::Unexpected { token: CliToken::Value(text) } => assert_eq!(text, "extra"),
        other => panic!("unexpected error {:?}", other),
    }
    assert_eq!(refused(&["send", "m", "extra"]).describe(), "unexpected argument \"extra\"");
}

#[test]
fn a_missing_value_is_refused() {
    match refused(&["--port"]) {
        CliError::Parser { message } => {
            assert_eq!(message, "missing argument for option '--port'")
        },
        other => panic!("unexpected error {:?}", other),
    }
    assert_eq!(refused(&["-t"]).describe(), "missing argument for option '-t'");
    assert_eq!(
        refused(&["--unix-socket"]).describe(),
        "missing argument for option '--unix-socket'"
    );
}

#[test]
fn a_value_that_is_no_number_is_refused() {
    for args in [
        ["--port", "abc"],
        ["--port", ""],
        ["--port", "-1"],
        ["--port", "4294967296"],
        ["--timeout", "1.5"],
        ["--bytes-max", "1k"],
        ["--vsock-address", "host"],
    ] {
        match refused(&args) {
            CliError::InvalidNumber { text } => assert_eq!(text, args[1]),
            other => panic!("unexpected error {:?}", other),
        }
    }
    match refused(&["-tp", "5"]) {
        CliError::InvalidNumber { text } => assert_eq!(text, "p"),
        other => panic!("unexpected error {:?}", other),
    }
    assert_eq!(
        refused(&["--port", "abc"]).describe(),
        "cannot parse argument \"abc\": invalid digit found in string"
    );
    assert_eq!(
        refused(&["--port", ""]).describe(),
        "cannot parse argument \"\": cannot parse integer from empty string"
    );
    assert_eq!(
        refused(&["--port", "4294967296"]).describe(),
        "cannot parse argument \"4294967296\": number too large to fit in target type"
    );
}

#[test]
fn parse_decimal_reads_numbers() {
    assert_eq!(parse_decimal("0"), Some(0));
    assert_eq!(parse_decimal("7"), Some(7));
    assert_eq!(parse_decimal("21"), Some(21));
    assert_eq!(parse_decimal("3600"), Some(3600));
    assert_eq!(parse_decimal("1048576"), Some(1024 * 1024));
    assert_eq!(parse_decimal("4294967295"), Some(u32::MAX));
    assert_eq!(parse_decimal("0000000000000000000042"), Some(42));
    assert_eq!(parse_decimal("+42"), Some(42));
    assert_eq!(parse_decimal("+0"), Some(0));
}

#[test]
fn parse_decimal_refuses_what_is_no_number() {
    for text in [
        "",
        "+",
        "-",
        "-1",
        "-0",
        "++1",
        "+-1",
        "1+",
        " 1",
        "1 ",
        "1_000",
        "1,000",
        "1.0",
        "1e3",
        "0x10",
        "abc",
        "12a",
        "\u{661}",
        "1\u{ff12}",
        "\u{ff0b}1",
    ] {
        assert_eq!(parse_decimal(text), None, "{:?}", text);
    }
}

#[test]
fn parse_decimal_refuses_what_does_not_fit() {
    assert_eq!(parse_decimal("4294967296"), None);
    assert_eq!(parse_decimal("4294967300"), None);
    assert_eq!(parse_decimal("42949672950"), None);
    assert_eq!(parse_decimal("99999999999999999999999999999999999999"), None);
    assert_eq!(parse_decimal("+4294967296"), None);
    assert_eq!(parse_decimal("+4294967295"), Some(u32::MAX));
}

#[test]
fn a_number_may_carry_a_plus_sign() {
    let launch = received(&["--port", "+8080", "receive", "m"]);
    assert_eq!(launch.settings.socket_port, 8080);
}

#[test]
fn a_value_for_an_option_that_takes_none_is_refused() {
    match refused(&["receive", "--=x"]) {
        CliError::Unexpected { token: CliToken::Long(name) } => assert_eq!(name, ""),
        other => panic!("unexpected error {:?}", other),
    }
}

#[test]
fn server_main_reads_what_follows_the_subcommand() {
    let settings = GlobalSettings { socket_port: 7, ..GlobalSettings::default() };
    let parser = lexopt::Parser::from_args(["manifest.toml"]);
    match server_main(settings, no_transport(), parser) {
        Ok(Invocation::Receive(launch)) => {
            assert_eq!(launch.manifest_path, "manifest.toml");
            assert_eq!(launch.settings, settings);
        },
        other => panic!("unexpected {:?}", other),
    }
    let parser = lexopt::Parser::from_args(Vec::<String>::new());
    assert!(matches!(server_main(settings, no_transport(), parser), Ok(Invocation::Help)));
    let parser = lexopt::Parser::from_args(["a", "b"]);
    assert!(matches!(
        server_main(settings, no_transport(), parser),
        Err(CliError::Unexpected { token: CliToken::Value(_) })
    ));
    let parser = lexopt::Parser::from_args(["--port", "5"]);
    assert!(matches!(
        server_main(settings, no_transport(), parser),
        Err(CliError::Unexpected { token: CliToken::Long(_) })
    ));
}

#[test]
fn client_main_reads_what_follows_the_subcommand() {
    let settings = GlobalSettings { timeout_seconds: 3, ..GlobalSettings::default() };
    let transport = TransportConfig {
        vsock_address: Some(2),
        unix_socket: None,
        ip_address: Some("::1".to_string()),
    };
    let parser = lexopt::Parser::from_args(["manifest.toml"]);
    match client_main(settings, transport, parser) {
        Ok(Invocation::Send(launch)) => {
            assert_eq!(launch.manifest_path, "manifest.toml");
            assert_eq!(launch.settings, settings);
            assert_eq!(launch.transport.vsock_address, Some(2));
            assert_eq!(launch.transport.ip_address.as_deref(), Some("::1"));
        },
        other => panic!("unexpected {:?}", other),
    }
    let parser = lexopt::Parser::from_args(["send", "manifest.toml"]);
    assert!(matches!(
        client_main(settings, no_transport(), parser),
        Err(CliError::Unexpected { token: CliToken::Value(_) })
    ));
}

#[test]
fn classify_knows_the_options() {
    let long = |name: &str| classify(&CliToken::Long(name.to_string()));
    assert_eq!(long("help"), TokenKind::Help);
    assert_eq!(long("timeout"), TokenKind::Number { number: NumberOption::Timeout });
    assert_eq!(long("port"), TokenKind::Number { number: NumberOption::Port });
    assert_eq!(long("bytes-max"), TokenKind::Number { number: NumberOption::BytesMax });
    assert_eq!(long("vsock-address"), TokenKind::Number { number: NumberOption::VsockAddress });
    assert_eq!(long("unix-socket"), TokenKind::Text { text: TextOption::UnixSocket });
    assert_eq!(long("ip-address"), TokenKind::Text { text: TextOption::IpAddress });
    assert_eq!(long("h"), TokenKind::Unexpected);
    assert_eq!(long(""), TokenKind::Unexpected);
    assert_eq!(long("Help"), TokenKind::Unexpected);
    assert_eq!(long("ports"), TokenKind::Unexpected);
    assert_eq!(classify(&CliToken::Short('h')), TokenKind::Help);
    assert_eq!(classify(&CliToken::Short('t')), TokenKind::Number { number: NumberOption::Timeout });
    assert_eq!(classify(&CliToken::Short('p')), TokenKind::Number { number: NumberOption::Port });
    assert_eq!(classify(&CliToken::Short('b')), TokenKind::Number { number: NumberOption::BytesMax });
    assert_eq!(classify(&CliToken::Short('v')), TokenKind::Unexpected);
    assert_eq!(classify(&CliToken::Short('H')), TokenKind::Unexpected);
}

#[test]
fn classify_knows_the_subcommands() {
    let value = |text: &str| classify(&CliToken::Value(text.to_string()));
    assert_eq!(value("receive"), TokenKind::Subcommand { command: Command::Receive });
    assert_eq!(value("send"), TokenKind::Subcommand { command: Command::Send });
    assert_eq!(value("Send"), TokenKind::UnknownSubcommand);
    assert_eq!(value("help"), TokenKind::UnknownSubcommand);
    assert_eq!(value(""), TokenKind::UnknownSubcommand);
    assert_eq!(value("port"), TokenKind::UnknownSubcommand);
}

#[test]
fn the_reader_starts_with_the_defaults() {
    let reader = Reader::new();
    assert_eq!(reader.settings, GlobalSettings::default());
    assert_eq!(reader.stage, Stage::Options);
    assert_eq!(reader.manifest_path, None);
    assert_eq!(reader.transport.vsock_address, None);
    assert_eq!(reader.transport.unix_socket, None);
    assert_eq!(reader.transport.ip_address, None);
}

#[test]
fn the_reader_takes_in_numbers_and_texts() {
    let reader = Reader::new()
        .set_number(NumberOption::Timeout, 1)
        .set_number(NumberOption::Port, 2)
        .set_number(NumberOption::BytesMax, 3)
        .set_number(NumberOption::VsockAddress, 4)
        .set_text(TextOption::UnixSocket, "/run/s".to_string())
        .set_text(TextOption::IpAddress, "::1".to_string());
    assert_eq!(
        reader.settings,
        GlobalSettings { timeout_seconds: 1, socket_port: 2, max_transmission_bytes: 3 }
    );
    assert_eq!(reader.transport.vsock_address, Some(4));
    assert_eq!(reader.transport.unix_socket.as_deref(), Some("/run/s"));
    assert_eq!(reader.transport.ip_address.as_deref(), Some("::1"));
    assert_eq!(reader.stage, Stage::Options);
}

#[test]
fn the_reader_asks_for_the_value_of_an_option() {
    let step = Reader::new().on_token(Some(CliToken::Long("port".to_string())));
    assert!(matches!(step, Step::NeedNumber(_, NumberOption::Port)));
    let step = Reader::new().on_token(Some(CliToken::Short('b')));
    assert!(matches!(step, Step::NeedNumber(_, NumberOption::BytesMax)));
    let step = Reader::new().on_token(Some(CliToken::Long("ip-address".to_string())));
    assert!(matches!(step, Step::NeedText(_, TextOption::IpAddress)));
}

#[test]
fn the_reader_moves_behind_the_subcommand() {
    match Reader::new().on_token(value("send")) {
        Step::Continue(reader) => {
            assert_eq!(reader.stage, Stage::Path { command: Command::Send });
            match reader.on_token(value("m")) {
                Step::Continue(reader) => {
                    assert_eq!(reader.manifest_path.as_deref(), Some("m"));
                    match reader.on_token(None) {
                        Step::Done(Ok(Invocation::Send(launch))) => {
                            assert_eq!(launch.manifest_path, "m")
                        },
                        _ => panic!("not launched"),
                    }
                },
                _ => panic!("path refused"),
            }
        },
        _ => panic!("subcommand refused"),
    }
}

#[test]
fn the_reader_behind_a_subcommand_accepts_one_value() {
    let reader = Reader::after_subcommand(GlobalSettings::default(), no_transport(), Command::Receive);
    assert_eq!(reader.stage, Stage::Path { command: Command::Receive });
    let step = reader.clone().on_token(Some(CliToken::Short('p')));
    assert!(matches!(step, Step::Done(Err(CliError::Unexpected { token: CliToken::Short('p') }))));
    let step = reader.clone().on_token(None);
    assert!(matches!(step, Step::Done(Ok(Invocation::Help))));
    let step = reader.on_token(value("receive"));
    match step {
        Step::Continue(reader) => {
            assert_eq!(reader.manifest_path.as_deref(), Some("receive"));
            let step = reader.on_token(value("again"));
            assert!(matches!(step, Step::Done(Err(CliError::Unexpected { .. }))));
        },
        _ => panic!("path refused"),
    }
}

#[test]
fn the_reader_takes_in_the_value_of_an_option() {
    let number = Want::Number { number: NumberOption::Port };
    match Reader::new().on_value(number, "8080".to_string()) {
        Ok(reader) => assert_eq!(reader.settings.socket_port, 8080),
        Err(error) => panic!("refused: {:?}", error),
    }
    match Reader::new().on_value(number, "eighty".to_string()) {
        Err(CliError::InvalidNumber { text }) => assert_eq!(text, "eighty"),
        other => panic!("unexpected {:?}", other),
    }
    let text = Want::Text { text: TextOption::UnixSocket };
    match Reader::new().on_value(text, "8080".to_string()) {
        Ok(reader) => {
            assert_eq!(reader.transport.unix_socket.as_deref(), Some("8080"));
            assert_eq!(reader.settings, GlobalSettings::default());
        },
        Err(error) => panic!("refused: {:?}", error),
    }
    match Reader::new().on_value(Want::Token, "8080".to_string()) {
        Ok(reader) => assert_eq!(reader.settings, GlobalSettings::default()),
        Err(error) => panic!("refused: {:?}", error),
    }
}

#[test]
fn the_subcommand_takes_over_the_rest_of_the_command_line() {
    let launch = received(&["--port", "9", "--unix-socket", "/run/s", "receive", "m.toml"]);
    assert_eq!(launch.settings.socket_port, 9);
    assert_eq!(launch.transport.unix_socket.as_deref(), Some("/run/s"));
    assert_eq!(launch.manifest_path, "m.toml");
    let launch = sent(&["-t", "4", "send", "send"]);
    assert_eq!(launch.settings.timeout_seconds, 4);
    assert_eq!(launch.manifest_path, "send");
    assert!(matches!(parse(&["receive", "--"]), Ok(Invocation::Help)));
    match parse(&["receive", "--", "--help"]) {
        Ok(Invocation::Receive(launch)) => assert_eq!(launch.manifest_path, "--help"),
        other => panic!("unexpected {:?}", other),
    }
}

#[test]
fn too_many_arguments_has_its_own_text() {
    assert_eq!(CliError::TooManyArguments.describe(), "too many arguments");
    assert_eq!(CliError::Parser { message: "as given".to_string() }.describe(), "as given");
}
