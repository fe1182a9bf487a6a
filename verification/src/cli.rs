//! Reading the command line.
//!
//! The arguments are split into options and values by `lexopt`. This module
//! decides what each of them means: options set the timeout, the port, the
//! size limit and the transport addresses; the first value names the
//! subcommand; the value behind it is the path of the manifest.

use vstd::prelude::*;
use vstd::string::*;
use crate::number::{all_digits, is_digit, numeral, parse_numeral};
use crate::settings::GlobalSettings;
use crate::text::str_eq;
use crate::transport::TransportConfig;

verus! {

/// The argument parser of `lexopt`. What it holds is known by name only.
#[verifier::external_type_specification]
#[verifier::external_body]
pub struct ExParser(lexopt::Parser);

/// One item of the command line.
#[derive(Clone, Debug)]
pub enum CliToken {
    /// A short option such as `-p`.
    Short(char),
    /// A long option such as `--port`, without its dashes.
    Long(String),
    /// A positional argument.
    Value(String),
}

/// The two subcommands.
#[derive(Clone, Copy, Debug, PartialEq, Eq, Structural)]
pub enum Command {
    Send,
    Receive,
}

/// The options that take a number.
#[derive(Clone, Copy, Debug, PartialEq, Eq, Structural)]
pub enum NumberOption {
    Timeout,
    Port,
    BytesMax,
    VsockAddress,
}

/// The options that take a text.
#[derive(Clone, Copy, Debug, PartialEq, Eq, Structural)]
pub enum TextOption {
    UnixSocket,
    IpAddress,
}

/// What an item means where options are read.
#[derive(Clone, Copy, Debug, PartialEq, Eq, Structural)]
pub enum TokenKind {
    Help,
    Number { number: NumberOption },
    Text { text: TextOption },
    Subcommand { command: Command },
    UnknownSubcommand,
    Unexpected,
}

/// What was asked for on the command line.
#[derive(Clone, Debug)]
pub struct Launch {
    pub settings: GlobalSettings,
    pub transport: TransportConfig,
    pub manifest_path: String,
}

/// What to do.
#[derive(Clone, Debug)]
pub enum Invocation {
    /// Print the help text and leave.
    Help,
    /// Receive the secrets of the manifest.
    Receive(Launch),
    /// Send the secrets of the manifest.
    Send(Launch),
}

/// Why the command line is refused.
#[derive(Clone, Debug)]
pub enum CliError {
    /// The parser refused the arguments, or a value did not parse.
    Parser { message: String },
    /// The first value is neither `send` nor `receive`.
    UnknownSubcommand { name: String },
    /// The value of an option that takes a number is none.
    InvalidNumber { text: String },
    /// An option or value that has no place where it stands.
    Unexpected { token: CliToken },
    /// The parser handed out more than `ARGUMENT_LIMIT` items.
    TooManyArguments,
}

/// Where the reading stands.
#[derive(Clone, Copy, Debug, PartialEq, Eq, Structural)]
pub enum Stage {
    /// Options and the subcommand are read.
    Options,
    /// The subcommand is known; the manifest path is read.
    Path { command: Command },
}

/// What has been read so far.
#[derive(Clone, Debug)]
pub struct Reader {
    pub settings: GlobalSettings,
    pub transport: TransportConfig,
    pub stage: Stage,
    pub manifest_path: Option<String>,
}

/// What the reading needs next.
pub enum Step {
    /// The next item.
    Continue(Reader),
    /// The number that belongs to an option.
    NeedNumber(Reader, NumberOption),
    /// The text that belongs to an option.
    NeedText(Reader, TextOption),
    /// Nothing: the command line is decided.
    Done(Result<Invocation, CliError>),
}

/// The most items that are read in one go. The bound makes sure that
/// reading ends whatever the parser hands out; no command line comes near
/// it.
pub const ARGUMENT_LIMIT: usize = usize::MAX;

/// What an item means where options are read.
pub open spec fn kind_of(token: CliToken) -> TokenKind {
    match token {
        CliToken::Short(c) => if c == 'h' {
            TokenKind::Help
        } else if c == 't' {
            TokenKind::Number { number: NumberOption::Timeout }
        } else if c == 'p' {
            TokenKind::Number { number: NumberOption::Port }
        } else if c == 'b' {
            TokenKind::Number { number: NumberOption::BytesMax }
        } else {
            TokenKind::Unexpected
        },
        CliToken::Long(name) => if name@ == "help"@ {
            TokenKind::Help
        } else if name@ == "timeout"@ {
            TokenKind::Number { number: NumberOption::Timeout }
        } else if name@ == "port"@ {
            TokenKind::Number { number: NumberOption::Port }
        } else if name@ == "bytes-max"@ {
            TokenKind::Number { number: NumberOption::BytesMax }
        } else if name@ == "vsock-address"@ {
            TokenKind::Number { number: NumberOption::VsockAddress }
        } else if name@ == "unix-socket"@ {
            TokenKind::Text { text: TextOption::UnixSocket }
        } else if name@ == "ip-address"@ {
            TokenKind::Text { text: TextOption::IpAddress }
        } else {
            TokenKind::Unexpected
        },
        CliToken::Value(value) => if value@ == "receive"@ {
            TokenKind::Subcommand { command: Command::Receive }
        } else if value@ == "send"@ {
            TokenKind::Subcommand { command: Command::Send }
        } else {
            TokenKind::UnknownSubcommand
        },
    }
}

/// Says what an item means where options are read.
pub fn classify(token: &CliToken) -> (kind: TokenKind)
    ensures
        kind == kind_of(*token),
{
    match token {
        CliToken::Short(c) => {
            if *c == 'h' {
                TokenKind::Help
            } else if *c == 't' {
                TokenKind::Number { number: NumberOption::Timeout }
            } else if *c == 'p' {
                TokenKind::Number { number: NumberOption::Port }
            } else if *c == 'b' {
                TokenKind::Number { number: NumberOption::BytesMax }
            } else {
                TokenKind::Unexpected
            }
        },
        CliToken::Long(name) => {
            let name = name.as_str();
            if str_eq(name, "help") {
                TokenKind::Help
            } else if str_eq(name, "timeout") {
                TokenKind::Number { number: NumberOption::Timeout }
            } else if str_eq(name, "port") {
                TokenKind::Number { number: NumberOption::Port }
            } else if str_eq(name, "bytes-max") {
                TokenKind::Number { number: NumberOption::BytesMax }
            } else if str_eq(name, "vsock-address") {
                TokenKind::Number { number: NumberOption::VsockAddress }
            } else if str_eq(name, "unix-socket") {
                TokenKind::Text { text: TextOption::UnixSocket }
            } else if str_eq(name, "ip-address") {
                TokenKind::Text { text: TextOption::IpAddress }
            } else {
                TokenKind::Unexpected
            }
        },
        CliToken::Value(value) => {
            let value = value.as_str();
            if str_eq(value, "receive") {
                TokenKind::Subcommand { command: Command::Receive }
            } else if str_eq(value, "send") {
                TokenKind::Subcommand { command: Command::Send }
            } else {
                TokenKind::UnknownSubcommand
            }
        },
    }
}

/// The digits of a number as it is written: what follows an optional `+`.
pub open spec fn unsigned_part(text: Seq<char>) -> Seq<char> {
    if text.len() > 0 && text[0] == '+' {
        text.subrange(1, text.len() as int)
    } else {
        text
    }
}

/// The number that a text writes: an optional `+` and one or more decimal
/// digits whose value fits thirty-two bits. Nothing else is a number: no
/// blank, no `-`, no empty text.
pub open spec fn decimal_value(text: Seq<char>) -> Option<u32> {
    numeral(unsigned_part(text), 10, u32::MAX)
}

/// Reads the number of an option.
pub fn parse_decimal(text: &str) -> (number: Option<u32>)
    ensures
        number == decimal_value(text@),
{
    broadcast use vstd::utf8::is_ascii_chars_nat_bound;

    let ghost digits = unsigned_part(text@);
    if !text.is_ascii() {
        proof {
            if all_digits(digits, 10) {
                assert forall|i: int| 0 <= i < text@.len() implies '\0' <= #[trigger] text@[i]
                    <= '\u{7f}' by {
                    if digits.len() == text@.len() {
                        assert(is_digit(digits[i], 10));
                    } else if i > 0 {
                        assert(is_digit(digits[i - 1], 10));
                    }
                }
            }
        }
        return None;
    }
    let n: usize = text.unicode_len();
    if n > 0 && text.get_ascii(0) == 43 {
        proof {
            assert((text@[0] as nat) < 128);
            assert(text@[0] == '+');
        }
        parse_numeral(text.substring_ascii(1, n), 10, u32::MAX)
    } else {
        proof {
            if n > 0 {
                assert((text@[0] as nat) < 128);
                assert(text@[0] != '+');
            }
        }
        parse_numeral(text, 10, u32::MAX)
    }
}


/// What has been read, with the number of an option taken in.
pub open spec fn with_number(reader: Reader, option: NumberOption, value: u32) -> Reader {
    match option {
        NumberOption::Timeout => Reader {
            settings: GlobalSettings { timeout_seconds: value, ..reader.settings },
            ..reader
        },
        NumberOption::Port => Reader {
            settings: GlobalSettings { socket_port: value, ..reader.settings },
            ..reader
        },
        NumberOption::BytesMax => Reader {
            settings: GlobalSettings { max_transmission_bytes: value, ..reader.settings },
            ..reader
        },
        NumberOption::VsockAddress => Reader {
            transport: TransportConfig { vsock_address: Some(value), ..reader.transport },
            ..reader
        },
    }
}

/// What has been read, with the text of an option taken in.
pub open spec fn with_text(reader: Reader, option: TextOption, value: String) -> Reader {
    match option {
        TextOption::UnixSocket => Reader {
            transport: TransportConfig { unix_socket: Some(value), ..reader.transport },
            ..reader
        },
        TextOption::IpAddress => Reader {
            transport: TransportConfig { ip_address: Some(value), ..reader.transport },
            ..reader
        },
    }
}

/// The invocation of a subcommand with what has been read.
pub open spec fn launch(reader: Reader, command: Command, manifest_path: String) -> Invocation {
    let launch = Launch { settings: reader.settings, transport: reader.transport, manifest_path };
    match command {
        Command::Receive => Invocation::Receive(launch),
        Command::Send => Invocation::Send(launch),
    }
}

/// What the next item, or the end of the command line, leads to.
///
/// Before the subcommand, options are taken in, `-h` or `--help` asks for
/// the help text, and the first value must name a subcommand. Behind the
/// subcommand exactly one value is accepted, the manifest path, and no
/// option. A command line that ends without a manifest path asks for the
/// help text.
pub open spec fn see(reader: Reader, token: Option<CliToken>) -> Step {
    match token {
        None => match reader.stage {
            Stage::Options => Step::Done(Ok(Invocation::Help)),
            Stage::Path { command } => match reader.manifest_path {
                None => Step::Done(Ok(Invocation::Help)),
                Some(path) => Step::Done(Ok(launch(reader, command, path))),
            },
        },
        Some(token) => match reader.stage {
            Stage::Options => match kind_of(token) {
                TokenKind::Help => Step::Done(Ok(Invocation::Help)),
                TokenKind::Number { number: option } => Step::NeedNumber(reader, option),
                TokenKind::Text { text: option } => Step::NeedText(reader, option),
                TokenKind::Subcommand { command } => Step::Continue(
                    Reader { stage: Stage::Path { command }, ..reader },
                ),
                TokenKind::UnknownSubcommand => Step::Done(
                    Err(CliError::UnknownSubcommand { name: token->Value_0 }),
                ),
                TokenKind::Unexpected => Step::Done(Err(CliError::Unexpected { token })),
            },
            Stage::Path { command } => if token is Value && reader.manifest_path is None {
                Step::Continue(Reader { manifest_path: Some(token->Value_0), ..reader })
            } else {
                Step::Done(Err(CliError::Unexpected { token }))
            },
        },
    }
}

impl Reader {
    /// Nothing read: the default settings and no address.
    pub open spec fn initial() -> Reader {
        Reader {
            settings: GlobalSettings::initial(),
            transport: TransportConfig { vsock_address: None, unix_socket: None, ip_address: None },
            stage: Stage::Options,
            manifest_path: None,
        }
    }

    /// A reader that has read nothing.
    pub fn new() -> (reader: Reader)
        ensures
            reader == Reader::initial(),
    {
        Reader {
            settings: GlobalSettings::default(),
            transport: TransportConfig { vsock_address: None, unix_socket: None, ip_address: None },
            stage: Stage::Options,
            manifest_path: None,
        }
    }

    /// A reader that stands behind a subcommand.
    pub fn after_subcommand(settings: GlobalSettings, transport: TransportConfig, command: Command)
        -> (reader: Reader)
        ensures
            reader == (Reader {
                settings,
                transport,
                stage: Stage::Path { command },
                manifest_path: None,
            }),
    {
        Reader { settings, transport, stage: Stage::Path { command }, manifest_path: None }
    }

    /// Takes in the number of an option.
    pub fn set_number(self, option: NumberOption, value: u32) -> (reader: Reader)
        ensures
            reader == with_number(self, option, value),
    {
        let mut reader = self;
        match option {
            NumberOption::Timeout => {
                reader.settings.timeout_seconds = value;
            },
            NumberOption::Port => {
                reader.settings.socket_port = value;
            },
            NumberOption::BytesMax => {
                reader.settings.max_transmission_bytes = value;
            },
            NumberOption::VsockAddress => {
                reader.transport.vsock_address = Some(value);
            },
        }
        reader
    }

    /// Takes in the text of an option.
    pub fn set_text(self, option: TextOption, value: String) -> (reader: Reader)
        ensures
            reader == with_text(self, option, value),
    {
        let mut reader = self;
        match option {
            TextOption::UnixSocket => {
                reader.transport.unix_socket = Some(value);
            },
            TextOption::IpAddress => {
                reader.transport.ip_address = Some(value);
            },
        }
        reader
    }

    /// Takes in the next item, or the end of the command line.
    pub fn on_token(self, token: Option<CliToken>) -> (step: Step)
        ensures
            step == see(self, token),
    {
        let token = match token {
            Some(token) => token,
            None => {
                return match self.stage {
                    Stage::Options => Step::Done(Ok(Invocation::Help)),
                    Stage::Path { command } => match self.manifest_path {
                        None => Step::Done(Ok(Invocation::Help)),
                        Some(manifest_path) => {
                            let launch = Launch {
                                settings: self.settings,
                                transport: self.transport,
                                manifest_path,
                            };
                            match command {
                                Command::Receive => Step::Done(Ok(Invocation::Receive(launch))),
                                Command::Send => Step::Done(Ok(Invocation::Send(launch))),
                            }
                        },
                    },
                };
            },
        };
        match self.stage {
            Stage::Options => match classify(&token) {
                TokenKind::Help => Step::Done(Ok(Invocation::Help)),
                TokenKind::Number { number: option } => Step::NeedNumber(self, option),
                TokenKind::Text { text: option } => Step::NeedText(self, option),
                TokenKind::Subcommand { command } => {
                    let mut reader = self;
                    reader.stage = Stage::Path { command };
                    Step::Continue(reader)
                },
                TokenKind::UnknownSubcommand => match token {
                    CliToken::Value(name) => Step::Done(Err(CliError::UnknownSubcommand { name })),
                    other => Step::Done(Err(CliError::Unexpected { token: other })),
                },
                TokenKind::Unexpected => Step::Done(Err(CliError::Unexpected { token })),
            },
            Stage::Path { command: _ } => {
                if self.manifest_path.is_none() {
                    match token {
                        CliToken::Value(path) => {
                            let mut reader = self;
                            reader.manifest_path = Some(path);
                            Step::Continue(reader)
                        },
                        other => Step::Done(Err(CliError::Unexpected { token: other })),
                    }
                } else {
                    Step::Done(Err(CliError::Unexpected { token }))
                }
            },
        }
    }

    /// Takes in the value of an option, as it was written: a number for an
    /// option that takes a number, the text itself otherwise.
    pub fn on_value(self, want: Want, text: String) -> (taken: Result<Reader, CliError>)
        ensures
            match react(self, want, Reply::Text(text)).2 {
                None => taken == Ok::<Reader, CliError>(
                    react(self, want, Reply::Text(text)).0,
                ),
                Some(decision) => decision is Err && taken == Err::<Reader, CliError>(
                    decision->Err_0,
                ),
            },
    {
        match want {
            Want::Token => Ok(self),
            Want::Number { number: option } => match parse_decimal(text.as_str()) {
                Some(value) => Ok(self.set_number(option, value)),
                None => Err(CliError::InvalidNumber { text }),
            },
            Want::Text { text: option } => Ok(self.set_text(option, text)),
        }
    }
}

/// What the reading waits for.
#[derive(Clone, Copy, Debug, PartialEq, Eq, Structural)]
pub enum Want {
    /// The next item.
    Token,
    /// The value of an option that takes a number.
    Number { number: NumberOption },
    /// The value of an option that takes a text.
    Text { text: TextOption },
}

/// What the parser handed back to one request.
pub enum Reply {
    /// The next item, or none at the end of the command line.
    Token(Option<CliToken>),
    /// The value of an option, as it was written.
    Text(String),
    /// An error, in the parser's words.
    Failure(String),
}

/// The reading after one reply: what has been read, what is waited for,
/// and the decision if the reply decides the command line. A reply of
/// another kind than was waited for changes nothing.
pub open spec fn react(reader: Reader, want: Want, reply: Reply) -> (
    Reader,
    Want,
    Option<Result<Invocation, CliError>>,
) {
    match (want, reply) {
        (_, Reply::Failure(message)) => (reader, want, Some(Err(CliError::Parser { message }))),
        (Want::Token, Reply::Token(token)) => match see(reader, token) {
            Step::Continue(next) => (next, Want::Token, None),
            Step::NeedNumber(next, option) => (next, Want::Number { number: option }, None),
            Step::NeedText(next, option) => (next, Want::Text { text: option }, None),
            Step::Done(result) => (reader, want, Some(result)),
        },
        (Want::Number { number: option }, Reply::Text(text)) => match decimal_value(text@) {
            Some(value) => (with_number(reader, option, value), Want::Token, None),
            None => (reader, want, Some(Err(CliError::InvalidNumber { text }))),
        },
        (Want::Text { text: option }, Reply::Text(value)) => (
            with_text(reader, option, value),
            Want::Token,
            None,
        ),
        _ => (reader, want, None),
    }
}

/// What the parser of `lexopt` still holds: the arguments it has not read
/// and what it keeps of the argument it stands in, written as texts. Two
/// parsers that hold the same hand out the same.
pub uninterp spec fn unread(parser: lexopt::Parser) -> Seq<Seq<char>>;

/// What `lexopt::Parser::from_args` makes a parser hold for these
/// arguments.
pub uninterp spec fn fresh_parser(args: Seq<Seq<char>>) -> Seq<Seq<char>>;

/// What `lexopt::Parser::next` hands out from a parser that holds
/// `unread`: an item, the end of the command line, or the text of its
/// error.
pub uninterp spec fn lexed_item(unread: Seq<Seq<char>>) -> Result<Option<CliToken>, Seq<char>>;

/// What a parser that held `unread` holds after `lexopt::Parser::next`.
pub uninterp spec fn after_item(unread: Seq<Seq<char>>) -> Seq<Seq<char>>;

/// What `lexopt::Parser::value` hands out from a parser that holds
/// `unread`: the value of the option just seen, or the text of its error.
pub uninterp spec fn lexed_value(unread: Seq<Seq<char>>) -> Result<Seq<char>, Seq<char>>;

/// What a parser that held `unread` holds after `lexopt::Parser::value`.
pub uninterp spec fn after_value(unread: Seq<Seq<char>>) -> Seq<Seq<char>>;

/// The arguments as texts.
pub open spec fn texts(args: Seq<String>) -> Seq<Seq<char>> {
    args.map_values(|arg: String| arg@)
}

/// A reading under way: what has been read, what is waited for, and what
/// the parser still holds.
pub struct Session {
    pub reader: Reader,
    pub want: Want,
    pub unread: Seq<Seq<char>>,
}

/// A reading that starts with `reader` on a parser that holds `unread`.
pub open spec fn begin(reader: Reader, unread: Seq<Seq<char>>) -> Session {
    Session { reader, want: Want::Token, unread }
}

/// Whether `reply` is what the parser hands out to the request that the
/// reading makes next: the next item where an item is waited for, the
/// value of the option where a value is waited for. Texts count by what
/// they hold.
pub open spec fn told(session: Session, reply: Reply) -> bool {
    match session.want {
        Want::Token => match reply {
            Reply::Token(token) => lexed_item(session.unread) == Ok::<
                Option<CliToken>,
                Seq<char>,
            >(token),
            Reply::Failure(message) => lexed_item(session.unread) == Err::<
                Option<CliToken>,
                Seq<char>,
            >(message@),
            Reply::Text(_) => false,
        },
        _ => match reply {
            Reply::Text(text) => lexed_value(session.unread) == Ok::<Seq<char>, Seq<char>>(text@),
            Reply::Failure(message) => lexed_value(session.unread) == Err::<
                Seq<char>,
                Seq<char>,
            >(message@),
            Reply::Token(_) => false,
        },
    }
}

/// What the parser holds after the request that the reading makes next.
pub open spec fn unread_next(session: Session) -> Seq<Seq<char>> {
    match session.want {
        Want::Token => after_item(session.unread),
        _ => after_value(session.unread),
    }
}

/// The reading after a sequence of replies, each of them what the parser
/// handed out in its turn and none of them deciding the command line.
pub open spec fn session_after(start: Session, replies: Seq<Reply>) -> Option<Session>
    decreases replies.len(),
{
    if replies.len() == 0 {
        Some(start)
    } else {
        match session_after(start, replies.drop_last()) {
            None => None,
            Some(session) => {
                let (next, wanted, decided) = react(session.reader, session.want, replies.last());
                if told(session, replies.last()) && decided is None {
                    Some(Session { reader: next, want: wanted, unread: unread_next(session) })
                } else {
                    None
                }
            },
        }
    }
}

/// The decision that a sequence of replies leads to, where each reply is
/// what the parser handed out in its turn and the last one decides the
/// command line.
pub open spec fn verdict(start: Session, replies: Seq<Reply>) -> Option<
    Result<Invocation, CliError>,
> {
    if replies.len() == 0 {
        None
    } else {
        match session_after(start, replies.drop_last()) {
            None => None,
            Some(session) => if told(session, replies.last()) {
                react(session.reader, session.want, replies.last()).2
            } else {
                None
            },
        }
    }
}

/// Whether `decision` is what the reading comes to: the decision that the
/// parser's replies lead to; or, where `ARGUMENT_LIMIT` replies or more
/// came and none decided, the error for too many arguments.
pub open spec fn decided(start: Session, decision: Result<Invocation, CliError>) -> bool {
    ||| exists|replies: Seq<Reply>| verdict(start, replies) == Some(decision)
    ||| decision == Err::<Invocation, CliError>(CliError::TooManyArguments) && exists|
        replies: Seq<Reply>,
    |
        replies.len() >= ARGUMENT_LIMIT && #[trigger] session_after(start, replies) is Some
}

/// One more reply: it either decides the command line or leads to the
/// next state of the reading.
proof fn lemma_one_more(start: Session, replies: Seq<Reply>, session: Session, reply: Reply)
    requires
        session_after(start, replies) == Some(session),
        told(session, reply),
    ensures
        ({
            let (next, wanted, decision) = react(session.reader, session.want, reply);
            let all = replies.push(reply);
            &&& all.len() == replies.len() + 1
            &&& verdict(start, all) == decision
            &&& decision is None ==> session_after(start, all) == Some(
                Session { reader: next, want: wanted, unread: unread_next(session) },
            )
        }),
{
    assert(replies.push(reply).drop_last() =~= replies);
}

/// Replies that follow a reading under way continue it: what they lead to
/// from where the reading stands, they lead to from its start.
proof fn lemma_continue(start: Session, before: Seq<Reply>, session: Session, after: Seq<Reply>)
    requires
        session_after(start, before) == Some(session),
    ensures
        session_after(start, before + after) == session_after(session, after),
        after.len() > 0 ==> verdict(start, before + after) == verdict(session, after),
    decreases after.len(),
{
    if after.len() == 0 {
        assert(before + after =~= before);
    } else {
        assert((before + after).drop_last() =~= before + after.drop_last());
        assert((before + after).last() == after.last());
        lemma_continue(start, before, session, after.drop_last());
    }
}

/// What a reading under way comes to, the reading comes to from its
/// start.
proof fn lemma_decided_later(
    start: Session,
    before: Seq<Reply>,
    session: Session,
    decision: Result<Invocation, CliError>,
)
    requires
        session_after(start, before) == Some(session),
        decided(session, decision),
    ensures
        decided(start, decision),
{
    if exists|replies: Seq<Reply>| verdict(session, replies) == Some(decision) {
        let after = choose|replies: Seq<Reply>| verdict(session, replies) == Some(decision);
        lemma_continue(start, before, session, after);
        assert(verdict(start, before + after) == Some(decision));
    } else {
        let after = choose|replies: Seq<Reply>|
            replies.len() >= ARGUMENT_LIMIT && #[trigger] session_after(session, replies) is Some;
        lemma_continue(start, before, session, after);
        assert(session_after(start, before + after) is Some);
    }
}

/// Hands the arguments to `lexopt::Parser::from_args`; they hold no
/// program name. What the parser then holds depends on the arguments
/// alone.
#[verifier::external_body]
fn parser_from_args(args: Vec<String>) -> (parser: lexopt::Parser)
    ensures
        unread(parser) == fresh_parser(texts(args@)),
{
    lexopt::Parser::from_args(args)
}

/// Calls `lexopt::Parser::next` and hands its item over as a `CliToken`,
/// its error as the text that `Display` writes. A value that is no valid
/// Unicode comes back as the error that `lexopt::ValueExt::string` makes
/// of it. What is handed out, and what the parser holds afterwards,
/// depend on what the parser held alone.
#[verifier::external_body]
fn next_token(parser: &mut lexopt::Parser) -> (reply: Result<Option<CliToken>, String>)
    ensures
        unread(*final(parser)) == after_item(unread(*old(parser))),
        match reply {
            Ok(token) => lexed_item(unread(*old(parser))) == Ok::<Option<CliToken>, Seq<char>>(
                token,
            ),
            Err(message) => lexed_item(unread(*old(parser))) == Err::<
                Option<CliToken>,
                Seq<char>,
            >(message@),
        },
{
    match parser.next() {
        Err(error) => Err(error.to_string()),
        Ok(None) => Ok(None),
        Ok(Some(lexopt::Arg::Short(c))) => Ok(Some(CliToken::Short(c))),
        Ok(Some(lexopt::Arg::Long(name))) => Ok(Some(CliToken::Long(name.to_owned()))),
        Ok(Some(lexopt::Arg::Value(value))) => match lexopt::ValueExt::string(value) {
            Ok(text) => Ok(Some(CliToken::Value(text))),
            Err(error) => Err(error.to_string()),
        },
    }
}

/// Calls `lexopt::Parser::value` for the value of the option just seen
/// and hands it over as a text, its error as the text that `Display`
/// writes. A value that is no valid Unicode comes back as the error that
/// `lexopt::ValueExt::string` makes of it. What is handed out, and what
/// the parser holds afterwards, depend on what the parser held alone.
#[verifier::external_body]
fn option_value(parser: &mut lexopt::Parser) -> (reply: Result<String, String>)
    ensures
        unread(*final(parser)) == after_value(unread(*old(parser))),
        match reply {
            Ok(text) => lexed_value(unread(*old(parser))) == Ok::<Seq<char>, Seq<char>>(text@),
            Err(message) => lexed_value(unread(*old(parser))) == Err::<Seq<char>, Seq<char>>(
                message@,
            ),
        },
{
    match parser.value() {
        Err(error) => Err(error.to_string()),
        Ok(value) => match lexopt::ValueExt::string(value) {
            Ok(text) => Ok(text),
            Err(error) => Err(error.to_string()),
        },
    }
}

/// A positional argument as `lexopt` quotes it in the error that
/// `lexopt::Arg::unexpected` makes of it.
pub uninterp spec fn quoted_argument(value: Seq<char>) -> Seq<char>;

/// The text for an item that has no place where it stands.
pub open spec fn unexpected_text(token: CliToken) -> Seq<char> {
    match token {
        CliToken::Short(c) => "invalid option '-"@ + seq![c] + "'"@,
        CliToken::Long(name) => "invalid option '--"@ + name@ + "'"@,
        CliToken::Value(value) => "unexpected argument "@ + quoted_argument(value@),
    }
}

/// Asks `lexopt::Arg::unexpected` for the error of an item and hands back
/// its text as `Display` writes it: `invalid option '-c'` for a short
/// option, `invalid option '--name'` for a long one, and for a value the
/// words `unexpected argument` and the value in quotes, which depends on
/// the value alone.
#[verifier::external_body]
fn unexpected_message(token: &CliToken) -> (text: String)
    ensures
        match *token {
            CliToken::Short(c) => text@ == "invalid option '-"@ + seq![c] + "'"@,
            CliToken::Long(name) => text@ == "invalid option '--"@ + name@ + "'"@,
            CliToken::Value(value) => text@ == "unexpected argument "@ + quoted_argument(value@),
        },
{
    match token {
        CliToken::Short(c) => lexopt::Arg::Short(*c).unexpected().to_string(),
        CliToken::Long(name) => lexopt::Arg::Long(name).unexpected().to_string(),
        CliToken::Value(value) => lexopt::Arg::Value(value.into()).unexpected().to_string(),
    }
}

/// What `lexopt::ValueExt::parse` says of a text that it does not take
/// for a number of thirty-two bits: the text of its error. It is none for
/// a text that it takes for a number.
pub uninterp spec fn number_failure(value: Seq<char>) -> Option<Seq<char>>;

/// Asks `lexopt::ValueExt::parse` for a number of thirty-two bits and
/// hands back the text of its error as `Display` writes it, or nothing
/// where it finds a number. The answer depends on the text alone.
#[verifier::external_body]
fn number_error(value: &str) -> (text: Option<String>)
    ensures
        match text {
            Some(words) => number_failure(value@) == Some(words@),
            None => number_failure(value@) is None,
        },
{
    match lexopt::ValueExt::parse::<u32>(&std::path::PathBuf::from(value).into_os_string()) {
        Ok(_) => None,
        Err(error) => Some(error.to_string()),
    }
}

impl CliError {
    /// The text of an error for an unknown subcommand.
    pub open spec fn unknown_subcommand_text(name: Seq<char>) -> Seq<char> {
        "unknown subcommand '"@ + name + "'"@
    }

    /// The text of an error for a value that is no number: the parser's
    /// words for it, or the value itself where the parser has none.
    pub open spec fn invalid_number_text(value: Seq<char>) -> Seq<char> {
        match number_failure(value) {
            Some(words) => words,
            None => value,
        }
    }

    /// The error in words.
    pub fn describe(&self) -> (text: String)
        ensures
            self matches CliError::Parser { message } ==> text@ == message@,
            self matches CliError::UnknownSubcommand { name } ==> text@
                == CliError::unknown_subcommand_text(name@),
            self matches CliError::InvalidNumber { text: value } ==> text@
                == CliError::invalid_number_text(value@),
            self matches CliError::Unexpected { token } ==> text@ == unexpected_text(*token),
            self is TooManyArguments ==> text@ == "too many arguments"@,
    {
        match self {
            CliError::Parser { message } => message.clone(),
            CliError::InvalidNumber { text: value } => match number_error(value.as_str()) {
                Some(words) => words,
                None => value.clone(),
            },
            CliError::UnknownSubcommand { name } => {
                let mut text = "unknown subcommand '".to_owned();
                text.append(name.as_str());
                text.append("'");
                text
            },
            CliError::Unexpected { token } => unexpected_message(token),
            CliError::TooManyArguments => "too many arguments".to_owned(),
        }
    }
}

/// Whether a reading that started at `start` may hand the rest of the
/// command line to a subcommand: only one that started before the
/// subcommand.
pub open spec fn rank(start: Reader) -> nat {
    if start.stage is Options {
        1
    } else {
        0
    }
}

/// Reads items from the parser until the command line is decided. A
/// reading that comes upon the subcommand hands the rest of the command
/// line to `server_main` or `client_main`.
fn drive(start: Reader, parser: lexopt::Parser) -> (decision: Result<Invocation, CliError>)
    ensures
        decided(begin(start, unread(parser)), decision),
    decreases rank(start), 1nat,
{
    let ghost origin = begin(start, unread(parser));
    let mut source = parser;
    let mut reader = start;
    let ghost mut replies: Seq<Reply> = Seq::empty();
    let mut budget: usize = ARGUMENT_LIMIT;
    while budget > 0
        invariant
            origin == begin(start, unread(parser)),
            session_after(origin, replies) == Some(begin(reader, unread(source))),
            replies.len() + budget >= ARGUMENT_LIMIT,
            rank(reader) <= rank(start),
        decreases budget,
    {
        budget -= 1;
        let ghost here = begin(reader, unread(source));
        let stage = reader.stage;
        let token = match next_token(&mut source) {
            Ok(token) => token,
            Err(message) => {
                proof {
                    lemma_one_more(origin, replies, here, Reply::Failure(message));
                }
                return Err(CliError::Parser { message });
            },
        };
        proof {
            lemma_one_more(origin, replies, here, Reply::Token(token));
            replies = replies.push(Reply::Token(token));
        }
        let (next, want) = match reader.on_token(token) {
            Step::Continue(next) => (next, Want::Token),
            Step::NeedNumber(next, option) => (next, Want::Number { number: option }),
            Step::NeedText(next, option) => (next, Want::Text { text: option }),
            Step::Done(decision) => {
                return decision;
            },
        };
        match want {
            Want::Token => {
                match (stage, next.stage) {
                    (Stage::Options, Stage::Path { command }) => {
                        if next.manifest_path.is_none() {
                            let decision = match command {
                                Command::Receive => server_main(
                                    next.settings,
                                    next.transport,
                                    source,
                                ),
                                Command::Send => client_main(next.settings, next.transport, source),
                            };
                            proof {
                                lemma_decided_later(
                                    origin,
                                    replies,
                                    begin(next, unread(source)),
                                    decision,
                                );
                            }
                            return decision;
                        }
                    },
                    _ => {},
                }
                reader = next;
            },
            _ => {
                let ghost asked = Session { reader: next, want, unread: unread(source) };
                match option_value(&mut source) {
                    Err(message) => {
                        proof {
                            lemma_one_more(origin, replies, asked, Reply::Failure(message));
                        }
                        return Err(CliError::Parser { message });
                    },
                    Ok(text) => {
                        proof {
                            lemma_one_more(origin, replies, asked, Reply::Text(text));
                            replies = replies.push(Reply::Text(text));
                        }
                        match next.on_value(want, text) {
                            Ok(taken) => {
                                reader = taken;
                            },
                            Err(error) => {
                                return Err(error);
                            },
                        }
                    },
                }
            },
        }
    }
    proof {
        assert(session_after(origin, replies) is Some);
    }
    Err(CliError::TooManyArguments)
}

/// Reads a command line. `args` holds the arguments without the program
/// name.
///
/// The decision is the one that the parser's replies lead to, from a
/// reader that has read nothing and a parser that holds the arguments.
pub fn parse_command_line(args: Vec<String>) -> (decision: Result<Invocation, CliError>)
    ensures
        decided(begin(Reader::initial(), fresh_parser(texts(args@))), decision),
{
    drive(Reader::new(), parser_from_args(args))
}

/// Reads what follows the subcommand `receive`: the manifest path.
///
/// The decision is the one that the parser's replies lead to, from a
/// reader that stands behind the subcommand and what the parser holds.
pub fn server_main(settings: GlobalSettings, transport: TransportConfig, parser: lexopt::Parser)
    -> (decision: Result<Invocation, CliError>)
    ensures
        decided(
            begin(
                Reader {
                    settings,
                    transport,
                    stage: Stage::Path { command: Command::Receive },
                    manifest_path: None,
                },
                unread(parser),
            ),
            decision,
        ),
    decreases 0nat, 2nat,
{
    drive(Reader::after_subcommand(settings, transport, Command::Receive), parser)
}

/// Reads what follows the subcommand `send`: the manifest path.
///
/// The decision is the one that the parser's replies lead to, from a
/// reader that stands behind the subcommand and what the parser holds.
pub fn client_main(settings: GlobalSettings, transport: TransportConfig, parser: lexopt::Parser)
    -> (decision: Result<Invocation, CliError>)
    ensures
        decided(
            begin(
                Reader {
                    settings,
                    transport,
                    stage: Stage::Path { command: Command::Send },
                    manifest_path: None,
                },
                unread(parser),
            ),
            decision,
        ),
    decreases 0nat, 2nat,
{
    drive(Reader::after_subcommand(settings, transport, Command::Send), parser)
}

/// A reading that has come through a sequence of replies has come
/// through each of its beginnings.
pub proof fn lemma_session_prefix(start: Session, replies: Seq<Reply>, k: int)
    requires
        0 <= k <= replies.len(),
        session_after(start, replies) is Some,
    ensures
        session_after(start, replies.take(k)) is Some,
    decreases replies.len(),
{
    if k == replies.len() {
        assert(replies.take(k) =~= replies);
    } else {
        assert(replies.drop_last().take(k) =~= replies.take(k));
        lemma_session_prefix(start, replies.drop_last(), k);
    }
}

/// Where the first item that the parser hands out decides the command
/// line, the reading comes to that decision and to no other. So the end
/// of the command line behind a subcommand asks for the help text, and an
/// option behind a subcommand is refused, whatever follows.
pub proof fn lemma_first_item_decides(
    start: Session,
    token: Option<CliToken>,
    decision: Result<Invocation, CliError>,
)
    requires
        start.want == Want::Token,
        lexed_item(start.unread) == Ok::<Option<CliToken>, Seq<char>>(token),
        see(start.reader, token) is Done,
        decided(start, decision),
    ensures
        see(start.reader, token) == Step::Done(decision),
{
    assert forall|replies: Seq<Reply>| replies.len() >= 1 && #[trigger] session_after(
        start,
        replies,
    ) is Some implies false by {
        lemma_session_prefix(start, replies, 1);
        let first = replies.take(1);
        assert(first.drop_last() =~= Seq::<Reply>::empty());
        assert(session_after(start, first.drop_last()) == Some(start));
        assert(told(start, first.last()));
    }
    if exists|replies: Seq<Reply>| verdict(start, replies) == Some(decision) {
        let replies = choose|replies: Seq<Reply>| verdict(start, replies) == Some(decision);
        let front = replies.drop_last();
        if front.len() >= 1 {
            assert(session_after(start, front) is Some);
        } else {
            assert(front =~= Seq::<Reply>::empty());
            assert(session_after(start, front) == Some(start));
        }
    } else {
        let replies = choose|replies: Seq<Reply>|
            replies.len() >= ARGUMENT_LIMIT && #[trigger] session_after(start, replies) is Some;
        assert(session_after(start, replies) is Some);
    }
}

/// Behind a subcommand, the only command line that launches it holds one
/// value and nothing else; that value is the manifest path.
pub proof fn lemma_launch_needs_one_path(reader: Reader, command: Command, path: String)
    requires
        reader.stage == (Stage::Path { command }),
        reader.manifest_path is None,
    ensures
        see(reader, None) == Step::Done(Ok(Invocation::Help)),
        see(reader, Some(CliToken::Value(path))) == Step::Continue(
            Reader { manifest_path: Some(path), ..reader },
        ),
        see(Reader { manifest_path: Some(path), ..reader }, None) == Step::Done(
            Ok(launch(reader, command, path)),
        ),
        forall|token: CliToken|
            (#[trigger] see(Reader { manifest_path: Some(path), ..reader }, Some(token)))
                == Step::Done(Err(CliError::Unexpected { token })),
{
}

/// An option changes only what it names: the timeout, the port, the size
/// limit or one address.
pub proof fn lemma_options_are_independent(reader: Reader, value: u32, text: String)
    ensures
        with_number(reader, NumberOption::Timeout, value).settings == (GlobalSettings {
            timeout_seconds: value,
            ..reader.settings
        }),
        with_number(reader, NumberOption::Port, value).settings == (GlobalSettings {
            socket_port: value,
            ..reader.settings
        }),
        with_number(reader, NumberOption::BytesMax, value).settings == (GlobalSettings {
            max_transmission_bytes: value,
            ..reader.settings
        }),
        with_number(reader, NumberOption::VsockAddress, value).settings == reader.settings,
        with_text(reader, TextOption::UnixSocket, text).settings == reader.settings,
        with_text(reader, TextOption::IpAddress, text).settings == reader.settings,
        with_text(reader, TextOption::UnixSocket, text).transport.vsock_address
            == reader.transport.vsock_address,
        with_text(reader, TextOption::IpAddress, text).transport.unix_socket
            == reader.transport.unix_socket,
{
}

} // verus!
