use crate::error::{ErrorModel, ParseError};
use crate::token::{Token, TokenModel};
use vstd::prelude::*;

verus! {

/// Longest accepted command line, literal payloads not counted.
pub const MAX_LINE_LENGTH: usize = 8192;

/// Largest accepted literal byte count.
pub const MAX_LITERAL_SIZE: u32 = 65536;

/// Byte values the tokenizer treats specially, by their ASCII names.
pub const SP_BYTE: u8 = 32;

pub const CR_BYTE: u8 = 13;

pub const LF_BYTE: u8 = 10;

pub const DQUOTE_BYTE: u8 = 34;

pub const BACKSLASH_BYTE: u8 = 92;

pub const OPEN_BRACE_BYTE: u8 = 123;

pub const CLOSE_BRACE_BYTE: u8 = 125;

pub const OPEN_PAREN_BYTE: u8 = 40;

pub const CLOSE_PAREN_BYTE: u8 = 41;

pub const LITERAL_PLUS_BYTE: u8 = 43;

pub const PERCENT_BYTE: u8 = 37;

pub const STAR_BYTE: u8 = 42;

pub const COUNT_DIGIT_0: u8 = 48;

pub const COUNT_DIGIT_9: u8 = 57;

pub const LETTER_G: u8 = 71;

pub const LETTER_E: u8 = 69;

pub const LETTER_T: u8 = 84;

pub const LETTER_Q: u8 = 81;

pub const LETTER_U: u8 = 85;

pub const LETTER_O: u8 = 79;

pub const LETTER_A: u8 = 65;

pub const LETTER_R: u8 = 82;

pub const LOWER_A_BYTE: u8 = 97;

pub const LOWER_Z_BYTE: u8 = 122;

/// The closed set of command keywords this parser family recognises.
#[derive(Clone, Copy, PartialEq, Eq, Debug)]
pub enum Command {
    GetQuota,
    GetQuotaRoot,
}

/// A parsed command skeleton: the client's tag, the command keyword, and
/// the ordered argument tokens, handed to a command-specific parser.
#[derive(Clone, PartialEq, Eq, Debug)]
pub struct Request {
    pub tag: Vec<u8>,
    pub command: Command,
    pub tokens: Vec<Token>,
}

/// Mathematical image of a `Request`.
#[verifier::ext_equal]
pub struct RequestModel {
    pub tag: Seq<u8>,
    pub command: Command,
    pub tokens: Seq<TokenModel>,
}

pub open spec fn tokens_model(ts: Seq<Token>) -> Seq<TokenModel> {
    ts.map_values(|t: Token| t@)
}

impl View for Request {
    type V = RequestModel;

    open spec fn view(&self) -> RequestModel {
        RequestModel { tag: self.tag@, command: self.command, tokens: tokens_model(self.tokens@) }
    }
}

/// What one fed chunk can produce: completed requests, failures for the
/// current command, and prompts the transport owes the client before a
/// synchronizing literal's payload may follow.
#[derive(Clone, PartialEq, Eq, Debug)]
pub enum FeedEvent {
    Completed(Request),
    Failed(ParseError),
    NeedsContinuation,
}

/// Mathematical image of a `FeedEvent`.
#[verifier::ext_equal]
pub enum EventModel {
    Completed(RequestModel),
    Failed(ErrorModel),
    NeedsContinuation,
}

impl View for FeedEvent {
    type V = EventModel;

    open spec fn view(&self) -> EventModel {
        match self {
            FeedEvent::Completed(r) => EventModel::Completed(r@),
            FeedEvent::Failed(e) => EventModel::Failed(e@),
            FeedEvent::NeedsContinuation => EventModel::NeedsContinuation,
        }
    }
}

pub open spec fn opt_event_model(e: Option<FeedEvent>) -> Option<EventModel> {
    match e {
        Some(x) => Some(x@),
        None => None,
    }
}

pub open spec fn opt_bytes_model(t: Option<Vec<u8>>) -> Option<Seq<u8>> {
    match t {
        Some(x) => Some(x@),
        None => None,
    }
}

pub open spec fn events_model(s: Seq<FeedEvent>) -> Seq<EventModel> {
    s.map_values(|e: FeedEvent| e@)
}

/// Tokenizer state. A line runs tag, command keyword, then arguments:
/// atoms, quoted strings, and literals declared as `{n}` or `{n+}`. A
/// synchronizing literal (`{n}`) owes the client a continuation prompt,
/// satisfied out of band by the transport; the receiver keeps consuming
/// whatever bytes arrive, so parsing stays a pure function of the bytes
/// seen so far. After an error the receiver discards input up to the next
/// line boundary and resynchronizes there.
#[derive(Clone, Copy, PartialEq, Eq, Debug)]
pub enum State {
    AwaitingTag,
    AwaitingCommand,
    AwaitingArgument,
    InAtom,
    InQuoted,
    InQuotedEscape,
    InLiteralCount { count: u32, seen_digit: bool },
    InLiteralPlus { count: u32 },
    AwaitingLiteralCr { count: u32, sync: bool },
    AwaitingLiteralLf { count: u32, sync: bool },
    AwaitingLiteralBytes { remaining: u32 },
    AwaitingContinuation { remaining: u32 },
    AwaitingLineFeed,
    Discarding,
}

/// Mathematical image of a `Receiver`.
#[verifier::ext_equal]
pub struct ReceiverModel {
    pub state: State,
    pub buf: Seq<u8>,
    pub tag: Seq<u8>,
    pub command: Option<Command>,
    pub tokens: Seq<TokenModel>,
    pub line_len: usize,
}

/// The stateful, resumable tokenizer. One instance is owned by one
/// connection; `feed` advances it by one chunk of bytes and returns every
/// event the chunk completes.
pub struct Receiver {
    state: State,
    buf: Vec<u8>,
    tag: Vec<u8>,
    command: Option<Command>,
    tokens: Vec<Token>,
    line_len: usize,
}

impl View for Receiver {
    type V = ReceiverModel;

    closed spec fn view(&self) -> ReceiverModel {
        ReceiverModel {
            state: self.state,
            buf: self.buf@,
            tag: self.tag@,
            command: self.command,
            tokens: tokens_model(self.tokens@),
            line_len: self.line_len,
        }
    }
}

/// A byte a command tag may hold: printable ASCII less the characters the
/// grammar reserves.
pub open spec fn is_tag_char(b: u8) -> bool {
    33 <= b && b <= 126 && b != OPEN_PAREN_BYTE && b != CLOSE_PAREN_BYTE && b != OPEN_BRACE_BYTE
        && b != PERCENT_BYTE && b != STAR_BYTE && b != DQUOTE_BYTE && b != BACKSLASH_BYTE && b
        != LITERAL_PLUS_BYTE
}

pub open spec fn to_upper(b: u8) -> u8 {
    if LOWER_A_BYTE <= b && b <= LOWER_Z_BYTE {
        (b - 32) as u8
    } else {
        b
    }
}

/// The command keyword a buffered word names, compared case-insensitively.
pub open spec fn spec_keyword_of(s: Seq<u8>) -> Option<Command> {
    if s.len() == 12 && to_upper(s[0]) == LETTER_G && to_upper(s[1]) == LETTER_E && to_upper(s[2])
        == LETTER_T && to_upper(s[3]) == LETTER_Q && to_upper(s[4]) == LETTER_U && to_upper(s[5])
        == LETTER_O && to_upper(s[6]) == LETTER_T && to_upper(s[7]) == LETTER_A && to_upper(s[8])
        == LETTER_R && to_upper(s[9]) == LETTER_O && to_upper(s[10]) == LETTER_O && to_upper(s[11])
        == LETTER_T {
        Some(Command::GetQuotaRoot)
    } else if s.len() == 8 && to_upper(s[0]) == LETTER_G && to_upper(s[1]) == LETTER_E && to_upper(
        s[2],
    ) == LETTER_T && to_upper(s[3]) == LETTER_Q && to_upper(s[4]) == LETTER_U && to_upper(s[5])
        == LETTER_O && to_upper(s[6]) == LETTER_T && to_upper(s[7]) == LETTER_A {
        Some(Command::GetQuota)
    } else {
        None
    }
}

pub open spec fn init_model() -> ReceiverModel {
    ReceiverModel {
        state: State::AwaitingTag,
        buf: Seq::empty(),
        tag: Seq::empty(),
        command: None,
        tokens: Seq::empty(),
        line_len: 0,
    }
}

pub open spec fn discard_model() -> ReceiverModel {
    ReceiverModel { state: State::Discarding, ..init_model() }
}

/// A failure: report the error, drop the current command, and
/// resynchronize at the next line boundary (reached already if the
/// offending byte is the line feed itself).
pub open spec fn spec_fail(t: Option<Seq<u8>>, msg: Seq<char>, b: u8) -> (ReceiverModel, Option<
    EventModel,
>) {
    (
        if b == LF_BYTE {
            init_model()
        } else {
            discard_model()
        },
        Some(EventModel::Failed(ErrorModel { tag: t, message: msg })),
    )
}

pub open spec fn step_tag(m: ReceiverModel, b: u8) -> (ReceiverModel, Option<EventModel>) {
    if b == SP_BYTE {
        if m.buf.len() == 0 {
            spec_fail(None, "Missing command tag."@, b)
        } else {
            (
                ReceiverModel { state: State::AwaitingCommand, buf: Seq::empty(), tag: m.buf, ..m },
                None,
            )
        }
    } else if b == CR_BYTE || b == LF_BYTE {
        if m.buf.len() == 0 {
            spec_fail(None, "Missing command tag."@, b)
        } else {
            spec_fail(Some(m.buf), "Missing command."@, b)
        }
    } else if is_tag_char(b) {
        (ReceiverModel { buf: m.buf.push(b), ..m }, None)
    } else {
        spec_fail(None, "Invalid tag."@, b)
    }
}

pub open spec fn step_command(m: ReceiverModel, b: u8) -> (ReceiverModel, Option<EventModel>) {
    if b == SP_BYTE || b == CR_BYTE || b == LF_BYTE {
        if m.buf.len() == 0 {
            spec_fail(Some(m.tag), "Missing command."@, b)
        } else {
            match spec_keyword_of(m.buf) {
                None => spec_fail(Some(m.tag), "Unknown command."@, b),
                Some(c) => {
                    if b == SP_BYTE {
                        (
                            ReceiverModel {
                                state: State::AwaitingArgument,
                                buf: Seq::empty(),
                                command: Some(c),
                                ..m
                            },
                            None,
                        )
                    } else if b == CR_BYTE {
                        (
                            ReceiverModel {
                                state: State::AwaitingLineFeed,
                                buf: Seq::empty(),
                                command: Some(c),
                                ..m
                            },
                            None,
                        )
                    } else {
                        spec_fail(Some(m.tag), "Expected CRLF."@, b)
                    }
                },
            }
        }
    } else {
        (ReceiverModel { buf: m.buf.push(b), ..m }, None)
    }
}

pub open spec fn step_argument(m: ReceiverModel, b: u8) -> (ReceiverModel, Option<EventModel>) {
    if b == SP_BYTE || b == OPEN_PAREN_BYTE || b == CLOSE_PAREN_BYTE {
        (m, None)
    } else if b == DQUOTE_BYTE {
        (ReceiverModel { state: State::InQuoted, ..m }, None)
    } else if b == OPEN_BRACE_BYTE {
        (ReceiverModel { state: State::InLiteralCount { count: 0, seen_digit: false }, ..m }, None)
    } else if b == CR_BYTE {
        (ReceiverModel { state: State::AwaitingLineFeed, ..m }, None)
    } else if b == LF_BYTE {
        spec_fail(Some(m.tag), "Expected CRLF."@, b)
    } else {
        (ReceiverModel { state: State::InAtom, buf: m.buf.push(b), ..m }, None)
    }
}

pub open spec fn step_atom(m: ReceiverModel, b: u8) -> (ReceiverModel, Option<EventModel>) {
    if b == SP_BYTE || b == OPEN_PAREN_BYTE || b == CLOSE_PAREN_BYTE {
        (
            ReceiverModel {
                state: State::AwaitingArgument,
                buf: Seq::empty(),
                tokens: m.tokens.push(TokenModel::Atom(m.buf)),
                ..m
            },
            None,
        )
    } else if b == DQUOTE_BYTE {
        (
            ReceiverModel {
                state: State::InQuoted,
                buf: Seq::empty(),
                tokens: m.tokens.push(TokenModel::Atom(m.buf)),
                ..m
            },
            None,
        )
    } else if b == CR_BYTE {
        (
            ReceiverModel {
                state: State::AwaitingLineFeed,
                buf: Seq::empty(),
                tokens: m.tokens.push(TokenModel::Atom(m.buf)),
                ..m
            },
            None,
        )
    } else if b == LF_BYTE {
        spec_fail(Some(m.tag), "Expected CRLF."@, b)
    } else {
        (ReceiverModel { buf: m.buf.push(b), ..m }, None)
    }
}

pub open spec fn step_quoted(m: ReceiverModel, b: u8) -> (ReceiverModel, Option<EventModel>) {
    if b == BACKSLASH_BYTE {
        (ReceiverModel { state: State::InQuotedEscape, ..m }, None)
    } else if b == DQUOTE_BYTE {
        (
            ReceiverModel {
                state: State::AwaitingArgument,
                buf: Seq::empty(),
                tokens: m.tokens.push(TokenModel::QuotedString(m.buf)),
                ..m
            },
            None,
        )
    } else if b == CR_BYTE || b == LF_BYTE {
        spec_fail(Some(m.tag), "Unterminated quoted string."@, b)
    } else {
        (ReceiverModel { buf: m.buf.push(b), ..m }, None)
    }
}

pub open spec fn step_literal_count(
    m: ReceiverModel,
    count: u32,
    seen_digit: bool,
    b: u8,
) -> (ReceiverModel, Option<EventModel>) {
    if COUNT_DIGIT_0 <= b && b <= COUNT_DIGIT_9 {
        let c2 = count * 10 + (b - COUNT_DIGIT_0);
        if c2 > MAX_LITERAL_SIZE {
            spec_fail(Some(m.tag), "Literal too large."@, b)
        } else {
            (
                ReceiverModel {
                    state: State::InLiteralCount { count: c2 as u32, seen_digit: true },
                    ..m
                },
                None,
            )
        }
    } else if b == LITERAL_PLUS_BYTE && seen_digit {
        (ReceiverModel { state: State::InLiteralPlus { count }, ..m }, None)
    } else if b == CLOSE_BRACE_BYTE && seen_digit {
        (ReceiverModel { state: State::AwaitingLiteralCr { count, sync: true }, ..m }, None)
    } else {
        spec_fail(Some(m.tag), "Invalid literal."@, b)
    }
}

pub open spec fn step_literal_lf(m: ReceiverModel, count: u32, sync: bool, b: u8) -> (
    ReceiverModel,
    Option<EventModel>,
) {
    if b == LF_BYTE {
        let prompt: Option<EventModel> = if sync {
            Some(EventModel::NeedsContinuation)
        } else {
            None
        };
        if count == 0 {
            (
                ReceiverModel {
                    state: State::AwaitingArgument,
                    tokens: m.tokens.push(TokenModel::Literal(Seq::empty())),
                    ..m
                },
                prompt,
            )
        } else if sync {
            (ReceiverModel { state: State::AwaitingContinuation { remaining: count }, ..m }, prompt)
        } else {
            (ReceiverModel { state: State::AwaitingLiteralBytes { remaining: count }, ..m }, prompt)
        }
    } else {
        spec_fail(Some(m.tag), "Invalid literal."@, b)
    }
}

/// One raw payload byte of a literal: accumulated verbatim, whatever it
/// holds; the token completes when the declared count is exhausted.
pub open spec fn step_literal_byte(m: ReceiverModel, remaining: u32, b: u8) -> (
    ReceiverModel,
    Option<EventModel>,
) {
    let buf2 = m.buf.push(b);
    if remaining <= 1 {
        (
            ReceiverModel {
                state: State::AwaitingArgument,
                buf: Seq::empty(),
                tokens: m.tokens.push(TokenModel::Literal(buf2)),
                ..m
            },
            None,
        )
    } else {
        (
            ReceiverModel {
                state: State::AwaitingLiteralBytes { remaining: (remaining - 1) as u32 },
                buf: buf2,
                ..m
            },
            None,
        )
    }
}

pub open spec fn step_line_feed(m: ReceiverModel, b: u8) -> (ReceiverModel, Option<EventModel>) {
    if b == LF_BYTE {
        match m.command {
            Some(c) => (
                init_model(),
                Some(
                    EventModel::Completed(
                        RequestModel { tag: m.tag, command: c, tokens: m.tokens },
                    ),
                ),
            ),
            None => spec_fail(Some(m.tag), "Missing command."@, b),
        }
    } else {
        spec_fail(Some(m.tag), "Expected CRLF."@, b)
    }
}

/// One byte of tokenization: a pure function of the receiver's state and
/// the byte, producing at most one event.
pub open spec fn spec_step(m: ReceiverModel, b: u8) -> (ReceiverModel, Option<EventModel>) {
    match m.state {
        State::Discarding => if b == LF_BYTE {
            (init_model(), None)
        } else {
            (m, None)
        },
        State::AwaitingLiteralBytes { remaining } => step_literal_byte(m, remaining, b),
        State::AwaitingContinuation { remaining } => step_literal_byte(m, remaining, b),
        _ => {
            if m.line_len >= MAX_LINE_LENGTH {
                spec_fail(
                    if m.state is AwaitingTag {
                        None
                    } else {
                        Some(m.tag)
                    },
                    "Request too long."@,
                    b,
                )
            } else {
                let m1 = ReceiverModel { line_len: (m.line_len + 1) as usize, ..m };
                match m1.state {
                    State::AwaitingTag => step_tag(m1, b),
                    State::AwaitingCommand => step_command(m1, b),
                    State::AwaitingArgument => step_argument(m1, b),
                    State::InAtom => step_atom(m1, b),
                    State::InQuoted => step_quoted(m1, b),
                    State::InQuotedEscape => (
                        ReceiverModel { state: State::InQuoted, buf: m1.buf.push(b), ..m1 },
                        None,
                    ),
                    State::InLiteralCount { count, seen_digit } => step_literal_count(
                        m1,
                        count,
                        seen_digit,
                        b,
                    ),
                    State::InLiteralPlus { count } => if b == CLOSE_BRACE_BYTE {
                        (
                            ReceiverModel {
                                state: State::AwaitingLiteralCr { count, sync: false },
                                ..m1
                            },
                            None,
                        )
                    } else {
                        spec_fail(Some(m1.tag), "Invalid literal."@, b)
                    },
                    State::AwaitingLiteralCr { count, sync } => if b == CR_BYTE {
                        (
                            ReceiverModel { state: State::AwaitingLiteralLf { count, sync }, ..m1 },
                            None,
                        )
                    } else {
                        spec_fail(Some(m1.tag), "Invalid literal."@, b)
                    },
                    State::AwaitingLiteralLf { count, sync } => step_literal_lf(m1, count, sync, b),
                    State::AwaitingLineFeed => step_line_feed(m1, b),
                    _ => (m1, None),
                }
            }
        },
    }
}

pub open spec fn opt_seq(e: Option<EventModel>) -> Seq<EventModel> {
    match e {
        Some(x) => seq![x],
        None => Seq::empty(),
    }
}

/// Tokenizing a whole byte sequence, byte by byte, collecting the events
/// in order.
pub open spec fn spec_run(m: ReceiverModel, s: Seq<u8>) -> (ReceiverModel, Seq<EventModel>)
    decreases s.len(),
{
    if s.len() == 0 {
        (m, Seq::empty())
    } else {
        let stepped = spec_step(m, s[0]);
        let rest = spec_run(stepped.0, s.drop_first());
        (rest.0, opt_seq(stepped.1) + rest.1)
    }
}

/// Law: feeding is chunking-invariant. Splitting a byte stream at any
/// boundary and feeding the parts in order leaves the receiver in the same
/// state and yields the same events, in the same order, as feeding the
/// stream whole.
pub proof fn lemma_chunking_invariance(m: ReceiverModel, s1: Seq<u8>, s2: Seq<u8>)
    ensures
        spec_run(m, s1 + s2).0 == spec_run(spec_run(m, s1).0, s2).0,
        spec_run(m, s1 + s2).1 == spec_run(m, s1).1 + spec_run(spec_run(m, s1).0, s2).1,
    decreases s1.len(),
{
    if s1.len() == 0 {
        assert(s1 + s2 =~= s2);
        assert(spec_run(m, s1).1 + spec_run(spec_run(m, s1).0, s2).1 =~= spec_run(m, s2).1);
    } else {
        let stepped = spec_step(m, s1[0]);
        assert((s1 + s2)[0] == s1[0]);
        assert((s1 + s2).drop_first() =~= s1.drop_first() + s2);
        lemma_chunking_invariance(stepped.0, s1.drop_first(), s2);
        assert(opt_seq(stepped.1) + (spec_run(stepped.0, s1.drop_first()).1 + spec_run(
            spec_run(stepped.0, s1.drop_first()).0,
            s2,
        ).1) =~= (opt_seq(stepped.1) + spec_run(stepped.0, s1.drop_first()).1) + spec_run(
            spec_run(stepped.0, s1.drop_first()).0,
            s2,
        ).1);
    }
}

proof fn lemma_literal_payload(m: ReceiverModel, payload: Seq<u8>)
    requires
        payload.len() >= 1,
        ((m.state matches State::AwaitingLiteralBytes { remaining } && remaining as int
            == payload.len()) || (m.state matches State::AwaitingContinuation { remaining }
            && remaining as int == payload.len())),
    ensures
        spec_run(m, payload).1 == Seq::<EventModel>::empty(),
        spec_run(m, payload).0 == (ReceiverModel {
            state: State::AwaitingArgument,
            buf: Seq::empty(),
            tokens: m.tokens.push(TokenModel::Literal(m.buf + payload)),
            ..m
        }),
    decreases payload.len(),
{
    let b = payload[0];
    let stepped = spec_step(m, b);
    if payload.len() == 1 {
        assert(m.buf.push(b) =~= m.buf + payload);
        assert(payload.drop_first().len() == 0);
        assert(spec_run(stepped.0, payload.drop_first()) == (stepped.0, Seq::<EventModel>::empty()));
        assert(spec_run(m, payload).1 =~= Seq::<EventModel>::empty());
    } else {
        lemma_literal_payload(stepped.0, payload.drop_first());
        assert(m.buf.push(b) + payload.drop_first() =~= m.buf + payload);
        assert(spec_run(m, payload).0 =~= ReceiverModel {
            state: State::AwaitingArgument,
            buf: Seq::empty(),
            tokens: m.tokens.push(TokenModel::Literal(m.buf + payload)),
            ..m
        });
        assert(spec_run(m, payload).1 =~= Seq::<EventModel>::empty());
    }
}

/// Law: a declared literal accumulates exactly its declared byte count.
/// From the state that awaits `n` payload bytes (synchronizing or not),
/// consuming any `n` bytes — carriage returns, line feeds, quotes and
/// backslashes included — completes one `Literal` token holding exactly
/// those `n` bytes, and nothing else happens.
pub proof fn lemma_literal_token_exact(m: ReceiverModel, payload: Seq<u8>)
    requires
        payload.len() >= 1,
        m.buf == Seq::<u8>::empty(),
        ((m.state matches State::AwaitingLiteralBytes { remaining } && remaining as int
            == payload.len()) || (m.state matches State::AwaitingContinuation { remaining }
            && remaining as int == payload.len())),
    ensures
        spec_run(m, payload).1 == Seq::<EventModel>::empty(),
        spec_run(m, payload).0.state == State::AwaitingArgument,
        spec_run(m, payload).0.tokens == m.tokens.push(TokenModel::Literal(payload)),
{
    lemma_literal_payload(m, payload);
    assert(m.buf + payload =~= payload);
}

fn tag_char(b: u8) -> (r: bool)
    ensures
        r == is_tag_char(b),
{
    33 <= b && b <= 126 && b != OPEN_PAREN_BYTE && b != CLOSE_PAREN_BYTE && b != OPEN_BRACE_BYTE
        && b != PERCENT_BYTE && b != STAR_BYTE && b != DQUOTE_BYTE && b != BACKSLASH_BYTE && b
        != LITERAL_PLUS_BYTE
}

fn upper_byte(b: u8) -> (r: u8)
    ensures
        r == to_upper(b),
{
    if LOWER_A_BYTE <= b && b <= LOWER_Z_BYTE {
        b - 32
    } else {
        b
    }
}

fn keyword_of(s: &Vec<u8>) -> (c: Option<Command>)
    ensures
        c == spec_keyword_of(s@),
{
    if s.len() == 12 && upper_byte(s[0]) == LETTER_G && upper_byte(s[1]) == LETTER_E && upper_byte(
        s[2],
    ) == LETTER_T && upper_byte(s[3]) == LETTER_Q && upper_byte(s[4]) == LETTER_U && upper_byte(
        s[5],
    ) == LETTER_O && upper_byte(s[6]) == LETTER_T && upper_byte(s[7]) == LETTER_A && upper_byte(
        s[8],
    ) == LETTER_R && upper_byte(s[9]) == LETTER_O && upper_byte(s[10]) == LETTER_O && upper_byte(
        s[11],
    ) == LETTER_T {
        Some(Command::GetQuotaRoot)
    } else if s.len() == 8 && upper_byte(s[0]) == LETTER_G && upper_byte(s[1]) == LETTER_E
        && upper_byte(s[2]) == LETTER_T && upper_byte(s[3]) == LETTER_Q && upper_byte(s[4])
        == LETTER_U && upper_byte(s[5]) == LETTER_O && upper_byte(s[6]) == LETTER_T && upper_byte(
        s[7],
    ) == LETTER_A {
        Some(Command::GetQuota)
    } else {
        None
    }
}

impl Receiver {
    /// A fresh receiver, awaiting the first command's tag.
    pub fn new() -> (r: Receiver)
        ensures
            r@ == init_model(),
    {
        Receiver {
            state: State::AwaitingTag,
            buf: Vec::new(),
            tag: Vec::new(),
            command: None,
            tokens: Vec::new(),
            line_len: 0,
        }
    }

    fn take_buf(&mut self) -> (r: Vec<u8>)
        ensures
            r@ == old(self).buf@,
            final (self)@ == (ReceiverModel { buf: Seq::empty(), ..old(self)@ }),
    {
        let mut t: Vec<u8> = Vec::new();
        core::mem::swap(&mut t, &mut self.buf);
        t
    }

    fn take_tag(&mut self) -> (r: Vec<u8>)
        ensures
            r@ == old(self).tag@,
            final (self)@ == (ReceiverModel { tag: Seq::empty(), ..old(self)@ }),
    {
        let mut t: Vec<u8> = Vec::new();
        core::mem::swap(&mut t, &mut self.tag);
        t
    }

    fn reset(&mut self)
        ensures
            final (self)@ == init_model(),
    {
        self.state = State::AwaitingTag;
        self.buf.clear();
        self.tag.clear();
        self.command = None;
        self.tokens.clear();
        self.line_len = 0;
        proof {
            assert(final (self)@ =~= init_model());
        }
    }

    fn fail(&mut self, tag: Option<Vec<u8>>, message: &str, b: u8) -> (e: FeedEvent)
        ensures
            ({
                let r = spec_fail(opt_bytes_model(tag), message@, b);
                final (self)@ == r.0 && Some(e@) == r.1
            }),
    {
        self.state = if b == LF_BYTE {
            State::AwaitingTag
        } else {
            State::Discarding
        };
        self.buf.clear();
        self.tag.clear();
        self.command = None;
        self.tokens.clear();
        self.line_len = 0;
        proof {
            assert(final (self)@ =~= spec_fail(opt_bytes_model(tag), message@, b).0);
        }
        FeedEvent::Failed(ParseError { tag, message: message.to_owned() })
    }

    fn on_tag(&mut self, b: u8) -> (e: Option<FeedEvent>)
        ensures
            ({
                let r = step_tag(old(self)@, b);
                final (self)@ == r.0 && opt_event_model(e) == r.1
            }),
    {
        if b == SP_BYTE {
            if self.buf.len() == 0 {
                Some(self.fail(None, "Missing command tag.", b))
            } else {
                let t = self.take_buf();
                self.tag = t;
                self.state = State::AwaitingCommand;
                None
            }
        } else if b == CR_BYTE || b == LF_BYTE {
            if self.buf.len() == 0 {
                Some(self.fail(None, "Missing command tag.", b))
            } else {
                let t = self.take_buf();
                Some(self.fail(Some(t), "Missing command.", b))
            }
        } else if tag_char(b) {
            self.buf.push(b);
            None
        } else {
            Some(self.fail(None, "Invalid tag.", b))
        }
    }

    fn on_command(&mut self, b: u8) -> (e: Option<FeedEvent>)
        ensures
            ({
                let r = step_command(old(self)@, b);
                final (self)@ == r.0 && opt_event_model(e) == r.1
            }),
    {
        if b == SP_BYTE || b == CR_BYTE || b == LF_BYTE {
            if self.buf.len() == 0 {
                let t = self.take_tag();
                Some(self.fail(Some(t), "Missing command.", b))
            } else {
                match keyword_of(&self.buf) {
                    None => {
                        let t = self.take_tag();
                        Some(self.fail(Some(t), "Unknown command.", b))
                    },
                    Some(c) => {
                        if b == SP_BYTE {
                            self.buf.clear();
                            self.command = Some(c);
                            self.state = State::AwaitingArgument;
                            None
                        } else if b == CR_BYTE {
                            self.buf.clear();
                            self.command = Some(c);
                            self.state = State::AwaitingLineFeed;
                            None
                        } else {
                            let t = self.take_tag();
                            Some(self.fail(Some(t), "Expected CRLF.", b))
                        }
                    },
                }
            }
        } else {
            self.buf.push(b);
            None
        }
    }

    fn finish_atom(&mut self, next: State)
        ensures
            final (self)@ == (ReceiverModel {
                state: next,
                buf: Seq::empty(),
                tokens: old(self)@.tokens.push(TokenModel::Atom(old(self)@.buf)),
                ..old(self)@
            }),
    {
        let t = self.take_buf();
        self.tokens.push(Token::Atom(t));
        self.state = next;
        proof {
            assert(tokens_model(self.tokens@) =~= old(self)@.tokens.push(
                TokenModel::Atom(old(self)@.buf),
            ));
        }
    }

    fn on_argument(&mut self, b: u8) -> (e: Option<FeedEvent>)
        ensures
            ({
                let r = step_argument(old(self)@, b);
                final (self)@ == r.0 && opt_event_model(e) == r.1
            }),
    {
        if b == SP_BYTE || b == OPEN_PAREN_BYTE || b == CLOSE_PAREN_BYTE {
            None
        } else if b == DQUOTE_BYTE {
            self.state = State::InQuoted;
            None
        } else if b == OPEN_BRACE_BYTE {
            self.state = State::InLiteralCount { count: 0, seen_digit: false };
            None
        } else if b == CR_BYTE {
            self.state = State::AwaitingLineFeed;
            None
        } else if b == LF_BYTE {
            let t = self.take_tag();
            Some(self.fail(Some(t), "Expected CRLF.", b))
        } else {
            self.state = State::InAtom;
            self.buf.push(b);
            None
        }
    }

    fn on_atom(&mut self, b: u8) -> (e: Option<FeedEvent>)
        ensures
            ({
                let r = step_atom(old(self)@, b);
                final (self)@ == r.0 && opt_event_model(e) == r.1
            }),
    {
        if b == SP_BYTE || b == OPEN_PAREN_BYTE || b == CLOSE_PAREN_BYTE {
            self.finish_atom(State::AwaitingArgument);
            None
        } else if b == DQUOTE_BYTE {
            self.finish_atom(State::InQuoted);
            None
        } else if b == CR_BYTE {
            self.finish_atom(State::AwaitingLineFeed);
            None
        } else if b == LF_BYTE {
            let t = self.take_tag();
            Some(self.fail(Some(t), "Expected CRLF.", b))
        } else {
            self.buf.push(b);
            None
        }
    }

    fn on_quoted(&mut self, b: u8) -> (e: Option<FeedEvent>)
        ensures
            ({
                let r = step_quoted(old(self)@, b);
                final (self)@ == r.0 && opt_event_model(e) == r.1
            }),
    {
        if b == BACKSLASH_BYTE {
            self.state = State::InQuotedEscape;
            None
        } else if b == DQUOTE_BYTE {
            let t = self.take_buf();
            self.tokens.push(Token::QuotedString(t));
            self.state = State::AwaitingArgument;
            proof {
                assert(tokens_model(self.tokens@) =~= old(self)@.tokens.push(
                    TokenModel::QuotedString(old(self)@.buf),
                ));
            }
            None
        } else if b == CR_BYTE || b == LF_BYTE {
            let t = self.take_tag();
            Some(self.fail(Some(t), "Unterminated quoted string.", b))
        } else {
            self.buf.push(b);
            None
        }
    }

    fn on_literal_count(&mut self, count: u32, seen_digit: bool, b: u8) -> (e: Option<FeedEvent>)
        ensures
            ({
                let r = step_literal_count(old(self)@, count, seen_digit, b);
                final (self)@ == r.0 && opt_event_model(e) == r.1
            }),
    {
        if COUNT_DIGIT_0 <= b && b <= COUNT_DIGIT_9 {
            let c2: u64 = count as u64 * 10 + (b - COUNT_DIGIT_0) as u64;
            if c2 > MAX_LITERAL_SIZE as u64 {
                let t = self.take_tag();
                Some(self.fail(Some(t), "Literal too large.", b))
            } else {
                self.state = State::InLiteralCount { count: c2 as u32, seen_digit: true };
                None
            }
        } else if b == LITERAL_PLUS_BYTE && seen_digit {
            self.state = State::InLiteralPlus { count };
            None
        } else if b == CLOSE_BRACE_BYTE && seen_digit {
            self.state = State::AwaitingLiteralCr { count, sync: true };
            None
        } else {
            let t = self.take_tag();
            Some(self.fail(Some(t), "Invalid literal.", b))
        }
    }

    fn on_literal_lf(&mut self, count: u32, sync: bool, b: u8) -> (e: Option<FeedEvent>)
        ensures
            ({
                let r = step_literal_lf(old(self)@, count, sync, b);
                final (self)@ == r.0 && opt_event_model(e) == r.1
            }),
    {
        if b == LF_BYTE {
            let prompt: Option<FeedEvent> = if sync {
                Some(FeedEvent::NeedsContinuation)
            } else {
                None
            };
            if count == 0 {
                self.tokens.push(Token::Literal(Vec::new()));
                self.state = State::AwaitingArgument;
                proof {
                    assert(tokens_model(self.tokens@) =~= old(self)@.tokens.push(
                        TokenModel::Literal(Seq::empty()),
                    ));
                }
                prompt
            } else if sync {
                self.state = State::AwaitingContinuation { remaining: count };
                prompt
            } else {
                self.state = State::AwaitingLiteralBytes { remaining: count };
                prompt
            }
        } else {
            let t = self.take_tag();
            Some(self.fail(Some(t), "Invalid literal.", b))
        }
    }

    fn on_literal_byte(&mut self, remaining: u32, b: u8) -> (e: Option<FeedEvent>)
        ensures
            ({
                let r = step_literal_byte(old(self)@, remaining, b);
                final (self)@ == r.0 && opt_event_model(e) == r.1
            }),
    {
        self.buf.push(b);
        if remaining <= 1 {
            let t = self.take_buf();
            self.tokens.push(Token::Literal(t));
            self.state = State::AwaitingArgument;
            proof {
                assert(tokens_model(self.tokens@) =~= old(self)@.tokens.push(
                    TokenModel::Literal(old(self)@.buf.push(b)),
                ));
            }
        } else {
            self.state = State::AwaitingLiteralBytes { remaining: remaining - 1 };
        }
        None
    }

    fn on_line_feed(&mut self, b: u8) -> (e: Option<FeedEvent>)
        ensures
            ({
                let r = step_line_feed(old(self)@, b);
                final (self)@ == r.0 && opt_event_model(e) == r.1
            }),
    {
        if b == LF_BYTE {
            match self.command {
                Some(c) => {
                    let tag = self.take_tag();
                    let mut toks: Vec<Token> = Vec::new();
                    core::mem::swap(&mut toks, &mut self.tokens);
                    self.reset();
                    Some(FeedEvent::Completed(Request { tag, command: c, tokens: toks }))
                },
                None => {
                    let t = self.take_tag();
                    Some(self.fail(Some(t), "Missing command.", b))
                },
            }
        } else {
            let t = self.take_tag();
            Some(self.fail(Some(t), "Expected CRLF.", b))
        }
    }

    fn step_byte(&mut self, b: u8) -> (e: Option<FeedEvent>)
        ensures
            ({
                let r = spec_step(old(self)@, b);
                final (self)@ == r.0 && opt_event_model(e) == r.1
            }),
    {
        match self.state {
            State::Discarding => {
                if b == LF_BYTE {
                    self.reset();
                }
                None
            },
            State::AwaitingLiteralBytes { remaining } => self.on_literal_byte(remaining, b),
            State::AwaitingContinuation { remaining } => self.on_literal_byte(remaining, b),
            _ => {
                if self.line_len >= MAX_LINE_LENGTH {
                    match self.state {
                        State::AwaitingTag => Some(self.fail(None, "Request too long.", b)),
                        _ => {
                            let t = self.take_tag();
                            Some(self.fail(Some(t), "Request too long.", b))
                        },
                    }
                } else {
                    self.line_len = self.line_len + 1;
                    match self.state {
                        State::AwaitingTag => self.on_tag(b),
                        State::AwaitingCommand => self.on_command(b),
                        State::AwaitingArgument => self.on_argument(b),
                        State::InAtom => self.on_atom(b),
                        State::InQuoted => self.on_quoted(b),
                        State::InQuotedEscape => {
                            self.buf.push(b);
                            self.state = State::InQuoted;
                            None
                        },
                        State::InLiteralCount { count, seen_digit } => self.on_literal_count(
                            count,
                            seen_digit,
                            b,
                        ),
                        State::InLiteralPlus { count } => {
                            if b == CLOSE_BRACE_BYTE {
                                self.state = State::AwaitingLiteralCr { count, sync: false };
                                None
                            } else {
                                let t = self.take_tag();
                                Some(self.fail(Some(t), "Invalid literal.", b))
                            }
                        },
                        State::AwaitingLiteralCr { count, sync } => {
                            if b == CR_BYTE {
                                self.state = State::AwaitingLiteralLf { count, sync };
                                None
                            } else {
                                let t = self.take_tag();
                                Some(self.fail(Some(t), "Invalid literal.", b))
                            }
                        },
                        State::AwaitingLiteralLf { count, sync } => self.on_literal_lf(
                            count,
                            sync,
                            b,
                        ),
                        State::AwaitingLineFeed => self.on_line_feed(b),
                        _ => None,
                    }
                }
            },
        }
    }

    /// Feeds one chunk of bytes, of any fragmentation, and returns every
    /// event it completes: finished requests, failures, and continuation
    /// prompts the transport owes the client. The receiver afterwards
    /// stands exactly where replaying all bytes seen so far would put it.
    pub fn feed(&mut self, bytes: &Vec<u8>) -> (events: Vec<FeedEvent>)
        ensures
            ({
                let r = spec_run(old(self)@, bytes@);
                final (self)@ == r.0 && events_model(events@) == r.1
            }),
    {
        let mut events: Vec<FeedEvent> = Vec::new();
        let mut i: usize = 0;
        while i < bytes.len()
            invariant
                i <= bytes@.len(),
                spec_run(old(self)@, bytes@.take(i as int)) == (self@, events_model(events@)),
            decreases bytes@.len() - i,
        {
            let b = bytes[i];
            let ghost pre = self@;
            let ghost evs_pre = events_model(events@);
            proof {
                assert(bytes@.take(i + 1) =~= bytes@.take(i as int) + seq![b]);
                lemma_chunking_invariance(old(self)@, bytes@.take(i as int), seq![b]);
                assert(seq![b][0] == b);
                assert(seq![b].drop_first() =~= Seq::<u8>::empty());
            }
            let e = self.step_byte(b);
            proof {
                let stepped = spec_step(pre, b);
                assert(seq![b].len() == 1);
                assert(seq![b][0] == b);
                assert(spec_run(stepped.0, Seq::<u8>::empty()) == (
                    stepped.0,
                    Seq::<EventModel>::empty(),
                ));
                assert(spec_run(stepped.0, seq![b].drop_first()) == (
                    stepped.0,
                    Seq::<EventModel>::empty(),
                ));
                assert(spec_run(pre, seq![b]).0 == stepped.0);
                assert(spec_run(pre, seq![b]).1 == opt_seq(stepped.1) + Seq::<EventModel>::empty());
                assert(spec_run(pre, seq![b]).1 =~= opt_seq(stepped.1));
            }
            match e {
                Some(ev) => {
                    events.push(ev);
                    proof {
                        assert(events_model(events@) =~= evs_pre + opt_seq(
                            opt_event_model(Some(ev)),
                        ));
                    }
                },
                None => {
                    proof {
                        assert(events_model(events@) =~= evs_pre + opt_seq(None));
                    }
                },
            }
            i = i + 1;
            proof {
                assert(spec_run(old(self)@, bytes@.take(i as int)) == (
                    self@,
                    events_model(events@),
                ));
            }
        }
        proof {
            assert(bytes@.take(bytes@.len() as int) =~= bytes@);
        }
        events
    }
}

} // verus!
