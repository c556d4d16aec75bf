//! The per-message render pipeline.
//!
//! A text message qualifies for rendering when the bot has joined the room,
//! the message is fresh (younger than five seconds), it is plain text, and
//! its body starts with the command prefix `,typ`. A qualifying message with
//! a blank remainder gets a fixed usage reply; otherwise the remainder is
//! prepended with a fixed document preamble and handed to the external
//! typesetting compiler. The compiler's outcome — timeout, failure output, or
//! image bytes — is turned into exactly one reply payload.
//!
//! The pipeline here is the decision core: the surrounding process spawns the
//! compiler, enforces the deadline, collects the output bytes, uploads image
//! bytes to the media store and sends the reply.

use vstd::prelude::*;
use vstd::string::StrSliceExecFns;
use vstd::string::StringExecFns;

verus! {

/// A message older than this many milliseconds gets no reply: stale events
/// replayed after downtime must not trigger renders.
pub const FRESHNESS_WINDOW_MILLIS: u64 = 5000;

// ----- named results of outside calls -----

/// Whether a character has the Unicode `White_Space` property, as
/// `char::is_whitespace` decides it.
pub uninterp spec fn is_whitespace_char(c: char) -> bool;

/// The characters that decoding the bytes as UTF-8 with replacement yields,
/// as `String::from_utf8_lossy` decides it.
pub uninterp spec fn lossy_decoded(bytes: Seq<u8>) -> Seq<char>;

/// The pixel dimensions (width, height) of the bytes decoded as an image, or
/// `None` where the bytes are no valid image, as the image decoder decides it.
pub uninterp spec fn decoded_image_dims(bytes: Seq<u8>) -> Option<(u32, u32)>;

/// Relies on `char::is_whitespace` of std: whether the character has the
/// Unicode `White_Space` property, a function of the character alone.
#[verifier::external_body]
fn char_is_whitespace(c: char) -> (r: bool)
    ensures
        r == is_whitespace_char(c),
{
    c.is_whitespace()
}

/// Relies on `String::from_utf8_lossy` of std: decodes the bytes as UTF-8,
/// replacing invalid sequences; its documentation promises that valid UTF-8
/// is kept unchanged, so all-ASCII bytes come back as the same characters.
#[verifier::external_body]
fn decode_utf8_lossy(bytes: &Vec<u8>) -> (r: String)
    ensures
        r@ == lossy_decoded(bytes@),
        (forall|i: int| 0 <= i < bytes@.len() ==> bytes@[i] < 0x80) ==> r@ == bytes@.map_values(
            |b: u8| b as char,
        ),
{
    String::from_utf8_lossy(bytes).into_owned()
}

/// What `html_escape::encode_safe` replaces one character by: the six HTML
/// reserved characters become entities, every other character stays.
pub open spec fn escaped_char(c: char) -> Seq<char> {
    if c == '&' {
        seq!['&', 'a', 'm', 'p', ';']
    } else if c == '<' {
        seq!['&', 'l', 't', ';']
    } else if c == '>' {
        seq!['&', 'g', 't', ';']
    } else if c == '"' {
        seq!['&', 'q', 'u', 'o', 't', ';']
    } else if c == '\'' {
        seq!['&', '#', 'x', '2', '7', ';']
    } else if c == '/' {
        seq!['&', '#', 'x', '2', 'F', ';']
    } else {
        seq![c]
    }
}

/// The whole text escaped character by character.
pub open spec fn html_escaped(s: Seq<char>) -> Seq<char>
    decreases s.len(),
{
    if s.len() == 0 {
        Seq::<char>::empty()
    } else {
        escaped_char(s[0]) + html_escaped(s.skip(1))
    }
}

/// Relies on `html_escape::encode_safe`: replaces `&`, `<`, `>`, `"`, `'`
/// and `/` by their HTML entities and keeps every other character.
#[verifier::external_body]
fn encode_safe_html(s: &str) -> (r: String)
    ensures
        r@ == html_escaped(s@),
{
    html_escape::encode_safe(s).into_owned()
}

/// Relies on `image::load_from_memory` and `DynamicImage::width`/`height`:
/// whether the bytes decode as an image, and its pixel dimensions, a
/// function of the bytes alone.
#[verifier::external_body]
fn image_dimensions(bytes: &Vec<u8>) -> (r: Option<(u32, u32)>)
    ensures
        r == decoded_image_dims(bytes@),
{
    match image::load_from_memory(bytes) {
        Ok(img) => Some((img.width(), img.height())),
        Err(_) => None,
    }
}

// ----- fixed texts -----

/// The command prefix a body must start with.
pub open spec fn command_prefix() -> Seq<char> {
    seq![',', 't', 'y', 'p']
}

pub open spec fn spec_usage_text() -> Seq<char> {
    "<text> is needed to typeset"@
}

/// The reply to a bare command with nothing to typeset.
pub fn usage_text() -> (r: &'static str)
    ensures
        r@ == spec_usage_text(),
{
    "<text> is needed to typeset"
}

pub open spec fn spec_timeout_text() -> Seq<char> {
    "Your code took too long to render"@
}

/// The reply when the compiler misses the deadline.
pub fn timeout_text() -> (r: &'static str)
    ensures
        r@ == spec_timeout_text(),
{
    "Your code took too long to render"
}

pub open spec fn spec_preamble() -> Seq<char> {
    "\n#import \"@preview/catppuccin:1.0.0\": catppuccin, flavors;\n#show: catppuccin.with(flavors.mocha);\n#set page(height: auto, width: auto, margin: 28pt);\n#set text(size: 44pt);\n"@
}

/// Document-setup directives put in front of every user command: page
/// sizing, theming and text scale for the typesetting compiler.
pub fn preamble() -> (r: &'static str)
    ensures
        r@ == spec_preamble(),
{
    "\n#import \"@preview/catppuccin:1.0.0\": catppuccin, flavors;\n#show: catppuccin.with(flavors.mocha);\n#set page(height: auto, width: auto, margin: 28pt);\n#set text(size: 44pt);\n"
}

pub open spec fn spec_error_html_prefix() -> Seq<char> {
    "<pre><code class=\"language-typst\">"@
}

fn error_html_prefix() -> (r: &'static str)
    ensures
        r@ == spec_error_html_prefix(),
{
    "<pre><code class=\"language-typst\">"
}

pub open spec fn spec_error_html_suffix() -> Seq<char> {
    "</code></pre>"@
}

fn error_html_suffix() -> (r: &'static str)
    ensures
        r@ == spec_error_html_suffix(),
{
    "</code></pre>"
}

// ----- the qualification gate -----

/// Membership state of the bot in the room a message arrived in.
pub enum RoomMembershipState {
    Joined,
    Invited,
    Left,
}

/// Content kind of an incoming room message.
pub enum MessageKind {
    /// A plain-text message; only these can carry the command.
    Text,
    /// Any other content kind: images, files, formatted-only bodies.
    Other,
}

/// An incoming room message, reduced to the fields qualification reads.
pub struct IncomingMessage {
    pub kind: MessageKind,
    pub body: String,
    /// Origin server timestamp, in milliseconds since the epoch.
    pub origin_ts_millis: u64,
}

/// Whether the message is young enough to be worth a reply. A timestamp in
/// the future counts as fresh.
pub open spec fn is_fresh(now_millis: u64, origin_ts_millis: u64) -> bool {
    now_millis < origin_ts_millis + FRESHNESS_WINDOW_MILLIS
}

/// Whether the body starts with the command prefix.
pub open spec fn has_command_prefix(body: Seq<char>) -> bool {
    body.len() >= 4 && body.subrange(0, 4) == command_prefix()
}

/// Whether every character of the text is whitespace; true of the empty text.
pub open spec fn is_blank(s: Seq<char>) -> bool {
    forall|i: int| 0 <= i < s.len() ==> is_whitespace_char(s[i])
}

/// Whether a message qualifies for the render path at all: joined room,
/// fresh, plain text, command prefix present.
pub open spec fn qualifies(
    room_state: RoomMembershipState,
    now_millis: u64,
    msg: IncomingMessage,
) -> bool {
    &&& room_state is Joined
    &&& is_fresh(now_millis, msg.origin_ts_millis)
    &&& msg.kind is Text
    &&& has_command_prefix(msg.body@)
}

/// What qualification decides for one message.
pub enum GateDecision {
    /// Not a qualifying message: no reply at all.
    Ignore,
    /// A bare command: reply with the fixed usage text.
    Usage,
    /// A command with content: render `command` (the body after the prefix).
    Render { command: String },
}

fn all_whitespace(s: &str) -> (b: bool)
    ensures
        b == is_blank(s@),
{
    let n = s.unicode_len();
    let mut i: usize = 0;
    while i < n
        invariant
            0 <= i <= n,
            n == s@.len(),
            forall|j: int| 0 <= j < i ==> is_whitespace_char(s@[j]),
        decreases n - i,
    {
        if !char_is_whitespace(s.get_char(i)) {
            assert(!is_blank(s@));
            return false;
        }
        i += 1;
    }
    true
}

/// The qualification gate, applied in order and short-circuiting: a message
/// gets no reply if and only if it does not qualify; a qualifying message
/// with a blank remainder gets the usage reply; any other qualifying message
/// goes to the renderer with exactly the body after the prefix.
pub fn evaluate_message(
    room_state: RoomMembershipState,
    now_millis: u64,
    msg: &IncomingMessage,
) -> (d: GateDecision)
    ensures
        (d is Ignore) <==> !qualifies(room_state, now_millis, *msg),
        qualifies(room_state, now_millis, *msg) && is_blank(msg.body@.skip(4)) ==> d is Usage,
        qualifies(room_state, now_millis, *msg) && !is_blank(msg.body@.skip(4)) ==> (d matches
        GateDecision::Render { command } && command@ == msg.body@.skip(4)),
{
    match room_state {
        RoomMembershipState::Joined => {},
        _ => {
            return GateDecision::Ignore;
        },
    }
    let fresh = now_millis < msg.origin_ts_millis || now_millis - msg.origin_ts_millis
        < FRESHNESS_WINDOW_MILLIS;
    if !fresh {
        return GateDecision::Ignore;
    }
    match msg.kind {
        MessageKind::Text => {},
        MessageKind::Other => {
            return GateDecision::Ignore;
        },
    }
    let body = msg.body.as_str();
    let n = body.unicode_len();
    if n < 4 {
        return GateDecision::Ignore;
    }
    if !(body.get_char(0) == ',' && body.get_char(1) == 't' && body.get_char(2) == 'y'
        && body.get_char(3) == 'p') {
        assert(body@.subrange(0, 4) != command_prefix()) by {
            if body@.subrange(0, 4) == command_prefix() {
                assert(body@[0] == command_prefix()[0]);
                assert(body@[1] == command_prefix()[1]);
                assert(body@[2] == command_prefix()[2]);
                assert(body@[3] == command_prefix()[3]);
            }
        }
        return GateDecision::Ignore;
    }
    assert(body@.subrange(0, 4) =~= command_prefix());
    let rest = body.substring_char(4, n);
    proof {
        assert(rest@ =~= msg.body@.skip(4));
    }
    if all_whitespace(rest) {
        GateDecision::Usage
    } else {
        GateDecision::Render { command: rest.to_owned() }
    }
}

// ----- building the compiler input -----

/// The full text handed to the compiler for a command: the fixed preamble,
/// a newline, then the user-supplied command text.
pub fn build_compiler_input(command: &str) -> (r: String)
    ensures
        r@ == spec_preamble() + "\n"@ + command@,
{
    let mut input = preamble().to_owned();
    input.append("\n");
    input.append(command);
    input
}

/// Everything the pipeline does for one message before a compiler process
/// exists: either no reply, the usage reply, or a compiler run on an input.
pub enum MessageAction {
    /// The message does not qualify: nothing happens.
    NoReply,
    /// A bare command: send the fixed usage text, threaded to the message.
    ReplyUsage,
    /// Run the compiler on `input` under the deadline, then answer with
    /// the reply built from its outcome.
    RunCompiler { input: String },
}

/// The pre-compiler half of the pipeline for one message: qualification, then —
/// for a command with content — the compiler input built from preamble,
/// newline and the command text.
pub fn plan_for_message(
    room_state: RoomMembershipState,
    now_millis: u64,
    msg: &IncomingMessage,
) -> (a: MessageAction)
    ensures
        (a is NoReply) <==> !qualifies(room_state, now_millis, *msg),
        qualifies(room_state, now_millis, *msg) && is_blank(msg.body@.skip(4)) ==> a is ReplyUsage,
        qualifies(room_state, now_millis, *msg) && !is_blank(msg.body@.skip(4)) ==> (a matches
        MessageAction::RunCompiler { input } && input@ == spec_preamble() + "\n"@ + msg.body@.skip(
            4,
        )),
{
    match evaluate_message(room_state, now_millis, msg) {
        GateDecision::Ignore => MessageAction::NoReply,
        GateDecision::Usage => MessageAction::ReplyUsage,
        GateDecision::Render { command } => MessageAction::RunCompiler {
            input: build_compiler_input(command.as_str()),
        },
    }
}

// ----- turning the compiler outcome into a reply -----

/// What came of running the compiler on one job, as the surrounding process
/// observed it: either the deadline elapsed before the output was read, or
/// the process exited with an outcome and the collected output bytes
/// (standard output first, then standard error).
pub enum CompilerOutcome {
    /// The 25-second deadline elapsed; the job is abandoned.
    TimedOut,
    /// The process exited; `success` is its exit outcome.
    Finished { success: bool, output: Vec<u8> },
}

/// The one reply produced for a qualifying render job.
pub enum ReplyPayload {
    /// A fixed plain-text reply (the timeout notice).
    PlainText { body: String },
    /// The compiler failed: its diagnostic text, raw and HTML-wrapped.
    FormattedError { raw: String, html: String },
    /// The compiler succeeded: the image bytes and their pixel dimensions.
    Image { bytes: Vec<u8>, width: u32, height: u32 },
}

/// Failure of the job itself, not of the user's input: the compiler declared
/// success but its output bytes are no valid image. Surfaced to the
/// operator, never as a chat reply.
pub enum RenderError {
    InvalidImage,
}

/// The diagnostic text of a failed run, decoded from the collected bytes.
pub open spec fn spec_error_raw(output: Seq<u8>) -> Seq<char> {
    lossy_decoded(output)
}

/// The HTML form of a failed run's diagnostic text: escaped and wrapped in a
/// monospace code block.
pub open spec fn spec_error_html(output: Seq<u8>) -> Seq<char> {
    spec_error_html_prefix() + html_escaped(lossy_decoded(output)) + spec_error_html_suffix()
}

/// Builds the single reply for a finished or abandoned job. A timeout gives
/// exactly the fixed timeout text; a failed exit gives the diagnostic text
/// raw and HTML-wrapped; a successful exit gives the output bytes as an
/// image with their decoded dimensions, or fails the job when the bytes are
/// no image.
pub fn reply_for_outcome(outcome: CompilerOutcome) -> (r: Result<ReplyPayload, RenderError>)
    ensures
        outcome is TimedOut ==> (r matches Ok(p) && p matches ReplyPayload::PlainText { body }
            && body@ == spec_timeout_text()),
        outcome matches CompilerOutcome::Finished { success, output } ==> (if !success {
            r matches Ok(p) && p matches ReplyPayload::FormattedError { raw, html } && raw@
                == spec_error_raw(output@) && html@ == spec_error_html(output@)
        } else {
            match decoded_image_dims(output@) {
                Some(dims) => r matches Ok(p) && p matches ReplyPayload::Image {
                    bytes,
                    width,
                    height,
                } && bytes@ == output@ && width == dims.0 && height == dims.1,
                None => r == Err::<ReplyPayload, RenderError>(RenderError::InvalidImage),
            }
        }),
{
    match outcome {
        CompilerOutcome::TimedOut => Ok(
            ReplyPayload::PlainText { body: timeout_text().to_owned() },
        ),
        CompilerOutcome::Finished { success, output } => {
            if !success {
                let raw = decode_utf8_lossy(&output);
                let escaped = encode_safe_html(raw.as_str());
                let mut html = error_html_prefix().to_owned();
                html.append(escaped.as_str());
                html.append(error_html_suffix());
                Ok(ReplyPayload::FormattedError { raw, html })
            } else {
                match image_dimensions(&output) {
                    Some(dims) => Ok(
                        ReplyPayload::Image { bytes: output, width: dims.0, height: dims.1 },
                    ),
                    None => Err(RenderError::InvalidImage),
                }
            }
        },
    }
}

} // verus!
