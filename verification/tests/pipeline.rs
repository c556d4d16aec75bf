use typst_bot::render::{
    build_compiler_input, evaluate_message, plan_for_message, preamble, reply_for_outcome,
    timeout_text, usage_text, CompilerOutcome, GateDecision, IncomingMessage, MessageAction,
    MessageKind, RenderError, ReplyPayload, RoomMembershipState,
};

fn text_message(body: &str, origin_ts_millis: u64) -> IncomingMessage {
    IncomingMessage { kind: MessageKind::Text, body: String::from(body), origin_ts_millis }
}

#[test]
fn message_without_prefix_gets_no_reply() {
    let msg = text_message("hello there", 1_000);
    let d = evaluate_message(RoomMembershipState::Joined, 1_000, &msg);
    assert!(matches!(d, GateDecision::Ignore));

    let msg = text_message("typ x", 1_000);
    let d = evaluate_message(RoomMembershipState::Joined, 1_000, &msg);
    assert!(matches!(d, GateDecision::Ignore));

    let msg = text_message(",ty", 1_000);
    let d = evaluate_message(RoomMembershipState::Joined, 1_000, &msg);
    assert!(matches!(d, GateDecision::Ignore));
}

#[test]
fn stale_message_gets_no_reply_whatever_it_says() {
    let msg = text_message(",typ x", 1_000);
    let d = evaluate_message(RoomMembershipState::Joined, 6_000, &msg);
    assert!(matches!(d, GateDecision::Ignore));

    let d = evaluate_message(RoomMembershipState::Joined, 5_999, &msg);
    assert!(matches!(d, GateDecision::Render { .. }));
}

#[test]
fn future_dated_message_counts_as_fresh() {
    let msg = text_message(",typ x", 10_000);
    let d = evaluate_message(RoomMembershipState::Joined, 1_000, &msg);
    assert!(matches!(d, GateDecision::Render { .. }));
}

#[test]
fn message_in_unjoined_room_gets_no_reply() {
    let msg = text_message(",typ x", 1_000);
    let d = evaluate_message(RoomMembershipState::Invited, 1_000, &msg);
    assert!(matches!(d, GateDecision::Ignore));
    let d = evaluate_message(RoomMembershipState::Left, 1_000, &msg);
    assert!(matches!(d, GateDecision::Ignore));
}

#[test]
fn non_text_message_gets_no_reply() {
    let msg = IncomingMessage {
        kind: MessageKind::Other,
        body: String::from(",typ x"),
        origin_ts_millis: 1_000,
    };
    let d = evaluate_message(RoomMembershipState::Joined, 1_000, &msg);
    assert!(matches!(d, GateDecision::Ignore));
}

#[test]
fn bare_command_gets_the_usage_reply() {
    let msg = text_message(",typ", 1_000);
    let d = evaluate_message(RoomMembershipState::Joined, 1_000, &msg);
    assert!(matches!(d, GateDecision::Usage));

    let msg = text_message(",typ  \t\n ", 1_000);
    let d = evaluate_message(RoomMembershipState::Joined, 1_000, &msg);
    assert!(matches!(d, GateDecision::Usage));

    assert_eq!(usage_text(), "<text> is needed to typeset");
}

#[test]
fn command_with_content_goes_to_the_renderer() {
    let msg = text_message(",typ $x^2$", 1_000);
    let d = evaluate_message(RoomMembershipState::Joined, 1_000, &msg);
    match d {
        GateDecision::Render { command } => assert_eq!(command, " $x^2$"),
        _ => panic!("expected a render decision"),
    }
}

#[test]
fn compiler_input_is_preamble_newline_command() {
    let input = build_compiler_input(" $x^2$");
    assert_eq!(input, format!("{}\n $x^2$", preamble()));
    assert!(preamble().contains("#set page(height: auto, width: auto, margin: 28pt);"));
}

#[test]
fn plan_combines_gate_and_input() {
    let msg = text_message(",typ abc", 1_000);
    let a = plan_for_message(RoomMembershipState::Joined, 1_000, &msg);
    match a {
        MessageAction::RunCompiler { input } => {
            assert_eq!(input, format!("{}\n abc", preamble()));
        }
        _ => panic!("expected a compiler run"),
    }

    let msg = text_message(",typ", 1_000);
    let a = plan_for_message(RoomMembershipState::Joined, 1_000, &msg);
    assert!(matches!(a, MessageAction::ReplyUsage));

    let msg = text_message("no command", 1_000);
    let a = plan_for_message(RoomMembershipState::Joined, 1_000, &msg);
    assert!(matches!(a, MessageAction::NoReply));
}

#[test]
fn timeout_gives_exactly_the_fixed_text() {
    let r = reply_for_outcome(CompilerOutcome::TimedOut);
    match r {
        Ok(ReplyPayload::PlainText { body }) => {
            assert_eq!(body, "Your code took too long to render");
            assert_eq!(body, timeout_text());
        }
        _ => panic!("expected the timeout text"),
    }
}

#[test]
fn failed_exit_gives_raw_and_escaped_diagnostics() {
    let output: Vec<u8> = b"error: X".to_vec();
    let r = reply_for_outcome(CompilerOutcome::Finished { success: false, output });
    match r {
        Ok(ReplyPayload::FormattedError { raw, html }) => {
            assert_eq!(raw, "error: X");
            assert!(raw.contains("error: X"));
            assert_eq!(html, "<pre><code class=\"language-typst\">error: X</code></pre>");
        }
        _ => panic!("expected a formatted error"),
    }
}

#[test]
fn diagnostics_are_html_escaped() {
    let output: Vec<u8> = b"error: expected `<`, found \"&\" / 'x'".to_vec();
    let r = reply_for_outcome(CompilerOutcome::Finished { success: false, output });
    match r {
        Ok(ReplyPayload::FormattedError { raw, html }) => {
            assert_eq!(raw, "error: expected `<`, found \"&\" / 'x'");
            assert_eq!(
                html,
                "<pre><code class=\"language-typst\">error: expected `&lt;`, \
                 found &quot;&amp;&quot; &#x2F; &#x27;x&#x27;</code></pre>"
            );
        }
        _ => panic!("expected a formatted error"),
    }
}

#[test]
fn successful_exit_gives_image_with_decoded_dimensions() {
    let img = image::RgbaImage::new(7, 3);
    let mut bytes: Vec<u8> = Vec::new();
    img.write_to(&mut std::io::Cursor::new(&mut bytes), image::ImageFormat::Png)
        .expect("encoding a fresh buffer cannot fail");

    let r = reply_for_outcome(CompilerOutcome::Finished { success: true, output: bytes.clone() });
    match r {
        Ok(ReplyPayload::Image { bytes: out, width, height }) => {
            assert_eq!(width, 7);
            assert_eq!(height, 3);
            assert_eq!(out, bytes);
        }
        _ => panic!("expected an image reply"),
    }
}

#[test]
fn successful_exit_with_bad_bytes_fails_the_job() {
    let output: Vec<u8> = b"not an image at all".to_vec();
    let r = reply_for_outcome(CompilerOutcome::Finished { success: true, output });
    assert!(matches!(r, Err(RenderError::InvalidImage)));
}
