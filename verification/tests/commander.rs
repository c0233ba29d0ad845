use fate::commander::{command_to_send, decide, Action, Prompt};
use fate::message::ClientToServer;

#[test]
fn one_sends_a_connect_request() {
    assert_eq!(
        command_to_send(Prompt::Command, "1\n"),
        (Prompt::Command, Action::Send(ClientToServer::ConnectRequest))
    );
    assert_eq!(
        command_to_send(Prompt::Command, "  1 \t\r\n"),
        (Prompt::Command, Action::Send(ClientToServer::ConnectRequest))
    );
}

#[test]
fn two_asks_for_the_user_id() {
    assert_eq!(command_to_send(Prompt::Command, "2\n"), (Prompt::UserId, Action::AskUserId));
}

#[test]
fn anything_else_is_no_command() {
    for line in ["", "\n", "3\n", "12\n", "1 1\n", "one\n", "+1\n", "01\n"] {
        assert_eq!(
            command_to_send(Prompt::Command, line),
            (Prompt::Command, Action::RejectCommand),
            "{:?}",
            line
        );
    }
}

#[test]
fn a_number_is_the_user_id() {
    for (line, user_id) in [
        ("0\n", 0),
        ("42\n", 42),
        ("  42  \n", 42),
        ("+42\n", 42),
        ("007\n", 7),
        ("18446744073709551615\n", usize::MAX),
    ] {
        assert_eq!(
            command_to_send(Prompt::UserId, line),
            (Prompt::Command, Action::Send(ClientToServer::CreateGameRequest { user_id })),
            "{:?}",
            line
        );
    }
}

#[test]
fn what_is_no_number_is_asked_for_again() {
    for line in
        ["", "\n", "+\n", "-0\n", "-1\n", "4 2\n", "4_2\n", "0x10\n", "1.0\n", "1e3\n", "\u{ff11}\n", "18446744073709551616\n", "++1\n"]
    {
        assert_eq!(
            command_to_send(Prompt::UserId, line),
            (Prompt::UserId, Action::RejectUserId),
            "{:?}",
            line
        );
    }
}

#[test]
fn white_space_is_what_unicode_calls_so() {
    let white: Vec<u32> = (0x09..=0x0d)
        .chain([0x20, 0x85, 0xa0, 0x1680])
        .chain(0x2000..=0x200a)
        .chain([0x2028, 0x2029, 0x202f, 0x205f, 0x3000])
        .collect();
    assert_eq!(white.len(), 25);
    for code in 0..=0x3100u32 {
        let c = char::from_u32(code).unwrap();
        let expected = || if white.contains(&code) { sent_copy() } else { refused_copy() };
        assert_eq!(command_to_send(Prompt::Command, &format!("{}1", c)), expected(), "{:x}", code);
        assert_eq!(command_to_send(Prompt::Command, &format!("1{}", c)), expected(), "{:x}", code);
    }
    for code in [0x180eu32, 0x200b, 0x2060, 0xfeff, 0x1d, 0x1f, 0x7f] {
        let c = char::from_u32(code).unwrap();
        assert_eq!(command_to_send(Prompt::Command, &format!("1{}", c)), refused_copy(), "{:x}", code);
    }
}

fn sent_copy() -> (Prompt, Action) {
    (Prompt::Command, Action::Send(ClientToServer::ConnectRequest))
}

fn refused_copy() -> (Prompt, Action) {
    (Prompt::Command, Action::RejectCommand)
}

#[test]
fn decide_takes_what_was_typed_as_it_stands() {
    assert_eq!(decide(Prompt::Command, "1"), sent_copy());
    assert_eq!(decide(Prompt::Command, " 1"), refused_copy());
    assert_eq!(decide(Prompt::Command, "1\n"), refused_copy());
    assert_eq!(decide(Prompt::Command, "2"), (Prompt::UserId, Action::AskUserId));
    assert_eq!(
        decide(Prompt::UserId, "12"),
        (Prompt::Command, Action::Send(ClientToServer::CreateGameRequest { user_id: 12 }))
    );
    assert_eq!(decide(Prompt::UserId, "12 "), (Prompt::UserId, Action::RejectUserId));
}
