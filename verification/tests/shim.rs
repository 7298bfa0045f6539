use rustdesk_api::shim::{
    greeting, handle, listen_address, pipe, upstream_address, LinkAction, LinkEvent, PipeAction,
    PipeEvent,
};

#[test]
fn greeting_bytes() {
    assert_eq!(greeting(), vec![0x0C, 0xA0, 0x06, 0x00]);
}

#[test]
fn greeting_is_one_frame_with_an_unknown_field() {
    let bytes = greeting();
    let header = (bytes[0] & 0x3) as usize + 1;
    let payload = (bytes[0] >> 2) as usize;
    assert_eq!((header, payload), (1, 3));
    assert_eq!(header + payload, bytes.len());
    let key = (bytes[1] & 0x7f) as u32 | ((bytes[2] as u32) << 7);
    assert_eq!((key >> 3, key & 7), (100, 0));
    assert_eq!(bytes[3], 0);
}

#[test]
fn addresses() {
    assert_eq!(listen_address(None), "0.0.0.0:21126");
    assert_eq!(listen_address(Some(String::new())), "0.0.0.0:21126");
    assert_eq!(listen_address(Some("[::]:1".to_string())), "[::]:1");
    assert_eq!(upstream_address(None), "127.0.0.1:21116");
    assert_eq!(upstream_address(Some("hbbs:21116".to_string())), "hbbs:21116");
}

fn given_up(action: LinkAction) -> String {
    match action {
        LinkAction::GiveUp(message) => message,
        _ => panic!("did not give up"),
    }
}

#[test]
fn a_connection_is_greeted_once_the_id_server_is_reached() {
    let go = |event| handle(event, "1.2.3.4:5", "127.0.0.1:21116");
    assert!(matches!(go(LinkEvent::Accepted), LinkAction::Connect));
    match go(LinkEvent::Reached(Ok(()))) {
        LinkAction::Greet(bytes) => assert_eq!(bytes, greeting()),
        _ => panic!("no greeting"),
    }
    assert!(matches!(go(LinkEvent::Greeted(Ok(()))), LinkAction::Split));
    assert!(matches!(go(LinkEvent::Split(true)), LinkAction::Pipe));
}

#[test]
fn a_connection_is_given_up_with_a_message() {
    let go = |event| given_up(handle(event, "1.2.3.4:5", "127.0.0.1:21116"));
    assert_eq!(
        go(LinkEvent::Reached(Err("refused".to_string()))),
        "1.2.3.4:5: cannot reach hbbs at 127.0.0.1:21116: refused"
    );
    assert_eq!(
        go(LinkEvent::Greeted(Err("broken pipe".to_string()))),
        "1.2.3.4:5: failed to send greeting: broken pipe"
    );
    assert_eq!(go(LinkEvent::Split(false)), "1.2.3.4:5: failed to duplicate sockets");
}

#[test]
fn copying_steps() {
    assert_eq!(pipe(PipeEvent::Read(17)), PipeAction::Write(17));
    assert_eq!(pipe(PipeEvent::Read(0)), PipeAction::Close);
    assert_eq!(pipe(PipeEvent::Interrupted), PipeAction::Read);
    assert_eq!(pipe(PipeEvent::ReadFailed), PipeAction::Close);
    assert_eq!(pipe(PipeEvent::Written), PipeAction::Read);
    assert_eq!(pipe(PipeEvent::WriteFailed), PipeAction::Close);
}

#[test]
fn copying_loses_nothing() {
    // A source that is interrupted now and then and hands out a few bytes at a time.
    let source: Vec<u8> = (0..=255).collect();
    let mut from = 0;
    let mut reads = 0;
    let mut copied: Vec<u8> = Vec::new();
    let mut buffer: Vec<u8> = Vec::new();
    let mut action = PipeAction::Read;
    loop {
        let event = match action {
            PipeAction::Read => {
                reads += 1;
                if reads % 4 == 0 {
                    PipeEvent::Interrupted
                } else {
                    let n = (source.len() - from).min(reads % 7 + 1);
                    buffer = source[from..from + n].to_vec();
                    from += n;
                    PipeEvent::Read(n)
                }
            }
            PipeAction::Write(n) => {
                copied.extend(&buffer[..n]);
                PipeEvent::Written
            }
            PipeAction::Close => break,
        };
        action = pipe(event);
    }
    assert_eq!(copied, source);
}
