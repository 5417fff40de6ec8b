use ssh_server::session::{clear_screen_bytes, ssh_data_to_key_event, App, AppMode, ServeEffect};

const GREETING: &str = "Shell started! Hello World!\r\n";
const INVITE_PROMPT: &str = "Here is the discord link: discord.gg/12345\r\n";

#[test]
fn plain_serve_hello_yields_greeting() {
    let mut a = App::start();
    let eff = a.serve(Some("hello"));
    assert!(matches!(eff, ServeEffect::Updated));
    assert_eq!(a.content, GREETING);
}

#[test]
fn plain_serve_discord_yields_invite_prompt() {
    let mut a = App::start();
    a.serve(Some("discord"));
    assert_eq!(a.content, INVITE_PROMPT);
}

#[test]
fn plain_serve_absent_route_yields_invite_prompt() {
    let mut a = App::start();
    a.serve(None);
    assert_eq!(a.content, INVITE_PROMPT);
}

#[test]
fn plain_serve_unknown_route_yields_invite_prompt() {
    let mut a = App::start();
    a.serve(Some("no-such-route"));
    assert_eq!(a.content, INVITE_PROMPT);
}

#[test]
fn plain_quit_tokens_exit() {
    let mut a = App::start();
    assert!(a.handle_input(b"q"));
    assert!(a.handle_input(&[0x03]));
    assert!(a.handle_input(&[0x04]));
}

#[test]
fn plain_other_input_does_not_exit() {
    let mut a = App::start();
    assert!(!a.handle_input(b""));
    assert!(!a.handle_input(b"Q"));
    assert!(!a.handle_input(b"qq"));
    assert!(!a.handle_input(b"x"));
    assert!(!a.handle_input(&[0x05]));
}

#[test]
fn for_protocol_tui_starts_interactive() {
    let a = App::for_protocol(Some("tui"));
    assert_eq!(a.mode, AppMode::Tui);
    assert!(a.tui_app.is_some());
}

#[test]
fn for_protocol_other_starts_plain() {
    let a = App::for_protocol(Some("hello"));
    assert_eq!(a.mode, AppMode::Mock);
    assert!(a.tui_app.is_none());
    let b = App::for_protocol(None);
    assert_eq!(b.mode, AppMode::Mock);
}

#[test]
fn resize_records_only_in_interactive_mode() {
    let mut tui = App::start_tui();
    assert!(tui.resize(80, 24));
    assert_eq!((tui.cols, tui.rows), (80, 24));

    let mut plain = App::start();
    assert!(!plain.resize(80, 24));
    assert_eq!((plain.cols, plain.rows), (0, 0));
}

#[test]
fn interactive_serve_asks_for_redraw() {
    let mut a = App::start_tui();
    let eff = a.serve(None);
    assert!(matches!(eff, ServeEffect::Redraw));
    assert_eq!(a.content, "");
}

#[test]
fn key_decode_table() {
    let q = ssh_data_to_key_event(b"q").unwrap();
    assert_eq!((q.ch, q.shift), ('q', false));
    let d = ssh_data_to_key_event(b"d").unwrap();
    assert_eq!((d.ch, d.shift), ('d', false));
    let du = ssh_data_to_key_event(b"D").unwrap();
    assert_eq!((du.ch, du.shift), ('D', true));
    let seq = ssh_data_to_key_event(b"200").unwrap();
    assert_eq!((seq.ch, seq.shift), ('0', false));
    let plain = ssh_data_to_key_event(b"x").unwrap();
    assert_eq!((plain.ch, plain.shift), ('x', false));
    assert!(ssh_data_to_key_event(&[0xff]).is_none());
    assert!(ssh_data_to_key_event(b"ab").is_none());
    assert!(ssh_data_to_key_event(b"").is_none());
}

#[test]
fn interactive_input_exits_on_typed_exit_token() {
    let mut a = App::start_tui();
    assert!(!a.handle_input(b"2"));
    assert!(!a.handle_input(b"0"));
    assert!(a.handle_input(b"0"));
}

#[test]
fn interactive_input_drops_unmappable_bytes() {
    let mut a = App::start_tui();
    assert!(!a.handle_input(&[0xff, 0xfe]));
    assert!(!a.handle_input(b"q"));
}

#[test]
fn clear_screen_bytes_are_the_escape_sequence() {
    assert_eq!(clear_screen_bytes(), b"\x1b[2J\x1b[H\r\n".to_vec());
}
