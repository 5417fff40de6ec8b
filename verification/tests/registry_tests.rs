use ssh_server::interactive::{AppMessage, LinkDisplay};
use ssh_server::registry::{DataOutcome, RegistryError, SessionOp, SessionRegistry, SessionReply};
use ssh_server::session::App;

const GREETING: &str = "Shell started! Hello World!\r\n";
const INVITE_PROMPT: &str = "Here is the discord link: discord.gg/12345\r\n";

type Reg = SessionRegistry<u32>;

fn serve_content(reg: &mut Reg, id: u64, route: Option<&str>) -> String {
    match reg.with_session(id, SessionOp::Serve(route.map(|s| s.to_string()))) {
        Ok(SessionReply::Served { content, .. }) => content,
        other => panic!("unexpected reply: {:?}", other),
    }
}

#[test]
fn allocate_ids_are_distinct() {
    let mut reg = Reg::new();
    let a = reg.allocate_id();
    let b = reg.allocate_id();
    let c = reg.allocate_id();
    assert!(a != b && b != c && a != c);
}

#[test]
fn register_and_serve_roundtrip() {
    let mut reg = Reg::new();
    let id = reg.allocate_id();
    reg.register(id, 7, App::start());
    assert_eq!(reg.len(), 1);
    assert_eq!(serve_content(&mut reg, id, Some("hello")), GREETING);
    assert_eq!(serve_content(&mut reg, id, None), INVITE_PROMPT);
}

#[test]
fn sessions_are_isolated_from_each_other() {
    let mut reg = Reg::new();
    let i = reg.allocate_id();
    let j = reg.allocate_id();
    reg.register(i, 1, App::start());
    reg.register(j, 2, App::start());

    // mutate i only
    assert_eq!(serve_content(&mut reg, i, Some("hello")), GREETING);

    // j's state is untouched: its first serve still sees a fresh session
    assert_eq!(serve_content(&mut reg, j, None), INVITE_PROMPT);
    // and i kept its own content
    assert_eq!(serve_content(&mut reg, i, Some("hello")), GREETING);
}

#[test]
fn register_overwrites_same_id() {
    let mut reg = Reg::new();
    let id = reg.allocate_id();
    let mut first = App::start();
    first.serve(Some("hello"));
    reg.register(id, 1, first);
    // last writer wins: a fresh session replaces the old entry
    reg.register(id, 2, App::start());
    assert_eq!(reg.len(), 1);
    match reg.with_session(id, SessionOp::Input(b"q".to_vec())) {
        Ok(SessionReply::HandledInput { exit }) => assert!(exit),
        other => panic!("unexpected reply: {:?}", other),
    }
}

#[test]
fn remove_is_idempotent() {
    let mut reg = Reg::new();
    let id = reg.allocate_id();
    let other = reg.allocate_id();
    reg.register(id, 1, App::start());
    reg.register(other, 2, App::start());

    reg.remove(id);
    assert_eq!(reg.len(), 1);
    reg.remove(id);
    assert_eq!(reg.len(), 1);
    // an id never registered is a no-op too
    reg.remove(999);
    assert_eq!(reg.len(), 1);
}

#[test]
fn removed_session_is_not_found() {
    let mut reg = Reg::new();
    let id = reg.allocate_id();
    reg.register(id, 1, App::start());
    reg.remove(id);
    match reg.with_session(id, SessionOp::Serve(None)) {
        Err(RegistryError::NotFound) => {},
        other => panic!("unexpected reply: {:?}", other),
    }
}

#[test]
fn with_session_on_empty_registry_is_not_found() {
    let mut reg = Reg::new();
    assert!(matches!(
        reg.with_session(0, SessionOp::Resize(80, 24)),
        Err(RegistryError::NotFound)
    ));
}

#[test]
fn data_callback_quit_evicts_entry() {
    let mut reg = Reg::new();
    let id = reg.allocate_id();
    reg.register(id, 1, App::start());

    assert_eq!(reg.on_data(id, b"x"), DataOutcome::Continue);
    assert_eq!(reg.on_data(id, b"q"), DataOutcome::Closed);
    // after the simulated disconnect the id is gone and stays gone
    assert_eq!(reg.on_data(id, b"q"), DataOutcome::NotFound);
    assert!(matches!(
        reg.with_session(id, SessionOp::Serve(None)),
        Err(RegistryError::NotFound)
    ));
    assert_eq!(reg.len(), 0);
}

#[test]
fn resize_reply_reports_surface() {
    let mut reg = Reg::new();
    let plain = reg.allocate_id();
    let tui = reg.allocate_id();
    reg.register(plain, 1, App::start());
    reg.register(tui, 2, App::for_protocol(Some("tui")));
    match reg.with_session(plain, SessionOp::Resize(80, 24)) {
        Ok(SessionReply::Resized { resize_surface }) => assert!(!resize_surface),
        other => panic!("unexpected reply: {:?}", other),
    }
    match reg.with_session(tui, SessionOp::Resize(80, 24)) {
        Ok(SessionReply::Resized { resize_surface }) => assert!(resize_surface),
        other => panic!("unexpected reply: {:?}", other),
    }
}

#[test]
fn fetch_request_flows_through_registry() {
    let mut reg = Reg::new();
    let id = reg.allocate_id();
    reg.register(id, 1, App::for_protocol(Some("tui")));
    // reveal key arrives as raw input
    match reg.with_session(id, SessionOp::Input(b"d".to_vec())) {
        Ok(SessionReply::HandledInput { exit }) => assert!(!exit),
        other => panic!("unexpected reply: {:?}", other),
    }
    match reg.with_session(id, SessionOp::TakeFetchRequest) {
        Ok(SessionReply::FetchRequest { pending }) => assert!(pending),
        other => panic!("unexpected reply: {:?}", other),
    }
    match reg.with_session(id, SessionOp::TakeFetchRequest) {
        Ok(SessionReply::FetchRequest { pending }) => assert!(!pending),
        other => panic!("unexpected reply: {:?}", other),
    }
}

#[test]
fn messages_and_screen_flow_through_registry() {
    let mut reg = Reg::new();
    let id = reg.allocate_id();
    reg.register(id, 1, App::for_protocol(Some("tui")));
    // reveal the link area
    reg.with_session(id, SessionOp::Input(b"d".to_vec())).unwrap();
    match reg.with_session(id, SessionOp::Display) {
        Ok(SessionReply::Screen { display, exit_hint }) => {
            assert!(matches!(display, LinkDisplay::Fetching));
            assert!(exit_hint);
        },
        other => panic!("unexpected reply: {:?}", other),
    }
    let msgs = vec![AppMessage::LinkFetched("https://discord.gg/ok".to_string())];
    assert!(matches!(
        reg.with_session(id, SessionOp::Deliver(msgs)),
        Ok(SessionReply::Delivered)
    ));
    match reg.with_session(id, SessionOp::Display) {
        Ok(SessionReply::Screen { display, .. }) => match display {
            LinkDisplay::Ready(link) => assert_eq!(link, "https://discord.gg/ok"),
            other => panic!("unexpected display: {:?}", other),
        },
        other => panic!("unexpected reply: {:?}", other),
    }
}

#[test]
fn interactive_quit_through_data_callback() {
    let mut reg = Reg::new();
    let id = reg.allocate_id();
    reg.register(id, 1, App::for_protocol(Some("tui")));
    assert_eq!(reg.on_data(id, b"2"), DataOutcome::Continue);
    assert_eq!(reg.on_data(id, b"0"), DataOutcome::Continue);
    assert_eq!(reg.on_data(id, b"0"), DataOutcome::Closed);
    assert_eq!(reg.len(), 0);
}
