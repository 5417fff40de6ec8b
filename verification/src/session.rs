//! The per-session mode state machine.
//!
//! A session is created in plain (request/response) mode unless the
//! negotiated identity asks for the interactive screen. Plain mode maps a
//! route token to canned content and quits on a quit token; interactive mode
//! decodes raw bytes into keystrokes and feeds the interactive state.

use vstd::prelude::*;
use vstd::string::StringExecFns;

use crate::interactive;
use crate::interactive::KeyEvent;

verus! {

/// Which face the session shows: canned text or the full-screen app.
#[derive(Clone, Copy, PartialEq, Eq, Structural, Debug)]
pub enum AppMode {
    Mock,
    Tui,
}

/// One session's state: the last rendered plain content, the interactive
/// state when in `Tui` mode, and the negotiated screen size.
#[derive(Debug)]
pub struct App {
    /// The content last produced in plain mode.
    pub content: String,
    /// The interactive state; present exactly in `Tui` mode.
    pub tui_app: Option<interactive::App>,
    /// The mode this session was created in.
    pub mode: AppMode,
    /// Screen width in columns, as last negotiated.
    pub cols: u16,
    /// Screen height in rows, as last negotiated.
    pub rows: u16,
}

/// Abstract value of a session [`App`].
pub ghost struct AppView {
    pub content: Seq<char>,
    pub tui: Option<interactive::AppView>,
    pub mode: AppMode,
    pub cols: u16,
    pub rows: u16,
}

impl View for App {
    type V = AppView;

    open spec fn view(&self) -> AppView {
        AppView {
            content: self.content@,
            tui: match self.tui_app {
                Some(t) => Some(t@),
                None => None,
            },
            mode: self.mode,
            cols: self.cols,
            rows: self.rows,
        }
    }
}

/// A well-formed session view: interactive state exactly in `Tui` mode, and
/// that state itself well-formed.
pub open spec fn view_wf(v: AppView) -> bool {
    &&& (v.mode is Tui <==> v.tui is Some)
    &&& (v.tui matches Some(t) ==> t.input_buffer.len() <= 3)
}

/// The view of an optional route string.
pub open spec fn spec_route(route: Option<&str>) -> Option<Seq<char>> {
    match route {
        Some(r) => Some(r@),
        None => None,
    }
}

/// The canned content a plain-mode route produces. The greeting route gets
/// the greeting; everything else, the absent route included, gets the
/// invite prompt.
pub open spec fn spec_route_content(route: Option<Seq<char>>) -> Seq<char> {
    if route == Some("hello"@) {
        "Shell started! Hello World!\r\n"@
    } else {
        "Here is the discord link: discord.gg/12345\r\n"@
    }
}

/// How serving a route changes the session: plain mode rewrites the content;
/// interactive mode only redraws, leaving the state as it is.
pub open spec fn spec_serve(v: AppView, route: Option<Seq<char>>) -> AppView {
    match v.mode {
        AppMode::Mock => AppView { content: spec_route_content(route), ..v },
        AppMode::Tui => v,
    }
}

/// Whether the bytes are one of the plain-mode quit tokens: the letter `q`,
/// end-of-text, or end-of-transmission.
pub open spec fn is_quit_bytes(data: Seq<u8>) -> bool {
    ||| data == seq!['q' as u8]
    ||| data == seq![3u8]
    ||| data == seq![4u8]
}

/// The fixed byte-to-keystroke table of interactive mode: the reveal key in
/// upper case carries shift, the fully-typed exit token maps to its final
/// character, any other single printable byte maps to itself, and anything
/// else is dropped.
pub open spec fn spec_key_of(data: Seq<u8>) -> Option<KeyEvent> {
    if data == seq!['q' as u8] {
        Some(KeyEvent { ch: 'q', shift: false })
    } else if data == seq!['d' as u8] {
        Some(KeyEvent { ch: 'd', shift: false })
    } else if data == seq!['D' as u8] {
        Some(KeyEvent { ch: 'D', shift: true })
    } else if data == seq!['2' as u8, '0' as u8, '0' as u8] {
        Some(KeyEvent { ch: '0', shift: false })
    } else if data.len() == 1 && data[0] <= 127 {
        Some(KeyEvent { ch: data[0] as char, shift: false })
    } else {
        None
    }
}

/// How input bytes change the session, and whether the session should end:
/// plain mode ends exactly on a quit token; interactive mode feeds the
/// decoded keystroke to the interactive state and ends once the accumulator
/// holds the exit token.
pub open spec fn spec_handle_input(v: AppView, data: Seq<u8>) -> (AppView, bool) {
    match v.mode {
        AppMode::Mock => (v, is_quit_bytes(data)),
        AppMode::Tui => {
            match v.tui {
                Some(t) => match spec_key_of(data) {
                    Some(k) => {
                        let t2 = interactive::spec_on_key(t, k);
                        (
                            AppView { tui: Some(t2), ..v },
                            t2.input_buffer == interactive::exit_token(),
                        )
                    },
                    None => (v, false),
                },
                None => (v, false),
            }
        },
    }
}

/// How a resize changes the session: interactive mode records the new size;
/// plain mode ignores it.
pub open spec fn spec_resize(v: AppView, width: u16, height: u16) -> AppView {
    match v.mode {
        AppMode::Mock => v,
        AppMode::Tui => AppView { cols: width, rows: height, ..v },
    }
}

/// Clearing the pending fetch request of an interactive session; plain
/// sessions have none and are unchanged.
pub open spec fn spec_take_fetch(v: AppView) -> AppView {
    match v.tui {
        Some(t) => AppView {
            tui: Some(interactive::AppView { fetch_requested: false, ..t }),
            ..v
        },
        None => v,
    }
}

/// Whether an interactive session has asked for a link fetch that the host
/// has not picked up yet.
pub open spec fn spec_pending_fetch(v: AppView) -> bool {
    v.tui matches Some(t) && t.fetch_requested
}

/// Folding fetch-completion messages into an interactive session; plain
/// sessions have nowhere to put them and are unchanged.
pub open spec fn spec_deliver(v: AppView, ms: Seq<interactive::AppMessageView>) -> AppView {
    match v.tui {
        Some(t) => AppView { tui: Some(interactive::apply_messages(t, ms)), ..v },
        None => v,
    }
}

/// What the screen of a session shows: the link display and whether the
/// exit hint is up. A plain session shows the initial prompt and no hint.
pub open spec fn spec_screen(v: AppView) -> (interactive::LinkDisplayView, bool) {
    match v.tui {
        Some(t) => (interactive::spec_display(t), interactive::spec_show_exit_hint(t)),
        None => (interactive::LinkDisplayView::PromptKey, false),
    }
}

/// What serving asks of the host.
#[derive(Clone, Copy, PartialEq, Eq, Structural, Debug)]
pub enum ServeEffect {
    /// Plain mode: the content field was rewritten; send it.
    Updated,
    /// Interactive mode: draw the current surface once.
    Redraw,
}

impl App {
    /// Well-formedness of this session.
    pub open spec fn wf(&self) -> bool {
        view_wf(self@)
    }

    /// A fresh plain-mode session.
    pub open spec fn spec_start() -> AppView {
        AppView {
            content: Seq::empty(),
            tui: None,
            mode: AppMode::Mock,
            cols: 0,
            rows: 0,
        }
    }

    /// A fresh interactive session.
    pub open spec fn spec_start_tui() -> AppView {
        AppView {
            content: Seq::empty(),
            tui: Some(interactive::App::spec_new()),
            mode: AppMode::Tui,
            cols: 0,
            rows: 0,
        }
    }

    /// Creates a plain-mode session.
    pub fn start() -> (a: App)
        ensures
            a@ == App::spec_start(),
            a.wf(),
    {
        App {
            content: String::new(),
            tui_app: None,
            mode: AppMode::Mock,
            cols: 0,
            rows: 0,
        }
    }

    /// Creates an interactive session. The host attaches the real render
    /// surface on its side; this state records everything the logic reads.
    pub fn start_tui() -> (a: App)
        ensures
            a@ == App::spec_start_tui(),
            a.wf(),
    {
        App {
            content: String::new(),
            tui_app: Some(interactive::App::new()),
            mode: AppMode::Tui,
            cols: 0,
            rows: 0,
        }
    }

    /// Creates the session a negotiated identity asks for: the designated
    /// identity gets the interactive screen, everyone else plain mode.
    pub fn for_protocol(protocol: Option<&str>) -> (a: App)
        ensures
            spec_route(protocol) == Some("tui"@) ==> a@ == App::spec_start_tui(),
            spec_route(protocol) != Some("tui"@) ==> a@ == App::spec_start(),
            a.wf(),
    {
        match protocol {
            Some(p) => {
                if str_eq(p, "tui") {
                    App::start_tui()
                } else {
                    App::start()
                }
            },
            None => App::start(),
        }
    }

    /// Serves a route: plain mode rewrites the content deterministically
    /// (no route value is an error); interactive mode asks for one redraw.
    pub fn serve(&mut self, route: Option<&str>) -> (eff: ServeEffect)
        requires
            old(self).wf(),
        ensures
            final(self)@ == spec_serve(old(self)@, spec_route(route)),
            eff == (match old(self)@.mode {
                AppMode::Mock => ServeEffect::Updated,
                AppMode::Tui => ServeEffect::Redraw,
            }),
            final(self).wf(),
    {
        match self.mode {
            AppMode::Mock => {
                self.serve_mock(route);
                ServeEffect::Updated
            },
            AppMode::Tui => ServeEffect::Redraw,
        }
    }

    /// Plain-mode content selection.
    fn serve_mock(&mut self, route: Option<&str>)
        ensures
            final(self)@ == (AppView {
                content: spec_route_content(spec_route(route)),
                ..old(self)@
            }),
    {
        match route {
            Some(r) => {
                if str_eq(r, "hello") {
                    self.content = String::from_str("Shell started! Hello World!\r\n");
                } else {
                    self.content = String::from_str(
                        "Here is the discord link: discord.gg/12345\r\n",
                    );
                }
            },
            None => {
                self.content = String::from_str("Here is the discord link: discord.gg/12345\r\n");
            },
        }
    }

    /// Handles raw input bytes; returns whether the session should end.
    pub fn handle_input(&mut self, data: &[u8]) -> (exit: bool)
        requires
            old(self).wf(),
        ensures
            final(self)@ == spec_handle_input(old(self)@, data@).0,
            exit == spec_handle_input(old(self)@, data@).1,
            final(self).wf(),
    {
        match self.mode {
            AppMode::Mock => {
                let quit = data.len() == 1 && (data[0] == 'q' as u8 || data[0] == 3 || data[0]
                    == 4);
                proof {
                    if data@.len() == 1 {
                        assert(data@ =~= seq![data@[0]]);
                    }
                }
                quit
            },
            AppMode::Tui => {
                match ssh_data_to_key_event(data) {
                    Some(key) => {
                        match &mut self.tui_app {
                            Some(t) => {
                                t.on_key_event(key);
                                is_exit_buffer(t)
                            },
                            None => false,
                        }
                    },
                    None => false,
                }
            },
        }
    }

    /// Hands the session's pending fetch request to the host, clearing it.
    pub fn take_fetch_request(&mut self) -> (r: bool)
        requires
            old(self).wf(),
        ensures
            final(self)@ == spec_take_fetch(old(self)@),
            r == spec_pending_fetch(old(self)@),
            final(self).wf(),
    {
        match &mut self.tui_app {
            Some(t) => t.take_fetch_request(),
            None => false,
        }
    }

    /// Folds fetch-completion messages into the interactive state, in
    /// arrival order; a no-op for plain sessions.
    pub fn deliver_messages(&mut self, messages: Vec<interactive::AppMessage>)
        requires
            old(self).wf(),
        ensures
            final(self)@ == spec_deliver(
                old(self)@,
                messages@.map_values(|m: interactive::AppMessage| m@),
            ),
            final(self).wf(),
    {
        let ghost ms = messages@.map_values(|m: interactive::AppMessage| m@);
        match &mut self.tui_app {
            Some(t) => {
                proof {
                    interactive::lemma_messages_touch_only_link_status(t@, ms);
                }
                t.process_async_messages(messages);
            },
            None => {},
        }
    }

    /// What the screen shows right now: the link display and whether the
    /// exit hint is up.
    pub fn screen(&self) -> (r: (interactive::LinkDisplay, bool))
        ensures
            r.0@ == spec_screen(self@).0,
            r.1 == spec_screen(self@).1,
    {
        match &self.tui_app {
            Some(t) => (t.display_state(), t.show_exit_hint()),
            None => (interactive::LinkDisplay::PromptKey, false),
        }
    }

    /// Applies a window resize; returns whether the host must resize its
    /// render surface (only interactive sessions have one).
    pub fn resize(&mut self, width: u16, height: u16) -> (resize_surface: bool)
        ensures
            final(self)@ == spec_resize(old(self)@, width, height),
            resize_surface == (old(self)@.mode is Tui),
    {
        match self.mode {
            AppMode::Mock => false,
            AppMode::Tui => {
                self.cols = width;
                self.rows = height;
                true
            },
        }
    }
}

/// Whether the interactive accumulator holds exactly the exit token.
fn is_exit_buffer(t: &interactive::App) -> (r: bool)
    ensures
        r == (t@.input_buffer == interactive::exit_token()),
{
    if t.input_buffer.len() == 3 {
        let r = t.input_buffer[0] == '2' && t.input_buffer[1] == '0' && t.input_buffer[2] == '0';
        proof {
            if r {
                assert(t@.input_buffer =~= interactive::exit_token());
            }
        }
        r
    } else {
        false
    }
}

/// Decodes raw transport bytes into an abstract keystroke, by the fixed
/// table of [`spec_key_of`].
pub fn ssh_data_to_key_event(data: &[u8]) -> (r: Option<KeyEvent>)
    ensures
        r == spec_key_of(data@),
{
    proof {
        if data@.len() == 1 {
            assert(data@ =~= seq![data@[0]]);
        }
        if data@.len() == 3 {
            assert(data@ =~= seq![data@[0], data@[1], data@[2]]);
        }
    }
    if data.len() == 1 {
        let b = data[0];
        if b == 'q' as u8 {
            Some(KeyEvent { ch: 'q', shift: false })
        } else if b == 'd' as u8 {
            Some(KeyEvent { ch: 'd', shift: false })
        } else if b == 'D' as u8 {
            Some(KeyEvent { ch: 'D', shift: true })
        } else if b <= 127 {
            Some(KeyEvent { ch: b as char, shift: false })
        } else {
            None
        }
    } else if data.len() == 3 && data[0] == '2' as u8 && data[1] == '0' as u8 && data[2] == '0'
        as u8 {
        Some(KeyEvent { ch: '0', shift: false })
    } else {
        None
    }
}

/// The bytes that wipe the remote screen and rehome the cursor, sent when a
/// session quits.
pub open spec fn clear_screen_seq() -> Seq<u8> {
    seq![
        0x1bu8,
        '[' as u8,
        '2' as u8,
        'J' as u8,
        0x1bu8,
        '[' as u8,
        'H' as u8,
        '\r' as u8,
        '\n' as u8,
    ]
}

/// Builds the quit-time screen-clearing byte sequence.
pub fn clear_screen_bytes() -> (r: Vec<u8>)
    ensures
        r@ == clear_screen_seq(),
{
    let r: Vec<u8> = vec![0x1bu8, '[' as u8, '2' as u8, 'J' as u8, 0x1bu8, '[' as u8, 'H' as u8, '\r' as u8, '\n' as u8];
    proof {
        assert(r@ =~= clear_screen_seq());
    }
    r
}

/// Whether two string slices hold the same characters.
pub fn str_eq(a: &str, b: &str) -> (r: bool)
    ensures
        r == (a@ == b@),
{
    String::from_str(a) == String::from_str(b)
}

} // verus!
