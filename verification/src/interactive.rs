//! The interactive (full-screen) session state machine.
//!
//! This is the state behind the event-driven screen: the bounded input
//! accumulator, the running flag, and the invite-link lifecycle. The host's
//! update loop drives it: keystrokes arrive through [`App::on_key_event`],
//! results of the outbound link fetch are folded in through
//! [`App::process_async_messages`], and the screen content is chosen from
//! [`App::display_state`].

use vstd::prelude::*;

verus! {

/// A decoded keystroke: a printable character, with or without shift.
#[derive(Clone, Copy, PartialEq, Eq, Structural, Debug)]
pub struct KeyEvent {
    pub ch: char,
    pub shift: bool,
}

/// Where the invite-link fetch currently stands.
#[derive(Debug)]
pub enum LinkStatus {
    Idle,
    Fetching,
    Success(String),
    Error(String),
}

/// Abstract value of a [`LinkStatus`].
pub ghost enum LinkStatusView {
    Idle,
    Fetching,
    Success(Seq<char>),
    Error(Seq<char>),
}

impl View for LinkStatus {
    type V = LinkStatusView;

    open spec fn view(&self) -> LinkStatusView {
        match self {
            LinkStatus::Idle => LinkStatusView::Idle,
            LinkStatus::Fetching => LinkStatusView::Fetching,
            LinkStatus::Success(s) => LinkStatusView::Success(s@),
            LinkStatus::Error(s) => LinkStatusView::Error(s@),
        }
    }
}

impl Default for LinkStatus {
    /// A fresh session has not asked for a link yet.
    fn default() -> (r: LinkStatus)
        ensures
            r@ == LinkStatusView::Idle,
    {
        LinkStatus::Idle
    }
}

/// A completion message handed back by the background link fetch.
#[derive(Debug)]
pub enum AppMessage {
    LinkFetched(String),
    LinkError(String),
}

/// Abstract value of an [`AppMessage`].
pub ghost enum AppMessageView {
    LinkFetched(Seq<char>),
    LinkError(Seq<char>),
}

impl View for AppMessage {
    type V = AppMessageView;

    open spec fn view(&self) -> AppMessageView {
        match self {
            AppMessage::LinkFetched(s) => AppMessageView::LinkFetched(s@),
            AppMessage::LinkError(s) => AppMessageView::LinkError(s@),
        }
    }
}

/// The interactive session state.
#[derive(Debug)]
pub struct App {
    /// The last few characters typed, oldest first; never more than three.
    pub input_buffer: Vec<char>,
    /// Whether the update loop should keep ticking.
    pub running: bool,
    /// Whether the invite link area has been revealed.
    pub show_link: bool,
    /// Where the link fetch stands.
    pub link_status: LinkStatus,
    /// Set when a key asked for a link and no fetch has been started yet;
    /// the host takes it with [`App::take_fetch_request`] and spawns the fetch.
    pub fetch_requested: bool,
}

/// Abstract value of an interactive [`App`].
pub ghost struct AppView {
    pub input_buffer: Seq<char>,
    pub running: bool,
    pub show_link: bool,
    pub link_status: LinkStatusView,
    pub fetch_requested: bool,
}

impl View for App {
    type V = AppView;

    open spec fn view(&self) -> AppView {
        AppView {
            input_buffer: self.input_buffer@,
            running: self.running,
            show_link: self.show_link,
            link_status: self.link_status@,
            fetch_requested: self.fetch_requested,
        }
    }
}

/// The three characters that end an interactive session.
pub open spec fn exit_token() -> Seq<char> {
    seq!['2', '0', '0']
}

/// How one keystroke changes the accumulator: append, then evict the oldest
/// character if more than three are held.
pub open spec fn push_key(buf: Seq<char>, c: char) -> Seq<char> {
    let grown = buf.push(c);
    if grown.len() > 3 {
        grown.subrange(1, grown.len() as int)
    } else {
        grown
    }
}

/// How one keystroke changes the whole interactive state.
pub open spec fn spec_on_key(v: AppView, key: KeyEvent) -> AppView {
    let buf = push_key(v.input_buffer, key.ch);
    let fetch = (key.ch == 'd' || key.ch == 'D') && !v.show_link;
    AppView {
        input_buffer: buf,
        running: if buf == exit_token() {
            false
        } else {
            v.running
        },
        show_link: v.show_link || fetch,
        link_status: if fetch {
            LinkStatusView::Fetching
        } else {
            v.link_status
        },
        fetch_requested: v.fetch_requested || fetch,
    }
}

/// How one fetch-completion message changes the state.
pub open spec fn apply_message(v: AppView, m: AppMessageView) -> AppView {
    match m {
        AppMessageView::LinkFetched(link) => AppView {
            link_status: LinkStatusView::Success(link),
            ..v
        },
        AppMessageView::LinkError(err) => AppView { link_status: LinkStatusView::Error(err), ..v },
    }
}

/// Messages folded in arrival order; the last one wins.
pub open spec fn apply_messages(v: AppView, ms: Seq<AppMessageView>) -> AppView
    decreases ms.len(),
{
    if ms.len() == 0 {
        v
    } else {
        apply_message(apply_messages(v, ms.drop_last()), ms.last())
    }
}

/// Folding messages touches only the link status: everything else about
/// the state is left exactly as it was.
pub proof fn lemma_messages_touch_only_link_status(v: AppView, ms: Seq<AppMessageView>)
    ensures
        apply_messages(v, ms).input_buffer == v.input_buffer,
        apply_messages(v, ms).running == v.running,
        apply_messages(v, ms).show_link == v.show_link,
        apply_messages(v, ms).fetch_requested == v.fetch_requested,
    decreases ms.len(),
{
    if ms.len() != 0 {
        lemma_messages_touch_only_link_status(v, ms.drop_last());
    }
}

/// What the link area of the screen should show.
#[derive(Debug)]
pub enum LinkDisplay {
    /// The link is still hidden: prompt for the reveal key.
    PromptKey,
    /// Revealed but no fetch outcome is known yet.
    Loading,
    /// A fetch is under way.
    Fetching,
    /// The fetched link itself.
    Ready(String),
    /// The fetch failed; show the error text.
    Failed(String),
}

/// Abstract value of a [`LinkDisplay`].
pub ghost enum LinkDisplayView {
    PromptKey,
    Loading,
    Fetching,
    Ready(Seq<char>),
    Failed(Seq<char>),
}

impl View for LinkDisplay {
    type V = LinkDisplayView;

    open spec fn view(&self) -> LinkDisplayView {
        match self {
            LinkDisplay::PromptKey => LinkDisplayView::PromptKey,
            LinkDisplay::Loading => LinkDisplayView::Loading,
            LinkDisplay::Fetching => LinkDisplayView::Fetching,
            LinkDisplay::Ready(s) => LinkDisplayView::Ready(s@),
            LinkDisplay::Failed(s) => LinkDisplayView::Failed(s@),
        }
    }
}

/// The display variant a given state calls for.
pub open spec fn spec_display(v: AppView) -> LinkDisplayView {
    if !v.show_link {
        LinkDisplayView::PromptKey
    } else {
        match v.link_status {
            LinkStatusView::Idle => LinkDisplayView::Loading,
            LinkStatusView::Fetching => LinkDisplayView::Fetching,
            LinkStatusView::Success(l) => LinkDisplayView::Ready(l),
            LinkStatusView::Error(e) => LinkDisplayView::Failed(e),
        }
    }
}

/// Whether the closing hint ("type the exit token") is shown: only once the
/// link area is revealed and the fetch has neither still to start nor failed.
pub open spec fn spec_show_exit_hint(v: AppView) -> bool {
    v.show_link && !(v.link_status is Idle) && !(v.link_status is Error)
}

impl App {
    /// The accumulator never holds more than three characters.
    pub open spec fn wf(&self) -> bool {
        self.input_buffer@.len() <= 3
    }

    /// A fresh interactive session: nothing typed, not running, link hidden.
    pub open spec fn spec_new() -> AppView {
        AppView {
            input_buffer: Seq::empty(),
            running: false,
            show_link: false,
            link_status: LinkStatusView::Idle,
            fetch_requested: false,
        }
    }

    pub fn new() -> (a: App)
        ensures
            a@ == App::spec_new(),
            a.wf(),
    {
        App {
            input_buffer: Vec::new(),
            running: false,
            show_link: false,
            link_status: LinkStatus::Idle,
            fetch_requested: false,
        }
    }

    /// Marks the update loop as running; its first act on taking the state.
    pub fn start_running(&mut self)
        ensures
            final(self)@ == (AppView { running: true, ..old(self)@ }),
    {
        self.running = true;
    }

    /// Whether the update loop should keep ticking.
    pub fn is_running(&self) -> (r: bool)
        ensures
            r == self@.running,
    {
        self.running
    }

    /// Applies one keystroke: slides it into the accumulator, stops the loop
    /// when the exit token has been typed, and on the reveal key (`d` or `D`,
    /// first time only) reveals the link area and asks for a fetch.
    pub fn on_key_event(&mut self, key: KeyEvent)
        requires
            old(self).wf(),
        ensures
            final(self)@ == spec_on_key(old(self)@, key),
            final(self).wf(),
    {
        self.input_buffer.push(key.ch);
        if self.input_buffer.len() > 3 {
            self.input_buffer.remove(0);
        }
        if buffer_is_exit(&self.input_buffer) {
            self.running = false;
        }
        if (key.ch == 'd' || key.ch == 'D') && !self.show_link {
            self.show_link = true;
            self.start_link_fetch();
        }
    }

    /// Marks a fetch as under way and leaves a request for the host to spawn.
    fn start_link_fetch(&mut self)
        ensures
            final(self)@ == (AppView {
                link_status: LinkStatusView::Fetching,
                fetch_requested: true,
                ..old(self)@
            }),
    {
        self.link_status = LinkStatus::Fetching;
        self.fetch_requested = true;
    }

    /// Hands the pending fetch request to the host, clearing it.
    pub fn take_fetch_request(&mut self) -> (r: bool)
        ensures
            r == old(self)@.fetch_requested,
            final(self)@ == (AppView { fetch_requested: false, ..old(self)@ }),
    {
        let r = self.fetch_requested;
        self.fetch_requested = false;
        r
    }

    /// Folds fetch-completion messages into the state in arrival order.
    pub fn process_async_messages(&mut self, messages: Vec<AppMessage>)
        ensures
            final(self)@ == apply_messages(
                old(self)@,
                messages@.map_values(|m: AppMessage| m@),
            ),
    {
        let ghost v0 = self@;
        let ghost ms = messages@.map_values(|m: AppMessage| m@);
        let mut i: usize = 0;
        while i < messages.len()
            invariant
                i <= messages.len(),
                ms == messages@.map_values(|m: AppMessage| m@),
                self@ == apply_messages(v0, ms.take(i as int)),
            decreases messages.len() - i,
        {
            proof {
                assert(ms.take(i + 1).drop_last() =~= ms.take(i as int));
                assert(ms.take(i + 1).last() == ms[i as int]);
            }
            match &messages[i] {
                AppMessage::LinkFetched(link) => {
                    self.link_status = LinkStatus::Success(link.clone());
                },
                AppMessage::LinkError(err) => {
                    self.link_status = LinkStatus::Error(err.clone());
                },
            }
            i = i + 1;
        }
        proof {
            assert(ms.take(messages@.len() as int) =~= ms);
        }
    }

    /// The display variant the current state calls for.
    pub fn display_state(&self) -> (d: LinkDisplay)
        ensures
            d@ == spec_display(self@),
    {
        if !self.show_link {
            LinkDisplay::PromptKey
        } else {
            match &self.link_status {
                LinkStatus::Idle => LinkDisplay::Loading,
                LinkStatus::Fetching => LinkDisplay::Fetching,
                LinkStatus::Success(l) => LinkDisplay::Ready(l.clone()),
                LinkStatus::Error(e) => LinkDisplay::Failed(e.clone()),
            }
        }
    }

    /// Whether the closing hint is shown.
    pub fn show_exit_hint(&self) -> (r: bool)
        ensures
            r == spec_show_exit_hint(self@),
    {
        self.show_link && !matches!(self.link_status, LinkStatus::Idle) && !matches!(
            self.link_status,
            LinkStatus::Error(_),
        )
    }
}

impl Default for App {
    /// Same state as [`App::new`].
    fn default() -> (a: App)
        ensures
            a@ == App::spec_new(),
            a.wf(),
    {
        App::new()
    }
}

/// Whether the accumulator holds exactly the exit token.
fn buffer_is_exit(buf: &Vec<char>) -> (r: bool)
    ensures
        r == (buf@ == exit_token()),
{
    if buf.len() == 3 {
        let r = buf[0] == '2' && buf[1] == '0' && buf[2] == '0';
        proof {
            if r {
                assert(buf@ =~= exit_token());
            }
        }
        r
    } else {
        false
    }
}

/// The accumulator after a whole sequence of keystrokes, oldest first.
pub open spec fn fold_keys(buf: Seq<char>, typed: Seq<char>) -> Seq<char>
    decreases typed.len(),
{
    if typed.len() == 0 {
        buf
    } else {
        push_key(fold_keys(buf, typed.drop_last()), typed.last())
    }
}

/// Law: the accumulator is a sliding window. Starting from any well-formed
/// buffer, after any sequence of keystrokes it holds exactly the last three
/// characters seen (all of them when fewer than three have been seen), the
/// oldest evicted first.
pub proof fn lemma_accumulator_sliding_window(buf: Seq<char>, typed: Seq<char>)
    requires
        buf.len() <= 3,
    ensures
        fold_keys(buf, typed).len() <= 3,
        (buf + typed).len() >= 3 ==> fold_keys(buf, typed) == (buf + typed).skip(
            (buf + typed).len() - 3,
        ),
        (buf + typed).len() <= 3 ==> fold_keys(buf, typed) == buf + typed,
    decreases typed.len(),
{
    if typed.len() == 0 {
        assert(buf + typed =~= buf);
        if buf.len() == 3 {
            assert((buf + typed).skip((buf + typed).len() - 3) =~= buf);
        }
    } else {
        let shorter = typed.drop_last();
        let c = typed.last();
        lemma_accumulator_sliding_window(buf, shorter);
        let prev = fold_keys(buf, shorter);
        assert(buf + shorter =~= (buf + typed).drop_last());
        if (buf + shorter).len() < 3 {
            assert(prev.push(c) =~= buf + typed);
        } else {
            assert(prev.push(c).len() == 4);
            assert(fold_keys(buf, typed) =~= (buf + typed).skip((buf + typed).len() - 3));
        }
    }
}

/// Law: whenever the last three keystrokes typed are the exit token, the
/// accumulator holds exactly the exit token — whatever was typed before,
/// matching or not, since the window slides instead of resetting.
pub proof fn lemma_exit_token_triggers(buf: Seq<char>, typed: Seq<char>)
    requires
        buf.len() <= 3,
        typed.len() >= 3,
        typed.skip(typed.len() - 3) == exit_token(),
    ensures
        fold_keys(buf, typed) == exit_token(),
{
    lemma_accumulator_sliding_window(buf, typed);
    assert((buf + typed).skip((buf + typed).len() - 3) =~= typed.skip(typed.len() - 3));
}

} // verus!
