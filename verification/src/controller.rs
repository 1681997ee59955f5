//! The session controller: a serially-driven state machine owning window
//! visibility, the ordered tab set, the selected tab and tab id allocation.
//!
//! The controller never performs platform work itself. Each message it
//! processes yields a list of commands, in order, for the surrounding
//! runtime to carry out: create or destroy the overlay window, start a
//! terminal instance, focus a tab after its widget has mounted, or exit.
//! Window handles are allocated by the controller from its own counter, so
//! that exactly one overlay window exists at a time and a close command
//! always names the window it targets.

use vstd::prelude::*;

use crate::hotkey::{HotkeyMode, Key, Modifiers};

verus! {

broadcast use vstd::string::to_string_from_display_ensures_for_str;

/// Whether the overlay window currently exists, and under which handle.
#[derive(Clone, Copy, Debug, PartialEq, Eq, Structural)]
pub enum WindowState {
    Closed,
    Open(u64),
}

/// What a terminal instance's own update step asked the session to do.
#[derive(Clone, Copy, Debug, PartialEq, Eq, Structural)]
pub enum TerminalAction {
    /// The instance wants its tab closed.
    Close,
    /// The instance produced a follow-up task to run on its behalf.
    Run,
    /// Nothing further.
    Idle,
}

/// The unified session messages, merged from every event source into one
/// ordered stream.
#[derive(Clone, Copy, Debug, PartialEq, Eq, Structural)]
pub enum Message {
    /// The outcome of delivering an event to the terminal instance of tab
    /// `id`: the instance's own update step has already run outside, and
    /// `action` is what it asked for.
    LocalTerminal { id: u32, action: TerminalAction },
    /// Open a new tab and select it.
    OpenTab,
    /// Select an existing tab.
    SwitchTab(u32),
    /// Deliver input focus to an existing tab.
    FocusTab(u32),
    /// Remove a tab.
    CloseTab(u32),
    /// Toggle the overlay: global hotkey, signal fallback or tray click.
    Hotkey,
    /// The windowing backend finished opening the overlay window under this
    /// handle; the controller records it.
    WindowOpened(u64),
    /// Close the overlay window, keeping the tabs.
    CloseWindow,
    /// The compositor closed the overlay window outside our own close path.
    WindowClosed,
    /// The tray menu's only entry was activated.
    Shutdown,
    /// A deliberate no-op, emitted to keep some windowing backends' event
    /// loops from stalling.
    Dummy,
}

/// Commands the controller hands back to the surrounding runtime.
#[derive(Clone, Copy, Debug, PartialEq, Eq, Structural)]
pub enum Command {
    /// Create the overlay window under this handle.
    OpenWindow(u64),
    /// Destroy the overlay window known under this handle.
    CloseWindow(u64),
    /// Ask the windowing backend to give the overlay window keyboard focus.
    GainFocus(u64),
    /// Start a terminal instance for this freshly allocated tab id, and tag
    /// its startup follow-up with the same id.
    SpawnTab(u32),
    /// After a short mounting delay, feed `Message::FocusTab` with this id
    /// back into the stream.
    FocusTabSoon(u32),
    /// Delegate a focus request to the terminal instance of this tab now.
    FocusTerminal(u32),
    /// Run the follow-up task the terminal instance of this tab produced,
    /// tagging its results with the tab's id.
    ForwardTask(u32),
    /// Terminate the process.
    Exit,
}

/// The mathematical state of the controller. Tab ids are kept sorted, so
/// the order of `tabs` is the order of allocation and `tabs[0]` is the
/// smallest open id. The counters are unbounded here; the executable
/// controller refuses to allocate past its machine-word counters.
#[verifier::ext_equal]
pub ghost struct StateView {
    pub tabs: Seq<u32>,
    pub window: WindowState,
    pub selected_tab: u32,
    pub new_terminal_id: int,
    pub new_window_id: int,
    pub hotkey: HotkeyMode,
}

/// Tab ids strictly increase along the sequence.
pub open spec fn sorted_strict(tabs: Seq<u32>) -> bool {
    forall|i: int, j: int| 0 <= i < j < tabs.len() ==> tabs[i] < tabs[j]
}

/// Well-formedness: tabs are sorted and unique, every open id was allocated
/// below the counter, and the selected tab exists while any tab does. The
/// window handle is unconstrained: the acknowledgement of an opened window
/// records whatever handle the backend reports.
pub open spec fn wf(s: StateView) -> bool {
    &&& sorted_strict(s.tabs)
    &&& forall|i: int|
        0 <= i < s.tabs.len() ==> 1 <= #[trigger] s.tabs[i] && (s.tabs[i] as int)
            < s.new_terminal_id
    &&& 1 <= s.new_terminal_id
    &&& 1 <= s.new_window_id
    &&& s.tabs.len() > 0 ==> s.tabs.contains(s.selected_tab)
}

/// The state a fresh session starts in: closed window, no tabs, both
/// counters at one.
pub open spec fn spec_init(mode: HotkeyMode) -> StateView {
    StateView {
        tabs: Seq::empty(),
        window: WindowState::Closed,
        selected_tab: 1,
        new_terminal_id: 1,
        new_window_id: 1,
        hotkey: mode,
    }
}

/// The position of the first occurrence of `id` in `tabs` (the sequence
/// length if it does not occur).
pub open spec fn first_index_of(tabs: Seq<u32>, id: u32) -> int
    decreases tabs.len(),
{
    if tabs.len() == 0 {
        0
    } else if tabs[0] == id {
        0
    } else {
        1 + first_index_of(tabs.drop_first(), id)
    }
}

/// Close the overlay window if one exists; keep the tabs either way.
pub open spec fn spec_close_window(s: StateView) -> (StateView, Seq<Command>) {
    match s.window {
        WindowState::Open(h) => (
            StateView { window: WindowState::Closed, ..s },
            seq![Command::CloseWindow(h)],
        ),
        WindowState::Closed => (s, Seq::empty()),
    }
}

/// Allocate the next tab id, insert it, select it, and ask the runtime to
/// start its terminal instance and focus it once mounted.
pub open spec fn spec_open_tab(s: StateView) -> (StateView, Seq<Command>) {
    let id = s.new_terminal_id as u32;
    (
        StateView {
            tabs: s.tabs.push(id),
            selected_tab: id,
            new_terminal_id: s.new_terminal_id + 1,
            ..s
        },
        seq![Command::SpawnTab(id), Command::FocusTabSoon(id)],
    )
}

/// Open the overlay window; if it already exists, just refocus it. A first
/// open with no tabs also opens one tab, whose commands come first.
pub open spec fn spec_open_window(s: StateView) -> (StateView, Seq<Command>) {
    match s.window {
        WindowState::Open(h) => (s, seq![Command::GainFocus(h)]),
        WindowState::Closed => {
            let h = s.new_window_id as u64;
            let s1 = StateView {
                window: WindowState::Open(h),
                new_window_id: s.new_window_id + 1,
                ..s
            };
            if s.tabs.len() == 0 {
                let stepped = spec_open_tab(s1);
                (stepped.0, stepped.1.push(Command::OpenWindow(h)))
            } else {
                (s1, seq![Command::OpenWindow(h)])
            }
        },
    }
}

/// Remove a tab. An unknown id is a silent no-op. If tabs remain, the
/// smallest remaining id becomes selected and gets focused; if none remain,
/// the overlay window closes.
pub open spec fn spec_close_tab(s: StateView, id: u32) -> (StateView, Seq<Command>) {
    if !s.tabs.contains(id) {
        (s, Seq::empty())
    } else {
        let tabs2 = s.tabs.remove(first_index_of(s.tabs, id));
        if tabs2.len() > 0 {
            (
                StateView { tabs: tabs2, selected_tab: tabs2[0], ..s },
                seq![Command::FocusTabSoon(tabs2[0])],
            )
        } else {
            spec_close_window(StateView { tabs: tabs2, ..s })
        }
    }
}

/// Select an existing tab and focus it once its widget settles; an unknown
/// id is a silent no-op.
pub open spec fn spec_switch_tab(s: StateView, id: u32) -> (StateView, Seq<Command>) {
    if s.tabs.contains(id) {
        (StateView { selected_tab: id, ..s }, seq![Command::FocusTabSoon(id)])
    } else {
        (s, Seq::empty())
    }
}

/// The full transition relation of the session controller: next state and
/// the ordered commands, for every message.
pub open spec fn spec_update(s: StateView, m: Message) -> (StateView, Seq<Command>) {
    match m {
        Message::LocalTerminal { id, action } => {
            if !s.tabs.contains(id) {
                (s, Seq::empty())
            } else {
                match action {
                    TerminalAction::Close => spec_close_tab(s, id),
                    TerminalAction::Run => (s, seq![Command::ForwardTask(id)]),
                    TerminalAction::Idle => (s, Seq::empty()),
                }
            }
        },
        Message::OpenTab => spec_open_tab(s),
        Message::SwitchTab(id) => spec_switch_tab(s, id),
        Message::FocusTab(id) => {
            if s.tabs.contains(id) {
                (s, seq![Command::FocusTerminal(id)])
            } else {
                (s, Seq::empty())
            }
        },
        Message::CloseTab(id) => spec_close_tab(s, id),
        Message::Hotkey => {
            if s.window is Open {
                spec_close_window(s)
            } else {
                spec_open_window(s)
            }
        },
        Message::WindowOpened(h) => {
            let s1 = if s.window is Open {
                StateView { window: WindowState::Open(h), ..s }
            } else {
                s
            };
            if s.tabs.contains(s.selected_tab) {
                (s1, seq![Command::GainFocus(h), Command::FocusTerminal(s.selected_tab)])
            } else {
                (s1, seq![Command::GainFocus(h)])
            }
        },
        Message::CloseWindow => spec_close_window(s),
        Message::WindowClosed => (StateView { window: WindowState::Closed, ..s }, Seq::empty()),
        Message::Shutdown => (s, seq![Command::Exit]),
        Message::Dummy => (s, Seq::empty()),
    }
}

/// Whether processing `m` in state `s` allocates a tab id.
pub open spec fn spec_may_open_tab(s: StateView, m: Message) -> bool {
    ||| m is OpenTab
    ||| (m is Hotkey && s.window is Closed && s.tabs.len() == 0)
}

/// Whether processing `m` in state `s` allocates a window handle.
pub open spec fn spec_may_open_window(s: StateView, m: Message) -> bool {
    m is Hotkey && s.window is Closed
}

/// The session controller. One instance exists per process; one serial
/// caller drives it by feeding unified messages to `update`.
pub struct UI {
    tabs: Vec<u32>,
    window: WindowState,
    selected_tab: u32,
    new_terminal_id: u32,
    new_window_id: u64,
    hotkey: HotkeyMode,
}

impl View for UI {
    type V = StateView;

    closed spec fn view(&self) -> StateView {
        StateView {
            tabs: self.tabs@,
            window: self.window,
            selected_tab: self.selected_tab,
            new_terminal_id: self.new_terminal_id as int,
            new_window_id: self.new_window_id as int,
            hotkey: self.hotkey,
        }
    }
}

/// The index of the first occurrence of `id` in `v`, if any.
fn find_first(v: &Vec<u32>, id: u32) -> (r: Option<usize>)
    ensures
        match r {
            Some(i) => {
                &&& (i as int) < v@.len()
                &&& v@[i as int] == id
                &&& forall|j: int| 0 <= j < i ==> v@[j] != id
            },
            None => !v@.contains(id),
        },
{
    let n = v.len();
    let mut i: usize = 0;
    while i < n
        invariant
            n == v@.len(),
            i <= n,
            forall|j: int| 0 <= j < i ==> v@[j] != id,
        decreases n - i,
    {
        if v[i] == id {
            return Some(i);
        }
        i = i + 1;
    }
    proof {
        assert(forall|j: int| 0 <= j < v@.len() ==> v@[j] != id);
    }
    None
}

/// The first occurrence found by a scan is the first index the spec names.
proof fn lemma_first_index_agrees(tabs: Seq<u32>, id: u32, pos: int)
    requires
        0 <= pos < tabs.len(),
        tabs[pos] == id,
        forall|j: int| 0 <= j < pos ==> tabs[j] != id,
    ensures
        first_index_of(tabs, id) == pos,
    decreases pos,
{
    if pos == 0 {
    } else {
        assert(tabs.drop_first()[pos - 1] == id);
        assert forall|j: int| 0 <= j < pos - 1 implies tabs.drop_first()[j] != id by {
            assert(tabs.drop_first()[j] == tabs[j + 1]);
        }
        lemma_first_index_agrees(tabs.drop_first(), id, pos - 1);
    }
}

impl UI {
    /// A fresh session: closed window, no tabs, counters at one.
    pub fn new(mode: HotkeyMode) -> (ui: UI)
        ensures
            ui@ == spec_init(mode),
    {
        let ui = UI {
            tabs: Vec::new(),
            window: WindowState::Closed,
            selected_tab: 1,
            new_terminal_id: 1,
            new_window_id: 1,
            hotkey: mode,
        };
        proof {
            assert(ui@ =~= spec_init(mode));
        }
        ui
    }

    /// The binding this session was started with.
    pub fn hotkey_mode(&self) -> (mode: HotkeyMode)
        ensures
            mode == self@.hotkey,
    {
        self.hotkey
    }

    fn close_window(&mut self) -> (r: Vec<Command>)
        ensures
            final(self)@ == spec_close_window(old(self)@).0,
            r@ == spec_close_window(old(self)@).1,
    {
        match self.window {
            WindowState::Open(h) => {
                self.window = WindowState::Closed;
                let r = vec![Command::CloseWindow(h)];
                proof {
                    assert(self@ =~= spec_close_window(old(self)@).0);
                    assert(r@ =~= spec_close_window(old(self)@).1);
                }
                r
            },
            WindowState::Closed => {
                let r = Vec::new();
                proof {
                    assert(r@ =~= spec_close_window(old(self)@).1);
                }
                r
            },
        }
    }

    fn open_tab(&mut self) -> (r: Vec<Command>)
        requires
            old(self).new_terminal_id < u32::MAX,
        ensures
            final(self)@ == spec_open_tab(old(self)@).0,
            r@ == spec_open_tab(old(self)@).1,
    {
        let id = self.new_terminal_id;
        self.new_terminal_id = self.new_terminal_id + 1;
        self.tabs.push(id);
        self.selected_tab = id;
        let r = vec![Command::SpawnTab(id), Command::FocusTabSoon(id)];
        proof {
            assert(self@ =~= spec_open_tab(old(self)@).0);
            assert(r@ =~= spec_open_tab(old(self)@).1);
        }
        r
    }

    fn open_window(&mut self) -> (r: Vec<Command>)
        requires
            old(self).window is Closed ==> old(self).new_window_id < u64::MAX,
            (old(self).window is Closed && old(self).tabs@.len() == 0)
                ==> old(self).new_terminal_id < u32::MAX,
        ensures
            final(self)@ == spec_open_window(old(self)@).0,
            r@ == spec_open_window(old(self)@).1,
    {
        match self.window {
            WindowState::Open(h) => {
                let r = vec![Command::GainFocus(h)];
                proof {
                    assert(r@ =~= spec_open_window(old(self)@).1);
                }
                r
            },
            WindowState::Closed => {
                let h = self.new_window_id;
                self.new_window_id = self.new_window_id + 1;
                self.window = WindowState::Open(h);
                if self.tabs.len() == 0 {
                    let mut r = self.open_tab();
                    r.push(Command::OpenWindow(h));
                    proof {
                        assert(self@ =~= spec_open_window(old(self)@).0);
                        assert(r@ =~= spec_open_window(old(self)@).1);
                    }
                    r
                } else {
                    let r = vec![Command::OpenWindow(h)];
                    proof {
                        assert(self@ =~= spec_open_window(old(self)@).0);
                        assert(r@ =~= spec_open_window(old(self)@).1);
                    }
                    r
                }
            },
        }
    }

    fn close_tab(&mut self, id: u32) -> (r: Vec<Command>)
        ensures
            final(self)@ == spec_close_tab(old(self)@, id).0,
            r@ == spec_close_tab(old(self)@, id).1,
    {
        match find_first(&self.tabs, id) {
            None => {
                let r = Vec::new();
                proof {
                    assert(r@ =~= spec_close_tab(old(self)@, id).1);
                }
                r
            },
            Some(pos) => {
                proof {
                    assert(old(self)@.tabs.contains(id));
                    lemma_first_index_agrees(old(self)@.tabs, id, pos as int);
                }
                self.tabs.remove(pos);
                if self.tabs.len() > 0 {
                    let next = self.tabs[0];
                    self.selected_tab = next;
                    let r = vec![Command::FocusTabSoon(next)];
                    proof {
                        assert(self@ =~= spec_close_tab(old(self)@, id).0);
                        assert(r@ =~= spec_close_tab(old(self)@, id).1);
                    }
                    r
                } else {
                    let r = self.close_window();
                    proof {
                        assert(self@ =~= spec_close_tab(old(self)@, id).0);
                        assert(r@ =~= spec_close_tab(old(self)@, id).1);
                    }
                    r
                }
            },
        }
    }

    fn switch_tab(&mut self, id: u32) -> (r: Vec<Command>)
        ensures
            final(self)@ == spec_switch_tab(old(self)@, id).0,
            r@ == spec_switch_tab(old(self)@, id).1,
    {
        match find_first(&self.tabs, id) {
            Some(_) => {
                self.selected_tab = id;
                let r = vec![Command::FocusTabSoon(id)];
                proof {
                    assert(self@ =~= spec_switch_tab(old(self)@, id).0);
                    assert(r@ =~= spec_switch_tab(old(self)@, id).1);
                }
                r
            },
            None => {
                let r = Vec::new();
                proof {
                    assert(r@ =~= spec_switch_tab(old(self)@, id).1);
                }
                r
            },
        }
    }

    /// Process one unified message: step the state machine and return the
    /// commands the runtime must carry out, in order.
    pub fn update(&mut self, message: Message) -> (r: Vec<Command>)
        requires
            spec_may_open_tab(old(self)@, message) ==> old(self)@.new_terminal_id < u32::MAX
                as int,
            spec_may_open_window(old(self)@, message) ==> old(self)@.new_window_id < u64::MAX
                as int,
        ensures
            final(self)@ == spec_update(old(self)@, message).0,
            r@ == spec_update(old(self)@, message).1,
            wf(old(self)@) ==> wf(final(self)@),
    {
        let r = match message {
            Message::LocalTerminal { id, action } => {
                match find_first(&self.tabs, id) {
                    None => Vec::new(),
                    Some(_) => {
                        match action {
                            TerminalAction::Close => self.close_tab(id),
                            TerminalAction::Run => vec![Command::ForwardTask(id)],
                            TerminalAction::Idle => Vec::new(),
                        }
                    },
                }
            },
            Message::OpenTab => self.open_tab(),
            Message::SwitchTab(id) => self.switch_tab(id),
            Message::FocusTab(id) => {
                match find_first(&self.tabs, id) {
                    Some(_) => vec![Command::FocusTerminal(id)],
                    None => Vec::new(),
                }
            },
            Message::CloseTab(id) => self.close_tab(id),
            Message::Hotkey => {
                match self.window {
                    WindowState::Open(_) => self.close_window(),
                    WindowState::Closed => self.open_window(),
                }
            },
            Message::WindowOpened(h) => {
                match self.window {
                    WindowState::Open(_) => {
                        self.window = WindowState::Open(h);
                    },
                    WindowState::Closed => {},
                }
                match find_first(&self.tabs, self.selected_tab) {
                    Some(_) => vec![Command::GainFocus(h), Command::FocusTerminal(
                        self.selected_tab,
                    )],
                    None => vec![Command::GainFocus(h)],
                }
            },
            Message::CloseWindow => self.close_window(),
            Message::WindowClosed => {
                self.window = WindowState::Closed;
                Vec::new()
            },
            Message::Shutdown => vec![Command::Exit],
            Message::Dummy => Vec::new(),
        };
        proof {
            assert(self@ =~= spec_update(old(self)@, message).0);
            assert(r@ =~= spec_update(old(self)@, message).1);
            if wf(old(self)@) {
                lemma_update_preserves_wf(old(self)@, message);
            }
        }
        r
    }

    /// The open tab ids, in ascending order.
    pub fn tabs(&self) -> (r: Vec<u32>)
        ensures
            r@ == self@.tabs,
    {
        self.tabs.clone()
    }

    /// The selected tab, while any tab is open.
    pub fn current_tab(&self) -> (r: Option<u32>)
        ensures
            r == (if self@.tabs.len() > 0 {
                Some(self@.selected_tab)
            } else {
                Option::<u32>::None
            }),
    {
        if self.tabs.len() > 0 {
            Some(self.selected_tab)
        } else {
            None
        }
    }

    /// Whether the overlay window currently exists.
    pub fn is_open(&self) -> (r: bool)
        ensures
            r == (self@.window is Open),
    {
        match self.window {
            WindowState::Open(_) => true,
            WindowState::Closed => false,
        }
    }

    /// The handle of the overlay window, while it exists.
    pub fn window_handle(&self) -> (r: Option<u64>)
        ensures
            r == (match self@.window {
                WindowState::Open(h) => Some(h),
                WindowState::Closed => Option::<u64>::None,
            }),
    {
        match self.window {
            WindowState::Open(h) => Some(h),
            WindowState::Closed => None,
        }
    }

    /// The id the next opened tab will get.
    pub fn next_tab_id(&self) -> (r: u32)
        ensures
            r as int == self@.new_terminal_id,
    {
        self.new_terminal_id
    }

    /// The handle the next opened window will get.
    pub fn next_window_handle(&self) -> (r: u64)
        ensures
            r as int == self@.new_window_id,
    {
        self.new_window_id
    }

    /// The overlay window's title: whatever title the terminal engine
    /// reports for the selected tab, or the fixed application name while no
    /// selected tab exists to report one.
    pub fn title(&self, selected_title: Option<String>) -> (r: String)
        ensures
            selected_title matches Some(t) ==> r@ == t@,
            selected_title is None ==> r@ == "frozen_term"@,
    {
        match selected_title {
            Some(t) => t,
            None => "frozen_term".to_string(),
        }
    }
}

/// One controller step keeps the state well-formed, as long as the tab id
/// counter has room left when the step allocates (which the executable
/// controller's machine-word field always grants).
pub proof fn lemma_update_preserves_wf(s: StateView, m: Message)
    requires
        wf(s),
        spec_may_open_tab(s, m) ==> s.new_terminal_id < u32::MAX as int,
    ensures
        wf(spec_update(s, m).0),
{
    match m {
        Message::LocalTerminal { id, action } => {
            if s.tabs.contains(id) && action is Close {
                lemma_close_tab_preserves_wf(s, id);
            }
        },
        Message::OpenTab => {
            lemma_open_tab_preserves_wf(s);
        },
        Message::SwitchTab(id) => {},
        Message::FocusTab(id) => {},
        Message::CloseTab(id) => {
            lemma_close_tab_preserves_wf(s, id);
        },
        Message::Hotkey => {
            if s.window is Closed {
                let h = s.new_window_id as u64;
                let s1 = StateView {
                    window: WindowState::Open(h),
                    new_window_id: s.new_window_id + 1,
                    ..s
                };
                assert(wf(s1));
                if s.tabs.len() == 0 {
                    lemma_open_tab_preserves_wf(s1);
                }
            }
        },
        Message::WindowOpened(h) => {},
        Message::CloseWindow => {},
        Message::WindowClosed => {},
        Message::Shutdown => {},
        Message::Dummy => {},
    }
}

proof fn lemma_open_tab_preserves_wf(s: StateView)
    requires
        wf(s),
        s.new_terminal_id < u32::MAX as int,
    ensures
        wf(spec_open_tab(s).0),
{
    let id = s.new_terminal_id as u32;
    let tabs2 = s.tabs.push(id);
    assert(tabs2[tabs2.len() - 1] == id);
    assert(tabs2.contains(id));
    assert forall|i: int, j: int| 0 <= i < j < tabs2.len() implies tabs2[i] < tabs2[j] by {
        if j < tabs2.len() - 1 {
            assert(tabs2[i] == s.tabs[i] && tabs2[j] == s.tabs[j]);
        } else {
            assert(tabs2[j] == id);
            assert(tabs2[i] == s.tabs[i]);
            assert((s.tabs[i] as int) < s.new_terminal_id);
        }
    }
}

proof fn lemma_close_tab_preserves_wf(s: StateView, id: u32)
    requires
        wf(s),
    ensures
        wf(spec_close_tab(s, id).0),
{
    if s.tabs.contains(id) {
        lemma_first_index_agrees_exists(s.tabs, id);
        let fi = first_index_of(s.tabs, id);
        let tabs2 = s.tabs.remove(fi);
        assert(tabs2.len() == s.tabs.len() - 1);
        assert forall|j: int| 0 <= j < tabs2.len() implies tabs2[j] == (if j < fi {
            s.tabs[j]
        } else {
            s.tabs[j + 1]
        }) by {}
        assert forall|i: int, j: int| 0 <= i < j < tabs2.len() implies tabs2[i] < tabs2[j] by {}
        assert forall|j: int|
            0 <= j < tabs2.len() implies 1 <= #[trigger] tabs2[j] && (tabs2[j] as int)
                < s.new_terminal_id by {}
        if tabs2.len() > 0 {
            assert(tabs2.contains(tabs2[0]));
        }
    }
}

/// The message a key press inside the focused window produces, if any:
/// control+shift with the letter `t` (either case) opens a new tab. The
/// resolved toggle binding is handled by the global hotkey facility, not
/// here.
pub open spec fn spec_key_press_message(key: Key, mods: Modifiers) -> Option<Message> {
    if (key == Key::Character('t') || key == Key::Character('T')) && mods.control && mods.shift {
        Some(Message::OpenTab)
    } else {
        Option::<Message>::None
    }
}

/// Decide what an in-window key press means to the session.
pub fn key_press_message(key: Key, mods: Modifiers) -> (r: Option<Message>)
    ensures
        r == spec_key_press_message(key, mods),
{
    let is_t = match key {
        Key::Character(c) => c == 't' || c == 'T',
        _ => false,
    };
    if is_t && mods.control && mods.shift {
        Some(Message::OpenTab)
    } else {
        None
    }
}

/// A fresh session is well-formed; with `lemma_update_preserves_wf`, every
/// state a run of messages can reach from it is too.
pub proof fn lemma_init_wf(mode: HotkeyMode)
    ensures
        wf(spec_init(mode)),
{
}

/// The state after feeding `n` toggle messages, one after another.
pub open spec fn apply_toggles(s: StateView, n: nat) -> StateView
    decreases n,
{
    if n == 0 {
        s
    } else {
        spec_update(apply_toggles(s, (n - 1) as nat), Message::Hotkey).0
    }
}

/// Toggle parity: starting from a closed window, the window is open after a
/// run of toggles exactly when their number is odd. A first toggle over an
/// empty tab set also opens exactly one tab; after that, toggles leave the
/// tab set alone.
pub proof fn lemma_toggle_parity(s: StateView, n: nat)
    requires
        s.window is Closed,
    ensures
        (apply_toggles(s, n).window is Open) <==> (n % 2 == 1),
        s.tabs.len() == 0 ==> apply_toggles(s, n).tabs.len() == (if n == 0 {
            0int
        } else {
            1int
        }),
        s.tabs.len() > 0 ==> apply_toggles(s, n).tabs == s.tabs,
    decreases n,
{
    if n > 0 {
        lemma_toggle_parity(s, (n - 1) as nat);
    }
}

/// The state after feeding a whole run of messages, in order.
pub open spec fn apply_messages(s: StateView, msgs: Seq<Message>) -> StateView
    decreases msgs.len(),
{
    if msgs.len() == 0 {
        s
    } else {
        apply_messages(spec_update(s, msgs[0]).0, msgs.drop_first())
    }
}

/// No single step decreases the tab id allocation counter.
pub proof fn lemma_step_counter_monotone(s: StateView, m: Message)
    ensures
        spec_update(s, m).0.new_terminal_id >= s.new_terminal_id,
{
}

/// No run of messages decreases the tab id allocation counter.
pub proof fn lemma_counter_monotone(s: StateView, msgs: Seq<Message>)
    ensures
        apply_messages(s, msgs).new_terminal_id >= s.new_terminal_id,
    decreases msgs.len(),
{
    if msgs.len() > 0 {
        lemma_step_counter_monotone(s, msgs[0]);
        lemma_counter_monotone(spec_update(s, msgs[0]).0, msgs.drop_first());
    }
}

/// A transition that allocates hands out exactly the counter standing
/// before it: the new tab's id, appended at the end and selected, and the
/// counter moves past it.
pub proof fn lemma_allocated_id_is_counter(s: StateView, m: Message)
    requires
        spec_may_open_tab(s, m),
    ensures
        spec_update(s, m).0.tabs == s.tabs.push(s.new_terminal_id as u32),
        spec_update(s, m).0.selected_tab == s.new_terminal_id as u32,
        spec_update(s, m).0.new_terminal_id == s.new_terminal_id + 1,
{
}

/// Tab ids are allocated in strictly increasing order and never reused:
/// an allocation hands out the counter standing before it
/// (`lemma_allocated_id_is_counter`), so whenever one allocation happens
/// and, after any further run, another one does, the later transition's
/// counter — the id it hands out — is strictly greater than the earlier
/// one's.
pub proof fn lemma_tab_id_monotone(s: StateView, m1: Message, msgs: Seq<Message>)
    requires
        spec_may_open_tab(s, m1),
    ensures
        apply_messages(spec_update(s, m1).0, msgs).new_terminal_id > s.new_terminal_id,
{
    assert(spec_update(s, m1).0.new_terminal_id == s.new_terminal_id + 1);
    lemma_counter_monotone(spec_update(s, m1).0, msgs);
}

/// Closing an unknown tab id is a silent no-op: the state afterwards is the
/// state before, and no command is issued.
pub proof fn lemma_close_missing_tab_noop(s: StateView, id: u32)
    requires
        !s.tabs.contains(id),
    ensures
        spec_update(s, Message::CloseTab(id)).0 == s,
        spec_update(s, Message::CloseTab(id)).1 == Seq::<Command>::empty(),
{
}

/// Closing the last remaining tab empties the tab set and closes the
/// overlay window.
pub proof fn lemma_close_last_tab_closes_window(s: StateView, id: u32)
    requires
        s.tabs.len() == 1,
        s.tabs[0] == id,
    ensures
        spec_update(s, Message::CloseTab(id)).0.window is Closed,
        spec_update(s, Message::CloseTab(id)).0.tabs.len() == 0,
{
    assert(s.tabs.contains(id));
    assert(first_index_of(s.tabs, id) == 0);
}

/// Acknowledging the opened window always asks the backend to give it
/// focus; a focus command for the selected tab follows exactly when that
/// tab exists. The acknowledged handle is recorded on the open window; an
/// acknowledgement arriving after the window already closed is stale and
/// leaves the state alone.
pub proof fn lemma_window_opened_ack(s: StateView, h: u64)
    ensures
        spec_update(s, Message::WindowOpened(h)).1[0] == Command::GainFocus(h),
        spec_update(s, Message::WindowOpened(h)).1.len() == (if s.tabs.contains(s.selected_tab) {
            2int
        } else {
            1int
        }),
        s.tabs.contains(s.selected_tab) ==> spec_update(s, Message::WindowOpened(h)).1[1]
            == Command::FocusTerminal(s.selected_tab),
        s.window is Open ==> spec_update(s, Message::WindowOpened(h)).0 == (StateView {
            window: WindowState::Open(h),
            ..s
        }),
        s.window is Closed ==> spec_update(s, Message::WindowOpened(h)).0 == s,
{
}

/// Bridge: if `id` occurs in `tabs`, the first index the spec names is a
/// real position holding `id`.
proof fn lemma_first_index_agrees_exists(tabs: Seq<u32>, id: u32)
    requires
        tabs.contains(id),
    ensures
        0 <= first_index_of(tabs, id) < tabs.len(),
        tabs[first_index_of(tabs, id)] == id,
    decreases tabs.len(),
{
    if tabs[0] == id {
    } else {
        let k = choose|k: int| 0 <= k < tabs.len() && tabs[k] == id;
        assert(tabs.drop_first()[k - 1] == id);
        assert(tabs.drop_first().contains(id));
        lemma_first_index_agrees_exists(tabs.drop_first(), id);
        assert(tabs[first_index_of(tabs, id)] == tabs.drop_first()[first_index_of(
            tabs.drop_first(),
            id,
        )]);
    }
}

} // verus!
