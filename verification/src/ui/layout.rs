//! The windows of the game screen: which there are, where each goes and
//! which one is active. Turning a place into rows and columns, and drawing,
//! are the caller's part.

use crate::ui::menus::{next_index, previous_index};
use vstd::prelude::*;
use vstd::string::*;

verus! {

#[derive(Debug, Clone, Copy, PartialEq, Eq, Structural)]
pub enum WindowType {
    Scoreboard,
    LineupCards,
    PlayByPlay,
    Ballpark,
    BattingStats,
    PitchingStats,
    TeamStats,
    BoxScore,
    Scorecard,
    Menu,
    Dialog,
}

/// A rectangle of the terminal, in rows and columns from its upper left
/// corner.
#[derive(Debug, Clone, Copy, PartialEq, Eq, Structural)]
pub struct Area {
    pub x: u16,
    pub y: u16,
    pub width: u16,
    pub height: u16,
}

/// A part of the screen. The content lies between the menu bar and the
/// status line; its left side takes six tenths of the width, and the upper
/// part of either side four tenths of the height.
#[derive(Debug, Clone, Copy, PartialEq, Eq, Structural)]
pub enum Pane {
    MenuBar,
    UpperLeft,
    LowerLeft,
    UpperRight,
    LowerRight,
    /// The whole content, laid over the four main windows.
    Content,
}

impl WindowType {
    /// Where a window of this kind goes.
    pub open spec fn place(self) -> Pane {
        match self {
            WindowType::Ballpark => Pane::UpperLeft,
            WindowType::PlayByPlay => Pane::LowerLeft,
            WindowType::Scoreboard => Pane::UpperRight,
            WindowType::LineupCards => Pane::LowerRight,
            WindowType::Menu => Pane::MenuBar,
            _ => Pane::Content,
        }
    }

    pub fn pane(&self) -> (pane: Pane)
        ensures
            pane == self.place(),
    {
        match self {
            WindowType::Ballpark => Pane::UpperLeft,
            WindowType::PlayByPlay => Pane::LowerLeft,
            WindowType::Scoreboard => Pane::UpperRight,
            WindowType::LineupCards => Pane::LowerRight,
            WindowType::Menu => Pane::MenuBar,
            _ => Pane::Content,
        }
    }
}

/// One window of the screen. The active window is drawn with a highlighted
/// border.
#[derive(Debug, Clone)]
pub struct WindowLayout {
    pub window_type: WindowType,
    pub title: String,
    pub is_active: bool,
}

impl WindowLayout {
    pub fn new(window_type: WindowType, title: String) -> (window: Self)
        ensures
            window.window_type == window_type,
            window.title == title,
            !window.is_active,
    {
        Self { window_type, title, is_active: false }
    }

    pub fn with_active(self, active: bool) -> (window: Self)
        ensures
            window.window_type == self.window_type,
            window.title == self.title,
            window.is_active == active,
    {
        let mut window = self;
        window.is_active = active;
        window
    }
}

/// The same windows with the one at `active` marked active and no other.
pub open spec fn marked(windows: Seq<WindowLayout>, active: int) -> Seq<WindowLayout> {
    Seq::new(
        windows.len(),
        |i: int| WindowLayout { is_active: i == active, ..windows[i] },
    )
}

/// The windows of a screen, in the order in which they were added.
pub struct LayoutManager {
    /// The whole screen.
    pub size: Area,
    pub windows: Vec<WindowLayout>,
    pub active_window: usize,
}

impl LayoutManager {
    /// Exactly the window at `active_window` is marked active.
    pub open spec fn wf(&self) -> bool {
        self.windows@ == marked(self.windows@, self.active_window as int)
    }

    pub fn new(size: Area) -> (layout: Self)
        ensures
            layout.size == size,
            layout.windows@.len() == 0,
            layout.active_window == 0,
            layout.wf(),
    {
        let layout = Self { size, windows: Vec::new(), active_window: 0 };
        assert(layout.windows@ =~= marked(layout.windows@, 0));
        layout
    }

    /// Takes the new size of the screen. The windows stay as they are, with
    /// the one at the active place marked.
    pub fn update_size(&mut self, size: Area)
        ensures
            final(self).size == size,
            final(self).windows@ == marked(old(self).windows@, old(self).active_window as int),
            final(self).active_window == old(self).active_window,
            final(self).wf(),
    {
        self.size = size;
        self.update_active_states();
        assert(self.windows@ =~= marked(self.windows@, self.active_window as int));
    }

    /// Adds a window behind the others. It is the active one if its place in
    /// the order is the active place.
    pub fn add_window(&mut self, window_type: WindowType, title: String)
        ensures
            final(self).size == old(self).size,
            final(self).windows@ == marked(
                old(self).windows@.push(WindowLayout { window_type, title, is_active: false }),
                old(self).active_window as int,
            ),
            final(self).active_window == old(self).active_window,
            final(self).wf(),
    {
        self.windows.push(WindowLayout::new(window_type, title));
        self.update_active_states();
        proof {
            let pushed = old(self).windows@.push(
                WindowLayout { window_type, title, is_active: false },
            );
            assert(self.windows@ =~= marked(pushed, self.active_window as int));
            assert(self.windows@ =~= marked(self.windows@, self.active_window as int));
        }
    }

    pub fn get_windows(&self) -> (windows: &Vec<WindowLayout>)
        ensures
            windows == &self.windows,
    {
        &self.windows
    }

    /// The window at the active place, if there is one.
    pub fn get_active_window(&self) -> (window: Option<&WindowLayout>)
        ensures
            self.active_window < self.windows@.len() ==> window == Some(
                &self.windows@[self.active_window as int],
            ),
            self.active_window >= self.windows@.len() ==> window is None,
    {
        if self.active_window < self.windows.len() {
            Some(&self.windows[self.active_window])
        } else {
            None
        }
    }

    /// Makes the window at `index` the active one; an index past the last
    /// window changes nothing.
    pub fn set_active_window(&mut self, index: usize)
        ensures
            final(self).size == old(self).size,
            index < old(self).windows@.len() ==> {
                &&& final(self).active_window == index
                &&& final(self).windows@ == marked(old(self).windows@, index as int)
                &&& final(self).wf()
            },
            index >= old(self).windows@.len() ==> *final(self) == *old(self),
    {
        if index < self.windows.len() {
            self.active_window = index;
            self.update_active_states();
            assert(self.windows@ =~= marked(self.windows@, self.active_window as int));
        }
    }

    /// Makes the next window the active one, going round from the last to
    /// the first. Without windows nothing changes.
    pub fn next_window(&mut self)
        ensures
            final(self).size == old(self).size,
            old(self).windows@.len() > 0 ==> {
                &&& final(self).active_window == next_index(
                    old(self).windows@.len() as int,
                    old(self).active_window as int,
                )
                &&& final(self).windows@ == marked(
                    old(self).windows@,
                    final(self).active_window as int,
                )
                &&& final(self).wf()
            },
            old(self).windows@.len() == 0 ==> *final(self) == *old(self),
    {
        let count = self.windows.len();
        if count > 0 {
            self.active_window = if self.active_window < count - 1 {
                self.active_window + 1
            } else {
                0
            };
            self.update_active_states();
            assert(self.windows@ =~= marked(self.windows@, self.active_window as int));
        }
    }

    /// Makes the window before the active one the active one, going round
    /// from the first to the last. Without windows nothing changes.
    pub fn previous_window(&mut self)
        ensures
            final(self).size == old(self).size,
            old(self).windows@.len() > 0 ==> {
                &&& final(self).active_window == previous_index(
                    old(self).windows@.len() as int,
                    old(self).active_window as int,
                )
                &&& final(self).windows@ == marked(
                    old(self).windows@,
                    final(self).active_window as int,
                )
                &&& final(self).wf()
            },
            old(self).windows@.len() == 0 ==> *final(self) == *old(self),
    {
        let count = self.windows.len();
        if count > 0 {
            self.active_window = if self.active_window == 0 {
                count - 1
            } else {
                self.active_window - 1
            };
            self.update_active_states();
            assert(self.windows@ =~= marked(self.windows@, self.active_window as int));
        }
    }

    /// Marks the window at the active place active and every other window
    /// not.
    pub fn update_active_states(&mut self)
        ensures
            final(self).windows@ == marked(old(self).windows@, old(self).active_window as int),
            final(self).active_window == old(self).active_window,
            final(self).size == old(self).size,
    {
        let mut i: usize = 0;
        while i < self.windows.len()
            invariant
                i <= self.windows@.len(),
                self.windows@.len() == old(self).windows@.len(),
                self.active_window == old(self).active_window,
                self.size == old(self).size,
                forall|j: int|
                    0 <= j < i ==> self.windows@[j] == (WindowLayout {
                        is_active: j == self.active_window,
                        ..old(self).windows@[j]
                    }),
                forall|j: int| i <= j < self.windows@.len() ==> self.windows@[j] == old(
                    self,
                ).windows@[j],
            decreases self.windows@.len() - i,
        {
            self.windows[i].is_active = i == self.active_window;
            i = i + 1;
        }
        assert(self.windows@ =~= marked(old(self).windows@, old(self).active_window as int));
    }
}

/// The four main windows of the game screen, the ballpark active.
pub open spec fn default_windows() -> Seq<(WindowType, Seq<char>, bool)> {
    seq![
        (WindowType::Ballpark, "Ballpark"@, true),
        (WindowType::PlayByPlay, "Play-by-Play"@, false),
        (WindowType::Scoreboard, "Scoreboard"@, false),
        (WindowType::LineupCards, "Lineup Cards"@, false),
    ]
}

/// Lays out a screen of the given size with the four main windows.
pub fn create_default_layout(size: Area) -> (layout: LayoutManager)
    ensures
        layout.size == size,
        layout.active_window == 0,
        layout.wf(),
        layout.windows@.len() == 4,
        forall|i: int|
            0 <= i < 4 ==> (
            (#[trigger] layout.windows@[i]).window_type,
            layout.windows@[i].title@,
            layout.windows@[i].is_active,
        ) == default_windows()[i],
{
    let mut layout = LayoutManager::new(size);
    layout.add_window(WindowType::Ballpark, String::from_str("Ballpark"));
    layout.add_window(WindowType::PlayByPlay, String::from_str("Play-by-Play"));
    layout.add_window(WindowType::Scoreboard, String::from_str("Scoreboard"));
    layout.add_window(WindowType::LineupCards, String::from_str("Lineup Cards"));
    layout
}

} // verus!
