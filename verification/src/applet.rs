//! The applet shell: the popup/settings state machine the host drives through
//! messages, and the decisions its view functions make on each redraw.

use vstd::prelude::*;
use crate::widget::{Length, WebViewWidget, webview};

verus! {

/// The panel edge the host anchors the applet to.
#[derive(Clone, Copy, Debug, PartialEq, Eq, Structural)]
pub enum PanelAnchor {
    /// The top edge.
    Top,
    /// The bottom edge.
    Bottom,
    /// The left edge.
    Left,
    /// The right edge.
    Right,
}

/// A window size constraint: bounds on width and height, in the host's
/// abstract size units.
#[derive(Clone, Copy, Debug, PartialEq, Eq, Structural)]
pub struct SizeRange {
    /// The least acceptable width.
    pub min_width: u32,
    /// The greatest acceptable width.
    pub max_width: u32,
    /// The least acceptable height.
    pub min_height: u32,
    /// The greatest acceptable height.
    pub max_height: u32,
}

/// The size constraints requested for the popup window.
pub open spec fn spec_popup_size_limits() -> SizeRange {
    SizeRange { min_width: 300, max_width: 372, min_height: 200, max_height: 1080 }
}

/// The size constraints requested for the popup window.
pub fn popup_size_limits() -> (r: SizeRange)
    ensures
        r == spec_popup_size_limits(),
{
    SizeRange { min_width: 300, max_width: 372, min_height: 200, max_height: 1080 }
}

/// The size constraints the main panel surface is held to.
pub open spec fn spec_main_window_limits() -> SizeRange {
    SizeRange { min_width: 360, max_width: 420, min_height: 200, max_height: 600 }
}

/// The size constraints the main panel surface is held to.
pub fn main_window_limits() -> (r: SizeRange)
    ensures
        r == spec_main_window_limits(),
{
    SizeRange { min_width: 360, max_width: 420, min_height: 200, max_height: 600 }
}

/// A message the host delivers to the applet.
#[derive(Clone, Copy, Debug, PartialEq, Eq, Structural)]
pub enum Message {
    /// The panel button was pressed: open the popup, or close the open one.
    TogglePopup,
    /// The host reports that the popup with the given identifier was closed.
    PopupClosed(u64),
    /// The settings row toggler was set to the given value.
    ToggleExampleRow(bool),
}

/// The work the applet asks the host to perform after handling a message.
#[derive(Clone, Copy, Debug, PartialEq, Eq, Structural)]
pub enum Action {
    /// Create a popup window under the given identifier, within the given
    /// size constraints.
    CreatePopup {
        /// The identifier the popup is stored and later destroyed under.
        id: u64,
        /// The size constraints the popup is requested with.
        limits: SizeRange,
    },
    /// Destroy the popup window with the given identifier.
    DestroyPopup(u64),
    /// No work.
    NoWork,
}

/// The applet's own state: the identifier of the open popup, if one is open,
/// and the settings row flag.
#[derive(Debug)]
pub struct YourApp {
    /// The identifier of the currently open popup, or `None` when closed.
    pub popup: Option<u64>,
    /// The example settings row toggler value.
    pub example_row: bool,
}

/// One step of the state machine: the state after handling `message`, and the
/// work the host is asked to do. `fresh_id` is the identifier a newly opened
/// popup is stored under; it is only read when a popup is opened.
pub open spec fn spec_update(s: YourApp, message: Message, fresh_id: u64) -> (YourApp, Action) {
    match message {
        Message::TogglePopup => match s.popup {
            Some(p) => (
                YourApp { popup: None, example_row: s.example_row },
                Action::DestroyPopup(p),
            ),
            None => (
                YourApp { popup: Some(fresh_id), example_row: s.example_row },
                Action::CreatePopup { id: fresh_id, limits: spec_popup_size_limits() },
            ),
        },
        Message::PopupClosed(id) => if s.popup == Some(id) {
            (YourApp { popup: None, example_row: s.example_row }, Action::NoWork)
        } else {
            (s, Action::NoWork)
        },
        Message::ToggleExampleRow(v) => (
            YourApp { popup: s.popup, example_row: v },
            Action::NoWork,
        ),
    }
}

impl Default for YourApp {
    /// The state at process start: no popup open, flag off.
    fn default() -> (r: Self)
        ensures
            r.popup is None,
            !r.example_row,
    {
        YourApp { popup: None, example_row: false }
    }
}

impl YourApp {
    /// The state the host starts the applet in.
    pub fn init() -> (r: Self)
        ensures
            r.popup is None,
            !r.example_row,
    {
        YourApp::default()
    }

    /// The message the applet answers a host close request with.
    pub fn on_close_requested(&self, id: u64) -> (r: Option<Message>)
        ensures
            r == Some(Message::PopupClosed(id)),
    {
        Some(Message::PopupClosed(id))
    }

    /// Handles one host message and returns the work the host should perform.
    pub fn update(&mut self, message: Message, fresh_id: u64) -> (r: Action)
        ensures
            ({
                let (s2, a) = spec_update(*old(self), message, fresh_id);
                *final(self) == s2 && r == a
            }),
    {
        match message {
            Message::TogglePopup => match self.popup {
                Some(p) => {
                    self.popup = None;
                    Action::DestroyPopup(p)
                },
                None => {
                    self.popup = Some(fresh_id);
                    Action::CreatePopup { id: fresh_id, limits: popup_size_limits() }
                },
            },
            Message::PopupClosed(id) => {
                if let Some(p) = self.popup {
                    if p == id {
                        self.popup = None;
                    }
                }
                Action::NoWork
            },
            Message::ToggleExampleRow(v) => {
                self.example_row = v;
                Action::NoWork
            },
        }
    }
}

/// The inline HTML source of the CPU pane.
pub open spec fn cpu_pane_source() -> Seq<char> {
    "data:text/html,<html><body style='margin:0;padding:4px;background:#333;color:white;font-family:sans-serif;font-size:11px;'>CPU: 45%</body></html>"@
}

/// The inline HTML source of the RAM pane.
pub open spec fn ram_pane_source() -> Seq<char> {
    "data:text/html,<html><body style='margin:0;padding:4px;background:#333;color:white;font-family:sans-serif;font-size:11px;'>RAM: 2.1GB</body></html>"@
}

/// The inline HTML source of the network pane.
pub open spec fn net_pane_source() -> Seq<char> {
    "data:text/html,<html><body style='margin:0;padding:4px;background:#333;color:white;font-family:sans-serif;font-size:11px;'>\u{2193}125MB/s</body></html>"@
}

/// Whether the panel sits on a horizontal edge, so that the panes are laid
/// out in a row rather than a column.
pub fn is_horizontal(anchor: &PanelAnchor) -> (r: bool)
    ensures
        r == (anchor is Top || anchor is Bottom),
{
    match anchor {
        PanelAnchor::Top => true,
        PanelAnchor::Bottom => true,
        PanelAnchor::Left => false,
        PanelAnchor::Right => false,
    }
}

/// The button padding pair for the given orientation: the host-suggested
/// padding goes on the sides across the panel's long axis.
pub fn button_padding(horizontal: bool, suggested: u32) -> (r: (u32, u32))
    ensures
        horizontal ==> r == (0u32, suggested),
        !horizontal ==> r == (suggested, 0u32),
{
    if horizontal {
        (0, suggested)
    } else {
        (suggested, 0)
    }
}

/// What one redraw of the main panel surface shows: the three metric panes in
/// a row or a column, wrapped in a button that toggles the popup, within the
/// main surface size constraints.
pub struct ViewPlan {
    /// Whether the panes form a row (on a horizontal panel) or a column.
    pub horizontal: bool,
    /// The three placeholder metric panes, in order: CPU, RAM, network.
    pub panes: Vec<WebViewWidget>,
    /// The message the wrapping button sends when pressed.
    pub on_press: Message,
    /// The size constraints the surface is held to.
    pub limits: SizeRange,
}

/// What one redraw of the popup window shows: the settings row toggler state.
#[derive(Clone, Copy, Debug)]
pub struct PopupPlan {
    /// The value the settings row toggler is drawn with.
    pub toggler_on: bool,
}

/// The static label shown under the settings row in the popup.
pub fn placeholder_label() -> (r: &'static str)
    ensures
        r@ == "WebView Placeholder (https://example.com)"@,
{
    "WebView Placeholder (https://example.com)"
}

impl YourApp {
    /// The main panel view: three fill-sized panes over the fixed metric
    /// sources, in a row or a column as the anchor dictates, behind a button
    /// that toggles the popup.
    pub fn view(&self, anchor: PanelAnchor) -> (r: ViewPlan)
        ensures
            r.horizontal == (anchor is Top || anchor is Bottom),
            r.panes@.len() == 3,
            r.panes@[0].url@ == cpu_pane_source(),
            r.panes@[1].url@ == ram_pane_source(),
            r.panes@[2].url@ == net_pane_source(),
            forall|i: int|
                0 <= i < 3 ==> (#[trigger] r.panes@[i]).width == Length::Fill && r.panes@[
                    i
                ].height == Length::Fill,
            r.on_press == Message::TogglePopup,
            r.limits == spec_main_window_limits(),
    {
        let horizontal = is_horizontal(&anchor);
        let mut panes: Vec<WebViewWidget> = Vec::new();
        panes.push(
            webview(
                "data:text/html,<html><body style='margin:0;padding:4px;background:#333;color:white;font-family:sans-serif;font-size:11px;'>CPU: 45%</body></html>",
            ).width(Length::Fill).height(Length::Fill),
        );
        panes.push(
            webview(
                "data:text/html,<html><body style='margin:0;padding:4px;background:#333;color:white;font-family:sans-serif;font-size:11px;'>RAM: 2.1GB</body></html>",
            ).width(Length::Fill).height(Length::Fill),
        );
        panes.push(
            webview(
                "data:text/html,<html><body style='margin:0;padding:4px;background:#333;color:white;font-family:sans-serif;font-size:11px;'>\u{2193}125MB/s</body></html>",
            ).width(Length::Fill).height(Length::Fill),
        );
        ViewPlan { horizontal, panes, on_press: Message::TogglePopup, limits: main_window_limits() }
    }

    /// The popup view: the settings row toggler drawn with the current flag.
    pub fn view_window(&self) -> (r: PopupPlan)
        ensures
            r.toggler_on == self.example_row,
    {
        PopupPlan { toggler_on: self.example_row }
    }
}

/// Toggling from the closed state opens a popup under the given fresh
/// identifier; toggling again destroys exactly that popup and clears the
/// stored identifier; the settings flag is untouched throughout.
pub proof fn lemma_popup_toggle_cycle(s: YourApp, id1: u64, id2: u64)
    requires
        s.popup is None,
    ensures
        ({
            let (s1, a1) = spec_update(s, Message::TogglePopup, id1);
            let (s2, a2) = spec_update(s1, Message::TogglePopup, id2);
            &&& s1.popup == Some(id1)
            &&& a1 == (Action::CreatePopup { id: id1, limits: spec_popup_size_limits() })
            &&& s1.example_row == s.example_row
            &&& s2.popup is None
            &&& a2 == Action::DestroyPopup(id1)
            &&& s2.example_row == s.example_row
        }),
{
}

/// A close notification carrying an identifier other than the stored one
/// leaves the state unchanged and asks for no work.
pub proof fn lemma_stale_close_ignored(s: YourApp, stale: u64, fresh_id: u64)
    requires
        s.popup is Some,
        s.popup != Some(stale),
    ensures
        spec_update(s, Message::PopupClosed(stale), fresh_id).0 == s,
        spec_update(s, Message::PopupClosed(stale), fresh_id).1 == Action::NoWork,
{
}

/// Setting the settings flag and then setting it back to its old value
/// restores the state exactly; neither step touches the popup or asks the
/// host for any work.
pub proof fn lemma_toggle_flag_round_trip(s: YourApp, v: bool, fresh_id: u64)
    ensures
        ({
            let (s1, a1) = spec_update(s, Message::ToggleExampleRow(v), fresh_id);
            let (s2, a2) = spec_update(s1, Message::ToggleExampleRow(s.example_row), fresh_id);
            &&& s1.example_row == v
            &&& s1.popup == s.popup
            &&& a1 == Action::NoWork
            &&& s2 == s
            &&& a2 == Action::NoWork
        }),
{
}

} // verus!
