//! The placeholder content widget: a leaf pane that, on each draw, either
//! paints a bare background rectangle or re-scans its inline HTML source and
//! paints the extracted body text over the rectangle.

use vstd::prelude::*;
use crate::extract::{chars_vec, extract_body_text, spec_body_text};

verus! {

/// A sizing policy for one axis of a widget.
#[derive(Clone, Copy, Debug, PartialEq, Eq, Structural)]
pub enum Length {
    /// Take all the space the host offers.
    Fill,
    /// Take a weighted share of the offered space.
    FillPortion(u16),
    /// Take as little space as possible.
    Shrink,
}

/// The sizing policies of a widget, one per axis.
#[derive(Clone, Copy, Debug, PartialEq, Eq, Structural)]
pub struct Size {
    /// The horizontal policy.
    pub width: Length,
    /// The vertical policy.
    pub height: Length,
}

/// What one render pass paints: always the dark background rectangle, plus the
/// extracted body text when the scan succeeds.
#[derive(Debug)]
pub enum DrawPlan {
    /// Only the background rectangle is painted.
    BackgroundOnly,
    /// The background rectangle with the given text painted over it.
    BackgroundAndText(Vec<char>),
}

/// A leaf pane standing in for an embedded browser view. It keeps its source
/// string and re-scans it on every draw.
#[derive(Debug)]
pub struct WebViewWidget {
    /// The horizontal sizing policy.
    pub width: Length,
    /// The vertical sizing policy.
    pub height: Length,
    /// The inline HTML source the pane renders.
    pub url: String,
}

impl WebViewWidget {
    /// A pane over the given source, filling both axes.
    pub fn new(url: &str) -> (r: Self)
        ensures
            r.url@ == url@,
            r.width == Length::Fill,
            r.height == Length::Fill,
    {
        WebViewWidget { width: Length::Fill, height: Length::Fill, url: url.to_owned() }
    }

    /// The same pane with the given width policy.
    pub fn width(self, width: Length) -> (r: Self)
        ensures
            r.width == width,
            r.height == self.height,
            r.url@ == self.url@,
    {
        WebViewWidget { width, height: self.height, url: self.url }
    }

    /// The same pane with the given height policy.
    pub fn height(self, height: Length) -> (r: Self)
        ensures
            r.height == height,
            r.width == self.width,
            r.url@ == self.url@,
    {
        WebViewWidget { width: self.width, height, url: self.url }
    }

    /// The pane's sizing policies.
    pub fn size(&self) -> (r: Size)
        ensures
            r.width == self.width,
            r.height == self.height,
    {
        Size { width: self.width, height: self.height }
    }

    /// The decision a draw call makes: paint only the background, or paint the
    /// text that the scan extracts from the source over it.
    pub fn draw_plan(&self) -> (r: DrawPlan)
        ensures
            match r {
                DrawPlan::BackgroundAndText(t) => spec_body_text(self.url@) == Some(t@),
                DrawPlan::BackgroundOnly => spec_body_text(self.url@) is None,
            },
    {
        let cs = chars_vec(self.url.as_str());
        match extract_body_text(&cs) {
            Some(t) => DrawPlan::BackgroundAndText(t),
            None => DrawPlan::BackgroundOnly,
        }
    }
}

/// A pane over the given source, filling both axes.
pub fn webview(url: &str) -> (r: WebViewWidget)
    ensures
        r.url@ == url@,
        r.width == Length::Fill,
        r.height == Length::Fill,
{
    WebViewWidget::new(url)
}

} // verus!
