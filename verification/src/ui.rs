//! The caption window's geometry and its reactions to pipeline messages and
//! to the play button.
use vstd::prelude::*;

use crate::pipeline::PipelineMsg;

verus! {

/// Narrowest and widest caption, in characters per line.
pub const MIN_LINE_WIDTH: i32 = 10;

pub const MAX_LINE_WIDTH: i32 = 200;

/// The configured line width brought into `10..=200`.
pub fn clamp_line_width(line_width: i32) -> (r: i32)
    ensures
        r == if line_width < MIN_LINE_WIDTH {
            MIN_LINE_WIDTH
        } else if line_width > MAX_LINE_WIDTH {
            MAX_LINE_WIDTH
        } else {
            line_width
        },
{
    if line_width < MIN_LINE_WIDTH {
        MIN_LINE_WIDTH
    } else if line_width > MAX_LINE_WIDTH {
        MAX_LINE_WIDTH
    } else {
        line_width
    }
}

/// Sizes derived from the measured width and line height of a caption line.
#[derive(Debug)]
pub struct CaptionSize {
    /// Height of the caption label: two lines plus a small margin.
    pub caption_height: i32,
    /// Default window width: the caption plus room for the side buttons.
    pub window_width: i32,
    /// Default window height: the caption plus a margin.
    pub window_height: i32,
}

/// The caption and window sizes for a caption line `caption_width` pixels wide
/// and `line_height` pixels high.
pub fn caption_size(caption_width: i32, line_height: i32) -> (r: CaptionSize)
    requires
        caption_width + 80 <= i32::MAX,
        caption_width + 80 >= i32::MIN,
        line_height * 2 + 24 <= i32::MAX,
        line_height * 2 >= i32::MIN,
    ensures
        r.caption_height == line_height * 2 + 4,
        r.window_width == caption_width + 80,
        r.window_height == line_height * 2 + 24,
{
    let caption_height = line_height * 2 + 4;
    CaptionSize { caption_height, window_width: caption_width + 80, window_height: caption_height + 20 }
}

/// Placeholder shown while no caption is available.
pub const PLACEHOLDER_TEXT: &'static str = "等待音频输入…";

/// Shown while the model loads.
pub const LOADING_TEXT: &'static str = "加载模型中…";

/// One of the two caption labels; captions alternate between them so that each
/// change cross-fades.
#[derive(Clone, Copy, Debug, PartialEq, Eq, Structural)]
pub enum CaptionTab {
    A,
    B,
}

/// Which page of the caption area is visible.
#[derive(Clone, Copy, Debug, PartialEq, Eq, Structural)]
pub enum CaptionPage {
    /// The "listening" hint.
    Listening,
    /// The captions.
    Caption,
}

/// Changes the window makes in reaction to a pipeline message.
#[derive(Debug)]
pub struct CaptionUpdate {
    /// New text for one of the labels.
    pub text: Option<(CaptionTab, String)>,
    /// Label to show, if it changes.
    pub show_tab: Option<CaptionTab>,
    pub page: CaptionPage,
    /// Whether the caption is revealed, if it changes.
    pub reveal: Option<bool>,
    /// The pipeline failed: stop it and stop listening.
    pub stop: bool,
}

/// What the caption window shows and whether it is listening.
pub struct CaptionBoard {
    listening: bool,
    active: CaptionTab,
}

/// Abstract state of a [`CaptionBoard`].
pub struct BoardView {
    pub listening: bool,
    pub active: CaptionTab,
}

impl View for CaptionBoard {
    type V = BoardView;

    closed spec fn view(&self) -> BoardView {
        BoardView { listening: self.listening, active: self.active }
    }
}

/// The other label.
pub open spec fn other_tab(t: CaptionTab) -> CaptionTab {
    match t {
        CaptionTab::A => CaptionTab::B,
        CaptionTab::B => CaptionTab::A,
    }
}

impl CaptionBoard {
    /// Not listening, first label active.
    pub fn new() -> (r: CaptionBoard)
        ensures
            !r@.listening,
            r@.active == CaptionTab::A,
    {
        CaptionBoard { listening: false, active: CaptionTab::A }
    }

    /// Whether the window is listening.
    pub fn is_listening(&self) -> (r: bool)
        ensures
            r == self@.listening,
    {
        self.listening
    }

    /// The play button was pressed: starts listening (showing the listening hint)
    /// or stops (both labels show the placeholder, the first is shown, the caption
    /// hidden). Returns whether it is now listening.
    pub fn toggle(&mut self) -> (r: bool)
        ensures
            r == !old(self)@.listening,
            final(self)@.listening == r,
            r ==> final(self)@.active == old(self)@.active,
            !r ==> final(self)@.active == CaptionTab::A,
    {
        if self.listening {
            self.listening = false;
            self.active = CaptionTab::A;
        } else {
            self.listening = true;
        }
        self.listening
    }

    /// The settings changed: a running pipeline is stopped, so that the next start
    /// uses them. Returns whether it was listening (and the window must reset).
    pub fn settings_changed(&mut self) -> (r: bool)
        ensures
            r == old(self)@.listening,
            !final(self)@.listening,
            final(self)@.active == old(self)@.active,
    {
        let was = self.listening;
        self.listening = false;
        was
    }

    /// Reacts to a pipeline message: loading and errors are shown on the first
    /// label; each caption goes to the label not shown, which is then shown; an
    /// error also stops listening.
    pub fn on_message(&mut self, msg: PipelineMsg) -> (r: CaptionUpdate)
        ensures
            match msg {
                PipelineMsg::Loading => {
                    &&& r.text matches Some((t, s)) && t == CaptionTab::A && s@ == LOADING_TEXT@
                    &&& r.show_tab == Some(CaptionTab::A)
                    &&& r.page == CaptionPage::Caption
                    &&& r.reveal == Some(true)
                    &&& !r.stop
                    &&& final(self)@ == (BoardView { active: CaptionTab::A, ..old(self)@ })
                },
                PipelineMsg::Ready => {
                    &&& r.text.is_none()
                    &&& r.show_tab.is_none()
                    &&& r.page == CaptionPage::Listening
                    &&& r.reveal.is_none()
                    &&& !r.stop
                    &&& final(self)@ == old(self)@
                },
                PipelineMsg::Text(text) => {
                    let next = other_tab(old(self)@.active);
                    &&& r.text matches Some((t, s)) && t == next && s@ == text@
                    &&& r.show_tab == Some(next)
                    &&& r.page == CaptionPage::Caption
                    &&& r.reveal == Some(true)
                    &&& !r.stop
                    &&& final(self)@ == (BoardView { active: next, ..old(self)@ })
                },
                PipelineMsg::Error(e) => {
                    &&& r.text matches Some((t, s)) && t == CaptionTab::A && s@ == e@
                    &&& r.show_tab == Some(CaptionTab::A)
                    &&& r.page == CaptionPage::Caption
                    &&& r.reveal == Some(true)
                    &&& r.stop
                    &&& final(self)@ == (BoardView { active: CaptionTab::A, listening: false })
                },
            },
    {
        match msg {
            PipelineMsg::Loading => {
                self.active = CaptionTab::A;
                CaptionUpdate {
                    text: Some((CaptionTab::A, String::from_str(LOADING_TEXT))),
                    show_tab: Some(CaptionTab::A),
                    page: CaptionPage::Caption,
                    reveal: Some(true),
                    stop: false,
                }
            },
            PipelineMsg::Ready => CaptionUpdate {
                text: None,
                show_tab: None,
                page: CaptionPage::Listening,
                reveal: None,
                stop: false,
            },
            PipelineMsg::Text(text) => {
                let next = match self.active {
                    CaptionTab::A => CaptionTab::B,
                    CaptionTab::B => CaptionTab::A,
                };
                self.active = next;
                CaptionUpdate {
                    text: Some((next, text)),
                    show_tab: Some(next),
                    page: CaptionPage::Caption,
                    reveal: Some(true),
                    stop: false,
                }
            },
            PipelineMsg::Error(e) => {
                self.active = CaptionTab::A;
                self.listening = false;
                CaptionUpdate {
                    text: Some((CaptionTab::A, e)),
                    show_tab: Some(CaptionTab::A),
                    page: CaptionPage::Caption,
                    reveal: Some(true),
                    stop: true,
                }
            },
        }
    }
}

/// Two captions in a row are written to different labels, so each change
/// cross-fades from the shown label to the other one.
pub proof fn lemma_captions_alternate(t: CaptionTab)
    ensures
        other_tab(t) != t,
        other_tab(other_tab(t)) == t,
{
}

} // verus!
