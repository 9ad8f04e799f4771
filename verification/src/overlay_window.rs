//! Bringing up the pair of windows that cover a display: the editor's window, and below it
//! the panel with the frozen picture. The panel is shown only once the editor's window can
//! take the input that cancels the capture.

use vstd::prelude::*;

use crate::capture_surface::{capture_overlay_title, overlay_title};

verus! {

/// Whether the window pair can be used.
#[derive(Clone, Copy)]
pub enum OverlayWindowReadiness {
    Ready,
    /// Not yet, for this reason.
    Pending(&'static str),
    Failed,
}

/// What is seen of the application and of its two windows.
#[derive(Clone, Copy, PartialEq, Eq, Structural)]
pub struct PairFacts {
    pub application_active: bool,
    pub window_key: bool,
    pub panel_visible: bool,
    pub panel_at_level: bool,
    pub panel_in_frame: bool,
    pub window_visible: bool,
    pub window_at_level: bool,
    pub window_in_frame: bool,
    pub panel_attached: bool,
    pub ignores_mouse: bool,
    pub content_view_is_first_responder: bool,
}

/// Whether the editor's window takes the keyboard: a window that was ready before need not
/// take it again.
pub fn overlay_input_target_is_ready(
    was_ready: bool,
    content_view_is_first_responder: bool,
) -> (ready: bool)
    ensures
        ready == (was_ready || content_view_is_first_responder),
{
    was_ready || content_view_is_first_responder
}

/// Whether the application is in front: once the window was ready, another application may
/// be.
pub fn overlay_activation_is_ready(
    was_ready: bool,
    application_is_active: bool,
    window_is_key: bool,
) -> (ready: bool)
    ensures
        ready == (was_ready || (application_is_active && window_is_key)),
{
    was_ready || (application_is_active && window_is_key)
}

/// The first thing that is amiss with the window pair.
pub open spec fn pending_reason(facts: PairFacts, was_ready: bool) -> Option<&'static str> {
    if !was_ready && !facts.application_active {
        Some("application_inactive")
    } else if !was_ready && !facts.window_key {
        Some("overlay_window_not_key")
    } else if !facts.panel_visible {
        Some("frozen_panel_invisible")
    } else if !facts.panel_at_level {
        Some("frozen_panel_wrong_level")
    } else if !facts.panel_in_frame {
        Some("frozen_panel_wrong_frame")
    } else if !facts.window_visible {
        Some("overlay_window_invisible")
    } else if !facts.window_at_level {
        Some("overlay_window_wrong_level")
    } else if !facts.window_in_frame {
        Some("overlay_window_wrong_frame")
    } else if !facts.panel_attached {
        Some("frozen_panel_detached")
    } else {
        None
    }
}

/// The first thing that is amiss with the window pair.
pub fn window_pair_pending_reason(facts: PairFacts, was_ready: bool) -> (reason: Option<
    &'static str,
>)
    ensures
        reason == pending_reason(facts, was_ready),
{
    if !overlay_activation_is_ready(was_ready, facts.application_active, facts.window_key) {
        if !facts.application_active {
            Some("application_inactive")
        } else {
            Some("overlay_window_not_key")
        }
    } else if !facts.panel_visible {
        Some("frozen_panel_invisible")
    } else if !facts.panel_at_level {
        Some("frozen_panel_wrong_level")
    } else if !facts.panel_in_frame {
        Some("frozen_panel_wrong_frame")
    } else if !facts.window_visible {
        Some("overlay_window_invisible")
    } else if !facts.window_at_level {
        Some("overlay_window_wrong_level")
    } else if !facts.window_in_frame {
        Some("overlay_window_wrong_frame")
    } else if !facts.panel_attached {
        Some("frozen_panel_detached")
    } else {
        None
    }
}

/// Whether the window pair is up and takes the mouse.
pub open spec fn pair_is_up(facts: PairFacts, was_ready: bool) -> bool {
    pending_reason(facts, was_ready) is None && !facts.ignores_mouse
}

/// Whether the window pair is up and takes the mouse.
pub fn window_pair_is_ready(facts: PairFacts, was_ready: bool) -> (ready: bool)
    ensures
        ready == pair_is_up(facts, was_ready),
{
    window_pair_pending_reason(facts, was_ready).is_none() && !facts.ignores_mouse
}

/// How far the windows have been brought up.
#[derive(Clone, Copy, PartialEq, Eq, Structural)]
pub enum PairStage {
    /// Nothing is known yet.
    Start,
    /// The editor's window is looked for.
    Acquiring,
    /// The windows are looked at.
    Inspecting,
    /// The editor's window is given its style.
    Styling,
    /// The editor's window is brought to the front.
    Activating,
    /// The panel is shown and the editor's window takes the keyboard.
    Focusing,
    /// The windows are looked at once more.
    Confirming,
    /// Nothing is left to do.
    Done,
}

/// What has been seen.
#[derive(Clone, Copy)]
pub enum PairInput {
    /// Whether this is the main thread, and whether the display has a screen.
    Began { main_thread: bool, screen: bool },
    /// Which window is the editor's.
    Acquired(WindowChoice),
    /// What is seen of the windows.
    Inspected(PairFacts),
    /// Whether the editor's window has a content view.
    Styled(bool),
    /// What is seen of the editor's window at the front.
    Activated { active: bool, visible: bool, key: bool },
    /// Whether the content view took the keyboard.
    Focused(bool),
    /// What is seen of the windows at the end.
    Confirmed(PairFacts),
}

/// What is taken from the screen.
#[derive(Clone, Copy, PartialEq, Eq, Structural)]
pub enum Conceal {
    Nothing,
    /// The panel.
    Panel,
    /// The panel, and the editor's window is put behind the others.
    Both,
    /// The panel, and the editor's window lets the mouse through.
    PanelAndMouse,
}

/// What is done next.
#[derive(Clone, Copy)]
pub enum PairAction {
    /// Look for the editor's window.
    Acquire,
    /// Let both windows be captured by other programs, and look at them.
    Inspect,
    /// Give the editor's window its style.
    Style,
    /// Place the editor's window and bring it to the front.
    Activate,
    /// Attach and show the panel, and let the content view take the keyboard.
    Focus,
    /// Look at the windows once more.
    Confirm,
    /// End: conceal what has to be, and let the editor's window take the mouse or not.
    Finish { conceal: Conceal, take_mouse: bool, readiness: OverlayWindowReadiness },
}

/// Bringing up the windows of one display.
#[derive(Clone, Copy, PartialEq, Eq, Structural)]
pub struct OverlayPair {
    /// Whether the windows were ready.
    pub ready: bool,
    pub stage: PairStage,
}

impl OverlayPair {
    /// Whether `input` is what this stage waits for.
    pub open spec fn expects(self, input: PairInput) -> bool {
        match self.stage {
            PairStage::Start => input is Began,
            PairStage::Acquiring => input is Acquired,
            PairStage::Inspecting => input is Inspected,
            PairStage::Styling => input is Styled,
            PairStage::Activating => input is Activated,
            PairStage::Focusing => input is Focused,
            PairStage::Confirming => input is Confirmed,
            PairStage::Done => false,
        }
    }

    /// The end, with the windows not ready for a reason.
    pub open spec fn retry(self, reason: &'static str) -> (OverlayPair, PairAction) {
        (
            OverlayPair { stage: PairStage::Done, ..self },
            PairAction::Finish {
                conceal: Conceal::PanelAndMouse,
                take_mouse: false,
                readiness: OverlayWindowReadiness::Pending(reason),
            },
        )
    }

    /// What follows from what has been seen.
    pub open spec fn stepped(self, input: PairInput) -> (OverlayPair, PairAction) {
        match input {
            PairInput::Began { main_thread, screen } => if !main_thread {
                (
                    OverlayPair { stage: PairStage::Done, ..self },
                    PairAction::Finish {
                        conceal: Conceal::Nothing,
                        take_mouse: false,
                        readiness: OverlayWindowReadiness::Failed,
                    },
                )
            } else if !screen {
                (
                    OverlayPair { ready: false, stage: PairStage::Done },
                    PairAction::Finish {
                        conceal: Conceal::Both,
                        take_mouse: false,
                        readiness: OverlayWindowReadiness::Failed,
                    },
                )
            } else {
                (OverlayPair { stage: PairStage::Acquiring, ..self }, PairAction::Acquire)
            },
            PairInput::Acquired(choice) => {
                let ready = self.ready && choice is Keep;
                if choice.has_window() {
                    (OverlayPair { ready, stage: PairStage::Inspecting }, PairAction::Inspect)
                } else {
                    (
                        OverlayPair { ready, stage: PairStage::Done },
                        PairAction::Finish {
                            conceal: Conceal::Panel,
                            take_mouse: false,
                            readiness: OverlayWindowReadiness::Pending(
                                "overlay_window_unavailable",
                            ),
                        },
                    )
                }
            },
            PairInput::Inspected(facts) => if self.ready && pair_is_up(facts, true) {
                (
                    OverlayPair { stage: PairStage::Done, ..self },
                    PairAction::Finish {
                        conceal: Conceal::Nothing,
                        take_mouse: true,
                        readiness: OverlayWindowReadiness::Ready,
                    },
                )
            } else {
                (OverlayPair { ready: false, stage: PairStage::Styling }, PairAction::Style)
            },
            PairInput::Styled(content_view) => if content_view {
                (OverlayPair { stage: PairStage::Activating, ..self }, PairAction::Activate)
            } else {
                self.retry("content_view_unavailable")
            },
            PairInput::Activated { active, visible, key } => if !active {
                self.retry("application_inactive")
            } else if !visible {
                self.retry("overlay_window_invisible")
            } else if !key {
                self.retry("overlay_window_not_key")
            } else {
                (OverlayPair { stage: PairStage::Focusing, ..self }, PairAction::Focus)
            },
            PairInput::Focused(accepted) => if accepted {
                (OverlayPair { stage: PairStage::Confirming, ..self }, PairAction::Confirm)
            } else {
                self.retry("first_responder_rejected")
            },
            PairInput::Confirmed(facts) => match pending_reason(facts, false) {
                Some(reason) => self.retry(reason),
                None => if !facts.content_view_is_first_responder {
                    self.retry("content_view_not_first_responder")
                } else {
                    (
                        OverlayPair { ready: true, stage: PairStage::Done },
                        PairAction::Finish {
                            conceal: Conceal::Nothing,
                            take_mouse: true,
                            readiness: OverlayWindowReadiness::Ready,
                        },
                    )
                },
            },
        }
    }

    /// The start of bringing up windows that were ready or not.
    pub fn new(ready: bool) -> (pair: Self)
        ensures
            pair == (OverlayPair { ready, stage: PairStage::Start }),
    {
        OverlayPair { ready, stage: PairStage::Start }
    }

    fn retry_for(&mut self, reason: &'static str) -> (action: PairAction)
        ensures
            (*final(self), action) == old(self).retry(reason),
    {
        self.stage = PairStage::Done;
        PairAction::Finish {
            conceal: Conceal::PanelAndMouse,
            take_mouse: false,
            readiness: OverlayWindowReadiness::Pending(reason),
        }
    }

    /// One step in bringing up the windows: takes in what has been seen and says what is
    /// done next.
    pub fn configure_active_window_pair(&mut self, input: PairInput) -> (action: PairAction)
        requires
            old(self).expects(input),
        ensures
            (*final(self), action) == old(self).stepped(input),
    {
        match input {
            PairInput::Began { main_thread, screen } => {
                if !main_thread {
                    self.stage = PairStage::Done;
                    return PairAction::Finish {
                        conceal: Conceal::Nothing,
                        take_mouse: false,
                        readiness: OverlayWindowReadiness::Failed,
                    };
                }
                if !screen {
                    self.ready = false;
                    self.stage = PairStage::Done;
                    return PairAction::Finish {
                        conceal: Conceal::Both,
                        take_mouse: false,
                        readiness: OverlayWindowReadiness::Failed,
                    };
                }
                self.stage = PairStage::Acquiring;
                PairAction::Acquire
            },
            PairInput::Acquired(choice) => {
                match choice {
                    WindowChoice::Keep => {},
                    WindowChoice::Replace { index, demote: _ } => {
                        self.ready = false;
                        if index.is_none() {
                            self.stage = PairStage::Done;
                            return PairAction::Finish {
                                conceal: Conceal::Panel,
                                take_mouse: false,
                                readiness: OverlayWindowReadiness::Pending(
                                    "overlay_window_unavailable",
                                ),
                            };
                        }
                    },
                }
                self.stage = PairStage::Inspecting;
                PairAction::Inspect
            },
            PairInput::Inspected(facts) => {
                if self.ready && window_pair_is_ready(facts, true) && overlay_input_target_is_ready(
                    true,
                    facts.content_view_is_first_responder,
                ) {
                    self.stage = PairStage::Done;
                    return PairAction::Finish {
                        conceal: Conceal::Nothing,
                        take_mouse: true,
                        readiness: OverlayWindowReadiness::Ready,
                    };
                }
                self.ready = false;
                self.stage = PairStage::Styling;
                PairAction::Style
            },
            PairInput::Styled(content_view) => {
                if !content_view {
                    return self.retry_for("content_view_unavailable");
                }
                self.stage = PairStage::Activating;
                PairAction::Activate
            },
            PairInput::Activated { active, visible, key } => {
                if !active {
                    return self.retry_for("application_inactive");
                }
                if !visible {
                    return self.retry_for("overlay_window_invisible");
                }
                if !key {
                    return self.retry_for("overlay_window_not_key");
                }
                self.stage = PairStage::Focusing;
                PairAction::Focus
            },
            PairInput::Focused(accepted) => {
                if !accepted {
                    return self.retry_for("first_responder_rejected");
                }
                self.stage = PairStage::Confirming;
                PairAction::Confirm
            },
            PairInput::Confirmed(facts) => {
                if let Some(reason) = window_pair_pending_reason(facts, false) {
                    return self.retry_for(reason);
                }
                if !overlay_input_target_is_ready(false, facts.content_view_is_first_responder) {
                    return self.retry_for("content_view_not_first_responder");
                }
                self.ready = true;
                self.stage = PairStage::Done;
                PairAction::Finish {
                    conceal: Conceal::Nothing,
                    take_mouse: true,
                    readiness: OverlayWindowReadiness::Ready,
                }
            },
        }
    }
}

/// Whether the windows of the active display can be used, where they need no bringing up.
pub fn configure_active_overlay_window(active_display_id: Option<u32>) -> (readiness:
    OverlayWindowReadiness)
    ensures
        match active_display_id {
            Some(_) => readiness is Ready,
            None => readiness is Failed,
        },
{
    match active_display_id {
        Some(_) => OverlayWindowReadiness::Ready,
        None => OverlayWindowReadiness::Failed,
    }
}

/// The window that was used for a display: its title, and its place among the
/// application's windows, where it is still there.
pub struct RetainedWindow {
    pub title: String,
    pub index: Option<usize>,
}

/// Which window is used for a display.
#[derive(Clone, Copy, PartialEq, Eq, Structural)]
pub enum WindowChoice {
    /// The one that was used.
    Keep,
    /// Another one, or none; the one that was used is put behind the others.
    Replace { index: Option<usize>, demote: bool },
}

impl WindowChoice {
    /// Whether there is a window.
    pub open spec fn has_window(self) -> bool {
        match self {
            WindowChoice::Keep => true,
            WindowChoice::Replace { index, .. } => index is Some,
        }
    }
}

/// Whether a window that was used for a display still is its window.
pub open spec fn still_current(
    retained: Option<RetainedWindow>,
    titles: Seq<String>,
    title: Seq<char>,
) -> bool {
    &&& retained matches Some(window)
    &&& window.title@ == title
    &&& window.index matches Some(index)
    &&& index < titles.len()
    &&& titles[index as int]@ == title
}

/// Whether `index` is the first window with a title, where there is one.
pub open spec fn first_titled(titles: Seq<String>, title: Seq<char>, index: Option<usize>) -> bool {
    match index {
        Some(index) => {
            &&& index < titles.len()
            &&& titles[index as int]@ == title
            &&& forall|i: int| 0 <= i < index ==> (#[trigger] titles[i])@ != title
        },
        None => forall|i: int| 0 <= i < titles.len() ==> (#[trigger] titles[i])@ != title,
    }
}

/// Which window is used for a display, given the titles of all windows.
pub fn acquire_overlay_window(
    display_id: u32,
    titles: &Vec<String>,
    retained: &Option<RetainedWindow>,
) -> (choice: WindowChoice)
    ensures
        if still_current(*retained, titles@, overlay_title(display_id)) {
            choice == WindowChoice::Keep
        } else {
            &&& choice matches WindowChoice::Replace { index, demote }
            &&& demote == (retained is Some)
            &&& first_titled(titles@, overlay_title(display_id), index)
        },
{
    let title = capture_overlay_title(display_id);
    let mut demote = false;
    if let Some(window) = retained {
        demote = true;
        if window.title == title {
            if let Some(index) = window.index {
                if index < titles.len() {
                    if titles[index] == title {
                        return WindowChoice::Keep;
                    }
                }
            }
        }
    }
    for i in 0..titles.len()
        invariant
            title@ == overlay_title(display_id),
            demote == (retained is Some),
            !still_current(*retained, titles@, overlay_title(display_id)),
            forall|j: int| 0 <= j < i ==> (#[trigger] titles@[j])@ != title@,
    {
        if titles[i] == title {
            return WindowChoice::Replace { index: Some(i), demote };
        }
    }
    WindowChoice::Replace { index: None, demote }
}

/// The panel is shown only while the editor's window takes the mouse: wherever bringing up
/// ends without it, what was shown is concealed, or nothing was.
pub proof fn law_ready_windows_take_the_mouse(pair: OverlayPair, input: PairInput)
    requires
        pair.expects(input),
    ensures
        pair.stepped(input).1 matches PairAction::Finish { conceal, take_mouse, readiness } ==> {
            &&& take_mouse <==> readiness is Ready
            &&& readiness is Pending ==> conceal == Conceal::Panel || conceal
                == Conceal::PanelAndMouse
            &&& readiness is Ready ==> conceal == Conceal::Nothing && pair.stepped(input).0.ready
        },
{
}

/// A window that takes the place of another has to be brought up from the start, however
/// ready the other was: no step before the keyboard was taken reports it as ready.
pub proof fn law_a_replaced_window_is_not_ready(
    pair: OverlayPair,
    choice: WindowChoice,
    facts: PairFacts,
)
    requires
        pair.stage == PairStage::Acquiring,
        choice is Replace,
    ensures
        !pair.stepped(PairInput::Acquired(choice)).0.ready,
        ({
            let next = pair.stepped(PairInput::Acquired(choice)).0;
            next.stage == PairStage::Inspecting ==> next.stepped(
                PairInput::Inspected(facts),
            ).1 is Style
        }),
{
}

/// A window pair that was not ready becomes ready only with the application in front and
/// the keyboard taken.
pub proof fn law_first_readiness_needs_the_keyboard(pair: OverlayPair, input: PairInput)
    requires
        pair.expects(input),
        !pair.ready,
    ensures
        pair.stepped(input).0.ready ==> {
            &&& input matches PairInput::Confirmed(facts)
            &&& facts.application_active
            &&& facts.window_key
            &&& facts.content_view_is_first_responder
        },
{
}

} // verus!
