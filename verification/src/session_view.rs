//! The session view: the state of the run and one line per hypothesis.
use vstd::prelude::*;

use crate::dock_view::{Color, DockId, DockView};
use crate::hyp::{Hyp, HypState};

verus! {

/// The session view.
pub struct SessionView;

/// What the user did with a hypothesis's line.
#[derive(Debug, Clone, Copy, PartialEq, Eq)]
pub enum HypUiAction {
    Selected,
}

/// How a hypothesis's line is drawn.
#[derive(Debug, Clone, Copy, PartialEq, Eq)]
pub enum HypDisplay {
    /// A button in this color, which selects the hypothesis when clicked.
    Button(Color),
    /// A label in this color, which cannot be selected.
    Label(Color),
}

/// The state of a session whose hypotheses are in `states`: running while
/// any runs, else failed if any failed, else unknown if there are none, else
/// passed.
pub open spec fn session_state_of(states: Seq<HypState>) -> HypState {
    if exists|i: int| 0 <= i < states.len() && states[i] == HypState::Running {
        HypState::Running
    } else if exists|i: int| 0 <= i < states.len() && states[i] == HypState::Failed {
        HypState::Failed
    } else if states.len() == 0 {
        HypState::Unknown
    } else {
        HypState::Passed
    }
}

/// The text and color that show the session's state.
pub open spec fn session_state_label(state: HypState) -> (Seq<char>, Color) {
    match state {
        HypState::Unknown => ("Idle"@, Color::Green),
        HypState::Running => ("Running"@, Color::Green),
        HypState::Failed => ("Failed"@, Color::Red),
        HypState::Passed => ("Passed"@, Color::Green),
    }
}

/// How a hypothesis in `state` is drawn: hypotheses with an outcome or
/// running are buttons in the color of their state; unknown ones are grey
/// labels.
pub open spec fn hyp_display(state: HypState) -> HypDisplay {
    match state {
        HypState::Failed => HypDisplay::Button(Color::Red),
        HypState::Passed => HypDisplay::Button(Color::Green),
        HypState::Unknown => HypDisplay::Label(Color::Gray),
        HypState::Running => HypDisplay::Button(Color::LightBlue),
    }
}

/// The position of the last `true` in `clicked`, if any.
pub open spec fn last_clicked(clicked: Seq<bool>) -> Option<int>
    decreases clicked.len(),
{
    if clicked.len() == 0 {
        None
    } else if clicked.last() {
        Some(clicked.len() - 1)
    } else {
        last_clicked(clicked.drop_last())
    }
}

impl SessionView {
    /// The state of a session whose hypotheses are in `states`.
    pub fn session_state(states: &[HypState]) -> (r: HypState)
        ensures
            r == session_state_of(states@),
    {
        let mut running = false;
        let mut failed = false;
        let mut i: usize = 0;
        while i < states.len()
            invariant
                i <= states@.len(),
                running == exists|k: int| 0 <= k < i && states@[k] == HypState::Running,
                failed == exists|k: int| 0 <= k < i && states@[k] == HypState::Failed,
            decreases states@.len() - i,
        {
            match states[i] {
                HypState::Running => running = true,
                HypState::Failed => failed = true,
                _ => {},
            }
            i = i + 1;
        }
        if running {
            HypState::Running
        } else if failed {
            HypState::Failed
        } else if states.len() == 0 {
            HypState::Unknown
        } else {
            HypState::Passed
        }
    }

    /// The text and color that show the session's state.
    pub fn session_state_label(state: HypState) -> (r: (String, Color))
        ensures
            r.0@ == session_state_label(state).0,
            r.1 == session_state_label(state).1,
    {
        match state {
            HypState::Unknown => (String::from_str("Idle"), Color::Green),
            HypState::Running => (String::from_str("Running"), Color::Green),
            HypState::Failed => (String::from_str("Failed"), Color::Red),
            HypState::Passed => (String::from_str("Passed"), Color::Green),
        }
    }

    /// How a hypothesis in `state` is drawn.
    pub fn hyp_display(state: HypState) -> (r: HypDisplay)
        ensures
            r == hyp_display(state),
    {
        match state {
            HypState::Failed => HypDisplay::Button(Color::Red),
            HypState::Passed => HypDisplay::Button(Color::Green),
            HypState::Unknown => HypDisplay::Label(Color::Gray),
            HypState::Running => HypDisplay::Button(Color::LightBlue),
        }
    }

    /// What clicking a hypothesis's line does: a button selects it, a label
    /// does nothing.
    pub fn hyp_action(state: HypState, clicked: bool) -> (r: Option<HypUiAction>)
        ensures
            r == (if clicked && hyp_display(state) is Button {
                Some(HypUiAction::Selected)
            } else {
                None
            }),
    {
        match Self::hyp_display(state) {
            HypDisplay::Button(_) => if clicked {
                Some(HypUiAction::Selected)
            } else {
                None
            },
            HypDisplay::Label(_) => None,
        }
    }

    /// The hypothesis selected in one frame, given for each line whether it
    /// was selected: the last selected one, if any.
    pub fn selection<'a>(hyps: &[&'a Hyp], selected: &[bool]) -> (r: Option<&'a Hyp>)
        requires
            hyps@.len() == selected@.len(),
        ensures
            match last_clicked(selected@) {
                Some(i) => r == Some(hyps@[i]),
                None => r is None,
            },
    {
        let mut result: Option<&'a Hyp> = None;
        let mut i: usize = 0;
        while i < hyps.len()
            invariant
                hyps@.len() == selected@.len(),
                i <= hyps@.len(),
                match last_clicked(selected@.take(i as int)) {
                    Some(k) => result == Some(hyps@[k]),
                    None => result is None,
                },
            decreases hyps@.len() - i,
        {
            proof {
                assert(selected@.take(i + 1).drop_last() =~= selected@.take(i as int));
                assert(selected@.take(i + 1).last() == selected@[i as int]);
            }
            if selected[i] {
                result = Some(hyps[i]);
            }
            i = i + 1;
        }
        proof {
            assert(selected@.take(i as int) =~= selected@);
        }
        result
    }
}

impl DockView for SessionView {
    open spec fn dock_id(&self) -> Seq<char> {
        "session_view"@
    }

    open spec fn dock_title(&self) -> Seq<char> {
        "Tests"@
    }

    fn id(&self) -> (r: DockId) {
        DockId::new("session_view")
    }

    fn title(&self) -> (r: String) {
        String::from_str("Tests")
    }
}

} // verus!
