use vstd::prelude::*;

use crate::style::Color;

verus! {

/// The panes that can hold the keyboard focus.
#[derive(Debug, Clone, Copy, PartialEq, Eq, Structural)]
pub enum FocusType {
    /// The file view together with its fuzzy search box.
    TxtFuzzy,
    /// The chat view together with its prompt box.
    Chat,
}

/// How many panes the focus cycles through.
pub const FOCUS_COUNT: usize = 2;

impl FocusType {
    /// The pane that the focus moves to from `self`.
    pub open spec fn following(self) -> FocusType {
        match self {
            FocusType::TxtFuzzy => FocusType::Chat,
            FocusType::Chat => FocusType::TxtFuzzy,
        }
    }
}

/// Which pane holds the keyboard focus.
#[derive(Debug, Clone, Copy)]
pub struct Focus {
    current_focus: usize,
}

impl Focus {
    #[verifier::type_invariant]
    spec fn in_range(self) -> bool {
        self.current_focus < FOCUS_COUNT
    }
}

impl View for Focus {
    type V = FocusType;

    closed spec fn view(&self) -> FocusType {
        if self.current_focus == 0 {
            FocusType::TxtFuzzy
        } else {
            FocusType::Chat
        }
    }
}

/// The text colours of (file view, search box, chat view, prompt box) while
/// the focus is on `f`: the focused pane and its input box are yellow, the
/// others white.
pub open spec fn colors_for(f: FocusType) -> (Color, Color, Color, Color) {
    match f {
        FocusType::TxtFuzzy => (Color::Yellow, Color::Yellow, Color::White, Color::White),
        FocusType::Chat => (Color::White, Color::White, Color::Yellow, Color::Yellow),
    }
}

impl Focus {
    /// The focus starts on the file view.
    pub fn new() -> (f: Focus)
        ensures
            f@ == FocusType::TxtFuzzy,
    {
        Focus { current_focus: 0 }
    }

    /// Moves the focus to the next pane, cycling through all of them.
    pub fn next(&mut self)
        ensures
            final(self)@ == old(self)@.following(),
    {
        proof {
            use_type_invariant(&*self);
        }
        self.current_focus = (self.current_focus + 1) % FOCUS_COUNT;
    }

    /// The text colours of (file view, search box, chat view, prompt box).
    pub fn get_colors(&self) -> (c: (Color, Color, Color, Color))
        ensures
            c == colors_for(self@),
    {
        let base = Color::White;
        let highlight = Color::Yellow;
        match self.current() {
            FocusType::TxtFuzzy => (highlight, highlight, base, base),
            FocusType::Chat => (base, base, highlight, highlight),
        }
    }

    /// The pane that holds the focus.
    pub fn current(&self) -> (t: FocusType)
        ensures
            t == self@,
    {
        proof {
            use_type_invariant(self);
        }
        if self.current_focus == 0 {
            FocusType::TxtFuzzy
        } else {
            FocusType::Chat
        }
    }
}

/// Moving the focus as many times as there are panes brings it back where it
/// started, and no smaller positive number of moves does.
pub proof fn lemma_focus_cycle(f: FocusType)
    ensures
        f.following().following() == f,
        f.following() != f,
{
}

/// The pane the focus reaches from `f` after `k` moves.
pub open spec fn moved_on(f: FocusType, k: nat) -> FocusType
    decreases k,
{
    if k == 0 {
        f
    } else {
        moved_on(f, (k - 1) as nat).following()
    }
}

/// After any number of moves the focus is where it started when the number
/// is a multiple of the number of panes, and on the other pane otherwise.
pub proof fn lemma_focus_after_moves(f: FocusType, k: nat)
    ensures
        moved_on(f, k) == if k % (FOCUS_COUNT as nat) == 0 {
            f
        } else {
            f.following()
        },
    decreases k,
{
    if k > 0 {
        lemma_focus_after_moves(f, (k - 1) as nat);
    }
}

} // verus!
