//! The fixed registry of performance modes.

use vstd::prelude::*;

verus! {

/// A performance profile that the host may honour.
#[derive(Clone, Copy, Debug, PartialEq, Eq, Hash, Structural)]
pub enum Mode {
    Performance,
    Comfort,
    Balanced,
    Quiet,
    Auto,
    /// What the host reported is outside the known set. Observed only, never
    /// requested.
    Unknown,
}

/// The modes that can be requested, most aggressive first. `Unknown` is not
/// among them.
pub open spec fn all_modes() -> Seq<Mode> {
    seq![Mode::Performance, Mode::Comfort, Mode::Balanced, Mode::Quiet, Mode::Auto]
}

/// The mode that a host reports under a name: the mode of the registry with
/// that label, and `Unknown` for any other name.
pub open spec fn mode_named(name: Seq<char>) -> Mode {
    if name == Mode::Performance.label_text() {
        Mode::Performance
    } else if name == Mode::Comfort.label_text() {
        Mode::Comfort
    } else if name == Mode::Balanced.label_text() {
        Mode::Balanced
    } else if name == Mode::Quiet.label_text() {
        Mode::Quiet
    } else if name == Mode::Auto.label_text() {
        Mode::Auto
    } else {
        Mode::Unknown
    }
}

impl Mode {
    /// The mode's name as shown to the operator.
    pub open spec fn label_text(self) -> Seq<char> {
        match self {
            Mode::Performance => "Performance"@,
            Mode::Comfort => "Comfort"@,
            Mode::Balanced => "Balanced"@,
            Mode::Quiet => "Quiet"@,
            Mode::Auto => "Auto"@,
            Mode::Unknown => "Unknown"@,
        }
    }

    /// The mode to request when the machine runs too hot in this mode: one step
    /// toward `Quiet` in the order of [`all_modes`]. `Quiet` is the most
    /// conservative mode and has no such step; `Unknown` is treated as if it
    /// were `Quiet`.
    pub open spec fn calmer(self) -> Option<Mode> {
        match self {
            Mode::Performance => Some(Mode::Comfort),
            Mode::Comfort => Some(Mode::Balanced),
            Mode::Balanced => Some(Mode::Quiet),
            Mode::Auto => Some(Mode::Quiet),
            Mode::Quiet => None,
            Mode::Unknown => None,
        }
    }

    /// How many positions of [`all_modes`] lie between this mode and `Quiet`.
    /// `Unknown` counts as `Quiet`.
    pub open spec fn distance_to_quiet(self) -> nat {
        match self {
            Mode::Performance => 3,
            Mode::Comfort => 2,
            Mode::Balanced => 1,
            Mode::Auto => 1,
            Mode::Quiet => 0,
            Mode::Unknown => 0,
        }
    }

    /// The modes that can be requested, in their fixed order. Every call
    /// returns the same five modes.
    pub fn all() -> (modes: &'static [Mode])
        ensures
            modes@ == all_modes(),
            modes@.len() == 5,
    {
        let modes: &'static [Mode] = &[
            Mode::Performance,
            Mode::Comfort,
            Mode::Balanced,
            Mode::Quiet,
            Mode::Auto,
        ];
        assert(modes@ =~= all_modes());
        modes
    }

    /// The mode's name as shown to the operator.
    pub fn label(&self) -> (text: &'static str)
        ensures
            text@ == self.label_text(),
    {
        match self {
            Mode::Performance => "Performance",
            Mode::Comfort => "Comfort",
            Mode::Balanced => "Balanced",
            Mode::Quiet => "Quiet",
            Mode::Auto => "Auto",
            Mode::Unknown => "Unknown",
        }
    }

    /// The mode that a host reports under the name `name`: the mode with that
    /// label, and `Unknown` for every name that is no mode's label.
    pub fn from_label(name: &str) -> (mode: Mode)
        ensures
            mode == mode_named(name@),
    {
        let name = String::from_str(name);
        if name == String::from_str("Performance") {
            Mode::Performance
        } else if name == String::from_str("Comfort") {
            Mode::Comfort
        } else if name == String::from_str("Balanced") {
            Mode::Balanced
        } else if name == String::from_str("Quiet") {
            Mode::Quiet
        } else if name == String::from_str("Auto") {
            Mode::Auto
        } else {
            Mode::Unknown
        }
    }

    /// The mode to request when the machine runs too hot in this mode, or
    /// `None` where this mode is already the most conservative.
    pub fn step_down(&self) -> (next: Option<Mode>)
        ensures
            next == self.calmer(),
    {
        match self {
            Mode::Performance => Some(Mode::Comfort),
            Mode::Comfort => Some(Mode::Balanced),
            Mode::Balanced => Some(Mode::Quiet),
            Mode::Auto => Some(Mode::Quiet),
            Mode::Quiet => None,
            Mode::Unknown => None,
        }
    }
}

/// A step down never asks for `Unknown`, always asks for a mode of the
/// registry that is not the current one, and ends one position nearer to
/// `Quiet`; for a mode before `Quiet` it is the mode that follows in the
/// registry.
pub proof fn lemma_step_down_moves_toward_quiet(mode: Mode)
    ensures
        mode.calmer() matches Some(next) ==> {
            &&& next != Mode::Unknown
            &&& next != mode
            &&& all_modes().contains(next)
            &&& next.distance_to_quiet() + 1 == mode.distance_to_quiet()
        },
        mode.calmer() is None <==> mode.distance_to_quiet() == 0,
        forall|i: int|
            0 <= i < 3 && mode == #[trigger] all_modes()[i] ==> mode.calmer() == Some(
                all_modes()[i + 1],
            ),
{
    let modes = all_modes();
    assert(modes[0] == Mode::Performance);
    assert(modes[1] == Mode::Comfort);
    assert(modes[2] == Mode::Balanced);
    assert(modes[3] == Mode::Quiet);
    assert(modes[4] == Mode::Auto);
}

/// No two modes share a label, so a mode is found again by its label.
pub proof fn lemma_labels_distinct(a: Mode, b: Mode)
    ensures
        a.label_text() == b.label_text() ==> a == b,
        mode_named(a.label_text()) == a,
{
    reveal_strlit("Performance");
    reveal_strlit("Comfort");
    reveal_strlit("Balanced");
    reveal_strlit("Quiet");
    reveal_strlit("Auto");
    reveal_strlit("Unknown");
    assert(Mode::Performance.label_text()[0] == 'P');
    assert(Mode::Comfort.label_text()[0] == 'C');
    assert(Mode::Balanced.label_text()[0] == 'B');
    assert(Mode::Quiet.label_text()[0] == 'Q');
    assert(Mode::Auto.label_text()[0] == 'A');
    assert(Mode::Unknown.label_text()[0] == 'U');
}

} // verus!
