use vstd::prelude::*;

verus! {

/// The easing curve a tween follows over its normalised time.
#[derive(Clone, Copy, Debug, PartialEq, Eq, Structural)]
pub enum Easing {
    Linear,
    EaseIn,
    EaseOut,
    EaseInOut,
    /// Overshoots then snaps back: a springy landing.
    EaseOutBack,
}

impl Default for Easing {
    fn default() -> (e: Easing)
        ensures
            e == Easing::Linear,
    {
        Easing::Linear
    }
}

/// The entity a tween runs on. A card is named by its slot: its position in
/// the list of cards the scene reported when the step was entered.
#[derive(Clone, Copy, Debug, PartialEq, Eq, Structural)]
pub enum TweenTarget {
    Pack,
    Lid,
    Card(usize),
}

/// The preset motion of a tween: where it starts, where it ends, how long it
/// lasts and how it eases. The positions and timings themselves belong to the
/// renderer; the sequence only decides which preset runs on which entity.
#[derive(Clone, Copy, Debug, PartialEq, Eq, Structural)]
pub enum Motion {
    /// The pack flies in from off-screen.
    PackFlyIn,
    /// The lid flies in together with the pack.
    LidFlyIn,
    /// The pack gets a small inertia kick while the lid opens.
    PackNudge,
    /// The lid swings open.
    LidSwingOpen,
    /// The pack settles down while the first card rises.
    PackSettle,
    /// A card rises from inside the pack.
    CardRise,
    /// The revealed card flies away along an arc.
    CardArc,
    /// The next card peeks out of the pack; `revealed` is the index of the
    /// card being revealed at the same time.
    CardPeek { revealed: usize },
}

impl Motion {
    /// The easing curve the motion follows.
    pub open spec fn spec_easing(self) -> Easing {
        match self {
            Motion::PackFlyIn => Easing::EaseOutBack,
            Motion::LidFlyIn => Easing::EaseOutBack,
            Motion::PackNudge => Easing::EaseOut,
            Motion::LidSwingOpen => Easing::EaseOutBack,
            Motion::PackSettle => Easing::EaseOut,
            Motion::CardRise => Easing::EaseOutBack,
            Motion::CardArc => Easing::EaseInOut,
            Motion::CardPeek { .. } => Easing::EaseOut,
        }
    }

    /// The easing curve the motion follows.
    #[verifier::when_used_as_spec(spec_easing)]
    pub fn easing(self) -> (e: Easing)
        ensures
            e == self.spec_easing(),
    {
        match self {
            Motion::PackFlyIn => Easing::EaseOutBack,
            Motion::LidFlyIn => Easing::EaseOutBack,
            Motion::PackNudge => Easing::EaseOut,
            Motion::LidSwingOpen => Easing::EaseOutBack,
            Motion::PackSettle => Easing::EaseOut,
            Motion::CardRise => Easing::EaseOutBack,
            Motion::CardArc => Easing::EaseInOut,
            Motion::CardPeek { .. } => Easing::EaseOut,
        }
    }

    /// Whether starting the motion makes its (hidden) target visible: a card
    /// that rises or peeks out of the pack is shown as it starts to move.
    pub open spec fn spec_shows_target(self) -> bool {
        self is CardRise || self is CardPeek
    }

    /// Whether starting the motion makes its (hidden) target visible.
    #[verifier::when_used_as_spec(spec_shows_target)]
    pub fn shows_target(self) -> (b: bool)
        ensures
            b == self.spec_shows_target(),
    {
        match self {
            Motion::CardRise => true,
            Motion::CardPeek { .. } => true,
            _ => false,
        }
    }
}

/// A tween the sequence asks the renderer to start: a preset motion on an
/// entity, tagged with the batch of the step that started it. When the tween
/// finishes, the renderer reports the batch back to the sequence.
#[derive(Clone, Copy, Debug, PartialEq, Eq, Structural)]
pub struct TweenOrder {
    pub target: TweenTarget,
    pub motion: Motion,
    pub batch_id: u32,
}

} // verus!
