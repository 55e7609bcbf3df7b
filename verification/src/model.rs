//! The mathematical model of the sequence: its state over unbounded integers
//! and the transition each event makes.

use vstd::prelude::*;
use crate::cards::{Card, SceneView};
use crate::sequence::Step;
use crate::tween::{Motion, TweenOrder, TweenTarget};

verus! {

/// The state of the pack: its step marker and its batch bookkeeping.
pub struct PackView {
    pub step: Step,
    /// How many tweens of the current batch are still running.
    pub pending: int,
    /// The batch whose completions the pack currently listens to.
    pub current_batch: int,
}

/// The whole state of the sequence.
pub struct SessionView {
    /// The pack, once it has been spawned.
    pub pack: Option<PackView>,
    /// The index of the card being (or about to be) revealed.
    pub current: int,
    /// How many cards the pack holds.
    pub total: int,
    /// The last batch id handed out.
    pub next_batch: int,
}

impl Step {
    /// Steps that start tweens when they are entered.
    pub open spec fn is_animated(self) -> bool {
        self is Intro || self is Opening || self is FirstCard || self is CardReveal
    }

    /// Steps that only wait for the player to swipe.
    pub open spec fn is_waiting(self) -> bool {
        self is WaitSwipe1 || self is WaitCard
    }
}

impl SessionView {
    /// Every counter fits the machine integer that holds it.
    pub open spec fn fits(self) -> bool {
        &&& 0 <= self.current <= usize::MAX
        &&& 0 <= self.total <= usize::MAX
        &&& 0 <= self.next_batch <= u32::MAX
        &&& self.pack matches Some(p) ==> {
            &&& 0 <= p.pending <= u32::MAX
            &&& 0 <= p.current_batch <= u32::MAX
        }
    }

    /// The pack exists and carries the given step marker.
    pub open spec fn at(self, step: Step) -> bool {
        self.pack matches Some(p) && p.step == step
    }
}

/// A tween order for `target` running `motion` in batch `batch`.
pub open spec fn order(target: TweenTarget, motion: Motion, batch: int) -> TweenOrder {
    TweenOrder { target, motion, batch_id: batch as u32 }
}

/// The order for the lid, if the lid is there.
pub open spec fn lid_orders(lid_present: bool, motion: Motion, batch: int) -> Seq<TweenOrder> {
    if lid_present {
        seq![order(TweenTarget::Lid, motion, batch)]
    } else {
        Seq::empty()
    }
}

/// Slot `j` is the first slot holding the card with the given index.
pub open spec fn is_first_slot(cards: Seq<Card>, index: int, j: int) -> bool {
    &&& 0 <= j < cards.len()
    &&& cards[j].index == index
    &&& forall|k: int| 0 <= k < j ==> #[trigger] cards[k].index != index
}

/// The first slot holding the card with the given index, if any does.
pub open spec fn first_slot_with(cards: Seq<Card>, index: int) -> Option<int> {
    if exists|j: int| is_first_slot(cards, index, j) {
        Some(choose|j: int| is_first_slot(cards, index, j))
    } else {
        None
    }
}

/// What one card slot contributes when card `idx` is revealed: the card
/// itself flies along the arc, and the next card peeks out of the pack.
pub open spec fn slot_orders(card: Card, slot: int, idx: int, batch: int) -> Seq<TweenOrder> {
    (if card.index == idx {
        seq![order(TweenTarget::Card(slot as usize), Motion::CardArc, batch)]
    } else {
        Seq::empty()
    }) + (if card.index == idx + 1 {
        seq![order(TweenTarget::Card(slot as usize), Motion::CardPeek { revealed: idx as usize }, batch)]
    } else {
        Seq::empty()
    })
}

/// The orders for revealing card `idx`, slot by slot.
pub open spec fn reveal_orders(cards: Seq<Card>, idx: int, batch: int) -> Seq<TweenOrder>
    decreases cards.len(),
{
    if cards.len() == 0 {
        Seq::empty()
    } else {
        reveal_orders(cards.drop_last(), idx, batch) + slot_orders(cards.last(), cards.len() - 1, idx, batch)
    }
}

/// The tweens a step starts when it is entered with batch `batch`, while card
/// `current` is the one to reveal.
pub open spec fn entry_orders(step: Step, batch: int, current: int, scene: SceneView) -> Seq<TweenOrder> {
    match step {
        Step::Intro => seq![order(TweenTarget::Pack, Motion::PackFlyIn, batch)]
            + lid_orders(scene.lid_present, Motion::LidFlyIn, batch),
        Step::Opening => seq![order(TweenTarget::Pack, Motion::PackNudge, batch)]
            + lid_orders(scene.lid_present, Motion::LidSwingOpen, batch),
        Step::FirstCard => seq![order(TweenTarget::Pack, Motion::PackSettle, batch)] + match first_slot_with(scene.cards, current) {
            Some(j) => seq![order(TweenTarget::Card(j as usize), Motion::CardRise, batch)],
            None => Seq::empty(),
        },
        Step::CardReveal => reveal_orders(scene.cards, current, batch),
        _ => Seq::empty(),
    }
}

/// Putting `step`'s marker on the pack. Every step entry takes a fresh batch
/// id. An animated step starts its tweens under it and waits for all of
/// them. The one-frame `NextCard` step moves on to the next card and rests in
/// `WaitCard`, or in `Complete` once every card is revealed. Any other step
/// waits for nothing; its fresh id orphans every tween still running.
pub open spec fn enter(s: SessionView, step: Step, scene: SceneView) -> (SessionView, Seq<TweenOrder>) {
    match s.pack {
        None => (s, Seq::empty()),
        Some(p) => if step.is_animated() {
            let batch: int = s.next_batch + 1;
            let orders = entry_orders(step, batch, s.current, scene);
            (
                SessionView {
                    pack: Some(PackView { step, pending: orders.len() as int, current_batch: batch }),
                    next_batch: batch,
                    ..s
                },
                orders,
            )
        } else if step is NextCard {
            let current: int = s.current + 1;
            let batch: int = s.next_batch + 1;
            let resting = if current >= s.total { Step::Complete } else { Step::WaitCard };
            (
                SessionView {
                    pack: Some(PackView { step: resting, pending: 0, current_batch: batch }),
                    current,
                    next_batch: batch,
                    ..s
                },
                Seq::empty(),
            )
        } else {
            (skip_to(s, step), Seq::empty())
        },
    }
}

/// Jumping straight to a step without entry tweens, with a fresh batch id so
/// that every tween still running is orphaned.
pub open spec fn skip_to(s: SessionView, step: Step) -> SessionView {
    match s.pack {
        None => s,
        Some(p) => SessionView {
            pack: Some(PackView { step, pending: 0, current_batch: s.next_batch + 1 }),
            next_batch: s.next_batch + 1,
            ..s
        },
    }
}

/// The player swiped. A waiting step moves on to the next animated step; an
/// animated step is interrupted and skipped; revealing a card is interrupted
/// by throwing the next card at once.
pub open spec fn swiped(s: SessionView, scene: SceneView) -> (SessionView, Seq<TweenOrder>) {
    match s.pack {
        None => (s, Seq::empty()),
        Some(p) => match p.step {
            Step::WaitSwipe1 => enter(s, Step::Opening, scene),
            Step::WaitCard => enter(s, Step::CardReveal, scene),
            Step::Intro => (skip_to(s, Step::WaitSwipe1), Seq::empty()),
            Step::Opening => enter(s, Step::FirstCard, scene),
            Step::FirstCard => (skip_to(s, Step::WaitCard), Seq::empty()),
            Step::CardReveal => {
                let s1 = SessionView { current: s.current + 1, ..s };
                if s1.current >= s1.total {
                    (skip_to(s1, Step::Complete), Seq::empty())
                } else {
                    enter(s1, Step::CardReveal, scene)
                }
            },
            _ => (s, Seq::empty()),
        },
    }
}

/// A tween of batch `batch_id` finished. A completion of another batch than
/// the pack's current one is stale and ignored, as is one that arrives when
/// nothing is pending. Otherwise one fewer tween is pending, and when none is
/// left an animated step hands over to the step after it.
pub open spec fn tween_done(s: SessionView, batch_id: int, scene: SceneView) -> (SessionView, Seq<TweenOrder>) {
    match s.pack {
        None => (s, Seq::empty()),
        Some(p) => if batch_id != p.current_batch || p.pending == 0 {
            (s, Seq::empty())
        } else {
            let s1 = SessionView { pack: Some(PackView { pending: p.pending - 1, ..p }), ..s };
            if p.pending - 1 > 0 {
                (s1, Seq::empty())
            } else {
                match p.step {
                    Step::Intro => enter(s1, Step::WaitSwipe1, scene),
                    Step::Opening => enter(s1, Step::FirstCard, scene),
                    Step::FirstCard => enter(s1, Step::WaitCard, scene),
                    Step::CardReveal => enter(s1, Step::NextCard, scene),
                    _ => (s1, Seq::empty()),
                }
            }
        },
    }
}

/// The pack is spawned carrying the intro marker, with nothing pending and
/// batch zero; the intro is then entered.
pub open spec fn spawned(s: SessionView, scene: SceneView) -> (SessionView, Seq<TweenOrder>) {
    enter(
        SessionView { pack: Some(PackView { step: Step::Intro, pending: 0, current_batch: 0 }), ..s },
        Step::Intro,
        scene,
    )
}

} // verus!
