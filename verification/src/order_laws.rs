//! What the tween orders of each step are, stated card by card and tween by
//! tween rather than through the model's own definitions.

use vstd::prelude::*;
use crate::cards::{Card, SceneView};
use crate::model::{entry_orders, first_slot_with, is_first_slot, reveal_orders, slot_orders, swiped, tween_done, PackView, SessionView};
use crate::laws::coherent;
use crate::sequence::Step;
use crate::tween::{Motion, TweenOrder, TweenTarget};

verus! {

/// The card slot an order targets (-1 when it targets no card).
pub open spec fn order_slot(o: TweenOrder) -> int {
    match o.target {
        TweenTarget::Card(j) => j as int,
        _ => -1,
    }
}

/// An order that belongs to revealing card `idx` in batch `batch`: the arc
/// for a slot holding card `idx`, or the peek for a slot holding card
/// `idx + 1`, chosen by the card's index whatever slot it sits in.
pub open spec fn is_reveal_order(o: TweenOrder, cards: Seq<Card>, idx: int, batch: int) -> bool {
    &&& o.batch_id == batch as u32
    &&& o.target is Card
    &&& 0 <= order_slot(o) < cards.len()
    &&& {
        ||| o.motion is CardArc && cards[order_slot(o)].index == idx
        ||| o.motion == (Motion::CardPeek { revealed: idx as usize }) && cards[order_slot(o)].index == idx + 1
    }
}

/// `orders` reveals card `idx` of `cards` in batch `batch`: it throws every
/// card with index `idx` along the arc and peeks every card with index
/// `idx + 1` out of the pack, does nothing else, and lists the orders slot by
/// slot, one order per slot.
pub open spec fn reveals_card(orders: Seq<TweenOrder>, cards: Seq<Card>, idx: int, batch: int) -> bool {
    &&& forall|i: int| 0 <= i < orders.len() ==> is_reveal_order(#[trigger] orders[i], cards, idx, batch)
    &&& forall|i: int, k: int|
        0 <= i < k < orders.len() ==> order_slot(#[trigger] orders[i]) < order_slot(#[trigger] orders[k])
    &&& forall|j: int|
        0 <= j < cards.len() && #[trigger] cards[j].index == idx ==> orders.contains(
            TweenOrder { target: TweenTarget::Card(j as usize), motion: Motion::CardArc, batch_id: batch as u32 },
        )
    &&& forall|j: int|
        0 <= j < cards.len() && #[trigger] cards[j].index == idx + 1 ==> orders.contains(
            TweenOrder {
                target: TweenTarget::Card(j as usize),
                motion: Motion::CardPeek { revealed: idx as usize },
                batch_id: batch as u32,
            },
        )
}

/// Revealing card `idx` throws exactly the cards with index `idx` and peeks
/// exactly the cards with index `idx + 1`, whatever order the scene lists
/// the cards in and whichever card is being revealed.
pub proof fn lemma_reveal_orders_reveal_the_card(cards: Seq<Card>, idx: int, batch: int)
    requires
        cards.len() <= usize::MAX,
    ensures
        reveals_card(reveal_orders(cards, idx, batch), cards, idx, batch),
    decreases cards.len(),
{
    if cards.len() == 0 {
        return;
    }
    let pre = cards.drop_last();
    let n: int = cards.len() - 1;
    lemma_reveal_orders_reveal_the_card(pre, idx, batch);
    let a = reveal_orders(pre, idx, batch);
    let b = slot_orders(cards.last(), n, idx, batch);
    let o = a + b;
    assert(reveal_orders(cards, idx, batch) == o);
    assert(cards.last() == cards[n]);
    assert(b.len() <= 1);
    assert forall|i: int| 0 <= i < b.len() implies is_reveal_order(#[trigger] b[i], cards, idx, batch)
        && order_slot(b[i]) == n by {}
    assert forall|i: int| 0 <= i < o.len() implies is_reveal_order(#[trigger] o[i], cards, idx, batch) by {
        if i < a.len() {
            assert(o[i] == a[i]);
            assert(is_reveal_order(a[i], pre, idx, batch));
            assert(pre[order_slot(a[i])] == cards[order_slot(a[i])]);
        } else {
            assert(o[i] == b[i - a.len()]);
        }
    }
    assert forall|i: int, k: int| 0 <= i < k < o.len() implies order_slot(#[trigger] o[i]) < order_slot(
        #[trigger] o[k],
    ) by {
        if k < a.len() {
            assert(o[i] == a[i] && o[k] == a[k]);
        } else {
            assert(i < a.len());
            assert(o[i] == a[i]);
            assert(is_reveal_order(a[i], pre, idx, batch));
            assert(o[k] == b[k - a.len()]);
        }
    }
    assert forall|j: int| 0 <= j < cards.len() && #[trigger] cards[j].index == idx implies o.contains(
        TweenOrder { target: TweenTarget::Card(j as usize), motion: Motion::CardArc, batch_id: batch as u32 },
    ) by {
        let x = TweenOrder { target: TweenTarget::Card(j as usize), motion: Motion::CardArc, batch_id: batch as u32 };
        if j < n {
            assert(pre[j] == cards[j]);
            assert(a.contains(x));
            let w: int = choose|w: int| 0 <= w < a.len() && a[w] == x;
            assert(o[w] == a[w]);
        } else {
            assert(b[0] == x);
            assert(o[a.len() as int] == b[0]);
        }
    }
    assert forall|j: int| 0 <= j < cards.len() && #[trigger] cards[j].index == idx + 1 implies o.contains(
        TweenOrder {
            target: TweenTarget::Card(j as usize),
            motion: Motion::CardPeek { revealed: idx as usize },
            batch_id: batch as u32,
        },
    ) by {
        let x = TweenOrder {
            target: TweenTarget::Card(j as usize),
            motion: Motion::CardPeek { revealed: idx as usize },
            batch_id: batch as u32,
        };
        if j < n {
            assert(pre[j] == cards[j]);
            assert(a.contains(x));
            let w: int = choose|w: int| 0 <= w < a.len() && a[w] == x;
            assert(o[w] == a[w]);
        } else {
            assert(b[0] == x);
            assert(o[a.len() as int] == b[0]);
        }
    }
}

/// Slot `j` holds card `index`, and no earlier slot does.
pub open spec fn earliest_slot(cards: Seq<Card>, index: int, j: int) -> bool {
    &&& 0 <= j < cards.len()
    &&& cards[j].index == index
    &&& forall|k: int| 0 <= k < j ==> #[trigger] cards[k].index != index
}

proof fn lemma_some_slot_is_earliest(cards: Seq<Card>, index: int, j: int)
    requires
        0 <= j < cards.len(),
        cards[j].index == index,
    ensures
        exists|f: int| earliest_slot(cards, index, f),
    decreases j,
{
    if exists|k: int| 0 <= k < j && #[trigger] cards[k].index == index {
        let k: int = choose|k: int| 0 <= k < j && #[trigger] cards[k].index == index;
        lemma_some_slot_is_earliest(cards, index, k);
    } else {
        assert(earliest_slot(cards, index, j));
    }
}

proof fn lemma_first_slot_with_is_earliest(cards: Seq<Card>, index: int)
    ensures
        forall|j: int| earliest_slot(cards, index, j) ==> first_slot_with(cards, index) == Some(j),
        (forall|j: int| 0 <= j < cards.len() ==> #[trigger] cards[j].index != index)
            ==> first_slot_with(cards, index) is None,
{
    assert forall|j: int| earliest_slot(cards, index, j) implies first_slot_with(cards, index) == Some(j) by {
        assert(is_first_slot(cards, index, j));
        let c: int = choose|c: int| is_first_slot(cards, index, c);
        assert(is_first_slot(cards, index, c));
        if c < j {
            assert(cards[c].index != index);
        } else if c > j {
            assert(cards[j].index != index);
        }
    }
    if forall|j: int| 0 <= j < cards.len() ==> #[trigger] cards[j].index != index {
        assert forall|j: int| !is_first_slot(cards, index, j) by {
            if 0 <= j < cards.len() {
                assert(cards[j].index != index);
            }
        }
    }
}

/// What entering each step starts, in batch `batch`:
/// - the intro flies the pack in, and the lid if there is one;
/// - the opening nudges the pack and swings the lid open if there is one;
/// - the first card settles the pack and raises the earliest card with the
///   current index, if any card has it;
/// - revealing throws the current card and peeks the next one;
/// - a step without animation starts nothing.
/// A lid order is ordered exactly when the scene has a lid, so every order
/// has a tween that can run.
pub proof fn lemma_entry_orders_by_step(step: Step, batch: int, current: int, scene: SceneView)
    requires
        scene.cards.len() <= usize::MAX,
    ensures
        ({
            let o = entry_orders(step, batch, current, scene);
            let b = batch as u32;
            &&& step is Intro ==> {
                &&& o.len() == if scene.lid_present { 2nat } else { 1nat }
                &&& o[0] == (TweenOrder { target: TweenTarget::Pack, motion: Motion::PackFlyIn, batch_id: b })
                &&& scene.lid_present ==> o[1] == (TweenOrder { target: TweenTarget::Lid, motion: Motion::LidFlyIn, batch_id: b })
            }
            &&& step is Opening ==> {
                &&& o.len() == if scene.lid_present { 2nat } else { 1nat }
                &&& o[0] == (TweenOrder { target: TweenTarget::Pack, motion: Motion::PackNudge, batch_id: b })
                &&& scene.lid_present ==> o[1] == (TweenOrder { target: TweenTarget::Lid, motion: Motion::LidSwingOpen, batch_id: b })
            }
            &&& step is FirstCard ==> {
                &&& o[0] == (TweenOrder { target: TweenTarget::Pack, motion: Motion::PackSettle, batch_id: b })
                &&& (forall|j: int| 0 <= j < scene.cards.len() ==> #[trigger] scene.cards[j].index != current)
                    ==> o.len() == 1
                &&& forall|j: int| earliest_slot(scene.cards, current, j) ==> o.len() == 2
                    && o[1] == (TweenOrder { target: TweenTarget::Card(j as usize), motion: Motion::CardRise, batch_id: b })
                &&& (exists|j: int| 0 <= j < scene.cards.len() && #[trigger] scene.cards[j].index == current)
                    ==> exists|j: int| earliest_slot(scene.cards, current, j)
            }
            &&& step is CardReveal ==> reveals_card(o, scene.cards, current, batch)
            &&& !step.is_animated() ==> o.len() == 0
        }),
{
    lemma_first_slot_with_is_earliest(scene.cards, current);
    lemma_reveal_orders_reveal_the_card(scene.cards, current, batch);
    if exists|j: int| 0 <= j < scene.cards.len() && #[trigger] scene.cards[j].index == current {
        let j: int = choose|j: int| 0 <= j < scene.cards.len() && #[trigger] scene.cards[j].index == current;
        lemma_some_slot_is_earliest(scene.cards, current, j);
    }
}

/// The tweens an event starts are exactly the entry tweens of the step the
/// pack enters, in the fresh batch it then listens to and for the card it
/// is then on; an event that keeps the pack's batch starts nothing.
pub proof fn lemma_events_start_entry_tweens(s: SessionView, scene: SceneView, batch_id: int)
    requires
        coherent(s),
    ensures
        ({
            let r = swiped(s, scene);
            match (s.pack, r.0.pack) {
                (Some(p), Some(q)) => r.1 == if q.current_batch != p.current_batch {
                    entry_orders(q.step, q.current_batch, r.0.current, scene)
                } else {
                    Seq::<TweenOrder>::empty()
                },
                _ => r.1.len() == 0,
            }
        }),
        ({
            let r = tween_done(s, batch_id, scene);
            match (s.pack, r.0.pack) {
                (Some(p), Some(q)) => r.1 == if q.current_batch != p.current_batch {
                    entry_orders(q.step, q.current_batch, r.0.current, scene)
                } else {
                    Seq::<TweenOrder>::empty()
                },
                _ => r.1.len() == 0,
            }
        }),
{
}

/// A swipe while a card is revealed, with more cards left, does exactly what
/// a swipe waiting on the next card would do: the next card is revealed in
/// full, its arc and the peek of the card after it.
pub proof fn lemma_interrupted_reveal_reveals_next_card(s: SessionView, scene: SceneView)
    requires
        s.pack matches Some(p) && p.step is CardReveal,
        s.current + 1 < s.total,
    ensures
        swiped(s, scene) == swiped(
            SessionView {
                pack: Some(PackView { step: Step::WaitCard, pending: 0, current_batch: s.pack.unwrap().current_batch }),
                current: s.current + 1,
                ..s
            },
            scene,
        ),
{
}

/// Whether a motion shows its target, and how it eases, depend only on the
/// kind of motion: a rising or peeking card is always shown as it starts to
/// move, whichever card is being revealed, and nothing else is.
pub proof fn lemma_motion_kinds(revealed: usize, other: usize)
    ensures
        Motion::CardRise.spec_shows_target(),
        (Motion::CardPeek { revealed }).spec_shows_target(),
        !Motion::CardArc.spec_shows_target(),
        !Motion::PackFlyIn.spec_shows_target(),
        !Motion::LidFlyIn.spec_shows_target(),
        !Motion::PackNudge.spec_shows_target(),
        !Motion::LidSwingOpen.spec_shows_target(),
        !Motion::PackSettle.spec_shows_target(),
        (Motion::CardPeek { revealed }).spec_easing() == (Motion::CardPeek { revealed: other }).spec_easing(),
{
}

} // verus!
