//! What holds of the sequence across events.

use vstd::prelude::*;
use crate::cards::{Card, SceneView};
use crate::model::{enter, entry_orders, reveal_orders, slot_orders, spawned, swiped, tween_done, PackView, SessionView};
use crate::sequence::Step;
use crate::tween::TweenOrder;

verus! {

/// The shape every state of a session has: the one-frame `NextCard` step is
/// never where the pack rests, the pack listens to a batch that has been
/// handed out, only an animated step has tweens pending, and until the
/// sequence is complete the current card is one of the pack's cards (or the
/// first, when the pack is empty).
pub open spec fn coherent(s: SessionView) -> bool {
    &&& s.fits()
    &&& s.pack matches Some(p) ==> {
        &&& !(p.step is NextCard)
        &&& p.current_batch <= s.next_batch
        &&& !p.step.is_animated() ==> p.pending == 0
        &&& !(p.step is Complete) ==> (s.current < s.total || s.current == 0)
    }
}

/// Every order carries batch `batch`.
pub open spec fn all_in_batch(orders: Seq<TweenOrder>, batch: int) -> bool {
    forall|i: int| 0 <= i < orders.len() ==> #[trigger] orders[i].batch_id == batch as u32
}

proof fn lemma_reveal_orders_shape(cards: Seq<Card>, idx: int, batch: int)
    ensures
        reveal_orders(cards, idx, batch).len() <= 2 * cards.len(),
        all_in_batch(reveal_orders(cards, idx, batch), batch),
    decreases cards.len(),
{
    if cards.len() > 0 {
        lemma_reveal_orders_shape(cards.drop_last(), idx, batch);
        let a = reveal_orders(cards.drop_last(), idx, batch);
        let b = slot_orders(cards.last(), cards.len() - 1, idx, batch);
        assert(reveal_orders(cards, idx, batch) == a + b);
        assert forall|i: int| 0 <= i < (a + b).len() implies #[trigger] (a + b)[i].batch_id == batch as u32 by {
            if i < a.len() {
                assert((a + b)[i] == a[i]);
            } else {
                assert((a + b)[i] == b[i - a.len()]);
            }
        }
    }
}

proof fn lemma_entry_orders_shape(step: Step, batch: int, current: int, scene: SceneView)
    ensures
        entry_orders(step, batch, current, scene).len() <= 2 + 2 * scene.cards.len(),
        all_in_batch(entry_orders(step, batch, current, scene), batch),
        step is Intro || step is Opening ==> 1 <= entry_orders(step, batch, current, scene).len() <= 2,
        step is FirstCard ==> 1 <= entry_orders(step, batch, current, scene).len() <= 2,
        !step.is_animated() ==> entry_orders(step, batch, current, scene).len() == 0,
{
    lemma_reveal_orders_shape(scene.cards, current, batch);
}

/// Facts about an event's result that hold whatever the event was.
pub open spec fn event_shape(s: SessionView, r: (SessionView, Seq<TweenOrder>)) -> bool {
    let (t, orders) = r;
    &&& t.total == s.total
    &&& s.current <= t.current <= s.current + 1
    &&& s.next_batch <= t.next_batch <= s.next_batch + 1
    &&& (t.pack is Some) == (s.pack is Some)
    &&& t.pack matches Some(q) ==> {
        &&& all_in_batch(orders, q.current_batch)
        &&& orders.len() > 0 ==> q.pending == orders.len() && q.current_batch == t.next_batch
        &&& (s.pack matches Some(p) && q.current_batch != p.current_batch) ==> q.current_batch == t.next_batch
            && t.next_batch == s.next_batch + 1 && q.pending == orders.len()
        &&& (s.pack matches Some(p) && q.step != p.step) ==> q.current_batch == t.next_batch
            && t.next_batch == s.next_batch + 1
    }
    &&& t.pack is None ==> orders.len() == 0
}

proof fn lemma_enter_shape(s: SessionView, step: Step, scene: SceneView)
    requires
        s.pack is Some,
    ensures
        event_shape(s, enter(s, step, scene)),
{
    lemma_entry_orders_shape(step, s.next_batch + 1, s.current, scene);
}

/// Every event moves the sequence by at most one card and takes at most one
/// fresh batch id; the batch counter never goes back. Every step entry takes
/// the fresh id: when an event changes the step, the pack listens to a batch
/// above every id handed out before. When an event makes the
/// pack listen to another batch, that batch is the fresh id, above every id
/// handed out before. Every tween an event starts belongs to the batch the
/// pack then listens to, and the pack waits for exactly as many completions
/// as tweens were started.
pub proof fn lemma_events_take_fresh_batches(s: SessionView, scene: SceneView, batch_id: int)
    ensures
        event_shape(s, swiped(s, scene)),
        event_shape(s, tween_done(s, batch_id, scene)),
{
    match s.pack {
        None => {},
        Some(p) => {
            let s1 = SessionView { current: s.current + 1, ..s };
            lemma_enter_shape(s, Step::Opening, scene);
            lemma_enter_shape(s, Step::CardReveal, scene);
            lemma_enter_shape(s, Step::FirstCard, scene);
            lemma_enter_shape(s1, Step::CardReveal, scene);
            let d = SessionView { pack: Some(PackView { pending: p.pending - 1, ..p }), ..s };
            lemma_enter_shape(d, Step::WaitSwipe1, scene);
            lemma_enter_shape(d, Step::FirstCard, scene);
            lemma_enter_shape(d, Step::WaitCard, scene);
            lemma_enter_shape(d, Step::NextCard, scene);
        },
    }
}

/// A completion of a batch other than the one the pack listens to is stale:
/// it changes nothing and starts nothing. So is a completion that arrives
/// when no tween is pending.
pub proof fn lemma_stale_completions_ignored(s: SessionView, batch_id: int, scene: SceneView)
    requires
        s.pack matches Some(p) && (batch_id != p.current_batch || p.pending == 0),
    ensures
        tween_done(s, batch_id, scene) == (s, Seq::<TweenOrder>::empty()),
{
}

/// The pack advances only once every tween of its batch has finished: a
/// completion of its batch while more than one tween is pending only counts
/// the finished tween.
pub proof fn lemma_waits_for_whole_batch(s: SessionView, scene: SceneView)
    requires
        s.pack matches Some(p) && p.pending > 1,
    ensures
        ({
            let p = s.pack.unwrap();
            tween_done(s, p.current_batch, scene) == (
                SessionView { pack: Some(PackView { pending: p.pending - 1, ..p }), ..s },
                Seq::<TweenOrder>::empty(),
            )
        }),
{
}

/// A swipe during an animated step interrupts it: the pack then listens to a
/// fresh batch, so every tween that was running (its batch id handed out
/// before the swipe) is orphaned, and its completion is ignored.
pub proof fn lemma_swipe_orphans_running_tweens(s: SessionView, scene: SceneView, batch_id: int)
    requires
        s.pack matches Some(p) && p.step.is_animated(),
        batch_id <= s.next_batch,
    ensures
        tween_done(swiped(s, scene).0, batch_id, scene) == (swiped(s, scene).0, Seq::<TweenOrder>::empty()),
{
}

/// When an event makes the pack listen to another batch, every completion of
/// a batch handed out before the event is stale.
pub proof fn lemma_new_batch_orphans_old_tweens(s: SessionView, r: (SessionView, Seq<TweenOrder>), scene: SceneView, batch_id: int)
    requires
        event_shape(s, r),
        s.pack matches Some(p) && r.0.pack matches Some(q) && q.current_batch != p.current_batch,
        batch_id <= s.next_batch,
    ensures
        tween_done(r.0, batch_id, scene) == (r.0, Seq::<TweenOrder>::empty()),
{
}

/// A waiting step, and the completed sequence, are passive: no tween
/// completion moves them. Only a swipe moves a waiting step on, and nothing
/// moves the completed sequence.
pub proof fn lemma_passive_steps(s: SessionView, scene: SceneView, batch_id: int)
    requires
        coherent(s),
        s.pack matches Some(p) && !p.step.is_animated(),
    ensures
        tween_done(s, batch_id, scene) == (s, Seq::<TweenOrder>::empty()),
        s.at(Step::Complete) ==> swiped(s, scene) == (s, Seq::<TweenOrder>::empty()),
{
}

/// The sequence reaches `Complete` only once every card is revealed.
pub proof fn lemma_complete_means_all_revealed(s: SessionView, scene: SceneView, batch_id: int)
    requires
        !s.at(Step::Complete),
    ensures
        swiped(s, scene).0.at(Step::Complete) ==> swiped(s, scene).0.current >= s.total,
        tween_done(s, batch_id, scene).0.at(Step::Complete) ==> tween_done(s, batch_id, scene).0.current >= s.total,
{
}

proof fn lemma_enter_keeps_coherent(s: SessionView, step: Step, scene: SceneView)
    requires
        coherent(s),
        s.pack is Some,
        enter(s, step, scene).0.fits(),
        !(step is Complete) ==> (s.current < s.total || s.current == 0),
        step is NextCard ==> s.current < s.total || s.current == 0,
    ensures
        coherent(enter(s, step, scene).0),
{
}

/// Every event keeps a session coherent. In particular the sequence never
/// rests in the one-frame `NextCard` step.
pub proof fn lemma_events_keep_coherent(s: SessionView, scene: SceneView, batch_id: int)
    requires
        coherent(s),
    ensures
        swiped(s, scene).0.fits() ==> coherent(swiped(s, scene).0),
        tween_done(s, batch_id, scene).0.fits() ==> coherent(tween_done(s, batch_id, scene).0),
{
    match s.pack {
        None => {},
        Some(p) => {
            if swiped(s, scene).0.fits() {
                let s1 = SessionView { current: s.current + 1, ..s };
                match p.step {
                    Step::WaitSwipe1 => lemma_enter_keeps_coherent(s, Step::Opening, scene),
                    Step::WaitCard => lemma_enter_keeps_coherent(s, Step::CardReveal, scene),
                    Step::Opening => lemma_enter_keeps_coherent(s, Step::FirstCard, scene),
                    Step::CardReveal => {
                        if s1.current < s1.total {
                            lemma_enter_keeps_coherent(s1, Step::CardReveal, scene);
                        }
                    },
                    _ => {},
                }
            }
            if tween_done(s, batch_id, scene).0.fits() && batch_id == p.current_batch && p.pending == 1 {
                let d = SessionView { pack: Some(PackView { pending: p.pending - 1, ..p }), ..s };
                match p.step {
                    Step::Intro => lemma_enter_keeps_coherent(d, Step::WaitSwipe1, scene),
                    Step::Opening => lemma_enter_keeps_coherent(d, Step::FirstCard, scene),
                    Step::FirstCard => lemma_enter_keeps_coherent(d, Step::WaitCard, scene),
                    Step::CardReveal => lemma_enter_keeps_coherent(d, Step::NextCard, scene),
                    _ => {},
                }
            }
        },
    }
}

/// Spawning the pack onto fresh progress starts a coherent session in the
/// intro, waiting for the pack's fly-in and, when the lid is there, the
/// lid's.
pub proof fn lemma_spawn_starts_coherent(s: SessionView, scene: SceneView)
    requires
        coherent(s),
        s.pack is None,
        s.current < s.total || s.current == 0,
        spawned(s, scene).0.fits(),
    ensures
        coherent(spawned(s, scene).0),
        spawned(s, scene).0.at(Step::Intro),
        spawned(s, scene).1.len() == if scene.lid_present { 2nat } else { 1nat },
{
    let s0 = SessionView { pack: Some(PackView { step: Step::Intro, pending: 0, current_batch: 0 }), ..s };
    lemma_enter_keeps_coherent(s0, Step::Intro, scene);
}

/// On a coherent session every event can be taken without overflow as long
/// as the batch counter has room for one more id and the scene's card count
/// leaves room for the tweens a reveal starts.
pub proof fn lemma_events_fit(s: SessionView, scene: SceneView, batch_id: int)
    requires
        coherent(s),
        s.next_batch < u32::MAX,
        2 + 2 * scene.cards.len() <= u32::MAX,
    ensures
        swiped(s, scene).0.fits(),
        tween_done(s, batch_id, scene).0.fits(),
{
    lemma_entry_orders_shape(Step::Opening, s.next_batch + 1, s.current, scene);
    lemma_entry_orders_shape(Step::FirstCard, s.next_batch + 1, s.current, scene);
    lemma_entry_orders_shape(Step::CardReveal, s.next_batch + 1, s.current, scene);
    lemma_entry_orders_shape(Step::CardReveal, s.next_batch + 1, s.current + 1, scene);
}

/// Leaving the playground (the pack goes) and dealing cards keep a session
/// coherent; so does resetting the resources once the pack is gone.
pub proof fn lemma_setup_keeps_coherent(s: SessionView, count: int)
    requires
        coherent(s),
        0 <= count <= usize::MAX,
    ensures
        coherent(SessionView { pack: None, ..s }),
        coherent(SessionView { current: 0, total: count, ..s }),
        s.pack is None ==> coherent(SessionView { current: 0, total: 0, next_batch: 0, ..s }),
{
}

/// Once the pack holds its cards, the progress never passes the last card:
/// before completion the current card is one of the pack's cards, and on
/// completion every card has been counted. Only revealing a card counts a
/// card, and an event counts at most one.
pub open spec fn progress_within(s: SessionView) -> bool {
    s.pack matches Some(p) ==> if p.step is Complete {
        s.current == s.total
    } else {
        s.current < s.total
    }
}

/// The progress stays within the pack's cards across every event, and only
/// an event taken while a card is being revealed counts one.
pub proof fn lemma_progress_within_cards(s: SessionView, scene: SceneView, batch_id: int)
    requires
        progress_within(s),
    ensures
        progress_within(swiped(s, scene).0),
        progress_within(tween_done(s, batch_id, scene).0),
        swiped(s, scene).0.total == s.total,
        tween_done(s, batch_id, scene).0.total == s.total,
        swiped(s, scene).0.current == s.current
            || (swiped(s, scene).0.current == s.current + 1 && s.at(Step::CardReveal)),
        tween_done(s, batch_id, scene).0.current == s.current
            || (tween_done(s, batch_id, scene).0.current == s.current + 1 && s.at(Step::CardReveal)),
{
}

} // verus!
