use pack_opening::cards::{deal_cards, Card, CardProgress, Scene};
use pack_opening::sequence::{NextBatchId, PackOpening, PackState, Step};
use pack_opening::tween::{Easing, Motion, TweenOrder, TweenTarget};

fn scene(lid: bool, count: usize) -> Scene {
    Scene { lid_present: lid, cards: deal_cards(count) }
}

fn order(target: TweenTarget, motion: Motion, batch_id: u32) -> TweenOrder {
    TweenOrder { target, motion, batch_id }
}

/// Enters the playground as the scene setup does: reset, deal five cards,
/// spawn the pack.
fn entered(lid: bool) -> (PackOpening, Scene, Vec<TweenOrder>) {
    let mut s = PackOpening::new();
    s.reset_resources();
    let cards = s.spawn_cards(5);
    let scene = Scene { lid_present: lid, cards };
    let orders = s.spawn_pack(&scene);
    (s, scene, orders)
}

fn pack(s: &PackOpening) -> PackState {
    s.pack.expect("the pack is spawned")
}

/// Finishes every tween the pack is waiting for.
fn finish_batch(s: &mut PackOpening, scene: &Scene) -> Vec<TweenOrder> {
    let p = pack(s);
    let mut last = Vec::new();
    for _ in 0..p.pending {
        last = s.on_tween_batch_done(p.current_batch, scene);
    }
    last
}

#[test]
fn new_sequence_has_no_pack_and_no_progress() {
    let s = PackOpening::new();
    assert!(s.pack.is_none());
    assert_eq!(s.progress, CardProgress { current: 0, total: 0 });
    assert_eq!(s.next_batch, NextBatchId(0));
}

#[test]
fn spawn_cards_deals_indexed_cards() {
    let mut s = PackOpening::new();
    let cards = s.spawn_cards(5);
    assert_eq!(cards, vec![Card { index: 0 }, Card { index: 1 }, Card { index: 2 }, Card { index: 3 }, Card { index: 4 }]);
    assert_eq!(s.progress, CardProgress { current: 0, total: 5 });
}

#[test]
fn reset_resources_clears_progress_and_batches() {
    let (mut s, scene, _) = entered(true);
    finish_batch(&mut s, &scene);
    s.on_player_swiped(&scene);
    s.despawn_pack();
    s.reset_resources();
    assert!(s.pack.is_none());
    assert_eq!(s.progress, CardProgress::default());
    assert_eq!(s.next_batch, NextBatchId::default());
}

#[test]
fn spawning_the_pack_flies_in_pack_and_lid() {
    let (s, _, orders) = entered(true);
    assert_eq!(pack(&s), PackState { step: Step::Intro, pending: 2, current_batch: 1 });
    assert_eq!(s.next_batch, NextBatchId(1));
    assert_eq!(
        orders,
        vec![order(TweenTarget::Pack, Motion::PackFlyIn, 1), order(TweenTarget::Lid, Motion::LidFlyIn, 1)]
    );
}

#[test]
fn spawning_without_lid_waits_for_the_pack_alone() {
    let (s, _, orders) = entered(false);
    assert_eq!(pack(&s), PackState { step: Step::Intro, pending: 1, current_batch: 1 });
    assert_eq!(orders, vec![order(TweenTarget::Pack, Motion::PackFlyIn, 1)]);
}

#[test]
fn stale_completion_is_ignored() {
    let (mut s, scene, _) = entered(true);
    let orders = s.on_tween_batch_done(0, &scene);
    assert!(orders.is_empty());
    assert_eq!(pack(&s), PackState { step: Step::Intro, pending: 2, current_batch: 1 });
}

#[test]
fn step_waits_for_its_whole_batch() {
    let (mut s, scene, _) = entered(true);
    s.on_tween_batch_done(1, &scene);
    assert_eq!(pack(&s), PackState { step: Step::Intro, pending: 1, current_batch: 1 });
    s.on_tween_batch_done(1, &scene);
    // Entering the wait step takes a fresh batch too.
    assert_eq!(pack(&s), PackState { step: Step::WaitSwipe1, pending: 0, current_batch: 2 });
    assert_eq!(s.next_batch, NextBatchId(2));
}

#[test]
fn waiting_steps_ignore_completions() {
    let (mut s, scene, _) = entered(true);
    finish_batch(&mut s, &scene);
    let before = pack(&s);
    assert!(s.on_tween_batch_done(1, &scene).is_empty());
    assert!(s.on_tween_batch_done(2, &scene).is_empty());
    assert_eq!(pack(&s), before);
}

#[test]
fn first_swipe_opens_the_lid() {
    let (mut s, scene, _) = entered(true);
    finish_batch(&mut s, &scene);
    let orders = s.on_player_swiped(&scene);
    assert_eq!(pack(&s), PackState { step: Step::Opening, pending: 2, current_batch: 3 });
    assert_eq!(
        orders,
        vec![order(TweenTarget::Pack, Motion::PackNudge, 3), order(TweenTarget::Lid, Motion::LidSwingOpen, 3)]
    );
}

#[test]
fn opening_hands_over_to_the_first_card() {
    let (mut s, scene, _) = entered(true);
    finish_batch(&mut s, &scene);
    s.on_player_swiped(&scene);
    let orders = finish_batch(&mut s, &scene);
    assert_eq!(pack(&s), PackState { step: Step::FirstCard, pending: 2, current_batch: 4 });
    assert_eq!(
        orders,
        vec![order(TweenTarget::Pack, Motion::PackSettle, 4), order(TweenTarget::Card(0), Motion::CardRise, 4)]
    );
}

#[test]
fn first_card_rises_from_the_first_matching_slot_only() {
    let mut s = PackOpening::new();
    s.spawn_cards(3);
    let scene = Scene {
        lid_present: false,
        cards: vec![Card { index: 2 }, Card { index: 0 }, Card { index: 0 }],
    };
    s.spawn_pack(&scene);
    finish_batch(&mut s, &scene);
    s.on_player_swiped(&scene);
    let orders = finish_batch(&mut s, &scene);
    assert_eq!(
        orders,
        vec![order(TweenTarget::Pack, Motion::PackSettle, 4), order(TweenTarget::Card(1), Motion::CardRise, 4)]
    );
    assert_eq!(pack(&s).pending, 2);
}

#[test]
fn first_card_without_a_card_waits_for_the_pack_only() {
    let mut s = PackOpening::new();
    s.spawn_cards(1);
    let scene = Scene { lid_present: true, cards: Vec::new() };
    s.spawn_pack(&scene);
    finish_batch(&mut s, &scene);
    s.on_player_swiped(&scene);
    let orders = finish_batch(&mut s, &scene);
    assert_eq!(orders, vec![order(TweenTarget::Pack, Motion::PackSettle, 4)]);
    assert_eq!(pack(&s).pending, 1);
}

#[test]
fn reveal_throws_the_card_and_peeks_the_next() {
    let (mut s, scene, _) = entered(true);
    finish_batch(&mut s, &scene);
    s.on_player_swiped(&scene);
    finish_batch(&mut s, &scene);
    finish_batch(&mut s, &scene);
    assert_eq!(pack(&s), PackState { step: Step::WaitCard, pending: 0, current_batch: 5 });
    let orders = s.on_player_swiped(&scene);
    assert_eq!(pack(&s), PackState { step: Step::CardReveal, pending: 2, current_batch: 6 });
    assert_eq!(
        orders,
        vec![
            order(TweenTarget::Card(0), Motion::CardArc, 6),
            order(TweenTarget::Card(1), Motion::CardPeek { revealed: 0 }, 6),
        ]
    );
}

#[test]
fn revealed_card_passes_through_next_card_to_wait() {
    let (mut s, scene, _) = entered(true);
    finish_batch(&mut s, &scene);
    s.on_player_swiped(&scene);
    finish_batch(&mut s, &scene);
    finish_batch(&mut s, &scene);
    s.on_player_swiped(&scene);
    let orders = finish_batch(&mut s, &scene);
    assert!(orders.is_empty());
    // The one-frame step counted the card, took a fresh batch and rested.
    assert_eq!(pack(&s), PackState { step: Step::WaitCard, pending: 0, current_batch: 7 });
    assert_eq!(s.progress, CardProgress { current: 1, total: 5 });
    assert_eq!(s.next_batch, NextBatchId(7));
}

#[test]
fn whole_sequence_reveals_every_card() {
    let (mut s, scene, _) = entered(true);
    finish_batch(&mut s, &scene);
    assert_eq!(pack(&s).step, Step::WaitSwipe1);
    s.on_player_swiped(&scene);
    finish_batch(&mut s, &scene);
    assert_eq!(pack(&s).step, Step::FirstCard);
    finish_batch(&mut s, &scene);
    for revealed in 1..=5usize {
        assert_eq!(pack(&s).step, Step::WaitCard);
        s.on_player_swiped(&scene);
        assert_eq!(pack(&s).step, Step::CardReveal);
        finish_batch(&mut s, &scene);
        assert_eq!(s.progress.current, revealed);
    }
    assert_eq!(pack(&s).step, Step::Complete);
    assert_eq!(s.progress, CardProgress { current: 5, total: 5 });
}

#[test]
fn last_reveal_has_no_card_to_peek() {
    let (mut s, scene, _) = entered(false);
    finish_batch(&mut s, &scene);
    s.on_player_swiped(&scene);
    finish_batch(&mut s, &scene);
    finish_batch(&mut s, &scene);
    for _ in 0..4 {
        s.on_player_swiped(&scene);
        finish_batch(&mut s, &scene);
    }
    assert_eq!(s.progress.current, 4);
    let orders = s.on_player_swiped(&scene);
    assert_eq!(orders.len(), 1);
    assert_eq!(orders[0].target, TweenTarget::Card(4));
    assert_eq!(orders[0].motion, Motion::CardArc);
}

#[test]
fn swipes_skip_every_animation() {
    let (mut s, scene, _) = entered(true);
    // Skip the intro: straight to the first wait, with a fresh batch.
    assert!(s.on_player_swiped(&scene).is_empty());
    assert_eq!(pack(&s), PackState { step: Step::WaitSwipe1, pending: 0, current_batch: 2 });
    s.on_player_swiped(&scene);
    assert_eq!(pack(&s).step, Step::Opening);
    // Skip the opening: the first card starts at once.
    let orders = s.on_player_swiped(&scene);
    assert_eq!(pack(&s), PackState { step: Step::FirstCard, pending: 2, current_batch: 4 });
    assert_eq!(orders.len(), 2);
    // Skip the rise.
    assert!(s.on_player_swiped(&scene).is_empty());
    assert_eq!(pack(&s), PackState { step: Step::WaitCard, pending: 0, current_batch: 5 });
    s.on_player_swiped(&scene);
    assert_eq!(pack(&s).step, Step::CardReveal);
    // Each swipe during a reveal throws the next card at once.
    for next in 1..5usize {
        let orders = s.on_player_swiped(&scene);
        assert_eq!(pack(&s).step, Step::CardReveal);
        assert_eq!(s.progress.current, next);
        assert_eq!(orders[0].target, TweenTarget::Card(next));
        assert_eq!(orders[0].motion, Motion::CardArc);
    }
    assert!(s.on_player_swiped(&scene).is_empty());
    assert_eq!(pack(&s).step, Step::Complete);
    assert_eq!(s.progress, CardProgress { current: 5, total: 5 });
    assert_eq!(pack(&s).pending, 0);
}

#[test]
fn interrupted_tweens_are_orphaned() {
    let (mut s, scene, _) = entered(true);
    finish_batch(&mut s, &scene);
    s.on_player_swiped(&scene);
    // Swipe during the opening (batch 3): the first card takes batch 4.
    s.on_player_swiped(&scene);
    let after = pack(&s);
    assert_eq!(after.current_batch, 4);
    // The lid and pack tweens of the opening still finish, and are ignored.
    assert!(s.on_tween_batch_done(3, &scene).is_empty());
    assert!(s.on_tween_batch_done(3, &scene).is_empty());
    assert_eq!(pack(&s), after);
}

#[test]
fn complete_ignores_swipes_and_completions() {
    let (mut s, scene, _) = entered(true);
    for _ in 0..12 {
        s.on_player_swiped(&scene);
    }
    assert_eq!(pack(&s).step, Step::Complete);
    let before = pack(&s);
    let batches = s.next_batch;
    assert!(s.on_player_swiped(&scene).is_empty());
    assert!(s.on_tween_batch_done(before.current_batch, &scene).is_empty());
    assert_eq!(pack(&s), before);
    assert_eq!(s.next_batch, batches);
    assert_eq!(s.progress, CardProgress { current: 5, total: 5 });
}

#[test]
fn empty_pack_completes_after_one_reveal() {
    let mut s = PackOpening::new();
    s.reset_resources();
    let scene = Scene { lid_present: true, cards: Vec::new() };
    s.spawn_pack(&scene);
    s.on_player_swiped(&scene);
    s.on_player_swiped(&scene);
    s.on_player_swiped(&scene);
    s.on_player_swiped(&scene);
    assert_eq!(pack(&s).step, Step::WaitCard);
    let orders = s.on_player_swiped(&scene);
    assert!(orders.is_empty());
    // Nothing to wait for: the reveal stays until the player swipes again.
    assert_eq!(pack(&s).step, Step::CardReveal);
    assert_eq!(pack(&s).pending, 0);
    s.on_player_swiped(&scene);
    assert_eq!(pack(&s).step, Step::Complete);
    assert_eq!(s.progress, CardProgress { current: 1, total: 0 });
}

#[test]
fn dispatch_turns_many_messages_into_one_swipe() {
    let (mut s, scene, _) = entered(true);
    let before = pack(&s);
    assert!(s.dispatch_swipe(0, &scene).is_empty());
    assert_eq!(pack(&s), before);
    s.dispatch_swipe(3, &scene);
    assert_eq!(pack(&s).step, Step::WaitSwipe1);
}

#[test]
fn without_a_pack_events_do_nothing() {
    let (mut s, scene, _) = entered(true);
    s.despawn_pack();
    assert!(s.pack.is_none());
    assert!(s.on_player_swiped(&scene).is_empty());
    assert!(s.on_tween_batch_done(1, &scene).is_empty());
    assert!(s.pack.is_none());
    assert_eq!(s.next_batch, NextBatchId(1));
}

#[test]
fn motions_name_their_easing() {
    assert_eq!(Easing::default(), Easing::Linear);
    assert_eq!(Motion::PackFlyIn.easing(), Easing::EaseOutBack);
    assert_eq!(Motion::LidFlyIn.easing(), Easing::EaseOutBack);
    assert_eq!(Motion::PackNudge.easing(), Easing::EaseOut);
    assert_eq!(Motion::LidSwingOpen.easing(), Easing::EaseOutBack);
    assert_eq!(Motion::PackSettle.easing(), Easing::EaseOut);
    assert_eq!(Motion::CardRise.easing(), Easing::EaseOutBack);
    assert_eq!(Motion::CardArc.easing(), Easing::EaseInOut);
    assert_eq!(Motion::CardPeek { revealed: 0 }.easing(), Easing::EaseOut);
    assert!(Motion::CardRise.shows_target());
    assert!(Motion::CardPeek { revealed: 2 }.shows_target());
    assert!(!Motion::CardArc.shows_target());
    assert!(!Motion::PackFlyIn.shows_target());
}

#[test]
fn scene_lists_cards_in_order() {
    let sc = scene(true, 2);
    assert_eq!(sc.cards, vec![Card { index: 0 }, Card { index: 1 }]);
}
