//! The pack opening sequence: the step the pack is in, and what each event
//! does to it.

use vstd::prelude::*;
use crate::cards::{deal_cards, dealt, Card, CardProgress, Scene};
use crate::model::{enter, spawned, entry_orders, first_slot_with, is_first_slot, reveal_orders, skip_to, slot_orders, swiped, tween_done, PackView, SessionView};
use crate::tween::{Motion, TweenOrder, TweenTarget};

verus! {

/// The step the pack is in. Exactly one step marker lives on the pack at a
/// time.
#[derive(Clone, Copy, Debug, PartialEq, Eq, Structural)]
pub enum Step {
    /// Pack and lid fly in from off-screen.
    Intro,
    /// Waiting for the first swipe.
    WaitSwipe1,
    /// The lid swings open and the pack nudges.
    Opening,
    /// The first card rises from the pack.
    FirstCard,
    /// Waiting for the swipe that reveals the current card.
    WaitCard,
    /// The current card flies along an arc; the next one peeks out.
    CardReveal,
    /// One-frame transit: count the revealed card and route on.
    NextCard,
    /// Every card is revealed.
    Complete,
}

/// The batch bookkeeping the pack carries besides its step.
#[derive(Clone, Copy, Debug, PartialEq, Eq, Structural)]
pub struct PackState {
    pub step: Step,
    /// How many tweens of the current batch are still running.
    pub pending: u32,
    /// The batch whose completions the pack listens to; completions of any
    /// other batch are stale.
    pub current_batch: u32,
}

/// The counter that hands out batch ids: each step entry takes the next one.
#[derive(Clone, Copy, Debug, PartialEq, Eq, Structural)]
pub struct NextBatchId(pub u32);

impl Default for NextBatchId {
    fn default() -> (n: NextBatchId)
        ensures
            n.0 == 0,
    {
        NextBatchId(0)
    }
}

/// The pack opening sequence: the pack (once spawned), the card progress and
/// the batch counter.
pub struct PackOpening {
    pub pack: Option<PackState>,
    pub progress: CardProgress,
    pub next_batch: NextBatchId,
}

impl PackState {
    pub open spec fn view(self) -> PackView {
        PackView { step: self.step, pending: self.pending as int, current_batch: self.current_batch as int }
    }
}

impl View for PackOpening {
    type V = SessionView;

    open spec fn view(&self) -> SessionView {
        SessionView {
            pack: match self.pack {
                Some(p) => Some(p.view()),
                None => None,
            },
            current: self.progress.current as int,
            total: self.progress.total as int,
            next_batch: self.next_batch.0 as int,
        }
    }
}

/// The first slot of `cards` holding the card with index `index`.
fn first_card_slot(cards: &Vec<Card>, index: usize) -> (r: Option<usize>)
    ensures
        match r {
            Some(j) => first_slot_with(cards@, index as int) == Some(j as int),
            None => first_slot_with(cards@, index as int) is None,
        },
{
    let mut i: usize = 0;
    while i < cards.len()
        invariant
            i <= cards.len(),
            forall|k: int| 0 <= k < i ==> #[trigger] cards@[k].index != index,
        decreases cards.len() - i,
    {
        if cards[i].index == index {
            assert(is_first_slot(cards@, index as int, i as int));
            return Some(i);
        }
        i = i + 1;
    }
    proof {
        assert forall|j: int| !is_first_slot(cards@, index as int, j) by {
            if 0 <= j < cards@.len() {
                assert(cards@[j].index != index);
            }
        }
    }
    None
}

/// The orders for revealing card `idx`: for each slot in order, the card
/// itself flies along the arc and the next card peeks out of the pack.
fn reveal_card_orders(cards: &Vec<Card>, idx: usize, batch: u32) -> (orders: Vec<TweenOrder>)
    ensures
        orders@ == reveal_orders(cards@, idx as int, batch as int),
{
    let mut orders: Vec<TweenOrder> = Vec::new();
    let mut i: usize = 0;
    while i < cards.len()
        invariant
            i <= cards.len(),
            orders@ == reveal_orders(cards@.take(i as int), idx as int, batch as int),
        decreases cards.len() - i,
    {
        let card = cards[i];
        let ghost before = orders@;
        if card.index == idx {
            orders.push(TweenOrder { target: TweenTarget::Card(i), motion: Motion::CardArc, batch_id: batch });
        }
        if card.index > idx && card.index - 1 == idx {
            orders.push(
                TweenOrder {
                    target: TweenTarget::Card(i),
                    motion: Motion::CardPeek { revealed: idx },
                    batch_id: batch,
                },
            );
        }
        proof {
            let next = cards@.take(i + 1);
            assert(next.drop_last() =~= cards@.take(i as int));
            assert(orders@ =~= before + slot_orders(card, i as int, idx as int, batch as int));
        }
        i = i + 1;
    }
    proof {
        assert(cards@.take(cards@.len() as int) =~= cards@);
    }
    orders
}

/// The tweens `step` starts when it is entered with batch `batch`.
fn step_entry_orders(step: Step, batch: u32, current: usize, scene: &Scene) -> (orders: Vec<TweenOrder>)
    ensures
        orders@ == entry_orders(step, batch as int, current as int, scene@),
{
    let mut orders: Vec<TweenOrder> = Vec::new();
    match step {
        Step::Intro => {
            orders.push(TweenOrder { target: TweenTarget::Pack, motion: Motion::PackFlyIn, batch_id: batch });
            if scene.lid_present {
                orders.push(TweenOrder { target: TweenTarget::Lid, motion: Motion::LidFlyIn, batch_id: batch });
            }
        },
        Step::Opening => {
            orders.push(TweenOrder { target: TweenTarget::Pack, motion: Motion::PackNudge, batch_id: batch });
            if scene.lid_present {
                orders.push(TweenOrder { target: TweenTarget::Lid, motion: Motion::LidSwingOpen, batch_id: batch });
            }
        },
        Step::FirstCard => {
            orders.push(TweenOrder { target: TweenTarget::Pack, motion: Motion::PackSettle, batch_id: batch });
            match first_card_slot(&scene.cards, current) {
                Some(j) => {
                    orders.push(TweenOrder { target: TweenTarget::Card(j), motion: Motion::CardRise, batch_id: batch });
                },
                None => {},
            }
        },
        Step::CardReveal => {
            orders = reveal_card_orders(&scene.cards, current, batch);
        },
        _ => {},
    }
    orders
}

impl PackOpening {
    /// The sequence before the playground is entered: no pack, no cards, no
    /// batch handed out.
    pub fn new() -> (s: PackOpening)
        ensures
            s@ == (SessionView { pack: None, current: 0, total: 0, next_batch: 0 }),
    {
        PackOpening { pack: None, progress: CardProgress::default(), next_batch: NextBatchId::default() }
    }

    /// Puts `step`'s marker on the pack and runs what entering it does.
    fn enter_step(&mut self, step: Step, scene: &Scene) -> (orders: Vec<TweenOrder>)
        requires
            enter(old(self)@, step, scene@).0.fits(),
        ensures
            (final(self)@, orders@) == enter(old(self)@, step, scene@),
    {
        match self.pack {
            None => Vec::new(),
            Some(_) => match step {
                Step::Intro | Step::Opening | Step::FirstCard | Step::CardReveal => {
                    let batch: u32 = self.next_batch.0 + 1;
                    let orders = step_entry_orders(step, batch, self.progress.current, scene);
                    let count: u32 = orders.len() as u32;
                    self.next_batch = NextBatchId(batch);
                    self.pack = Some(PackState { step, pending: count, current_batch: batch });
                    orders
                },
                Step::NextCard => {
                    let current: usize = self.progress.current + 1;
                    let batch: u32 = self.next_batch.0 + 1;
                    self.progress = CardProgress { current, total: self.progress.total };
                    self.next_batch = NextBatchId(batch);
                    let resting = if current >= self.progress.total {
                        Step::Complete
                    } else {
                        Step::WaitCard
                    };
                    self.pack = Some(PackState { step: resting, pending: 0, current_batch: batch });
                    Vec::new()
                },
                _ => {
                    self.skip_to(step);
                    Vec::new()
                },
            },
        }
    }

    /// Jumps to `step` with a fresh batch and nothing pending.
    fn skip_to(&mut self, step: Step)
        requires
            skip_to(old(self)@, step).fits(),
        ensures
            final(self)@ == skip_to(old(self)@, step),
    {
        match self.pack {
            None => {},
            Some(_) => {
                let batch: u32 = self.next_batch.0 + 1;
                self.next_batch = NextBatchId(batch);
                self.pack = Some(PackState { step, pending: 0, current_batch: batch });
            },
        }
    }

    /// Reacts to a tween of batch `batch_id` finishing.
    pub fn on_tween_batch_done(&mut self, batch_id: u32, scene: &Scene) -> (orders: Vec<TweenOrder>)
        requires
            tween_done(old(self)@, batch_id as int, scene@).0.fits(),
        ensures
            (final(self)@, orders@) == tween_done(old(self)@, batch_id as int, scene@),
    {
        match self.pack {
            None => Vec::new(),
            Some(p) => {
                if batch_id != p.current_batch || p.pending == 0 {
                    return Vec::new();
                }
                let pending: u32 = p.pending - 1;
                self.pack = Some(PackState { step: p.step, pending, current_batch: p.current_batch });
                if pending > 0 {
                    return Vec::new();
                }
                match p.step {
                    Step::Intro => self.enter_step(Step::WaitSwipe1, scene),
                    Step::Opening => self.enter_step(Step::FirstCard, scene),
                    Step::FirstCard => self.enter_step(Step::WaitCard, scene),
                    Step::CardReveal => self.enter_step(Step::NextCard, scene),
                    _ => Vec::new(),
                }
            },
        }
    }

    /// Reacts to the player swiping.
    pub fn on_player_swiped(&mut self, scene: &Scene) -> (orders: Vec<TweenOrder>)
        requires
            swiped(old(self)@, scene@).0.fits(),
        ensures
            (final(self)@, orders@) == swiped(old(self)@, scene@),
    {
        match self.pack {
            None => Vec::new(),
            Some(p) => match p.step {
                Step::WaitSwipe1 => self.enter_step(Step::Opening, scene),
                Step::WaitCard => self.enter_step(Step::CardReveal, scene),
                Step::Intro => {
                    self.skip_to(Step::WaitSwipe1);
                    Vec::new()
                },
                Step::Opening => self.enter_step(Step::FirstCard, scene),
                Step::FirstCard => {
                    self.skip_to(Step::WaitCard);
                    Vec::new()
                },
                Step::CardReveal => {
                    let current: usize = self.progress.current + 1;
                    self.progress = CardProgress { current, total: self.progress.total };
                    if current >= self.progress.total {
                        self.skip_to(Step::Complete);
                        Vec::new()
                    } else {
                        self.enter_step(Step::CardReveal, scene)
                    }
                },
                _ => Vec::new(),
            },
        }
    }
    /// Resets the resources for a new session: no card progress and batch
    /// counting from zero again. The pack is left alone.
    pub fn reset_resources(&mut self)
        ensures
            final(self)@ == (SessionView { current: 0, total: 0, next_batch: 0, ..old(self)@ }),
    {
        self.progress = CardProgress::default();
        self.next_batch = NextBatchId::default();
    }

    /// Deals `count` cards into the pack and starts the progress at the
    /// first of them.
    pub fn spawn_cards(&mut self, count: usize) -> (cards: Vec<Card>)
        ensures
            cards@ == dealt(count as nat),
            final(self)@ == (SessionView { current: 0, total: count as int, ..old(self)@ }),
    {
        let cards = deal_cards(count);
        self.progress = CardProgress { current: 0, total: count };
        cards
    }

    /// Spawns the pack with the intro marker and enters the intro.
    pub fn spawn_pack(&mut self, scene: &Scene) -> (orders: Vec<TweenOrder>)
        requires
            old(self).pack is None,
            spawned(old(self)@, scene@).0.fits(),
        ensures
            (final(self)@, orders@) == spawned(old(self)@, scene@),
    {
        self.pack = Some(PackState { step: Step::Intro, pending: 0, current_batch: 0 });
        self.enter_step(Step::Intro, scene)
    }

    /// Removes the pack, as leaving the playground does.
    pub fn despawn_pack(&mut self)
        ensures
            final(self)@ == (SessionView { pack: None, ..old(self)@ }),
    {
        self.pack = None;
    }

    /// Turns the swipe messages of a frame into at most one swipe: the
    /// player swiped if at least one message came in.
    pub fn dispatch_swipe(&mut self, message_count: usize, scene: &Scene) -> (orders: Vec<TweenOrder>)
        requires
            message_count > 0 ==> swiped(old(self)@, scene@).0.fits(),
        ensures
            message_count > 0 ==> (final(self)@, orders@) == swiped(old(self)@, scene@),
            message_count == 0 ==> final(self)@ == old(self)@ && orders@.len() == 0,
    {
        if message_count > 0 {
            self.on_player_swiped(scene)
        } else {
            Vec::new()
        }
    }
}

} // verus!
