use vstd::prelude::*;

verus! {

/// A card of the pack, known by its position in the pack.
#[derive(Clone, Copy, Debug, PartialEq, Eq, Structural)]
pub struct Card {
    pub index: usize,
}

/// Which card index is currently being (or about to be) revealed, out of how
/// many cards the pack holds.
#[derive(Clone, Copy, Debug, PartialEq, Eq, Structural)]
pub struct CardProgress {
    pub current: usize,
    pub total: usize,
}

impl Default for CardProgress {
    fn default() -> (p: CardProgress)
        ensures
            p.current == 0,
            p.total == 0,
    {
        CardProgress { current: 0, total: 0 }
    }
}

/// What the sequence reads from the world when a step is entered: whether the
/// lid exists, and the cards in the order the world lists them.
pub struct Scene {
    pub lid_present: bool,
    pub cards: Vec<Card>,
}

/// The mathematical content of a [`Scene`].
pub struct SceneView {
    pub lid_present: bool,
    pub cards: Seq<Card>,
}

impl View for Scene {
    type V = SceneView;

    open spec fn view(&self) -> SceneView {
        SceneView { lid_present: self.lid_present, cards: self.cards@ }
    }
}

/// The cards dealt into a pack of `count`: card `i` has index `i`.
pub open spec fn dealt(count: nat) -> Seq<Card> {
    Seq::new(count, |i: int| Card { index: i as usize })
}

/// Deals `count` cards, indexed from zero in order.
pub fn deal_cards(count: usize) -> (cards: Vec<Card>)
    ensures
        cards@ == dealt(count as nat),
{
    let mut cards: Vec<Card> = Vec::new();
    let mut i: usize = 0;
    while i < count
        invariant
            i <= count,
            cards@ == dealt(i as nat),
        decreases count - i,
    {
        cards.push(Card { index: i });
        i = i + 1;
        assert(cards@ =~= dealt(i as nat));
    }
    cards
}

} // verus!
