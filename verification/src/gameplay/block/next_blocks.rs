//! The sequence of pieces to come. Pieces are dealt from bags that hold each
//! of the seven kinds once, so that no kind stays away for long.

use vstd::prelude::*;
use rand::seq::SliceRandom;
use crate::gameplay::block::block_datas::{is_piece, BlockType};

verus! {

/// Number of pieces in a bag: one of each kind.
pub const BAG_SIZE: usize = 7;

/// The seven kinds of piece, in the order a bag holds them before it is
/// shuffled.
pub open spec fn piece_order() -> Seq<BlockType> {
    seq![
        BlockType::I,
        BlockType::O,
        BlockType::T,
        BlockType::S,
        BlockType::Z,
        BlockType::J,
        BlockType::L,
    ]
}

/// `s` holds each of the seven kinds of piece exactly once, in some order.
pub open spec fn is_piece_permutation(s: Seq<BlockType>) -> bool {
    s.to_multiset() == piece_order().to_multiset()
}

/// What is decided of the pieces to come: at `k`, the piece that the
/// `k`-th draw from now will give; the empty kind beyond what is decided.
pub open spec fn preview(queue: Seq<BlockType>, k: int) -> BlockType {
    if 0 <= k < queue.len() {
        queue[k]
    } else {
        BlockType::Empty
    }
}

/// One draw: the first piece of the queue leaves it. A draw from a queue
/// that is down to a single bag also puts a freshly shuffled bag behind it.
pub open spec fn draws(before: Seq<BlockType>, after: Seq<BlockType>, piece: BlockType) -> bool {
    &&& before.len() >= BAG_SIZE
    &&& piece == before[0]
    &&& if before.len() > BAG_SIZE {
        after == before.drop_first()
    } else {
        exists|refill: Seq<BlockType>|
            is_piece_permutation(refill) && after == before.drop_first() + refill
    }
}

/// The queue stands at the start of a bag: it is one whole bag, or two.
pub open spec fn at_bag_start(queue: Seq<BlockType>) -> bool {
    ||| queue.len() == BAG_SIZE && is_piece_permutation(queue)
    ||| queue.len() == 2 * BAG_SIZE && is_piece_permutation(queue.subrange(0, BAG_SIZE as int))
        && is_piece_permutation(queue.subrange(BAG_SIZE as int, 2 * BAG_SIZE))
}

/// `pieces` were drawn one after the other, and `states` are the queues
/// before, between and after those draws.
pub open spec fn is_draw_history(states: Seq<Seq<BlockType>>, pieces: Seq<BlockType>) -> bool {
    &&& states.len() == pieces.len() + 1
    &&& forall|i: int|
        0 <= i < pieces.len() ==> draws(#[trigger] states[i], states[i + 1], pieces[i])
}

/// A sequence that holds each kind of piece once has seven entries, all of
/// them pieces, none of them twice, and none of the kinds is missing.
pub proof fn lemma_piece_permutation(s: Seq<BlockType>)
    requires
        is_piece_permutation(s),
    ensures
        s.len() == BAG_SIZE,
        forall|i: int| 0 <= i < s.len() ==> is_piece(#[trigger] s[i]),
        forall|kind: BlockType| is_piece(kind) ==> s.contains(kind),
        s.no_duplicates(),
{
    let p = piece_order();
    s.to_multiset_ensures();
    p.to_multiset_ensures();
    assert(p.len() == 7);
    assert forall|i: int| 0 <= i < s.len() implies is_piece(#[trigger] s[i]) by {
        assert(s.contains(s[i]));
        assert(s.to_multiset().count(s[i]) > 0);
        assert(p.to_multiset().count(s[i]) > 0);
        assert(p.contains(s[i]));
    }
    assert forall|kind: BlockType| is_piece(kind) implies s.contains(kind) by {
        let k: int = match kind {
            BlockType::I => 0,
            BlockType::O => 1,
            BlockType::T => 2,
            BlockType::S => 3,
            BlockType::Z => 4,
            BlockType::J => 5,
            _ => 6,
        };
        assert(p[k] == kind);
        assert(p.contains(kind));
        assert(p.to_multiset().count(kind) > 0);
        assert(s.to_multiset().count(kind) > 0);
    }
    assert(p.no_duplicates());
    p.lemma_multiset_has_no_duplicates();
    s.lemma_multiset_has_no_duplicates_conv();
}

/// As long as the queue holds more than a bag, draws take its pieces in
/// order and add nothing.
proof fn lemma_plain_draws(states: Seq<Seq<BlockType>>, pieces: Seq<BlockType>, start: int, n: int)
    requires
        is_draw_history(states, pieces),
        0 <= start,
        0 <= n,
        start + n <= pieces.len(),
        states[start].len() >= BAG_SIZE + n,
    ensures
        states[start + n] == states[start].subrange(n, states[start].len() as int),
        forall|j: int| 0 <= j < n ==> pieces[start + j] == states[start][j],
    decreases n,
{
    let first = states[start];
    if n == 0 {
        assert(first.subrange(0, first.len() as int) =~= first);
    } else {
        lemma_plain_draws(states, pieces, start, n - 1);
        let before = states[start + n - 1];
        assert(draws(before, states[start + n - 1 + 1], pieces[start + n - 1]));
        assert(before.drop_first() =~= first.subrange(n, first.len() as int));
    }
}

/// Seven draws from the start of a bag give that bag, and end at the start
/// of the next.
proof fn lemma_one_bag(states: Seq<Seq<BlockType>>, pieces: Seq<BlockType>, start: int)
    requires
        is_draw_history(states, pieces),
        0 <= start,
        start + BAG_SIZE <= pieces.len(),
        at_bag_start(states[start]),
    ensures
        is_piece_permutation(pieces.subrange(start, start + BAG_SIZE)),
        at_bag_start(states[start + BAG_SIZE]),
{
    let first = states[start];
    let run = pieces.subrange(start, start + BAG_SIZE);
    if first.len() == 2 * BAG_SIZE {
        lemma_plain_draws(states, pieces, start, 7);
        assert(run =~= first.subrange(0, 7));
    } else {
        assert(draws(first, states[start + 1], pieces[start]));
        let refill = choose|refill: Seq<BlockType>|
            is_piece_permutation(refill) && states[start + 1] == first.drop_first() + refill;
        lemma_piece_permutation(refill);
        let second = states[start + 1];
        lemma_plain_draws(states, pieces, start + 1, 6);
        assert(states[start + 1 + 6] =~= refill);
        assert forall|j: int| 0 <= j < 7 implies run[j] == first[j] by {
            if j > 0 {
                assert(pieces[start + 1 + (j - 1)] == second[j - 1]);
            }
        }
        assert(run =~= first);
    }
}

/// From the start of a bag on, every run of seven draws, taken one run
/// after the other, gives each of the seven kinds of piece exactly once.
pub proof fn lemma_runs_of_seven(states: Seq<Seq<BlockType>>, pieces: Seq<BlockType>, run: int)
    requires
        is_draw_history(states, pieces),
        at_bag_start(states[0]),
        0 <= run,
        BAG_SIZE * (run + 1) <= pieces.len(),
    ensures
        is_piece_permutation(pieces.subrange(BAG_SIZE * run, BAG_SIZE * run + BAG_SIZE)),
        at_bag_start(states[BAG_SIZE * run + BAG_SIZE]),
    decreases run,
{
    if run > 0 {
        lemma_runs_of_seven(states, pieces, run - 1);
    }
    lemma_one_bag(states, pieces, BAG_SIZE * run);
}

/// Draws never disturb what the queue already holds: after `n` draws the
/// queue starts with what was behind its first `n` pieces.
proof fn lemma_queue_is_kept(states: Seq<Seq<BlockType>>, pieces: Seq<BlockType>, n: int)
    requires
        is_draw_history(states, pieces),
        0 <= n <= pieces.len(),
    ensures
        states[n].len() >= states[0].len() - n,
        forall|j: int| 0 <= j && n + j < states[0].len() ==> states[n][j] == states[0][n + j],
    decreases n,
{
    if n > 0 {
        lemma_queue_is_kept(states, pieces, n - 1);
        assert(draws(states[n - 1], states[n - 1 + 1], pieces[n - 1]));
    }
}

/// What the preview shows at `k` is what the draw after `k` draws gives,
/// for every `k` within what the queue has decided.
pub proof fn lemma_preview_matches_draws(states: Seq<Seq<BlockType>>, pieces: Seq<BlockType>, k: int)
    requires
        is_draw_history(states, pieces),
        0 <= k < pieces.len(),
        k < states[0].len(),
    ensures
        pieces[k] == preview(states[0], k),
        is_piece(pieces[k]) ==> preview(states[0], k) != BlockType::Empty,
{
    lemma_queue_is_kept(states, pieces, k);
    assert(draws(states[k], states[k + 1], pieces[k]));
}

/// Shuffles the pieces of a bag in place with `rand`'s `SliceRandom::shuffle`,
/// drawing from `rand::rng()`. The shuffle only swaps entries, so the bag
/// holds afterwards what it held before, in an order of which nothing is
/// claimed.
#[verifier::external_body]
fn shuffle_blocks(blocks: &mut [BlockType; BAG_SIZE])
    ensures
        final(blocks)@.to_multiset() == old(blocks)@.to_multiset(),
{
    let mut rng = rand::rng();
    blocks.shuffle(&mut rng);
}

/// One bag: the seven kinds of piece in a shuffled order, dealt from the
/// front.
#[derive(Clone, Copy)]
pub struct Bag {
    blocks: [BlockType; BAG_SIZE],
    index: usize,
}

impl Bag {
    /// A bag always holds each kind once, and has dealt at most all of them.
    #[verifier::type_invariant]
    pub closed spec fn inv(&self) -> bool {
        is_piece_permutation(self.blocks@) && self.index <= BAG_SIZE
    }

    /// The pieces still in the bag, in the order they will be dealt.
    pub closed spec fn view(&self) -> Seq<BlockType> {
        self.blocks@.subrange(self.index as int, BAG_SIZE as int)
    }

    /// Whatever was dealt so far, what is left are pieces, no kind twice.
    pub proof fn lemma_rest_are_pieces(&self)
        requires
            self.inv(),
        ensures
            self@.len() <= BAG_SIZE,
            forall|i: int| 0 <= i < self@.len() ==> is_piece(#[trigger] self@[i]),
            self@.no_duplicates(),
    {
        lemma_piece_permutation(self.blocks@);
    }

    /// A full bag, freshly shuffled.
    pub fn new() -> (bag: Self)
        ensures
            is_piece_permutation(bag@),
    {
        let blocks = [
            BlockType::I,
            BlockType::O,
            BlockType::T,
            BlockType::S,
            BlockType::Z,
            BlockType::J,
            BlockType::L,
        ];
        assert(blocks@ =~= piece_order());
        let mut bag = Bag { blocks, index: 0 };
        bag.init();
        bag
    }

    /// Puts all seven pieces back and shuffles them.
    pub fn init(&mut self)
        ensures
            is_piece_permutation(final(self)@),
    {
        proof {
            use_type_invariant(&*self);
        }
        let mut blocks = self.blocks;
        shuffle_blocks(&mut blocks);
        *self = Bag { blocks, index: 0 };
        assert(self@ =~= blocks@);
    }

    /// Deals the next piece. An empty bag deals the empty kind and stays
    /// empty.
    pub fn next(&mut self) -> (piece: BlockType)
        ensures
            old(self)@.len() > 0 ==> piece == old(self)@[0] && final(self)@ == old(self)@.drop_first()
                && is_piece(piece),
            old(self)@.len() == 0 ==> piece == BlockType::Empty && final(self)@ == old(self)@,
    {
        proof {
            use_type_invariant(&*self);
            self.lemma_rest_are_pieces();
        }
        if self.index >= BAG_SIZE {
            return BlockType::Empty;
        }
        let block = self.blocks[self.index];
        assert(block == self@[0]);
        self.index += 1;
        assert(self@ =~= old(self)@.drop_first());
        block
    }

    /// The piece that will be dealt after `look_ahead` others; the empty
    /// kind where the bag does not hold that many.
    pub fn show_next_block(&self, look_ahead: usize) -> (piece: BlockType)
        ensures
            piece == preview(self@, look_ahead as int),
            look_ahead < self@.len() ==> is_piece(piece),
    {
        proof {
            use_type_invariant(self);
            self.lemma_rest_are_pieces();
        }
        if look_ahead >= BAG_SIZE - self.index {
            return BlockType::Empty;
        }
        self.blocks[self.index + look_ahead]
    }

    /// How many pieces are left in the bag.
    pub fn rest(&self) -> (left: usize)
        ensures
            left == self@.len(),
            left <= BAG_SIZE,
    {
        proof {
            use_type_invariant(self);
        }
        BAG_SIZE - self.index
    }
}

/// The pieces to come: the bag that is being dealt from and, behind it, a
/// full bag that is already shuffled, so that the preview can look past the
/// end of the current bag.
pub struct NextBlocks {
    bags: [Bag; 2],
    now_bag_index: usize,
}

impl NextBlocks {
    /// One bag is current and the other one is full.
    #[verifier::type_invariant]
    pub closed spec fn inv(&self) -> bool {
        &&& self.now_bag_index < 2
        &&& self.bags@[0].inv()
        &&& self.bags@[1].inv()
        &&& self.bags@[1 - self.now_bag_index as int].index == 0
    }

    /// Every piece that is decided, in the order of the draws to come: the
    /// rest of the current bag, then the bag behind it.
    pub closed spec fn queue(&self) -> Seq<BlockType> {
        self.bags@[self.now_bag_index as int]@ + self.bags@[1 - self.now_bag_index as int]@
    }

    /// At least one bag is decided at any time, at most two, and all that is
    /// decided are pieces.
    pub proof fn lemma_queue(&self)
        requires
            self.inv(),
        ensures
            BAG_SIZE <= self.queue().len() <= 2 * BAG_SIZE,
            forall|i: int| 0 <= i < self.queue().len() ==> is_piece(#[trigger] self.queue()[i]),
    {
        self.bags@[0].lemma_rest_are_pieces();
        self.bags@[1].lemma_rest_are_pieces();
        lemma_piece_permutation(self.bags@[0].blocks@);
        lemma_piece_permutation(self.bags@[1].blocks@);
    }

    /// Two full bags, freshly shuffled.
    pub fn new() -> (next_blocks: Self)
        ensures
            next_blocks.queue().len() == 2 * BAG_SIZE,
            at_bag_start(next_blocks.queue()),
    {
        let first = Bag::new();
        let second = Bag::new();
        proof {
            use_type_invariant(&first);
            use_type_invariant(&second);
            lemma_piece_permutation(first@);
            lemma_piece_permutation(second@);
            assert(first@ =~= first.blocks@);
            assert(second@ =~= second.blocks@);
        }
        let next_blocks = NextBlocks { bags: [first, second], now_bag_index: 0 };
        proof {
            let q = next_blocks.queue();
            assert(q.subrange(0, BAG_SIZE as int) =~= first@);
            assert(q.subrange(BAG_SIZE as int, 2 * BAG_SIZE) =~= second@);
        }
        next_blocks
    }

    /// The index of the bag behind the current one.
    fn next_bag_index(&self) -> (other: usize)
        ensures
            other == 1 - self.now_bag_index,
    {
        proof {
            use_type_invariant(self);
        }
        (self.now_bag_index + 1) % 2
    }

    /// Draws the next piece. When the current bag is used up it is
    /// reshuffled and put behind the other bag, which becomes current.
    pub fn next(&mut self) -> (piece: BlockType)
        ensures
            draws(old(self).queue(), final(self).queue(), piece),
            is_piece(piece),
    {
        proof {
            use_type_invariant(&*self);
            self.lemma_queue();
        }
        let now = self.now_bag_index;
        let other = self.next_bag_index();
        let mut current = self.bags[now];
        let behind = self.bags[other];
        proof {
            use_type_invariant(&current);
            use_type_invariant(&behind);
            lemma_piece_permutation(behind.blocks@);
            assert(behind@ =~= behind.blocks@);
        }
        let ghost before = self.queue();
        let next_block = current.next();
        if next_block == BlockType::Empty {
            current.init();
            let mut dealt = behind;
            let piece = dealt.next();
            proof {
                use_type_invariant(&current);
                use_type_invariant(&dealt);
                lemma_piece_permutation(current@);
                assert(before =~= behind@);
            }
            *self = if other == 0 {
                NextBlocks { bags: [dealt, current], now_bag_index: 0 }
            } else {
                NextBlocks { bags: [current, dealt], now_bag_index: 1 }
            };
            assert(self.queue() =~= before.drop_first() + current@);
            return piece;
        }
        proof {
            use_type_invariant(&current);
        }
        *self = if now == 0 {
            NextBlocks { bags: [current, behind], now_bag_index: 0 }
        } else {
            NextBlocks { bags: [behind, current], now_bag_index: 1 }
        };
        assert(self.queue() =~= before.drop_first());
        next_block
    }

    /// The piece that the draw after `look_ahead` draws will give, without
    /// drawing anything. Beyond the bags that are decided it is the empty
    /// kind.
    pub fn show_next_block(&self, look_ahead: usize) -> (piece: BlockType)
        ensures
            piece == preview(self.queue(), look_ahead as int),
            look_ahead < self.queue().len() ==> is_piece(piece),
            self.queue().len() >= BAG_SIZE,
    {
        proof {
            use_type_invariant(self);
            self.lemma_queue();
        }
        let current_bag = &self.bags[self.now_bag_index];
        let current_rest = current_bag.rest();
        if current_rest <= look_ahead {
            let next_bag = &self.bags[self.next_bag_index()];
            next_bag.show_next_block(look_ahead - current_rest)
        } else {
            current_bag.show_next_block(look_ahead)
        }
    }
}

} // verus!
