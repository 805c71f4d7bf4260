use vstd::prelude::*;

use crate::draw::draw_below;
use crate::moves::{
    axis, face_at, lemma_candidates_after, lemma_candidates_at_start, lemma_open_after_off_axis,
    mod_of_draw, open_after, Dir, Mod, Move, PrevDirs,
};

verus! {

/// How many moves a scramble holds.
pub const SCRAMBLE_MOVES: usize = 30;

/// No two neighbouring moves turn faces of the same axis.
pub open spec fn axes_alternate(s: Seq<Move>) -> bool {
    forall|j: int| 0 <= j < s.len() - 1 ==> axis(#[trigger] s[j].face()) != axis(s[j + 1].face())
}

/// A fixed-length sequence of moves in which neighbouring moves never turn
/// faces of the same axis.
#[derive(Clone, Copy, Debug, PartialEq, Eq)]
pub struct Scramble {
    moves: [Move; SCRAMBLE_MOVES],
}

impl View for Scramble {
    type V = Seq<Move>;

    closed spec fn view(&self) -> Seq<Move> {
        self.moves@
    }
}

impl Scramble {
    #[verifier::type_invariant]
    spec fn no_axis_repeat(self) -> bool {
        axes_alternate(self.moves@)
    }

    /// Builds the scramble that a list of uniform draws selects. The first
    /// face draw picks among all six faces in their fixed order; each later
    /// one among the four faces off the previous move's axis, in that order.
    /// Each turn draw picks Forward, Reverse or Double.
    pub fn from_draws(
        face_draws: &[u8; SCRAMBLE_MOVES],
        turn_draws: &[u8; SCRAMBLE_MOVES],
    ) -> (r: Scramble)
        requires
            face_draws[0] < 6,
            forall|j: int| 1 <= j < SCRAMBLE_MOVES ==> #[trigger] face_draws[j] < 4,
            forall|j: int| 0 <= j < SCRAMBLE_MOVES ==> #[trigger] turn_draws[j] < 3,
        ensures
            r@.len() == SCRAMBLE_MOVES,
            r@[0].face() == face_at(face_draws[0] as nat),
            forall|j: int|
                #![trigger r@[j], face_draws[j]]
                1 <= j < SCRAMBLE_MOVES ==> r@[j].face() == open_after(r@[j - 1].face())[face_draws[j] as int],
            forall|j: int| 0 <= j < SCRAMBLE_MOVES ==> #[trigger] r@[j].turn() == mod_of_draw(turn_draws[j]),
    {
        let mut moves = [Move::new(Dir::Front, Mod::Forward); SCRAMBLE_MOVES];
        let mut prev_dirs = PrevDirs::default();
        let mut i: usize = 0;
        while i < SCRAMBLE_MOVES
            invariant
                i <= SCRAMBLE_MOVES,
                moves@.len() == SCRAMBLE_MOVES,
                face_draws[0] < 6,
                forall|j: int| 1 <= j < SCRAMBLE_MOVES ==> #[trigger] face_draws[j] < 4,
                forall|j: int| 0 <= j < SCRAMBLE_MOVES ==> #[trigger] turn_draws[j] < 3,
                i > 0 ==> moves@[0].face() == face_at(face_draws[0] as nat),
                forall|j: int|
                    #![trigger moves@[j], face_draws[j]]
                    1 <= j < i ==> moves@[j].face() == open_after(moves@[j - 1].face())[face_draws[j] as int],
                forall|j: int| 0 <= j < i ==> #[trigger] moves@[j].turn() == mod_of_draw(turn_draws[j]),
                forall|j: int|
                    #![trigger moves@[j], moves@[j + 1]]
                    0 <= j < i - 1 ==> axis(moves@[j].face()) != axis(moves@[j + 1].face()),
                i == 0 ==> forall|e: Dir| !#[trigger] prev_dirs.blocks(e),
                i > 0 ==> forall|e: Dir|
                    #[trigger] prev_dirs.blocks(e) <==> axis(e) == axis(moves@[i - 1].face()),
            decreases SCRAMBLE_MOVES - i,
        {
            proof {
                if i == 0 {
                    lemma_candidates_at_start(prev_dirs);
                } else {
                    lemma_candidates_after(prev_dirs, moves@[i - 1].face());
                }
            }
            let mov = Move::pick(prev_dirs, face_draws[i], turn_draws[i]);
            let ghost before = moves@;
            moves[i] = mov;
            proof {
                assert(moves@ == before.update(i as int, mov));
                if i > 0 {
                    lemma_open_after_off_axis(before[i - 1].face(), face_draws[i as int] as int);
                }
                assert forall|j: int| 0 <= j < i implies #[trigger] moves@[j] == before[j] by {}
            }
            prev_dirs.update(mov.dir());
            i += 1;
        }
        Scramble { moves }
    }

    /// Draws a fresh scramble: each move is drawn uniformly among the faces
    /// off the previous move's axis, with a uniformly drawn modifier.
    pub fn random() -> (r: Scramble)
        ensures
            r@.len() == SCRAMBLE_MOVES,
            axes_alternate(r@),
    {
        let mut rng = rand::thread_rng();
        let mut face_draws = [0u8; SCRAMBLE_MOVES];
        let mut turn_draws = [0u8; SCRAMBLE_MOVES];
        let mut i: usize = 0;
        while i < SCRAMBLE_MOVES
            invariant
                i <= SCRAMBLE_MOVES,
                face_draws@.len() == SCRAMBLE_MOVES,
                turn_draws@.len() == SCRAMBLE_MOVES,
                i > 0 ==> face_draws[0] < 6,
                forall|j: int| 1 <= j < i ==> #[trigger] face_draws[j] < 4,
                forall|j: int| 0 <= j < i ==> #[trigger] turn_draws[j] < 3,
            decreases SCRAMBLE_MOVES - i,
        {
            let open: u8 = if i == 0 {
                6
            } else {
                4
            };
            face_draws[i] = draw_below(&mut rng, open);
            turn_draws[i] = draw_below(&mut rng, 3);
            i += 1;
        }
        let r = Scramble::from_draws(&face_draws, &turn_draws);
        proof {
            use_type_invariant(r);
        }
        r
    }

    /// The moves, in order.
    pub fn moves(&self) -> (r: [Move; SCRAMBLE_MOVES])
        ensures
            r@ == self@,
            r@.len() == SCRAMBLE_MOVES,
            axes_alternate(r@),
    {
        proof {
            use_type_invariant(self);
        }
        self.moves
    }
}

impl Default for Scramble {
    fn default() -> (r: Scramble)
        ensures
            r@.len() == SCRAMBLE_MOVES,
            axes_alternate(r@),
    {
        Scramble::random()
    }
}

} // verus!
