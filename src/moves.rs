use vstd::prelude::*;
use vstd::string::*;

use crate::draw::draw_below;

verus! {

/// One face of the cube; a move turns exactly one face.
#[derive(Clone, Copy, Debug, PartialEq, Eq, Structural)]
pub enum Dir {
    Front,
    Back,
    Left,
    Right,
    Up,
    Down,
}

/// How far, and which way, a face is turned.
#[derive(Clone, Copy, Debug, PartialEq, Eq, Structural)]
pub enum Mod {
    /// A quarter turn.
    Forward,
    /// A quarter turn the other way.
    Reverse,
    /// A half turn.
    Double,
}

/// The axis a face turns about: Front/Back, Left/Right and Up/Down share one each.
pub open spec fn axis(d: Dir) -> nat {
    match d {
        Dir::Front | Dir::Back => 0,
        Dir::Left | Dir::Right => 1,
        Dir::Up | Dir::Down => 2,
    }
}

/// The faces in their fixed order.
pub open spec fn face_at(i: nat) -> Dir {
    if i == 0 {
        Dir::Front
    } else if i == 1 {
        Dir::Back
    } else if i == 2 {
        Dir::Left
    } else if i == 3 {
        Dir::Right
    } else if i == 4 {
        Dir::Up
    } else {
        Dir::Down
    }
}

/// The bit that stands for a face in a packed move and in a face mask.
pub open spec fn face_bit(d: Dir) -> u8 {
    match d {
        Dir::Front => 1,
        Dir::Back => 2,
        Dir::Left => 4,
        Dir::Right => 8,
        Dir::Up => 16,
        Dir::Down => 32,
    }
}

/// The modifier that a draw from `0..3` selects.
pub open spec fn mod_of_draw(n: u8) -> Mod {
    if n == 0 {
        Mod::Forward
    } else if n == 1 {
        Mod::Reverse
    } else {
        Mod::Double
    }
}

/// The letter that names a face.
pub open spec fn face_letter(d: Dir) -> char {
    match d {
        Dir::Front => 'F',
        Dir::Back => 'B',
        Dir::Left => 'L',
        Dir::Right => 'R',
        Dir::Up => 'U',
        Dir::Down => 'D',
    }
}

/// The character written after the face letter.
pub open spec fn mod_suffix(m: Mod) -> char {
    match m {
        Mod::Forward => ' ',
        Mod::Reverse => '\'',
        Mod::Double => '2',
    }
}

/// The text of a move: its face letter, then its modifier's mark.
pub open spec fn move_text(d: Dir, m: Mod) -> Seq<char> {
    seq![face_letter(d), mod_suffix(m)]
}

spec fn face_of_code(c: u8) -> Dir {
    let f = c & 63u8;
    if f == 1 {
        Dir::Front
    } else if f == 2 {
        Dir::Back
    } else if f == 4 {
        Dir::Left
    } else if f == 8 {
        Dir::Right
    } else if f == 16 {
        Dir::Up
    } else {
        Dir::Down
    }
}

spec fn mod_of_code(c: u8) -> Mod {
    if c & 128u8 != 0 {
        Mod::Double
    } else if c & 64u8 != 0 {
        Mod::Reverse
    } else {
        Mod::Forward
    }
}

spec fn one_face_bit(f: u8) -> bool {
    f == 1 || f == 2 || f == 4 || f == 8 || f == 16 || f == 32
}

spec fn mod_bits_ok(b: u8) -> bool {
    b == 0 || b == 64 || b == 128
}

impl Dir {
    /// The face at position `i` of the order Front, Back, Left, Right, Up, Down.
    pub fn from_index(i: u8) -> (r: Dir)
        requires
            i < 6,
        ensures
            r == face_at(i as nat),
    {
        if i == 0 {
            Dir::Front
        } else if i == 1 {
            Dir::Back
        } else if i == 2 {
            Dir::Left
        } else if i == 3 {
            Dir::Right
        } else if i == 4 {
            Dir::Up
        } else {
            Dir::Down
        }
    }

    /// The bit of this face in a face mask.
    pub fn bit(&self) -> (r: u8)
        ensures
            r == face_bit(*self),
    {
        match self {
            Dir::Front => 1,
            Dir::Back => 2,
            Dir::Left => 4,
            Dir::Right => 8,
            Dir::Up => 16,
            Dir::Down => 32,
        }
    }

    /// The position of the face in the order Front, Back, Left, Right, Up, Down.
    pub fn index(&self) -> (r: u8)
        ensures
            r < 6,
            face_at(r as nat) == *self,
    {
        match self {
            Dir::Front => 0,
            Dir::Back => 1,
            Dir::Left => 2,
            Dir::Right => 3,
            Dir::Up => 4,
            Dir::Down => 5,
        }
    }
}

/// A single scramble move: one face and one modifier, packed into a byte.
/// The low six bits hold exactly one face bit; bit 6 marks a reverse turn
/// and bit 7 a double turn, never both.
#[derive(Clone, Copy, Debug, PartialEq, Eq, Structural)]
pub struct Move(u8);

impl Move {
    const DOUBLE: u8 = 0b1000_0000;

    const REVERSE: u8 = 0b0100_0000;

    const DIR_MASK: u8 = 0b0011_1111;

    #[verifier::type_invariant]
    spec fn well_packed(self) -> bool {
        &&& one_face_bit(self.0 & 63u8)
        &&& mod_bits_ok(self.0 & 192u8)
    }

    /// The face this move turns.
    pub closed spec fn face(self) -> Dir {
        face_of_code(self.0)
    }

    /// This move's modifier.
    pub closed spec fn turn(self) -> Mod {
        mod_of_code(self.0)
    }

    /// The move that turns face `d` by modifier `m`.
    pub fn new(d: Dir, m: Mod) -> (r: Move)
        ensures
            r.face() == d,
            r.turn() == m,
    {
        let f = d.bit();
        let b: u8 = match m {
            Mod::Forward => 0,
            Mod::Reverse => Self::REVERSE,
            Mod::Double => Self::DOUBLE,
        };
        let c = f | b;
        assert(f & 192u8 == 0 && b & 63u8 == 0 && b & 128u8 == b & 128u8) by {
            assert(1u8 & 192u8 == 0 && 2u8 & 192u8 == 0 && 4u8 & 192u8 == 0 && 8u8 & 192u8 == 0
                && 16u8 & 192u8 == 0 && 32u8 & 192u8 == 0) by (bit_vector);
            assert(0u8 & 63u8 == 0 && 64u8 & 63u8 == 0 && 128u8 & 63u8 == 0) by (bit_vector);
        }
        assert(c & 63u8 == f && c & 192u8 == b && c & 128u8 == b & 128u8 && c & 64u8 == b & 64u8)
            by (bit_vector)
            requires
                c == f | b,
                f & 192u8 == 0,
                b & 63u8 == 0,
        ;
        assert(0u8 & 128u8 == 0 && 0u8 & 64u8 == 0 && 64u8 & 128u8 == 0 && 64u8 & 64u8 != 0
            && 128u8 & 128u8 != 0) by (bit_vector);
        Move(c)
    }

    /// Decodes the face; every stored code decodes to exactly one face.
    pub fn dir(&self) -> (r: Dir)
        ensures
            r == self.face(),
    {
        let f = self.0 & Self::DIR_MASK;
        if f == 1 {
            Dir::Front
        } else if f == 2 {
            Dir::Back
        } else if f == 4 {
            Dir::Left
        } else if f == 8 {
            Dir::Right
        } else if f == 16 {
            Dir::Up
        } else {
            Dir::Down
        }
    }

    /// Decodes the modifier.
    pub fn modifier(&self) -> (r: Mod)
        ensures
            r == self.turn(),
    {
        if (self.0 & Self::DOUBLE) != 0 {
            return Mod::Double;
        }
        if (self.0 & Self::REVERSE) != 0 {
            Mod::Reverse
        } else {
            Mod::Forward
        }
    }

    /// Builds the move that a pair of uniform draws selects: `face_draw` picks
    /// among the faces that `prev` leaves open, in their fixed order, and
    /// `turn_draw` picks Forward, Reverse or Double.
    pub fn pick(prev: PrevDirs, face_draw: u8, turn_draw: u8) -> (r: Move)
        requires
            face_draw < prev.candidates().len(),
            turn_draw < 3,
        ensures
            r.face() == prev.candidates()[face_draw as int],
            r.turn() == mod_of_draw(turn_draw),
    {
        let mut face = Dir::Front;
        let mut i: u8 = 0;
        let mut rest: u8 = face_draw;
        while i < 6
            invariant
                i <= 6,
                rest < prev.candidates_from(i as nat).len(),
                prev.candidates_from(i as nat)[rest as int] == prev.candidates()[face_draw as int],
            ensures
                face == prev.candidates()[face_draw as int],
            decreases 6 - i,
        {
            let d = Dir::from_index(i);
            if !prev.get(d.bit()) {
                if rest == 0 {
                    face = d;
                    break;
                }
                rest -= 1;
            }
            i += 1;
        }
        let modifier = match turn_draw {
            0 => Mod::Forward,
            1 => Mod::Reverse,
            _ => Mod::Double,
        };
        Move::new(face, modifier)
    }

    /// Draws a move uniformly among those whose face `prev` leaves open,
    /// with a uniformly drawn modifier.
    pub fn random(rng: &mut rand::rngs::ThreadRng, prev_dirs: PrevDirs) -> (r: Move)
        ensures
            prev_dirs.candidates().contains(r.face()),
            !prev_dirs.blocks(r.face()),
    {
        let num_dirs = prev_dirs.open_count();
        let face_draw = draw_below(rng, num_dirs);
        let turn_draw = draw_below(rng, 3);
        let r = Move::pick(prev_dirs, face_draw, turn_draw);
        proof {
            lemma_candidates_from(prev_dirs, 0);
            assert(prev_dirs.candidates()[face_draw as int] == r.face());
        }
        r
    }

    /// The move as text: the face letter, then a space, `'` or `2`.
    pub fn to_string(&self) -> (r: String)
        ensures
            r@ == move_text(self.face(), self.turn()),
    {
        let mut s = String::from_str(letter_str(self.dir()));
        s.append(suffix_str(self.modifier()));
        proof {
            assert(s@ =~= move_text(self.face(), self.turn()));
        }
        s
    }
}

fn letter_str(d: Dir) -> (r: &'static str)
    ensures
        r@ == seq![face_letter(d)],
{
    proof {
        reveal_strlit("F");
        reveal_strlit("B");
        reveal_strlit("L");
        reveal_strlit("R");
        reveal_strlit("U");
        reveal_strlit("D");
    }
    match d {
        Dir::Front => "F",
        Dir::Back => "B",
        Dir::Left => "L",
        Dir::Right => "R",
        Dir::Up => "U",
        Dir::Down => "D",
    }
}

fn suffix_str(m: Mod) -> (r: &'static str)
    ensures
        r@ == seq![mod_suffix(m)],
{
    proof {
        reveal_strlit(" ");
        reveal_strlit("'");
        reveal_strlit("2");
    }
    match m {
        Mod::Forward => " ",
        Mod::Reverse => "'",
        Mod::Double => "2",
    }
}

/// The faces that the next move may not turn: none at the start of a
/// scramble, else both faces of the previous move's axis.
#[derive(Clone, Copy, Debug)]
pub struct PrevDirs(u8);

/// The mask of the two faces on an axis.
pub open spec fn axis_mask(a: nat) -> u8 {
    if a == 0 {
        3
    } else if a == 1 {
        12
    } else {
        48
    }
}

impl PrevDirs {
    #[verifier::type_invariant]
    spec fn one_axis_or_none(self) -> bool {
        self.0 == 0 || self.0 == 3 || self.0 == 12 || self.0 == 48
    }

    /// The face mask: a face is blocked where its bit is set.
    pub closed spec fn mask(self) -> u8 {
        self.0
    }

    /// Whether the next move may not turn face `d`.
    pub open spec fn blocks(self, d: Dir) -> bool {
        self.mask() & face_bit(d) != 0
    }

    /// The open faces from position `i` on, in their fixed order.
    pub open spec fn candidates_from(self, i: nat) -> Seq<Dir>
        decreases 6 - i,
    {
        if i >= 6 {
            seq![]
        } else if self.blocks(face_at(i)) {
            self.candidates_from(i + 1)
        } else {
            seq![face_at(i)] + self.candidates_from(i + 1)
        }
    }

    /// The faces the next move may turn, in their fixed order.
    pub open spec fn candidates(self) -> Seq<Dir> {
        self.candidates_from(0)
    }

    proof fn lemma_mask_bits(m: u8)
        requires
            m == 0 || m == 3 || m == 12 || m == 48,
        ensures
            forall|d: Dir| #![auto] (m & face_bit(d) != 0) <==> (m != 0 && axis_mask(axis(d)) == m),
    {
        assert(m & 1u8 != 0 <==> m == 3) by (bit_vector)
            requires m == 0 || m == 3 || m == 12 || m == 48;
        assert(m & 2u8 != 0 <==> m == 3) by (bit_vector)
            requires m == 0 || m == 3 || m == 12 || m == 48;
        assert(m & 4u8 != 0 <==> m == 12) by (bit_vector)
            requires m == 0 || m == 3 || m == 12 || m == 48;
        assert(m & 8u8 != 0 <==> m == 12) by (bit_vector)
            requires m == 0 || m == 3 || m == 12 || m == 48;
        assert(m & 16u8 != 0 <==> m == 48) by (bit_vector)
            requires m == 0 || m == 3 || m == 12 || m == 48;
        assert(m & 32u8 != 0 <==> m == 48) by (bit_vector)
            requires m == 0 || m == 3 || m == 12 || m == 48;
    }

    /// Whether the faces in mask `bit` are blocked.
    pub fn get(&self, bit: u8) -> (r: bool)
        ensures
            r == (self.mask() & bit != 0),
    {
        (self.0 & bit) != 0
    }

    /// Records `dir` as the face of the move just made: from now on both faces
    /// of its axis are blocked, and no other.
    pub fn update(&mut self, dir: Dir)
        ensures
            forall|e: Dir| #[trigger] final(self).blocks(e) <==> axis(e) == axis(dir),
    {
        let m: u8 = match dir {
            Dir::Front | Dir::Back => 3,
            Dir::Left | Dir::Right => 12,
            Dir::Up | Dir::Down => 48,
        };
        self.0 = m;
        proof {
            PrevDirs::lemma_mask_bits(m);
        }
    }

    /// How many faces are open: six at the start, four after a move.
    pub fn open_count(&self) -> (r: u8)
        ensures
            r == self.candidates().len(),
            r > 0,
    {
        proof {
            use_type_invariant(self);
            PrevDirs::lemma_mask_bits(self.0);
            reveal_with_fuel(PrevDirs::candidates_from, 7);
        }
        if self.0 == 0 {
            6
        } else {
            4
        }
    }
}

impl Default for PrevDirs {
    fn default() -> (r: PrevDirs)
        ensures
            forall|d: Dir| !#[trigger] r.blocks(d),
    {
        proof {
            PrevDirs::lemma_mask_bits(0);
        }
        PrevDirs(0)
    }
}

/// The position of a face in the order Front, Back, Left, Right, Up, Down.
pub open spec fn face_index(d: Dir) -> nat {
    match d {
        Dir::Front => 0,
        Dir::Back => 1,
        Dir::Left => 2,
        Dir::Right => 3,
        Dir::Up => 4,
        Dir::Down => 5,
    }
}

proof fn lemma_candidates_from(p: PrevDirs, i: nat)
    ensures
        forall|d: Dir| #[trigger]
            p.candidates_from(i).contains(d) <==> (i <= face_index(d) && !p.blocks(d)),
        p.candidates_from(i).no_duplicates(),
    decreases 6 - i,
{
    if i < 6 {
        lemma_candidates_from(p, i + 1);
        let rest = p.candidates_from(i + 1);
        let f = face_at(i);
        assert(face_index(f) == i);
        if !p.blocks(f) {
            let all = seq![f] + rest;
            assert(p.candidates_from(i) == all);
            assert forall|d: Dir| #[trigger] all.contains(d) <==> (i <= face_index(d) && !p.blocks(d)) by {
                if all.contains(d) {
                    let k = choose|k: int| 0 <= k < all.len() && all[k] == d;
                    if k > 0 {
                        assert(rest[k - 1] == d);
                        assert(rest.contains(d));
                    }
                }
                if i <= face_index(d) && !p.blocks(d) {
                    if face_index(d) == i {
                        assert(d == f);
                        assert(all[0] == d);
                    } else {
                        assert(rest.contains(d));
                        let k = choose|k: int| 0 <= k < rest.len() && rest[k] == d;
                        assert(all[k + 1] == d);
                    }
                }
            }
            assert forall|a: int, b: int| 0 <= a < all.len() && 0 <= b < all.len() && a != b
                implies all[a] != all[b] by {
                if a > 0 && b > 0 {
                    assert(all[a] == rest[a - 1] && all[b] == rest[b - 1]);
                } else if a == 0 {
                    assert(all[b] == rest[b - 1]);
                    assert(rest.contains(all[b]));
                } else {
                    assert(all[a] == rest[a - 1]);
                    assert(rest.contains(all[a]));
                }
            }
        } else {
            assert forall|d: Dir| #[trigger] rest.contains(d) <==> (i <= face_index(d) && !p.blocks(d)) by {
                if face_index(d) == i {
                    assert(d == f);
                }
            }
        }
    } else {
        assert forall|d: Dir| #[trigger] p.candidates_from(i).contains(d) <==> (i <= face_index(d) && !p.blocks(d)) by {
            assert(p.candidates_from(i).len() == 0);
        }
    }
}

/// Uniform draws make uniform choices: the faces a face draw selects among
/// are exactly the open ones, each listed once, so each is selected by
/// exactly one draw; and each modifier is selected by exactly one turn draw.
pub proof fn lemma_draws_select_uniformly(p: PrevDirs)
    ensures
        p.candidates().no_duplicates(),
        forall|d: Dir| #[trigger] p.candidates().contains(d) <==> !p.blocks(d),
        mod_of_draw(0) == Mod::Forward,
        mod_of_draw(1) == Mod::Reverse,
        mod_of_draw(2) == Mod::Double,
        forall|a: u8, b: u8| a < 3 && b < 3 && #[trigger] mod_of_draw(a) == #[trigger] mod_of_draw(b) ==> a == b,
{
    lemma_candidates_from(p, 0);
}

/// The four faces off `d`'s axis, in their fixed order.
#[verifier::opaque]
pub open spec fn open_after(d: Dir) -> Seq<Dir> {
    if axis(d) == 0 {
        seq![Dir::Left, Dir::Right, Dir::Up, Dir::Down]
    } else if axis(d) == 1 {
        seq![Dir::Front, Dir::Back, Dir::Up, Dir::Down]
    } else {
        seq![Dir::Front, Dir::Back, Dir::Left, Dir::Right]
    }
}

/// With nothing blocked, every face is open, in the fixed order.
pub proof fn lemma_candidates_at_start(p: PrevDirs)
    requires
        forall|e: Dir| !#[trigger] p.blocks(e),
    ensures
        p.candidates().len() == 6,
        forall|k: int| 0 <= k < 6 ==> #[trigger] p.candidates()[k] == face_at(k as nat),
{
    reveal_with_fuel(PrevDirs::candidates_from, 7);
    assert(!p.blocks(Dir::Front) && !p.blocks(Dir::Back) && !p.blocks(Dir::Left));
    assert(!p.blocks(Dir::Right) && !p.blocks(Dir::Up) && !p.blocks(Dir::Down));
}

/// Once the faces of `d`'s axis are blocked, and no others, the open faces
/// are `open_after(d)`.
pub proof fn lemma_candidates_after(p: PrevDirs, d: Dir)
    requires
        forall|e: Dir| #[trigger] p.blocks(e) <==> axis(e) == axis(d),
    ensures
        p.candidates() == open_after(d),
        open_after(d).len() == 4,
{
    reveal_with_fuel(PrevDirs::candidates_from, 7);
    assert(p.blocks(Dir::Front) <==> axis(d) == 0);
    assert(p.blocks(Dir::Back) <==> axis(d) == 0);
    assert(p.blocks(Dir::Left) <==> axis(d) == 1);
    assert(p.blocks(Dir::Right) <==> axis(d) == 1);
    assert(p.blocks(Dir::Up) <==> axis(d) == 2);
    assert(p.blocks(Dir::Down) <==> axis(d) == 2);
    reveal(open_after);
    assert(p.candidates() =~= open_after(d));
}

/// No face in `open_after(d)` shares `d`'s axis.
pub proof fn lemma_open_after_off_axis(d: Dir, k: int)
    requires
        0 <= k < 4,
    ensures
        axis(open_after(d)[k]) != axis(d),
{
    reveal(open_after);
}

} // verus!
