//! The save file: a fixed-size, self-describing byte blob.
//!
//! A blob that fails to parse is treated as no save at all, so a corrupt or
//! older file costs the player their pet but never wedges the game.

use vstd::prelude::*;

use crate::pet::{spec_new_pet, Outcome, Pet};
use crate::{Game, GameModel};

verus! {

/// Everything a pet keeps that is not derived. Lives here rather than in
/// `pet` so that the field list and the byte layout stay next to each other.
pub struct PetState {
    pub age_ms: u64,
    pub hunger_at_anchor: u8,
    pub hunger_anchor_ms: u64,
    pub hunger_misses: u8,
    pub mood_at_anchor: u8,
    pub mood_anchor_ms: u64,
    pub mood_misses: u8,
    pub poop_cleaned_ms: u64,
    pub sick_since_ms: Option<u64>,
    pub sick_misses: u8,
    pub scolded_this_alert: bool,
    pub care_miss: u8,
    pub weight: u16,
    pub discipline: u8,
    pub outcome: Option<Outcome>,
}

/// Bumped whenever the layout below changes. Old versions are not migrated:
/// they are discarded.
pub const VERSION: u8 = 1;

/// Size of a save blob. Fixed, so the store can size its allocation exactly.
pub const SAVE_LEN: usize = 73;

/// `256` to the power `n`.
pub open spec fn pow256(n: nat) -> int
    decreases n,
{
    if n == 0 {
        1
    } else {
        256 * pow256((n - 1) as nat)
    }
}

/// The number a little-endian byte string stands for.
pub open spec fn le_value(s: Seq<u8>) -> int
    decreases s.len(),
{
    if s.len() == 0 {
        0
    } else {
        s[0] + 256 * le_value(s.drop_first())
    }
}

/// The lowest `n` bytes of `v`, least significant first.
pub open spec fn le_bytes(v: int, n: nat) -> Seq<u8>
    decreases n,
{
    if n == 0 {
        seq![]
    } else {
        seq![(v % 256) as u8] + le_bytes(v / 256, (n - 1) as nat)
    }
}

/// How an illness is stored: its onset, or `u64::MAX` for none.
pub open spec fn sick_code(sick_since_ms: Option<u64>) -> u64 {
    match sick_since_ms {
        None => u64::MAX,
        Some(t) => t,
    }
}

/// How the end of a generation is stored.
pub open spec fn outcome_code(outcome: Option<Outcome>) -> u8 {
    match outcome {
        None => 0,
        Some(Outcome::Lifespan) => 1,
        Some(Outcome::CareFailure) => 2,
    }
}

pub open spec fn bool_code(b: bool) -> u8 {
    if b {
        1
    } else {
        0
    }
}

/// The save blob for a game, field by field in layout order.
pub open spec fn encode(g: GameModel) -> Seq<u8> {
    let s = g.pet.state();
    seq![VERSION] + le_bytes(g.uptime_ms as int, 8) + le_bytes(g.gen_start_ms as int, 8)
        + le_bytes(g.generation as int, 4) + seq![g.inherited] + le_bytes(s.age_ms as int, 8)
        + seq![s.hunger_at_anchor] + le_bytes(s.hunger_anchor_ms as int, 8) + seq![
        s.hunger_misses] + seq![s.mood_at_anchor] + le_bytes(s.mood_anchor_ms as int, 8) + seq![
        s.mood_misses] + le_bytes(s.poop_cleaned_ms as int, 8) + le_bytes(
        sick_code(s.sick_since_ms) as int,
        8,
    ) + seq![s.sick_misses] + seq![bool_code(s.scolded_this_alert)] + seq![s.care_miss]
        + le_bytes(s.weight as int, 2) + seq![s.discipline] + seq![outcome_code(s.outcome)]
}

/// The little-endian number stored in `n` bytes at `at`.
pub open spec fn field(b: Seq<u8>, at: int, n: int) -> int {
    le_value(b.subrange(at, at + n))
}

/// The pet state stored in a blob.
pub open spec fn decode_state(b: Seq<u8>) -> PetState {
    PetState {
        age_ms: field(b, 22, 8) as u64,
        hunger_at_anchor: b[30],
        hunger_anchor_ms: field(b, 31, 8) as u64,
        hunger_misses: b[39],
        mood_at_anchor: b[40],
        mood_anchor_ms: field(b, 41, 8) as u64,
        mood_misses: b[49],
        poop_cleaned_ms: field(b, 50, 8) as u64,
        sick_since_ms: if field(b, 58, 8) == u64::MAX {
            None
        } else {
            Some(field(b, 58, 8) as u64)
        },
        sick_misses: b[66],
        scolded_this_alert: b[67] != 0,
        care_miss: b[68],
        weight: field(b, 69, 2) as u16,
        discipline: b[71],
        outcome: if b[72] == 1 {
            Some(Outcome::Lifespan)
        } else if b[72] == 2 {
            Some(Outcome::CareFailure)
        } else {
            None
        },
    }
}

/// The game a blob describes, or `None` for anything this build does not
/// recognise: too short, another version, or a lineage that began after the
/// uptime it claims. The pet is rebuilt from its inherited discipline, with
/// the saved state put back; a generation of 0 reads as 1.
pub open spec fn decode(b: Seq<u8>) -> Option<GameModel> {
    if b.len() < SAVE_LEN || b[0] != VERSION {
        None
    } else {
        let uptime_ms = field(b, 1, 8) as u64;
        let gen_start_ms = field(b, 9, 8) as u64;
        let generation = field(b, 17, 4) as u32;
        let inherited = b[21];
        if gen_start_ms > uptime_ms {
            None
        } else {
            Some(
                GameModel {
                    uptime_ms,
                    gen_start_ms,
                    generation: if generation < 1 {
                        1
                    } else {
                        generation
                    },
                    inherited,
                    pet: spec_new_pet(inherited).restored(decode_state(b)),
                },
            )
        }
    }
}

proof fn lemma_pow256_grows(n: nat)
    ensures
        pow256(n) >= 1,
        pow256(n + 1) == 256 * pow256(n),
    decreases n,
{
    if n > 0 {
        lemma_pow256_grows((n - 1) as nat);
    }
}

proof fn lemma_pow256_monotone(a: nat, b: nat)
    requires
        a <= b,
    ensures
        pow256(a) <= pow256(b),
    decreases b,
{
    lemma_pow256_grows(b);
    if a < b {
        lemma_pow256_monotone(a, (b - 1) as nat);
        lemma_pow256_grows((b - 1) as nat);
    }
}

proof fn lemma_pow256_values()
    ensures
        pow256(1) == 0x100,
        pow256(2) == 0x1_0000,
        pow256(4) == 0x1_0000_0000,
        pow256(8) == 0x1_0000_0000_0000_0000,
{
    reveal_with_fuel(pow256, 9);
}

/// Writing a number out in `n` bytes and reading it back gives the number,
/// when it fits.
pub proof fn lemma_le_round_trip(v: int, n: nat)
    requires
        0 <= v < pow256(n),
    ensures
        le_bytes(v, n).len() == n,
        le_value(le_bytes(v, n)) == v,
    decreases n,
{
    if n > 0 {
        lemma_pow256_grows((n - 1) as nat);
        assert(v / 256 < pow256((n - 1) as nat)) by (nonlinear_arith)
            requires
                0 <= v < 256 * pow256((n - 1) as nat),
        ;
        assert(0 <= v / 256) by (nonlinear_arith)
            requires
                0 <= v,
        ;
        lemma_le_round_trip(v / 256, (n - 1) as nat);
        let s = le_bytes(v, n);
        assert(s.drop_first() =~= le_bytes(v / 256, (n - 1) as nat));
        assert(v % 256 + 256 * (v / 256) == v) by (nonlinear_arith);
    } else {
        assert(le_bytes(v, n) =~= seq![]);
    }
}

/// Reading back what was written gives the same game: the decay periods come
/// back from the inherited discipline, the generation stays, and every saved
/// field is restored. This holds for every well-formed game of a generation at
/// least 1 that began no later than the uptime it records, and whose illness,
/// if any, is not dated `u64::MAX` (the marker for no illness).
pub proof fn lemma_save_round_trip(g: GameModel)
    requires
        g.wf(),
        g.generation >= 1,
        g.gen_start_ms <= g.uptime_ms,
        g.pet.sick_since_ms != Some(u64::MAX),
    ensures
        encode(g).len() == SAVE_LEN,
        decode(encode(g)) == Some(g),
{
    let e = encode(g);
    let s = g.pet.state();
    lemma_pow256_values();
    lemma_le_round_trip(g.uptime_ms as int, 8);
    lemma_le_round_trip(g.gen_start_ms as int, 8);
    lemma_le_round_trip(g.generation as int, 4);
    lemma_le_round_trip(s.age_ms as int, 8);
    lemma_le_round_trip(s.hunger_anchor_ms as int, 8);
    lemma_le_round_trip(s.mood_anchor_ms as int, 8);
    lemma_le_round_trip(s.poop_cleaned_ms as int, 8);
    lemma_le_round_trip(sick_code(s.sick_since_ms) as int, 8);
    lemma_le_round_trip(s.weight as int, 2);
    assert(e.len() == 73);
    assert(e.subrange(1, 9) =~= le_bytes(g.uptime_ms as int, 8));
    assert(e.subrange(9, 17) =~= le_bytes(g.gen_start_ms as int, 8));
    assert(e.subrange(17, 21) =~= le_bytes(g.generation as int, 4));
    assert(e.subrange(22, 30) =~= le_bytes(s.age_ms as int, 8));
    assert(e.subrange(31, 39) =~= le_bytes(s.hunger_anchor_ms as int, 8));
    assert(e.subrange(41, 49) =~= le_bytes(s.mood_anchor_ms as int, 8));
    assert(e.subrange(50, 58) =~= le_bytes(s.poop_cleaned_ms as int, 8));
    assert(e.subrange(58, 66) =~= le_bytes(sick_code(s.sick_since_ms) as int, 8));
    assert(e.subrange(69, 71) =~= le_bytes(s.weight as int, 2));
    assert(decode_state(e) == s);
    assert(spec_new_pet(g.inherited).restored(s) == g.pet);
}

/// The blob being written: a buffer of `SAVE_LEN` bytes, filled from the
/// front.
struct Writer {
    buf: [u8; SAVE_LEN],
    at: usize,
}

impl Writer {
    fn u8(&mut self, v: u8)
        requires
            old(self).at + 1 <= SAVE_LEN,
        ensures
            final(self).at == old(self).at + 1,
            final(self).buf@.subrange(0, final(self).at as int) == old(self).buf@.subrange(
                0,
                old(self).at as int,
            ) + seq![v],
    {
        let ghost before = self.buf@;
        self.buf[self.at] = v;
        self.at = self.at + 1;
        assert(self.buf@.subrange(0, self.at as int) =~= before.subrange(0, self.at - 1) + seq![v]);
    }

    /// The lowest `n` bytes of `v`, least significant first.
    fn le(&mut self, v: u64, n: usize)
        requires
            old(self).at + n <= SAVE_LEN,
        ensures
            final(self).at == old(self).at + n,
            final(self).buf@.subrange(0, final(self).at as int) == old(self).buf@.subrange(
                0,
                old(self).at as int,
            ) + le_bytes(v as int, n as nat),
    {
        let ghost start = self.at as int;
        let ghost before = self.buf@.subrange(0, start);
        let mut x = v;
        let mut i: usize = 0;
        while i < n
            invariant
                i <= n,
                start + n <= SAVE_LEN,
                self.at == start + i,
                self.buf@.subrange(0, self.at as int) + le_bytes(x as int, (n - i) as nat) == before
                    + le_bytes(v as int, n as nat),
            decreases n - i,
        {
            let ghost prefix = self.buf@.subrange(0, self.at as int);
            let ghost byte = (x % 256) as u8;
            let ghost tail = le_bytes((x / 256) as int, (n - i - 1) as nat);
            assert(le_bytes(x as int, (n - i) as nat) =~= seq![byte] + tail);
            assert(prefix + (seq![byte] + tail) =~= (prefix + seq![byte]) + tail);
            self.u8((x % 256) as u8);
            x = x / 256;
            i = i + 1;
        }
        assert(le_bytes(x as int, 0) =~= seq![]);
        assert(self.buf@.subrange(0, self.at as int) =~= self.buf@.subrange(0, self.at as int)
            + le_bytes(x as int, 0));
    }

    fn u16(&mut self, v: u16)
        requires
            old(self).at + 2 <= SAVE_LEN,
        ensures
            final(self).at == old(self).at + 2,
            final(self).buf@.subrange(0, final(self).at as int) == old(self).buf@.subrange(
                0,
                old(self).at as int,
            ) + le_bytes(v as int, 2),
    {
        self.le(v as u64, 2);
    }

    fn u32(&mut self, v: u32)
        requires
            old(self).at + 4 <= SAVE_LEN,
        ensures
            final(self).at == old(self).at + 4,
            final(self).buf@.subrange(0, final(self).at as int) == old(self).buf@.subrange(
                0,
                old(self).at as int,
            ) + le_bytes(v as int, 4),
    {
        self.le(v as u64, 4);
    }

    fn u64(&mut self, v: u64)
        requires
            old(self).at + 8 <= SAVE_LEN,
        ensures
            final(self).at == old(self).at + 8,
            final(self).buf@.subrange(0, final(self).at as int) == old(self).buf@.subrange(
                0,
                old(self).at as int,
            ) + le_bytes(v as int, 8),
    {
        self.le(v, 8);
    }
}

/// The blob being read, from the front.
struct Reader<'a> {
    buf: &'a [u8],
    at: usize,
}

impl<'a> Reader<'a> {
    fn u8(&mut self) -> (r: u8)
        requires
            old(self).at < old(self).buf@.len(),
        ensures
            r == old(self).buf@[old(self).at as int],
            final(self).at == old(self).at + 1,
            final(self).buf@ == old(self).buf@,
    {
        let v = self.buf[self.at];
        self.at = self.at + 1;
        v
    }

    /// The little-endian number in the next `n` bytes.
    fn le(&mut self, n: usize) -> (r: u64)
        requires
            n <= 8,
            old(self).at + n <= old(self).buf@.len(),
        ensures
            r == le_value(old(self).buf@.subrange(old(self).at as int, old(self).at + n)),
            r < pow256(n as nat),
            final(self).at == old(self).at + n,
            final(self).buf@ == old(self).buf@,
    {
        let ghost s = self.buf@;
        let at = self.at;
        let len = self.buf.len();
        let mut x: u64 = 0;
        let mut i: usize = n;
        proof {
            assert(s.subrange(at + n, at + n) =~= Seq::<u8>::empty());
        }
        while i > 0
            invariant
                i <= n <= 8,
                at + n <= s.len(),
                len == s.len(),
                self.buf@ == s,
                self.at == at,
                x == le_value(s.subrange(at + i, at + n)),
                x < pow256((n - i) as nat),
            decreases i,
        {
            i = i - 1;
            let b = self.buf[at + i];
            proof {
                let k = (n - i - 1) as nat;
                assert(s.subrange(at + i, at + n).drop_first() =~= s.subrange(at + i + 1, at + n));
                lemma_pow256_grows(k);
                lemma_pow256_monotone(k + 1, 8);
                lemma_pow256_values();
                assert(x * 256 + b < 256 * pow256(k)) by (nonlinear_arith)
                    requires
                        x < pow256(k),
                        b < 256,
                ;
            }
            x = x * 256 + b as u64;
        }
        self.at = at + n;
        x
    }

    fn u16(&mut self) -> (r: u16)
        requires
            old(self).at + 2 <= old(self).buf@.len(),
        ensures
            r == le_value(old(self).buf@.subrange(old(self).at as int, old(self).at + 2)),
            final(self).at == old(self).at + 2,
            final(self).buf@ == old(self).buf@,
    {
        proof {
            lemma_pow256_values();
        }
        self.le(2) as u16
    }

    fn u32(&mut self) -> (r: u32)
        requires
            old(self).at + 4 <= old(self).buf@.len(),
        ensures
            r == le_value(old(self).buf@.subrange(old(self).at as int, old(self).at + 4)),
            final(self).at == old(self).at + 4,
            final(self).buf@ == old(self).buf@,
    {
        proof {
            lemma_pow256_values();
        }
        self.le(4) as u32
    }

    fn u64(&mut self) -> (r: u64)
        requires
            old(self).at + 8 <= old(self).buf@.len(),
        ensures
            r == le_value(old(self).buf@.subrange(old(self).at as int, old(self).at + 8)),
            final(self).at == old(self).at + 8,
            final(self).buf@ == old(self).buf@,
    {
        self.le(8)
    }
}

/// Write the game out. The buffer is always fully written.
pub fn to_bytes(game: &Game) -> (r: [u8; SAVE_LEN])
    ensures
        r@ == encode(game@),
{
    let mut w = Writer { buf: [0u8; 73], at: 0 };

    w.u8(VERSION);
    assert(w.buf@.subrange(0, 1) =~= seq![VERSION]);
    w.u64(game.uptime_ms());
    w.u64(game.gen_start_ms());
    w.u32(game.generation());
    w.u8(game.inherited());

    let p = game.pet();
    let s = p.save_state();
    w.u64(s.age_ms);
    w.u8(s.hunger_at_anchor);
    w.u64(s.hunger_anchor_ms);
    w.u8(s.hunger_misses);
    w.u8(s.mood_at_anchor);
    w.u64(s.mood_anchor_ms);
    w.u8(s.mood_misses);
    w.u64(s.poop_cleaned_ms);
    // `None` is the absent marker; a real illness always has a timestamp.
    w.u64(
        match s.sick_since_ms {
            None => u64::MAX,
            Some(t) => t,
        },
    );
    w.u8(s.sick_misses);
    w.u8(
        if s.scolded_this_alert {
            1
        } else {
            0
        },
    );
    w.u8(s.care_miss);
    w.u16(s.weight);
    w.u8(s.discipline);
    w.u8(
        match s.outcome {
            None => 0,
            Some(Outcome::Lifespan) => 1,
            Some(Outcome::CareFailure) => 2,
        },
    );
    assert(w.buf@ =~= w.buf@.subrange(0, 73));
    w.buf
}

/// Read a game back. `None` for anything this build does not recognise.
pub fn from_bytes(bytes: &[u8]) -> (r: Option<Game>)
    ensures
        r is None <==> decode(bytes@) is None,
        r matches Some(g) ==> decode(bytes@) == Some(g@) && g@.wf(),
{
    if bytes.len() < SAVE_LEN {
        return None;
    }
    let mut r = Reader { buf: bytes, at: 0 };
    if r.u8() != VERSION {
        return None;
    }

    let uptime_ms = r.u64();
    let gen_start_ms = r.u64();
    let generation = r.u32();
    let inherited = r.u8();

    let age_ms = r.u64();
    let hunger_at_anchor = r.u8();
    let hunger_anchor_ms = r.u64();
    let hunger_misses = r.u8();
    let mood_at_anchor = r.u8();
    let mood_anchor_ms = r.u64();
    let mood_misses = r.u8();
    let poop_cleaned_ms = r.u64();
    let sick_raw = r.u64();
    let sick_since_ms = if sick_raw == u64::MAX {
        None
    } else {
        Some(sick_raw)
    };
    let sick_misses = r.u8();
    let scolded_this_alert = r.u8() != 0;
    let care_miss = r.u8();
    let weight = r.u16();
    let discipline = r.u8();
    let outcome = match r.u8() {
        1 => Some(Outcome::Lifespan),
        2 => Some(Outcome::CareFailure),
        _ => None,
    };
    let state = PetState {
        age_ms,
        hunger_at_anchor,
        hunger_anchor_ms,
        hunger_misses,
        mood_at_anchor,
        mood_anchor_ms,
        mood_misses,
        poop_cleaned_ms,
        sick_since_ms,
        sick_misses,
        scolded_this_alert,
        care_miss,
        weight,
        discipline,
        outcome,
    };
    assert(state == decode_state(bytes@));

    // Rebuilding through the constructor is what keeps the derived fields --
    // the decay periods widened by inherited discipline -- consistent with
    // `inherited`, rather than trusting a second copy of them on disk.
    let mut pet = Pet::new(inherited);
    pet.restore(&state);

    // Nonsense that would leave the simulation in an impossible place: a pet
    // older than the lineage it belongs to.
    if gen_start_ms > uptime_ms {
        return None;
    }
    let generation = if generation < 1 {
        1
    } else {
        generation
    };
    Some(Game::restore(uptime_ms, gen_start_ms, generation, inherited, pet))
}

} // verus!
