use vstd::prelude::*;
use crate::words::{word_byte, pack_word, merge_tail_word};

verus! {

/// One word-granular write of the payload pass: the word to store over
/// the eight bytes at `addr`.
#[derive(Clone, Copy, Debug, PartialEq, Eq, Structural)]
pub struct WordWrite {
    pub addr: u64,
    pub word: u64,
}

/// How many word writes a payload of `len` bytes takes: one per full
/// eight bytes, and one more for a final partial stretch.
pub open spec fn word_count(len: nat) -> nat {
    len / 8 + if len % 8 == 0 {
        0nat
    } else {
        1nat
    }
}

proof fn lemma_word_count_bounds(len: nat)
    ensures
        len == 0 ==> word_count(len) == 0,
        len > 0 ==> word_count(len) > 0 && 8 * (word_count(len) - 1) < len <= 8 * word_count(
            len,
        ),
{
    assert(len == 8 * (len / 8) + len % 8) by {
        vstd::arithmetic::div_mod::lemma_fundamental_div_mod(len as int, 8);
    }
}

/// The target's memory, one byte per address, after one word write: the
/// eight bytes at `wr.addr` take the word's bytes in little-endian order,
/// every other address keeps its byte.
pub open spec fn apply_word_write(mem: Map<int, u8>, wr: WordWrite) -> Map<int, u8> {
    Map::new(
        |a: int| mem.dom().contains(a) || wr.addr <= a < wr.addr + 8,
        |a: int|
            if wr.addr <= a < wr.addr + 8 {
                word_byte(wr.word, (a - wr.addr) as u64)
            } else {
                mem[a]
            },
    )
}

/// The target's memory after the writes of `plan`, performed first to
/// last.
pub open spec fn apply_write_plan(mem: Map<int, u8>, plan: Seq<WordWrite>) -> Map<int, u8>
    decreases plan.len(),
{
    if plan.len() == 0 {
        mem
    } else {
        apply_write_plan(apply_word_write(mem, plan[0]), plan.drop_first())
    }
}

/// What the payload write pass produces for `payload` at `base`, given
/// that the word holding the final partial stretch currently reads
/// `tail_word`: consecutive word writes at base, base + 8, ... whose
/// bytes are the payload bytes at the matching offsets, and, at the
/// offsets past the payload's end, the bytes `tail_word` already has
/// there.
pub open spec fn plan_for(
    plan: Seq<WordWrite>,
    payload: Seq<u8>,
    base: u64,
    tail_word: u64,
) -> bool {
    &&& payload.len() == 0 ==> plan.len() == 0
    &&& payload.len() > 0 ==> plan.len() > 0 && 8 * (plan.len() - 1) < payload.len() <= 8
        * plan.len()
    &&& forall|j: int| 0 <= j < plan.len() ==> #[trigger] plan[j].addr == base + 8 * j
    &&& forall|j: int, i: u64|
        0 <= j < plan.len() && i < 8 && 8 * j + i < payload.len() ==> #[trigger] word_byte(
            plan[j].word,
            i,
        ) == payload[8 * j + i]
    &&& forall|j: int, i: u64|
        0 <= j < plan.len() && i < 8 && 8 * j + i >= payload.len() ==> #[trigger] word_byte(
            plan[j].word,
            i,
        ) == word_byte(tail_word, i)
}

/// Builds the word writes that put `payload` at [base, base + len): full
/// words packed straight from the payload, and a final partial word, if
/// any, merged into `tail_word`, the word currently stored at its
/// address, so that no byte past the payload's end changes.
pub fn payload_write_plan(payload: &Vec<u8>, base: u64, tail_word: u64) -> (plan: Vec<WordWrite>)
    requires
        base + 8 * word_count(payload@.len()) <= u64::MAX + 1,
    ensures
        plan@.len() == word_count(payload@.len()),
        plan_for(plan@, payload@, base, tail_word),
{
    let len: usize = payload.len();
    let n_words: usize = len / 8 + if len % 8 == 0 {
        0
    } else {
        1
    };
    proof {
        lemma_word_count_bounds(len as nat);
    }
    let mut plan: Vec<WordWrite> = Vec::new();
    let mut j: usize = 0;
    while j < n_words
        invariant
            len == payload@.len(),
            n_words == word_count(len as nat),
            len > 0 ==> 8 * (n_words - 1) < len <= 8 * n_words,
            len == 0 ==> n_words == 0,
            base + 8 * n_words <= u64::MAX + 1,
            j <= n_words,
            plan@.len() == j,
            forall|q: int| 0 <= q < j ==> #[trigger] plan@[q].addr == base + 8 * q,
            forall|q: int, i: u64|
                0 <= q < j && i < 8 && 8 * q + i < len ==> #[trigger] word_byte(
                    plan@[q].word,
                    i,
                ) == payload@[8 * q + i],
            forall|q: int, i: u64|
                0 <= q < j && i < 8 && 8 * q + i >= len ==> #[trigger] word_byte(
                    plan@[q].word,
                    i,
                ) == word_byte(tail_word, i),
        decreases n_words - j,
    {
        let addr: u64 = base + 8 * (j as u64);
        let off: usize = 8 * j;
        let word: u64 = if len - off >= 8 {
            pack_word(payload, off)
        } else {
            merge_tail_word(payload, off, tail_word)
        };
        plan.push(WordWrite { addr, word });
        j = j + 1;
    }
    plan
}

/// The bytes a write plan for `payload` at `base` changes are exactly
/// those at [base, base + payload.len()): applied to a memory whose bytes
/// the plan's final partial word already reflects past the payload's end,
/// the plan makes that range read the payload and leaves every other
/// address with the byte it had.
pub proof fn lemma_plan_touches_exactly(
    mem: Map<int, u8>,
    plan: Seq<WordWrite>,
    payload: Seq<u8>,
    base: u64,
    tail_word: u64,
)
    requires
        forall|a: int| mem.dom().contains(a),
        plan_for(plan, payload, base, tail_word),
        base + 8 * plan.len() <= u64::MAX + 1,
        forall|i: u64|
            i < 8 && payload.len() <= 8 * (plan.len() - 1) + i ==> word_byte(tail_word, i)
                == mem[base + 8 * (plan.len() - 1) + i],
    ensures
        forall|a: int| apply_write_plan(mem, plan).dom().contains(a),
        forall|a: int|
            base <= a < base + payload.len() ==> #[trigger] apply_write_plan(mem, plan)[a]
                == payload[a - base],
        forall|a: int|
            !(base <= a < base + payload.len()) ==> #[trigger] apply_write_plan(mem, plan)[a]
                == mem[a],
    decreases plan.len(),
{
    if plan.len() == 0 {
    } else {
        let m1 = apply_word_write(mem, plan[0]);
        let rest = plan.drop_first();
        assert(apply_write_plan(mem, plan) == apply_write_plan(m1, rest));
        assert(plan[0].addr == base);
        assert(forall|a: int| m1.dom().contains(a));
        if plan.len() == 1 {
            assert(0 < payload.len() <= 8);
            assert forall|a: int| base <= a < base + payload.len() implies #[trigger] apply_write_plan(
                mem,
                plan,
            )[a] == payload[a - base] by {
                let i: u64 = (a - base) as u64;
                assert(word_byte(plan[0].word, i) == payload[8 * 0 + i]);
            }
            assert forall|a: int| !(base <= a < base + payload.len()) implies #[trigger] apply_write_plan(
                mem,
                plan,
            )[a] == mem[a] by {
                if base <= a < base + 8 {
                    let i: u64 = (a - base) as u64;
                    assert(word_byte(plan[0].word, i) == word_byte(tail_word, i));
                    assert(mem[base + 8 * (plan.len() - 1) + i] == mem[a]);
                }
            }
        } else {
            let payload1 = payload.skip(8);
            let base1: u64 = (base + 8) as u64;
            assert(payload.len() > 8);
            assert(plan_for(rest, payload1, base1, tail_word)) by {
                assert(forall|j: int|
                    0 <= j < rest.len() ==> #[trigger] rest[j].addr == plan[j + 1].addr);
                assert forall|j: int, i: u64|
                    0 <= j < rest.len() && i < 8 && 8 * j + i < payload1.len() implies #[trigger] word_byte(
                    rest[j].word,
                    i,
                ) == payload1[8 * j + i] by {
                    assert(rest[j].word == plan[j + 1].word);
                    assert(word_byte(plan[j + 1].word, i) == payload[8 * (j + 1) + i]);
                    assert(payload1[8 * j + i] == payload[8 * (j + 1) + i]);
                }
                assert forall|j: int, i: u64|
                    0 <= j < rest.len() && i < 8 && 8 * j + i >= payload1.len() implies #[trigger] word_byte(
                    rest[j].word,
                    i,
                ) == word_byte(tail_word, i) by {
                    assert(rest[j].word == plan[j + 1].word);
                    assert(8 * (j + 1) + i >= payload.len());
                }
            }
            assert forall|i: u64|
                i < 8 && payload1.len() <= 8 * (rest.len() - 1) + i implies word_byte(tail_word, i)
                == m1[base1 + 8 * (rest.len() - 1) + i] by {
                let a: int = base1 + 8 * (rest.len() - 1) + i;
                assert(a == base + 8 * (plan.len() - 1) + i);
                assert(payload.len() <= 8 * (plan.len() - 1) + i);
                assert(word_byte(tail_word, i) == mem[a]);
                assert(a >= base + 8);
                assert(m1[a] == mem[a]);
            }
            lemma_plan_touches_exactly(m1, rest, payload1, base1, tail_word);
            assert forall|a: int| base <= a < base + payload.len() implies #[trigger] apply_write_plan(
                mem,
                plan,
            )[a] == payload[a - base] by {
                if a < base + 8 {
                    let i: u64 = (a - base) as u64;
                    assert(!(base1 <= a < base1 + payload1.len()));
                    assert(apply_write_plan(m1, rest)[a] == m1[a]);
                    assert(word_byte(plan[0].word, i) == payload[8 * 0 + i]);
                } else {
                    assert(base1 <= a < base1 + payload1.len());
                    assert(apply_write_plan(m1, rest)[a] == payload1[a - base1]);
                    assert(payload1[a - base1] == payload[a - base]);
                }
            }
            assert forall|a: int| !(base <= a < base + payload.len()) implies #[trigger] apply_write_plan(
                mem,
                plan,
            )[a] == mem[a] by {
                assert(!(base1 <= a < base1 + payload1.len()));
                assert(apply_write_plan(m1, rest)[a] == m1[a]);
                assert(!(base <= a < base + 8));
            }
        }
    }
}

} // verus!
