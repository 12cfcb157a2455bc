use vstd::prelude::*;

use crate::outcome::GameResult;

verus! {

/// Tally of rollout results, one slot per outcome.
pub struct ResultCounter {
    results: [u32; 4],
}

/// Slot-wise sum of two tallies.
pub open spec fn combined(a: (nat, nat, nat, nat), b: (nat, nat, nat, nat)) -> (nat, nat, nat, nat) {
    (a.0 + b.0, a.1 + b.1, a.2 + b.2, a.3 + b.3)
}

/// A tally with `amount` more results of kind `result`.
pub open spec fn added(
    v: (nat, nat, nat, nat),
    result: GameResult,
    amount: nat,
) -> (nat, nat, nat, nat) {
    match result {
        GameResult::WinNormal => (v.0 + amount, v.1, v.2, v.3),
        GameResult::WinGammon => (v.0, v.1 + amount, v.2, v.3),
        GameResult::LoseNormal => (v.0, v.1, v.2 + amount, v.3),
        GameResult::LoseGammon => (v.0, v.1, v.2, v.3 + amount),
    }
}

impl View for ResultCounter {
    type V = (nat, nat, nat, nat);

    closed spec fn view(&self) -> (nat, nat, nat, nat) {
        (
            self.results[0] as nat,
            self.results[1] as nat,
            self.results[2] as nat,
            self.results[3] as nat,
        )
    }
}

impl ResultCounter {
    /// The count recorded for one outcome.
    pub open spec fn spec_num_of(&self, result: GameResult) -> nat {
        match result {
            GameResult::WinNormal => self@.0,
            GameResult::WinGammon => self@.1,
            GameResult::LoseNormal => self@.2,
            GameResult::LoseGammon => self@.3,
        }
    }

    /// The number of results recorded over all outcomes.
    pub open spec fn spec_sum(&self) -> nat {
        self@.0 + self@.1 + self@.2 + self@.3
    }

    /// A counter that starts from the given counts.
    pub fn new(win_normal: u32, win_gammon: u32, lose_normal: u32, lose_gammon: u32) -> (r: Self)
        ensures
            r@ == (win_normal as nat, win_gammon as nat, lose_normal as nat, lose_gammon as nat),
    {
        let results = [win_normal, win_gammon, lose_normal, lose_gammon];
        Self { results }
    }

    /// Records one result.
    pub fn add(&mut self, result: GameResult)
        requires
            old(self).spec_num_of(result) < u32::MAX,
        ensures
            final(self)@ == added(old(self)@, result, 1),
    {
        self.add_results(result, 1);
    }

    /// Records `amount` results of one kind at once.
    pub fn add_results(&mut self, result: GameResult, amount: u32)
        requires
            old(self).spec_num_of(result) + amount <= u32::MAX,
        ensures
            final(self)@ == added(old(self)@, result, amount as nat),
    {
        let i = result.index();
        self.results[i] = self.results[i] + amount;
    }

    /// Total number of results recorded.
    pub fn sum(&self) -> (r: u32)
        requires
            self.spec_sum() <= u32::MAX,
        ensures
            r == self.spec_sum(),
    {
        self.results[0] + self.results[1] + self.results[2] + self.results[3]
    }

    /// Number of results recorded for one outcome.
    pub fn num_of(&self, result: GameResult) -> (r: u32)
        ensures
            r == self.spec_num_of(result),
    {
        self.results[result.index()]
    }

    /// Slot-wise sum of `self` and `counter`, as when merging the tallies
    /// of two workers.
    pub fn combine(self, counter: &ResultCounter) -> (r: Self)
        requires
            self@.0 + counter@.0 <= u32::MAX,
            self@.1 + counter@.1 <= u32::MAX,
            self@.2 + counter@.2 <= u32::MAX,
            self@.3 + counter@.3 <= u32::MAX,
        ensures
            r@ == combined(self@, counter@),
    {
        let mut results = self.results;
        let mut i: usize = 0;
        while i < 4
            invariant
                0 <= i <= 4,
                forall|j: int| 0 <= j < i ==> results[j] == self.results[j] + counter.results[j],
                forall|j: int| i <= j < 4 ==> results[j] == self.results[j],
                forall|j: int| 0 <= j < 4 ==> self.results[j] + counter.results[j] <= u32::MAX,
            decreases 4 - i,
        {
            results[i] = results[i] + counter.results[i];
            i = i + 1;
        }
        Self { results }
    }
}

impl Default for ResultCounter {
    /// A counter with nothing recorded.
    fn default() -> (r: Self)
        ensures
            r@ == (0nat, 0nat, 0nat, 0nat),
    {
        Self::new(0, 0, 0, 0)
    }
}

/// Merging tallies does not depend on their order.
pub proof fn lemma_combine_commutative(a: ResultCounter, b: ResultCounter)
    ensures
        combined(a@, b@) == combined(b@, a@),
{
}

/// Merging tallies does not depend on their grouping.
pub proof fn lemma_combine_associative(a: ResultCounter, b: ResultCounter, c: ResultCounter)
    ensures
        combined(combined(a@, b@), c@) == combined(a@, combined(b@, c@)),
{
}

/// Outcome probabilities as exact fractions over a shared denominator: the
/// chance of a plain win is `win_normal / denominator`, and so on.
#[derive(Clone, Copy, Debug, PartialEq, Eq, Structural)]
pub struct Probabilities {
    pub win_normal: u32,
    pub win_gammon: u32,
    pub lose_normal: u32,
    pub lose_gammon: u32,
    pub denominator: u32,
}

impl Probabilities {
    /// A proper distribution: a positive denominator, and the four
    /// fractions add up to one.
    pub open spec fn wf(&self) -> bool {
        &&& self.denominator > 0
        &&& self.win_normal + self.win_gammon + self.lose_normal + self.lose_gammon
            == self.denominator
    }

    /// Numerator of the cubeless equity: plain results count one, gammons two.
    pub open spec fn spec_equity(&self) -> int {
        (self.win_normal - self.lose_normal) + 2 * (self.win_gammon - self.lose_gammon)
    }

    /// The same outcomes seen from the opponent's side.
    pub open spec fn spec_switch_sides(&self) -> Probabilities {
        Probabilities {
            win_normal: self.lose_normal,
            win_gammon: self.lose_gammon,
            lose_normal: self.win_normal,
            lose_gammon: self.win_gammon,
            denominator: self.denominator,
        }
    }

    /// Field names, in the order in which the fields are written out.
    pub fn csv_header() -> (r: String)
        ensures
            r@ == "win_normal;win_gammon;lose_normal;lose_gammon"@,
    {
        "win_normal;win_gammon;lose_normal;lose_gammon".to_owned()
    }

    /// Numerator of the chance to win, gammons included.
    pub fn win(&self) -> (r: u64)
        ensures
            r == self.win_normal + self.win_gammon,
    {
        self.win_normal as u64 + self.win_gammon as u64
    }

    /// The same outcomes seen from the opponent's side.
    pub fn switch_sides(&self) -> (r: Self)
        ensures
            r == self.spec_switch_sides(),
    {
        Self {
            win_normal: self.lose_normal,
            win_gammon: self.lose_gammon,
            lose_normal: self.win_normal,
            lose_gammon: self.win_gammon,
            denominator: self.denominator,
        }
    }

    /// Numerator of the cubeless equity; the equity is this over `denominator`.
    pub fn equity(&self) -> (r: i64)
        ensures
            r == self.spec_equity(),
            self.wf() ==> -2 * self.denominator <= r <= 2 * self.denominator,
            self.wf() && self.win_normal == self.denominator ==> r == self.denominator,
            self.wf() && self.win_gammon == self.denominator ==> r == 2 * self.denominator,
            self.wf() && self.lose_normal == self.denominator ==> r == -self.denominator,
            self.wf() && self.lose_gammon == self.denominator ==> r == -2 * self.denominator,
            self.win_normal == self.lose_normal && self.win_gammon == self.lose_gammon ==> r == 0,
    {
        let wn = self.win_normal as i64;
        let wg = self.win_gammon as i64;
        let ln = self.lose_normal as i64;
        let lg = self.lose_gammon as i64;
        (wn - ln) + 2 * (wg - lg)
    }

    /// The distribution of a non-empty tally: each outcome's count over the
    /// total count.
    pub fn from(value: &ResultCounter) -> (r: Self)
        requires
            value.spec_sum() > 0,
            value.spec_sum() <= u32::MAX,
        ensures
            r.wf(),
            r.denominator == value.spec_sum(),
            r.win_normal == value.spec_num_of(GameResult::WinNormal),
            r.win_gammon == value.spec_num_of(GameResult::WinGammon),
            r.lose_normal == value.spec_num_of(GameResult::LoseNormal),
            r.lose_gammon == value.spec_num_of(GameResult::LoseGammon),
    {
        let sum = value.sum();
        Probabilities {
            win_normal: value.num_of(GameResult::WinNormal),
            win_gammon: value.num_of(GameResult::WinGammon),
            lose_normal: value.num_of(GameResult::LoseNormal),
            lose_gammon: value.num_of(GameResult::LoseGammon),
            denominator: sum,
        }
    }
}

impl Default for Probabilities {
    /// All four numerators and the denominator zero.
    fn default() -> (r: Self)
        ensures
            r == (Probabilities {
                win_normal: 0,
                win_gammon: 0,
                lose_normal: 0,
                lose_gammon: 0,
                denominator: 0,
            }),
    {
        Probabilities { win_normal: 0, win_gammon: 0, lose_normal: 0, lose_gammon: 0, denominator: 0 }
    }
}

/// Switching sides twice gives back the distribution unchanged.
pub proof fn lemma_switch_sides_involution(p: Probabilities)
    ensures
        p.spec_switch_sides().spec_switch_sides() == p,
{
}

} // verus!
