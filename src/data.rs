use vstd::prelude::*;

use crate::probabilities::Probabilities;

verus! {

/// A position and its outcome probabilities in the three-number form kept in
/// training data files: `win` includes gammons, `win_g` and `lose_g` are the
/// gammon chances, all over `denominator`.
#[derive(Debug)]
pub struct PositionRecord {
    pub position_id: String,
    pub win: u64,
    pub win_g: u32,
    pub lose_g: u32,
    pub denominator: u32,
}

/// Produces the numeric model inputs for the position with a given identifier.
pub trait InputsGen<F> {
    fn inputs_for_single(&self, position_id: &String) -> Vec<F>;
}

/// The four outcome numerators of a record, with the model inputs of its
/// position.
pub struct InputsRecord<F> {
    pub win_normal: u32,
    pub win_gammon: u32,
    pub lose_normal: u32,
    pub lose_gammon: u32,
    pub denominator: u32,
    pub inputs: Vec<F>,
}

impl PositionRecord {
    /// `self` is the compact form of `p` for the position `position_id`.
    pub open spec fn is_compact_of(&self, position_id: Seq<char>, p: Probabilities) -> bool {
        &&& self.position_id@ == position_id
        &&& self.win == p.win_normal + p.win_gammon
        &&& self.win_g == p.win_gammon
        &&& self.lose_g == p.lose_gammon
        &&& self.denominator == p.denominator
    }

    /// The three numbers describe a distribution: a positive denominator,
    /// `win_g <= win`, and `win + lose_g <= denominator`.
    pub open spec fn valid(&self) -> bool {
        &&& self.denominator > 0
        &&& self.win_g <= self.win
        &&& self.win + self.lose_g <= self.denominator
    }

    /// The full distribution, or `None` where the numbers describe none.
    pub open spec fn spec_expand(&self) -> Option<Probabilities> {
        if self.valid() {
            Some(
                Probabilities {
                    win_normal: (self.win - self.win_g) as u32,
                    win_gammon: self.win_g,
                    lose_normal: (self.denominator - self.win - self.lose_g) as u32,
                    lose_gammon: self.lose_g,
                    denominator: self.denominator,
                },
            )
        } else {
            None
        }
    }

    /// The compact record of `probabilities` for the position `position_id`.
    pub fn new(position_id: String, probabilities: &Probabilities) -> (r: Self)
        ensures
            r.is_compact_of(position_id@, *probabilities),
    {
        PositionRecord {
            position_id,
            win: probabilities.win_normal as u64 + probabilities.win_gammon as u64,
            win_g: probabilities.win_gammon,
            lose_g: probabilities.lose_gammon,
            denominator: probabilities.denominator,
        }
    }

    /// Column names of the record file, in order.
    pub fn csv_header() -> (r: Vec<String>)
        ensures
            r@.len() == 4,
            r@[0]@ == "position_id"@,
            r@[1]@ == "win"@,
            r@[2]@ == "win_g"@,
            r@[3]@ == "lose_g"@,
    {
        let mut r: Vec<String> = Vec::new();
        r.push("position_id".to_owned());
        r.push("win".to_owned());
        r.push("win_g".to_owned());
        r.push("lose_g".to_owned());
        r
    }

    /// Rebuilds the four-way distribution: a plain win is `win - win_g`, a
    /// plain loss `denominator - win - lose_g`.
    pub fn expand(&self) -> (r: Option<Probabilities>)
        ensures
            r == self.spec_expand(),
            r is Some <==> self.valid(),
            r matches Some(p) ==> p.wf(),
    {
        if self.denominator > 0 && self.win_g as u64 <= self.win
            && self.win <= self.denominator as u64
            && self.lose_g as u64 <= self.denominator as u64 - self.win {
            Some(
                Probabilities {
                    win_normal: (self.win - self.win_g as u64) as u32,
                    win_gammon: self.win_g,
                    lose_normal: (self.denominator as u64 - self.win - self.lose_g as u64) as u32,
                    lose_gammon: self.lose_g,
                    denominator: self.denominator,
                },
            )
        } else {
            None
        }
    }
}

impl<F> InputsRecord<F> {
    /// Expands `record` and attaches the inputs that `inputs_gen` gives for
    /// its position; `None` where the record describes no distribution.
    pub fn new<T: InputsGen<F>>(record: &PositionRecord, inputs_gen: &T) -> (r: Option<Self>)
        ensures
            r is Some <==> record.valid(),
            r matches Some(x) ==> record.spec_expand() == Some(
                Probabilities {
                    win_normal: x.win_normal,
                    win_gammon: x.win_gammon,
                    lose_normal: x.lose_normal,
                    lose_gammon: x.lose_gammon,
                    denominator: x.denominator,
                },
            ),
    {
        match record.expand() {
            Some(p) => {
                let inputs = inputs_gen.inputs_for_single(&record.position_id);
                Some(
                    InputsRecord {
                        win_normal: p.win_normal,
                        win_gammon: p.win_gammon,
                        lose_normal: p.lose_normal,
                        lose_gammon: p.lose_gammon,
                        denominator: p.denominator,
                        inputs,
                    },
                )
            },
            None => None,
        }
    }
}

/// Compacting a proper distribution and expanding it again gives back the
/// same distribution and position.
pub proof fn lemma_round_trip(record: PositionRecord, position_id: Seq<char>, p: Probabilities)
    requires
        p.wf(),
        record.is_compact_of(position_id, p),
    ensures
        record.spec_expand() == Some(p),
        record.position_id@ == position_id,
{
}

} // verus!
