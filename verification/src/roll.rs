//! The `/roll` command: dice written as `<quantity>d<faces><modifier>`.
use vstd::prelude::*;
use vstd::string::StringExecFns;
use crate::ext_rand::{gen_range_i32, gen_range_inclusive_u32, small_rng_from_entropy};
use crate::ext_regex::{group_views, regex_captures, regex_captures_of};
use crate::numbers::{parse_i32, parse_u32, spec_parse_i32, spec_parse_u32};
use crate::text::{int_decimal, nat_decimal, push_char, push_decimal_i64, push_decimal_u64};

verus! {

/// The pattern that finds dice in the text of the command: an optional
/// quantity, `d`, the number of faces, and an optional signed modifier.
pub const ROLL_PATTERN: &'static str = "(?P<qty>[0-9]*)?d(?P<die>[0-9]+)(?P<modifier>[+-]?[0-9]*)?";

/// Dice to roll.
#[derive(Debug, Clone, Copy, PartialEq, Eq, Structural)]
pub struct RollSpec {
    pub qty: u32,
    pub die: u32,
    pub modifier: i32,
}

/// Why the dice could not be read.
#[derive(Debug, Clone, Copy, PartialEq, Eq, Structural)]
pub enum RollError {
    Syntax,
    InvalidQuantity,
    InvalidDie,
    InvalidModifier,
    NoDie,
    NoQuantity,
}

impl RollError {
    pub open spec fn spec_message(self) -> Seq<char> {
        match self {
            RollError::Syntax => "Sintassi dei dadi non corretta."@,
            RollError::InvalidQuantity => "La quantità di dadi da lanciare deve essere un numero intero positivo diverso da 0."@,
            RollError::InvalidDie => "La dimensione del dado da lanciare deve essere un numero intero positivo."@,
            RollError::InvalidModifier => "Il modificatore dei dadi lanciati deve essere un numero intero."@,
            RollError::NoDie => "Non è stato specificato nessun dado."@,
            RollError::NoQuantity => "La quantità di dadi specificata deve essere un intero positivo."@,
        }
    }

    /// The message shown for the error.
    pub fn message(&self) -> (r: &'static str)
        ensures
            r@ == self.spec_message(),
    {
        match self {
            RollError::Syntax => "Sintassi dei dadi non corretta.",
            RollError::InvalidQuantity => "La quantità di dadi da lanciare deve essere un numero intero positivo diverso da 0.",
            RollError::InvalidDie => "La dimensione del dado da lanciare deve essere un numero intero positivo.",
            RollError::InvalidModifier => "Il modificatore dei dadi lanciati deve essere un numero intero.",
            RollError::NoDie => "Non è stato specificato nessun dado.",
            RollError::NoQuantity => "La quantità di dadi specificata deve essere un intero positivo.",
        }
    }
}

/// Group `i` of the captures, where it took part.
pub open spec fn group(groups: Seq<Option<Seq<char>>>, i: int) -> Option<Seq<char>> {
    if 0 <= i < groups.len() {
        groups[i]
    } else {
        None
    }
}

/// The dice that the captured groups describe (quantity, faces, modifier are
/// groups 1, 2 and 3), or why they describe none.
pub open spec fn roll_spec_of(captures: Option<Seq<Option<Seq<char>>>>) -> Result<RollSpec, RollError> {
    match captures {
        None => Err(RollError::Syntax),
        Some(groups) => {
            let qty = match group(groups, 1) {
                Some(t) => spec_parse_u32(t),
                None => Some(1u32),
            };
            let modifier = match group(groups, 3) {
                Some(t) => spec_parse_i32(t),
                None => Some(0i32),
            };
            match qty {
                None => Err(RollError::InvalidQuantity),
                Some(qty) => match group(groups, 2) {
                    None => Err(RollError::Syntax),
                    Some(t) => match spec_parse_u32(t) {
                        None => Err(RollError::InvalidDie),
                        Some(die) => match modifier {
                            None => Err(RollError::InvalidModifier),
                            Some(modifier) => if die == 0 {
                                Err(RollError::NoDie)
                            } else if qty < 1 {
                                Err(RollError::NoQuantity)
                            } else {
                                Ok(RollSpec { qty, die, modifier })
                            },
                        },
                    },
                },
            }
        },
    }
}

fn group_text(groups: &Vec<Option<String>>, i: usize) -> (r: Option<&str>)
    ensures
        r matches Some(t) ==> group(group_views(groups@), i as int) == Some(t@),
        r is None <==> group(group_views(groups@), i as int) is None,
{
    if i < groups.len() {
        match &groups[i] {
            Some(t) => Some(t.as_str()),
            None => None,
        }
    } else {
        None
    }
}

impl RollSpec {
    /// Reads dice from the groups that [`ROLL_PATTERN`] captured.
    pub fn from_captures(captures: Option<Vec<Option<String>>>) -> (r: Result<Self, RollError>)
        ensures
            r == roll_spec_of(match captures {
                Some(groups) => Some(group_views(groups@)),
                None => None,
            }),
    {
        let groups = match captures {
            Some(groups) => groups,
            None => return Err(RollError::Syntax),
        };
        let qty: u32 = match group_text(&groups, 1) {
            Some(t) => match parse_u32(t) {
                Some(q) => q,
                None => return Err(RollError::InvalidQuantity),
            },
            None => 1,
        };
        let die: u32 = match group_text(&groups, 2) {
            Some(t) => match parse_u32(t) {
                Some(d) => d,
                None => return Err(RollError::InvalidDie),
            },
            None => return Err(RollError::Syntax),
        };
        let modifier: i32 = match group_text(&groups, 3) {
            Some(t) => match parse_i32(t) {
                Some(m) => m,
                None => return Err(RollError::InvalidModifier),
            },
            None => 0,
        };
        if die == 0 {
            return Err(RollError::NoDie);
        }
        if qty < 1 {
            return Err(RollError::NoQuantity);
        }
        Ok(RollSpec { qty, die, modifier })
    }

    /// Reads dice from the text of the command.
    pub fn parse(roll: &str) -> (r: Result<Self, RollError>)
        ensures
            r == roll_spec_of(regex_captures_of(ROLL_PATTERN@, roll@)),
    {
        Self::from_captures(regex_captures(ROLL_PATTERN, roll))
    }
}

/// A sum of dice taken as an `i32` (`sum as i32`): sums above `i32::MAX` wrap
/// around.
pub open spec fn wrap_i32(t: int) -> int {
    if t <= i32::MAX {
        t
    } else {
        t - 0x1_0000_0000
    }
}

pub open spec fn sum_of(rolls: Seq<u32>) -> int
    decreases rolls.len(),
{
    if rolls.len() == 0 {
        0
    } else {
        sum_of(rolls.drop_last()) + rolls.last()
    }
}

/// The rolls, each written in decimal, one per line.
pub open spec fn rolls_lines(rolls: Seq<u32>) -> Seq<char>
    decreases rolls.len(),
{
    if rolls.len() == 0 {
        Seq::empty()
    } else if rolls.len() == 1 {
        nat_decimal(rolls[0] as nat)
    } else {
        rolls_lines(rolls.drop_last()) + seq!['\n'] + nat_decimal(rolls.last() as nat)
    }
}

/// `format!("{m:+}")`: the number with its sign always written.
pub open spec fn signed_decimal(m: int) -> Seq<char> {
    if m >= 0 {
        seq!['+'] + int_decimal(m)
    } else {
        int_decimal(m)
    }
}

/// The answer to a roll: the rolls, the modifier where there is one, and the
/// total.
pub open spec fn roll_text(rolls: Seq<u32>, modifier: i32) -> Seq<char> {
    "🎲 ["@ + rolls_lines(rolls) + "]"@ + (if modifier != 0 {
        signed_decimal(modifier as int)
    } else {
        Seq::empty()
    }) + " = "@ + int_decimal(wrap_i32(sum_of(rolls)) + modifier)
}

/// The rolls are as many as the dice and each shows one of their faces.
pub open spec fn valid_rolls(rolls: Seq<u32>, spec: RollSpec) -> bool {
    &&& rolls.len() == spec.qty
    &&& forall|i: int| 0 <= i < rolls.len() ==> 1 <= #[trigger] rolls[i] <= spec.die
}

/// The answer to rolled dice: the rolls one per line, the modifier where it
/// is not zero, and the total of rolls and modifier.
pub fn format_roll(rolls: &Vec<u32>, modifier: i32) -> (r: String)
    requires
        sum_of(rolls@) <= u32::MAX,
        i32::MIN <= wrap_i32(sum_of(rolls@)) + modifier <= i32::MAX,
    ensures
        r@ == roll_text(rolls@, modifier),
{
    let mut out = String::from_str("🎲 [");
    let ghost start = out@;
    let mut sum: u32 = 0;
    let mut i: usize = 0;
    while i < rolls.len()
        invariant
            i <= rolls.len(),
            sum_of(rolls@) <= u32::MAX,
            sum == sum_of(rolls@.take(i as int)),
            out@ == start + rolls_lines(rolls@.take(i as int)),
        decreases rolls.len() - i,
    {
        proof {
            assert(rolls@.take(i + 1).drop_last() =~= rolls@.take(i as int));
            lemma_sum_prefix(rolls@, i + 1);
        }
        let ghost before = out@;
        if i > 0 {
            push_char(&mut out, '\n');
        }
        push_decimal_u64(&mut out, rolls[i] as u64);
        sum = sum + rolls[i];
        proof {
            let t = rolls@.take(i + 1);
            if i == 0 {
                assert(rolls@.take(0) =~= Seq::<u32>::empty());
                assert(out@ =~= start + rolls_lines(t));
            } else {
                assert(out@ =~= start + rolls_lines(t));
            }
        }
        i = i + 1;
    }
    assert(rolls@.take(i as int) =~= rolls@);
    out.append("]");
    let ghost after_rolls = out@;
    if modifier != 0 {
        if modifier > 0 {
            push_char(&mut out, '+');
        }
        push_decimal_i64(&mut out, modifier as i64);
    }
    assert(out@ =~= after_rolls + (if modifier != 0 {
        signed_decimal(modifier as int)
    } else {
        Seq::empty()
    }));
    out.append(" = ");
    let wrapped: i32 = sum as i32;
    assert(wrapped == wrap_i32(sum as int)) by (bit_vector)
        requires wrapped == sum as i32;
    let total: i32 = wrapped + modifier;
    push_decimal_i64(&mut out, total as i64);
    assert(out@ =~= roll_text(rolls@, modifier));
    out
}

proof fn lemma_sum_prefix(rolls: Seq<u32>, k: int)
    requires
        0 <= k <= rolls.len(),
    ensures
        sum_of(rolls.take(k)) <= sum_of(rolls),
    decreases rolls.len(),
{
    if k < rolls.len() {
        lemma_sum_prefix(rolls.drop_last(), k);
        assert(rolls.drop_last().take(k) =~= rolls.take(k));
    } else {
        assert(rolls.take(k) =~= rolls);
    }
}

/// Rolls the dice: one face of each die, drawn by `rng`.
pub fn roll_dice(rng: &mut rand::rngs::SmallRng, spec: RollSpec) -> (r: Vec<u32>)
    requires
        spec.die >= 1,
    ensures
        valid_rolls(r@, spec),
{
    let mut nums_rolled: Vec<u32> = Vec::new();
    let mut i: u32 = 0;
    while i < spec.qty
        invariant
            i <= spec.qty,
            spec.die >= 1,
            nums_rolled@.len() == i,
            forall|j: int| 0 <= j < nums_rolled@.len() ==> 1 <= #[trigger] nums_rolled@[j] <= spec.die,
        decreases spec.qty - i,
    {
        let n = gen_range_inclusive_u32(rng, 1, spec.die);
        nums_rolled.push(n);
        i = i + 1;
    }
    nums_rolled
}

/// The answer to a rolled joke instead of dice, one time in a thousand.
pub open spec fn rickroll_text() -> Seq<char> {
    "🎶 Roll? Rick roll! https://www.youtube.com/watch?v=dQw4w9WgXcQ"@
}

/// The rolls add up to a `u32`, and their total taken as an `i32` can have
/// the modifier added: the sums that the answer shows do not overflow.
pub open spec fn total_fits(rolls: Seq<u32>, modifier: i32) -> bool {
    &&& sum_of(rolls) <= u32::MAX
    &&& i32::MIN <= wrap_i32(sum_of(rolls)) + modifier <= i32::MAX
}

/// [`total_fits`].
pub fn rolled_total_fits(rolls: &Vec<u32>, modifier: i32) -> (r: bool)
    ensures
        r == total_fits(rolls@, modifier),
{
    let mut sum: u64 = 0;
    let mut i: usize = 0;
    while i < rolls.len()
        invariant
            i <= rolls.len(),
            sum == sum_of(rolls@.take(i as int)),
            sum <= u32::MAX,
        decreases rolls.len() - i,
    {
        proof {
            assert(rolls@.take(i + 1).drop_last() =~= rolls@.take(i as int));
        }
        sum = sum + rolls[i] as u64;
        if sum > 0xffff_ffff {
            proof {
                lemma_sum_prefix(rolls@, i + 1);
            }
            return false;
        }
        i = i + 1;
    }
    assert(rolls@.take(i as int) =~= rolls@);
    let total: i64 = if sum <= 0x7fff_ffff {
        sum as i64
    } else {
        sum as i64 - 0x1_0000_0000
    };
    let with_modifier: i64 = total + modifier as i64;
    -0x8000_0000 <= with_modifier && with_modifier <= 0x7fff_ffff
}

/// What `/roll` answers once the joke's draw is known: on a draw of 1 the
/// joke, whatever the text; otherwise why the text names no dice, or the
/// dice rolled, or `None` where the total of the rolled dice and the
/// modifier overflows.
pub open spec fn answers_draw(draw: i32, roll: Seq<char>, r: Option<Result<String, RollError>>) -> bool {
    if draw == 1 {
        r matches Some(Ok(text)) && text@ == rickroll_text()
    } else {
        match roll_spec_of(regex_captures_of(ROLL_PATTERN@, roll)) {
            Err(e) => r == Some(Err::<String, RollError>(e)),
            Ok(spec) => match r {
                Some(Ok(text)) => exists|rolls: Seq<u32>| valid_rolls(rolls, spec) && total_fits(rolls, spec.modifier)
                    && text@ == roll_text(rolls, spec.modifier),
                None => exists|rolls: Seq<u32>| valid_rolls(rolls, spec) && !total_fits(rolls, spec.modifier),
                Some(Err(_)) => false,
            },
        }
    }
}

/// The answer to `/roll` once the joke's draw (a number from 1 to 1000) is
/// known, as [`answers_draw`] says; the dice are rolled with `rng`.
pub fn roll_answer(draw: i32, roll: &str, rng: &mut rand::rngs::SmallRng) -> (r: Option<Result<String, RollError>>)
    ensures
        answers_draw(draw, roll@, r),
{
    if draw == 1 {
        let joke = String::from_str("🎶 Roll? Rick roll! https://www.youtube.com/watch?v=dQw4w9WgXcQ");
        proof {
            reveal_strlit("🎶 Roll? Rick roll! https://www.youtube.com/watch?v=dQw4w9WgXcQ");
        }
        return Some(Ok(joke));
    }
    let spec = match RollSpec::parse(roll) {
        Ok(spec) => spec,
        Err(e) => return Some(Err(e)),
    };
    let rolls = roll_dice(rng, spec);
    if !rolled_total_fits(&rolls, spec.modifier) {
        assert(valid_rolls(rolls@, spec) && !total_fits(rolls@, spec.modifier));
        return None;
    }
    let text = format_roll(&rolls, spec.modifier);
    assert(valid_rolls(rolls@, spec) && total_fits(rolls@, spec.modifier) && text@ == roll_text(rolls@, spec.modifier));
    Some(Ok(text))
}

/// The `/roll` command: draws a number from 1 to 1000 with a generator
/// seeded by the operating system, then answers as [`roll_answer`] does for
/// that draw. `None` where the total of the rolled dice overflows.
pub fn roll_command(roll: &str) -> (r: Option<Result<String, RollError>>)
    ensures
        exists|draw: i32| 1 <= draw <= 1000 && answers_draw(draw, roll@, r),
{
    let mut rng = small_rng_from_entropy();
    let draw = gen_range_i32(&mut rng, 1, 1001);
    roll_answer(draw, roll, &mut rng)
}

} // verus!
