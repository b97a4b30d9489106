//! The game variants: each one generates a pair of round values, describes
//! them for display, and scores a guess against them. A closed union of the
//! four rule-sets takes the place of dynamic dispatch, and the composite
//! variant delegates to a per-round choice among the other three.

use vstd::prelude::*;
use vstd::string::StringExecFns;

use crate::hue::Hue;
use crate::hue::hue_of_index;
use crate::rng::uniform_integer;
use crate::text::push_decimal_i32;
use crate::text::spec_decimal;
use crate::token::GuessError;
use crate::token::Token;
use crate::token::VariantKind;
use crate::token::accepts;

verus! {

/// Selects which of the two stored round values a caller asks about.
#[derive(Clone, Copy, Debug, PartialEq, Eq, Structural)]
pub enum DifferentValues {
    FirstGeneratedVal,
    SecondGeneratedVal,
}

/// The plain variant: two numbers from 1 to 10, guessed higher, lower or
/// the same.
#[derive(Clone, Copy, Debug, PartialEq, Eq, Structural)]
pub struct PlainGuppies {
    pub value_one: i32,
    pub value_two: i32,
}

impl PlainGuppies {
    /// Both stored values lie in the range `generate_new_random` draws from.
    pub open spec fn wf(self) -> bool {
        &&& 1 <= self.value_one <= 10
        &&& 1 <= self.value_two <= 10
    }

    /// The description of the requested stored value.
    pub open spec fn spec_tell(self, value: DifferentValues) -> Seq<char> {
        match value {
            DifferentValues::FirstGeneratedVal => "This is the first value "@ + spec_decimal(
                self.value_one as int,
            ),
            DifferentValues::SecondGeneratedVal => "This is the second value "@ + spec_decimal(
                self.value_two as int,
            ),
        }
    }

    /// The scoring rule: higher, lower, or the same; anything else is not
    /// an accepted plain guess.
    pub open spec fn spec_check(self, guess: Token) -> Result<bool, GuessError> {
        match guess {
            Token::Higher => Ok(self.value_two > self.value_one),
            Token::Lower => Ok(self.value_two < self.value_one),
            Token::Same => Ok(self.value_two == self.value_one),
            _ => Err(GuessError::InvalidGuess),
        }
    }

    /// A fresh instance with placeholder values; a round always calls
    /// `generate_new_random` before revealing or scoring.
    pub fn new() -> (r: Self)
        ensures
            r == (PlainGuppies { value_one: 1, value_two: 2 }),
            r.wf(),
    {
        PlainGuppies { value_one: 1, value_two: 2 }
    }

    /// Draws both stored values anew, independently and uniformly from 1 to
    /// 10.
    pub fn generate_new_random(&mut self)
        ensures
            final(self).wf(),
    {
        self.value_one = uniform_integer(1, 10);
        self.value_two = uniform_integer(1, 10);
    }

    /// Draws only the second value anew, uniformly from 1 to 10: the first
    /// value, already revealed to the player, is kept as the round's
    /// reference.
    pub fn refresh_second(&mut self)
        requires
            old(self).wf(),
        ensures
            final(self).wf(),
            final(self).value_one == old(self).value_one,
            1 <= final(self).value_two <= 10,
    {
        self.value_two = uniform_integer(1, 10);
    }

    /// Describes the requested stored value.
    pub fn tell_random(&self, value: DifferentValues) -> (r: String)
        requires
            self.wf(),
        ensures
            r@ == self.spec_tell(value),
    {
        match value {
            DifferentValues::FirstGeneratedVal => {
                let mut s = String::from_str("This is the first value ");
                push_decimal_i32(&mut s, self.value_one);
                s
            },
            DifferentValues::SecondGeneratedVal => {
                let mut s = String::from_str("This is the second value ");
                push_decimal_i32(&mut s, self.value_two);
                s
            },
        }
    }

    /// Scores a guess against the stored values.
    pub fn check_guess(&self, guess: Token) -> (r: Result<bool, GuessError>)
        ensures
            r == self.spec_check(guess),
    {
        match guess {
            Token::Higher => Ok(self.value_two > self.value_one),
            Token::Lower => Ok(self.value_two < self.value_one),
            Token::Same => Ok(self.value_two == self.value_one),
            _ => Err(GuessError::InvalidGuess),
        }
    }
}

/// The parity variant: two numbers from 1 to 100, the second guessed odd,
/// even, or the same as the first.
#[derive(Clone, Copy, Debug, PartialEq, Eq, Structural)]
pub struct OddOrEvenGuppies {
    pub num_one: i32,
    pub num_two: i32,
}

impl OddOrEvenGuppies {
    /// Both stored values are non-negative and no larger than the top of
    /// the range `generate_new_random` draws from.
    pub open spec fn wf(self) -> bool {
        &&& 0 <= self.num_one <= 100
        &&& 0 <= self.num_two <= 100
    }

    /// The description of the requested stored value.
    pub open spec fn spec_tell(self, value: DifferentValues) -> Seq<char> {
        match value {
            DifferentValues::FirstGeneratedVal => "This is the first number "@ + spec_decimal(
                self.num_one as int,
            ),
            DifferentValues::SecondGeneratedVal => "This is the second number "@ + spec_decimal(
                self.num_two as int,
            ),
        }
    }

    /// The scoring rule: the second value's parity, or equality of the two
    /// values for the same-guess; anything else is not an accepted parity
    /// guess.
    pub open spec fn spec_check(self, guess: Token) -> Result<bool, GuessError> {
        match guess {
            Token::Odd => Ok(self.num_two % 2 != 0),
            Token::Even => Ok(self.num_two % 2 == 0),
            Token::Same => Ok(self.num_two == self.num_one),
            _ => Err(GuessError::InvalidGuess),
        }
    }

    /// A fresh instance with placeholder values; a round always calls
    /// `generate_new_random` before revealing or scoring.
    pub fn new() -> (r: Self)
        ensures
            r == (OddOrEvenGuppies { num_one: 0, num_two: 0 }),
            r.wf(),
    {
        OddOrEvenGuppies { num_one: 0, num_two: 0 }
    }

    /// Draws both stored values anew, independently and uniformly from 1 to
    /// 100.
    pub fn generate_new_random(&mut self)
        ensures
            final(self).wf(),
            1 <= final(self).num_one <= 100,
            1 <= final(self).num_two <= 100,
    {
        self.num_one = uniform_integer(1, 100);
        self.num_two = uniform_integer(1, 100);
    }

    /// Draws only the second value anew, uniformly from 1 to 100: the first
    /// value, already revealed to the player, is kept as the round's
    /// reference.
    pub fn refresh_second(&mut self)
        requires
            old(self).wf(),
        ensures
            final(self).wf(),
            final(self).num_one == old(self).num_one,
            1 <= final(self).num_two <= 100,
    {
        self.num_two = uniform_integer(1, 100);
    }

    /// Describes the requested stored value.
    pub fn tell_random(&self, value: DifferentValues) -> (r: String)
        requires
            self.wf(),
        ensures
            r@ == self.spec_tell(value),
    {
        match value {
            DifferentValues::FirstGeneratedVal => {
                let mut s = String::from_str("This is the first number ");
                push_decimal_i32(&mut s, self.num_one);
                s
            },
            DifferentValues::SecondGeneratedVal => {
                let mut s = String::from_str("This is the second number ");
                push_decimal_i32(&mut s, self.num_two);
                s
            },
        }
    }

    /// Scores a guess against the stored values.
    pub fn check_guess(&self, guess: Token) -> (r: Result<bool, GuessError>)
        requires
            self.wf(),
        ensures
            r == self.spec_check(guess),
    {
        match guess {
            Token::Odd => Ok(self.num_two % 2 != 0),
            Token::Even => Ok(self.num_two % 2 == 0),
            Token::Same => Ok(self.num_two == self.num_one),
            _ => Err(GuessError::InvalidGuess),
        }
    }
}

/// The spectrum variant: two palette hues, the second guessed closer to or
/// farther from the reference hue than the first, or the same hue as the
/// first.
#[derive(Clone, Copy, Debug, PartialEq, Eq, Structural)]
pub struct RainbowGuppies {
    pub color_one: Hue,
    pub color_two: Hue,
}

impl RainbowGuppies {
    /// The description of the requested stored value.
    pub open spec fn spec_tell(self, value: DifferentValues) -> Seq<char> {
        match value {
            DifferentValues::FirstGeneratedVal => "This is first color "@
                + self.color_one.spec_name(),
            DifferentValues::SecondGeneratedVal => "This is second color "@
                + self.color_two.spec_name(),
        }
    }

    /// The scoring rule: the second hue's distance to the reference hue
    /// against the first's, by absolute palette-index difference, or
    /// equality of the two hues for the same-guess.
    pub open spec fn spec_check(self, guess: Token) -> Result<bool, GuessError> {
        match guess {
            Token::Closer => Ok(self.color_two.spec_distance() < self.color_one.spec_distance()),
            Token::Farther => Ok(self.color_two.spec_distance() > self.color_one.spec_distance()),
            Token::Same => Ok(self.color_two == self.color_one),
            _ => Err(GuessError::InvalidGuess),
        }
    }

    /// A fresh instance with placeholder values; a round always calls
    /// `generate_new_random` before revealing or scoring.
    pub fn new() -> (r: Self)
        ensures
            r == (RainbowGuppies { color_one: Hue::Red, color_two: Hue::Blue }),
    {
        RainbowGuppies { color_one: Hue::Red, color_two: Hue::Blue }
    }

    /// Draws both stored hues anew, independently and uniformly from the
    /// palette. Any pair of hues can come out, so nothing of the outcome is
    /// statable beyond its type.
    pub fn generate_new_random(&mut self) {
        let i = uniform_integer(0, 6);
        self.color_one = hue_of_index(i as usize);
        let j = uniform_integer(0, 6);
        self.color_two = hue_of_index(j as usize);
    }

    /// Draws only the second hue anew, uniformly from the palette: the
    /// first hue, already revealed to the player, is kept as the round's
    /// reference.
    pub fn refresh_second(&mut self)
        ensures
            final(self).color_one == old(self).color_one,
    {
        let j = uniform_integer(0, 6);
        self.color_two = hue_of_index(j as usize);
    }

    /// Describes the requested stored value.
    pub fn tell_random(&self, value: DifferentValues) -> (r: String)
        ensures
            r@ == self.spec_tell(value),
    {
        match value {
            DifferentValues::FirstGeneratedVal => {
                String::from_str("This is first color ").concat(self.color_one.name())
            },
            DifferentValues::SecondGeneratedVal => {
                String::from_str("This is second color ").concat(self.color_two.name())
            },
        }
    }

    /// Scores a guess against the stored values.
    pub fn check_guess(&self, guess: Token) -> (r: Result<bool, GuessError>)
        ensures
            r == self.spec_check(guess),
    {
        match guess {
            Token::Closer => Ok(
                self.color_two.distance_to_reference() < self.color_one.distance_to_reference(),
            ),
            Token::Farther => Ok(
                self.color_two.distance_to_reference() > self.color_one.distance_to_reference(),
            ),
            Token::Same => Ok(self.color_two == self.color_one),
            _ => Err(GuessError::InvalidGuess),
        }
    }
}

/// The composite variant: owns one instance of each concrete rule-set and,
/// on every generate call, picks one uniformly as the round's delegate.
#[derive(Clone, Copy, Debug, PartialEq, Eq, Structural)]
pub struct Manyguppies {
    pub plain: PlainGuppies,
    pub oddoreven: OddOrEvenGuppies,
    pub rainbow: RainbowGuppies,
    pub current: VariantKind,
}

impl Manyguppies {
    /// Every owned rule-set instance is well formed.
    pub open spec fn wf(self) -> bool {
        &&& self.plain.wf()
        &&& self.oddoreven.wf()
    }

    /// The description the current delegate gives.
    pub open spec fn spec_tell(self, value: DifferentValues) -> Seq<char> {
        match self.current {
            VariantKind::Plain => self.plain.spec_tell(value),
            VariantKind::Parity => self.oddoreven.spec_tell(value),
            VariantKind::Spectrum => self.rainbow.spec_tell(value),
        }
    }

    /// The scoring rule of the current delegate.
    pub open spec fn spec_check(self, guess: Token) -> Result<bool, GuessError> {
        match self.current {
            VariantKind::Plain => self.plain.spec_check(guess),
            VariantKind::Parity => self.oddoreven.spec_check(guess),
            VariantKind::Spectrum => self.rainbow.spec_check(guess),
        }
    }

    /// What holds of every outcome of a composite draw, whichever delegate
    /// chance picked: that delegate's values were freshly drawn from its
    /// range, and the rule-sets not chosen keep their state.
    pub open spec fn spec_generate_post(pre: Manyguppies, post: Manyguppies) -> bool {
        &&& (post.current == VariantKind::Plain ==> 1 <= post.plain.value_one <= 10 && 1
            <= post.plain.value_two <= 10 && post.oddoreven == pre.oddoreven && post.rainbow
            == pre.rainbow)
        &&& (post.current == VariantKind::Parity ==> 1 <= post.oddoreven.num_one <= 100 && 1
            <= post.oddoreven.num_two <= 100 && post.plain == pre.plain && post.rainbow
            == pre.rainbow)
        &&& (post.current == VariantKind::Spectrum ==> post.plain == pre.plain && post.oddoreven
            == pre.oddoreven)
    }

    /// What holds of every outcome of the round's second draw: the delegate
    /// stays the round's delegate, its already-revealed first value is
    /// kept, only its second value is freshly drawn from its range, and the
    /// rule-sets not chosen keep their state.
    pub open spec fn spec_refresh_post(pre: Manyguppies, post: Manyguppies) -> bool {
        &&& post.current == pre.current
        &&& (post.current == VariantKind::Plain ==> post.plain.value_one == pre.plain.value_one
            && 1 <= post.plain.value_two <= 10 && post.oddoreven == pre.oddoreven && post.rainbow
            == pre.rainbow)
        &&& (post.current == VariantKind::Parity ==> post.oddoreven.num_one
            == pre.oddoreven.num_one && 1 <= post.oddoreven.num_two <= 100 && post.plain
            == pre.plain && post.rainbow == pre.rainbow)
        &&& (post.current == VariantKind::Spectrum ==> post.rainbow.color_one
            == pre.rainbow.color_one && post.plain == pre.plain && post.oddoreven
            == pre.oddoreven)
    }

    /// A fresh instance holding a fresh copy of each rule-set, delegating
    /// to the plain one until the first draw.
    pub fn new() -> (r: Self)
        ensures
            r.wf(),
            r.current == VariantKind::Plain,
    {
        Manyguppies {
            plain: PlainGuppies::new(),
            oddoreven: OddOrEvenGuppies::new(),
            rainbow: RainbowGuppies::new(),
            current: VariantKind::Plain,
        }
    }

    /// Picks the round's delegate uniformly among the three rule-sets, then
    /// lets it draw fresh values; the rule-sets not chosen keep their state.
    pub fn generate_new_random(&mut self)
        requires
            old(self).wf(),
        ensures
            final(self).wf(),
            Manyguppies::spec_generate_post(*old(self), *final(self)),
    {
        let choice = uniform_integer(0, 2);
        if choice == 0 {
            self.current = VariantKind::Plain;
            self.plain.generate_new_random();
        } else if choice == 1 {
            self.current = VariantKind::Parity;
            self.oddoreven.generate_new_random();
        } else {
            self.current = VariantKind::Spectrum;
            self.rainbow.generate_new_random();
        }
    }

    /// Lets the round's delegate draw only its second value anew; the
    /// delegate itself and its already-revealed first value are kept.
    pub fn refresh_second(&mut self)
        requires
            old(self).wf(),
        ensures
            final(self).wf(),
            Manyguppies::spec_refresh_post(*old(self), *final(self)),
    {
        match self.current {
            VariantKind::Plain => self.plain.refresh_second(),
            VariantKind::Parity => self.oddoreven.refresh_second(),
            VariantKind::Spectrum => self.rainbow.refresh_second(),
        }
    }

    /// Describes the requested stored value of the current delegate.
    pub fn tell_random(&self, value: DifferentValues) -> (r: String)
        requires
            self.wf(),
        ensures
            r@ == self.spec_tell(value),
    {
        match self.current {
            VariantKind::Plain => self.plain.tell_random(value),
            VariantKind::Parity => self.oddoreven.tell_random(value),
            VariantKind::Spectrum => self.rainbow.tell_random(value),
        }
    }

    /// Scores a guess with the current delegate's rule.
    pub fn check_guess(&self, guess: Token) -> (r: Result<bool, GuessError>)
        requires
            self.wf(),
        ensures
            r == self.spec_check(guess),
    {
        match self.current {
            VariantKind::Plain => self.plain.check_guess(guess),
            VariantKind::Parity => self.oddoreven.check_guess(guess),
            VariantKind::Spectrum => self.rainbow.check_guess(guess),
        }
    }
}

/// One game variant of the session: a closed union of the four rule-sets,
/// dispatching each round operation to the alternative it holds.
#[derive(Clone, Copy, Debug, PartialEq, Eq, Structural)]
pub enum GameVariant {
    Plain(PlainGuppies),
    Parity(OddOrEvenGuppies),
    Spectrum(RainbowGuppies),
    Composite(Manyguppies),
}

impl GameVariant {
    /// The held alternative is well formed.
    pub open spec fn wf(self) -> bool {
        match self {
            GameVariant::Plain(v) => v.wf(),
            GameVariant::Parity(v) => v.wf(),
            GameVariant::Spectrum(_) => true,
            GameVariant::Composite(v) => v.wf(),
        }
    }

    /// The rule-set whose tokens and prompt apply to the present round: the
    /// variant's own for the three concrete kinds, the current delegate's
    /// for the composite.
    pub open spec fn spec_kind(self) -> VariantKind {
        match self {
            GameVariant::Plain(_) => VariantKind::Plain,
            GameVariant::Parity(_) => VariantKind::Parity,
            GameVariant::Spectrum(_) => VariantKind::Spectrum,
            GameVariant::Composite(v) => v.current,
        }
    }

    /// The description of the requested stored value.
    pub open spec fn spec_tell(self, value: DifferentValues) -> Seq<char> {
        match self {
            GameVariant::Plain(v) => v.spec_tell(value),
            GameVariant::Parity(v) => v.spec_tell(value),
            GameVariant::Spectrum(v) => v.spec_tell(value),
            GameVariant::Composite(v) => v.spec_tell(value),
        }
    }

    /// The scoring rule of the present round.
    pub open spec fn spec_check(self, guess: Token) -> Result<bool, GuessError> {
        match self {
            GameVariant::Plain(v) => v.spec_check(guess),
            GameVariant::Parity(v) => v.spec_check(guess),
            GameVariant::Spectrum(v) => v.spec_check(guess),
            GameVariant::Composite(v) => v.spec_check(guess),
        }
    }

    /// What holds of every outcome of a draw: the held alternative stays
    /// the same kind, its values were freshly drawn from its range, and a
    /// composite additionally keeps the state of the rule-sets its chance
    /// pick passed over.
    pub open spec fn spec_generate_post(pre: GameVariant, post: GameVariant) -> bool {
        match (pre, post) {
            (GameVariant::Plain(_), GameVariant::Plain(b)) => 1 <= b.value_one <= 10 && 1
                <= b.value_two <= 10,
            (GameVariant::Parity(_), GameVariant::Parity(b)) => 1 <= b.num_one <= 100 && 1
                <= b.num_two <= 100,
            (GameVariant::Spectrum(_), GameVariant::Spectrum(_)) => true,
            (GameVariant::Composite(a), GameVariant::Composite(b)) => Manyguppies::spec_generate_post(
                a,
                b,
            ),
            _ => false,
        }
    }

    /// What holds of every outcome of the round's second draw: the already
    /// revealed first value is kept as the round's reference, and only the
    /// second value is freshly drawn from its range.
    pub open spec fn spec_refresh_post(pre: GameVariant, post: GameVariant) -> bool {
        match (pre, post) {
            (GameVariant::Plain(a), GameVariant::Plain(b)) => b.value_one == a.value_one && 1
                <= b.value_two <= 10,
            (GameVariant::Parity(a), GameVariant::Parity(b)) => b.num_one == a.num_one && 1
                <= b.num_two <= 100,
            (GameVariant::Spectrum(a), GameVariant::Spectrum(b)) => b.color_one == a.color_one,
            (GameVariant::Composite(a), GameVariant::Composite(b)) => Manyguppies::spec_refresh_post(
                a,
                b,
            ),
            _ => false,
        }
    }

    /// The rule-set whose tokens and prompt apply to the present round.
    pub fn kind(&self) -> (k: VariantKind)
        ensures
            k == self.spec_kind(),
    {
        match self {
            GameVariant::Plain(_) => VariantKind::Plain,
            GameVariant::Parity(_) => VariantKind::Parity,
            GameVariant::Spectrum(_) => VariantKind::Spectrum,
            GameVariant::Composite(v) => v.current,
        }
    }

    /// Draws fresh round values; what every outcome guarantees is
    /// `spec_generate_post`, which values came out being chance.
    pub fn generate_new_random(&mut self)
        requires
            old(self).wf(),
        ensures
            final(self).wf(),
            GameVariant::spec_generate_post(*old(self), *final(self)),
    {
        match self {
            GameVariant::Plain(v) => v.generate_new_random(),
            GameVariant::Parity(v) => v.generate_new_random(),
            GameVariant::Spectrum(v) => v.generate_new_random(),
            GameVariant::Composite(v) => v.generate_new_random(),
        }
    }

    /// Draws only the round's second value anew, keeping the revealed
    /// first value — and, for a composite, the round's delegate — exactly
    /// as they were.
    pub fn refresh_second(&mut self)
        requires
            old(self).wf(),
        ensures
            final(self).wf(),
            GameVariant::spec_refresh_post(*old(self), *final(self)),
            final(self).spec_kind() == old(self).spec_kind(),
    {
        match self {
            GameVariant::Plain(v) => v.refresh_second(),
            GameVariant::Parity(v) => v.refresh_second(),
            GameVariant::Spectrum(v) => v.refresh_second(),
            GameVariant::Composite(v) => v.refresh_second(),
        }
    }

    /// Describes the requested stored value.
    pub fn tell_random(&self, value: DifferentValues) -> (r: String)
        requires
            self.wf(),
        ensures
            r@ == self.spec_tell(value),
    {
        match self {
            GameVariant::Plain(v) => v.tell_random(value),
            GameVariant::Parity(v) => v.tell_random(value),
            GameVariant::Spectrum(v) => v.tell_random(value),
            GameVariant::Composite(v) => v.tell_random(value),
        }
    }

    /// Scores a guess against the stored values.
    pub fn check_guess(&self, guess: Token) -> (r: Result<bool, GuessError>)
        requires
            self.wf(),
        ensures
            r == self.spec_check(guess),
    {
        match self {
            GameVariant::Plain(v) => v.check_guess(guess),
            GameVariant::Parity(v) => v.check_guess(guess),
            GameVariant::Spectrum(v) => v.check_guess(guess),
            GameVariant::Composite(v) => v.check_guess(guess),
        }
    }
}

/// Scoring is a total function on each rule-set's accepted tokens and only
/// there: it returns a boolean for exactly the accepted tokens and rejects
/// every other token, and the same-guess is correct exactly when the two
/// stored values are equal.
pub proof fn lemma_score_total(p: PlainGuppies, o: OddOrEvenGuppies, r: RainbowGuppies, t: Token)
    ensures
        p.spec_check(t) is Ok <==> accepts(VariantKind::Plain, t),
        o.spec_check(t) is Ok <==> accepts(VariantKind::Parity, t),
        r.spec_check(t) is Ok <==> accepts(VariantKind::Spectrum, t),
        p.spec_check(Token::Same) == Ok::<bool, GuessError>(p.value_two == p.value_one),
        o.spec_check(Token::Same) == Ok::<bool, GuessError>(o.num_two == o.num_one),
        r.spec_check(Token::Same) == Ok::<bool, GuessError>(r.color_two == r.color_one),
{
}

/// Whatever alternative a variant holds — the composite included, whichever
/// delegate it chose — scoring returns a boolean for exactly the tokens of
/// the round's rule-set.
pub proof fn lemma_variant_score_total(v: GameVariant, t: Token)
    ensures
        v.spec_check(t) is Ok <==> accepts(v.spec_kind(), t),
{
}

} // verus!
