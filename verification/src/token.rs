//! Guess tokens: the closed set of single-character player inputs, which
//! variant accepts which of them, and how a line of input maps to one.

use vstd::prelude::*;

verus! {

/// A player's guess: one category per variant rule, plus the universal quit.
#[derive(Clone, Copy, Debug, PartialEq, Eq, Structural)]
pub enum Token {
    /// `h`: the second number is higher than the first (Plain).
    Higher,
    /// `l`: the second number is lower than the first (Plain).
    Lower,
    /// `o`: the second number is odd (Parity).
    Odd,
    /// `e`: the second number is even (Parity).
    Even,
    /// `c`: the second colour is closer to the reference hue (Spectrum).
    Closer,
    /// `f`: the second colour is farther from the reference hue (Spectrum).
    Farther,
    /// `s`: the two values are the same (all variants).
    Same,
    /// `q`: stop playing; intercepted before scoring.
    Quit,
}

/// The three concrete rule-sets. The composite variant delegates to one of
/// these each round, so its accepted tokens are always one of these sets.
#[derive(Clone, Copy, Debug, PartialEq, Eq, Structural)]
pub enum VariantKind {
    Plain,
    Parity,
    Spectrum,
}

/// Scoring rejects a token outside the variant's accepted set.
#[derive(Clone, Copy, Debug, PartialEq, Eq, Structural)]
pub enum GuessError {
    InvalidGuess,
}

/// The tokens a variant's scoring accepts. Quit is deliberately not
/// accepted: the orchestrator intercepts it before scoring.
pub open spec fn accepts(kind: VariantKind, t: Token) -> bool {
    match kind {
        VariantKind::Plain => t == Token::Higher || t == Token::Lower || t == Token::Same,
        VariantKind::Parity => t == Token::Odd || t == Token::Even || t == Token::Same,
        VariantKind::Spectrum => t == Token::Closer || t == Token::Farther || t == Token::Same,
    }
}

/// The token a single character selects for a variant, case-insensitively;
/// `None` for a character outside the variant's set and the quit letter.
pub open spec fn spec_char_token(kind: VariantKind, c: char) -> Option<Token> {
    if c == 'q' || c == 'Q' {
        Some(Token::Quit)
    } else {
        match kind {
            VariantKind::Plain => if c == 'h' || c == 'H' {
                Some(Token::Higher)
            } else if c == 'l' || c == 'L' {
                Some(Token::Lower)
            } else if c == 's' || c == 'S' {
                Some(Token::Same)
            } else {
                None
            },
            VariantKind::Parity => if c == 'o' || c == 'O' {
                Some(Token::Odd)
            } else if c == 'e' || c == 'E' {
                Some(Token::Even)
            } else if c == 's' || c == 'S' {
                Some(Token::Same)
            } else {
                None
            },
            VariantKind::Spectrum => if c == 'c' || c == 'C' {
                Some(Token::Closer)
            } else if c == 'f' || c == 'F' {
                Some(Token::Farther)
            } else if c == 's' || c == 'S' {
                Some(Token::Same)
            } else {
                None
            },
        }
    }
}

/// The token a whole input line selects: exactly one character, and that
/// character must name a guess of this variant or quit.
pub open spec fn spec_parse_guess(kind: VariantKind, s: Seq<char>) -> Option<Token> {
    if s.len() == 1 {
        spec_char_token(kind, s[0])
    } else {
        None
    }
}

/// Maps one trimmed input line to the guess it selects for `kind`, or
/// `None` when the line is not a legal guess and must be re-prompted.
pub fn parse_guess(kind: VariantKind, s: &str) -> (t: Option<Token>)
    ensures
        t == spec_parse_guess(kind, s@),
{
    if s.unicode_len() != 1 {
        return None;
    }
    let c = s.get_char(0);
    if c == 'q' || c == 'Q' {
        return Some(Token::Quit);
    }
    match kind {
        VariantKind::Plain => {
            if c == 'h' || c == 'H' {
                Some(Token::Higher)
            } else if c == 'l' || c == 'L' {
                Some(Token::Lower)
            } else if c == 's' || c == 'S' {
                Some(Token::Same)
            } else {
                None
            }
        },
        VariantKind::Parity => {
            if c == 'o' || c == 'O' {
                Some(Token::Odd)
            } else if c == 'e' || c == 'E' {
                Some(Token::Even)
            } else if c == 's' || c == 'S' {
                Some(Token::Same)
            } else {
                None
            }
        },
        VariantKind::Spectrum => {
            if c == 'c' || c == 'C' {
                Some(Token::Closer)
            } else if c == 'f' || c == 'F' {
                Some(Token::Farther)
            } else if c == 's' || c == 'S' {
                Some(Token::Same)
            } else {
                None
            }
        },
    }
}

/// A parsed guess is either accepted by the variant's scoring or is quit:
/// re-prompting on `None` guarantees scoring never sees a foreign token.
pub proof fn lemma_parse_guess_accepted(kind: VariantKind, s: Seq<char>)
    ensures
        spec_parse_guess(kind, s) matches Some(t) ==> t == Token::Quit || accepts(kind, t),
{
}

/// The prompt soliciting a guess for `kind`.
pub fn guess_prompt(kind: VariantKind) -> (r: &'static str)
    ensures
        r@ == spec_guess_prompt(kind),
{
    match kind {
        VariantKind::Plain => "Is the second number (h)igher, (l)ower, or the (s)ame?   [Or (q)uit.]",
        VariantKind::Parity => "Is the second num (o)dd, (e)ven, or the (s)ame? [Or (q)uit.]",
        VariantKind::Spectrum => "Is the second color (c)loser, (f)arther, or the (s)ame when compared with green? [Or (q)uit.]",
    }
}

/// The prompt repeated after an illegal guess for `kind`.
pub fn invalid_guess_prompt(kind: VariantKind) -> (r: &'static str)
    ensures
        r@ == spec_invalid_guess_prompt(kind),
{
    match kind {
        VariantKind::Plain => "Invalid guess.  Is the second number (h)igher, (l)ower, or the (s)ame?   [Or (q)uit.]",
        VariantKind::Parity => "Invalid guess. Is the second num (o)dd, (e)ven, or the (s)ame? [Or (q)uit.]",
        VariantKind::Spectrum => "Invalid guess. Is the second color (c)loser, (f)arther, or the (s)ame when compared with green?? [Or (q)uit.]",
    }
}

/// The characters of the guess prompt for `kind`.
pub open spec fn spec_guess_prompt(kind: VariantKind) -> Seq<char> {
    match kind {
        VariantKind::Plain => "Is the second number (h)igher, (l)ower, or the (s)ame?   [Or (q)uit.]"@,
        VariantKind::Parity => "Is the second num (o)dd, (e)ven, or the (s)ame? [Or (q)uit.]"@,
        VariantKind::Spectrum => "Is the second color (c)loser, (f)arther, or the (s)ame when compared with green? [Or (q)uit.]"@,
    }
}

/// The characters of the re-prompt for `kind`.
pub open spec fn spec_invalid_guess_prompt(kind: VariantKind) -> Seq<char> {
    match kind {
        VariantKind::Plain => "Invalid guess.  Is the second number (h)igher, (l)ower, or the (s)ame?   [Or (q)uit.]"@,
        VariantKind::Parity => "Invalid guess. Is the second num (o)dd, (e)ven, or the (s)ame? [Or (q)uit.]"@,
        VariantKind::Spectrum => "Invalid guess. Is the second color (c)loser, (f)arther, or the (s)ame when compared with green?? [Or (q)uit.]"@,
    }
}

} // verus!
