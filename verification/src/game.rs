//! The betting loop's state machine. The loop itself performs the prompting
//! and printing; every decision it takes — whether a bet is acceptable, what
//! a guess does to the round, how a settled round moves the balance, and
//! when the game ends — is a transition here, with its contract.

use vstd::prelude::*;
use vstd::string::StringExecFns;

use crate::currency::Currency;
use crate::text::push_decimal_i32;
use crate::text::spec_decimal;
use crate::token::Token;

verus! {

/// Where the loop stands: awaiting a bet, awaiting the round's guess,
/// settling a scored guess, or finished.
#[derive(Clone, Copy, Debug, PartialEq, Eq, Structural)]
pub enum Phase {
    AwaitBet,
    AwaitGuess { bet: i32 },
    Settle { bet: i32 },
    Terminal,
}

/// The betting loop's whole state: the player's balance and the phase of
/// the round in progress.
#[derive(Clone, Copy, Debug, PartialEq, Eq, Structural)]
pub struct Game {
    pub balance: i32,
    pub phase: Phase,
}

impl Game {
    /// The stake of the round in progress; zero between rounds.
    pub open spec fn current_bet(self) -> int {
        match self.phase {
            Phase::AwaitBet => 0,
            Phase::AwaitGuess { bet } => bet as int,
            Phase::Settle { bet } => bet as int,
            Phase::Terminal => 0,
        }
    }

    /// The balance never goes negative, and a round's stake never exceeds
    /// the balance it was placed against.
    pub open spec fn wf(self) -> bool {
        &&& 0 <= self.balance
        &&& 0 <= self.current_bet() <= self.balance
    }

    /// The state a fresh session starts in.
    pub open spec fn spec_new(currency: Currency) -> Game {
        Game { balance: currency.spec_starting_amount() as i32, phase: Phase::AwaitBet }
    }

    /// Placing a bet: accepted and remembered when it lies between zero and
    /// the balance, otherwise the state is left exactly as it was.
    pub open spec fn spec_place_bet(self, bet: i32) -> Game {
        if 0 <= bet <= self.balance {
            Game { phase: Phase::AwaitGuess { bet }, ..self }
        } else {
            self
        }
    }

    /// Taking the round's guess: quit ends the game with the balance
    /// untouched; any other token sends the round to settlement.
    pub open spec fn spec_on_guess(self, guess: Token) -> Game {
        match self.phase {
            Phase::AwaitGuess { bet } => if guess == Token::Quit {
                Game { phase: Phase::Terminal, ..self }
            } else {
                Game { phase: Phase::Settle { bet }, ..self }
            },
            _ => self,
        }
    }

    /// Settling the round: the stake is added on a win and subtracted on a
    /// loss, and the game ends exactly when the balance is exhausted.
    pub open spec fn spec_settle(self, won: bool) -> Game {
        match self.phase {
            Phase::Settle { bet } => {
                let updated: int = if won {
                    self.balance + bet
                } else {
                    self.balance - bet
                };
                Game {
                    balance: updated as i32,
                    phase: if updated <= 0 {
                        Phase::Terminal
                    } else {
                        Phase::AwaitBet
                    },
                }
            },
            _ => self,
        }
    }

    /// The message the finished game reports: broke when the money ran out,
    /// otherwise the cashed-out balance.
    pub open spec fn spec_final_message(self) -> Seq<char> {
        if self.balance == 0 {
            "You're broke. :-/"@
        } else {
            "You made it out!\nYou currently have "@ + spec_decimal(self.balance as int)
                + " bucks."@
        }
    }

    /// Starts a session: the currency's starting amount, awaiting the first
    /// bet.
    pub fn new(currency: Currency) -> (g: Game)
        ensures
            g == Game::spec_new(currency),
            g.wf(),
            g.phase is AwaitBet,
            g.balance > 0,
    {
        Game { balance: currency.starting_amount(), phase: Phase::AwaitBet }
    }

    /// Offers a bet to the loop. It is accepted exactly when it lies
    /// between zero and the balance; a rejected bet changes nothing and the
    /// caller re-prompts.
    pub fn place_bet(&mut self, bet: i32) -> (accepted: bool)
        requires
            old(self).wf(),
            old(self).phase is AwaitBet,
        ensures
            final(self).wf(),
            *final(self) == old(self).spec_place_bet(bet),
            accepted == (0 <= bet <= old(self).balance),
            !accepted ==> *final(self) == *old(self),
            accepted ==> final(self).balance == old(self).balance && final(self).phase == (
            Phase::AwaitGuess { bet }),
    {
        if 0 <= bet && bet <= self.balance {
            self.phase = Phase::AwaitGuess { bet };
            true
        } else {
            false
        }
    }

    /// Hands the solicited guess to the loop. Quit ends the game at once
    /// with the balance untouched; any other token leaves the balance as it
    /// is and moves the round to settlement under the same stake.
    pub fn on_guess(&mut self, guess: Token)
        requires
            old(self).wf(),
            old(self).phase is AwaitGuess,
        ensures
            final(self).wf(),
            *final(self) == old(self).spec_on_guess(guess),
            final(self).balance == old(self).balance,
            guess == Token::Quit ==> final(self).phase is Terminal,
            guess != Token::Quit ==> final(self).phase is Settle && final(self).current_bet()
                == old(self).current_bet(),
    {
        let bet = match self.phase {
            Phase::AwaitGuess { bet } => bet,
            _ => 0,
        };
        if guess == Token::Quit {
            self.phase = Phase::Terminal;
        } else {
            self.phase = Phase::Settle { bet };
        }
    }

    /// Applies the scored round to the balance: the stake is added on a win
    /// and subtracted on a loss. The game ends exactly when the balance is
    /// exhausted; otherwise the loop awaits the next bet.
    pub fn settle(&mut self, won: bool)
        requires
            old(self).wf(),
            old(self).phase is Settle,
            won ==> old(self).balance + old(self).current_bet() <= i32::MAX,
        ensures
            final(self).wf(),
            *final(self) == old(self).spec_settle(won),
            won ==> final(self).balance == old(self).balance + old(self).current_bet(),
            !won ==> final(self).balance == old(self).balance - old(self).current_bet(),
            final(self).phase is Terminal <==> final(self).balance <= 0,
            final(self).phase is Terminal || final(self).phase is AwaitBet,
    {
        let bet = match self.phase {
            Phase::Settle { bet } => bet,
            _ => 0,
        };
        if won {
            self.balance = self.balance + bet;
        } else {
            self.balance = self.balance - bet;
        }
        if self.balance <= 0 {
            self.phase = Phase::Terminal;
        } else {
            self.phase = Phase::AwaitBet;
        }
    }

    /// Builds the finished game's report line.
    pub fn final_message(&self) -> (r: String)
        requires
            self.wf(),
            self.phase is Terminal,
        ensures
            r@ == self.spec_final_message(),
    {
        if self.balance == 0 {
            String::from_str("You're broke. :-/")
        } else {
            let mut s = String::from_str("You made it out!\nYou currently have ");
            push_decimal_i32(&mut s, self.balance);
            s.append(" bucks.");
            proof {
                assert(s@ =~= self.spec_final_message());
            }
            s
        }
    }
}

/// One whole round from an accepted bet: place it, take the guess, and —
/// unless the player quit — settle the scored result.
pub open spec fn spec_round(g: Game, bet: i32, guess: Token, won: bool) -> Game {
    let placed = g.spec_place_bet(bet);
    let guessed = placed.spec_on_guess(guess);
    if guess == Token::Quit {
        guessed
    } else {
        guessed.spec_settle(won)
    }
}

/// Exactly one balance update is applied per completed round — the stake is
/// added on a win and subtracted on a loss — and quitting applies none.
pub proof fn lemma_round_balance(g: Game, bet: i32, guess: Token, won: bool)
    requires
        g.wf(),
        g.phase is AwaitBet,
        0 <= bet <= g.balance,
        (guess != Token::Quit && won) ==> g.balance + bet <= i32::MAX,
    ensures
        guess == Token::Quit ==> spec_round(g, bet, guess, won).balance == g.balance,
        (guess != Token::Quit && won) ==> spec_round(g, bet, guess, won).balance == g.balance
            + bet,
        (guess != Token::Quit && !won) ==> spec_round(g, bet, guess, won).balance == g.balance
            - bet,
{
}

/// A round ends in the terminal state exactly when the player quit or the
/// settled balance is exhausted.
pub proof fn lemma_round_termination(g: Game, bet: i32, guess: Token, won: bool)
    requires
        g.wf(),
        g.phase is AwaitBet,
        0 <= bet <= g.balance,
        (guess != Token::Quit && won) ==> g.balance + bet <= i32::MAX,
    ensures
        spec_round(g, bet, guess, won).phase is Terminal <==> (guess == Token::Quit || spec_round(
            g,
            bet,
            guess,
            won,
        ).balance <= 0),
{
}

/// A round never drives the balance below zero: because an accepted stake
/// is clamped to the balance, even a lost all-in bet lands exactly on zero.
pub proof fn lemma_balance_never_negative(g: Game, bet: i32, guess: Token, won: bool)
    requires
        g.wf(),
        g.phase is AwaitBet,
        0 <= bet <= g.balance,
        (guess != Token::Quit && won) ==> g.balance + bet <= i32::MAX,
    ensures
        spec_round(g, bet, guess, won).wf(),
        spec_round(g, bet, guess, won).balance >= 0,
{
}

/// A bet outside the acceptable range leaves the game exactly as it was.
pub proof fn lemma_rejected_bet_unchanged(g: Game, bet: i32)
    requires
        !(0 <= bet <= g.balance),
    ensures
        g.spec_place_bet(bet) == g,
{
}

} // verus!
