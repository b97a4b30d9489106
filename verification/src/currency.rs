//! The session's currency: a fixed starting amount and a display label.

use vstd::prelude::*;
use vstd::string::StringExecFns;

use crate::text::push_decimal_i32;
use crate::text::spec_decimal;

verus! {

/// One of the three fixed currency policies a session plays in.
#[derive(Clone, Copy, Debug, PartialEq, Eq, Structural)]
pub enum Currency {
    Dollar,
    TurkishLira,
    Hbuck,
}

impl Currency {
    /// The amount a session in this currency starts with.
    pub open spec fn spec_starting_amount(self) -> int {
        match self {
            Currency::Dollar => 100,
            Currency::TurkishLira => 100000000,
            Currency::Hbuck => 32199,
        }
    }

    /// The display label for amounts in this currency.
    pub open spec fn spec_label(self) -> Seq<char> {
        match self {
            Currency::Dollar => "Dollars"@,
            Currency::TurkishLira => "Turkish Lira"@,
            Currency::Hbuck => "Hbucks"@,
        }
    }

    /// The status line announcing the current balance in this currency.
    pub open spec fn spec_format_amount(self, amount: int) -> Seq<char> {
        "You currecntly have "@ + spec_decimal(amount) + " "@ + self.spec_label()
    }

    /// The amount a session in this currency starts with.
    pub fn starting_amount(&self) -> (r: i32)
        ensures
            r == self.spec_starting_amount(),
            r > 0,
    {
        match self {
            Currency::Dollar => 100,
            Currency::TurkishLira => 100000000,
            Currency::Hbuck => 32199,
        }
    }

    /// The display label for amounts in this currency.
    pub fn label(&self) -> (r: &'static str)
        ensures
            r@ == self.spec_label(),
    {
        match self {
            Currency::Dollar => "Dollars",
            Currency::TurkishLira => "Turkish Lira",
            Currency::Hbuck => "Hbucks",
        }
    }

    /// Builds the status line announcing `amount` in this currency.
    pub fn format_amount(&self, amount: i32) -> (r: String)
        requires
            0 <= amount,
        ensures
            r@ == self.spec_format_amount(amount as int),
    {
        let mut s = String::from_str("You currecntly have ");
        push_decimal_i32(&mut s, amount);
        s.append(" ");
        s.append(self.label());
        proof {
            assert(s@ =~= self.spec_format_amount(amount as int));
        }
        s
    }
}

} // verus!
