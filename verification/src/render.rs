//! The source text of what is emitted.

use vstd::prelude::*;
use vstd::string::StringExecFns;
use crate::expand::Expansion;
use crate::resolve::{ContractCrate, ContractCrateView};
use crate::synthesis::{Implementation, ImplementationView};

verus! {

/// The numeral for one decimal digit.
pub open spec fn digit_text(digit: nat) -> Seq<char> {
    if digit == 0 {
        "0"@
    } else if digit == 1 {
        "1"@
    } else if digit == 2 {
        "2"@
    } else if digit == 3 {
        "3"@
    } else if digit == 4 {
        "4"@
    } else if digit == 5 {
        "5"@
    } else if digit == 6 {
        "6"@
    } else if digit == 7 {
        "7"@
    } else if digit == 8 {
        "8"@
    } else {
        "9"@
    }
}

/// A number in decimal notation, without leading zeros.
pub open spec fn decimal_text(number: nat) -> Seq<char>
    decreases number,
{
    if number < 10 {
        digit_text(number)
    } else {
        decimal_text(number / 10) + digit_text(number % 10)
    }
}

/// The path of the runtime contract's trait, seen from the crate being
/// compiled.
pub open spec fn trait_path_text(contract: ContractCrateView) -> Seq<char> {
    match contract {
        ContractCrateView::Itself => "crate::FromDiscriminant"@,
        ContractCrateView::Named(name) => name + "::FromDiscriminant"@,
    }
}

/// The `where` clause as it follows the type, set off by a blank unless
/// there is none.
pub open spec fn where_text(where_clause: Seq<char>) -> Seq<char> {
    if where_clause.len() == 0 {
        Seq::empty()
    } else {
        " "@ + where_clause
    }
}

/// The `impl` block for an implementation. The raw value is turned into a
/// variant only behind the check against the bound.
pub open spec fn implementation_text(implementation: ImplementationView) -> Seq<char> {
    "impl"@ + implementation.generics.impl_generics + " "@ + trait_path_text(
        implementation.contract,
    ) + "<u8> for "@ + implementation.target + implementation.generics.ty_generics + where_text(
        implementation.generics.where_clause,
    ) + " { fn from_discriminant(d: u8) -> Option<Self> { if d >= "@ + decimal_text(
        implementation.bound as nat,
    ) + "u8 { return None; } Some(unsafe { ::core::mem::transmute(d) }) } }"@
}

/// The attribute that fixes the layout of the emitted declaration to the
/// raw type of the conversion.
pub open spec fn directive_text() -> Seq<char> {
    "#[repr(u8)]"@
}

fn digit(value: u8) -> (text: &'static str)
    requires
        value < 10,
    ensures
        text@ == digit_text(value as nat),
{
    match value {
        0 => "0",
        1 => "1",
        2 => "2",
        3 => "3",
        4 => "4",
        5 => "5",
        6 => "6",
        7 => "7",
        8 => "8",
        _ => "9",
    }
}

/// Writes `number` in decimal notation.
pub fn decimal(number: u8) -> (text: String)
    ensures
        text@ == decimal_text(number as nat),
{
    let mut text = String::new();
    if number >= 100 {
        text.append(digit(number / 100));
    }
    if number >= 10 {
        text.append(digit((number / 10) % 10));
    }
    text.append(digit(number % 10));
    proof {
        reveal_with_fuel(decimal_text, 3);
        let n = number as nat;
        assert((n / 10) / 10 == n / 100);
        assert(Seq::<char>::empty() + digit_text(n % 10) == digit_text(n % 10));
        if number >= 100 {
            assert(Seq::<char>::empty() + digit_text(n / 100) == digit_text(n / 100));
        } else if number >= 10 {
            assert(Seq::<char>::empty() + digit_text(n / 10) == digit_text(n / 10));
        }
    }
    text
}

impl ContractCrate {
    /// Writes the path of the runtime contract's trait.
    pub fn trait_path(&self) -> (text: String)
        ensures
            text@ == trait_path_text(self@),
    {
        match self {
            ContractCrate::Itself => String::from_str("crate::FromDiscriminant"),
            ContractCrate::Named(name) => {
                let mut text = name.clone();
                text.append("::FromDiscriminant");
                text
            },
        }
    }
}

impl Implementation {
    /// Writes the `impl` block.
    pub fn render(&self) -> (text: String)
        ensures
            text@ == implementation_text(self@),
    {
        let mut text = String::from_str("impl");
        text.append(self.generics.impl_generics.as_str());
        text.append(" ");
        text.append(self.contract.trait_path().as_str());
        text.append("<u8> for ");
        text.append(self.target.as_str());
        text.append(self.generics.ty_generics.as_str());
        let ghost head = text@;
        if !self.generics.where_clause.as_str().is_empty() {
            text.append(" ");
            text.append(self.generics.where_clause.as_str());
        }
        assert(text@ =~= head + where_text(self.generics.where_clause@));
        text.append(" { fn from_discriminant(d: u8) -> Option<Self> { if d >= ");
        text.append(decimal(self.bound).as_str());
        text.append("u8 { return None; } Some(unsafe { ::core::mem::transmute(d) }) } }");
        text
    }
}

impl Expansion {
    /// Writes the attribute under which the declaration is emitted.
    pub fn directive(&self) -> (text: String)
        ensures
            text@ == directive_text(),
    {
        String::from_str("#[repr(u8)]")
    }
}

} // verus!
