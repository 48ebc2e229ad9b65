use vstd::prelude::*;
use vstd::string::*;
use crate::error::SignalError;
use crate::text::{equals_upper, upper_seq};

verus! {

/// One of the tracked market symbols.
#[derive(Clone, Copy, Debug, PartialEq, Eq, Structural)]
pub enum Symbol {
    Btc,
    Eth,
    Sol,
    Paxg,
}

/// Number of tracked symbols.
pub const SYMBOL_COUNT: usize = 4;

/// The symbol at a position of the fixed order BTC, ETH, SOL, PAXG.
pub open spec fn symbol_at(i: nat) -> Symbol {
    if i == 0 {
        Symbol::Btc
    } else if i == 1 {
        Symbol::Eth
    } else if i == 2 {
        Symbol::Sol
    } else {
        Symbol::Paxg
    }
}

/// The symbol whose name is `s` once upper-cased, if any.
pub open spec fn symbol_named(s: Seq<char>) -> Option<Symbol> {
    let u = upper_seq(s);
    if u == Symbol::Btc.name() {
        Some(Symbol::Btc)
    } else if u == Symbol::Eth.name() {
        Some(Symbol::Eth)
    } else if u == Symbol::Sol.name() {
        Some(Symbol::Sol)
    } else if u == Symbol::Paxg.name() {
        Some(Symbol::Paxg)
    } else {
        None
    }
}

impl Symbol {
    /// Position of the symbol in the fixed order BTC, ETH, SOL, PAXG.
    pub open spec fn index_spec(self) -> nat {
        match self {
            Symbol::Btc => 0,
            Symbol::Eth => 1,
            Symbol::Sol => 2,
            Symbol::Paxg => 3,
        }
    }

    /// The canonical (upper-case) name of the symbol.
    pub open spec fn name(self) -> Seq<char> {
        match self {
            Symbol::Btc => seq!['B', 'T', 'C'],
            Symbol::Eth => seq!['E', 'T', 'H'],
            Symbol::Sol => seq!['S', 'O', 'L'],
            Symbol::Paxg => seq!['P', 'A', 'X', 'G'],
        }
    }

    pub fn index(&self) -> (r: usize)
        ensures
            r == self.index_spec(),
            r < SYMBOL_COUNT,
            symbol_at(r as nat) == *self,
    {
        match self {
            Symbol::Btc => 0,
            Symbol::Eth => 1,
            Symbol::Sol => 2,
            Symbol::Paxg => 3,
        }
    }

    /// The symbol at position `i` of the fixed order.
    pub fn from_index(i: usize) -> (r: Symbol)
        requires
            i < SYMBOL_COUNT,
        ensures
            r == symbol_at(i as nat),
            r.index_spec() == i,
    {
        if i == 0 {
            Symbol::Btc
        } else if i == 1 {
            Symbol::Eth
        } else if i == 2 {
            Symbol::Sol
        } else {
            Symbol::Paxg
        }
    }

    pub fn as_str(&self) -> (r: &'static str)
        ensures
            r@ == self.name(),
    {
        proof {
            reveal_strlit("BTC");
            reveal_strlit("ETH");
            reveal_strlit("SOL");
            reveal_strlit("PAXG");
        }
        match self {
            Symbol::Btc => "BTC",
            Symbol::Eth => "ETH",
            Symbol::Sol => "SOL",
            Symbol::Paxg => "PAXG",
        }
    }

    /// Reads a symbol name, ignoring ASCII case; anything outside the tracked
    /// set is rejected.
    pub fn parse(s: &str) -> (r: Result<Symbol, SignalError>)
        ensures
            r matches Ok(sym) ==> symbol_named(s@) == Some(sym),
            r is Err <==> symbol_named(s@) is None,
            r matches Err(e) ==> e == SignalError::UnknownSymbol,
    {
        if equals_upper(s, Symbol::Btc.as_str()) {
            Ok(Symbol::Btc)
        } else if equals_upper(s, Symbol::Eth.as_str()) {
            Ok(Symbol::Eth)
        } else if equals_upper(s, Symbol::Sol.as_str()) {
            Ok(Symbol::Sol)
        } else if equals_upper(s, Symbol::Paxg.as_str()) {
            Ok(Symbol::Paxg)
        } else {
            Err(SignalError::UnknownSymbol)
        }
    }
}

/// All tracked symbols, in the fixed order.
pub fn all_symbols() -> (r: Vec<Symbol>)
    ensures
        r@.len() == SYMBOL_COUNT,
        forall|i: int| 0 <= i < SYMBOL_COUNT ==> #[trigger] r@[i] == symbol_at(i as nat),
{
    vec![Symbol::Btc, Symbol::Eth, Symbol::Sol, Symbol::Paxg]
}

} // verus!
