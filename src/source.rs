use vstd::prelude::*;
use vstd::string::*;
use crate::symbol::Symbol;

verus! {

impl Symbol {
    /// The price source's id of the coin behind the symbol.
    pub open spec fn coin_id_spec(self) -> Seq<char> {
        match self {
            Symbol::Btc => "bitcoin"@,
            Symbol::Eth => "ethereum"@,
            Symbol::Sol => "solana"@,
            Symbol::Paxg => "pax-gold"@,
        }
    }

    pub fn coin_id(&self) -> (r: &'static str)
        ensures
            r@ == self.coin_id_spec(),
    {
        match self {
            Symbol::Btc => "bitcoin",
            Symbol::Eth => "ethereum",
            Symbol::Sol => "solana",
            Symbol::Paxg => "pax-gold",
        }
    }
}

/// The coin ids of `syms`, separated by commas.
pub open spec fn joined_ids(syms: Seq<Symbol>) -> Seq<char>
    decreases syms.len(),
{
    if syms.len() == 0 {
        Seq::empty()
    } else if syms.len() == 1 {
        syms[0].coin_id_spec()
    } else {
        joined_ids(syms.drop_last()) + ","@ + syms.last().coin_id_spec()
    }
}

/// The request for the quotes of `syms`: the price endpoint with the coin ids,
/// asking for US dollar prices with the 24h change.
pub open spec fn request_url_spec(syms: Seq<Symbol>) -> Seq<char> {
    "https://api.coingecko.com/api/v3/simple/price?ids="@ + joined_ids(syms) + "&vs_currencies=usd&include_24hr_change=true"@
}

/// Builds the request for the quotes of `syms` in one call.
pub fn request_url(syms: &Vec<Symbol>) -> (r: String)
    ensures
        r@ == request_url_spec(syms@),
{
    let mut out = String::from_str("https://api.coingecko.com/api/v3/simple/price?ids=");
    let ghost start = out@;
    let mut i: usize = 0;
    while i < syms.len()
        invariant
            i <= syms@.len(),
            start == "https://api.coingecko.com/api/v3/simple/price?ids="@,
            out@ == start + joined_ids(syms@.take(i as int)),
        decreases syms@.len() - i,
    {
        proof {
            let t = syms@.take(i as int + 1);
            assert(t.drop_last() =~= syms@.take(i as int));
            assert(t.last() == syms@[i as int]);
        }
        if i > 0 {
            out.append(",");
        }
        out.append(syms[i].coin_id());
        proof {
            let t = syms@.take(i as int + 1);
            if i == 0 {
                assert(joined_ids(syms@.take(0)) =~= Seq::<char>::empty());
                assert(out@ =~= start + joined_ids(t));
            } else {
                assert(out@ =~= start + joined_ids(t));
            }
        }
        i = i + 1;
    }
    out.append("&vs_currencies=usd&include_24hr_change=true");
    proof {
        assert(syms@.take(syms@.len() as int) =~= syms@);
    }
    out
}

} // verus!
