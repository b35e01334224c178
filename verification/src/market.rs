//! Market classification: a label names either the spot market or the
//! futures market, decided by whether its text begins with "spot".

use vstd::prelude::*;
use vstd::string::StrSliceExecFns;

verus! {

/// The two markets whose usage budgets are tracked independently.
#[derive(Clone, Copy, PartialEq, Eq, Structural, Debug)]
pub enum MarketType {
    Spot,
    Futures,
}

/// True when `s` begins with the prefix `p`.
pub open spec fn spec_starts_with(s: Seq<char>, p: Seq<char>) -> bool {
    p.len() <= s.len() && s.subrange(0, p.len() as int) == p
}

/// Classification rule: a label whose text begins with "spot" belongs to
/// the spot market; every other label belongs to the futures market.
pub open spec fn spec_market_of(label: Seq<char>) -> MarketType {
    if spec_starts_with(label, "spot"@) {
        MarketType::Spot
    } else {
        MarketType::Futures
    }
}

/// Classifies a label according to `spec_market_of`.
pub fn market_of(label: &str) -> (m: MarketType)
    ensures
        m == spec_market_of(label@),
{
    proof {
        reveal_strlit("spot");
    }
    let n = label.unicode_len();
    if n < 4 {
        return MarketType::Futures;
    }
    let c0 = label.get_char(0);
    let c1 = label.get_char(1);
    let c2 = label.get_char(2);
    let c3 = label.get_char(3);
    if c0 == 's' && c1 == 'p' && c2 == 'o' && c3 == 't' {
        proof {
            assert(label@.subrange(0, 4) =~= "spot"@);
        }
        MarketType::Spot
    } else {
        proof {
            if spec_starts_with(label@, "spot"@) {
                let pre = label@.subrange(0, 4);
                assert(pre[0] == label@[0] && pre[1] == label@[1] && pre[2] == label@[2]
                    && pre[3] == label@[3]);
                assert(pre == "spot"@);
                assert(c0 == 's' && c1 == 'p' && c2 == 'o' && c3 == 't');
            }
        }
        MarketType::Futures
    }
}

} // verus!
