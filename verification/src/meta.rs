//! Asset metadata: per-asset size rules.
//!
//! The external metadata source publishes, for every spot trading pair, the
//! underlying balance-bearing token and the token's quantity precision. The
//! engine consumes that data as a lookup table keyed by pair name; a
//! collaborator refreshes the table out of band.

use vstd::prelude::*;

verus! {

/// The size rule of one trading pair: the balance-bearing token behind it
/// and the number of decimal places a quantity of it may carry.
#[derive(Clone, Debug)]
pub struct AssetSizeRule {
    pub pair: String,
    pub token: String,
    pub sz_decimals: u32,
}

/// The lookup table of size rules, keyed by pair name.
#[derive(Clone, Debug)]
pub struct AssetMetaTable {
    pub rules: Vec<AssetSizeRule>,
}

/// The first rule whose pair name is `pair`, if any.
pub open spec fn find_rule_spec(rules: Seq<AssetSizeRule>, pair: Seq<char>) -> Option<
    AssetSizeRule,
>
    decreases rules.len(),
{
    if rules.len() == 0 {
        None
    } else if rules[0].pair@ == pair {
        Some(rules[0])
    } else {
        find_rule_spec(rules.drop_first(), pair)
    }
}

/// A suffix of the rule table whose head does not match searches on in the
/// remaining rules.
proof fn lemma_find_rule_skip(rules: Seq<AssetSizeRule>, pair: Seq<char>, i: int)
    requires
        0 <= i < rules.len(),
        rules.skip(i)[0].pair@ != pair,
    ensures
        find_rule_spec(rules.skip(i), pair) == find_rule_spec(rules.skip(i + 1), pair),
{
    assert(rules.skip(i).drop_first() =~= rules.skip(i + 1));
}

impl AssetMetaTable {
    /// Looks a trading pair up and returns its balance-bearing token name
    /// and quantity precision, or `None` when the pair is not in the table.
    pub fn resolve(&self, pair: &str) -> (r: Option<(String, u32)>)
        ensures
            r is Some <==> find_rule_spec(self.rules@, pair@) is Some,
            r matches Some(t) ==> {
                let rule = find_rule_spec(self.rules@, pair@)->Some_0;
                t.0@ == rule.token@ && t.1 == rule.sz_decimals
            },
    {
        let n = self.rules.len();
        let mut i: usize = 0;
        proof {
            assert(self.rules@.skip(0) =~= self.rules@);
        }
        while i < n
            invariant
                n == self.rules@.len(),
                i <= n,
                find_rule_spec(self.rules@, pair@) == find_rule_spec(
                    self.rules@.skip(i as int),
                    pair@,
                ),
            decreases n - i,
        {
            proof {
                assert(self.rules@.skip(i as int)[0] == self.rules@[i as int]);
            }
            if crate::text::str_eq(self.rules[i].pair.as_str(), pair) {
                return Some((self.rules[i].token.clone(), self.rules[i].sz_decimals));
            }
            proof {
                lemma_find_rule_skip(self.rules@, pair@, i as int);
            }
            i = i + 1;
        }
        proof {
            assert(self.rules@.skip(n as int) =~= Seq::<AssetSizeRule>::empty());
        }
        None
    }
}

} // verus!
