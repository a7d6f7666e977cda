//! The trade classifier.
//!
//! A fill carries a direction label drawn from a fixed vocabulary. The
//! classifier maps each label to the trading action it calls for; every
//! label outside the vocabulary maps to [`Action::Ignore`], a terminal no-op.

use vstd::prelude::*;
use crate::text::str_eq;

verus! {

broadcast use vstd::string::group_string_axioms;

/// The classified intent derived from a fill's direction label.
#[derive(Clone, Copy, Debug, PartialEq, Eq, Structural)]
pub enum Action {
    SpotBuy,
    SpotSell,
    OpenLong,
    CloseLong,
    OpenShort,
    CloseShort,
    Ignore,
}

/// The action a direction label calls for.
pub open spec fn classify_spec(dir: Seq<char>) -> Action {
    if dir == "Buy"@ {
        Action::SpotBuy
    } else if dir == "Sell"@ {
        Action::SpotSell
    } else if dir == "Open Long"@ {
        Action::OpenLong
    } else if dir == "Close Long"@ {
        Action::CloseLong
    } else if dir == "Open Short"@ {
        Action::OpenShort
    } else if dir == "Close Short"@ {
        Action::CloseShort
    } else {
        Action::Ignore
    }
}

/// Classifies a fill's direction label.
pub fn classify(dir: &str) -> (a: Action)
    ensures
        a == classify_spec(dir@),
{
    if str_eq(dir, "Buy") {
        Action::SpotBuy
    } else if str_eq(dir, "Sell") {
        Action::SpotSell
    } else if str_eq(dir, "Open Long") {
        Action::OpenLong
    } else if str_eq(dir, "Close Long") {
        Action::CloseLong
    } else if str_eq(dir, "Open Short") {
        Action::OpenShort
    } else if str_eq(dir, "Close Short") {
        Action::CloseShort
    } else {
        Action::Ignore
    }
}

/// Classification is a total function on labels: each label of the known
/// vocabulary yields its own action, and a label yields `Ignore` exactly
/// when it lies outside the vocabulary.
pub proof fn lemma_classification_total(dir: Seq<char>)
    ensures
        dir == "Buy"@ ==> classify_spec(dir) is SpotBuy,
        dir == "Sell"@ ==> classify_spec(dir) is SpotSell,
        dir == "Open Long"@ ==> classify_spec(dir) is OpenLong,
        dir == "Close Long"@ ==> classify_spec(dir) is CloseLong,
        dir == "Open Short"@ ==> classify_spec(dir) is OpenShort,
        dir == "Close Short"@ ==> classify_spec(dir) is CloseShort,
        classify_spec(dir) is Ignore <==> (dir != "Buy"@ && dir != "Sell"@ && dir != "Open Long"@
            && dir != "Close Long"@ && dir != "Open Short"@ && dir != "Close Short"@),
{
    reveal_strlit("Buy");
    reveal_strlit("Sell");
    reveal_strlit("Open Long");
    reveal_strlit("Close Long");
    reveal_strlit("Open Short");
    reveal_strlit("Close Short");
    assert("Buy"@.len() == 3);
    assert("Sell"@.len() == 4);
    assert("Open Long"@.len() == 9);
    assert("Close Long"@.len() == 10);
    assert("Open Short"@.len() == 10);
    assert("Close Short"@.len() == 11);
    assert("Close Long"@[0] == 'C' && "Open Short"@[0] == 'O');
}

} // verus!
