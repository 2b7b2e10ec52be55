//! Magnitude tiers: the named powers of ten, their symbols and their order.

use std::cmp::Ordering;
use std::collections::HashMap;
use vstd::prelude::*;
use vstd::std_specs::cmp::PartialOrdSpec;

verus! {

/// A named magnitude tier. `Unknown` stands for every power of ten that has
/// no name, and is the least tier.
///
/// The variants are declared from the least to the greatest, so that the
/// derived `Ord` agrees with [`Prefix::cmp`] and with `<`.
#[derive(Debug, Copy, Clone, PartialEq, Eq, Structural, Hash, Ord)]
pub enum Prefix {
    Unknown,
    Kilo,
    Mega,
    Giga,
    Tera,
    Peta,
}

/// The power of ten that a tier stands for; 0 for `Unknown`.
pub open spec fn weight_of(p: Prefix) -> i32 {
    match p {
        Prefix::Unknown => 0,
        Prefix::Kilo => 3,
        Prefix::Mega => 6,
        Prefix::Giga => 9,
        Prefix::Tera => 12,
        Prefix::Peta => 15,
    }
}

/// The table from a power of ten to the tier that it names.
pub open spec fn tier_table() -> Map<i32, Prefix> {
    map![
        3i32 => Prefix::Kilo,
        6i32 => Prefix::Mega,
        9i32 => Prefix::Giga,
        12i32 => Prefix::Tera,
        15i32 => Prefix::Peta,
    ]
}

/// The table from a power of ten to the symbol shown for it.
pub open spec fn symbol_table() -> Map<i32, Seq<char>> {
    map![
        3i32 => seq!['K'],
        6i32 => seq!['M'],
        9i32 => seq!['G'],
        12i32 => seq!['T'],
        15i32 => seq!['P'],
    ]
}

/// The tier of a power of ten: the table's entry, `Unknown` where it has none.
pub open spec fn tier_of(exponent: i32) -> Prefix {
    if tier_table().contains_key(exponent) {
        tier_table()[exponent]
    } else {
        Prefix::Unknown
    }
}

/// The symbol of a power of ten: the table's entry, empty where it has none.
pub open spec fn symbol_of(exponent: i32) -> Seq<char> {
    if symbol_table().contains_key(exponent) {
        symbol_table()[exponent]
    } else {
        Seq::empty()
    }
}

/// How two tiers compare: as their weights do.
pub open spec fn order_of(a: Prefix, b: Prefix) -> Ordering {
    if weight_of(a) < weight_of(b) {
        Ordering::Less
    } else if weight_of(a) > weight_of(b) {
        Ordering::Greater
    } else {
        Ordering::Equal
    }
}

/// Builds the table from a power of ten to its symbol.
pub fn get_prefixes<'a>() -> (table: HashMap<i32, &'a str>)
    ensures
        table@.dom() == symbol_table().dom(),
        forall|k: i32|
            symbol_table().contains_key(k) ==> (#[trigger] table@[k])@ == symbol_table()[k],
{
    let mut table: HashMap<i32, &'a str> = HashMap::new();
    table.insert(3, "K");
    table.insert(6, "M");
    table.insert(9, "G");
    table.insert(12, "T");
    table.insert(15, "P");
    proof {
        reveal_strlit("K");
        reveal_strlit("M");
        reveal_strlit("G");
        reveal_strlit("T");
        reveal_strlit("P");
    }
    table
}

/// Builds the table from a power of ten to its tier.
pub fn get_prefixes_enum() -> (table: HashMap<i32, Prefix>)
    ensures
        table@ == tier_table(),
{
    let mut table: HashMap<i32, Prefix> = HashMap::new();
    table.insert(3, Prefix::Kilo);
    table.insert(6, Prefix::Mega);
    table.insert(9, Prefix::Giga);
    table.insert(12, Prefix::Tera);
    table.insert(15, Prefix::Peta);
    table
}

/// Looks a power of ten up in the tier table. A power without a name is
/// `Unknown`: no power is rejected.
pub fn classify(exponent: i32) -> (tier: Prefix)
    ensures
        tier == tier_of(exponent),
{
    broadcast use vstd::std_specs::hash::group_hash_axioms;

    let table = get_prefixes_enum();
    match table.get(&exponent) {
        Some(tier) => *tier,
        None => Prefix::Unknown,
    }
}

/// Looks a power of ten up in the symbol table. A power without a name has
/// the empty symbol.
pub fn suffix_symbol<'a>(exponent: i32) -> (symbol: &'a str)
    ensures
        symbol@ == symbol_of(exponent),
{
    broadcast use vstd::std_specs::hash::group_hash_axioms;

    let table = get_prefixes();
    match table.get(&exponent) {
        Some(symbol) => *symbol,
        None => {
            proof {
                reveal_strlit("");
            }
            ""
        },
    }
}

impl Prefix {
    /// The power of ten that this tier stands for; 0 for `Unknown`.
    pub fn weight(&self) -> (w: i32)
        ensures
            w == weight_of(*self),
    {
        match self {
            Prefix::Unknown => 0,
            Prefix::Kilo => 3,
            Prefix::Mega => 6,
            Prefix::Giga => 9,
            Prefix::Tera => 12,
            Prefix::Peta => 15,
        }
    }

    /// Compares two tiers by weight.
    pub fn cmp(&self, other: &Self) -> (o: Ordering)
        ensures
            o == order_of(*self, *other),
    {
        let mine: i32 = self.weight();
        let theirs: i32 = other.weight();
        if mine > theirs {
            Ordering::Greater
        } else if mine < theirs {
            Ordering::Less
        } else {
            Ordering::Equal
        }
    }
}

impl PartialOrd for Prefix {
    fn partial_cmp(&self, other: &Self) -> (o: Option<Ordering>) {
        Some(self.cmp(other))
    }
}

impl vstd::std_specs::cmp::PartialOrdSpecImpl for Prefix {
    open spec fn obeys_partial_cmp_spec() -> bool {
        true
    }

    open spec fn partial_cmp_spec(&self, other: &Self) -> Option<Ordering> {
        Some(order_of(*self, *other))
    }
}

/// The tiers stand in one chain: `Peta > Tera > Giga > Mega > Kilo > Unknown`.
pub proof fn lemma_tier_chain()
    ensures
        Prefix::Peta.partial_cmp_spec(&Prefix::Tera) == Some(Ordering::Greater),
        Prefix::Tera.partial_cmp_spec(&Prefix::Giga) == Some(Ordering::Greater),
        Prefix::Giga.partial_cmp_spec(&Prefix::Mega) == Some(Ordering::Greater),
        Prefix::Mega.partial_cmp_spec(&Prefix::Kilo) == Some(Ordering::Greater),
        Prefix::Kilo.partial_cmp_spec(&Prefix::Unknown) == Some(Ordering::Greater),
{
}

/// No tier is below `Unknown`, and only `Unknown` compares equal to it.
pub proof fn lemma_unknown_is_least(p: Prefix)
    ensures
        order_of(Prefix::Unknown, p) != Ordering::Greater,
        order_of(Prefix::Unknown, p) == Ordering::Equal <==> p == Prefix::Unknown,
{
}

/// The order is total: two tiers compare equal exactly when they are the
/// same tier, and one is less exactly when the other is greater.
pub proof fn lemma_order_total(a: Prefix, b: Prefix)
    ensures
        order_of(a, b) == Ordering::Equal <==> a == b,
        order_of(a, b) == Ordering::Less <==> order_of(b, a) == Ordering::Greater,
        order_of(a, b) == Ordering::Greater <==> order_of(b, a) == Ordering::Less,
{
}

/// The order is transitive.
pub proof fn lemma_order_transitive(a: Prefix, b: Prefix, c: Prefix)
    requires
        order_of(a, b) != Ordering::Greater,
        order_of(b, c) != Ordering::Greater,
    ensures
        order_of(a, c) != Ordering::Greater,
        order_of(a, b) == Ordering::Less || order_of(b, c) == Ordering::Less ==> order_of(a, c)
            == Ordering::Less,
{
}

/// A tier's weight is the power under which the tier table holds it: every
/// named tier is found again at its weight, and every entry of the table
/// weighs as much as its key.
pub proof fn lemma_weight_inverts_table(p: Prefix, exponent: i32)
    ensures
        p != Prefix::Unknown ==> tier_of(weight_of(p)) == p,
        tier_table().contains_key(exponent) ==> weight_of(tier_of(exponent)) == exponent,
        !tier_table().contains_key(exponent) ==> weight_of(tier_of(exponent)) == 0,
{
}

/// The two tables name the same powers: 3, 6, 9, 12 and 15. A power has a
/// symbol exactly when its tier is not `Unknown`, and a symbol is one letter.
pub proof fn lemma_tables_agree(exponent: i32)
    ensures
        tier_table().dom() == symbol_table().dom(),
        tier_table().contains_key(exponent) <==> exponent == 3 || exponent == 6 || exponent == 9
            || exponent == 12 || exponent == 15,
        tier_of(exponent) == Prefix::Unknown <==> symbol_of(exponent).len() == 0,
        tier_of(exponent) != Prefix::Unknown ==> symbol_of(exponent).len() == 1,
{
}

} // verus!
