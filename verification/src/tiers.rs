//! Leverage tiers: the catalog, its validity, and tier resolution.
use vstd::prelude::*;
use crate::errors::ErrorCode;
use crate::margin::RATE_SCALE;

verus! {

/// A bracket that maps a leverage range and a position-size cap to margin
/// rates. Rates are in basis points.
#[derive(Clone, Copy, Debug, PartialEq, Eq, Structural)]
pub struct LeverageTier {
    /// The highest leverage the tier admits.
    pub max_leverage: u16,
    /// The initial margin rate, in basis points.
    pub initial_margin_rate: u32,
    /// The maintenance margin rate, in basis points.
    pub maintenance_margin_rate: u32,
    /// The largest position the tier admits; `u64::MAX` leaves it unbounded.
    pub max_position_size: u64,
}

impl LeverageTier {
    /// A tier is valid when its leverage and size cap are positive and its
    /// rates satisfy `0 < maintenance < initial <= 1`.
    pub open spec fn valid(self) -> bool {
        &&& self.max_leverage >= 1
        &&& self.max_position_size >= 1
        &&& 0 < self.maintenance_margin_rate < self.initial_margin_rate
        &&& self.initial_margin_rate <= RATE_SCALE
    }

    /// A tier admits a request whose leverage and size are both within its caps.
    pub open spec fn admits(self, leverage: u16, position_size: u64) -> bool {
        leverage <= self.max_leverage && position_size <= self.max_position_size
    }

    /// Whether the tier is valid.
    pub fn is_valid(&self) -> (ok: bool)
        ensures
            ok == self.valid(),
    {
        self.max_leverage >= 1 && self.max_position_size >= 1 && 0 < self.maintenance_margin_rate
            && self.maintenance_margin_rate < self.initial_margin_rate
            && self.initial_margin_rate as u64 <= RATE_SCALE
    }

    /// Whether the tier admits the given leverage and position size.
    pub fn qualifies(&self, leverage: u16, position_size: u64) -> (ok: bool)
        ensures
            ok == self.admits(leverage, position_size),
    {
        leverage <= self.max_leverage && position_size <= self.max_position_size
    }
}

/// Tiers stand in strictly ascending order of `max_leverage`.
pub open spec fn tiers_sorted(tiers: Seq<LeverageTier>) -> bool {
    forall|i: int, j: int|
        0 <= i < j < tiers.len() ==> (#[trigger] tiers[i]).max_leverage < (
        #[trigger] tiers[j]).max_leverage
}

/// A table is valid when it is not empty, each tier is valid, and the tiers
/// are sorted. Such a table covers every leverage from 1 up to the
/// `max_leverage` of its last tier.
pub open spec fn table_valid(tiers: Seq<LeverageTier>) -> bool {
    &&& tiers.len() >= 1
    &&& forall|i: int| 0 <= i < tiers.len() ==> (#[trigger] tiers[i]).valid()
    &&& tiers_sorted(tiers)
}

/// `index` is the first tier of `tiers` that admits the request.
pub open spec fn first_admitting(
    tiers: Seq<LeverageTier>,
    leverage: u16,
    position_size: u64,
    index: int,
) -> bool {
    &&& 0 <= index < tiers.len()
    &&& tiers[index].admits(leverage, position_size)
    &&& forall|j: int| 0 <= j < index ==> !(#[trigger] tiers[j]).admits(leverage, position_size)
}

/// The tier a request resolves to: the first one, in table order, that admits
/// it; `TierExceeded` when none does.
pub open spec fn resolve_spec(tiers: Seq<LeverageTier>, leverage: u16, position_size: u64) -> Result<
    LeverageTier,
    ErrorCode,
> {
    if exists|i: int| first_admitting(tiers, leverage, position_size, i) {
        Ok(tiers[choose|i: int| first_admitting(tiers, leverage, position_size, i)])
    } else {
        Err(ErrorCode::TierExceeded)
    }
}

/// The five tiers of the standard table, from 20x unbounded to 1000x capped
/// at 5 000 units.
pub open spec fn standard_tiers() -> Seq<LeverageTier> {
    seq![
        LeverageTier {
            max_leverage: 20,
            initial_margin_rate: 500,
            maintenance_margin_rate: 250,
            max_position_size: u64::MAX,
        },
        LeverageTier {
            max_leverage: 50,
            initial_margin_rate: 200,
            maintenance_margin_rate: 100,
            max_position_size: 100_000,
        },
        LeverageTier {
            max_leverage: 100,
            initial_margin_rate: 100,
            maintenance_margin_rate: 50,
            max_position_size: 50_000,
        },
        LeverageTier {
            max_leverage: 500,
            initial_margin_rate: 50,
            maintenance_margin_rate: 25,
            max_position_size: 20_000,
        },
        LeverageTier {
            max_leverage: 1000,
            initial_margin_rate: 20,
            maintenance_margin_rate: 10,
            max_position_size: 5_000,
        },
    ]
}

/// The standard table is valid: not empty, every tier valid, and sorted in
/// strictly ascending order of `max_leverage`.
pub proof fn lemma_standard_tiers_valid()
    ensures
        table_valid(standard_tiers()),
        tiers_sorted(standard_tiers()),
        standard_tiers().len() == 5,
        standard_tiers().last().max_leverage == 1000,
{
    let tiers = standard_tiers();
    assert(tiers.len() == 5);
    assert(tiers[0].max_leverage == 20);
    assert(tiers[1].max_leverage == 50);
    assert(tiers[2].max_leverage == 100);
    assert(tiers[3].max_leverage == 500);
    assert(tiers[4].max_leverage == 1000);
    assert(tiers[0].valid() && tiers[1].valid() && tiers[2].valid() && tiers[3].valid()
        && tiers[4].valid());
}

/// At most one index is the first admitting tier, so resolution is a
/// function of the table and the request: whenever `index` is the first tier
/// that admits the request, resolution yields that tier, and whenever no tier
/// admits it, resolution fails with `TierExceeded`.
pub proof fn lemma_resolve_first(
    tiers: Seq<LeverageTier>,
    leverage: u16,
    position_size: u64,
    index: int,
)
    ensures
        first_admitting(tiers, leverage, position_size, index) ==> resolve_spec(
            tiers,
            leverage,
            position_size,
        ) == Ok::<LeverageTier, ErrorCode>(tiers[index]),
        (forall|j: int| 0 <= j < tiers.len() ==> !(#[trigger] tiers[j]).admits(leverage, position_size))
            ==> resolve_spec(tiers, leverage, position_size) == Err::<LeverageTier, ErrorCode>(
            ErrorCode::TierExceeded,
        ),
        resolve_spec(tiers, leverage, position_size) is Ok ==> exists|i: int|
            first_admitting(tiers, leverage, position_size, i) && resolve_spec(
                tiers,
                leverage,
                position_size,
            ) == Ok::<LeverageTier, ErrorCode>(tiers[i]),
{
    if first_admitting(tiers, leverage, position_size, index) {
        let chosen = choose|i: int| first_admitting(tiers, leverage, position_size, i);
        assert(first_admitting(tiers, leverage, position_size, chosen));
        if chosen < index {
            assert(!tiers[chosen].admits(leverage, position_size));
        }
        if index < chosen {
            assert(!tiers[index].admits(leverage, position_size));
        }
        assert(chosen == index);
    }
    if resolve_spec(tiers, leverage, position_size) is Ok {
        let chosen = choose|i: int| first_admitting(tiers, leverage, position_size, i);
        assert(first_admitting(tiers, leverage, position_size, chosen));
    }
}

/// A valid table leaves no gap: every leverage from 1 up to the
/// `max_leverage` of the last tier resolves, for a position of one unit.
pub proof fn lemma_leverage_covered(tiers: Seq<LeverageTier>, leverage: u16)
    requires
        table_valid(tiers),
        1 <= leverage <= tiers.last().max_leverage,
    ensures
        resolve_spec(tiers, leverage, 1) is Ok,
{
    let last = tiers.len() - 1;
    assert(tiers[last].valid());
    assert(tiers[last].admits(leverage, 1));
    lemma_some_admits_resolves(tiers, leverage, 1, last);
}

/// In a valid table no tier admits a leverage above the `max_leverage` of the
/// last tier: every such request fails with `TierExceeded`, whatever its size.
pub proof fn lemma_beyond_ceiling_exceeds(
    tiers: Seq<LeverageTier>,
    leverage: u16,
    position_size: u64,
)
    requires
        table_valid(tiers),
        leverage > tiers.last().max_leverage,
    ensures
        resolve_spec(tiers, leverage, position_size) == Err::<LeverageTier, ErrorCode>(
            ErrorCode::TierExceeded,
        ),
{
    let last = tiers.len() - 1;
    assert forall|j: int| 0 <= j < tiers.len() implies !(#[trigger] tiers[j]).admits(
        leverage,
        position_size,
    ) by {
        if j < last {
            assert(tiers[j].max_leverage < tiers[last].max_leverage);
        }
    }
    lemma_resolve_first(tiers, leverage, position_size, 0);
}

/// If some tier admits the request, a first one does, and the request resolves.
pub proof fn lemma_some_admits_resolves(
    tiers: Seq<LeverageTier>,
    leverage: u16,
    position_size: u64,
    index: int,
)
    requires
        0 <= index < tiers.len(),
        tiers[index].admits(leverage, position_size),
    ensures
        resolve_spec(tiers, leverage, position_size) is Ok,
        exists|i: int| 0 <= i <= index && first_admitting(tiers, leverage, position_size, i),
    decreases index,
{
    if forall|j: int| 0 <= j < index ==> !(#[trigger] tiers[j]).admits(leverage, position_size) {
        assert(first_admitting(tiers, leverage, position_size, index));
    } else {
        let earlier = choose|j: int|
            0 <= j < index && (#[trigger] tiers[j]).admits(leverage, position_size);
        lemma_some_admits_resolves(tiers, leverage, position_size, earlier);
    }
}

/// An ordered catalog of leverage tiers.
pub struct LeverageTierTable {
    tiers: Vec<LeverageTier>,
}

impl View for LeverageTierTable {
    type V = Seq<LeverageTier>;

    closed spec fn view(&self) -> Seq<LeverageTier> {
        self.tiers@
    }
}

impl LeverageTierTable {
    #[verifier::type_invariant]
    spec fn valid(self) -> bool {
        table_valid(self.tiers@)
    }

    /// The table is valid: see `table_valid`. It holds of every table.
    pub open spec fn wf(&self) -> bool {
        table_valid(self@)
    }

    /// Brings the validity of the table into a proof; does nothing when run.
    pub fn well_formed(&self)
        ensures
            self.wf(),
    {
        proof {
            use_type_invariant(self);
        }
    }

    /// The standard five-tier table, with leverage up to 1000x.
    pub fn standard() -> (table: LeverageTierTable)
        ensures
            table@ == standard_tiers(),
            table.wf(),
    {
        let mut tiers: Vec<LeverageTier> = Vec::new();
        tiers.push(
            LeverageTier {
                max_leverage: 20,
                initial_margin_rate: 500,
                maintenance_margin_rate: 250,
                max_position_size: u64::MAX,
            },
        );
        tiers.push(
            LeverageTier {
                max_leverage: 50,
                initial_margin_rate: 200,
                maintenance_margin_rate: 100,
                max_position_size: 100_000,
            },
        );
        tiers.push(
            LeverageTier {
                max_leverage: 100,
                initial_margin_rate: 100,
                maintenance_margin_rate: 50,
                max_position_size: 50_000,
            },
        );
        tiers.push(
            LeverageTier {
                max_leverage: 500,
                initial_margin_rate: 50,
                maintenance_margin_rate: 25,
                max_position_size: 20_000,
            },
        );
        tiers.push(
            LeverageTier {
                max_leverage: 1000,
                initial_margin_rate: 20,
                maintenance_margin_rate: 10,
                max_position_size: 5_000,
            },
        );
        proof {
            assert(tiers@ =~= standard_tiers());
            lemma_standard_tiers_valid();
        }
        LeverageTierTable { tiers }
    }

    /// A table of the given tiers, if they form a valid table.
    pub fn new(tiers: Vec<LeverageTier>) -> (table: Option<LeverageTierTable>)
        ensures
            table is Some <==> table_valid(tiers@),
            table matches Some(t) ==> t@ == tiers@ && t.wf(),
    {
        if tiers.len() == 0 {
            return None;
        }
        let mut i: usize = 0;
        while i < tiers.len()
            invariant
                0 <= i <= tiers.len(),
                forall|k: int| 0 <= k < i ==> (#[trigger] tiers@[k]).valid(),
                forall|k: int|
                    1 <= k < i ==> (#[trigger] tiers@[k - 1]).max_leverage < tiers@[k].max_leverage,
            decreases tiers.len() - i,
        {
            if !tiers[i].is_valid() {
                return None;
            }
            if i > 0 && tiers[i - 1].max_leverage >= tiers[i].max_leverage {
                assert(!tiers_sorted(tiers@)) by {
                    if tiers_sorted(tiers@) {
                        assert(tiers@[i - 1].max_leverage < tiers@[i as int].max_leverage);
                    }
                }
                return None;
            }
            i += 1;
        }
        proof {
            lemma_adjacent_sorted(tiers@);
        }
        Some(LeverageTierTable { tiers })
    }

    /// The number of tiers.
    pub fn len(&self) -> (n: usize)
        ensures
            n == self@.len(),
    {
        self.tiers.len()
    }

    /// The tier at `index`, in table order.
    pub fn tier(&self, index: usize) -> (tier: Option<LeverageTier>)
        ensures
            tier == (if index < self@.len() {
                Some(self@[index as int])
            } else {
                None
            }),
    {
        if index < self.tiers.len() {
            Some(self.tiers[index])
        } else {
            None
        }
    }

    /// The tiers, in table order.
    pub fn to_vec(&self) -> (tiers: Vec<LeverageTier>)
        ensures
            tiers@ == self@,
    {
        let mut tiers: Vec<LeverageTier> = Vec::new();
        let mut i: usize = 0;
        while i < self.tiers.len()
            invariant
                0 <= i <= self.tiers.len(),
                tiers@ == self.tiers@.take(i as int),
            decreases self.tiers.len() - i,
        {
            tiers.push(self.tiers[i]);
            proof {
                assert(self.tiers@.take(i + 1) =~= self.tiers@.take(i as int).push(
                    self.tiers@[i as int],
                ));
            }
            i += 1;
        }
        proof {
            assert(self.tiers@.take(self.tiers@.len() as int) =~= self.tiers@);
        }
        tiers
    }

    /// The highest leverage the table admits: that of its last tier.
    pub fn max_leverage(&self) -> (max: u16)
        ensures
            max == self@.last().max_leverage,
            forall|i: int| 0 <= i < self@.len() ==> (#[trigger] self@[i]).max_leverage <= max,
    {
        self.well_formed();
        self.tiers[self.tiers.len() - 1].max_leverage
    }

    /// Resolves a request to the first tier, in table order, whose leverage
    /// and size caps both admit it.
    pub fn resolve(&self, leverage: u16, position_size: u64) -> (result: Result<
        LeverageTier,
        ErrorCode,
    >)
        ensures
            result == resolve_spec(self@, leverage, position_size),
    {
        let mut i: usize = 0;
        while i < self.tiers.len()
            invariant
                0 <= i <= self.tiers.len(),
                forall|j: int|
                    0 <= j < i ==> !(#[trigger] self.tiers@[j]).admits(leverage, position_size),
            decreases self.tiers.len() - i,
        {
            if self.tiers[i].qualifies(leverage, position_size) {
                proof {
                    assert(first_admitting(self@, leverage, position_size, i as int));
                    lemma_resolve_first(self@, leverage, position_size, i as int);
                }
                return Ok(self.tiers[i]);
            }
            i += 1;
        }
        proof {
            lemma_resolve_first(self@, leverage, position_size, 0);
        }
        Err(ErrorCode::TierExceeded)
    }
}

proof fn lemma_adjacent_sorted(tiers: Seq<LeverageTier>)
    requires
        forall|k: int|
            1 <= k < tiers.len() ==> (#[trigger] tiers[k - 1]).max_leverage < tiers[k].max_leverage,
    ensures
        tiers_sorted(tiers),
{
    assert forall|i: int, j: int| 0 <= i < j < tiers.len() implies (#[trigger] tiers[i]).max_leverage
        < (#[trigger] tiers[j]).max_leverage by {
        lemma_adjacent_step(tiers, i, j);
    }
}

proof fn lemma_adjacent_step(tiers: Seq<LeverageTier>, i: int, j: int)
    requires
        forall|k: int|
            1 <= k < tiers.len() ==> (#[trigger] tiers[k - 1]).max_leverage < tiers[k].max_leverage,
        0 <= i < j < tiers.len(),
    ensures
        tiers[i].max_leverage < tiers[j].max_leverage,
    decreases j - i,
{
    assert(tiers[j - 1].max_leverage < tiers[j].max_leverage);
    if i < j - 1 {
        lemma_adjacent_step(tiers, i, j - 1);
    }
}

/// Resolves a request against the standard table.
pub fn get_leverage_tier(leverage: u16, position_size: u64) -> (result: Result<
    LeverageTier,
    ErrorCode,
>)
    ensures
        result == resolve_spec(standard_tiers(), leverage, position_size),
{
    LeverageTierTable::standard().resolve(leverage, position_size)
}

} // verus!
