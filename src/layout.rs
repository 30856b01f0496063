//! A ledger of the cells that the sub-circuits claim in the constraint table.
//! Every claim is a half-open run of rows in one column; a claim that would
//! share a cell with an earlier one, or run past the table, is refused while
//! the circuit is being composed.
use vstd::prelude::*;

use crate::statement::RANGE_BITS;

verus! {

/// The largest table exponent: a table has `2^k` rows.
pub const MAX_TABLE_EXPONENT: u32 = 63;

/// The kind of a column of the constraint table.
#[derive(Clone, Copy, Debug, PartialEq, Eq, Structural)]
pub enum ColumnKind {
    Advice,
    Fixed,
    Instance,
}

/// A column of the constraint table.
#[derive(Clone, Copy, Debug, PartialEq, Eq, Structural)]
pub struct Column {
    pub kind: ColumnKind,
    pub index: usize,
}

/// Rows `start .. end` of `column`.
#[derive(Clone, Copy, Debug)]
pub struct Claim {
    pub column: Column,
    pub start: u64,
    pub end: u64,
}

/// Why a layout cannot be composed.
#[derive(Clone, Copy, Debug)]
pub enum ConfigurationError {
    /// The table exponent is larger than `MAX_TABLE_EXPONENT`.
    TableTooLarge,
    /// A claim runs past the last row of the table.
    OutOfRows,
    /// A claim shares a cell with an earlier claim.
    Overlap,
}

/// Whether two claims share a cell.
pub open spec fn overlaps(a: Claim, b: Claim) -> bool {
    a.column == b.column && a.start < b.end && b.start < a.end
}

/// The cells claimed so far in a table of `rows` rows.
pub struct Ledger {
    pub rows: u64,
    pub claims: Vec<Claim>,
}

impl Ledger {
    /// Every claim is a non-empty run inside the table, and no two share a cell.
    pub open spec fn wf(self) -> bool {
        &&& forall|i: int|
            0 <= i < self.claims@.len() ==> {
                &&& (#[trigger] self.claims@[i]).start < self.claims@[i].end
                &&& self.claims@[i].end <= self.rows
            }
        &&& forall|i: int, j: int|
            0 <= i < self.claims@.len() && 0 <= j < self.claims@.len() && i != j ==> !overlaps(
                #[trigger] self.claims@[i],
                #[trigger] self.claims@[j],
            )
    }

    /// An empty ledger for a table of `2^k` rows.
    pub fn new(k: u32) -> (r: Result<Ledger, ConfigurationError>)
        ensures
            k > MAX_TABLE_EXPONENT <==> r is Err,
            r is Err ==> r->Err_0 is TableTooLarge,
            r is Ok ==> {
                &&& r->Ok_0.wf()
                &&& r->Ok_0.rows == vstd::arithmetic::power2::pow2(k as nat)
                &&& r->Ok_0.claims@.len() == 0
            },
    {
        if k > MAX_TABLE_EXPONENT {
            return Err(ConfigurationError::TableTooLarge);
        }
        let shift: u64 = k as u64;
        proof {
            vstd::bits::lemma_u64_pow2_no_overflow(shift as nat);
            vstd::bits::lemma_u64_shl_is_mul(1u64, shift);
            vstd::arithmetic::power2::lemma_pow2_pos(shift as nat);
        }
        let rows: u64 = 1u64 << shift;
        Ok(Ledger { rows, claims: Vec::new() })
    }

    /// Whether `claim` shares a cell with a claim already recorded.
    pub fn collides(&self, claim: &Claim) -> (r: bool)
        ensures
            r == exists|i: int| 0 <= i < self.claims@.len() && overlaps(#[trigger] self.claims@[i], *claim),
    {
        let mut i: usize = 0;
        while i < self.claims.len()
            invariant
                i <= self.claims@.len(),
                forall|j: int| 0 <= j < i ==> !overlaps(#[trigger] self.claims@[j], *claim),
            decreases self.claims@.len() - i,
        {
            let c = &self.claims[i];
            if c.column == claim.column && c.start < claim.end && claim.start < c.end {
                return true;
            }
            i = i + 1;
        }
        false
    }

    /// Records rows `start .. start + len` of `column`. Refused, with the
    /// ledger unchanged, when the run is empty or ends past the table
    /// (`OutOfRows`), or when it shares a cell with an earlier claim (`Overlap`).
    pub fn claim(&mut self, column: Column, start: u64, len: u64) -> (r: Result<(), ConfigurationError>)
        requires
            old(self).wf(),
        ensures
            final(self).wf(),
            final(self).rows == old(self).rows,
            ({
                let c = Claim { column, start, end: (start + len) as u64 };
                if len == 0 || start as int + len as int > old(self).rows {
                    r == Err::<(), ConfigurationError>(ConfigurationError::OutOfRows)
                        && *final(self) == *old(self)
                } else if exists|i: int|
                    0 <= i < old(self).claims@.len() && overlaps(#[trigger] old(self).claims@[i], c) {
                    r == Err::<(), ConfigurationError>(ConfigurationError::Overlap)
                        && *final(self) == *old(self)
                } else {
                    r is Ok && final(self).claims@ == old(self).claims@.push(c)
                }
            }),
    {
        if len == 0 || len > self.rows || start > self.rows - len {
            return Err(ConfigurationError::OutOfRows);
        }
        let c = Claim { column, start, end: start + len };
        if self.collides(&c) {
            return Err(ConfigurationError::Overlap);
        }
        self.claims.push(c);
        proof {
            assert forall|i: int, j: int|
                0 <= i < self.claims@.len() && 0 <= j < self.claims@.len() && i != j implies !overlaps(
                #[trigger] self.claims@[i],
                #[trigger] self.claims@[j],
            ) by {
                let n = old(self).claims@.len() as int;
                if i < n && j < n {
                    assert(self.claims@[i] == old(self).claims@[i]);
                    assert(self.claims@[j] == old(self).claims@[j]);
                } else if i == n {
                    assert(self.claims@[j] == old(self).claims@[j]);
                    assert(!overlaps(old(self).claims@[j], c));
                } else {
                    assert(self.claims@[i] == old(self).claims@[i]);
                    assert(!overlaps(old(self).claims@[i], c));
                }
            }
            assert forall|i: int| 0 <= i < self.claims@.len() implies {
                &&& (#[trigger] self.claims@[i]).start < self.claims@[i].end
                &&& self.claims@[i].end <= self.rows
            } by {
                if i < old(self).claims@.len() {
                    assert(self.claims@[i] == old(self).claims@[i]);
                }
            }
        }
        Ok(())
    }

    /// The row where the claim that ends last ends; 0 while nothing is claimed.
    pub fn rows_used(&self) -> (r: u64)
        requires
            self.wf(),
        ensures
            r <= self.rows,
            forall|i: int| 0 <= i < self.claims@.len() ==> (#[trigger] self.claims@[i]).end <= r,
            self.claims@.len() == 0 ==> r == 0,
            self.claims@.len() > 0 ==> exists|i: int| 0 <= i < self.claims@.len() && (#[trigger] self.claims@[i]).end == r,
    {
        let mut best: u64 = 0;
        let mut i: usize = 0;
        while i < self.claims.len()
            invariant
                i <= self.claims@.len(),
                self.wf(),
                best <= self.rows,
                forall|j: int| 0 <= j < i ==> (#[trigger] self.claims@[j]).end <= best,
                i == 0 ==> best == 0,
                i > 0 ==> exists|j: int| 0 <= j < i && (#[trigger] self.claims@[j]).end == best,
            decreases self.claims@.len() - i,
        {
            if self.claims[i].end > best {
                best = self.claims[i].end;
            }
            i = i + 1;
        }
        best
    }
}

/// Bits in one window of the running-sum decomposition that bounds a gap.
pub const WINDOW_BITS: u64 = 3;

/// Windows in the decomposition of a gap: the fewest whose `WINDOWS * WINDOW_BITS`
/// bits cover every gap `b - a - 1` of two operands of `RANGE_BITS` bits with `a < b`.
pub const WINDOWS: u64 = (RANGE_BITS + WINDOW_BITS) / WINDOW_BITS;

/// The order of the field in which the circuit computes: the base field of
/// the Pallas curve, `0x40000000000000000000000000000000224698fc094cf91b992d30ed00000001`,
/// written by its 64-bit limbs.
pub open spec fn field_modulus() -> int {
    let limb: int = 0x1_0000_0000_0000_0000;
    0x4000000000000000 * limb * limb * limb + 0x224698fc094cf91b * limb + 0x992d30ed00000001
}

/// The comparison is exact: for operands of 64 bits, the gap `b - a - 1`,
/// taken in the field, fits in `WINDOWS * WINDOW_BITS` bits exactly when
/// `a < b`.
pub proof fn lemma_gap_fits_iff_less(a: u64, b: u64)
    ensures
        ((b as int - a as int - 1) % field_modulus() < vstd::arithmetic::power2::pow2(
            (WINDOWS * WINDOW_BITS) as nat,
        )) <==> a < b,
{
    let p = field_modulus();
    let x = b as int - a as int - 1;
    vstd::arithmetic::power2::lemma2_to64();
    vstd::arithmetic::power2::lemma_pow2_adds(64, 2);
    assert(vstd::arithmetic::power2::pow2(66) == 0x40000000000000000);
    if a < b {
        vstd::arithmetic::div_mod::lemma_small_mod(x as nat, p as nat);
    } else {
        vstd::arithmetic::div_mod::lemma_mod_add_multiples_vanish(x, p);
        vstd::arithmetic::div_mod::lemma_small_mod((p + x) as nat, p as nat);
    }
}

/// The commitment gadget's first state column, which takes the secret.
pub const SECRET_ADVICE: usize = 0;

/// The comparison gadget's column for its two operands. It follows the
/// commitment gadget's three state columns and its partial S-box column.
pub const COMPARISON_ADVICE: usize = 4;

/// The comparison gadget's running-sum column.
pub const GAP_ADVICE: usize = 5;

/// The fixed column that holds the constants: the first of the commitment
/// gadget's second round-constant columns, after the three of the first.
pub const CONSTANTS_FIXED: usize = 3;

/// Rows of the region that loads the secret.
pub const SECRET_ROWS: u64 = 1;

/// Rows of the region that sets up the sponge state.
pub const SPONGE_INIT_ROWS: u64 = 1;

/// Rows of the region that adds the padded message to the state.
pub const ABSORB_ROWS: u64 = 3;

/// Rows of the permutation region: the input state, then one row after each
/// of the 4 full rounds, the 28 pairs of partial rounds and the 4 full rounds
/// of the width-3 Poseidon permutation.
pub const PERMUTE_ROWS: u64 = 37;

/// Rows of the constants that set up the sponge state.
pub const CONSTANT_ROWS: u64 = 3;

/// Rows of the region that loads one bound.
pub const BOUND_ROWS: u64 = 1;

/// Rows of one comparison: the running sum from the gap down to zero.
pub const COMPARISON_ROWS: u64 = WINDOWS + 1;

/// Rows at the end of the table that hold no cell of the circuit: the
/// proving system's blinding rows and its last row.
pub const RESERVED_ROWS: u64 = 6;

/// Rows that the circuit needs when its regions are laid one after another,
/// with the reserved rows: an upper bound for any placement that packs
/// regions on disjoint columns side by side.
pub const TABLE_ROWS_NEEDED: u64 = SECRET_ROWS + SPONGE_INIT_ROWS + ABSORB_ROWS + PERMUTE_ROWS
    + CONSTANT_ROWS + 2 * BOUND_ROWS + 2 * COMPARISON_ROWS + RESERVED_ROWS;

/// The instance column.
pub open spec fn instance_column() -> Column {
    Column { kind: ColumnKind::Instance, index: 0 }
}

/// The column that takes the secret.
pub open spec fn secret_column() -> Column {
    Column { kind: ColumnKind::Advice, index: SECRET_ADVICE }
}

/// The column that takes the bounds.
pub open spec fn bounds_column() -> Column {
    Column { kind: ColumnKind::Advice, index: COMPARISON_ADVICE }
}

/// The running-sum column of the comparisons.
pub open spec fn gap_column() -> Column {
    Column { kind: ColumnKind::Advice, index: GAP_ADVICE }
}

/// The constants column.
pub open spec fn constants_column() -> Column {
    Column { kind: ColumnKind::Fixed, index: CONSTANTS_FIXED }
}

/// The claims of the composed circuit: the three public slots, then each
/// region of the assignment, on its leading column, one after another.
pub open spec fn region_claims() -> Seq<Claim> {
    seq![
        Claim { column: instance_column(), start: 0, end: 3 },
        Claim { column: secret_column(), start: 0, end: 1 },
        Claim { column: secret_column(), start: 1, end: 2 },
        Claim { column: secret_column(), start: 2, end: 5 },
        Claim { column: secret_column(), start: 5, end: 42 },
        Claim { column: constants_column(), start: 42, end: 45 },
        Claim { column: bounds_column(), start: 45, end: 46 },
        Claim { column: bounds_column(), start: 46, end: 47 },
        Claim { column: gap_column(), start: 47, end: 70 },
        Claim { column: gap_column(), start: 70, end: 93 },
    ]
}

/// The composed layout: which columns hold what, which take part in copy
/// constraints, and the cells that the circuit's regions claim.
pub struct Config {
    pub instance: Column,
    pub secret: Column,
    pub bounds: Column,
    pub equality: Vec<Column>,
    pub ledger: Ledger,
}

/// Records rows `start .. start + len` of a column of the table, below every
/// claim made so far outside the instance column.
fn claim_below(ledger: &mut Ledger, column: Column, start: u64, len: u64) -> (r: Result<(), ConfigurationError>)
    requires
        old(ledger).wf(),
        !(column.kind is Instance),
        0 < len,
        start as int + len as int <= old(ledger).rows,
        forall|i: int|
            0 <= i < old(ledger).claims@.len() ==> (#[trigger] old(ledger).claims@[i]).column.kind is Instance
                || old(ledger).claims@[i].end <= start,
    ensures
        r is Ok,
        final(ledger).wf(),
        final(ledger).rows == old(ledger).rows,
        final(ledger).claims@ == old(ledger).claims@.push(Claim { column, start, end: (start + len) as u64 }),
        forall|i: int|
            0 <= i < final(ledger).claims@.len() ==> (#[trigger] final(ledger).claims@[i]).column.kind is Instance
                || final(ledger).claims@[i].end <= start + len,
{
    let ghost c = Claim { column, start, end: (start + len) as u64 };
    proof {
        assert forall|i: int| 0 <= i < old(ledger).claims@.len() implies !overlaps(
            #[trigger] old(ledger).claims@[i],
            c,
        ) by {}
    }
    let r = ledger.claim(column, start, len);
    proof {
        assert forall|i: int| 0 <= i < ledger.claims@.len() implies (#[trigger] ledger.claims@[i]).column.kind is Instance
            || ledger.claims@[i].end <= start + len by {
            if i < old(ledger).claims@.len() {
                assert(ledger.claims@[i] == old(ledger).claims@[i]);
            }
        }
    }
    r
}

/// Composes the layout for a table of `2^k` rows: the instance column with
/// its three public slots, and every region of the assignment, each with its
/// rows, laid one after another. Fails at setup, before any witness exists,
/// when the table cannot hold them together with the reserved rows.
pub fn configure(k: u32) -> (r: Result<Config, ConfigurationError>)
    ensures
        r is Ok <==> (k <= MAX_TABLE_EXPONENT && TABLE_ROWS_NEEDED <= vstd::arithmetic::power2::pow2(k as nat)),
        k > MAX_TABLE_EXPONENT ==> r == Err::<Config, ConfigurationError>(ConfigurationError::TableTooLarge),
        k <= MAX_TABLE_EXPONENT && vstd::arithmetic::power2::pow2(k as nat) < TABLE_ROWS_NEEDED ==> r
            == Err::<Config, ConfigurationError>(ConfigurationError::OutOfRows),
        r is Ok ==> {
            let c = r->Ok_0;
            &&& c.instance == instance_column()
            &&& c.secret == secret_column()
            &&& c.bounds == bounds_column()
            &&& c.equality@ == seq![instance_column(), secret_column(), bounds_column(), gap_column()]
            &&& c.ledger.wf()
            &&& c.ledger.rows == vstd::arithmetic::power2::pow2(k as nat)
            &&& c.ledger.claims@ == region_claims()
        },
{
    let mut ledger = match Ledger::new(k) {
        Ok(l) => l,
        Err(e) => {
            return Err(e);
        },
    };
    if ledger.rows < TABLE_ROWS_NEEDED {
        return Err(ConfigurationError::OutOfRows);
    }
    let instance = Column { kind: ColumnKind::Instance, index: 0 };
    let secret = Column { kind: ColumnKind::Advice, index: SECRET_ADVICE };
    let bounds = Column { kind: ColumnKind::Advice, index: COMPARISON_ADVICE };
    let gap = Column { kind: ColumnKind::Advice, index: GAP_ADVICE };
    let constants = Column { kind: ColumnKind::Fixed, index: CONSTANTS_FIXED };
    // Every claim below succeeds: the table has room for all of them, and each
    // region starts where the one before it ended.
    let _ = ledger.claim(instance, 0, 3);
    let _ = claim_below(&mut ledger, secret, 0, SECRET_ROWS);
    let _ = claim_below(&mut ledger, secret, 1, SPONGE_INIT_ROWS);
    let _ = claim_below(&mut ledger, secret, 2, ABSORB_ROWS);
    let _ = claim_below(&mut ledger, secret, 5, PERMUTE_ROWS);
    let _ = claim_below(&mut ledger, constants, 42, CONSTANT_ROWS);
    let _ = claim_below(&mut ledger, bounds, 45, BOUND_ROWS);
    let _ = claim_below(&mut ledger, bounds, 46, BOUND_ROWS);
    let _ = claim_below(&mut ledger, gap, 47, COMPARISON_ROWS);
    let _ = claim_below(&mut ledger, gap, 70, COMPARISON_ROWS);
    proof {
        assert(ledger.claims@ =~= region_claims());
    }
    let equality = vec![instance, secret, bounds, gap];
    Ok(Config { instance, secret, bounds, equality, ledger })
}

} // verus!
