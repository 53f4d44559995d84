use vstd::prelude::*;

verus! {

/// Scan bounds: columns `x` in `[-scan_limit_x, scan_limit_x)` and
/// `z` in `[-scan_limit_z, scan_limit_z)`.
#[derive(Clone, Copy, Debug, PartialEq, Eq, Structural)]
pub struct ScanConfig {
    pub scan_limit_x: i32,
    pub scan_limit_z: i32,
}

/// Number of columns in the configured range.
pub open spec fn column_total(lx: int, lz: int) -> int {
    if lx > 0 && lz > 0 {
        4 * (lx * lz)
    } else {
        0
    }
}

/// The `k`-th column of the scan: `x` outer, `z` inner, both ascending.
pub open spec fn column_of(lx: int, lz: int, k: int) -> (int, int) {
    (-lx + k / (2 * lz), -lz + k % (2 * lz))
}

/// Whether a column lies in the configured range.
pub open spec fn in_scan_range(lx: int, lz: int, c: (int, int)) -> bool {
    -lx <= c.0 < lx && -lz <= c.1 < lz
}

/// Position of an in-range column in the scan order.
pub open spec fn column_rank(lx: int, lz: int, c: (int, int)) -> int {
    (c.0 + lx) * (2 * lz) + (c.1 + lz)
}

/// Topmost sub-chunk slot height that is probed.
pub const SLOT_TOP: i32 = 19;

/// Lowest sub-chunk slot height that is probed.
pub const SLOT_BOTTOM: i32 = -4;

/// Number of slot heights probed per column.
pub const SLOT_COUNT: usize = 24;

/// The slot height probed at position `i` of a column's probe order (top down).
pub open spec fn slot_height(i: int) -> int {
    19 - i
}

impl ScanConfig {
    pub fn new(scan_limit_x: i32, scan_limit_z: i32) -> (r: ScanConfig)
        ensures
            r.scan_limit_x == scan_limit_x,
            r.scan_limit_z == scan_limit_z,
    {
        ScanConfig { scan_limit_x, scan_limit_z }
    }

    /// How many chunk columns the scan visits; zero unless both limits are positive.
    pub fn column_count(&self) -> (r: u64)
        ensures
            r as int == column_total(self.scan_limit_x as int, self.scan_limit_z as int),
    {
        if self.scan_limit_x > 0 && self.scan_limit_z > 0 {
            let lx = self.scan_limit_x as u64;
            let lz = self.scan_limit_z as u64;
            assert(lx * lz <= 0x3fff_ffff_0000_0001) by (nonlinear_arith)
                requires
                    lx <= 0x7fff_ffff,
                    lz <= 0x7fff_ffff,
            ;
            4 * (lx * lz)
        } else {
            0
        }
    }

    /// The `k`-th column of the scan order.
    pub fn column_at(&self, k: u64) -> (r: (i32, i32))
        requires
            (k as int) < column_total(self.scan_limit_x as int, self.scan_limit_z as int),
        ensures
            (r.0 as int, r.1 as int) == column_of(
                self.scan_limit_x as int,
                self.scan_limit_z as int,
                k as int,
            ),
            in_scan_range(self.scan_limit_x as int, self.scan_limit_z as int, (r.0 as int, r.1 as int)),
    {
        let lx = self.scan_limit_x;
        let lz = self.scan_limit_z;
        proof {
            lemma_column_in_range(lx as int, lz as int, k as int);
        }
        let w = 2 * (lz as u64);
        let q = k / w;
        let m = k % w;
        ((-(lx as i64) + q as i64) as i32, (-(lz as i64) + m as i64) as i32)
    }
}

/// Slots to fetch among the first `n` probe positions of column `(x, z)`:
/// those whose probe reported presence, in probe order (top down).
pub open spec fn planned_slots(x: int, z: int, present: Seq<bool>, n: int) -> Seq<(int, int, int)>
    decreases n,
{
    if n <= 0 {
        Seq::empty()
    } else if present[n - 1] {
        planned_slots(x, z, present, n - 1).push((x, slot_height(n - 1), z))
    } else {
        planned_slots(x, z, present, n - 1)
    }
}

/// The slot of column `(x, z)` probed at position `i` (`0 <= i < SLOT_COUNT`):
/// heights run from `SLOT_TOP` down to `SLOT_BOTTOM`.
pub fn probe_slot(x: i32, z: i32, i: usize) -> (r: (i32, i32, i32))
    requires
        i < SLOT_COUNT,
    ensures
        r.0 == x && r.2 == z,
        r.1 as int == slot_height(i as int),
        SLOT_BOTTOM <= r.1 <= SLOT_TOP,
{
    (x, SLOT_TOP - i as i32, z)
}

/// Given the existence probe of each slot of column `(x, z)` (position `i`
/// for height `SLOT_TOP - i`), the slots whose decoded volumes are to be
/// fetched, top down. A column whose probes all report absence fetches nothing.
pub fn plan_column(x: i32, z: i32, present: &Vec<bool>) -> (r: Vec<(i32, i32, i32)>)
    requires
        present@.len() == SLOT_COUNT,
    ensures
        r@.map_values(|s: (i32, i32, i32)| (s.0 as int, s.1 as int, s.2 as int))
            == planned_slots(x as int, z as int, present@, SLOT_COUNT as int),
        (forall|i: int| 0 <= i < SLOT_COUNT ==> !#[trigger] present@[i]) ==> r@.len() == 0,
{
    let mut out: Vec<(i32, i32, i32)> = Vec::new();
    let mut i: usize = 0;
    while i < SLOT_COUNT
        invariant
            i <= SLOT_COUNT,
            present@.len() == SLOT_COUNT,
            out@.map_values(|s: (i32, i32, i32)| (s.0 as int, s.1 as int, s.2 as int))
                == planned_slots(x as int, z as int, present@, i as int),
            (forall|j: int| 0 <= j < SLOT_COUNT ==> !#[trigger] present@[j]) ==> out@.len() == 0,
        decreases SLOT_COUNT - i,
    {
        if present[i] {
            let slot = probe_slot(x, z, i);
            out.push(slot);
        }
        proof {
            assert(out@.map_values(|s: (i32, i32, i32)| (s.0 as int, s.1 as int, s.2 as int))
                =~= planned_slots(x as int, z as int, present@, i + 1));
        }
        i = i + 1;
    }
    out
}

/// Every position below the column count names an in-range column.
pub proof fn lemma_column_in_range(lx: int, lz: int, k: int)
    requires
        0 <= k < column_total(lx, lz),
    ensures
        in_scan_range(lx, lz, column_of(lx, lz, k)),
{
    let w = 2 * lz;
    assert(k < (2 * lx) * w) by (nonlinear_arith)
        requires
            k < 4 * (lx * lz),
            w == 2 * lz,
    ;
    vstd::arithmetic::div_mod::lemma_fundamental_div_mod(k, w);
    vstd::arithmetic::div_mod::lemma_mod_bound(k, w);
    vstd::arithmetic::div_mod::lemma_div_pos_is_pos(k, w);
    let q = k / w;
    let m = k % w;
    assert(q < 2 * lx) by (nonlinear_arith)
        requires
            k == w * q + m,
            0 <= m,
            k < (2 * lx) * w,
            w > 0,
    ;
}

/// The scan visits exactly the columns of the configured rectangle, each once:
/// every position names an in-range column, every in-range column has a
/// position (its rank), and distinct positions name distinct columns. With a
/// limit of zero or below there are no positions at all.
pub proof fn lemma_columns_are_the_range(lx: int, lz: int)
    ensures
        lx <= 0 || lz <= 0 ==> column_total(lx, lz) == 0,
        forall|k: int| 0 <= k < column_total(lx, lz) ==> in_scan_range(lx, lz, #[trigger] column_of(lx, lz, k)),
        forall|c: (int, int)|
            #![trigger in_scan_range(lx, lz, c)]
            in_scan_range(lx, lz, c) ==> 0 <= column_rank(lx, lz, c) < column_total(lx, lz)
                && column_of(lx, lz, column_rank(lx, lz, c)) == c,
        forall|j: int, k: int|
            0 <= j < column_total(lx, lz) && 0 <= k < column_total(lx, lz) && j != k
                ==> #[trigger] column_of(lx, lz, j) != #[trigger] column_of(lx, lz, k),
{
    assert forall|k: int| 0 <= k < column_total(lx, lz) implies in_scan_range(lx, lz, #[trigger] column_of(lx, lz, k)) by {
        lemma_column_in_range(lx, lz, k);
    }
    assert forall|c: (int, int)| #![trigger in_scan_range(lx, lz, c)]
        in_scan_range(lx, lz, c) implies 0 <= column_rank(lx, lz, c) < column_total(lx, lz)
            && column_of(lx, lz, column_rank(lx, lz, c)) == c by {
        let w = 2 * lz;
        let q = c.0 + lx;
        let m = c.1 + lz;
        let k = column_rank(lx, lz, c);
        assert(0 <= k < column_total(lx, lz)) by (nonlinear_arith)
            requires
                0 <= q < 2 * lx,
                0 <= m < w,
                w == 2 * lz,
                k == q * w + m,
                column_total(lx, lz) == 4 * (lx * lz),
        ;
        vstd::arithmetic::div_mod::lemma_fundamental_div_mod_converse(k, w, q, m);
    }
    assert forall|j: int, k: int|
        0 <= j < column_total(lx, lz) && 0 <= k < column_total(lx, lz) && j != k
            implies #[trigger] column_of(lx, lz, j) != #[trigger] column_of(lx, lz, k) by {
        let w = 2 * lz;
        if column_of(lx, lz, j) == column_of(lx, lz, k) {
            vstd::arithmetic::div_mod::lemma_fundamental_div_mod(j, w);
            vstd::arithmetic::div_mod::lemma_fundamental_div_mod(k, w);
            assert(j / w == k / w && j % w == k % w);
            assert(j == k);
        }
    }
}

} // verus!
