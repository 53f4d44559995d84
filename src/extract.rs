use vstd::prelude::*;

verus! {

/// Number of block entries in a sub-chunk volume.
pub const VOLUME_SIZE: usize = 4096;

/// Identifier of the empty block type, which is never extracted.
pub open spec fn air_name() -> Seq<char> {
    seq!['m', 'i', 'n', 'e', 'c', 'r', 'a', 'f', 't', ':', 'a', 'i', 'r']
}

/// The air identifier as a string.
pub fn air() -> (r: String)
    ensures
        r@ == air_name(),
{
    let r = <String as vstd::string::StringExecFns>::from_str("minecraft:air");
    proof {
        reveal_strlit("minecraft:air");
    }
    assert(r@ =~= air_name());
    r
}

/// A non-air block of the world: its world coordinates and block-type identifier.
#[derive(Clone, Debug)]
pub struct BlockRecord {
    pub x: i32,
    pub y: i32,
    pub z: i32,
    pub name: String,
}

/// Plain-value view of a block record.
pub type RecordView = (int, int, int, Seq<char>);

impl View for BlockRecord {
    type V = RecordView;

    open spec fn view(&self) -> RecordView {
        (self.x as int, self.y as int, self.z as int, self.name@)
    }
}

/// The views of a sequence of records.
pub open spec fn records_view(s: Seq<BlockRecord>) -> Seq<RecordView> {
    s.map_values(|r: BlockRecord| r@)
}

/// A decoded 16x16x16 sub-chunk: its slot position and the identifier of each
/// block. The entry for local `(lx, ly, lz)` stands at `ly * 256 + lx * 16 + lz`
/// (height outermost, then x, then z).
#[derive(Clone, Debug)]
pub struct SubChunkVolume {
    pub slot_x: i32,
    pub slot_y: i32,
    pub slot_z: i32,
    pub names: Vec<String>,
}

/// Whether a slot coordinate keeps every world coordinate of its volume in `i32`.
pub open spec fn slot_in_bounds(s: int) -> bool {
    -0x800_0000 <= s < 0x800_0000
}

impl SubChunkVolume {
    /// A volume holds one entry per local coordinate, and its slot keeps all
    /// world coordinates representable.
    pub open spec fn wf(&self) -> bool {
        &&& self.names@.len() == VOLUME_SIZE
        &&& slot_in_bounds(self.slot_x as int)
        &&& slot_in_bounds(self.slot_y as int)
        &&& slot_in_bounds(self.slot_z as int)
    }

    /// An all-air volume at the given slot, the stand-in for a sub-chunk that
    /// is missing or could not be decoded.
    pub fn empty(slot_x: i32, slot_y: i32, slot_z: i32) -> (r: SubChunkVolume)
        ensures
            r.slot_x == slot_x && r.slot_y == slot_y && r.slot_z == slot_z,
            r.names@.len() == VOLUME_SIZE,
            forall|i: int| 0 <= i < VOLUME_SIZE ==> #[trigger] r.names@[i]@ == air_name(),
    {
        let mut names: Vec<String> = Vec::new();
        while names.len() < VOLUME_SIZE
            invariant
                names@.len() <= VOLUME_SIZE,
                forall|i: int| 0 <= i < names@.len() ==> #[trigger] names@[i]@ == air_name(),
            decreases VOLUME_SIZE - names@.len(),
        {
            names.push(air());
        }
        SubChunkVolume { slot_x, slot_y, slot_z, names }
    }
}

/// Index of local coordinate `(lx, ly, lz)` in a volume.
pub open spec fn local_index(lx: int, ly: int, lz: int) -> int {
    ly * 256 + lx * 16 + lz
}

/// The record that entry `i` of a volume stands for.
pub open spec fn record_at(v: SubChunkVolume, i: int) -> RecordView {
    (
        (i / 16) % 16 + 16 * v.slot_x,
        i / 256 + 16 * v.slot_y,
        i % 16 + 16 * v.slot_z,
        v.names@[i]@,
    )
}

/// Records of the first `n` entries of a volume, air left out, in entry order.
pub open spec fn volume_records(v: SubChunkVolume, n: int) -> Seq<RecordView>
    decreases n,
{
    if n <= 0 {
        Seq::empty()
    } else if v.names@[n - 1]@ == air_name() {
        volume_records(v, n - 1)
    } else {
        volume_records(v, n - 1).push(record_at(v, n - 1))
    }
}

/// Records of a column's volumes, volume after volume.
pub open spec fn column_records(vs: Seq<SubChunkVolume>) -> Seq<RecordView>
    decreases vs.len(),
{
    if vs.len() == 0 {
        Seq::empty()
    } else {
        column_records(vs.drop_last()) + volume_records(vs.last(), VOLUME_SIZE as int)
    }
}

/// Collects the non-air blocks of a column's volumes, with world coordinates
/// `local + 16 * slot` on each axis, volume after volume and, inside a volume,
/// height outermost, then x, then z.
pub fn extract_blocks(volumes: &Vec<SubChunkVolume>) -> (r: Vec<BlockRecord>)
    requires
        forall|k: int| 0 <= k < volumes@.len() ==> (#[trigger] volumes@[k]).wf(),
    ensures
        records_view(r@) == column_records(volumes@),
{
    let mut out: Vec<BlockRecord> = Vec::new();
    let mut k: usize = 0;
    while k < volumes.len()
        invariant
            k <= volumes@.len(),
            forall|j: int| 0 <= j < volumes@.len() ==> (#[trigger] volumes@[j]).wf(),
            records_view(out@) == column_records(volumes@.take(k as int)),
        decreases volumes@.len() - k,
    {
        let v = &volumes[k];
        let ghost before = records_view(out@);
        let air_id = air();
        let mut i: usize = 0;
        while i < VOLUME_SIZE
            invariant
                i <= VOLUME_SIZE,
                v.wf(),
                records_view(out@) == before + volume_records(*v, i as int),
                air_id@ == air_name(),
            decreases VOLUME_SIZE - i,
        {
            let ghost prev = out@;
            if v.names[i] != air_id {
                let lx = ((i / 16) % 16) as i32;
                let ly = (i / 256) as i32;
                let lz = (i % 16) as i32;
                let rec = BlockRecord {
                    x: lx + 16 * v.slot_x,
                    y: ly + 16 * v.slot_y,
                    z: lz + 16 * v.slot_z,
                    name: v.names[i].clone(),
                };
                assert(rec@ == record_at(*v, i as int));
                out.push(rec);
                assert(records_view(out@) =~= records_view(prev).push(record_at(*v, i as int)));
            }
            proof {
                assert(records_view(out@) =~= before + volume_records(*v, i + 1));
            }
            i = i + 1;
        }
        proof {
            let t = volumes@.take(k + 1);
            assert(t.drop_last() =~= volumes@.take(k as int));
            assert(t.last() == *v);
        }
        k = k + 1;
    }
    assert(volumes@.take(volumes@.len() as int) =~= volumes@);
    out
}

/// World-coordinate mapping: the entry for local `(lx, ly, lz)` of a volume at
/// slot `(sx, sy, sz)` stands for world coordinates
/// `(lx + 16 * sx, ly + 16 * sy, lz + 16 * sz)`, for all 16 values of each axis.
pub proof fn lemma_world_coordinates(v: SubChunkVolume, lx: int, ly: int, lz: int)
    requires
        v.wf(),
        0 <= lx < 16,
        0 <= ly < 16,
        0 <= lz < 16,
    ensures
        0 <= local_index(lx, ly, lz) < VOLUME_SIZE,
        record_at(v, local_index(lx, ly, lz)) == (
            lx + 16 * v.slot_x,
            ly + 16 * v.slot_y,
            lz + 16 * v.slot_z,
            v.names@[local_index(lx, ly, lz)]@,
        ),
{
    let i = local_index(lx, ly, lz);
    vstd::arithmetic::div_mod::lemma_fundamental_div_mod_converse(i, 256, ly, lx * 16 + lz);
    vstd::arithmetic::div_mod::lemma_fundamental_div_mod_converse(i, 16, ly * 16 + lx, lz);
    vstd::arithmetic::div_mod::lemma_fundamental_div_mod_converse(ly * 16 + lx, 16, ly, lx);
}

/// Air filtering: a volume whose entries are all the air identifier yields no records.
pub proof fn lemma_all_air_yields_nothing(v: SubChunkVolume, n: int)
    requires
        0 <= n <= v.names@.len(),
        forall|i: int| 0 <= i < v.names@.len() ==> #[trigger] v.names@[i]@ == air_name(),
    ensures
        volume_records(v, n) == Seq::<RecordView>::empty(),
    decreases n,
{
    if n > 0 {
        lemma_all_air_yields_nothing(v, n - 1);
    }
}

/// A column whose volumes are all air yields no records.
pub proof fn lemma_all_air_column(vs: Seq<SubChunkVolume>)
    requires
        forall|k: int| 0 <= k < vs.len() ==> (#[trigger] vs[k]).wf(),
        forall|k: int, i: int|
            0 <= k < vs.len() && 0 <= i < VOLUME_SIZE ==> #[trigger] vs[k].names@[i]@ == air_name(),
    ensures
        column_records(vs) == Seq::<RecordView>::empty(),
    decreases vs.len(),
{
    if vs.len() > 0 {
        let last = vs.last();
        assert(last == vs[vs.len() - 1]);
        assert forall|i: int| 0 <= i < last.names@.len() implies #[trigger] last.names@[i]@ == air_name() by {
            assert(vs[vs.len() - 1].names@[i]@ == air_name());
        }
        lemma_all_air_yields_nothing(last, VOLUME_SIZE as int);
        lemma_all_air_column(vs.drop_last());
        assert(column_records(vs) =~= Seq::<RecordView>::empty());
    }
}

} // verus!
