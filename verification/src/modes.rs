//! The catalog of modes advertised to the host and how each is presented:
//! physical modes of the panel are scanned out exactly, synthetic modes are
//! scaled onto the current scanout. A mode is identified by its full timing
//! and the user flags the host can see.
use vstd::prelude::*;
use crate::gud::{DisplayMode, GUD_DISPLAY_MODE_FLAG_PREFERRED, GUD_DISPLAY_MODE_FLAG_USER_MASK};
use crate::protocol::DisplayStateSnapshot;

verus! {

/// The identity of a mode on a connector: its timing and user flags.
#[derive(Clone, Copy, Debug, PartialEq, Eq, Structural, Hash)]
pub struct ModeKey {
    pub connector: u8,
    pub clock: u32,
    pub hdisplay: u16,
    pub hsync_start: u16,
    pub hsync_end: u16,
    pub htotal: u16,
    pub vdisplay: u16,
    pub vsync_start: u16,
    pub vsync_end: u16,
    pub vtotal: u16,
    pub flags: u32,
}

/// The key of `mode` on `connector`: the preferred bit and private flags do
/// not count.
pub open spec fn mode_key(connector: u8, mode: DisplayMode) -> ModeKey {
    ModeKey {
        connector,
        clock: mode.clock,
        hdisplay: mode.hdisplay,
        hsync_start: mode.hsync_start,
        hsync_end: mode.hsync_end,
        htotal: mode.htotal,
        vdisplay: mode.vdisplay,
        vsync_start: mode.vsync_start,
        vsync_end: mode.vsync_end,
        vtotal: mode.vtotal,
        flags: mode.flags & GUD_DISPLAY_MODE_FLAG_USER_MASK,
    }
}

impl ModeKey {
    /// The key of `mode` on `connector`.
    pub fn new(connector: u8, mode: &DisplayMode) -> (r: ModeKey)
        ensures
            r == mode_key(connector, *mode),
    {
        ModeKey {
            connector,
            clock: mode.clock,
            hdisplay: mode.hdisplay,
            hsync_start: mode.hsync_start,
            hsync_end: mode.hsync_end,
            htotal: mode.htotal,
            vdisplay: mode.vdisplay,
            vsync_start: mode.vsync_start,
            vsync_end: mode.vsync_end,
            vtotal: mode.vtotal,
            flags: mode.flags & GUD_DISPLAY_MODE_FLAG_USER_MASK,
        }
    }

    /// The key of a checked or committed state's mode.
    pub fn from_snapshot(snapshot: &DisplayStateSnapshot) -> (r: ModeKey)
        ensures
            r == mode_key(snapshot.connector, snapshot.mode),
    {
        ModeKey::new(snapshot.connector, &snapshot.mode)
    }
}

/// A mode as advertised: private flags cleared, the preferred bit set only
/// when asked.
pub open spec fn normalized(mode: DisplayMode, preferred: bool) -> DisplayMode {
    DisplayMode {
        flags: if preferred {
            (mode.flags & GUD_DISPLAY_MODE_FLAG_USER_MASK) | GUD_DISPLAY_MODE_FLAG_PREFERRED
        } else {
            mode.flags & GUD_DISPLAY_MODE_FLAG_USER_MASK
        },
        ..mode
    }
}

/// The mode as advertised to the host.
pub fn normalize_advertised_mode(mode: &DisplayMode, preferred: bool) -> (r: DisplayMode)
    ensures
        r == normalized(*mode, preferred),
{
    let mut out = *mode;
    out.flags = out.flags & GUD_DISPLAY_MODE_FLAG_USER_MASK;
    if preferred {
        out.flags = out.flags | GUD_DISPLAY_MODE_FLAG_PREFERRED;
    }
    out
}

/// Normalizing again keeps the timing and user flags; only the preferred
/// bit follows the new choice.
pub proof fn lemma_normalized_twice(mode: DisplayMode, first: bool, second: bool)
    ensures
        normalized(normalized(mode, first), second) == normalized(mode, second),
{
    let f = mode.flags;
    assert(((f & 0x33ffu32) & 0x33ffu32) == f & 0x33ffu32 && ((((f & 0x33ffu32) | 0x400u32)
        & 0x33ffu32) == f & 0x33ffu32)) by (bit_vector);
}

/// Whether an advertised mode carries the preferred bit.
pub open spec fn is_preferred(mode: DisplayMode) -> bool {
    mode.flags & GUD_DISPLAY_MODE_FLAG_PREFERRED != 0
}

/// A normalized mode is preferred exactly when it was asked to be.
pub proof fn lemma_normalized_preferred(mode: DisplayMode, preferred: bool)
    ensures
        is_preferred(normalized(mode, preferred)) == preferred,
{
    let f = mode.flags;
    assert((((f & 0x33ffu32) | 0x400u32) & 0x400u32) != 0 && ((f & 0x33ffu32) & 0x400u32) == 0)
        by (bit_vector);
}

/// How an advertised mode is presented.
#[derive(Clone, Copy, Debug, PartialEq, Eq)]
pub enum CatalogRoute<M> {
    /// Scanned out in this physical mode.
    Exact(M),
    /// Scaled onto the current scanout.
    ScaledFallback,
}

/// An advertised mode with its key and route.
#[derive(Clone, Copy, Debug, PartialEq, Eq)]
pub struct CatalogEntry<M> {
    pub key: ModeKey,
    pub advertised_mode: DisplayMode,
    pub route: CatalogRoute<M>,
}

/// A physical mode of the panel with its timing.
#[derive(Clone, Copy, Debug)]
pub struct PhysicalCatalogMode<M> {
    pub mode: M,
    pub timing: DisplayMode,
}

/// Why a catalog could not be built.
#[derive(Clone, Copy, Debug, PartialEq, Eq, Structural)]
pub enum CatalogError {
    EmptyPhysicalCatalog,
    PreferredIndexOutOfRange { index: usize, len: usize },
}

/// The advertised modes in order, with the one advertised as preferred.
pub struct RouteCatalog<M> {
    pub connector: u8,
    pub entries: Vec<CatalogEntry<M>>,
    pub preferred_index: usize,
}

/// The entries a catalog considers, physical modes first: each with its
/// key, its mode normalized without the preferred bit, and its route.
pub open spec fn candidate_entries<M>(
    connector: u8,
    physical: Seq<PhysicalCatalogMode<M>>,
    synthetic: Seq<DisplayMode>,
) -> Seq<CatalogEntry<M>> {
    physical.map_values(
        |p: PhysicalCatalogMode<M>|
            CatalogEntry {
                key: mode_key(connector, p.timing),
                advertised_mode: normalized(p.timing, false),
                route: CatalogRoute::Exact(p.mode),
            },
    ) + synthetic.map_values(
        |m: DisplayMode|
            CatalogEntry {
                key: mode_key(connector, m),
                advertised_mode: normalized(m, false),
                route: CatalogRoute::ScaledFallback,
            },
    )
}

/// Whether some entry has `key`.
pub open spec fn has_key<M>(entries: Seq<CatalogEntry<M>>, key: ModeKey) -> bool {
    exists|i: int| 0 <= i < entries.len() && #[trigger] entries[i].key == key
}

/// The first entry of each key, in order.
pub open spec fn first_of_each_key<M>(candidates: Seq<CatalogEntry<M>>) -> Seq<CatalogEntry<M>>
    decreases candidates.len(),
{
    if candidates.len() == 0 {
        seq![]
    } else {
        let before = first_of_each_key(candidates.drop_last());
        if has_key(before, candidates.last().key) {
            before
        } else {
            before.push(candidates.last())
        }
    }
}

/// No two entries share a key.
pub open spec fn keys_unique<M>(entries: Seq<CatalogEntry<M>>) -> bool {
    forall|i: int, j: int|
        0 <= i < entries.len() && 0 <= j < entries.len() && i != j ==> #[trigger] entries[i].key
            != #[trigger] entries[j].key
}

/// The entries of a catalog: the first entry of each key, with only the
/// entry at `preferred` advertised as preferred.
pub open spec fn catalog_entries<M>(
    connector: u8,
    physical: Seq<PhysicalCatalogMode<M>>,
    synthetic: Seq<DisplayMode>,
    preferred: int,
) -> Seq<CatalogEntry<M>> {
    let base = first_of_each_key(candidate_entries(connector, physical, synthetic));
    Seq::new(
        base.len(),
        |i: int|
            CatalogEntry {
                advertised_mode: normalized(base[i].advertised_mode, i == preferred),
                ..base[i]
            },
    )
}

/// The entry with `key`, if any.
pub open spec fn entry_with_key<M>(entries: Seq<CatalogEntry<M>>, key: ModeKey) -> Option<
    CatalogEntry<M>,
> {
    if has_key(entries, key) {
        Some(entries[choose|i: int| 0 <= i < entries.len() && #[trigger] entries[i].key == key])
    } else {
        None
    }
}

/// Every key seen is kept, the kept keys are unique, and each kept entry is
/// the first candidate of its key.
proof fn lemma_first_of_each_key<M>(candidates: Seq<CatalogEntry<M>>)
    ensures
        keys_unique(first_of_each_key(candidates)),
        forall|j: int|
            0 <= j < candidates.len() ==> has_key(
                first_of_each_key(candidates),
                #[trigger] candidates[j].key,
            ),
        forall|i: int|
            0 <= i < first_of_each_key(candidates).len() ==> exists|j: int|
                0 <= j < candidates.len() && #[trigger] first_of_each_key(candidates)[i]
                    == candidates[j] && forall|k: int|
                    0 <= k < j ==> #[trigger] candidates[k].key != candidates[j].key,
    decreases candidates.len(),
{
    if candidates.len() > 0 {
        let rest = candidates.drop_last();
        lemma_first_of_each_key(rest);
        let before = first_of_each_key(rest);
        let c = candidates.last();
        let after = first_of_each_key(candidates);
        assert forall|j: int| 0 <= j < candidates.len() implies has_key(
            after,
            #[trigger] candidates[j].key,
        ) by {
            if j < rest.len() {
                assert(rest[j] == candidates[j]);
                let w = choose|i: int| 0 <= i < before.len() && #[trigger] before[i].key == rest[j].key;
                assert(after[w] == before[w]);
            } else if !has_key(before, c.key) {
                assert(after[before.len() as int] == c);
            }
        }
        assert forall|i: int| 0 <= i < after.len() implies exists|j: int|
            0 <= j < candidates.len() && #[trigger] after[i] == candidates[j] && forall|k: int|
                0 <= k < j ==> #[trigger] candidates[k].key != candidates[j].key by {
            if i < before.len() {
                let j = choose|j: int|
                    0 <= j < rest.len() && #[trigger] before[i] == rest[j] && forall|k: int|
                        0 <= k < j ==> #[trigger] rest[k].key != rest[j].key;
                assert(after[i] == candidates[j]);
                assert forall|k: int| 0 <= k < j implies #[trigger] candidates[k].key
                    != candidates[j].key by {
                    assert(rest[k] == candidates[k]);
                }
            } else {
                let j = candidates.len() - 1;
                assert(after[i] == candidates[j]);
                assert forall|k: int| 0 <= k < j implies #[trigger] candidates[k].key
                    != candidates[j].key by {
                    assert(rest[k] == candidates[k]);
                    assert(has_key(before, rest[k].key));
                }
            }
        }
    }
}

/// The first candidate with a key that some candidate has is kept, and its
/// kept entry is the one found by that key.
proof fn lemma_kept_entry<M>(candidates: Seq<CatalogEntry<M>>, j: int)
    requires
        0 <= j < candidates.len(),
        forall|k: int| 0 <= k < j ==> #[trigger] candidates[k].key != candidates[j].key,
    ensures
        entry_with_key(first_of_each_key(candidates), candidates[j].key) == Some(candidates[j]),
{
    lemma_first_of_each_key(candidates);
    let kept = first_of_each_key(candidates);
    let key = candidates[j].key;
    assert(has_key(kept, key));
    let w = choose|i: int| 0 <= i < kept.len() && #[trigger] kept[i].key == key;
    let jj = choose|jj: int|
        0 <= jj < candidates.len() && #[trigger] kept[w] == candidates[jj] && forall|k: int|
            0 <= k < jj ==> #[trigger] candidates[k].key != candidates[jj].key;
    if jj < j {
        assert(candidates[jj].key == key);
    } else if jj > j {
        assert(candidates[j].key == candidates[jj].key);
    }
}

/// The catalog holds one entry per key, the first of that key among the
/// physical modes and then the synthetic ones: a physical mode's entry
/// routes to it exactly and a synthetic one is scaled, every candidate's key
/// has an entry, and each entry is advertised with its mode's user timing,
/// marked preferred exactly at `preferred`.
pub proof fn lemma_catalog_keeps_first_of_each_key<M>(
    connector: u8,
    physical: Seq<PhysicalCatalogMode<M>>,
    synthetic: Seq<DisplayMode>,
    preferred: int,
)
    ensures
        keys_unique(catalog_entries(connector, physical, synthetic, preferred)),
        forall|j: int|
            0 <= j < physical.len() ==> has_key(
                catalog_entries(connector, physical, synthetic, preferred),
                mode_key(connector, #[trigger] physical[j].timing),
            ),
        forall|j: int|
            0 <= j < synthetic.len() ==> has_key(
                catalog_entries(connector, physical, synthetic, preferred),
                mode_key(connector, #[trigger] synthetic[j]),
            ),
        forall|i: int|
            #![trigger catalog_entries(connector, physical, synthetic, preferred)[i]]
            0 <= i < catalog_entries(connector, physical, synthetic, preferred).len() ==> exists|j: int|
                #![trigger candidate_entries(connector, physical, synthetic)[j]]
                0 <= j < candidate_entries(connector, physical, synthetic).len() && {
                    let e = catalog_entries(connector, physical, synthetic, preferred)[i];
                    let c = candidate_entries(connector, physical, synthetic)[j];
                    &&& e.key == c.key
                    &&& e.route == c.route
                    &&& e.advertised_mode == normalized(c.advertised_mode, i == preferred)
                    &&& (j < physical.len() ==> c.route == CatalogRoute::Exact(physical[j].mode)
                        && c.key == mode_key(connector, physical[j].timing))
                    &&& (j >= physical.len() ==> c.route == CatalogRoute::<M>::ScaledFallback
                        && c.key == mode_key(connector, synthetic[j - physical.len()]))
                    &&& forall|k: int| 0 <= k < j ==> #[trigger] candidate_entries(connector, physical, synthetic)[k].key != c.key
                },
{
    let c = candidate_entries(connector, physical, synthetic);
    let base = first_of_each_key(c);
    let e = catalog_entries(connector, physical, synthetic, preferred);
    lemma_first_of_each_key(c);
    assert forall|i: int, j: int|
        0 <= i < e.len() && 0 <= j < e.len() && i != j implies #[trigger] e[i].key != #[trigger] e[j].key by {
        assert(e[i].key == base[i].key && e[j].key == base[j].key);
    }
    assert forall|j: int| 0 <= j < physical.len() implies has_key(e, mode_key(connector, #[trigger] physical[j].timing)) by {
        assert(c[j].key == mode_key(connector, physical[j].timing));
        assert(has_key(base, c[j].key));
        let w = choose|w: int| 0 <= w < base.len() && #[trigger] base[w].key == c[j].key;
        assert(e[w].key == c[j].key);
    }
    assert forall|j: int| 0 <= j < synthetic.len() implies has_key(e, mode_key(connector, #[trigger] synthetic[j])) by {
        let jj = j + physical.len();
        assert(c[jj].key == mode_key(connector, synthetic[j]));
        assert(has_key(base, c[jj].key));
        let w = choose|w: int| 0 <= w < base.len() && #[trigger] base[w].key == c[jj].key;
        assert(e[w].key == c[jj].key);
    }
    assert forall|i: int| #![trigger e[i]] 0 <= i < e.len() implies exists|j: int|
        #![trigger c[j]]
        0 <= j < c.len() && {
            let ee = e[i];
            let cc = c[j];
            &&& ee.key == cc.key
            &&& ee.route == cc.route
            &&& ee.advertised_mode == normalized(cc.advertised_mode, i == preferred)
            &&& (j < physical.len() ==> cc.route == CatalogRoute::Exact(physical[j].mode)
                && cc.key == mode_key(connector, physical[j].timing))
            &&& (j >= physical.len() ==> cc.route == CatalogRoute::<M>::ScaledFallback
                && cc.key == mode_key(connector, synthetic[j - physical.len()]))
            &&& forall|k: int| 0 <= k < j ==> #[trigger] c[k].key != cc.key
        } by {
        let j = choose|j: int|
            0 <= j < c.len() && #[trigger] base[i] == c[j] && forall|k: int|
                0 <= k < j ==> #[trigger] c[k].key != c[j].key;
        assert(e[i].key == c[j].key);
    }
}

/// Looking a key up in the built entries finds the same key and route as in
/// the entries before the preferred bit was set.
proof fn lemma_lookup_in_catalog<M>(
    connector: u8,
    physical: Seq<PhysicalCatalogMode<M>>,
    synthetic: Seq<DisplayMode>,
    preferred: int,
    key: ModeKey,
)
    ensures
        ({
            let base = first_of_each_key(candidate_entries(connector, physical, synthetic));
            let built = catalog_entries(connector, physical, synthetic, preferred);
            match (entry_with_key(base, key), entry_with_key(built, key)) {
                (Some(b), Some(e)) => e.key == b.key && e.route == b.route,
                (None, None) => true,
                _ => false,
            }
        }),
{
    let cands = candidate_entries(connector, physical, synthetic);
    lemma_first_of_each_key(cands);
    let base = first_of_each_key(cands);
    let built = catalog_entries(connector, physical, synthetic, preferred);
    if has_key(base, key) {
        let w = choose|i: int| 0 <= i < base.len() && #[trigger] base[i].key == key;
        assert(built[w].key == key);
        let v = choose|i: int| 0 <= i < built.len() && #[trigger] built[i].key == key;
        assert(base[v].key == key);
        assert(v == w);
    } else {
        if has_key(built, key) {
            let v = choose|i: int| 0 <= i < built.len() && #[trigger] built[i].key == key;
            assert(base[v].key == key);
        }
    }
}

/// The first position of `key` in `keys`, given that it occurs at `p`.
proof fn lemma_first_index(keys: Seq<ModeKey>, key: ModeKey, p: int) -> (q: int)
    requires
        0 <= p < keys.len(),
        keys[p] == key,
    ensures
        0 <= q <= p,
        keys[q] == key,
        forall|k: int| 0 <= k < q ==> #[trigger] keys[k] != key,
    decreases p,
{
    if exists|k: int| 0 <= k < p && #[trigger] keys[k] == key {
        let k = choose|k: int| 0 <= k < p && #[trigger] keys[k] == key;
        lemma_first_index(keys, key, k)
    } else {
        p
    }
}

/// A physical mode is always found again by its timing, and it is scanned
/// out exactly: in the physical mode listed first with that timing.
pub proof fn lemma_physical_modes_route_exactly<M>(
    connector: u8,
    physical: Seq<PhysicalCatalogMode<M>>,
    synthetic: Seq<DisplayMode>,
    preferred: int,
    p: int,
)
    requires
        0 <= p < physical.len(),
    ensures
        ({
            let key = mode_key(connector, physical[p].timing);
            let first = choose|q: int|
                0 <= q < physical.len() && mode_key(connector, #[trigger] physical[q].timing)
                    == key && forall|k: int|
                    0 <= k < q ==> mode_key(connector, #[trigger] physical[k].timing) != key;
            &&& 0 <= first <= p
            &&& entry_with_key(catalog_entries(connector, physical, synthetic, preferred), key)
                matches Some(e) && e.route == CatalogRoute::Exact(physical[first].mode)
        }),
{
    let cands = candidate_entries(connector, physical, synthetic);
    let key = mode_key(connector, physical[p].timing);
    assert(cands[p].key == key);
    let keys = physical.map_values(|m: PhysicalCatalogMode<M>| mode_key(connector, m.timing));
    let q = lemma_first_index(keys, key, p);
    assert(keys[q] == mode_key(connector, physical[q].timing));
    assert forall|k: int| 0 <= k < q implies mode_key(connector, #[trigger] physical[k].timing)
        != key by {
        assert(keys[k] == mode_key(connector, physical[k].timing));
    }
    let first = choose|f: int|
        0 <= f < physical.len() && mode_key(connector, #[trigger] physical[f].timing) == key
            && forall|k: int| 0 <= k < f ==> mode_key(connector, #[trigger] physical[k].timing) != key;
    if first < q {
        assert(mode_key(connector, physical[first].timing) != key);
    } else if first > q {
        assert(mode_key(connector, physical[q].timing) != key);
    }
    assert forall|k: int| 0 <= k < q implies #[trigger] cands[k].key != cands[q].key by {
        assert(cands[k].key == mode_key(connector, physical[k].timing));
    }
    lemma_kept_entry(cands, q);
    lemma_lookup_in_catalog(connector, physical, synthetic, preferred, key);
}

/// A synthetic mode is always found again by its timing; it is scaled
/// exactly when no physical mode has its timing.
pub proof fn lemma_synthetic_modes_route_by_timing<M>(
    connector: u8,
    physical: Seq<PhysicalCatalogMode<M>>,
    synthetic: Seq<DisplayMode>,
    preferred: int,
    s: int,
)
    requires
        0 <= s < synthetic.len(),
    ensures
        ({
            let key = mode_key(connector, synthetic[s]);
            entry_with_key(catalog_entries(connector, physical, synthetic, preferred), key)
                matches Some(e) && (e.route == CatalogRoute::<M>::ScaledFallback <==> forall|p: int|
                0 <= p < physical.len() ==> mode_key(connector, #[trigger] physical[p].timing)
                    != key)
        }),
{
    let cands = candidate_entries(connector, physical, synthetic);
    let np = physical.len() as int;
    let key = mode_key(connector, synthetic[s]);
    if exists|p: int| 0 <= p < physical.len() && mode_key(connector, #[trigger] physical[p].timing) == key {
        let p = choose|p: int| 0 <= p < physical.len() && mode_key(connector, #[trigger] physical[p].timing) == key;
        lemma_physical_modes_route_exactly(connector, physical, synthetic, preferred, p);
    } else {
        assert(cands[np + s].key == key);
        let keys = synthetic.map_values(|m: DisplayMode| mode_key(connector, m));
        let q = lemma_first_index(keys, key, s);
        assert forall|k: int| 0 <= k < q implies mode_key(connector, #[trigger] synthetic[k])
            != key by {
            assert(keys[k] == mode_key(connector, synthetic[k]));
        }
        assert forall|k: int| 0 <= k < np + q implies #[trigger] cands[k].key != cands[np + q].key by {
            if k < np {
                assert(cands[k].key == mode_key(connector, physical[k].timing));
            } else {
                assert(cands[k].key == mode_key(connector, synthetic[k - np]));
            }
        }
        lemma_kept_entry(cands, np + q);
        lemma_lookup_in_catalog(connector, physical, synthetic, preferred, key);
    }
}

/// The host echoes an advertised mode with its private flags cleared and
/// the preferred bit as advertised; the echo has the mode's key.
pub proof fn lemma_echo_has_same_key(connector: u8, mode: DisplayMode, preferred: bool)
    ensures
        mode_key(connector, normalized(mode, preferred)) == mode_key(connector, mode),
{
    lemma_normalized_twice(mode, preferred, false);
    let f = mode.flags;
    assert(((f & 0x33ffu32) & 0x33ffu32) == f & 0x33ffu32 && ((((f & 0x33ffu32) | 0x400u32)
        & 0x33ffu32) == f & 0x33ffu32)) by (bit_vector);
}

/// The first index of an entry with `key`, if any.
fn position_of_key<M>(entries: &Vec<CatalogEntry<M>>, key: ModeKey) -> (r: Option<usize>)
    ensures
        r matches Some(i) ==> i < entries@.len() && entries@[i as int].key == key,
        r is None ==> !has_key(entries@, key),
{
    let mut i: usize = 0;
    while i < entries.len()
        invariant
            0 <= i <= entries@.len(),
            forall|j: int| 0 <= j < i ==> #[trigger] entries@[j].key != key,
        decreases entries@.len() - i,
    {
        if entries[i].key == key {
            return Some(i);
        }
        i = i + 1;
    }
    None
}

impl<M: Copy> RouteCatalog<M> {
    /// The catalog is well formed: its keys are unique and exactly the
    /// entry at the preferred index is advertised as preferred.
    pub open spec fn wf(&self) -> bool {
        &&& self.preferred_index < self.entries@.len()
        &&& keys_unique(self.entries@)
        &&& forall|i: int|
            0 <= i < self.entries@.len() ==> is_preferred(#[trigger] self.entries@[i].advertised_mode)
                == (i == self.preferred_index)
    }

    /// Builds the catalog: the physical modes, then the synthetic ones, each
    /// key once (its first occurrence wins, so a physical mode beats a
    /// synthetic one with the same timing), with the entry of the preferred
    /// physical mode's key advertised as the only preferred one.
    pub fn build(
        connector: u8,
        physical_modes: &[PhysicalCatalogMode<M>],
        preferred_physical_index: usize,
        synthetic_modes: &[DisplayMode],
    ) -> (r: Result<RouteCatalog<M>, CatalogError>)
        ensures
            physical_modes@.len() == 0 ==> r == Err::<RouteCatalog<M>, CatalogError>(
                CatalogError::EmptyPhysicalCatalog,
            ),
            physical_modes@.len() > 0 && preferred_physical_index >= physical_modes@.len() ==> r
                == Err::<RouteCatalog<M>, CatalogError>(
                CatalogError::PreferredIndexOutOfRange {
                    index: preferred_physical_index,
                    len: physical_modes@.len() as usize,
                },
            ),
            physical_modes@.len() > 0 && preferred_physical_index < physical_modes@.len() ==> (
            r matches Ok(c) && {
                &&& c.wf()
                &&& c.connector == connector
                &&& c.entries@[c.preferred_index as int].key == mode_key(
                    connector,
                    physical_modes@[preferred_physical_index as int].timing,
                )
                &&& c.entries@ == catalog_entries(
                    connector,
                    physical_modes@,
                    synthetic_modes@,
                    c.preferred_index as int,
                )
            }),
    {
        if physical_modes.len() == 0 {
            return Err(CatalogError::EmptyPhysicalCatalog);
        }
        if preferred_physical_index >= physical_modes.len() {
            return Err(
                CatalogError::PreferredIndexOutOfRange {
                    index: preferred_physical_index,
                    len: physical_modes.len(),
                },
            );
        }
        let ghost cands = candidate_entries(connector, physical_modes@, synthetic_modes@);
        let preferred_key = ModeKey::new(
            connector,
            &physical_modes[preferred_physical_index].timing,
        );
        let mut entries: Vec<CatalogEntry<M>> = Vec::new();
        let mut i: usize = 0;
        assert(cands.take(0) =~= seq![]);
        while i < physical_modes.len()
            invariant
                0 <= i <= physical_modes@.len(),
                cands == candidate_entries(connector, physical_modes@, synthetic_modes@),
                entries@ == first_of_each_key(cands.take(i as int)),
            decreases physical_modes@.len() - i,
        {
            let key = ModeKey::new(connector, &physical_modes[i].timing);
            let found = position_of_key(&entries, key);
            assert(cands.take(i + 1).drop_last() =~= cands.take(i as int));
            assert(cands.take(i + 1).last() == cands[i as int]);
            if found.is_none() {
                entries.push(
                    CatalogEntry {
                        key,
                        advertised_mode: normalize_advertised_mode(
                            &physical_modes[i].timing,
                            false,
                        ),
                        route: CatalogRoute::Exact(physical_modes[i].mode),
                    },
                );
            }
            i = i + 1;
        }
        let ghost np = physical_modes@.len() as int;
        let mut j: usize = 0;
        while j < synthetic_modes.len()
            invariant
                0 <= j <= synthetic_modes@.len(),
                np == physical_modes@.len(),
                cands == candidate_entries(connector, physical_modes@, synthetic_modes@),
                entries@ == first_of_each_key(cands.take(np + j)),
            decreases synthetic_modes@.len() - j,
        {
            let key = ModeKey::new(connector, &synthetic_modes[j]);
            let found = position_of_key(&entries, key);
            assert(cands.take(np + j + 1).drop_last() =~= cands.take(np + j));
            assert(cands.take(np + j + 1).last() == cands[np + j]);
            if found.is_none() {
                entries.push(
                    CatalogEntry {
                        key,
                        advertised_mode: normalize_advertised_mode(&synthetic_modes[j], false),
                        route: CatalogRoute::ScaledFallback,
                    },
                );
            }
            j = j + 1;
        }
        assert(cands.take(np + synthetic_modes@.len()) =~= cands);
        let ghost base = entries@;
        proof {
            lemma_first_of_each_key(cands);
            assert(cands[preferred_physical_index as int].key == preferred_key);
        }
        let preferred_index = match position_of_key(&entries, preferred_key) {
            Some(p) => p,
            None => {
                assert(has_key(base, cands[preferred_physical_index as int].key));
                vstd::pervasive::unreached()
            },
        };
        let mut finished: Vec<CatalogEntry<M>> = Vec::new();
        let mut k: usize = 0;
        while k < entries.len()
            invariant
                0 <= k <= entries@.len(),
                entries@ == base,
                preferred_index < base.len(),
                finished@.len() == k,
                forall|t: int|
                    0 <= t < k ==> #[trigger] finished@[t] == (CatalogEntry {
                        advertised_mode: normalized(
                            base[t].advertised_mode,
                            t == preferred_index,
                        ),
                        ..base[t]
                    }),
            decreases entries@.len() - k,
        {
            let e = &entries[k];
            finished.push(
                CatalogEntry {
                    key: e.key,
                    advertised_mode: normalize_advertised_mode(
                        &e.advertised_mode,
                        k == preferred_index,
                    ),
                    route: e.route,
                },
            );
            k = k + 1;
        }
        let catalog = RouteCatalog { connector, entries: finished, preferred_index };
        proof {
            let want = catalog_entries(
                connector,
                physical_modes@,
                synthetic_modes@,
                preferred_index as int,
            );
            assert(catalog.entries@ =~= want);
            assert forall|t: int| 0 <= t < catalog.entries@.len() implies is_preferred(
                #[trigger] catalog.entries@[t].advertised_mode,
            ) == (t == preferred_index) by {
                lemma_normalized_preferred(base[t].advertised_mode, t == preferred_index);
            }
            assert forall|a: int, b: int|
                0 <= a < catalog.entries@.len() && 0 <= b < catalog.entries@.len() && a
                    != b implies #[trigger] catalog.entries@[a].key
                != #[trigger] catalog.entries@[b].key by {
                assert(catalog.entries@[a].key == base[a].key);
                assert(catalog.entries@[b].key == base[b].key);
            }
        }
        Ok(catalog)
    }

    /// The connector the catalog describes.
    pub fn connector(&self) -> (r: u8)
        ensures
            r == self.connector,
    {
        self.connector
    }

    /// The entries, in advertised order.
    pub fn entries(&self) -> (r: &[CatalogEntry<M>])
        ensures
            r@ == self.entries@,
    {
        self.entries.as_slice()
    }

    /// The advertised modes, in order.
    pub fn advertised_modes(&self) -> (r: Vec<DisplayMode>)
        ensures
            r@ == self.entries@.map_values(|e: CatalogEntry<M>| e.advertised_mode),
    {
        let mut out: Vec<DisplayMode> = Vec::new();
        let mut i: usize = 0;
        while i < self.entries.len()
            invariant
                0 <= i <= self.entries@.len(),
                out@ == self.entries@.take(i as int).map_values(
                    |e: CatalogEntry<M>| e.advertised_mode,
                ),
            decreases self.entries@.len() - i,
        {
            out.push(self.entries[i].advertised_mode);
            assert(self.entries@.take(i + 1).map_values(|e: CatalogEntry<M>| e.advertised_mode)
                =~= self.entries@.take(i as int).map_values(
                |e: CatalogEntry<M>| e.advertised_mode,
            ).push(self.entries@[i as int].advertised_mode));
            i = i + 1;
        }
        assert(self.entries@.take(self.entries@.len() as int) =~= self.entries@);
        out
    }

    /// The entry advertised as preferred.
    pub fn preferred_entry(&self) -> (r: &CatalogEntry<M>)
        requires
            self.wf(),
        ensures
            *r == self.entries@[self.preferred_index as int],
    {
        &self.entries[self.preferred_index]
    }

    /// The entry with `key`, if any.
    pub fn entry_for_key(&self, key: ModeKey) -> (r: Option<&CatalogEntry<M>>)
        requires
            self.wf(),
        ensures
            match r {
                Some(e) => entry_with_key(self.entries@, key) == Some(*e),
                None => entry_with_key(self.entries@, key) is None,
            },
    {
        match position_of_key(&self.entries, key) {
            Some(i) => {
                proof {
                    let w = choose|t: int|
                        0 <= t < self.entries@.len() && #[trigger] self.entries@[t].key == key;
                    assert(self.entries@[i as int].key == key);
                    assert(w == i);
                }
                Some(&self.entries[i])
            },
            None => None,
        }
    }

    /// The entry for a checked or committed state.
    pub fn entry_for_snapshot(&self, snapshot: &DisplayStateSnapshot) -> (r: Option<
        &CatalogEntry<M>,
    >)
        requires
            self.wf(),
        ensures
            match r {
                Some(e) => entry_with_key(
                    self.entries@,
                    mode_key(snapshot.connector, snapshot.mode),
                ) == Some(*e),
                None => entry_with_key(
                    self.entries@,
                    mode_key(snapshot.connector, snapshot.mode),
                ) is None,
            },
    {
        self.entry_for_key(ModeKey::from_snapshot(snapshot))
    }

    /// The entry for `mode` on the catalog's connector.
    pub fn entry_for_mode(&self, mode: &DisplayMode) -> (r: Option<&CatalogEntry<M>>)
        requires
            self.wf(),
        ensures
            match r {
                Some(e) => entry_with_key(self.entries@, mode_key(self.connector, *mode)) == Some(
                    *e,
                ),
                None => entry_with_key(self.entries@, mode_key(self.connector, *mode)) is None,
            },
    {
        self.entry_for_key(ModeKey::new(self.connector, mode))
    }
}

} // verus!
