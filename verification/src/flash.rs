//! What the firmware keeps in flash: a node configuration section holding
//! the CANopen node ID, and a section of persisted object values. The flash
//! driver loads the sections in the order they are stored; the functions here
//! decide what is taken from them.
use vstd::prelude::*;

verus! {

/// First of the two flash pages that hold the persisted sections.
pub const PERSIST_PAGE_A: usize = 124;

/// Second of the two flash pages that hold the persisted sections.
pub const PERSIST_PAGE_B: usize = 126;

/// Flash bank of the two persist pages.
pub const PERSIST_BANK: usize = 2;

/// Node ID used when flash holds no valid one.
pub const DEFAULT_NODE_ID: u8 = 10;

/// The kind of a stored section, named by its one-byte section ID.
#[derive(Clone, Copy, Debug, PartialEq, Eq, Structural)]
pub enum FlashSection {
    /// ID 1: the node configuration (one byte, the node ID).
    NodeConfig,
    /// ID 2: the persisted object values.
    Objects,
    /// Any other ID.
    Unknown,
}

impl FlashSection {
    /// The section that an ID names.
    pub open spec fn spec_from_id(value: u8) -> FlashSection {
        if value == 1 {
            FlashSection::NodeConfig
        } else if value == 2 {
            FlashSection::Objects
        } else {
            FlashSection::Unknown
        }
    }

    /// The ID written for a section: 1, 2, and 255 for `Unknown`.
    pub open spec fn spec_id(self) -> u8 {
        match self {
            FlashSection::NodeConfig => 1,
            FlashSection::Objects => 2,
            FlashSection::Unknown => 255,
        }
    }

    pub fn id(self) -> (r: u8)
        ensures
            r == self.spec_id(),
    {
        match self {
            FlashSection::NodeConfig => 1,
            FlashSection::Objects => 2,
            FlashSection::Unknown => 255,
        }
    }
}

impl From<u8> for FlashSection {
    fn from(value: u8) -> (r: FlashSection) {
        if value == 1 {
            FlashSection::NodeConfig
        } else if value == 2 {
            FlashSection::Objects
        } else {
            FlashSection::Unknown
        }
    }
}

impl vstd::std_specs::convert::FromSpecImpl<u8> for FlashSection {
    open spec fn obeys_from_spec() -> bool {
        true
    }

    open spec fn from_spec(value: u8) -> FlashSection {
        FlashSection::spec_from_id(value)
    }
}

/// Reading back the ID of a section names the same section.
pub proof fn lemma_section_id_round_trip(s: FlashSection, value: u8)
    ensures
        FlashSection::spec_from_id(s.spec_id()) == s,
        FlashSection::spec_from_id(value) != FlashSection::Unknown ==> FlashSection::spec_from_id(
            value,
        ).spec_id() == value,
{
}

/// Section IDs, written out: 1 is the node configuration, 2 the object
/// values, every other ID is unknown.
pub proof fn lemma_section_ids(value: u8)
    ensures
        (FlashSection::spec_from_id(value) == FlashSection::NodeConfig) <==> value == 1,
        (FlashSection::spec_from_id(value) == FlashSection::Objects) <==> value == 2,
        (FlashSection::spec_from_id(value) == FlashSection::Unknown) <==> (value != 1 && value
            != 2),
        FlashSection::NodeConfig.spec_id() == 1,
        FlashSection::Objects.spec_id() == 2,
{
}

/// A section as the flash driver hands it out.
#[derive(Debug)]
pub struct StoredSection {
    pub section_id: u8,
    pub data: Vec<u8>,
}

/// Whether `raw` is a CANopen node ID: 1 to 127 for a configured node, or
/// 255 for an unconfigured one.
pub open spec fn valid_node_id(raw: u8) -> bool {
    raw == 255 || (1 <= raw && raw <= 127)
}

/// Calls `zencan_node::common::NodeId::new`. Its source accepts 255 and the
/// values 1 to 127 and returns `InvalidNodeIdError` for every other value; the
/// contract claims exactly that.
#[verifier::external_body]
fn node_id_accepts(raw: u8) -> (r: bool)
    ensures
        r == valid_node_id(raw),
{
    match zencan_node::common::NodeId::new(raw) {
        Ok(_) => true,
        Err(_) => false,
    }
}

/// Whether `raw` is a CANopen node ID, as the CANopen stack decides it.
pub fn is_valid_node_id(raw: u8) -> (r: bool)
    ensures
        r == valid_node_id(raw),
{
    node_id_accepts(raw)
}

/// Whether a stored section yields a node ID: a node configuration section
/// whose first byte is a valid node ID.
pub open spec fn yields_node_id(s: StoredSection) -> bool {
    &&& FlashSection::spec_from_id(s.section_id) == FlashSection::NodeConfig
    &&& s.data@.len() > 0
    &&& valid_node_id(s.data@[0])
}

/// The node ID that the stored sections give: the first byte of the first
/// section that yields one, or `default` if none does.
pub open spec fn saved_node_id(secs: Seq<StoredSection>, default: u8) -> u8
    decreases secs.len(),
{
    if secs.len() == 0 {
        default
    } else if yields_node_id(secs[0]) {
        secs[0].data@[0]
    } else {
        saved_node_id(secs.drop_first(), default)
    }
}

/// A node ID that the stored sections give is a valid one, or the default.
pub proof fn lemma_saved_node_id_valid(secs: Seq<StoredSection>, default: u8)
    ensures
        valid_node_id(saved_node_id(secs, default)) || saved_node_id(secs, default) == default,
    decreases secs.len(),
{
    if secs.len() > 0 && !yields_node_id(secs[0]) {
        lemma_saved_node_id_valid(secs.drop_first(), default);
    }
}

/// Whether a section carries a node ID, written out: section ID 1, at least
/// one data byte, and a first byte of 1 to 127 or 255.
pub open spec fn carries_node_id(s: StoredSection) -> bool {
    s.section_id == 1 && s.data@.len() > 0 && (s.data@[0] == 255 || (1 <= s.data@[0]
        && s.data@[0] <= 127))
}

/// The saved node ID is the first byte of the first section that carries
/// one, whatever follows that section.
pub proof fn lemma_saved_node_id_first(secs: Seq<StoredSection>, default: u8, k: int)
    requires
        0 <= k < secs.len(),
        carries_node_id(secs[k]),
        forall|j: int| 0 <= j < k ==> !carries_node_id(#[trigger] secs[j]),
    ensures
        saved_node_id(secs, default) == secs[k].data@[0],
    decreases k,
{
    if k > 0 {
        assert(!carries_node_id(secs[0]));
        let rest = secs.drop_first();
        assert forall|j: int| 0 <= j < k - 1 implies !carries_node_id(#[trigger] rest[j]) by {
            assert(rest[j] == secs[j + 1]);
        }
        assert(rest[k - 1] == secs[k]);
        lemma_saved_node_id_first(rest, default, k - 1);
    }
}

/// When no section carries a node ID, the saved node ID is the default.
pub proof fn lemma_saved_node_id_default(secs: Seq<StoredSection>, default: u8)
    requires
        forall|j: int| 0 <= j < secs.len() ==> !carries_node_id(#[trigger] secs[j]),
    ensures
        saved_node_id(secs, default) == default,
    decreases secs.len(),
{
    if secs.len() > 0 {
        assert(!carries_node_id(secs[0]));
        let rest = secs.drop_first();
        assert forall|j: int| 0 <= j < rest.len() implies !carries_node_id(#[trigger] rest[j]) by {
            assert(rest[j] == secs[j + 1]);
        }
        lemma_saved_node_id_default(rest, default);
    }
}

/// Sections after one that carries a node ID never change the saved node ID.
pub proof fn lemma_saved_node_id_ignores_tail(
    secs: Seq<StoredSection>,
    tail: Seq<StoredSection>,
    default: u8,
    k: int,
)
    requires
        0 <= k < secs.len(),
        carries_node_id(secs[k]),
    ensures
        saved_node_id(secs + tail, default) == saved_node_id(secs, default),
    decreases k,
{
    if carries_node_id(secs[0]) {
        assert((secs + tail)[0] == secs[0]);
    } else {
        assert((secs + tail)[0] == secs[0]);
        assert((secs + tail).drop_first() =~= secs.drop_first() + tail);
        assert(secs.drop_first()[k - 1] == secs[k]);
        lemma_saved_node_id_ignores_tail(secs.drop_first(), tail, default, k - 1);
    }
}

/// The node ID to start with: the one in the first node configuration
/// section that holds a valid ID, else `default` (also when flash holds no
/// sections at all). Sections that are empty or hold an invalid ID are
/// passed over.
pub fn read_saved_node_id(sections: Option<&[StoredSection]>, default: u8) -> (r: u8)
    ensures
        r == (match sections {
            None => default,
            Some(secs) => saved_node_id(secs@, default),
        }),
{
    let secs = match sections {
        None => {
            return default;
        },
        Some(secs) => secs,
    };
    let mut i: usize = 0;
    assert(secs@.subrange(0, secs@.len() as int) =~= secs@);
    while i < secs.len()
        invariant
            sections == Some(secs),
            i <= secs@.len(),
            saved_node_id(secs@, default) == saved_node_id(
                secs@.subrange(i as int, secs@.len() as int),
                default,
            ),
        decreases secs@.len() - i,
    {
        let ghost rest = secs@.subrange(i as int, secs@.len() as int);
        assert(rest[0] == secs@[i as int]);
        assert(rest.drop_first() =~= secs@.subrange(i as int + 1, secs@.len() as int));
        let section = &secs[i];
        let kind = FlashSection::from(section.section_id);
        assert(kind == FlashSection::spec_from_id(rest[0].section_id));
        if kind == FlashSection::NodeConfig {
            if section.data.len() > 0 {
                let raw = section.data[0];
                if is_valid_node_id(raw) {
                    assert(yields_node_id(rest[0]));
                    return raw;
                }
            }
        }
        i = i + 1;
    }
    assert(secs@.subrange(i as int, secs@.len() as int) =~= Seq::<StoredSection>::empty());
    default
}

/// Whether a stored section holds persisted object values.
pub open spec fn is_objects_section(s: StoredSection) -> bool {
    FlashSection::spec_from_id(s.section_id) == FlashSection::Objects
}

/// The sections restored into the object dictionary are exactly those with
/// section ID 2.
pub proof fn lemma_objects_section_id(s: StoredSection)
    ensures
        is_objects_section(s) <==> s.section_id == 2,
{
}

/// The positions, in storage order, of the sections whose data is restored
/// into the object dictionary: every objects section, each once. Node
/// configuration and unknown sections are skipped. Nothing is restored when
/// flash holds no sections.
pub fn read_persisted_objects(sections: Option<&[StoredSection]>) -> (r: Vec<usize>)
    ensures
        sections is None ==> r@.len() == 0,
        sections matches Some(secs) ==> {
            &&& forall|k: int|
                0 <= k < r@.len() ==> r@[k] < secs@.len() && is_objects_section(
                    #[trigger] secs@[r@[k] as int],
                )
            &&& forall|k1: int, k2: int| 0 <= k1 < k2 < r@.len() ==> r@[k1] < r@[k2]
            &&& forall|j: int|
                0 <= j < secs@.len() && is_objects_section(#[trigger] secs@[j]) ==> exists|k: int|
                    0 <= k < r@.len() && r@[k] == j
        },
{
    let mut out: Vec<usize> = Vec::new();
    let secs = match sections {
        None => {
            return out;
        },
        Some(secs) => secs,
    };
    let mut i: usize = 0;
    while i < secs.len()
        invariant
            i <= secs@.len(),
            forall|k: int|
                #![trigger out@[k]]
                0 <= k < out@.len() ==> out@[k] < i && is_objects_section(secs@[out@[k] as int]),
            forall|k1: int, k2: int| 0 <= k1 < k2 < out@.len() ==> out@[k1] < out@[k2],
            forall|j: int|
                0 <= j < i && is_objects_section(#[trigger] secs@[j]) ==> exists|k: int|
                    0 <= k < out@.len() && out@[k] == j,
        decreases secs@.len() - i,
    {
        let kind = FlashSection::from(secs[i].section_id);
        assert(kind == FlashSection::spec_from_id(secs@[i as int].section_id));
        let ghost before = out@;
        if kind == FlashSection::Objects {
            out.push(i);
            assert(out@ == before.push(i));
            assert(is_objects_section(secs@[i as int]));
            assert forall|k: int| 0 <= k < out@.len() implies out@[k] < i + 1 && is_objects_section(
                #[trigger] secs@[out@[k] as int],
            ) by {
                if k < before.len() {
                    assert(out@[k] == before[k]);
                }
            }
            assert forall|k1: int, k2: int| 0 <= k1 < k2 < out@.len() implies out@[k1] < out@[k2] by {
                if k2 < before.len() {
                    assert(out@[k2] == before[k2]);
                }
                assert(out@[k1] == before[k1]);
            }
            assert forall|j: int|
                0 <= j < i + 1 && is_objects_section(#[trigger] secs@[j]) implies exists|k: int|
                0 <= k < out@.len() && out@[k] == j by {
                if j < i {
                    let k0 = choose|k: int| 0 <= k < before.len() && before[k] == j;
                    assert(out@[k0] == j);
                } else {
                    assert(out@[before.len() as int] == j);
                }
            }
        } else {
            assert forall|j: int|
                0 <= j < i + 1 && is_objects_section(#[trigger] secs@[j]) implies exists|k: int|
                0 <= k < out@.len() && out@[k] == j by {
                assert(j < i);
            }
        }
        i = i + 1;
    }
    out
}

} // verus!
