//! The block-device inventory: the device tree a disk listing reports,
//! the derived byte size of a device, the busy predicate, and the two
//! selection queries (device mounted at a path, biggest unmounted device).

use vstd::prelude::*;
use crate::text;
use vstd::arithmetic::div_mod::lemma_fundamental_div_mod;
use vstd::arithmetic::mul::lemma_mul_inequality;

verus! {

/// One block device from the disk listing.  A disk may carry partition
/// children; a mountpoint entry may be absent (a device attached nowhere).
pub struct BlockDevice {
    pub name: String,
    pub majmin: String,
    pub rm: bool,
    pub size: String,
    pub ro: bool,
    pub blocktype: String,
    pub mountpoints: Vec<Option<String>>,
    pub children: Option<Vec<BlockDevice>>,
}

/// The parsed disk listing: every top-level device, in listing order.
pub struct LsBlkOutput {
    pub blockdevices: Vec<BlockDevice>,
}

/// The denoted value of a digit run, or 0 when it does not parse.
pub open spec fn parse_or_zero(s: Seq<char>) -> u64 {
    match text::parse_u64_seq(s) {
        Some(v) => v,
        None => 0,
    }
}

/// `a * m`, saturating at the largest representable size.
pub open spec fn scale_sat(a: u64, m: int) -> u64 {
    if a * m <= u64::MAX {
        (a * m) as u64
    } else {
        u64::MAX
    }
}

/// The derived byte count of a size report: a single trailing `T`, `G`,
/// `M` or `K` (case-sensitive) scales the numeric prefix by the binary
/// unit; an unsuffixed value counts as plain bytes; anything unparsable —
/// a repeated or misplaced unit letter included — counts as 0 bytes, and
/// a size too large to represent saturates.
pub open spec fn size_bytes_spec(s: Seq<char>) -> u64 {
    if s.len() > 0 && s.last() == 'T' {
        scale_sat(parse_or_zero(s.drop_last()), (1024 * 1024 * 1024 * 1024) as int)
    } else if s.len() > 0 && s.last() == 'G' {
        scale_sat(parse_or_zero(s.drop_last()), (1024 * 1024 * 1024) as int)
    } else if s.len() > 0 && s.last() == 'M' {
        scale_sat(parse_or_zero(s.drop_last()), (1024 * 1024) as int)
    } else if s.len() > 0 && s.last() == 'K' {
        scale_sat(parse_or_zero(s.drop_last()), 1024 as int)
    } else {
        parse_or_zero(s)
    }
}

fn parse_or_zero_exec(s: &str) -> (r: u64)
    ensures
        r == parse_or_zero(s@),
{
    match text::parse_u64(s) {
        Some(v) => v,
        None => 0,
    }
}

fn scale_exec(num: u64, m: u64) -> (r: u64)
    requires
        m >= 1,
    ensures
        r == scale_sat(num, m as int),
{
    let q = u64::MAX / m;
    proof {
        lemma_fundamental_div_mod(u64::MAX as int, m as int);
    }
    if num <= q {
        proof {
            lemma_mul_inequality(num as int, q as int, m as int);
        }
        num * m
    } else {
        proof {
            lemma_mul_inequality(q as int + 1, num as int, m as int);
            assert((q as int + 1) * (m as int) == q as int * m as int + m) by (nonlinear_arith);
        }
        u64::MAX
    }
}

impl BlockDevice {
    /// The device has at least one partition child.
    pub open spec fn has_children_spec(self) -> bool {
        match self.children {
            Some(c) => c@.len() > 0,
            None => false,
        }
    }

    /// A device is ineligible for auto-selection unless it is a whole disk,
    /// unpartitioned, with zero mountpoints or exactly one absent one.
    pub open spec fn is_busy_spec(self) -> bool {
        !(self.blocktype@ == "disk"@ && !self.has_children_spec() && (self.mountpoints@.len() == 0
            || (self.mountpoints@.len() == 1 && self.mountpoints@[0] is None)))
    }

    fn has_children(&self) -> (r: bool)
        ensures
            r == self.has_children_spec(),
    {
        match &self.children {
            Some(c) => c.len() > 0,
            None => false,
        }
    }

    /// The derived byte count of this device's size report.
    pub fn size(&self) -> (r: u64)
        ensures
            r == size_bytes_spec(self.size@),
    {
        let s = self.size.as_str();
        let n = s.unicode_len();
        if n > 0 {
            let last = s.get_char(n - 1);
            let prefix = s.substring_char(0, n - 1);
            proof {
                assert(prefix@ =~= s@.drop_last());
            }
            if last == 'T' {
                return scale_exec(parse_or_zero_exec(prefix), 1024 * 1024 * 1024 * 1024);
            }
            if last == 'G' {
                return scale_exec(parse_or_zero_exec(prefix), 1024 * 1024 * 1024);
            }
            if last == 'M' {
                return scale_exec(parse_or_zero_exec(prefix), 1024 * 1024);
            }
            if last == 'K' {
                return scale_exec(parse_or_zero_exec(prefix), 1024);
            }
        }
        parse_or_zero_exec(s)
    }

    /// Whether the device is ineligible for auto-mount selection.
    pub fn is_busy(&self) -> (r: bool)
        ensures
            r == self.is_busy_spec(),
    {
        if !text::str_eq(self.blocktype.as_str(), "disk") || self.has_children() {
            return true;
        }
        if self.mountpoints.len() == 0 {
            return false;
        }
        if self.mountpoints.len() == 1 {
            if self.mountpoints[0].is_none() {
                return false;
            }
        }
        true
    }
}

/// The device reports a mountpoint equal to `to`.
pub open spec fn device_mounted_at(d: BlockDevice, to: Seq<char>) -> bool {
    exists|k: int|
        0 <= k < d.mountpoints@.len() && ((#[trigger] d.mountpoints@[k]) matches Some(p) && p@
            == to)
}

/// Index of the first device mounted at `to`, or -1 if there is none.
pub open spec fn mounted_at_index(devs: Seq<BlockDevice>, to: Seq<char>) -> int
    decreases devs.len(),
{
    if devs.len() == 0 {
        -1
    } else if device_mounted_at(devs[0], to) {
        0
    } else if mounted_at_index(devs.drop_first(), to) == -1 {
        -1
    } else {
        1 + mounted_at_index(devs.drop_first(), to)
    }
}

pub proof fn lemma_mounted_at_index(devs: Seq<BlockDevice>, to: Seq<char>)
    ensures
        mounted_at_index(devs, to) == -1 ==> forall|j: int|
            0 <= j < devs.len() ==> !device_mounted_at(devs[j], to),
        mounted_at_index(devs, to) != -1 ==> 0 <= mounted_at_index(devs, to) < devs.len()
            && device_mounted_at(devs[mounted_at_index(devs, to)], to)
            && forall|j: int| 0 <= j < mounted_at_index(devs, to) ==> !device_mounted_at(devs[j], to),
    decreases devs.len(),
{
    if devs.len() > 0 && !device_mounted_at(devs[0], to) {
        lemma_mounted_at_index(devs.drop_first(), to);
        assert(forall|j: int| 1 <= j < devs.len() ==> devs[j] == devs.drop_first()[j - 1]);
    }
}

pub proof fn lemma_mounted_at_index_is(devs: Seq<BlockDevice>, to: Seq<char>, i: int)
    requires
        0 <= i < devs.len(),
        device_mounted_at(devs[i], to),
        forall|j: int| 0 <= j < i ==> !device_mounted_at(devs[j], to),
    ensures
        mounted_at_index(devs, to) == i,
    decreases devs.len(),
{
    if i > 0 {
        assert(forall|j: int| 0 <= j < i - 1 ==> devs.drop_first()[j] == devs[j + 1]);
        lemma_mounted_at_index_is(devs.drop_first(), to, i - 1);
    }
}

/// The winning index of the biggest-unmounted scan: not busy, strictly
/// bigger than every eligible device before it, at least as big as every
/// eligible device after it — so the first listed among ties.
pub open spec fn is_biggest_pick(devs: Seq<BlockDevice>, i: int) -> bool {
    0 <= i < devs.len() && !devs[i].is_busy_spec() && (forall|j: int|
        0 <= j < i && !devs[j].is_busy_spec() ==> size_bytes_spec(devs[j].size@) < size_bytes_spec(
            devs[i].size@,
        )) && (forall|j: int|
        i < j < devs.len() && !devs[j].is_busy_spec() ==> size_bytes_spec(devs[j].size@)
            <= size_bytes_spec(devs[i].size@))
}

impl LsBlkOutput {
    /// Scans every top-level device for a mountpoint equal to `to`; first
    /// match in listing order wins.
    pub fn get_mounted_to<'a>(&'a self, to: String) -> (r: Option<&'a BlockDevice>)
        ensures
            (r is None) <==> mounted_at_index(self.blockdevices@, to@) == -1,
            r matches Some(d) ==> *d == self.blockdevices@[mounted_at_index(
                self.blockdevices@,
                to@,
            )],
    {
        let n = self.blockdevices.len();
        let mut i: usize = 0;
        while i < n
            invariant
                i <= n,
                n == self.blockdevices@.len(),
                forall|j: int| 0 <= j < i ==> !device_mounted_at(self.blockdevices@[j], to@),
            decreases n - i,
        {
            let d = &self.blockdevices[i];
            let m = d.mountpoints.len();
            let mut k: usize = 0;
            while k < m
                invariant
                    k <= m,
                    m == d.mountpoints@.len(),
                    i < n,
                    n == self.blockdevices@.len(),
                    *d == self.blockdevices@[i as int],
                    forall|l: int|
                        0 <= l < k ==> !((#[trigger] d.mountpoints@[l]) matches Some(p) && p@
                            == to@),
                    forall|j: int| 0 <= j < i ==> !device_mounted_at(self.blockdevices@[j], to@),
                decreases m - k,
            {
                match &d.mountpoints[k] {
                    Some(p) => {
                        if text::str_eq(p.as_str(), to.as_str()) {
                            proof {
                                assert(device_mounted_at(self.blockdevices@[i as int], to@));
                                lemma_mounted_at_index_is(self.blockdevices@, to@, i as int);
                            }
                            return Some(d);
                        }
                    },
                    None => {},
                }
                k = k + 1;
            }
            proof {
                assert(!device_mounted_at(self.blockdevices@[i as int], to@));
            }
            i = i + 1;
        }
        proof {
            lemma_mounted_at_index(self.blockdevices@, to@);
        }
        None
    }

    /// Filters out busy devices and returns the one with the largest
    /// derived byte size, the first listed among ties, or nothing when
    /// every device is busy.
    pub fn get_biggest_unmounted<'a>(&'a self) -> (r: Option<&'a BlockDevice>)
        ensures
            (r is None) <==> (forall|j: int|
                0 <= j < self.blockdevices@.len() ==> self.blockdevices@[j].is_busy_spec()),
            r matches Some(d) ==> exists|i: int|
                is_biggest_pick(self.blockdevices@, i) && *d == self.blockdevices@[i],
    {
        let n = self.blockdevices.len();
        let mut best: Option<usize> = None;
        let mut i: usize = 0;
        while i < n
            invariant
                i <= n,
                n == self.blockdevices@.len(),
                best is None ==> forall|j: int|
                    0 <= j < i ==> self.blockdevices@[j].is_busy_spec(),
                best matches Some(b) ==> 0 <= b < i
                    && !self.blockdevices@[b as int].is_busy_spec()
                    && (forall|j: int|
                        0 <= j < b && !self.blockdevices@[j].is_busy_spec()
                            ==> size_bytes_spec(self.blockdevices@[j].size@) < size_bytes_spec(
                                self.blockdevices@[b as int].size@,
                            ))
                    && (forall|j: int|
                        b < j < i && !self.blockdevices@[j].is_busy_spec()
                            ==> size_bytes_spec(self.blockdevices@[j].size@) <= size_bytes_spec(
                                self.blockdevices@[b as int].size@,
                            )),
            decreases n - i,
        {
            if !self.blockdevices[i].is_busy() {
                match best {
                    None => {
                        best = Some(i);
                    },
                    Some(b) => {
                        if self.blockdevices[i].size() > self.blockdevices[b].size() {
                            best = Some(i);
                        }
                    },
                }
            }
            i = i + 1;
        }
        match best {
            None => None,
            Some(b) => {
                proof {
                    assert(is_biggest_pick(self.blockdevices@, b as int));
                }
                Some(&self.blockdevices[b])
            },
        }
    }
}

/// The pick of `get_biggest_unmounted` is unique: over a fixed device set
/// the query is deterministic.
pub proof fn lemma_biggest_pick_unique(devs: Seq<BlockDevice>, i1: int, i2: int)
    requires
        is_biggest_pick(devs, i1),
        is_biggest_pick(devs, i2),
    ensures
        i1 == i2,
{
    if i1 < i2 {
        assert(size_bytes_spec(devs[i2].size@) <= size_bytes_spec(devs[i1].size@));
        assert(size_bytes_spec(devs[i1].size@) < size_bytes_spec(devs[i2].size@));
    }
    if i2 < i1 {
        assert(size_bytes_spec(devs[i1].size@) <= size_bytes_spec(devs[i2].size@));
        assert(size_bytes_spec(devs[i2].size@) < size_bytes_spec(devs[i1].size@));
    }
}

/// Among eligible devices tied at the winning size, the pick is the
/// first-listed one.
pub proof fn lemma_biggest_pick_first_of_ties(devs: Seq<BlockDevice>, i: int, j: int)
    requires
        is_biggest_pick(devs, i),
        0 <= j < devs.len(),
        !devs[j].is_busy_spec(),
        size_bytes_spec(devs[j].size@) == size_bytes_spec(devs[i].size@),
        j != i,
    ensures
        j > i,
{
}

} // verus!
