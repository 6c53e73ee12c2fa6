//! The render side's snapshot of the parameter records: one uniform buffer
//! per frame, with a slot for every camera.

use vstd::prelude::*;
use crate::registry::SettingsRegistry;
use crate::seq_facts::lemma_index_of_unique;
use crate::settings::RainGlareSettings;
use crate::settings::PACKED_SIZE;

verus! {

/// Why no snapshot could be taken.
#[derive(Clone, Copy, Debug, PartialEq, Eq, Structural)]
pub enum SyncError {
    /// The device reported an offset alignment of zero.
    ZeroAlignment,
    /// The slots of all cameras together pass what a 32-bit offset reaches.
    TooLarge,
}

/// The distance in bytes from one slot to the next: the packed size rounded
/// up to a multiple of the device's offset alignment.
pub open spec fn spec_stride(alignment: u32) -> int
    recommends
        alignment > 0,
{
    ((PACKED_SIZE + alignment - 1) / (alignment as int)) * alignment
}

/// The stride is the least multiple of the alignment that holds a packed
/// record.
pub proof fn lemma_stride_is_least_multiple(alignment: u32)
    requires
        alignment > 0,
    ensures
        spec_stride(alignment) % (alignment as int) == 0,
        spec_stride(alignment) >= PACKED_SIZE,
        spec_stride(alignment) - alignment < PACKED_SIZE,
        alignment >= PACKED_SIZE ==> spec_stride(alignment) == alignment,
{
    let a = alignment as int;
    let x = PACKED_SIZE + a - 1;
    let q = x / a;
    vstd::arithmetic::div_mod::lemma_fundamental_div_mod(x, a);
    vstd::arithmetic::div_mod::lemma_mod_pos_bound(x, a);
    vstd::arithmetic::div_mod::lemma_mod_multiples_basic(q, a);
    assert(a * q == q * a) by (nonlinear_arith);
    if a >= PACKED_SIZE {
        assert(q == 1) by (nonlinear_arith)
            requires
                x == a * q + x % a,
                0 <= x % a < a,
                a <= x < 2 * a,
        ;
    }
}

/// The distance in bytes from one slot to the next, or `None` where the
/// alignment is zero.
pub fn stride_for(alignment: u32) -> (stride: Option<u32>)
    ensures
        stride == if alignment == 0 {
            None
        } else {
            Some(spec_stride(alignment) as u32)
        },
        alignment > 0 ==> spec_stride(alignment) <= u32::MAX,
{
    if alignment == 0 {
        return None;
    }
    proof {
        lemma_stride_is_least_multiple(alignment);
    }
    if alignment >= PACKED_SIZE as u32 {
        Some(alignment)
    } else {
        let q: u32 = (PACKED_SIZE as u32 + alignment - 1) / alignment;
        assert(q * alignment == spec_stride(alignment));
        Some(q * alignment)
    }
}

/// One slot: the packed record, then zeros up to the stride.
pub open spec fn slot_image(s: RainGlareSettings, stride: int) -> Seq<u8>
    recommends
        stride >= PACKED_SIZE,
{
    s.packed() + Seq::new((stride - PACKED_SIZE) as nat, |k: int| 0u8)
}

/// The buffer that holds `records`: one slot after another, in order.
pub open spec fn uniform_image(records: Seq<RainGlareSettings>, stride: int) -> Seq<u8>
    recommends
        stride >= PACKED_SIZE,
    decreases records.len(),
{
    if records.len() == 0 {
        Seq::empty()
    } else {
        uniform_image(records.drop_last(), stride) + slot_image(records.last(), stride)
    }
}

/// The buffer is as long as its slots together.
pub proof fn lemma_image_len(records: Seq<RainGlareSettings>, stride: int)
    requires
        stride >= PACKED_SIZE,
    ensures
        uniform_image(records, stride).len() == records.len() * stride,
    decreases records.len(),
{
    if records.len() > 0 {
        lemma_image_len(records.drop_last(), stride);
        records.last().lemma_packed_len();
        assert((records.len() - 1) * stride + stride == records.len() * stride)
            by (nonlinear_arith);
    }
}

/// Slot `i` of the buffer starts with the packed record `i`.
pub proof fn lemma_image_slot(records: Seq<RainGlareSettings>, stride: int, i: int)
    requires
        stride >= PACKED_SIZE,
        0 <= i < records.len(),
    ensures
        0 <= i * stride,
        i * stride + stride <= uniform_image(records, stride).len(),
        uniform_image(records, stride).subrange(i * stride, i * stride + PACKED_SIZE as int)
            == records[i].packed(),
    decreases records.len(),
{
    let n = records.len() as int;
    let front = uniform_image(records.drop_last(), stride);
    let whole = uniform_image(records, stride);
    lemma_image_len(records.drop_last(), stride);
    lemma_image_len(records, stride);
    records.last().lemma_packed_len();
    assert(0 <= i * stride && i * stride + stride <= n * stride) by (nonlinear_arith)
        requires
            0 <= i < n,
            stride >= 0,
    ;
    if i == n - 1 {
        assert(whole.subrange(i * stride, i * stride + PACKED_SIZE as int) =~= records[i].packed());
    } else {
        lemma_image_slot(records.drop_last(), stride, i);
        assert(i * stride + stride <= (n - 1) * stride) by (nonlinear_arith)
            requires
                0 <= i < n - 1,
                stride >= 0,
        ;
        assert(whole.subrange(i * stride, i * stride + PACKED_SIZE as int) =~= front.subrange(
            i * stride,
            i * stride + PACKED_SIZE as int,
        ));
    }
}

/// The parameter records as the render side sees them for one frame.
pub struct ComponentUniforms {
    stride: u32,
    views: Vec<u64>,
    buffer: Vec<u8>,
}

impl ComponentUniforms {
    /// The distance in bytes from one slot to the next.
    pub closed spec fn stride(&self) -> u32 {
        self.stride
    }

    /// The cameras, in the order of their slots.
    pub closed spec fn views(&self) -> Seq<u64> {
        self.views@
    }

    /// The bytes of the uniform buffer.
    pub closed spec fn bytes(&self) -> Seq<u8> {
        self.buffer@
    }

    /// A slot holds a packed record, no camera has two slots, the buffer is
    /// its slots, and a 32-bit offset reaches all of it.
    pub open spec fn wf(&self) -> bool {
        &&& self.stride() >= PACKED_SIZE
        &&& self.views().no_duplicates()
        &&& self.bytes().len() == self.views().len() * self.stride()
        &&& self.bytes().len() <= u32::MAX
    }

    /// The dynamic offset of camera `view`, if it has a slot.
    pub open spec fn spec_index(&self, view: u64) -> Option<u32> {
        if self.views().contains(view) {
            Some((self.views().index_of(view) * self.stride()) as u32)
        } else {
            None
        }
    }

    /// What a shader bound at `offset` reads, if a packed record's worth of
    /// bytes lies there.
    pub open spec fn spec_read(&self, offset: u32) -> Option<RainGlareSettings> {
        if offset + PACKED_SIZE <= self.bytes().len() {
            Some(RainGlareSettings::decoded(self.bytes(), offset as int))
        } else {
            None
        }
    }

    /// Whether this is the snapshot of `registry` for a device with the
    /// given offset alignment: the same cameras in the same order, and in
    /// each slot the packed record of its camera.
    pub open spec fn is_snapshot_of(&self, registry: &SettingsRegistry, alignment: u32) -> bool {
        &&& self.stride() == spec_stride(alignment)
        &&& self.views() == registry.ids()
        &&& self.bytes() == uniform_image(registry.records(), self.stride() as int)
    }

    /// Copies every record of `registry` into a fresh uniform buffer, one
    /// slot per camera.
    pub fn prepare(registry: &SettingsRegistry, alignment: u32) -> (r: Result<
        ComponentUniforms,
        SyncError,
    >)
        requires
            registry.wf(),
        ensures
            match r {
                Ok(u) => {
                    &&& alignment > 0
                    &&& registry.ids().len() * spec_stride(alignment) <= u32::MAX
                    &&& u.wf()
                    &&& u.is_snapshot_of(registry, alignment)
                },
                Err(SyncError::ZeroAlignment) => alignment == 0,
                Err(SyncError::TooLarge) => alignment > 0 && registry.ids().len() * spec_stride(
                    alignment,
                ) > u32::MAX,
            },
    {
        let stride = match stride_for(alignment) {
            Some(s) => s,
            None => {
                return Err(SyncError::ZeroAlignment);
            },
        };
        proof {
            lemma_stride_is_least_multiple(alignment);
        }
        let n = registry.len();
        let most: u32 = u32::MAX / stride;
        proof {
            let m = most as int;
            let s = stride as int;
            vstd::arithmetic::div_mod::lemma_fundamental_div_mod(u32::MAX as int, s);
            vstd::arithmetic::div_mod::lemma_mod_pos_bound(u32::MAX as int, s);
            if n <= m {
                assert(n * s <= m * s) by (nonlinear_arith)
                    requires
                        0 <= n <= m,
                        s >= 0,
                ;
                assert(s * m == m * s) by (nonlinear_arith);
            } else {
                assert(n * s >= (m + 1) * s) by (nonlinear_arith)
                    requires
                        n >= m + 1,
                        s >= 0,
                ;
                assert((m + 1) * s == s * m + s) by (nonlinear_arith);
            }
        }
        if n > most as usize {
            return Err(SyncError::TooLarge);
        }
        let mut views: Vec<u64> = Vec::new();
        let mut buffer: Vec<u8> = Vec::new();
        let mut i: usize = 0;
        while i < n
            invariant
                registry.wf(),
                n == registry.ids().len(),
                i <= n,
                stride >= PACKED_SIZE,
                views@ == registry.ids().take(i as int),
                buffer@ == uniform_image(registry.records().take(i as int), stride as int),
            decreases n - i,
        {
            let (id, settings) = registry.entry(i);
            let ghost front = buffer@;
            proof {
                settings.lemma_packed_len();
            }
            views.push(id);
            settings.write_to(&mut buffer);
            let mut k: usize = PACKED_SIZE;
            while k < stride as usize
                invariant
                    PACKED_SIZE <= k <= stride,
                    buffer@ == front + settings.packed() + Seq::new(
                        (k - PACKED_SIZE) as nat,
                        |j: int| 0u8,
                    ),
                decreases stride - k,
            {
                buffer.push(0);
                k += 1;
                assert(buffer@ =~= front + settings.packed() + Seq::new(
                    (k - PACKED_SIZE) as nat,
                    |j: int| 0u8,
                ));
            }
            proof {
                let now = registry.records().take(i + 1);
                assert(now.drop_last() =~= registry.records().take(i as int));
                assert(now.last() == settings);
                assert(buffer@ =~= front + slot_image(settings, stride as int));
                assert(views@ =~= registry.ids().take(i + 1));
            }
            i += 1;
        }
        proof {
            assert(registry.ids().take(n as int) =~= registry.ids());
            assert(registry.records().take(n as int) =~= registry.records());
            lemma_image_len(registry.records(), stride as int);
        }
        Ok(ComponentUniforms { stride, views, buffer })
    }

    /// The number of slots.
    pub fn len(&self) -> (n: usize)
        ensures
            n == self.views().len(),
    {
        self.views.len()
    }

    /// The bytes of the uniform buffer, as they are uploaded.
    pub fn buffer(&self) -> (bytes: &Vec<u8>)
        ensures
            bytes@ == self.bytes(),
    {
        &self.buffer
    }

    /// The dynamic offset of camera `view`, if it has a slot.
    pub fn index(&self, view: u64) -> (offset: Option<u32>)
        requires
            self.wf(),
        ensures
            offset == self.spec_index(view),
    {
        let mut i: usize = 0;
        while i < self.views.len()
            invariant
                self.wf(),
                i <= self.views@.len(),
                forall|k: int| 0 <= k < i ==> self.views@[k] != view,
            decreases self.views@.len() - i,
        {
            if self.views[i] == view {
                proof {
                    lemma_index_of_unique(self.views@, i as int);
                    assert(i * self.stride + self.stride <= self.views@.len() * self.stride)
                        by (nonlinear_arith)
                        requires
                            0 <= i < self.views@.len(),
                            self.stride >= 0,
                    ;
                }
                let offset: u64 = (i as u64) * (self.stride as u64);
                return Some(offset as u32);
            }
            i += 1;
        }
        None
    }

    /// What a shader bound at `offset` reads, if a packed record's worth of
    /// bytes lies there.
    pub fn read(&self, offset: u32) -> (r: Option<RainGlareSettings>)
        ensures
            r == self.spec_read(offset),
    {
        let at = offset as usize;
        if self.buffer.len() < PACKED_SIZE || at > self.buffer.len() - PACKED_SIZE {
            return None;
        }
        RainGlareSettings::read_from(self.buffer.as_slice(), at)
    }

    /// What is copied at the barrier is what is read after it: the slot of
    /// a camera holds the record the camera had when the snapshot was taken,
    /// bit for bit.
    pub proof fn lemma_snapshot_is_current(&self, registry: &SettingsRegistry, alignment: u32, id: u64)
        requires
            registry.wf(),
            self.wf(),
            self.is_snapshot_of(registry, alignment),
            registry.ids().contains(id),
        ensures
            self.spec_index(id) is Some,
            self.spec_index(id).unwrap() == registry.ids().index_of(id) * self.stride(),
            self.spec_read(self.spec_index(id).unwrap()) == registry.spec_get(id),
    {
        let i = registry.ids().index_of(id);
        let stride = self.stride() as int;
        assert(registry.ids()[i] == id);
        lemma_image_slot(registry.records(), stride, i);
        registry.records()[i].lemma_decoded_of_packed(self.bytes(), i * stride);
    }

    /// Two cameras of one snapshot have slots that share no byte, and each
    /// slot reads as its own camera's record.
    pub proof fn lemma_instances_isolated(
        &self,
        registry: &SettingsRegistry,
        alignment: u32,
        a: u64,
        b: u64,
    )
        requires
            registry.wf(),
            self.wf(),
            self.is_snapshot_of(registry, alignment),
            registry.ids().contains(a),
            registry.ids().contains(b),
            a != b,
        ensures
            self.spec_index(a) is Some,
            self.spec_index(b) is Some,
            self.spec_index(a).unwrap() + PACKED_SIZE <= self.spec_index(b).unwrap()
                || self.spec_index(b).unwrap() + PACKED_SIZE <= self.spec_index(a).unwrap(),
            self.spec_read(self.spec_index(a).unwrap()) == registry.spec_get(a),
            self.spec_read(self.spec_index(b).unwrap()) == registry.spec_get(b),
    {
        self.lemma_snapshot_is_current(registry, alignment, a);
        self.lemma_snapshot_is_current(registry, alignment, b);
        let i = registry.ids().index_of(a);
        let j = registry.ids().index_of(b);
        let stride = self.stride() as int;
        assert(registry.ids()[i] == a);
        assert(registry.ids()[j] == b);
        if i < j {
            assert(i * stride + stride <= j * stride) by (nonlinear_arith)
                requires
                    0 <= i < j,
                    stride >= 0,
            ;
        } else {
            assert(j * stride + stride <= i * stride) by (nonlinear_arith)
                requires
                    0 <= j < i,
                    stride >= 0,
            ;
        }
    }
}

} // verus!
