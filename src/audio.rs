use vstd::prelude::*;

verus! {

/// Shape of the hardware audio ring: its rate, the bytes of one sample-frame
/// (all channels of one instant, 16-bit each) and its size in bytes.
#[derive(Clone, Copy, Debug, PartialEq, Eq, Structural)]
pub struct AudioRingGeometry {
    pub samples_per_second: u32,
    pub bytes_per_sample: u32,
    pub total_bytes: u32,
}

impl AudioRingGeometry {
    /// A usable ring: frames of whole 16-bit values, and room for bytes.
    pub open spec fn wf(&self) -> bool {
        &&& self.bytes_per_sample > 0
        &&& self.bytes_per_sample % 2 == 0
        &&& self.total_bytes > 0
    }

    /// Number of 16-bit values in one sample-frame.
    pub open spec fn values_per_frame(&self) -> int {
        (self.bytes_per_sample / 2) as int
    }

    /// Checks a geometry before the frame loop starts; a zero or odd frame
    /// size and an empty ring are refused.
    pub fn new(samples_per_second: u32, bytes_per_sample: u32, total_bytes: u32) -> (r: Option<
        AudioRingGeometry,
    >)
        ensures
            r is Some <==> (bytes_per_sample > 0 && bytes_per_sample % 2 == 0 && total_bytes > 0),
            r matches Some(g) ==> g.wf() && g == (AudioRingGeometry {
                samples_per_second,
                bytes_per_sample,
                total_bytes,
            }),
    {
        if bytes_per_sample == 0 || bytes_per_sample % 2 != 0 || total_bytes == 0 {
            None
        } else {
            Some(AudioRingGeometry { samples_per_second, bytes_per_sample, total_bytes })
        }
    }
}

/// How many sample-frames have been written into the ring since the stream
/// started, modulo 2^32. It alone decides where the next write begins.
#[derive(Clone, Copy, Debug, PartialEq, Eq, Structural)]
pub struct AudioSyncState {
    pub running_sample_index: u32,
}

/// The byte range of the ring to fill this tick, as an offset and a length
/// that may run past the end of the ring and on from its start.
#[derive(Clone, Copy, Debug, PartialEq, Eq, Structural)]
pub struct WriteRegionPlan {
    pub lock_offset: u32,
    pub lock_length: u32,
}

/// One contiguous byte range of the ring.
#[derive(Clone, Copy, Debug, PartialEq, Eq, Structural)]
pub struct WriteRegion {
    pub offset: u32,
    pub length: u32,
}

/// Ring offset of the next unwritten sample-frame.
pub open spec fn lock_offset_of(g: AudioRingGeometry, running_sample_index: u32) -> int {
    (running_sample_index * g.bytes_per_sample) % (g.total_bytes as int)
}

/// Ring offset the write frontier should reach: the play cursor plus the
/// target latency.
pub open spec fn target_cursor_of(g: AudioRingGeometry, play_cursor_bytes: u32, latency: u32) -> int {
    (play_cursor_bytes + latency * g.bytes_per_sample) % (g.total_bytes as int)
}

/// Bytes from `lock_offset` forward to `target_cursor`, going round the end
/// of the ring when the target lies behind the offset.
pub open spec fn lock_length_of(lock_offset: int, target_cursor: int, total_bytes: int) -> int {
    if lock_offset > target_cursor {
        (total_bytes - lock_offset) + target_cursor
    } else {
        target_cursor - lock_offset
    }
}

/// Plans this tick's write: from where the last write ended up to the target
/// latency ahead of the hardware play cursor.
pub fn plan_write(
    geometry: &AudioRingGeometry,
    sync_state: &AudioSyncState,
    play_cursor_bytes: u32,
    target_latency_sample_frames: u32,
) -> (r: WriteRegionPlan)
    requires
        geometry.wf(),
    ensures
        r.lock_offset == lock_offset_of(*geometry, sync_state.running_sample_index),
        r.lock_length == lock_length_of(
            lock_offset_of(*geometry, sync_state.running_sample_index),
            target_cursor_of(*geometry, play_cursor_bytes, target_latency_sample_frames),
            geometry.total_bytes as int,
        ),
        r.lock_offset < geometry.total_bytes,
        r.lock_length < geometry.total_bytes,
        (r.lock_offset + r.lock_length) % (geometry.total_bytes as int) == target_cursor_of(
            *geometry,
            play_cursor_bytes,
            target_latency_sample_frames,
        ),
{
    let total = geometry.total_bytes as u64;
    let bps = geometry.bytes_per_sample as u64;
    let index = sync_state.running_sample_index as u64;
    let latency = target_latency_sample_frames as u64;
    assert(index * bps <= u32::MAX * u32::MAX) by (nonlinear_arith)
        requires
            index <= u32::MAX,
            bps <= u32::MAX,
    ;
    assert(latency * bps <= u32::MAX * u32::MAX) by (nonlinear_arith)
        requires
            latency <= u32::MAX,
            bps <= u32::MAX,
    ;
    let lock_offset = ((index * bps) % total) as u32;
    let target_cursor = ((play_cursor_bytes as u64 + latency * bps) % total) as u32;
    let lock_length = if lock_offset > target_cursor {
        (geometry.total_bytes - lock_offset) + target_cursor
    } else {
        target_cursor - lock_offset
    };
    proof {
        let t = geometry.total_bytes as int;
        let o = lock_offset as int;
        let c = target_cursor as int;
        vstd::arithmetic::div_mod::lemma_small_mod(c as nat, t as nat);
        if o > c {
            vstd::arithmetic::div_mod::lemma_mod_add_multiples_vanish(c, t);
            assert(o + (t - o + c) == t + c);
        }
    }
    WriteRegionPlan { lock_offset, lock_length }
}

impl WriteRegionPlan {
    /// Whether the ring boundary splits this write in two.
    pub open spec fn wraps(&self, total_bytes: u32) -> bool {
        self.lock_offset + self.lock_length > total_bytes
    }

    /// The at most two contiguous ranges that this write covers: the first
    /// always starts at the lock offset; the second, at byte 0, exists only
    /// when the write runs past the end of the ring.
    pub fn regions(&self, geometry: &AudioRingGeometry) -> (r: (WriteRegion, Option<WriteRegion>))
        requires
            self.lock_offset < geometry.total_bytes,
            self.lock_length <= geometry.total_bytes,
        ensures
            r.0.offset == self.lock_offset,
            self.wraps(geometry.total_bytes) ==> r.0.length == geometry.total_bytes - self.lock_offset,
            !self.wraps(geometry.total_bytes) ==> r.0.length == self.lock_length,
            r.1 is Some <==> self.wraps(geometry.total_bytes),
            r.1 matches Some(second) ==> second.offset == 0 && second.length == self.lock_offset
                + self.lock_length - geometry.total_bytes,
            r.0.length + (if let Some(second) = r.1 { second.length as int } else { 0 }) == self.lock_length,
    {
        let room = geometry.total_bytes - self.lock_offset;
        if self.lock_length > room {
            (
                WriteRegion { offset: self.lock_offset, length: room },
                Some(WriteRegion { offset: 0, length: self.lock_length - room }),
            )
        } else {
            (WriteRegion { offset: self.lock_offset, length: self.lock_length }, None)
        }
    }
}

/// Sample-frames that fit whole in a region of `region_values` 16-bit values.
pub open spec fn frames_in(region_values: int, values_per_frame: int) -> int {
    region_values / values_per_frame
}

/// The two regions after a write: the first takes as many whole frames from
/// the start of `source` as fit in it, the second the frames that follow, as
/// many as fit in it; the values past the last whole frame stay as they were.
pub open spec fn regions_after_write(
    region1: Seq<i16>,
    region2: Seq<i16>,
    source: Seq<i16>,
    values_per_frame: int,
) -> (Seq<i16>, Seq<i16>) {
    let n1 = frames_in(region1.len() as int, values_per_frame) * values_per_frame;
    let n2 = frames_in(region2.len() as int, values_per_frame) * values_per_frame;
    (
        source.subrange(0, n1) + region1.subrange(n1, region1.len() as int),
        source.subrange(n1, n1 + n2) + region2.subrange(n2, region2.len() as int),
    )
}

/// Copies `count` values of `source`, starting at value `from`, to the start
/// of `dest`.
fn copy_frames(dest: &mut [i16], source: &[i16], from: usize, count: usize)
    requires
        count <= old(dest)@.len(),
        from + count <= source@.len(),
    ensures
        final(dest)@ == source@.subrange(from as int, from + count) + old(dest)@.subrange(
            count as int,
            old(dest)@.len() as int,
        ),
{
    let source_len = source.len();
    let mut i: usize = 0;
    while i < count
        invariant
            0 <= i <= count,
            source_len == source@.len(),
            count <= dest@.len(),
            from + count <= source@.len(),
            dest@.len() == old(dest)@.len(),
            forall|k: int| 0 <= k < i ==> dest@[k] == source@[from + k],
            forall|k: int| i <= k < dest@.len() ==> dest@[k] == old(dest)@[k],
        decreases count - i,
    {
        dest[i] = source[from + i];
        i += 1;
    }
    assert(dest@ =~= source@.subrange(from as int, from + count) + old(dest)@.subrange(
        count as int,
        old(dest)@.len() as int,
    ));
}

/// Commits one planned write into the two locked regions of the ring: as
/// many whole sample-frames as fit go into the first region, then into the
/// second, taken in order from `source`. The running sample index advances
/// by the frames written, wrapping at 2^32. Returns the frames written.
pub fn write_samples(
    sync_state: &mut AudioSyncState,
    geometry: &AudioRingGeometry,
    region1: &mut [i16],
    region2: &mut [i16],
    source: &[i16],
) -> (frames: u32)
    requires
        geometry.wf(),
        old(region1)@.len() + old(region2)@.len() <= u32::MAX,
        (frames_in(old(region1)@.len() as int, geometry.values_per_frame()) + frames_in(
            old(region2)@.len() as int,
            geometry.values_per_frame(),
        )) * geometry.values_per_frame() <= source@.len(),
    ensures
        ({
            let vpf = geometry.values_per_frame();
            let n1 = frames_in(old(region1)@.len() as int, vpf) * vpf;
            let n2 = frames_in(old(region2)@.len() as int, vpf) * vpf;
            &&& frames == frames_in(old(region1)@.len() as int, vpf) + frames_in(old(region2)@.len() as int, vpf)
            &&& final(sync_state).running_sample_index == (old(sync_state).running_sample_index + frames)
                % 0x1_0000_0000
            &&& (final(region1)@, final(region2)@) == regions_after_write(
                old(region1)@,
                old(region2)@,
                source@,
                vpf,
            )
            &&& final(region1)@.subrange(0, n1) + final(region2)@.subrange(0, n2) == source@.subrange(
                0,
                n1 + n2,
            )
        }),
{
    let vpf = (geometry.bytes_per_sample / 2) as usize;
    let len1 = region1.len();
    let len2 = region2.len();
    let f1 = len1 / vpf;
    let f2 = len2 / vpf;
    proof {
        vstd::arithmetic::mul::lemma_mul_is_commutative(vpf as int, f1 as int);
        vstd::arithmetic::mul::lemma_mul_is_commutative(vpf as int, f2 as int);
        vstd::arithmetic::div_mod::lemma_fundamental_div_mod(region1@.len() as int, vpf as int);
        vstd::arithmetic::div_mod::lemma_fundamental_div_mod(region2@.len() as int, vpf as int);
        vstd::arithmetic::div_mod::lemma_mod_pos_bound(region1@.len() as int, vpf as int);
        vstd::arithmetic::div_mod::lemma_mod_pos_bound(region2@.len() as int, vpf as int);
        vstd::arithmetic::mul::lemma_mul_is_distributive_add_other_way(vpf as int, f1 as int, f2 as int);
    }
    let n1 = f1 * vpf;
    let n2 = f2 * vpf;
    copy_frames(region1, source, 0, n1);
    copy_frames(region2, source, n1, n2);
    let frames = (f1 + f2) as u32;
    sync_state.running_sample_index = sync_state.running_sample_index.wrapping_add(frames);
    assert(region1@.subrange(0, n1 as int) + region2@.subrange(0, n2 as int) =~= source@.subrange(
        0,
        n1 + n2,
    ));
    frames
}

/// Fills a locked region of the ring with silence.
pub fn clear_region(region: &mut [u8])
    ensures
        final(region)@ == Seq::new(old(region)@.len(), |i: int| 0u8),
{
    let mut i: usize = 0;
    while i < region.len()
        invariant
            0 <= i <= region@.len(),
            region@.len() == old(region)@.len(),
            forall|k: int| 0 <= k < i ==> region@[k] == 0u8,
        decreases region@.len() - i,
    {
        region[i] = 0;
        i += 1;
    }
    assert(region@ =~= Seq::new(old(region)@.len(), |i: int| 0u8));
}

/// The audio stream's configuration and write position.
#[derive(Clone, Copy, Debug)]
pub struct SoundOutput {
    pub geometry: AudioRingGeometry,
    pub sync_state: AudioSyncState,
    pub latency_sample_count: u32,
}

impl SoundOutput {
    /// A stereo 16-bit stream whose ring holds one second of sound, with a
    /// target latency of a fifteenth of a second. A rate of zero, or one whose
    /// ring would not fit in `u32` bytes, is refused.
    pub fn new(samples_per_second: u32) -> (r: Option<SoundOutput>)
        ensures
            r is Some <==> 0 < samples_per_second <= u32::MAX / 4,
            r matches Some(s) ==> {
                &&& s.geometry == (AudioRingGeometry {
                    samples_per_second,
                    bytes_per_sample: 4,
                    total_bytes: (samples_per_second * 4) as u32,
                })
                &&& s.geometry.wf()
                &&& s.sync_state.running_sample_index == 0
                &&& s.latency_sample_count == samples_per_second / 15
            },
    {
        broadcast use vstd::layout::layout_of_primitives;
        let bytes_per_sample = core::mem::size_of::<i16>() as u32 * 2;
        if samples_per_second == 0 || samples_per_second > u32::MAX / bytes_per_sample {
            return None;
        }
        Some(SoundOutput {
            geometry: AudioRingGeometry {
                samples_per_second,
                bytes_per_sample,
                total_bytes: samples_per_second * bytes_per_sample,
            },
            sync_state: AudioSyncState { running_sample_index: 0 },
            latency_sample_count: samples_per_second / 15,
        })
    }

    /// This tick's write plan, for the play cursor the device reported.
    pub fn plan(&self, play_cursor_bytes: u32) -> (r: WriteRegionPlan)
        requires
            self.geometry.wf(),
        ensures
            r == plan_write_spec(self.geometry, self.sync_state, play_cursor_bytes, self.latency_sample_count),
    {
        plan_write(&self.geometry, &self.sync_state, play_cursor_bytes, self.latency_sample_count)
    }
}

/// The plan that `plan_write` returns.
pub open spec fn plan_write_spec(
    g: AudioRingGeometry,
    s: AudioSyncState,
    play_cursor_bytes: u32,
    latency: u32,
) -> WriteRegionPlan {
    WriteRegionPlan {
        lock_offset: lock_offset_of(g, s.running_sample_index) as u32,
        lock_length: lock_length_of(
            lock_offset_of(g, s.running_sample_index),
            target_cursor_of(g, play_cursor_bytes, latency),
            g.total_bytes as int,
        ) as u32,
    }
}

} // verus!
