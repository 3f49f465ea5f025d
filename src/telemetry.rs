//! The pose-sample wire format: a fixed big-endian layout
//! `time:u32 | tag_count:i32 | tag_ids:i32[tag_count] | has_secondary:u8 |
//! primary:8*f64 | [secondary:8*f64]`, each pose written as
//! `tx, ty, tz, qw, qx, qy, qz, error`.
use vstd::prelude::*;
use crate::geometry::{Pose, Scalar};
use crate::types::CameraPoseObservation;

verus! {

/// The low 32 bits of a non-negative count or id.
pub open spec fn low32(n: int) -> u32 {
    (n % 0x1_0000_0000) as u32
}

/// Big-endian bytes of a 32-bit word.
pub open spec fn be32(v: u32) -> Seq<u8> {
    seq![(v >> 24u32) as u8, (v >> 16u32) as u8, (v >> 8u32) as u8, v as u8]
}

/// Big-endian bytes of a 64-bit word.
pub open spec fn be64(v: u64) -> Seq<u8> {
    seq![
        (v >> 56u64) as u8, (v >> 48u64) as u8, (v >> 40u64) as u8, (v >> 32u64) as u8,
        (v >> 24u64) as u8, (v >> 16u64) as u8, (v >> 8u64) as u8, v as u8,
    ]
}

/// The marker ids, each narrowed to its low 32 bits.
pub open spec fn ids_bytes(ids: Seq<u64>) -> Seq<u8>
    decreases ids.len(),
{
    if ids.len() == 0 {
        Seq::empty()
    } else {
        ids_bytes(ids.drop_last()) + be32(low32(ids.last() as int))
    }
}

/// A pose and its error as eight big-endian doubles.
pub open spec fn pose_bytes(p: Pose, error: Scalar) -> Seq<u8> {
    be64(p.translation.x.bits) + be64(p.translation.y.bits) + be64(p.translation.z.bits)
        + be64(p.rotation.w.bits) + be64(p.rotation.x.bits) + be64(p.rotation.y.bits)
        + be64(p.rotation.z.bits) + be64(error.bits)
}

/// 1 when a secondary pose follows, else 0.
pub open spec fn secondary_flag(obs: CameraPoseObservation) -> u8 {
    if obs.has_secondary() {
        1
    } else {
        0
    }
}

/// The whole encoded sample.
pub open spec fn sample_bytes(time: u32, obs: CameraPoseObservation) -> Seq<u8> {
    be32(time) + be32(low32(obs.tag_ids@.len() as int)) + ids_bytes(obs.tag_ids@) + seq![secondary_flag(obs)] + pose_bytes(obs.pose_0, obs.error_0) + if obs.has_secondary() {
        pose_bytes(obs.pose_1.unwrap(), obs.error_1.unwrap())
    } else {
        Seq::empty()
    }
}

/// The server-clock timestamp of a sample: the last server time seen plus the
/// microseconds elapsed since, both modulo 2^32.
pub open spec fn sample_time_spec(server_time: u32, elapsed_micros: u64) -> u32 {
    ((server_time as int + (elapsed_micros as int % 0x1_0000_0000)) % 0x1_0000_0000) as u32
}

proof fn lemma_ids_bytes_len(ids: Seq<u64>)
    ensures
        ids_bytes(ids).len() == 4 * ids.len(),
    decreases ids.len(),
{
    if ids.len() > 0 {
        lemma_ids_bytes_len(ids.drop_last());
    }
}

/// The encoding is a function of its inputs, and its length is
/// `9 + 4 * N + 64` bytes for `N` marker ids (a 4-byte time, a 4-byte count,
/// `N` 4-byte ids, a flag byte and one 64-byte pose), with 64 more when a
/// secondary pose is present.
pub proof fn lemma_sample_length(time: u32, obs: CameraPoseObservation)
    requires
        obs.wf(),
    ensures
        sample_bytes(time, obs).len() == 9 + 4 * obs.tag_ids@.len() + 64 + if obs.has_secondary() {
            64int
        } else {
            0int
        },
        forall|o2: CameraPoseObservation|
            o2.tag_ids@ == obs.tag_ids@ && o2.pose_0 == obs.pose_0 && o2.error_0 == obs.error_0
                && o2.pose_1 == obs.pose_1 && o2.error_1 == obs.error_1 ==> #[trigger] sample_bytes(
                time,
                o2,
            ) == sample_bytes(time, obs),
{
    lemma_ids_bytes_len(obs.tag_ids@);
    let head = be32(time) + be32(low32(obs.tag_ids@.len() as int)) + ids_bytes(obs.tag_ids@) + seq![secondary_flag(obs)];
    assert(head.len() == 9 + 4 * obs.tag_ids@.len());
    let first = pose_bytes(obs.pose_0, obs.error_0);
    assert(first.len() == 64);
    if obs.has_secondary() {
        assert(pose_bytes(obs.pose_1.unwrap(), obs.error_1.unwrap()).len() == 64);
    }
}

fn push_be32(out: &mut Vec<u8>, v: u32)
    ensures
        final(out)@ == old(out)@ + be32(v),
{
    out.push((v >> 24u32) as u8);
    out.push((v >> 16u32) as u8);
    out.push((v >> 8u32) as u8);
    out.push(v as u8);
    assert(final(out)@ =~= old(out)@ + be32(v));
}

fn push_be64(out: &mut Vec<u8>, v: u64)
    ensures
        final(out)@ == old(out)@ + be64(v),
{
    out.push((v >> 56u64) as u8);
    out.push((v >> 48u64) as u8);
    out.push((v >> 40u64) as u8);
    out.push((v >> 32u64) as u8);
    out.push((v >> 24u64) as u8);
    out.push((v >> 16u64) as u8);
    out.push((v >> 8u64) as u8);
    out.push(v as u8);
    assert(final(out)@ =~= old(out)@ + be64(v));
}

fn push_pose(out: &mut Vec<u8>, p: &Pose, error: Scalar)
    ensures
        final(out)@ == old(out)@ + pose_bytes(*p, error),
{
    push_be64(out, p.translation.x.bits);
    push_be64(out, p.translation.y.bits);
    push_be64(out, p.translation.z.bits);
    push_be64(out, p.rotation.w.bits);
    push_be64(out, p.rotation.x.bits);
    push_be64(out, p.rotation.y.bits);
    push_be64(out, p.rotation.z.bits);
    push_be64(out, error.bits);
    assert(final(out)@ =~= old(out)@ + pose_bytes(*p, error));
}

/// The timestamp to put on a sample taken `elapsed_micros` after the server
/// clock last read `server_time`. Both wrap at 2^32, as the 32-bit field does.
pub fn sample_time(server_time: u32, elapsed_micros: u64) -> (r: u32)
    ensures
        r == sample_time_spec(server_time, elapsed_micros),
{
    let low: u64 = elapsed_micros % 0x1_0000_0000;
    let sum: u64 = low + server_time as u64;
    (sum % 0x1_0000_0000) as u32
}

impl CameraPoseObservation {
    /// Encodes this observation, stamped with `time`, in the wire format.
    pub fn encode(&self, time: u32) -> (r: Vec<u8>)
        requires
            self.wf(),
        ensures
            r@ == sample_bytes(time, *self),
    {
        let mut out: Vec<u8> = Vec::new();
        push_be32(&mut out, time);
        push_be32(&mut out, (self.tag_ids.len() as u64 % 0x1_0000_0000) as u32);
        let mut i: usize = 0;
        while i < self.tag_ids.len()
            invariant
                i <= self.tag_ids@.len(),
                out@ == be32(time) + be32(low32(self.tag_ids@.len() as int)) + ids_bytes(
                    self.tag_ids@.subrange(0, i as int),
                ),
            decreases self.tag_ids@.len() - i,
        {
            let ghost before = out@;
            push_be32(&mut out, (self.tag_ids[i] % 0x1_0000_0000) as u32);
            proof {
                let s = self.tag_ids@.subrange(0, i + 1);
                assert(s.drop_last() =~= self.tag_ids@.subrange(0, i as int));
                assert(out@ =~= be32(time) + be32(low32(self.tag_ids@.len() as int)) + ids_bytes(s));
            }
            i = i + 1;
        }
        assert(self.tag_ids@.subrange(0, self.tag_ids@.len() as int) =~= self.tag_ids@);
        match (&self.pose_1, &self.error_1) {
            (Some(p1), Some(e1)) => {
                out.push(1u8);
                push_pose(&mut out, &self.pose_0, self.error_0);
                push_pose(&mut out, p1, *e1);
            },
            _ => {
                out.push(0u8);
                push_pose(&mut out, &self.pose_0, self.error_0);
            },
        }
        assert(out@ =~= sample_bytes(time, *self));
        out
    }
}

} // verus!
