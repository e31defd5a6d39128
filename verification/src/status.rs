//! The IMU status report: the sensor's state and its calibration offsets, as the
//! sensor keeps them and as the 32-byte packet it notifies to the host.
//!
//! Packet layout: byte 0 is the state's code, bytes 1..7 the accelerometer
//! offsets and bytes 7..13 the gyroscope offsets (each a little-endian `i16`),
//! and the remaining bytes are zero.
use vstd::prelude::*;
use crate::codec::{
    lemma_array_decoding_prefix, lemma_i16_triple_roundtrip, lemma_sizes, write_at, ByteSize,
    FromBytesLe, ToBytesLe,
};
use crate::imu_conf::{status_code, status_of_code, ImuStatus};

verus! {

/// The state of the IMU together with its calibration offsets (raw ADC units).
#[derive(Clone, Copy, Debug, PartialEq, Eq)]
pub struct Status {
    pub status: ImuStatus,
    pub accel: [i16; 3],
    pub gyro: [i16; 3],
}

/// `n` zero bytes.
pub open spec fn zeros(n: nat) -> Seq<u8> {
    Seq::new(n, |i: int| 0u8)
}

impl Status {
    /// A status that is still initializing, with the given calibration offsets.
    pub fn new(accel: [i16; 3], gyro: [i16; 3]) -> (s: Status)
        ensures
            s.status == ImuStatus::Initializing,
            s.accel == accel,
            s.gyro == gyro,
    {
        Status { status: ImuStatus::Initializing, accel, gyro }
    }

    /// The accelerometer and gyroscope calibration offsets.
    pub fn calibration(&self) -> (c: ([i16; 3], [i16; 3]))
        ensures
            c == (self.accel, self.gyro),
    {
        (self.accel, self.gyro)
    }

    /// Replaces the calibration offsets; the state is kept.
    pub fn set_calibration(&mut self, calibration: ([i16; 3], [i16; 3]))
        ensures
            final(self).accel == calibration.0,
            final(self).gyro == calibration.1,
            final(self).status == old(self).status,
    {
        self.accel = calibration.0;
        self.gyro = calibration.1;
    }

    /// The current state.
    pub fn status(&self) -> (s: ImuStatus)
        ensures
            s == self.status,
    {
        self.status
    }

    /// Replaces the state; the calibration is kept.
    pub fn set_status(&mut self, status: ImuStatus)
        ensures
            final(self).status == status,
            final(self).accel == old(self).accel,
            final(self).gyro == old(self).gyro,
    {
        self.status = status;
    }

    /// The 32-byte packet that reports this status to the host.
    pub fn status_packet(&self) -> (p: [u8; 32])
        ensures
            p@ == self.le_encoding(),
    {
        let mut p = [0u8; 32];
        let s = *self;
        s.to_bytes_le(&mut p);
        assert(p@ =~= self.le_encoding());
        p
    }
}

impl ByteSize for Status {
    const SIZE: usize = 32;
}

impl ToBytesLe for Status {
    open spec fn le_encoding(self) -> Seq<u8> {
        seq![status_code(self.status)] + self.accel.le_encoding() + self.gyro.le_encoding() + zeros(
            19,
        )
    }

    proof fn lemma_le_encoding_len(self) {
        lemma_sizes();
        self.accel.lemma_le_encoding_len();
        self.gyro.lemma_le_encoding_len();
    }

    fn to_bytes_le(self, buf: &mut [u8]) -> (n: usize) {
        let ghost start = buf@;
        proof {
            lemma_sizes();
        }
        let mut packet = [0u8; 32];
        packet[0] = self.status.into_primitive();
        let mut part = [0u8; 6];
        self.accel.to_bytes_le(&mut part);
        write_at(&mut packet, 1, &part);
        self.gyro.to_bytes_le(&mut part);
        write_at(&mut packet, 7, &part);
        write_at(buf, 0, &packet);
        assert(buf@ =~= self.le_encoding() + start.skip(32));
        32
    }
}

impl FromBytesLe for Status {
    open spec fn le_decoding(x: Seq<u8>) -> Status {
        Status {
            status: status_of_code(x[0]),
            accel: <[i16; 3]>::le_decoding(x.skip(1)),
            gyro: <[i16; 3]>::le_decoding(x.skip(7)),
        }
    }

    fn from_le_bytes(x: &[u8]) -> (r: Status) {
        proof {
            lemma_sizes();
        }
        let r = Status {
            status: ImuStatus::from_primitive(x[0]),
            accel: <[i16; 3]>::from_le_bytes(&x[1..7]),
            gyro: <[i16; 3]>::from_le_bytes(&x[7..13]),
        };
        proof {
            let t = x@.take(32);
            let a = x@.subrange(1, 7).take(6);
            let b = t.skip(1);
            let c = x@.subrange(7, 13).take(6);
            let d = t.skip(7);
            assert(a.take(6) =~= b.take(6));
            assert(c.take(6) =~= d.take(6));
            lemma_array_decoding_prefix::<i16, 3>(a, b);
            lemma_array_decoding_prefix::<i16, 3>(c, d);
        }
        r
    }
}

/// A status report takes 32 bytes on the wire.
pub proof fn lemma_status_size()
    ensures
        <Status as ByteSize>::SIZE == 32,
        <Status as ByteSize>::size_exact(),
{
}

/// The host reads back exactly the status the sensor reported: decoding a
/// status packet gives the state and both calibration triples, whatever follows.
pub proof fn lemma_status_roundtrip(s: Status, rest: Seq<u8>)
    ensures
        s.le_encoding().len() == <Status as ByteSize>::SIZE,
        Status::le_decoding(s.le_encoding() + rest) == s,
{
    let ea = s.accel.le_encoding();
    let eg = s.gyro.le_encoding();
    let x = s.le_encoding() + rest;
    lemma_sizes();
    lemma_i16_triple_roundtrip(s.accel, eg + zeros(19) + rest);
    lemma_i16_triple_roundtrip(s.gyro, zeros(19) + rest);
    assert(x.skip(1) =~= ea + (eg + zeros(19) + rest));
    assert(x.skip(7) =~= eg + (zeros(19) + rest));
    crate::imu_conf::lemma_status_code_roundtrip(s.status, 0);
}

} // verus!
