//! The sensor driver: device discovery, mode and axis configuration, raw
//! register access and the measurement read protocol.
//!
//! Every contract below pins down the exact bus transactions a call issues,
//! phrased over the transport's ghost history (see [`crate::bus`]), and how
//! the returned values relate to the bytes the device answered.

use vstd::prelude::*;

use crate::bus::burst_read_op;
use crate::bus::reg_read_op;
use crate::bus::reg_write_op;
use crate::bus::BusOp;
use crate::bus::BusTransport;
use crate::modes::accel_mode_code;
use crate::modes::gyro_mode_code;
use crate::modes::AccelerometerMode;
use crate::modes::GyroscopeMode;
use crate::registers;

verus! {

/// Candidate 7-bit device address when the address strap pin is high.
pub const SA0_HIGH_ADDRESS: u8 = 0b1101011;

/// Candidate 7-bit device address when the address strap pin is low.
pub const SA0_LOW_ADDRESS: u8 = 0b1101010;

/// The identity byte the chip answers to a WHO_AM_I query.
pub const WHO_ID: u8 = 0x69;

/// The WHO_AM_I probe of the device at `addr`, answered with `resp`.
pub open spec fn probe_op(addr: u8, resp: u8) -> BusOp {
    reg_read_op(addr, registers::WHO_AM_I, resp)
}

/// A rate code placed in a control register's high nibble.
pub open spec fn rate_nibble(code: u8) -> u8
    recommends
        code < 16,
{
    (code * 16) as u8
}

/// The axis-enable byte of CTRL9_XL and CTRL10_C: bit 5 enables X, bit 4
/// enables Y, bit 3 enables Z.
pub open spec fn axes_bits(x: bool, y: bool, z: bool) -> u8 {
    ((if x {
        0x20u8
    } else {
        0u8
    }) | (if y {
        0x10u8
    } else {
        0u8
    })) | (if z {
        0x08u8
    } else {
        0u8
    })
}

/// The signed 16-bit axis value assembled from its little-endian byte pair:
/// the high byte weighted by 256, read as two's complement.
pub open spec fn sample_val(lo: u8, hi: u8) -> int {
    if hi >= 128 {
        hi * 256 + lo - 65536
    } else {
        hi * 256 + lo
    }
}

/// Assemble one axis value from its little-endian byte pair, interpreted as
/// a signed two's-complement 16-bit quantity.
pub fn sample_from_bytes(lo: u8, hi: u8) -> (r: i16)
    ensures
        r == sample_val(lo, hi),
{
    let high_part: i16 = if hi >= 128 {
        (hi as i16) - 256
    } else {
        hi as i16
    };
    high_part * 256 + (lo as i16)
}

/// Compute the axis-enable byte (see [`axes_bits`]).
pub fn axes_byte(x: bool, y: bool, z: bool) -> (r: u8)
    ensures
        r == axes_bits(x, y, z),
{
    ((if x {
        0x20u8
    } else {
        0u8
    }) | (if y {
        0x10u8
    } else {
        0u8
    })) | (if z {
        0x08u8
    } else {
        0u8
    })
}

/// A driver for the sensor chip, owning its bus transport and bound to the
/// device address discovery resolved. The address is fixed for the driver's
/// lifetime.
#[derive(Clone)]
pub struct LSM6<B: BusTransport> {
    address: u8,
    bus: B,
}

/// The outcome of one measurement read. Absence of new data is a normal,
/// expected outcome kept apart from a bus fault: on `NotReady` the caller
/// simply polls again.
#[derive(Debug, PartialEq, Eq)]
pub enum Reading<E> {
    /// A fresh sample: the three axis values (X, Y, Z).
    Sample(i16, i16, i16),
    /// No fresh data yet; poll again later.
    NotReady,
    /// A bus transaction failed; the error is the transport's own.
    Fault(E),
}

/// The outcome of device discovery. A device that answers with the wrong
/// identity is a normal "no device present" outcome, kept apart from a bus
/// fault; both hand the transport back to the caller.
pub enum Discovery<B: BusTransport> {
    /// The device answered at one of the candidate addresses and the driver
    /// is bound to it.
    Found(LSM6<B>),
    /// Neither candidate address answered with the device identity.
    NotFound(B),
    /// A bus transaction failed; the error is the transport's own.
    Fault(B, B::BusError),
}

/// Probe `address` for the device: select the WHO_AM_I register, read one
/// byte back, and report whether it is the device identity.
fn test_lsm6_addr<B: BusTransport>(bus: &mut B, address: u8) -> (r: Result<bool, B::BusError>)
    ensures
        match r {
            Ok(found) => exists|resp: u8|
                final(bus).history() == old(bus).history().push(probe_op(address, resp)) && (found
                    <==> resp == WHO_ID),
            Err(_) => final(bus).history() == old(bus).history(),
        },
{
    let req: [u8; 1] = [registers::WHO_AM_I];
    match bus.transmit_receive(address, &req, 1) {
        Ok(resp) => {
            let found = resp[0] == WHO_ID;
            proof {
                assert(req@ =~= seq![registers::WHO_AM_I]);
                assert(resp@ =~= seq![resp@[0]]);
                assert(bus.history() == old(bus).history().push(probe_op(address, resp@[0])) && (
                found <==> resp@[0] == WHO_ID));
            }
            Ok(found)
        },
        Err(e) => Err(e),
    }
}

impl<B: BusTransport> LSM6<B> {
    /// The resolved 7-bit device address, fixed at discovery.
    pub closed spec fn spec_address(&self) -> u8 {
        self.address
    }

    /// The transactions completed on the owned transport, oldest first.
    pub closed spec fn trace(&self) -> Seq<BusOp> {
        self.bus.history()
    }

    /// Discovery bound this driver when the transport's history was `pre`:
    /// the trace extends `pre` by exactly the probes made, the address that
    /// answered the device identity is the bound one, the low address was
    /// probed only after the high one answered something else, and the very
    /// next transaction after the match is the write of 4 into CTRL3_C that
    /// enables register auto-increment.
    pub open spec fn discovered_from(self, pre: Seq<BusOp>) -> bool {
        &&& (self.spec_address() == SA0_HIGH_ADDRESS || self.spec_address() == SA0_LOW_ADDRESS)
        &&& (self.spec_address() == SA0_HIGH_ADDRESS ==> self.trace() == pre + seq![
            probe_op(SA0_HIGH_ADDRESS, WHO_ID),
            reg_write_op(SA0_HIGH_ADDRESS, registers::CTRL3_C, 4),
        ])
        &&& (self.spec_address() == SA0_LOW_ADDRESS ==> exists|rh: u8|
            rh != WHO_ID && self.trace() == pre + seq![
                probe_op(SA0_HIGH_ADDRESS, rh),
                probe_op(SA0_LOW_ADDRESS, WHO_ID),
                reg_write_op(SA0_LOW_ADDRESS, registers::CTRL3_C, 4),
            ])
    }

    /// Locate the device at one of the two candidate addresses: probe the
    /// high address first, fall back to the low one, and on a match write 4
    /// into CTRL3_C (register auto-increment, required by the measurement
    /// reads) before handing the driver out.
    pub fn open(bus: B) -> (r: Discovery<B>)
        ensures
            match r {
                Discovery::Found(d) => d.discovered_from(bus.history()),
                Discovery::NotFound(b) => exists|rh: u8, rl: u8|
                    rh != WHO_ID && rl != WHO_ID && b.history() == bus.history() + seq![
                        probe_op(SA0_HIGH_ADDRESS, rh),
                        probe_op(SA0_LOW_ADDRESS, rl),
                    ],
                Discovery::Fault(b, _) => {
                    ||| b.history() == bus.history()
                    ||| exists|rh: u8|
                        rh != WHO_ID && b.history() == bus.history().push(
                            probe_op(SA0_HIGH_ADDRESS, rh),
                        )
                    ||| b.history() == bus.history().push(probe_op(SA0_HIGH_ADDRESS, WHO_ID))
                    ||| exists|rh: u8|
                        rh != WHO_ID && b.history() == bus.history() + seq![
                            probe_op(SA0_HIGH_ADDRESS, rh),
                            probe_op(SA0_LOW_ADDRESS, WHO_ID),
                        ]
                },
            },
    {
        let mut b = bus;
        let ghost h0 = b.history();
        let found_high = match test_lsm6_addr(&mut b, SA0_HIGH_ADDRESS) {
            Ok(f) => f,
            Err(e) => {
                return Discovery::Fault(b, e);
            },
        };
        let ghost r1: u8 = choose|resp: u8|
            b.history() == h0.push(probe_op(SA0_HIGH_ADDRESS, resp)) && (found_high <==> resp
                == WHO_ID);
        let address: u8;
        if found_high {
            address = SA0_HIGH_ADDRESS;
        } else {
            let found_low = match test_lsm6_addr(&mut b, SA0_LOW_ADDRESS) {
                Ok(f) => f,
                Err(e) => {
                    return Discovery::Fault(b, e);
                },
            };
            let ghost r2: u8 = choose|resp: u8|
                b.history() == h0.push(probe_op(SA0_HIGH_ADDRESS, r1)).push(
                    probe_op(SA0_LOW_ADDRESS, resp),
                ) && (found_low <==> resp == WHO_ID);
            if !found_low {
                proof {
                    assert(b.history() =~= h0 + seq![
                        probe_op(SA0_HIGH_ADDRESS, r1),
                        probe_op(SA0_LOW_ADDRESS, r2),
                    ]);
                }
                return Discovery::NotFound(b);
            }
            address = SA0_LOW_ADDRESS;
        }
        let mut this = LSM6 { address, bus: b };
        let outcome = this.set_register(registers::CTRL3_C, 4);
        match outcome {
            Ok(_) => {
                proof {
                    if address == SA0_HIGH_ADDRESS {
                        assert(this.trace() =~= h0 + seq![
                            probe_op(SA0_HIGH_ADDRESS, WHO_ID),
                            reg_write_op(SA0_HIGH_ADDRESS, registers::CTRL3_C, 4),
                        ]);
                    } else {
                        let r2 = choose|resp: u8|
                            this.trace() == h0.push(probe_op(SA0_HIGH_ADDRESS, r1)).push(
                                probe_op(SA0_LOW_ADDRESS, resp),
                            ).push(reg_write_op(SA0_LOW_ADDRESS, registers::CTRL3_C, 4)) && (resp
                                == WHO_ID);
                        assert(this.trace() =~= h0 + seq![
                            probe_op(SA0_HIGH_ADDRESS, r1),
                            probe_op(SA0_LOW_ADDRESS, WHO_ID),
                            reg_write_op(SA0_LOW_ADDRESS, registers::CTRL3_C, 4),
                        ]);
                    }
                }
                Discovery::Found(this)
            },
            Err(e) => {
                let LSM6 { address: _, bus: failed } = this;
                proof {
                    if address == SA0_LOW_ADDRESS {
                        assert(failed.history() =~= h0 + seq![
                            probe_op(SA0_HIGH_ADDRESS, r1),
                            probe_op(SA0_LOW_ADDRESS, WHO_ID),
                        ]);
                    }
                }
                Discovery::Fault(failed, e)
            },
        }
    }

    /// Locate the device and construct a driver bound to it, as [`Self::open`]
    /// does. A chip that is simply absent is `Ok(None)`, never an error; a
    /// bus fault is `Err` with the transport's own error. In both of those
    /// outcomes the transport is dropped; use `open` to keep it.
    pub fn new(bus: B) -> (r: Result<Option<LSM6<B>>, B::BusError>)
        ensures
            r matches Ok(Some(d)) ==> d.discovered_from(bus.history()),
    {
        match LSM6::open(bus) {
            Discovery::Found(d) => Ok(Some(d)),
            Discovery::NotFound(_) => Ok(None),
            Discovery::Fault(_, e) => Err(e),
        }
    }

    /// The bus address the driver was bound to at discovery.
    pub fn address(&self) -> (r: u8)
        ensures
            r == self.spec_address(),
    {
        self.address
    }

    /// Hand the bus transport back, consuming the driver.
    pub fn release(self) -> (r: B)
        ensures
            r.history() == self.trace(),
    {
        self.bus
    }

    /// Store `value` into device register `reg`: one write of `[reg, value]`.
    /// No validation is done; writing a register this driver also manages
    /// can clobber its settings.
    pub fn set_register(&mut self, reg: u8, value: u8) -> (r: Result<(), B::BusError>)
        ensures
            final(self).spec_address() == old(self).spec_address(),
            r is Ok ==> final(self).trace() == old(self).trace().push(
                reg_write_op(old(self).spec_address(), reg, value),
            ),
            r is Err ==> final(self).trace() == old(self).trace(),
    {
        let addr = self.address;
        let data: [u8; 2] = [reg, value];
        let r = self.bus.transmit(addr, &data);
        proof {
            assert(data@ =~= seq![reg, value]);
        }
        r
    }

    /// Read device register `reg` and return its value verbatim: one
    /// write-read transaction of `[reg]` answered by a single byte.
    pub fn read_register(&mut self, reg: u8) -> (r: Result<u8, B::BusError>)
        ensures
            final(self).spec_address() == old(self).spec_address(),
            match r {
                Ok(v) => final(self).trace() == old(self).trace().push(
                    reg_read_op(old(self).spec_address(), reg, v),
                ),
                Err(_) => final(self).trace() == old(self).trace(),
            },
    {
        let addr = self.address;
        let req: [u8; 1] = [reg];
        match self.bus.transmit_receive(addr, &req, 1) {
            Ok(resp) => {
                proof {
                    assert(req@ =~= seq![reg]);
                    assert(resp@ =~= seq![resp@[0]]);
                }
                Ok(resp[0])
            },
            Err(e) => Err(e),
        }
    }

    /// Overwrite CTRL1_XL with the mode's rate code in the high nibble,
    /// clobbering every other bit of that register.
    pub fn set_accel_mode(&mut self, mode: AccelerometerMode) -> (r: Result<(), B::BusError>)
        ensures
            final(self).spec_address() == old(self).spec_address(),
            r is Ok ==> final(self).trace() == old(self).trace().push(
                reg_write_op(
                    old(self).spec_address(),
                    registers::CTRL1_XL,
                    rate_nibble(accel_mode_code(mode)),
                ),
            ),
            r is Err ==> final(self).trace() == old(self).trace(),
    {
        let code = mode.to_bitcode();
        self.set_register(registers::CTRL1_XL, code * 16)
    }

    /// Overwrite CTRL2_G with the mode's rate code in the high nibble,
    /// clobbering every other bit of that register.
    pub fn set_gyro_mode(&mut self, mode: GyroscopeMode) -> (r: Result<(), B::BusError>)
        ensures
            final(self).spec_address() == old(self).spec_address(),
            r is Ok ==> final(self).trace() == old(self).trace().push(
                reg_write_op(
                    old(self).spec_address(),
                    registers::CTRL2_G,
                    rate_nibble(gyro_mode_code(mode)),
                ),
            ),
            r is Err ==> final(self).trace() == old(self).trace(),
    {
        let code = mode.to_bitcode();
        self.set_register(registers::CTRL2_G, code * 16)
    }

    /// Turn both sensors on at their highest supported rate: write 0x80
    /// into CTRL1_XL, then 0x80 into CTRL2_G.
    pub fn init_default(&mut self) -> (r: Result<(), B::BusError>)
        ensures
            final(self).spec_address() == old(self).spec_address(),
            r is Ok ==> final(self).trace() == old(self).trace() + seq![
                reg_write_op(old(self).spec_address(), registers::CTRL1_XL, 0x80),
                reg_write_op(old(self).spec_address(), registers::CTRL2_G, 0x80),
            ],
            r is Err ==> final(self).trace() == old(self).trace() || final(self).trace() == old(
                self,
            ).trace().push(reg_write_op(old(self).spec_address(), registers::CTRL1_XL, 0x80)),
    {
        match self.set_accel_mode(AccelerometerMode::HighPerformance1660Hz) {
            Ok(_) => {},
            Err(e) => {
                return Err(e);
            },
        }
        let r = self.set_gyro_mode(GyroscopeMode::HighPerformance1660Hz);
        proof {
            if r is Ok {
                assert(self.trace() =~= old(self).trace() + seq![
                    reg_write_op(old(self).spec_address(), registers::CTRL1_XL, 0x80),
                    reg_write_op(old(self).spec_address(), registers::CTRL2_G, 0x80),
                ]);
            }
        }
        r
    }

    /// Power both sensors down: write 0 into CTRL1_XL, then 0 into CTRL2_G.
    pub fn full_power_down(&mut self) -> (r: Result<(), B::BusError>)
        ensures
            final(self).spec_address() == old(self).spec_address(),
            r is Ok ==> final(self).trace() == old(self).trace() + seq![
                reg_write_op(old(self).spec_address(), registers::CTRL1_XL, 0),
                reg_write_op(old(self).spec_address(), registers::CTRL2_G, 0),
            ],
            r is Err ==> final(self).trace() == old(self).trace() || final(self).trace() == old(
                self,
            ).trace().push(reg_write_op(old(self).spec_address(), registers::CTRL1_XL, 0)),
    {
        match self.set_accel_mode(AccelerometerMode::PowerDown) {
            Ok(_) => {},
            Err(e) => {
                return Err(e);
            },
        }
        let r = self.set_gyro_mode(GyroscopeMode::PowerDown);
        proof {
            if r is Ok {
                assert(self.trace() =~= old(self).trace() + seq![
                    reg_write_op(old(self).spec_address(), registers::CTRL1_XL, 0),
                    reg_write_op(old(self).spec_address(), registers::CTRL2_G, 0),
                ]);
            }
        }
        r
    }

    /// Overwrite CTRL9_XL with the axis-enable byte: one bit per enabled
    /// accelerometer axis. Disabling an axis does not change the shape of a
    /// read result; the disabled axis's value is stale and must be ignored.
    pub fn set_accel_axes(&mut self, x: bool, y: bool, z: bool) -> (r: Result<(), B::BusError>)
        ensures
            final(self).spec_address() == old(self).spec_address(),
            r is Ok ==> final(self).trace() == old(self).trace().push(
                reg_write_op(old(self).spec_address(), registers::CTRL9_XL, axes_bits(x, y, z)),
            ),
            r is Err ==> final(self).trace() == old(self).trace(),
    {
        let bits = axes_byte(x, y, z);
        self.set_register(registers::CTRL9_XL, bits)
    }

    /// Set the enabled gyroscope axes in CTRL10_C: read the register, then
    /// write it back with the axis-enable bits replaced and its low three
    /// bits (unrelated device state) preserved.
    pub fn set_gyro_axes(&mut self, x: bool, y: bool, z: bool) -> (r: Result<(), B::BusError>)
        ensures
            final(self).spec_address() == old(self).spec_address(),
            match r {
                Ok(_) => exists|prev: u8|
                    final(self).trace() == old(self).trace() + seq![
                        reg_read_op(old(self).spec_address(), registers::CTRL10_C, prev),
                        reg_write_op(
                            old(self).spec_address(),
                            registers::CTRL10_C,
                            axes_bits(x, y, z) | (prev & 7),
                        ),
                    ],
                Err(_) => final(self).trace() == old(self).trace() || exists|prev: u8|
                    final(self).trace() == old(self).trace().push(
                        reg_read_op(old(self).spec_address(), registers::CTRL10_C, prev),
                    ),
            },
    {
        let prev = match self.read_register(registers::CTRL10_C) {
            Ok(v) => v,
            Err(e) => {
                return Err(e);
            },
        };
        let bits = axes_byte(x, y, z);
        let r = self.set_register(registers::CTRL10_C, bits | (prev & 7));
        proof {
            if r is Ok {
                assert(self.trace() =~= old(self).trace() + seq![
                    reg_read_op(old(self).spec_address(), registers::CTRL10_C, prev),
                    reg_write_op(
                        old(self).spec_address(),
                        registers::CTRL10_C,
                        axes_bits(x, y, z) | (prev & 7),
                    ),
                ]);
            }
        }
        r
    }

    /// Read the latest gyroscope sample. A clear readiness bit (bit 1 of
    /// STATUS_REG) is `NotReady`: no fresh data yet, poll again; no further
    /// transaction is issued. With the bit set, the six output registers
    /// starting at OUTX_L_G are read in one auto-incrementing transaction
    /// and assembled little-endian into signed (X, Y, Z).
    pub fn read_gyro(&mut self) -> (r: Reading<B::BusError>)
        ensures
            final(self).spec_address() == old(self).spec_address(),
            match r {
                Reading::Sample(x, y, z) => exists|st: u8, d: Seq<u8>|
                    st & 2 == 2 && d.len() == 6 && final(self).trace() == old(self).trace()
                        + seq![
                        reg_read_op(old(self).spec_address(), registers::STATUS_REG, st),
                        burst_read_op(old(self).spec_address(), registers::OUTX_L_G, d),
                    ] && x == sample_val(d[0], d[1]) && y == sample_val(d[2], d[3]) && z
                        == sample_val(d[4], d[5]),
                Reading::NotReady => exists|st: u8|
                    st & 2 != 2 && final(self).trace() == old(self).trace().push(
                        reg_read_op(old(self).spec_address(), registers::STATUS_REG, st),
                    ),
                Reading::Fault(_) => final(self).trace() == old(self).trace() || exists|st: u8|
                    st & 2 == 2 && final(self).trace() == old(self).trace().push(
                        reg_read_op(old(self).spec_address(), registers::STATUS_REG, st),
                    ),
            },
    {
        let status = match self.read_register(registers::STATUS_REG) {
            Ok(v) => v,
            Err(e) => {
                return Reading::Fault(e);
            },
        };
        if status & 2 != 2 {
            return Reading::NotReady;
        }
        let ghost mid = self.trace();
        let r = self.incremental_read_measurements(registers::OUTX_L_G);
        proof {
            self.lemma_after_burst(old(self).trace(), mid, status, registers::OUTX_L_G, r);
        }
        match r {
            Ok((x, y, z)) => Reading::Sample(x, y, z),
            Err(e) => Reading::Fault(e),
        }
    }

    /// Read the latest accelerometer sample. A clear readiness bit (bit 0 of
    /// STATUS_REG) is `NotReady`: no fresh data yet, poll again; no further
    /// transaction is issued. With the bit set, the six output registers
    /// starting at OUTX_L_XL are read in one auto-incrementing transaction
    /// and assembled little-endian into signed (X, Y, Z).
    pub fn read_accel(&mut self) -> (r: Reading<B::BusError>)
        ensures
            final(self).spec_address() == old(self).spec_address(),
            match r {
                Reading::Sample(x, y, z) => exists|st: u8, d: Seq<u8>|
                    st & 1 == 1 && d.len() == 6 && final(self).trace() == old(self).trace()
                        + seq![
                        reg_read_op(old(self).spec_address(), registers::STATUS_REG, st),
                        burst_read_op(old(self).spec_address(), registers::OUTX_L_XL, d),
                    ] && x == sample_val(d[0], d[1]) && y == sample_val(d[2], d[3]) && z
                        == sample_val(d[4], d[5]),
                Reading::NotReady => exists|st: u8|
                    st & 1 != 1 && final(self).trace() == old(self).trace().push(
                        reg_read_op(old(self).spec_address(), registers::STATUS_REG, st),
                    ),
                Reading::Fault(_) => final(self).trace() == old(self).trace() || exists|st: u8|
                    st & 1 == 1 && final(self).trace() == old(self).trace().push(
                        reg_read_op(old(self).spec_address(), registers::STATUS_REG, st),
                    ),
            },
    {
        let status = match self.read_register(registers::STATUS_REG) {
            Ok(v) => v,
            Err(e) => {
                return Reading::Fault(e);
            },
        };
        if status & 1 != 1 {
            return Reading::NotReady;
        }
        let ghost mid = self.trace();
        let r = self.incremental_read_measurements(registers::OUTX_L_XL);
        proof {
            self.lemma_after_burst(old(self).trace(), mid, status, registers::OUTX_L_XL, r);
        }
        match r {
            Ok((x, y, z)) => Reading::Sample(x, y, z),
            Err(e) => Reading::Fault(e),
        }
    }

    /// Glue between the burst read's trace and the measurement getters'
    /// contracts: with the status read already on the trace, appending the
    /// burst read equals appending both as one two-element extension.
    proof fn lemma_after_burst(
        &self,
        pre: Seq<BusOp>,
        mid: Seq<BusOp>,
        status: u8,
        start_reg: u8,
        r: Result<(i16, i16, i16), B::BusError>,
    )
        requires
            mid == pre.push(reg_read_op(self.spec_address(), registers::STATUS_REG, status)),
            r is Ok ==> exists|d: Seq<u8>|
                d.len() == 6 && self.trace() == mid.push(
                    burst_read_op(self.spec_address(), start_reg, d),
                ) && r->Ok_0.0 == sample_val(d[0], d[1]) && r->Ok_0.1 == sample_val(d[2], d[3])
                    && r->Ok_0.2 == sample_val(d[4], d[5]),
        ensures
            r is Ok ==> exists|d: Seq<u8>|
                d.len() == 6 && self.trace() == pre + seq![
                    reg_read_op(self.spec_address(), registers::STATUS_REG, status),
                    burst_read_op(self.spec_address(), start_reg, d),
                ] && r->Ok_0.0 == sample_val(d[0], d[1]) && r->Ok_0.1 == sample_val(d[2], d[3])
                    && r->Ok_0.2 == sample_val(d[4], d[5]),
    {
        if r is Ok {
            let d = choose|d: Seq<u8>|
                d.len() == 6 && self.trace() == mid.push(
                    burst_read_op(self.spec_address(), start_reg, d),
                ) && r->Ok_0.0 == sample_val(d[0], d[1]) && r->Ok_0.1 == sample_val(d[2], d[3])
                    && r->Ok_0.2 == sample_val(d[4], d[5]);
            assert(self.trace() =~= pre + seq![
                reg_read_op(self.spec_address(), registers::STATUS_REG, status),
                burst_read_op(self.spec_address(), start_reg, d),
            ]);
        }
    }

    /// Read the six consecutive output registers starting at `start_reg` in
    /// one transaction (register auto-increment must be on, as discovery
    /// leaves it) and assemble the three axis values little-endian.
    fn incremental_read_measurements(&mut self, start_reg: u8) -> (r: Result<
        (i16, i16, i16),
        B::BusError,
    >)
        ensures
            final(self).spec_address() == old(self).spec_address(),
            match r {
                Ok(v) => exists|d: Seq<u8>|
                    d.len() == 6 && final(self).trace() == old(self).trace().push(
                        burst_read_op(old(self).spec_address(), start_reg, d),
                    ) && v.0 == sample_val(d[0], d[1]) && v.1 == sample_val(d[2], d[3]) && v.2
                        == sample_val(d[4], d[5]),
                Err(_) => final(self).trace() == old(self).trace(),
            },
    {
        let addr = self.address;
        let req: [u8; 1] = [start_reg];
        let data = match self.bus.transmit_receive(addr, &req, 6) {
            Ok(v) => v,
            Err(e) => {
                return Err(e);
            },
        };
        let x = sample_from_bytes(data[0], data[1]);
        let y = sample_from_bytes(data[2], data[3]);
        let z = sample_from_bytes(data[4], data[5]);
        proof {
            assert(req@ =~= seq![start_reg]);
            assert(data@.len() == 6 && self.trace() == old(self).trace().push(
                burst_read_op(old(self).spec_address(), start_reg, data@),
            ));
        }
        Ok((x, y, z))
    }
}

} // verus!
