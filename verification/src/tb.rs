//! Testbench and design-sweep models for the transistor array.
//!
//! The testbench drives the array's shared source with a pulsed voltage
//! source, pulls a fixed test current out of the drain net, and ties a chosen
//! number of gates to the pulse's low side while the rest follow its high
//! side. All electrical quantities are held as plain integers: voltages in
//! millivolts, currents in microamperes, times in femtoseconds.

use vstd::prelude::*;

pub mod spectre_support;

use crate::TransistorArray;
use crate::digits::dec_digits;
use crate::digits::usize_to_string;

verus! {

/// A process corner of the PDK.
#[derive(Clone, Copy, Debug, Hash, PartialEq, Eq, Structural)]
pub enum Corner {
    /// Typical-typical.
    Tt,
    /// Slow-fast.
    Sf,
    /// Fast-slow.
    Fs,
    /// Fast-fast.
    Ff,
    /// Slow-slow.
    Ss,
}

/// A process-voltage-temperature condition.
#[derive(Clone, Copy, Debug, Hash, PartialEq, Eq, Structural)]
pub struct Pvt {
    /// Process corner.
    pub corner: Corner,
    /// Supply voltage, in millivolts.
    pub voltage_mv: u64,
    /// Temperature, in degrees Celsius.
    pub temp_c: i64,
}

impl Pvt {
    /// Packs a corner, a supply voltage and a temperature into one condition.
    pub fn new(corner: Corner, voltage_mv: u64, temp_c: i64) -> (r: Self)
        ensures
            r == (Pvt { corner, voltage_mv, temp_c }),
    {
        Pvt { corner, voltage_mv, temp_c }
    }
}

/// The parameters of a pulsed voltage source. Levels are in millivolts,
/// times in femtoseconds; an absent field is left to the simulator's default.
#[derive(Clone, Copy, Debug, PartialEq, Eq, Structural)]
pub struct Pulse {
    /// Initial level, in millivolts.
    pub val0_mv: u64,
    /// Pulsed level, in millivolts.
    pub val1_mv: u64,
    /// Delay before the first edge, in femtoseconds.
    pub delay_fs: Option<u64>,
    /// Pulse width, in femtoseconds.
    pub width_fs: Option<u64>,
    /// Rise time, in femtoseconds.
    pub rise_fs: Option<u64>,
    /// Fall time, in femtoseconds.
    pub fall_fs: Option<u64>,
    /// Period, in femtoseconds.
    pub period_fs: Option<u64>,
    /// Number of pulses.
    pub num_pulses: Option<u64>,
}

/// The stimulus the testbench applies: one pulse that starts at the supply
/// voltage, drops to zero after 100 ps, stays low for 1 ns, and returns,
/// with 100 ps edges.
pub open spec fn input_pulse(voltage_mv: u64) -> Pulse {
    Pulse {
        val0_mv: voltage_mv,
        val1_mv: 0,
        delay_fs: Some(100_000),
        width_fs: Some(1_000_000),
        rise_fs: Some(100_000),
        fall_fs: Some(100_000),
        period_fs: None,
        num_pulses: Some(1),
    }
}

/// A testbench around one transistor array: the condition to simulate at,
/// the device under test, and how many of its gates are driven by the
/// pulse's low side.
#[derive(Clone, Copy, Debug, Hash, PartialEq, Eq, Structural)]
pub struct TransistorArrayTb {
    /// Process, voltage and temperature condition.
    pub pvt: Pvt,
    /// The array under test.
    pub dut: TransistorArray,
    /// How many gates are tied to the pulse source's negative terminal.
    pub n_on: usize,
}

impl TransistorArrayTb {
    /// Packs a condition, a device under test and a gate count.
    pub fn new(pvt: Pvt, dut: TransistorArray, n_on: usize) -> (r: Self)
        ensures
            r == (TransistorArrayTb { pvt, dut, n_on }),
    {
        TransistorArrayTb { pvt, dut, n_on }
    }

    /// Elaborates the testbench: the array under test, the pulse source on
    /// its shared source net, a fixed load current out of its drain net, and
    /// the first `n_on` gates on the pulse's negative terminal with the rest
    /// on its positive terminal. The measured output is the `dout` net.
    pub fn schematic(&self) -> (r: TbSchematic)
        requires
            self.n_on <= self.dut.num,
        ensures
            r.dut == self.dut,
            r.pulse == input_pulse(self.pvt.voltage_mv),
            r.load_ua == LOAD_CURRENT_UA,
            r.output == TbNet::Dout,
            r.conns@ == tb_conns(self.n_on as int, self.dut.num as int),
    {
        let pulse = Pulse {
            val0_mv: self.pvt.voltage_mv,
            val1_mv: 0,
            delay_fs: Some(100_000),
            width_fs: Some(1_000_000),
            rise_fs: Some(100_000),
            fall_fs: Some(100_000),
            period_fs: None,
            num_pulses: Some(1),
        };
        let mut conns: Vec<TbConn> = Vec::new();
        conns.push(TbConn { a: TbNet::VinNeg, b: TbNet::Vss });
        let mut n: usize = 0;
        while n < self.n_on
            invariant
                n <= self.n_on <= self.dut.num,
                conns@ =~= seq![(TbConn { a: TbNet::VinNeg, b: TbNet::Vss })] + gate_conns(
                    self.n_on as int,
                    self.dut.num as int,
                ).subrange(0, n as int),
            decreases self.n_on - n,
        {
            conns.push(TbConn { a: TbNet::ArrayVg(n), b: TbNet::VinNeg });
            proof {
                assert(conns@ =~= seq![(TbConn { a: TbNet::VinNeg, b: TbNet::Vss })]
                    + gate_conns(self.n_on as int, self.dut.num as int).subrange(
                    0,
                    n as int + 1,
                ));
            }
            n = n + 1;
        }
        while n < self.dut.num
            invariant
                self.n_on <= n <= self.dut.num,
                conns@ =~= seq![(TbConn { a: TbNet::VinNeg, b: TbNet::Vss })] + gate_conns(
                    self.n_on as int,
                    self.dut.num as int,
                ).subrange(0, n as int),
            decreases self.dut.num - n,
        {
            conns.push(TbConn { a: TbNet::ArrayVg(n), b: TbNet::VinPos });
            proof {
                assert(conns@ =~= seq![(TbConn { a: TbNet::VinNeg, b: TbNet::Vss })]
                    + gate_conns(self.n_on as int, self.dut.num as int).subrange(
                    0,
                    n as int + 1,
                ));
            }
            n = n + 1;
        }
        conns.push(TbConn { a: TbNet::ArrayVin, b: TbNet::VinPos });
        conns.push(TbConn { a: TbNet::ArrayVout, b: TbNet::Dout });
        conns.push(TbConn { a: TbNet::ItestPos, b: TbNet::ArrayVout });
        conns.push(TbConn { a: TbNet::ItestNeg, b: TbNet::VinNeg });
        proof {
            assert(conns@ =~= tb_conns(self.n_on as int, self.dut.num as int));
        }
        TbSchematic { dut: self.dut, pulse, load_ua: LOAD_CURRENT_UA, conns, output: TbNet::Dout }
    }

    /// The simulation to run for this testbench: its corner as a simulator
    /// option, and a transient analysis to 2 ns in 10 ps steps.
    pub fn sim_plan(&self) -> (r: SimPlan)
        ensures
            r == (SimPlan {
                corner: self.pvt.corner,
                tran: TranParams { stop_fs: TRAN_STOP_FS, step_fs: TRAN_STEP_FS },
            }),
    {
        SimPlan {
            corner: self.pvt.corner,
            tran: TranParams { stop_fs: TRAN_STOP_FS, step_fs: TRAN_STEP_FS },
        }
    }
}

/// The fixed test current drawn from the array's drain net, in microamperes.
pub const LOAD_CURRENT_UA: u64 = 1000;

/// End time of the transient analysis, in femtoseconds.
pub const TRAN_STOP_FS: u64 = 2_000_000;

/// Step of the transient analysis, in femtoseconds.
pub const TRAN_STEP_FS: u64 = 10_000;

/// A net of the testbench cell.
#[derive(Clone, Copy, Debug, PartialEq, Eq, Structural)]
pub enum TbNet {
    /// Global ground.
    Vss,
    /// Supply net (declared, left undriven).
    Vdd,
    /// The measured output net.
    Dout,
    /// Positive terminal of the pulse source.
    VinPos,
    /// Negative terminal of the pulse source.
    VinNeg,
    /// Positive terminal of the test current source.
    ItestPos,
    /// Negative terminal of the test current source.
    ItestNeg,
    /// A gate line of the array under test.
    ArrayVg(usize),
    /// The array's shared source/bulk input.
    ArrayVin,
    /// The array's drain output.
    ArrayVout,
}

/// One connection of the testbench: two nets or terminals tied together.
#[derive(Clone, Copy, Debug, PartialEq, Eq, Structural)]
pub struct TbConn {
    /// The terminal or net being connected.
    pub a: TbNet,
    /// What it is connected to.
    pub b: TbNet,
}

/// The elaborated testbench: the array under test, its stimulus and load,
/// the connection list, and the net whose voltage is measured.
#[derive(Clone, Debug, PartialEq, Eq)]
pub struct TbSchematic {
    /// The array under test.
    pub dut: TransistorArray,
    /// The pulsed voltage source driving the array.
    pub pulse: Pulse,
    /// The constant current drawn from the drain net, in microamperes.
    pub load_ua: u64,
    /// All connections, in elaboration order.
    pub conns: Vec<TbConn>,
    /// The net whose transient voltage the testbench saves.
    pub output: TbNet,
}

/// A transient analysis: how long to simulate and at what step.
#[derive(Clone, Copy, Debug, PartialEq, Eq, Structural)]
pub struct TranParams {
    /// End time, in femtoseconds.
    pub stop_fs: u64,
    /// Step, in femtoseconds.
    pub step_fs: u64,
}

/// What one testbench run asks of the simulator.
#[derive(Clone, Copy, Debug, PartialEq, Eq, Structural)]
pub struct SimPlan {
    /// The process corner set as a simulator option.
    pub corner: Corner,
    /// The transient analysis to run.
    pub tran: TranParams,
}

/// Which pulse terminal drives gate `n` when the first `n_on` gates are on
/// the negative terminal.
pub open spec fn gate_net(n: int, n_on: int) -> TbNet {
    if n < n_on {
        TbNet::VinNeg
    } else {
        TbNet::VinPos
    }
}

/// Connections of the devices' gates, one for each device.
pub open spec fn gate_conns(n_on: int, num: int) -> Seq<TbConn> {
    Seq::new(num as nat, |n: int| TbConn { a: TbNet::ArrayVg(n as usize), b: gate_net(n, n_on) })
}

/// The full connection list of the testbench, in elaboration order: the
/// pulse's negative terminal to ground, the gates, the array's source to the
/// pulse's positive terminal, its drain to the output net, and the test
/// current source across drain and ground.
pub open spec fn tb_conns(n_on: int, num: int) -> Seq<TbConn> {
    seq![(TbConn { a: TbNet::VinNeg, b: TbNet::Vss })] + gate_conns(n_on, num) + seq![
        (TbConn { a: TbNet::ArrayVin, b: TbNet::VinPos }),
        (TbConn { a: TbNet::ArrayVout, b: TbNet::Dout }),
        (TbConn { a: TbNet::ItestPos, b: TbNet::ArrayVout }),
        (TbConn { a: TbNet::ItestNeg, b: TbNet::VinNeg }),
    ]
}

/// How many transistors the design sweep's array has, and how many sweep
/// steps are run: one per possible nonzero count of gates held low.
pub const SWEEP_ARRAY_SIZE: usize = 4;

/// The condition every sweep step simulates at: the typical corner, a 1.8 V
/// supply, 25 degrees Celsius.
pub open spec fn sweep_pvt() -> Pvt {
    Pvt { corner: Corner::Tt, voltage_mv: 1800, temp_c: 25 }
}

/// The condition every sweep step simulates at, as a value.
pub fn sweep_condition() -> (r: Pvt)
    ensures
        r == sweep_pvt(),
{
    Pvt { corner: Corner::Tt, voltage_mv: 1800, temp_c: 25 }
}

/// A sweep over how many of the array's gates are pulled low: it simulates
/// the same four-transistor array once for each count from one to four and
/// records the output voltage of each run.
#[derive(Clone, Copy, Debug, PartialEq, Eq, Structural)]
pub struct TransistorArrayDesign {
    /// The PMOS width of the array.
    pub pw: i64,
    /// The transistor channel length.
    pub lch: i64,
    /// Unused: the sweep always builds a four-transistor array.
    pub num: usize,
}

impl TransistorArrayDesign {
    /// The array the sweep simulates and returns: four transistors of this
    /// design's width and length, whatever its `num` field holds.
    pub fn dut(&self) -> (r: TransistorArray)
        ensures
            r == (TransistorArray { pw: self.pw, lch: self.lch, num: SWEEP_ARRAY_SIZE }),
    {
        TransistorArray { pw: self.pw, lch: self.lch, num: SWEEP_ARRAY_SIZE }
    }

    /// The testbenches of the sweep, in run order: step `k` holds the first
    /// `k + 1` gates low, at the fixed condition, around the same array.
    pub fn sweep(&self) -> (r: Vec<TransistorArrayTb>)
        ensures
            r@.len() == SWEEP_ARRAY_SIZE as int,
            forall|k: int|
                0 <= k < SWEEP_ARRAY_SIZE as int ==> r@[k] == (TransistorArrayTb {
                    pvt: sweep_pvt(),
                    dut: TransistorArray { pw: self.pw, lch: self.lch, num: SWEEP_ARRAY_SIZE },
                    n_on: (k + 1) as usize,
                }),
    {
        let pvt = Pvt::new(Corner::Tt, 1800, 25);
        let dut = self.dut();
        let mut r: Vec<TransistorArrayTb> = Vec::new();
        let mut i: usize = 1;
        while i < SWEEP_ARRAY_SIZE + 1
            invariant
                1 <= i <= SWEEP_ARRAY_SIZE + 1,
                r@.len() == i - 1,
                pvt == sweep_pvt(),
                dut == (TransistorArray { pw: self.pw, lch: self.lch, num: SWEEP_ARRAY_SIZE }),
                forall|k: int|
                    0 <= k < i - 1 ==> r@[k] == (TransistorArrayTb {
                        pvt: sweep_pvt(),
                        dut: TransistorArray {
                            pw: self.pw,
                            lch: self.lch,
                            num: SWEEP_ARRAY_SIZE,
                        },
                        n_on: (k + 1) as usize,
                    }),
            decreases SWEEP_ARRAY_SIZE + 1 - i,
        {
            r.push(TransistorArrayTb::new(pvt, dut, i));
            i = i + 1;
        }
        r
    }

    /// Every testbench of the sweep holds at most as many gates low as the
    /// array has transistors, so each one can be elaborated.
    pub proof fn sweep_fits(&self, tbs: Seq<TransistorArrayTb>)
        requires
            tbs.len() == SWEEP_ARRAY_SIZE as int,
            forall|k: int|
                0 <= k < SWEEP_ARRAY_SIZE as int ==> tbs[k] == (TransistorArrayTb {
                    pvt: sweep_pvt(),
                    dut: TransistorArray { pw: self.pw, lch: self.lch, num: SWEEP_ARRAY_SIZE },
                    n_on: (k + 1) as usize,
                }),
        ensures
            forall|k: int|
                0 <= k < tbs.len() ==> #[trigger] tbs[k].n_on <= tbs[k].dut.num,
    {
    }

    /// The working-directory name of sweep step `i`: `on{i}`.
    pub fn sweep_dir_name(i: usize) -> (r: String)
        ensures
            r@ == "on"@ + dec_digits(i as nat),
    {
        let mut s = String::from_str("on");
        let d = usize_to_string(i);
        s.append(d.as_str());
        s
    }
}

} // verus!
