//! The Spectre flavour of the testbench.
//!
//! It wires the same array, but with the pulse's polarity reversed: the
//! source starts low and rises to the supply, the gates held low are tied to
//! the pulse's positive terminal, and the rest to its negative terminal. Its
//! edges are sharper (1 ps), the load current is 1 A, and the transient
//! analysis runs with a conservative error preset instead of a fixed step.

use vstd::prelude::*;

use crate::tb::Corner;
use crate::tb::Pulse;
use crate::tb::TbConn;
use crate::tb::TbNet;
use crate::tb::TbSchematic;
use crate::tb::TransistorArrayTb;

verus! {

/// The test current drawn from the drain net, in microamperes (1 A).
pub const SPECTRE_LOAD_UA: u64 = 1_000_000;

/// End time of the transient analysis, in femtoseconds.
pub const SPECTRE_TRAN_STOP_FS: u64 = 2_000_000;

/// An error preset of the transient analysis.
#[derive(Clone, Copy, Debug, PartialEq, Eq, Structural)]
pub enum ErrPreset {
    /// Loosest tolerances.
    Liberal,
    /// Middling tolerances.
    Moderate,
    /// Tightest tolerances.
    Conservative,
}

/// What one Spectre testbench run asks of the simulator: the corner as an
/// option, and a transient analysis with an error preset in place of a step.
#[derive(Clone, Copy, Debug, PartialEq, Eq, Structural)]
pub struct SpectreSimPlan {
    /// The process corner set as a simulator option.
    pub corner: Corner,
    /// End time of the transient analysis, in femtoseconds.
    pub stop_fs: u64,
    /// The error preset of the analysis, if one is set.
    pub errpreset: Option<ErrPreset>,
}

/// The stimulus the Spectre testbench applies: one pulse that starts at zero
/// and rises to the supply voltage after 100 ps, 1 ns wide, with 1 ps edges.
pub open spec fn spectre_input_pulse(voltage_mv: u64) -> Pulse {
    Pulse {
        val0_mv: 0,
        val1_mv: voltage_mv,
        delay_fs: Some(100_000),
        width_fs: Some(1_000_000),
        rise_fs: Some(1_000),
        fall_fs: Some(1_000),
        period_fs: None,
        num_pulses: None,
    }
}

/// Which pulse terminal drives gate `n` under Spectre: the first `n_on`
/// gates follow the positive terminal, the rest the negative one.
pub open spec fn spectre_gate_net(n: int, n_on: int) -> TbNet {
    if n < n_on {
        TbNet::VinPos
    } else {
        TbNet::VinNeg
    }
}

/// Connections of the devices' gates under Spectre, one for each device.
pub open spec fn spectre_gate_conns(n_on: int, num: int) -> Seq<TbConn> {
    Seq::new(
        num as nat,
        |n: int| TbConn { a: TbNet::ArrayVg(n as usize), b: spectre_gate_net(n, n_on) },
    )
}

/// The full connection list of the Spectre testbench, in elaboration order:
/// the pulse's negative terminal to ground, the test current source across
/// drain and ground, the gates, the array's source to the pulse's positive
/// terminal, and its drain to the output net.
pub open spec fn spectre_tb_conns(n_on: int, num: int) -> Seq<TbConn> {
    seq![
        (TbConn { a: TbNet::VinNeg, b: TbNet::Vss }),
        (TbConn { a: TbNet::ItestPos, b: TbNet::ArrayVout }),
        (TbConn { a: TbNet::ItestNeg, b: TbNet::VinNeg }),
    ] + spectre_gate_conns(n_on, num) + seq![
        (TbConn { a: TbNet::ArrayVin, b: TbNet::VinPos }),
        (TbConn { a: TbNet::ArrayVout, b: TbNet::Dout }),
    ]
}

impl TransistorArrayTb {
    /// Elaborates the Spectre testbench around this array.
    pub fn spectre_schematic(&self) -> (r: TbSchematic)
        requires
            self.n_on <= self.dut.num,
        ensures
            r.dut == self.dut,
            r.pulse == spectre_input_pulse(self.pvt.voltage_mv),
            r.load_ua == SPECTRE_LOAD_UA,
            r.output == TbNet::Dout,
            r.conns@ == spectre_tb_conns(self.n_on as int, self.dut.num as int),
    {
        let pulse = Pulse {
            val0_mv: 0,
            val1_mv: self.pvt.voltage_mv,
            delay_fs: Some(100_000),
            width_fs: Some(1_000_000),
            rise_fs: Some(1_000),
            fall_fs: Some(1_000),
            period_fs: None,
            num_pulses: None,
        };
        let mut conns: Vec<TbConn> = Vec::new();
        conns.push(TbConn { a: TbNet::VinNeg, b: TbNet::Vss });
        conns.push(TbConn { a: TbNet::ItestPos, b: TbNet::ArrayVout });
        conns.push(TbConn { a: TbNet::ItestNeg, b: TbNet::VinNeg });
        let ghost head: Seq<TbConn> = conns@;
        let mut n: usize = 0;
        while n < self.n_on
            invariant
                n <= self.n_on <= self.dut.num,
                head.len() == 3,
                conns@ =~= head + spectre_gate_conns(self.n_on as int, self.dut.num as int)
                    .subrange(0, n as int),
            decreases self.n_on - n,
        {
            conns.push(TbConn { a: TbNet::ArrayVg(n), b: TbNet::VinPos });
            proof {
                assert(conns@ =~= head + spectre_gate_conns(
                    self.n_on as int,
                    self.dut.num as int,
                ).subrange(0, n as int + 1));
            }
            n = n + 1;
        }
        while n < self.dut.num
            invariant
                self.n_on <= n <= self.dut.num,
                head.len() == 3,
                conns@ =~= head + spectre_gate_conns(self.n_on as int, self.dut.num as int)
                    .subrange(0, n as int),
            decreases self.dut.num - n,
        {
            conns.push(TbConn { a: TbNet::ArrayVg(n), b: TbNet::VinNeg });
            proof {
                assert(conns@ =~= head + spectre_gate_conns(
                    self.n_on as int,
                    self.dut.num as int,
                ).subrange(0, n as int + 1));
            }
            n = n + 1;
        }
        conns.push(TbConn { a: TbNet::ArrayVin, b: TbNet::VinPos });
        conns.push(TbConn { a: TbNet::ArrayVout, b: TbNet::Dout });
        proof {
            assert(conns@ =~= spectre_tb_conns(self.n_on as int, self.dut.num as int));
        }
        TbSchematic { dut: self.dut, pulse, load_ua: SPECTRE_LOAD_UA, conns, output: TbNet::Dout }
    }

    /// The simulation to run for this testbench under Spectre: its corner,
    /// and a transient analysis to 2 ns with the conservative error preset.
    pub fn spectre_sim_plan(&self) -> (r: SpectreSimPlan)
        ensures
            r == (SpectreSimPlan {
                corner: self.pvt.corner,
                stop_fs: SPECTRE_TRAN_STOP_FS,
                errpreset: Some(ErrPreset::Conservative),
            }),
    {
        SpectreSimPlan {
            corner: self.pvt.corner,
            stop_fs: SPECTRE_TRAN_STOP_FS,
            errpreset: Some(ErrPreset::Conservative),
        }
    }
}

} // verus!
