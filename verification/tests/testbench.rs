use transistor_array::TransistorArray;
use transistor_array::tb::Corner;
use transistor_array::tb::LOAD_CURRENT_UA;
use transistor_array::tb::Pvt;
use transistor_array::tb::SimPlan;
use transistor_array::tb::TRAN_STEP_FS;
use transistor_array::tb::TRAN_STOP_FS;
use transistor_array::tb::TbConn;
use transistor_array::tb::TbNet;
use transistor_array::tb::TranParams;
use transistor_array::tb::TransistorArrayDesign;
use transistor_array::tb::TransistorArrayTb;
use transistor_array::tb::spectre_support::ErrPreset;
use transistor_array::tb::spectre_support::SPECTRE_LOAD_UA;
use transistor_array::tb::spectre_support::SpectreSimPlan;

fn tt_pvt() -> Pvt {
    Pvt::new(Corner::Tt, 1800, 25)
}

fn dut4() -> TransistorArray {
    TransistorArray { pw: 5000, lch: 150, num: 4 }
}

#[test]
fn tb_new_packs_fields() {
    let tb = TransistorArrayTb::new(tt_pvt(), dut4(), 2);
    assert_eq!(tb.pvt, Pvt { corner: Corner::Tt, voltage_mv: 1800, temp_c: 25 });
    assert_eq!(tb.dut, dut4());
    assert_eq!(tb.n_on, 2);
}

#[test]
fn tb_pulse_and_load() {
    let tb = TransistorArrayTb::new(tt_pvt(), dut4(), 2);
    let sch = tb.schematic();
    assert_eq!(sch.pulse.val0_mv, 1800);
    assert_eq!(sch.pulse.val1_mv, 0);
    assert_eq!(sch.pulse.delay_fs, Some(100_000));
    assert_eq!(sch.pulse.width_fs, Some(1_000_000));
    assert_eq!(sch.pulse.rise_fs, Some(100_000));
    assert_eq!(sch.pulse.fall_fs, Some(100_000));
    assert_eq!(sch.pulse.period_fs, None);
    assert_eq!(sch.pulse.num_pulses, Some(1));
    assert_eq!(sch.load_ua, LOAD_CURRENT_UA);
    assert_eq!(sch.output, TbNet::Dout);
    assert_eq!(sch.dut, dut4());
}

#[test]
fn tb_gate_split() {
    let tb = TransistorArrayTb::new(tt_pvt(), dut4(), 2);
    let sch = tb.schematic();
    assert_eq!(sch.conns.len(), 9);
    assert_eq!(sch.conns[0], TbConn { a: TbNet::VinNeg, b: TbNet::Vss });
    assert_eq!(sch.conns[1], TbConn { a: TbNet::ArrayVg(0), b: TbNet::VinNeg });
    assert_eq!(sch.conns[2], TbConn { a: TbNet::ArrayVg(1), b: TbNet::VinNeg });
    assert_eq!(sch.conns[3], TbConn { a: TbNet::ArrayVg(2), b: TbNet::VinPos });
    assert_eq!(sch.conns[4], TbConn { a: TbNet::ArrayVg(3), b: TbNet::VinPos });
    assert_eq!(sch.conns[5], TbConn { a: TbNet::ArrayVin, b: TbNet::VinPos });
    assert_eq!(sch.conns[6], TbConn { a: TbNet::ArrayVout, b: TbNet::Dout });
    assert_eq!(sch.conns[7], TbConn { a: TbNet::ItestPos, b: TbNet::ArrayVout });
    assert_eq!(sch.conns[8], TbConn { a: TbNet::ItestNeg, b: TbNet::VinNeg });
}

#[test]
fn tb_gate_split_edges() {
    let none_on = TransistorArrayTb::new(tt_pvt(), dut4(), 0).schematic();
    for n in 0..4usize {
        assert_eq!(none_on.conns[1 + n], TbConn { a: TbNet::ArrayVg(n), b: TbNet::VinPos });
    }
    let all_on = TransistorArrayTb::new(tt_pvt(), dut4(), 4).schematic();
    for n in 0..4usize {
        assert_eq!(all_on.conns[1 + n], TbConn { a: TbNet::ArrayVg(n), b: TbNet::VinNeg });
    }
}

#[test]
fn tb_sim_plan() {
    let tb = TransistorArrayTb::new(tt_pvt(), dut4(), 1);
    assert_eq!(
        tb.sim_plan(),
        SimPlan {
            corner: Corner::Tt,
            tran: TranParams { stop_fs: TRAN_STOP_FS, step_fs: TRAN_STEP_FS },
        }
    );
    assert_eq!(TRAN_STOP_FS, 2_000_000);
    assert_eq!(TRAN_STEP_FS, 10_000);
}

#[test]
fn spectre_tb_polarity_swapped() {
    let tb = TransistorArrayTb::new(tt_pvt(), dut4(), 2);
    let sch = tb.spectre_schematic();
    assert_eq!(sch.pulse.val0_mv, 0);
    assert_eq!(sch.pulse.val1_mv, 1800);
    assert_eq!(sch.pulse.rise_fs, Some(1_000));
    assert_eq!(sch.pulse.fall_fs, Some(1_000));
    assert_eq!(sch.pulse.num_pulses, None);
    assert_eq!(sch.load_ua, SPECTRE_LOAD_UA);
    assert_eq!(sch.conns.len(), 9);
    assert_eq!(sch.conns[0], TbConn { a: TbNet::VinNeg, b: TbNet::Vss });
    assert_eq!(sch.conns[1], TbConn { a: TbNet::ItestPos, b: TbNet::ArrayVout });
    assert_eq!(sch.conns[2], TbConn { a: TbNet::ItestNeg, b: TbNet::VinNeg });
    assert_eq!(sch.conns[3], TbConn { a: TbNet::ArrayVg(0), b: TbNet::VinPos });
    assert_eq!(sch.conns[4], TbConn { a: TbNet::ArrayVg(1), b: TbNet::VinPos });
    assert_eq!(sch.conns[5], TbConn { a: TbNet::ArrayVg(2), b: TbNet::VinNeg });
    assert_eq!(sch.conns[6], TbConn { a: TbNet::ArrayVg(3), b: TbNet::VinNeg });
    assert_eq!(sch.conns[7], TbConn { a: TbNet::ArrayVin, b: TbNet::VinPos });
    assert_eq!(sch.conns[8], TbConn { a: TbNet::ArrayVout, b: TbNet::Dout });
}

#[test]
fn spectre_tb_sim_plan() {
    let tb = TransistorArrayTb::new(tt_pvt(), dut4(), 1);
    assert_eq!(
        tb.spectre_sim_plan(),
        SpectreSimPlan {
            corner: Corner::Tt,
            stop_fs: 2_000_000,
            errpreset: Some(ErrPreset::Conservative),
        }
    );
}

#[test]
fn design_sweep_plan() {
    let design = TransistorArrayDesign { pw: 5000, lch: 150, num: 4 };
    let dut = design.dut();
    assert_eq!(dut, TransistorArray { pw: 5000, lch: 150, num: 4 });
    let sweep = design.sweep();
    assert_eq!(sweep.len(), 4);
    for (k, tb) in sweep.iter().enumerate() {
        assert_eq!(tb.n_on, k + 1);
        assert_eq!(tb.dut, dut);
        assert_eq!(tb.pvt, Pvt { corner: Corner::Tt, voltage_mv: 1800, temp_c: 25 });
    }
}

#[test]
fn design_sweep_dir_names() {
    assert_eq!(TransistorArrayDesign::sweep_dir_name(1), "on1");
    assert_eq!(TransistorArrayDesign::sweep_dir_name(4), "on4");
}
