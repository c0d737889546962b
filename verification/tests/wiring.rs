use transistor_array::ArrayConn;
use transistor_array::ArrayNet;
use transistor_array::MosParams;
use transistor_array::MosTerm;
use transistor_array::TransistorArray;
use transistor_array::TransistorArrayIo;
use transistor_array::digits::i64_to_string;
use transistor_array::digits::u64_to_string;
use transistor_array::digits::usize_to_string;

#[test]
fn io_bundle_widths() {
    let io = TransistorArrayIo::new(7);
    assert_eq!(io.vg, 7);
    assert_eq!(io.vin, 1);
    assert_eq!(io.vout, 1);
    let d = TransistorArrayIo::default();
    assert_eq!(d.vg, 1);
    assert_eq!(d.vin, 1);
    assert_eq!(d.vout, 1);
}

#[test]
fn block_id_and_name() {
    assert_eq!(TransistorArray::id(), "transistorarray");
    let arr = TransistorArray { pw: 5000, lch: 150, num: 4 };
    assert_eq!(arr.name(), "transistorarray_pw5000_lch150_num4");
    let narrow = TransistorArray { pw: -25, lch: 150, num: 2 };
    assert_eq!(narrow.name(), "transistorarray_pw-25_lch150_num2");
}

#[test]
fn block_io_matches_count() {
    let arr = TransistorArray { pw: 5000, lch: 150, num: 9 };
    assert_eq!(arr.io(), TransistorArrayIo { vg: 9, vin: 1, vout: 1 });
}

#[test]
fn decimal_rendering() {
    assert_eq!(u64_to_string(0), "0");
    assert_eq!(u64_to_string(10), "10");
    assert_eq!(u64_to_string(5000), "5000");
    assert_eq!(u64_to_string(u64::MAX), "18446744073709551615");
    assert_eq!(usize_to_string(150), "150");
    assert_eq!(i64_to_string(0), "0");
    assert_eq!(i64_to_string(-1), "-1");
    assert_eq!(i64_to_string(i64::MIN), "-9223372036854775808");
    assert_eq!(i64_to_string(i64::MAX), "9223372036854775807");
}

#[test]
fn array_schematic_instances() {
    let arr = TransistorArray { pw: 5000, lch: 150, num: 3 };
    let sch = arr.schematic();
    assert_eq!(sch.instances.len(), 3);
    for inst in &sch.instances {
        assert_eq!(*inst, MosParams { pw: 5000, lch: 150 });
    }
}

#[test]
fn array_schematic_connections() {
    let arr = TransistorArray { pw: 5000, lch: 150, num: 3 };
    let sch = arr.schematic();
    assert_eq!(sch.conns.len(), 12);
    for n in 0..3usize {
        assert_eq!(
            sch.conns[4 * n],
            ArrayConn { net: ArrayNet::Vg(n), inst: n, term: MosTerm::Gate }
        );
        assert_eq!(
            sch.conns[4 * n + 1],
            ArrayConn { net: ArrayNet::Vin, inst: n, term: MosTerm::Source }
        );
        assert_eq!(
            sch.conns[4 * n + 2],
            ArrayConn { net: ArrayNet::Vout, inst: n, term: MosTerm::Drain }
        );
        assert_eq!(
            sch.conns[4 * n + 3],
            ArrayConn { net: ArrayNet::Vin, inst: n, term: MosTerm::Bulk }
        );
    }
}

#[test]
fn array_schematic_empty() {
    let arr = TransistorArray { pw: 5000, lch: 150, num: 0 };
    let sch = arr.schematic();
    assert_eq!(sch.instances.len(), 0);
    assert_eq!(sch.conns.len(), 0);
}
