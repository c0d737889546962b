//! A parameterized array of parallel PMOS transistors, modelled as plain data.
//!
//! The array block describes `num` identical PMOS devices whose gates are
//! brought out as an input bus, and whose sources, drains and bulks are tied
//! to shared nets. The schematic is produced here as an explicit list of
//! device instances and connections, so that the wiring rules are stated and
//! proved rather than implied by a builder.

use vstd::prelude::*;

pub mod digits;
pub mod tb;

use crate::digits::{dec_digits, i64_digits, i64_to_string, usize_to_string};

verus! {

/// The I/O bundle of the transistor array: a gate-input bus of one signal
/// per transistor, one shared source/bulk input, and one drain output.
/// Signal widths are recorded as plain counts.
#[derive(Clone, Copy, Debug, PartialEq, Eq, Structural)]
pub struct TransistorArrayIo {
    /// Number of gate input signals (one per transistor).
    pub vg: usize,
    /// Width of the shared source/bulk input (a single signal).
    pub vin: usize,
    /// Width of the drain output (a single signal).
    pub vout: usize,
}

impl TransistorArrayIo {
    /// Builds the bundle for an array of `num_transistors` devices.
    pub fn new(num_transistors: usize) -> (r: Self)
        ensures
            r == (TransistorArrayIo { vg: num_transistors, vin: 1, vout: 1 }),
    {
        TransistorArrayIo { vg: num_transistors, vin: 1, vout: 1 }
    }
}

impl Default for TransistorArrayIo {
    /// The default bundle has a single gate line.
    fn default() -> (r: Self)
        ensures
            r == (TransistorArrayIo { vg: 1, vin: 1, vout: 1 }),
    {
        TransistorArrayIo { vg: 1, vin: 1, vout: 1 }
    }
}

/// An array of `num` parallel PMOS transistors, each of width `pw` and
/// channel length `lch`.
#[derive(Clone, Copy, Debug, Hash, PartialEq, Eq, Structural)]
pub struct TransistorArray {
    /// PMOS width.
    pub pw: i64,
    /// Channel length.
    pub lch: i64,
    /// Number of transistors.
    pub num: usize,
}

/// The characters of the array block's name for the given parameters.
pub open spec fn name_chars(pw: int, lch: int, num: int) -> Seq<char> {
    "transistorarray_pw"@ + i64_digits(pw) + "_lch"@ + i64_digits(lch) + "_num"@
        + dec_digits(num as nat)
}

impl TransistorArray {
    /// The fixed identifier of this block kind.
    pub fn id() -> (r: String)
        ensures
            r@ == "transistorarray"@,
    {
        String::from_str("transistorarray")
    }

    /// The block's name, unique per parameter triple:
    /// `transistorarray_pw{pw}_lch{lch}_num{num}`.
    pub fn name(&self) -> (r: String)
        ensures
            r@ == name_chars(self.pw as int, self.lch as int, self.num as int),
    {
        let mut s = String::from_str("transistorarray_pw");
        let pw_s = i64_to_string(self.pw);
        s.append(pw_s.as_str());
        s.append("_lch");
        let lch_s = i64_to_string(self.lch);
        s.append(lch_s.as_str());
        s.append("_num");
        let num_s = usize_to_string(self.num);
        s.append(num_s.as_str());
        s
    }

    /// The I/O bundle of this block: one gate line per transistor.
    pub fn io(&self) -> (r: TransistorArrayIo)
        ensures
            r == (TransistorArrayIo { vg: self.num, vin: 1, vout: 1 }),
    {
        TransistorArrayIo::new(self.num)
    }

    /// Elaborates the array: one PMOS per index, its gate on its own `vg`
    /// line, source and bulk on the shared `vin` net, drain on `vout`.
    pub fn schematic(&self) -> (r: ArraySchematic)
        ensures
            r.instances@ == array_instances(self.pw, self.lch, self.num as int),
            r.conns@ == array_conns(self.num as int),
    {
        let mut instances: Vec<MosParams> = Vec::new();
        let mut conns: Vec<ArrayConn> = Vec::new();
        let mut n: usize = 0;
        while n < self.num
            invariant
                n <= self.num,
                instances@ == array_instances(self.pw, self.lch, n as int),
                conns@ == array_conns(n as int),
            decreases self.num - n,
        {
            instances.push(MosParams { pw: self.pw, lch: self.lch });
            conns.push(ArrayConn { net: ArrayNet::Vg(n), inst: n, term: MosTerm::Gate });
            conns.push(ArrayConn { net: ArrayNet::Vin, inst: n, term: MosTerm::Source });
            conns.push(ArrayConn { net: ArrayNet::Vout, inst: n, term: MosTerm::Drain });
            conns.push(ArrayConn { net: ArrayNet::Vin, inst: n, term: MosTerm::Bulk });
            proof {
                assert(instances@ =~= array_instances(self.pw, self.lch, n as int + 1));
                assert(conns@ =~= array_conns(n as int) + transistor_conns(n as int));
            }
            n = n + 1;
        }
        ArraySchematic { instances, conns }
    }
}

/// A net of the array cell: one gate line, the shared source/bulk input, or
/// the drain output.
#[derive(Clone, Copy, Debug, PartialEq, Eq, Structural)]
pub enum ArrayNet {
    /// A device's gate line, by device index.
    Vg(usize),
    /// The shared source/bulk input net.
    Vin,
    /// The drain output net.
    Vout,
}

/// A terminal of a MOS device.
#[derive(Clone, Copy, Debug, PartialEq, Eq, Structural)]
pub enum MosTerm {
    /// Gate.
    Gate,
    /// Source.
    Source,
    /// Drain.
    Drain,
    /// Bulk.
    Bulk,
}

/// The dimensions of one PMOS instance.
#[derive(Clone, Copy, Debug, PartialEq, Eq, Structural)]
pub struct MosParams {
    /// PMOS width.
    pub pw: i64,
    /// Channel length.
    pub lch: i64,
}

/// One connection of the array cell: a net tied to a terminal of an instance.
#[derive(Clone, Copy, Debug, PartialEq, Eq, Structural)]
pub struct ArrayConn {
    /// The net being connected.
    pub net: ArrayNet,
    /// The index of the instance whose terminal is connected.
    pub inst: usize,
    /// The terminal of that instance.
    pub term: MosTerm,
}

/// The elaborated array: its device instances and its connection list.
#[derive(Clone, Debug, PartialEq, Eq)]
pub struct ArraySchematic {
    /// The PMOS instances, in index order.
    pub instances: Vec<MosParams>,
    /// All net-to-terminal connections, four per instance.
    pub conns: Vec<ArrayConn>,
}

/// The instance list of an array of `num` devices of width `pw` and channel
/// length `lch`.
pub open spec fn array_instances(pw: i64, lch: i64, num: int) -> Seq<MosParams> {
    Seq::new(num as nat, |i: int| MosParams { pw, lch })
}

/// The four connections of transistor `n`: gate on `vg[n]`, source on `vin`,
/// drain on `vout`, bulk on `vin`.
pub open spec fn transistor_conns(n: int) -> Seq<ArrayConn> {
    seq![
        ArrayConn { net: ArrayNet::Vg(n as usize), inst: n as usize, term: MosTerm::Gate },
        ArrayConn { net: ArrayNet::Vin, inst: n as usize, term: MosTerm::Source },
        ArrayConn { net: ArrayNet::Vout, inst: n as usize, term: MosTerm::Drain },
        ArrayConn { net: ArrayNet::Vin, inst: n as usize, term: MosTerm::Bulk },
    ]
}

/// The connection list of the whole array, transistor by transistor.
pub open spec fn array_conns(num: int) -> Seq<ArrayConn>
    decreases num,
{
    if num <= 0 {
        Seq::empty()
    } else {
        array_conns(num - 1) + transistor_conns(num - 1)
    }
}

} // verus!
