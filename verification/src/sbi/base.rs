//! The Base extension: versions, implementation id, extension probing and the
//! machine identification registers.

use vstd::prelude::*;
use crate::frame::TrapFrame;
use super::{SbiConfig, SbiRequest, SbiRet, MachineIdCsr, SUCCESS, ERR_FAILED, ERR_NOT_SUPPORTED, EID_BASE};
use super::legacy;

verus! {

pub const GET_SPECIFICATION_VER: i64 = 0;
pub const GET_IMPL_ID: i64 = 1;
pub const GET_IMPL_VER: i64 = 2;
pub const PROBE_EXTENSION: i64 = 3;
pub const GET_MACHINE_VENDOR_ID: i64 = 4;
pub const GET_MACHINE_ARCH_ID: i64 = 5;
pub const GET_MACHINE_IMPL_ID: i64 = 6;

/// An SBI version number: major in bits 30..24, minor in bits 23..0.
pub open spec fn spec_version(major: u32, minor: u32) -> int {
    (major % 0x80) * 0x100_0000 + minor % 0x100_0000
}

/// The extensions that probing reports: Base and the implemented legacy calls.
pub open spec fn spec_probe(ext: i64) -> bool {
    ext == EID_BASE || legacy::spec_has_extension(ext)
}

pub open spec fn spec_handler(tf: TrapFrame, cfg: SbiConfig) -> SbiRequest {
    let fid = tf.a6;
    if fid == GET_SPECIFICATION_VER {
        SbiRequest::Reply(SbiRet(SUCCESS, spec_version(cfg.spec_major, cfg.spec_minor) as i64))
    } else if fid == GET_IMPL_ID {
        SbiRequest::Reply(SbiRet(SUCCESS, cfg.impl_id))
    } else if fid == GET_IMPL_VER {
        SbiRequest::Reply(SbiRet(SUCCESS, spec_version(cfg.impl_major, cfg.impl_minor) as i64))
    } else if fid == PROBE_EXTENSION {
        if spec_probe(tf.a0) {
            SbiRequest::Reply(SbiRet(SUCCESS, tf.a0))
        } else {
            SbiRequest::Reply(SbiRet(ERR_FAILED, 0))
        }
    } else if fid == GET_MACHINE_VENDOR_ID {
        SbiRequest::ReadMachineId(MachineIdCsr::Vendor)
    } else if fid == GET_MACHINE_ARCH_ID {
        SbiRequest::ReadMachineId(MachineIdCsr::Arch)
    } else if fid == GET_MACHINE_IMPL_ID {
        SbiRequest::ReadMachineId(MachineIdCsr::Impl)
    } else {
        SbiRequest::Reply(SbiRet(ERR_NOT_SUPPORTED, 0))
    }
}

/// Answers the Base function in a6. The version, id and probe functions are
/// answered at once; the machine id functions ask for their CSR.
pub fn handler(tf: &TrapFrame, cfg: &SbiConfig) -> (r: SbiRequest)
    ensures
        r == spec_handler(*tf, *cfg),
        tf.a6 == GET_SPECIFICATION_VER ==> r == SbiRequest::Reply(SbiRet(SUCCESS,
            ((cfg.spec_major % 0x80) * 0x100_0000 + cfg.spec_minor % 0x100_0000) as i64)),
        tf.a6 == GET_IMPL_VER ==> r == SbiRequest::Reply(SbiRet(SUCCESS,
            ((cfg.impl_major % 0x80) * 0x100_0000 + cfg.impl_minor % 0x100_0000) as i64)),
        tf.a6 == GET_IMPL_ID ==> r == SbiRequest::Reply(SbiRet(SUCCESS, cfg.impl_id)),
        tf.a6 == PROBE_EXTENSION && (tf.a0 == 0x10 || 0 <= tf.a0 <= 4 || tf.a0 == 8) ==> r == SbiRequest::Reply(
            SbiRet(SUCCESS, tf.a0)),
        tf.a6 == PROBE_EXTENSION && !(tf.a0 == 0x10 || 0 <= tf.a0 <= 4 || tf.a0 == 8) ==> r == SbiRequest::Reply(
            SbiRet(ERR_FAILED, 0)),
        (tf.a6 < 0 || tf.a6 > 6) ==> r == SbiRequest::Reply(SbiRet(ERR_NOT_SUPPORTED, 0)),
{
    let fid = tf.a6;
    if fid == GET_SPECIFICATION_VER {
        SbiRequest::Reply(SbiRet(SUCCESS, make_ver(cfg.spec_major, cfg.spec_minor) as i64))
    } else if fid == GET_IMPL_ID {
        SbiRequest::Reply(SbiRet(SUCCESS, cfg.impl_id))
    } else if fid == GET_IMPL_VER {
        SbiRequest::Reply(SbiRet(SUCCESS, make_ver(cfg.impl_major, cfg.impl_minor) as i64))
    } else if fid == PROBE_EXTENSION {
        let ext = tf.a0;
        if probe_extension(ext) {
            SbiRequest::Reply(SbiRet(SUCCESS, ext))
        } else {
            SbiRequest::Reply(SbiRet(ERR_FAILED, 0))
        }
    } else if fid == GET_MACHINE_VENDOR_ID {
        SbiRequest::ReadMachineId(MachineIdCsr::Vendor)
    } else if fid == GET_MACHINE_ARCH_ID {
        SbiRequest::ReadMachineId(MachineIdCsr::Arch)
    } else if fid == GET_MACHINE_IMPL_ID {
        SbiRequest::ReadMachineId(MachineIdCsr::Impl)
    } else {
        SbiRequest::Reply(SbiRet(ERR_NOT_SUPPORTED, 0))
    }
}

/// The reply to a machine id function: the CSR's value, or 0 when the CSR is
/// not implemented.
pub fn machine_id_reply(id: Option<usize>) -> (r: SbiRet)
    ensures
        r == SbiRet(SUCCESS, match id { Some(bits) => bits as i64, None => 0 }),
{
    let val = if let Some(bits) = id { bits } else { 0 };
    SbiRet(SUCCESS, val as i64)
}

/// Packs a major and minor version number the way the SBI specification lays
/// them out: major (7 bits) in bits 30..24, minor (24 bits) in bits 23..0.
pub fn make_ver(major: u32, minor: u32) -> (r: u32)
    ensures
        r == spec_version(major, minor),
        r >> 24 == major % 0x80,
        r & 0xff_ffff == minor % 0x100_0000,
        r < 0x8000_0000,
{
    let ma = major & 0x7f;
    let mi = minor & 0xff_ffff;
    let r = (ma << 24) | mi;
    assert(r == (major % 0x80) * 0x100_0000 + minor % 0x100_0000 && r >> 24 == major % 0x80
        && r & 0xff_ffff == minor % 0x100_0000 && r < 0x8000_0000) by (bit_vector)
        requires
            ma == major & 0x7f,
            mi == minor & 0xff_ffff,
            r == (ma << 24) | mi,
    ;
    r
}

/// Whether `ext` is an extension this firmware answers to through probing:
/// Base and the implemented legacy calls.
pub fn probe_extension(ext: i64) -> (r: bool)
    ensures
        r == spec_probe(ext),
{
    (EID_BASE == ext) || (legacy::EID_SET_TIMER == ext) || (legacy::EID_CONSOLE_PUTCHAR == ext)
        || (legacy::EID_CONSOLE_GETCHAR == ext) || (legacy::EID_CLEAR_IPI == ext)
        || (legacy::EID_SEND_IPI == ext) || (legacy::EID_SHUTDOWN == ext)
}

} // verus!
