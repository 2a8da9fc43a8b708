//! The closed set of STK500 opcodes, status bits, and the sentinel bytes that
//! frame requests and responses on the wire.

use vstd::prelude::*;

verus! {

/// Leading byte of every valid response frame.
pub const RESP_INSYNC: u8 = 0x14;

/// Trailing byte of every valid response frame.
pub const RESP_OK: u8 = 0x10;

/// End-of-packet sentinel terminating every request frame.
pub const SYNC_CRC_EOP: u8 = 0x20;

/// Every constant of the STK500 wire protocol: response codes, the
/// end-of-packet sentinel, command opcodes and parameter identifiers.
/// The numeric value each variant stands for on the wire is given by
/// [`opcode`]; the table is total, so every constructible `Command`
/// also has an expected-response-length rule.
#[derive(Clone, Copy, Debug, PartialEq, Eq, Structural)]
pub enum Command {
    RespStkOk,
    RespStkFailed,
    RespStkUnknown,
    RespStkNodevice,
    RespStkInsync,
    RespStkNosync,
    RespAdcChannelError,
    RespAdcMeasureOk,
    RespPwmChannelError,
    RespPwmAdjustOk,
    SyncCrcEop,
    CmndStkGetSync,
    CmndStkGetSignOn,
    CmndStkSetParameter,
    CmndStkGetParameter,
    CmndStkSetDevice,
    CmndStkSetDeviceExt,
    CmndStkEnterProgmode,
    CmndStkLeaveProgmode,
    CmndStkChipErase,
    CmndStkCheckAutoinc,
    CmndStkLoadAddress,
    CmndStkUniversal,
    CmndStkUniversalMulti,
    CmndStkProgFlash,
    CmndStkProgData,
    CmndStkProgFuse,
    CmndStkProgLock,
    CmndStkProgPage,
    CmndStkProgFuseExt,
    CmndStkReadFlash,
    CmndStkReadData,
    CmndStkReadFuse,
    CmndStkReadLock,
    CmndStkReadPage,
    CmndStkReadSign,
    CmndStkReadOsccal,
    CmndStkReadFuseExt,
    CmndStkReadOsccalExt,
    ParmStkHwVer,
    ParmStkSwMajor,
    ParmStkSwMinor,
    ParmStkLeds,
    ParmStkVtarget,
    ParmStkVadjust,
    ParmStkOscPscale,
    ParmStkOscCmatch,
    ParmStkResetDuration,
    ParmStkSckDuration,
    ParmStkBufsizel,
    ParmStkBufsizeh,
    ParmStkDevice,
    ParmStkProgmode,
    ParmStkParamode,
    ParmStkPolling,
    ParmStkSelftimed,
}

/// The byte a [`Command`] stands for on the wire.
pub open spec fn opcode_spec(c: Command) -> u8 {
    match c {
        Command::RespStkOk => 0x10,
        Command::RespStkFailed => 0x11,
        Command::RespStkUnknown => 0x12,
        Command::RespStkNodevice => 0x13,
        Command::RespStkInsync => 0x14,
        Command::RespStkNosync => 0x15,
        Command::RespAdcChannelError => 0x16,
        Command::RespAdcMeasureOk => 0x17,
        Command::RespPwmChannelError => 0x18,
        Command::RespPwmAdjustOk => 0x19,
        Command::SyncCrcEop => 0x20,
        Command::CmndStkGetSync => 0x30,
        Command::CmndStkGetSignOn => 0x31,
        Command::CmndStkSetParameter => 0x40,
        Command::CmndStkGetParameter => 0x41,
        Command::CmndStkSetDevice => 0x42,
        Command::CmndStkSetDeviceExt => 0x45,
        Command::CmndStkEnterProgmode => 0x50,
        Command::CmndStkLeaveProgmode => 0x51,
        Command::CmndStkChipErase => 0x52,
        Command::CmndStkCheckAutoinc => 0x53,
        Command::CmndStkLoadAddress => 0x55,
        Command::CmndStkUniversal => 0x56,
        Command::CmndStkUniversalMulti => 0x57,
        Command::CmndStkProgFlash => 0x60,
        Command::CmndStkProgData => 0x61,
        Command::CmndStkProgFuse => 0x62,
        Command::CmndStkProgLock => 0x63,
        Command::CmndStkProgPage => 0x64,
        Command::CmndStkProgFuseExt => 0x65,
        Command::CmndStkReadFlash => 0x70,
        Command::CmndStkReadData => 0x71,
        Command::CmndStkReadFuse => 0x72,
        Command::CmndStkReadLock => 0x73,
        Command::CmndStkReadPage => 0x74,
        Command::CmndStkReadSign => 0x75,
        Command::CmndStkReadOsccal => 0x76,
        Command::CmndStkReadFuseExt => 0x77,
        Command::CmndStkReadOsccalExt => 0x78,
        Command::ParmStkHwVer => 0x80,
        Command::ParmStkSwMajor => 0x81,
        Command::ParmStkSwMinor => 0x82,
        Command::ParmStkLeds => 0x83,
        Command::ParmStkVtarget => 0x84,
        Command::ParmStkVadjust => 0x85,
        Command::ParmStkOscPscale => 0x86,
        Command::ParmStkOscCmatch => 0x87,
        Command::ParmStkResetDuration => 0x88,
        Command::ParmStkSckDuration => 0x89,
        Command::ParmStkBufsizel => 0x90,
        Command::ParmStkBufsizeh => 0x91,
        Command::ParmStkDevice => 0x92,
        Command::ParmStkProgmode => 0x93,
        Command::ParmStkParamode => 0x94,
        Command::ParmStkPolling => 0x95,
        Command::ParmStkSelftimed => 0x96,
    }
}

/// Executable mapping from a [`Command`] to its wire byte.
#[verifier::when_used_as_spec(opcode_spec)]
pub fn opcode(c: Command) -> (b: u8)
    ensures
        b == opcode_spec(c),
{
    match c {
        Command::RespStkOk => 0x10,
        Command::RespStkFailed => 0x11,
        Command::RespStkUnknown => 0x12,
        Command::RespStkNodevice => 0x13,
        Command::RespStkInsync => 0x14,
        Command::RespStkNosync => 0x15,
        Command::RespAdcChannelError => 0x16,
        Command::RespAdcMeasureOk => 0x17,
        Command::RespPwmChannelError => 0x18,
        Command::RespPwmAdjustOk => 0x19,
        Command::SyncCrcEop => 0x20,
        Command::CmndStkGetSync => 0x30,
        Command::CmndStkGetSignOn => 0x31,
        Command::CmndStkSetParameter => 0x40,
        Command::CmndStkGetParameter => 0x41,
        Command::CmndStkSetDevice => 0x42,
        Command::CmndStkSetDeviceExt => 0x45,
        Command::CmndStkEnterProgmode => 0x50,
        Command::CmndStkLeaveProgmode => 0x51,
        Command::CmndStkChipErase => 0x52,
        Command::CmndStkCheckAutoinc => 0x53,
        Command::CmndStkLoadAddress => 0x55,
        Command::CmndStkUniversal => 0x56,
        Command::CmndStkUniversalMulti => 0x57,
        Command::CmndStkProgFlash => 0x60,
        Command::CmndStkProgData => 0x61,
        Command::CmndStkProgFuse => 0x62,
        Command::CmndStkProgLock => 0x63,
        Command::CmndStkProgPage => 0x64,
        Command::CmndStkProgFuseExt => 0x65,
        Command::CmndStkReadFlash => 0x70,
        Command::CmndStkReadData => 0x71,
        Command::CmndStkReadFuse => 0x72,
        Command::CmndStkReadLock => 0x73,
        Command::CmndStkReadPage => 0x74,
        Command::CmndStkReadSign => 0x75,
        Command::CmndStkReadOsccal => 0x76,
        Command::CmndStkReadFuseExt => 0x77,
        Command::CmndStkReadOsccalExt => 0x78,
        Command::ParmStkHwVer => 0x80,
        Command::ParmStkSwMajor => 0x81,
        Command::ParmStkSwMinor => 0x82,
        Command::ParmStkLeds => 0x83,
        Command::ParmStkVtarget => 0x84,
        Command::ParmStkVadjust => 0x85,
        Command::ParmStkOscPscale => 0x86,
        Command::ParmStkOscCmatch => 0x87,
        Command::ParmStkResetDuration => 0x88,
        Command::ParmStkSckDuration => 0x89,
        Command::ParmStkBufsizel => 0x90,
        Command::ParmStkBufsizeh => 0x91,
        Command::ParmStkDevice => 0x92,
        Command::ParmStkProgmode => 0x93,
        Command::ParmStkParamode => 0x94,
        Command::ParmStkPolling => 0x95,
        Command::ParmStkSelftimed => 0x96,
    }
}

/// The STK500 status bit definitions.
#[derive(Clone, Copy, Debug, PartialEq, Eq, Structural)]
pub enum StkStatus {
    StatStkInsync,
    StatStkProgmode,
    StatStkStandalone,
    StatStkReset,
    StatStkProgram,
    StatStkLedg,
    StatStkLedr,
    StatStkLedblink,
}

/// The bit a [`StkStatus`] flag stands for in a status byte.
pub open spec fn status_bit_spec(s: StkStatus) -> u8 {
    match s {
        StkStatus::StatStkInsync => 0x01,
        StkStatus::StatStkProgmode => 0x02,
        StkStatus::StatStkStandalone => 0x04,
        StkStatus::StatStkReset => 0x08,
        StkStatus::StatStkProgram => 0x10,
        StkStatus::StatStkLedg => 0x20,
        StkStatus::StatStkLedr => 0x40,
        StkStatus::StatStkLedblink => 0x80,
    }
}

/// Executable mapping from a [`StkStatus`] flag to its bit.
#[verifier::when_used_as_spec(status_bit_spec)]
pub fn status_bit(s: StkStatus) -> (b: u8)
    ensures
        b == status_bit_spec(s),
{
    match s {
        StkStatus::StatStkInsync => 0x01,
        StkStatus::StatStkProgmode => 0x02,
        StkStatus::StatStkStandalone => 0x04,
        StkStatus::StatStkReset => 0x08,
        StkStatus::StatStkProgram => 0x10,
        StkStatus::StatStkLedg => 0x20,
        StkStatus::StatStkLedr => 0x40,
        StkStatus::StatStkLedblink => 0x80,
    }
}

} // verus!
