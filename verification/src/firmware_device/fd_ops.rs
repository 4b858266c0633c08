//! The platform callbacks through which the firmware-device context reaches
//! the actual device.

use vstd::prelude::*;
use crate::message::firmware_update::apply_complete::ApplyResult;
use crate::message::firmware_update::get_fw_params::FirmwareParameters;
use crate::message::firmware_update::get_status::ProgressPercent;
use crate::message::firmware_update::transfer_complete::TransferResult;
use crate::message::firmware_update::verify_complete::VerifyResult;
use crate::protocol::firmware_update::{ComponentResponseCode, Descriptor};
use crate::util::fw_component::FirmwareComponent;

verus! {

/// Milliseconds on the device's clock.
pub type PldmFdTime = u64;

/// Which request a component is checked for.
#[derive(Debug, Clone, Copy, PartialEq, Eq, Structural)]
pub enum ComponentOperation {
    PassComponent,
    UpdateComponent,
}

/// Failure of a platform callback.
#[derive(Debug, Clone, Copy, PartialEq, Eq, Structural)]
pub enum FdOpsError {
    DeviceIdentifiersError,
    FirmwareParametersError,
    TransferSizeError,
    ComponentError,
    FwDownloadError,
    VerifyError,
    ApplyError,
    ActivateError,
    CancelUpdateError,
}

/// What the platform does for the firmware-device context. Every callback
/// may fail; the context answers each outcome, so nothing is assumed of what
/// an implementation returns.
pub trait FdOps {
    /// Fills `device_identifiers` and returns how many of them are valid.
    fn get_device_identifiers(&self, device_identifiers: &mut [Descriptor; 4]) -> Result<
        usize,
        FdOpsError,
    >;

    /// Fills in the device's firmware parameters.
    fn get_firmware_parms(&self, firmware_params: &mut FirmwareParameters) -> Result<
        (),
        FdOpsError,
    >;

    /// The transfer size to use, given the largest the UA offers.
    fn get_xfer_size(&self, ua_transfer_size: usize) -> Result<usize, FdOpsError>;

    /// Whether the device can take `component`.
    fn handle_component(
        &self,
        component: &FirmwareComponent,
        fw_params: &FirmwareParameters,
        op: ComponentOperation,
    ) -> Result<ComponentResponseCode, FdOpsError>;

    /// The next offset and length of `component` to ask the UA for.
    fn query_download_offset_and_length(&self, component: &FirmwareComponent) -> Result<
        (u32, u32),
        FdOpsError,
    >;

    /// Takes a chunk of `component` that starts at `offset`.
    fn download_fw_data(
        &self,
        offset: usize,
        data: &[u8],
        component: &FirmwareComponent,
    ) -> Result<TransferResult, FdOpsError>;

    /// Whether all of `component` has arrived.
    fn is_download_complete(&self, component: &FirmwareComponent) -> bool;

    /// Writes how far the download of `component` has come.
    fn query_download_progress(
        &self,
        component: &FirmwareComponent,
        progress_percent: &mut ProgressPercent,
    ) -> Result<(), FdOpsError>;

    /// Verifies `component`, or goes on verifying it, and writes how far it has come.
    fn verify(&self, component: &FirmwareComponent, progress_percent: &mut ProgressPercent) -> Result<
        VerifyResult,
        FdOpsError,
    >;

    /// Applies `component`, or goes on applying it, and writes how far it has come.
    fn apply(&self, component: &FirmwareComponent, progress_percent: &mut ProgressPercent) -> Result<
        ApplyResult,
        FdOpsError,
    >;

    /// Activates the new firmware and returns the completion code to answer with.
    fn activate(&self, self_contained_activation: u8, estimated_time: &mut u16) -> Result<
        u8,
        FdOpsError,
    >;

    /// Stops the work on `component`.
    fn cancel_update_component(&self, component: &FirmwareComponent) -> Result<(), FdOpsError>;

    /// Whether components will not function after the update mode ends, and
    /// which. The default reports that all of them function.
    fn get_non_functional_component_info(&self) -> (r: Result<(bool, u64), FdOpsError>)
        default_ensures
            r == Ok::<(bool, u64), FdOpsError>((false, 0)),
    {
        Ok((false, 0))
    }

    /// The time now. The default is a clock that stands still at zero.
    fn now(&self) -> (r: PldmFdTime)
        default_ensures
            r == 0,
    {
        0
    }
}

/// What a callback that fills in `v` and returns `r` reports: `v` when it
/// succeeds, else its error.
pub open spec fn filled<T>(r: Result<(), FdOpsError>, v: T) -> Result<T, FdOpsError> {
    match r {
        Ok(()) => Ok(v),
        Err(e) => Err(e),
    }
}

/// What a callback that returns `r` and leaves `v` behind reports: both
/// when it succeeds, else its error.
pub open spec fn with_output<R, T>(r: Result<R, FdOpsError>, v: T) -> Result<(R, T), FdOpsError> {
    match r {
        Ok(x) => Ok((x, v)),
        Err(e) => Err(e),
    }
}

/// What a callback that fills in `v` and returns a count `r` reports: `v`
/// and the count when it succeeds, else its error.
pub open spec fn counted<T>(r: Result<usize, FdOpsError>, v: T) -> Result<(T, usize), FdOpsError> {
    match r {
        Ok(n) => Ok((v, n)),
        Err(e) => Err(e),
    }
}

/// `t` is a time the platform's clock (`now`) may read.
pub open spec fn clock_reads<O: FdOps>(ops: O, t: PldmFdTime) -> bool {
    call_ensures(O::now, (&ops,), t)
}

/// `x` is what `get_xfer_size` returns for the UA's size `ua`.
pub open spec fn xfer_size_answer<O: FdOps>(ops: O, ua: usize, x: Result<usize, FdOpsError>) -> bool {
    call_ensures(O::get_xfer_size, (&ops, ua), x)
}

/// `code` is what `handle_component` returns for `comp`, `params` and `op`.
pub open spec fn component_answer<O: FdOps>(
    ops: O,
    comp: FirmwareComponent,
    params: FirmwareParameters,
    op: ComponentOperation,
    code: Result<ComponentResponseCode, FdOpsError>,
) -> bool {
    call_ensures(O::handle_component, (&ops, &comp, &params, op), code)
}

/// `wanted` is what `query_download_offset_and_length` returns for `comp`.
pub open spec fn offset_answer<O: FdOps>(
    ops: O,
    comp: FirmwareComponent,
    wanted: Result<(u32, u32), FdOpsError>,
) -> bool {
    call_ensures(O::query_download_offset_and_length, (&ops, &comp), wanted)
}

/// `res` is what `download_fw_data` returns for the chunk `data` of `comp`
/// at `offset`.
pub open spec fn download_answer<O: FdOps>(
    ops: O,
    offset: usize,
    data: Seq<u8>,
    comp: FirmwareComponent,
    res: Result<TransferResult, FdOpsError>,
) -> bool {
    exists|d: &[u8]| d@ == data && #[trigger] call_ensures(O::download_fw_data, (&ops, offset, d, &comp), res)
}

/// `b` is what `is_download_complete` returns for `comp`.
pub open spec fn complete_answer<O: FdOps>(ops: O, comp: FirmwareComponent, b: bool) -> bool {
    call_ensures(O::is_download_complete, (&ops, &comp), b)
}

/// `c` is what `cancel_update_component` returns for `comp`.
pub open spec fn cancel_answer<O: FdOps>(ops: O, comp: FirmwareComponent, c: Result<(), FdOpsError>) -> bool {
    call_ensures(O::cancel_update_component, (&ops, &comp), c)
}

/// `info` is what `get_non_functional_component_info` returns.
pub open spec fn info_answer<O: FdOps>(ops: O, info: Result<(bool, u64), FdOpsError>) -> bool {
    call_ensures(O::get_non_functional_component_info, (&ops,), info)
}

/// Callbacks with no device behind them: there are no identifiers or
/// parameters to report and no component is accepted; the transfer size the
/// UA offers is taken as it is.
#[derive(Debug, Clone, Copy, PartialEq, Eq)]
pub struct NoDeviceOps;

impl FdOps for NoDeviceOps {
    fn get_device_identifiers(&self, device_identifiers: &mut [Descriptor; 4]) -> (r: Result<
        usize,
        FdOpsError,
    >)
        ensures
            r == Err::<usize, FdOpsError>(FdOpsError::DeviceIdentifiersError),
    {
        Err(FdOpsError::DeviceIdentifiersError)
    }

    fn get_firmware_parms(&self, firmware_params: &mut FirmwareParameters) -> (r: Result<
        (),
        FdOpsError,
    >)
        ensures
            r == Err::<(), FdOpsError>(FdOpsError::FirmwareParametersError),
    {
        Err(FdOpsError::FirmwareParametersError)
    }

    fn get_xfer_size(&self, ua_transfer_size: usize) -> (r: Result<usize, FdOpsError>)
        ensures
            r == Ok::<usize, FdOpsError>(ua_transfer_size),
    {
        Ok(ua_transfer_size)
    }

    fn handle_component(
        &self,
        component: &FirmwareComponent,
        fw_params: &FirmwareParameters,
        op: ComponentOperation,
    ) -> (r: Result<ComponentResponseCode, FdOpsError>)
        ensures
            r == Ok::<ComponentResponseCode, FdOpsError>(ComponentResponseCode::CompNotSupported),
    {
        Ok(ComponentResponseCode::CompNotSupported)
    }

    fn query_download_offset_and_length(&self, component: &FirmwareComponent) -> (r: Result<
        (u32, u32),
        FdOpsError,
    >)
        ensures
            r == Err::<(u32, u32), FdOpsError>(FdOpsError::FwDownloadError),
    {
        Err(FdOpsError::FwDownloadError)
    }

    fn download_fw_data(
        &self,
        offset: usize,
        data: &[u8],
        component: &FirmwareComponent,
    ) -> (r: Result<TransferResult, FdOpsError>)
        ensures
            r == Err::<TransferResult, FdOpsError>(FdOpsError::FwDownloadError),
    {
        Err(FdOpsError::FwDownloadError)
    }

    fn is_download_complete(&self, component: &FirmwareComponent) -> (r: bool)
        ensures
            !r,
    {
        false
    }

    fn query_download_progress(
        &self,
        component: &FirmwareComponent,
        progress_percent: &mut ProgressPercent,
    ) -> (r: Result<(), FdOpsError>)
        ensures
            r == Err::<(), FdOpsError>(FdOpsError::FwDownloadError),
            *final(progress_percent) == *old(progress_percent),
    {
        Err(FdOpsError::FwDownloadError)
    }

    fn verify(&self, component: &FirmwareComponent, progress_percent: &mut ProgressPercent) -> (r:
        Result<VerifyResult, FdOpsError>)
        ensures
            r == Err::<VerifyResult, FdOpsError>(FdOpsError::VerifyError),
            *final(progress_percent) == *old(progress_percent),
    {
        Err(FdOpsError::VerifyError)
    }

    fn apply(&self, component: &FirmwareComponent, progress_percent: &mut ProgressPercent) -> (r:
        Result<ApplyResult, FdOpsError>)
        ensures
            r == Err::<ApplyResult, FdOpsError>(FdOpsError::ApplyError),
            *final(progress_percent) == *old(progress_percent),
    {
        Err(FdOpsError::ApplyError)
    }

    fn activate(&self, self_contained_activation: u8, estimated_time: &mut u16) -> (r: Result<
        u8,
        FdOpsError,
    >)
        ensures
            r == Err::<u8, FdOpsError>(FdOpsError::ActivateError),
            *final(estimated_time) == *old(estimated_time),
    {
        Err(FdOpsError::ActivateError)
    }

    fn cancel_update_component(&self, component: &FirmwareComponent) -> (r: Result<
        (),
        FdOpsError,
    >)
        ensures
            r == Ok::<(), FdOpsError>(()),
    {
        Ok(())
    }
}

} // verus!
