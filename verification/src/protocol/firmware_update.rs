//! Codes, strings and descriptors of the firmware update type (DSP0267).

use vstd::prelude::*;
use vstd::string::StringSliceAdditionalSpecFns;
use crate::codec::{PldmCodec, PldmCodecError, put};
use crate::error::PldmError;
use crate::wire::{
    arr, bit_of, bytes_from, get_bit, get16, le16, lemma_arr, push16, push8, push_prefix, read16, set_bit,
    with_bit, zeros,
};

verus! {

/// Capacity of a version string.
pub const PLDM_FWUP_IMAGE_SET_VER_STR_MAX_LEN: usize = 32;

/// Smallest transfer size a device must accept.
pub const PLDM_FWUP_BASELINE_TRANSFER_SIZE: usize = 32;

/// Largest padding a device may request past the end of an image.
pub const PLDM_FWUP_MAX_PADDING_SIZE: usize = 32;

/// Number of descriptors a device reports at most.
pub const MAX_DESCRIPTORS_COUNT: usize = 4;

/// Capacity of a descriptor's data.
pub const DESCRIPTOR_DATA_MAX_LEN: usize = 64;

/// Firmware update command codes (DSP0267).
#[derive(Debug, Clone, Copy, PartialEq, Eq, Structural)]
pub enum FwUpdateCmd {
    QueryDeviceIdentifiers,
    GetFirmwareParameters,
    QueryDownstreamDevices,
    QueryDownstreamIdentifiers,
    GetDownstreamFirmwareParameters,
    RequestUpdate,
    GetPackageData,
    GetDeviceMetaData,
    PassComponentTable,
    UpdateComponent,
    RequestFirmwareData,
    TransferComplete,
    VerifyComplete,
    ApplyComplete,
    GetMetaData,
    ActivateFirmware,
    GetStatus,
    CancelUpdateComponent,
    CancelUpdate,
    ActivatePendingComponentImage,
    UpdateSecurityRevision,
    RequestDownstreamDeviceUpdate,
}

impl FwUpdateCmd {
    pub open spec fn value(self) -> u8 {
        match self {
            FwUpdateCmd::QueryDeviceIdentifiers => 0x01,
            FwUpdateCmd::GetFirmwareParameters => 0x02,
            FwUpdateCmd::QueryDownstreamDevices => 0x03,
            FwUpdateCmd::QueryDownstreamIdentifiers => 0x04,
            FwUpdateCmd::GetDownstreamFirmwareParameters => 0x05,
            FwUpdateCmd::RequestUpdate => 0x10,
            FwUpdateCmd::GetPackageData => 0x11,
            FwUpdateCmd::GetDeviceMetaData => 0x12,
            FwUpdateCmd::PassComponentTable => 0x13,
            FwUpdateCmd::UpdateComponent => 0x14,
            FwUpdateCmd::RequestFirmwareData => 0x15,
            FwUpdateCmd::TransferComplete => 0x16,
            FwUpdateCmd::VerifyComplete => 0x17,
            FwUpdateCmd::ApplyComplete => 0x18,
            FwUpdateCmd::GetMetaData => 0x19,
            FwUpdateCmd::ActivateFirmware => 0x1a,
            FwUpdateCmd::GetStatus => 0x1b,
            FwUpdateCmd::CancelUpdateComponent => 0x1c,
            FwUpdateCmd::CancelUpdate => 0x1d,
            FwUpdateCmd::ActivatePendingComponentImage => 0x1e,
            FwUpdateCmd::UpdateSecurityRevision => 0x1f,
            FwUpdateCmd::RequestDownstreamDeviceUpdate => 0x20,
        }
    }

    pub fn to_u8(self) -> (r: u8)
        ensures
            r == self.value(),
    {
        match self {
            FwUpdateCmd::QueryDeviceIdentifiers => 0x01,
            FwUpdateCmd::GetFirmwareParameters => 0x02,
            FwUpdateCmd::QueryDownstreamDevices => 0x03,
            FwUpdateCmd::QueryDownstreamIdentifiers => 0x04,
            FwUpdateCmd::GetDownstreamFirmwareParameters => 0x05,
            FwUpdateCmd::RequestUpdate => 0x10,
            FwUpdateCmd::GetPackageData => 0x11,
            FwUpdateCmd::GetDeviceMetaData => 0x12,
            FwUpdateCmd::PassComponentTable => 0x13,
            FwUpdateCmd::UpdateComponent => 0x14,
            FwUpdateCmd::RequestFirmwareData => 0x15,
            FwUpdateCmd::TransferComplete => 0x16,
            FwUpdateCmd::VerifyComplete => 0x17,
            FwUpdateCmd::ApplyComplete => 0x18,
            FwUpdateCmd::GetMetaData => 0x19,
            FwUpdateCmd::ActivateFirmware => 0x1a,
            FwUpdateCmd::GetStatus => 0x1b,
            FwUpdateCmd::CancelUpdateComponent => 0x1c,
            FwUpdateCmd::CancelUpdate => 0x1d,
            FwUpdateCmd::ActivatePendingComponentImage => 0x1e,
            FwUpdateCmd::UpdateSecurityRevision => 0x1f,
            FwUpdateCmd::RequestDownstreamDeviceUpdate => 0x20,
        }
    }

    pub open spec fn parse(v: u8) -> Option<FwUpdateCmd> {
        if v == 0x01 {
            Some(FwUpdateCmd::QueryDeviceIdentifiers)
        } else if v == 0x02 {
            Some(FwUpdateCmd::GetFirmwareParameters)
        } else if v == 0x03 {
            Some(FwUpdateCmd::QueryDownstreamDevices)
        } else if v == 0x04 {
            Some(FwUpdateCmd::QueryDownstreamIdentifiers)
        } else if v == 0x05 {
            Some(FwUpdateCmd::GetDownstreamFirmwareParameters)
        } else if v == 0x10 {
            Some(FwUpdateCmd::RequestUpdate)
        } else if v == 0x11 {
            Some(FwUpdateCmd::GetPackageData)
        } else if v == 0x12 {
            Some(FwUpdateCmd::GetDeviceMetaData)
        } else if v == 0x13 {
            Some(FwUpdateCmd::PassComponentTable)
        } else if v == 0x14 {
            Some(FwUpdateCmd::UpdateComponent)
        } else if v == 0x15 {
            Some(FwUpdateCmd::RequestFirmwareData)
        } else if v == 0x16 {
            Some(FwUpdateCmd::TransferComplete)
        } else if v == 0x17 {
            Some(FwUpdateCmd::VerifyComplete)
        } else if v == 0x18 {
            Some(FwUpdateCmd::ApplyComplete)
        } else if v == 0x19 {
            Some(FwUpdateCmd::GetMetaData)
        } else if v == 0x1a {
            Some(FwUpdateCmd::ActivateFirmware)
        } else if v == 0x1b {
            Some(FwUpdateCmd::GetStatus)
        } else if v == 0x1c {
            Some(FwUpdateCmd::CancelUpdateComponent)
        } else if v == 0x1d {
            Some(FwUpdateCmd::CancelUpdate)
        } else if v == 0x1e {
            Some(FwUpdateCmd::ActivatePendingComponentImage)
        } else if v == 0x1f {
            Some(FwUpdateCmd::UpdateSecurityRevision)
        } else if v == 0x20 {
            Some(FwUpdateCmd::RequestDownstreamDeviceUpdate)
        } else {
            None
        }
    }

    /// Parsing the value of a variant gives the variant.
    pub proof fn lemma_parse_value(self)
        ensures
            Self::parse(self.value()) == Some(self),
    {
    }

    pub fn from_u8(v: u8) -> (r: Option<FwUpdateCmd>)
        ensures
            r == Self::parse(v),
            r matches Some(c) ==> c.value() == v,
    {
        match v {
            0x01 => Some(FwUpdateCmd::QueryDeviceIdentifiers),
            0x02 => Some(FwUpdateCmd::GetFirmwareParameters),
            0x03 => Some(FwUpdateCmd::QueryDownstreamDevices),
            0x04 => Some(FwUpdateCmd::QueryDownstreamIdentifiers),
            0x05 => Some(FwUpdateCmd::GetDownstreamFirmwareParameters),
            0x10 => Some(FwUpdateCmd::RequestUpdate),
            0x11 => Some(FwUpdateCmd::GetPackageData),
            0x12 => Some(FwUpdateCmd::GetDeviceMetaData),
            0x13 => Some(FwUpdateCmd::PassComponentTable),
            0x14 => Some(FwUpdateCmd::UpdateComponent),
            0x15 => Some(FwUpdateCmd::RequestFirmwareData),
            0x16 => Some(FwUpdateCmd::TransferComplete),
            0x17 => Some(FwUpdateCmd::VerifyComplete),
            0x18 => Some(FwUpdateCmd::ApplyComplete),
            0x19 => Some(FwUpdateCmd::GetMetaData),
            0x1a => Some(FwUpdateCmd::ActivateFirmware),
            0x1b => Some(FwUpdateCmd::GetStatus),
            0x1c => Some(FwUpdateCmd::CancelUpdateComponent),
            0x1d => Some(FwUpdateCmd::CancelUpdate),
            0x1e => Some(FwUpdateCmd::ActivatePendingComponentImage),
            0x1f => Some(FwUpdateCmd::UpdateSecurityRevision),
            0x20 => Some(FwUpdateCmd::RequestDownstreamDeviceUpdate),
            _ => None,
        }
    }
}

/// Completion codes specific to firmware update commands.
#[derive(Debug, Clone, Copy, PartialEq, Eq, Structural)]
pub enum FwUpdateCompletionCode {
    NotInUpdateMode,
    AlreadyInUpdateMode,
    DataOutOfRange,
    InvalidTransferLength,
    InvalidStateForCommand,
    IncompleteUpdate,
    BusyInBackground,
    CancelPending,
    CommandNotExpected,
    RetryRequestFwData,
    UnableToInitiateUpdate,
    ActivationNotRequired,
    SelfContainedActivationNotPermitted,
    NoDeviceMetadata,
    RetryRequestUpdate,
    NoPackageData,
    InvalidTransferHandle,
    InvalidTransferOperationFlag,
    ActivatePendingImageNotPermitted,
    PackageDataError,
    NoOpaqueData,
    UpdateSecurityRevisionNotPermitted,
    DowngradeNotPermitted,
    DownstreamDeviceListChanged,
}

impl FwUpdateCompletionCode {
    pub open spec fn value(self) -> u8 {
        match self {
            FwUpdateCompletionCode::NotInUpdateMode => 0x80,
            FwUpdateCompletionCode::AlreadyInUpdateMode => 0x81,
            FwUpdateCompletionCode::DataOutOfRange => 0x82,
            FwUpdateCompletionCode::InvalidTransferLength => 0x83,
            FwUpdateCompletionCode::InvalidStateForCommand => 0x84,
            FwUpdateCompletionCode::IncompleteUpdate => 0x85,
            FwUpdateCompletionCode::BusyInBackground => 0x86,
            FwUpdateCompletionCode::CancelPending => 0x87,
            FwUpdateCompletionCode::CommandNotExpected => 0x88,
            FwUpdateCompletionCode::RetryRequestFwData => 0x89,
            FwUpdateCompletionCode::UnableToInitiateUpdate => 0x8a,
            FwUpdateCompletionCode::ActivationNotRequired => 0x8b,
            FwUpdateCompletionCode::SelfContainedActivationNotPermitted => 0x8c,
            FwUpdateCompletionCode::NoDeviceMetadata => 0x8d,
            FwUpdateCompletionCode::RetryRequestUpdate => 0x8e,
            FwUpdateCompletionCode::NoPackageData => 0x8f,
            FwUpdateCompletionCode::InvalidTransferHandle => 0x90,
            FwUpdateCompletionCode::InvalidTransferOperationFlag => 0x91,
            FwUpdateCompletionCode::ActivatePendingImageNotPermitted => 0x92,
            FwUpdateCompletionCode::PackageDataError => 0x93,
            FwUpdateCompletionCode::NoOpaqueData => 0x94,
            FwUpdateCompletionCode::UpdateSecurityRevisionNotPermitted => 0x95,
            FwUpdateCompletionCode::DowngradeNotPermitted => 0x96,
            FwUpdateCompletionCode::DownstreamDeviceListChanged => 0x97,
        }
    }

    pub fn to_u8(self) -> (r: u8)
        ensures
            r == self.value(),
    {
        match self {
            FwUpdateCompletionCode::NotInUpdateMode => 0x80,
            FwUpdateCompletionCode::AlreadyInUpdateMode => 0x81,
            FwUpdateCompletionCode::DataOutOfRange => 0x82,
            FwUpdateCompletionCode::InvalidTransferLength => 0x83,
            FwUpdateCompletionCode::InvalidStateForCommand => 0x84,
            FwUpdateCompletionCode::IncompleteUpdate => 0x85,
            FwUpdateCompletionCode::BusyInBackground => 0x86,
            FwUpdateCompletionCode::CancelPending => 0x87,
            FwUpdateCompletionCode::CommandNotExpected => 0x88,
            FwUpdateCompletionCode::RetryRequestFwData => 0x89,
            FwUpdateCompletionCode::UnableToInitiateUpdate => 0x8a,
            FwUpdateCompletionCode::ActivationNotRequired => 0x8b,
            FwUpdateCompletionCode::SelfContainedActivationNotPermitted => 0x8c,
            FwUpdateCompletionCode::NoDeviceMetadata => 0x8d,
            FwUpdateCompletionCode::RetryRequestUpdate => 0x8e,
            FwUpdateCompletionCode::NoPackageData => 0x8f,
            FwUpdateCompletionCode::InvalidTransferHandle => 0x90,
            FwUpdateCompletionCode::InvalidTransferOperationFlag => 0x91,
            FwUpdateCompletionCode::ActivatePendingImageNotPermitted => 0x92,
            FwUpdateCompletionCode::PackageDataError => 0x93,
            FwUpdateCompletionCode::NoOpaqueData => 0x94,
            FwUpdateCompletionCode::UpdateSecurityRevisionNotPermitted => 0x95,
            FwUpdateCompletionCode::DowngradeNotPermitted => 0x96,
            FwUpdateCompletionCode::DownstreamDeviceListChanged => 0x97,
        }
    }

    pub open spec fn parse(v: u8) -> Option<FwUpdateCompletionCode> {
        if v == 0x80 {
            Some(FwUpdateCompletionCode::NotInUpdateMode)
        } else if v == 0x81 {
            Some(FwUpdateCompletionCode::AlreadyInUpdateMode)
        } else if v == 0x82 {
            Some(FwUpdateCompletionCode::DataOutOfRange)
        } else if v == 0x83 {
            Some(FwUpdateCompletionCode::InvalidTransferLength)
        } else if v == 0x84 {
            Some(FwUpdateCompletionCode::InvalidStateForCommand)
        } else if v == 0x85 {
            Some(FwUpdateCompletionCode::IncompleteUpdate)
        } else if v == 0x86 {
            Some(FwUpdateCompletionCode::BusyInBackground)
        } else if v == 0x87 {
            Some(FwUpdateCompletionCode::CancelPending)
        } else if v == 0x88 {
            Some(FwUpdateCompletionCode::CommandNotExpected)
        } else if v == 0x89 {
            Some(FwUpdateCompletionCode::RetryRequestFwData)
        } else if v == 0x8a {
            Some(FwUpdateCompletionCode::UnableToInitiateUpdate)
        } else if v == 0x8b {
            Some(FwUpdateCompletionCode::ActivationNotRequired)
        } else if v == 0x8c {
            Some(FwUpdateCompletionCode::SelfContainedActivationNotPermitted)
        } else if v == 0x8d {
            Some(FwUpdateCompletionCode::NoDeviceMetadata)
        } else if v == 0x8e {
            Some(FwUpdateCompletionCode::RetryRequestUpdate)
        } else if v == 0x8f {
            Some(FwUpdateCompletionCode::NoPackageData)
        } else if v == 0x90 {
            Some(FwUpdateCompletionCode::InvalidTransferHandle)
        } else if v == 0x91 {
            Some(FwUpdateCompletionCode::InvalidTransferOperationFlag)
        } else if v == 0x92 {
            Some(FwUpdateCompletionCode::ActivatePendingImageNotPermitted)
        } else if v == 0x93 {
            Some(FwUpdateCompletionCode::PackageDataError)
        } else if v == 0x94 {
            Some(FwUpdateCompletionCode::NoOpaqueData)
        } else if v == 0x95 {
            Some(FwUpdateCompletionCode::UpdateSecurityRevisionNotPermitted)
        } else if v == 0x96 {
            Some(FwUpdateCompletionCode::DowngradeNotPermitted)
        } else if v == 0x97 {
            Some(FwUpdateCompletionCode::DownstreamDeviceListChanged)
        } else {
            None
        }
    }

    /// Parsing the value of a variant gives the variant.
    pub proof fn lemma_parse_value(self)
        ensures
            Self::parse(self.value()) == Some(self),
    {
    }

    pub fn from_u8(v: u8) -> (r: Option<FwUpdateCompletionCode>)
        ensures
            r == Self::parse(v),
            r matches Some(c) ==> c.value() == v,
    {
        match v {
            0x80 => Some(FwUpdateCompletionCode::NotInUpdateMode),
            0x81 => Some(FwUpdateCompletionCode::AlreadyInUpdateMode),
            0x82 => Some(FwUpdateCompletionCode::DataOutOfRange),
            0x83 => Some(FwUpdateCompletionCode::InvalidTransferLength),
            0x84 => Some(FwUpdateCompletionCode::InvalidStateForCommand),
            0x85 => Some(FwUpdateCompletionCode::IncompleteUpdate),
            0x86 => Some(FwUpdateCompletionCode::BusyInBackground),
            0x87 => Some(FwUpdateCompletionCode::CancelPending),
            0x88 => Some(FwUpdateCompletionCode::CommandNotExpected),
            0x89 => Some(FwUpdateCompletionCode::RetryRequestFwData),
            0x8a => Some(FwUpdateCompletionCode::UnableToInitiateUpdate),
            0x8b => Some(FwUpdateCompletionCode::ActivationNotRequired),
            0x8c => Some(FwUpdateCompletionCode::SelfContainedActivationNotPermitted),
            0x8d => Some(FwUpdateCompletionCode::NoDeviceMetadata),
            0x8e => Some(FwUpdateCompletionCode::RetryRequestUpdate),
            0x8f => Some(FwUpdateCompletionCode::NoPackageData),
            0x90 => Some(FwUpdateCompletionCode::InvalidTransferHandle),
            0x91 => Some(FwUpdateCompletionCode::InvalidTransferOperationFlag),
            0x92 => Some(FwUpdateCompletionCode::ActivatePendingImageNotPermitted),
            0x93 => Some(FwUpdateCompletionCode::PackageDataError),
            0x94 => Some(FwUpdateCompletionCode::NoOpaqueData),
            0x95 => Some(FwUpdateCompletionCode::UpdateSecurityRevisionNotPermitted),
            0x96 => Some(FwUpdateCompletionCode::DowngradeNotPermitted),
            0x97 => Some(FwUpdateCompletionCode::DownstreamDeviceListChanged),
            _ => None,
        }
    }
}

/// Component classification values.
#[derive(Debug, Clone, Copy, PartialEq, Eq, Structural)]
pub enum ComponentClassification {
    Unknown,
    Other,
    Driver,
    ConfigurationSoftware,
    ApplicationSoftware,
    Instrumentation,
    FirmwareOrBios,
    DiagnosticSoftware,
    OperatingSystem,
    Middleware,
    Firmware,
    BiosOrFcode,
    SupportOrServicePack,
    SoftwareBundle,
    DownstreamDevice,
}

impl ComponentClassification {
    pub open spec fn value(self) -> u16 {
        match self {
            ComponentClassification::Unknown => 0x0000,
            ComponentClassification::Other => 0x0001,
            ComponentClassification::Driver => 0x0002,
            ComponentClassification::ConfigurationSoftware => 0x0003,
            ComponentClassification::ApplicationSoftware => 0x0004,
            ComponentClassification::Instrumentation => 0x0005,
            ComponentClassification::FirmwareOrBios => 0x0006,
            ComponentClassification::DiagnosticSoftware => 0x0007,
            ComponentClassification::OperatingSystem => 0x0008,
            ComponentClassification::Middleware => 0x0009,
            ComponentClassification::Firmware => 0x000a,
            ComponentClassification::BiosOrFcode => 0x000b,
            ComponentClassification::SupportOrServicePack => 0x000c,
            ComponentClassification::SoftwareBundle => 0x000d,
            ComponentClassification::DownstreamDevice => 0xffff,
        }
    }

    pub fn to_u16(self) -> (r: u16)
        ensures
            r == self.value(),
    {
        match self {
            ComponentClassification::Unknown => 0x0000,
            ComponentClassification::Other => 0x0001,
            ComponentClassification::Driver => 0x0002,
            ComponentClassification::ConfigurationSoftware => 0x0003,
            ComponentClassification::ApplicationSoftware => 0x0004,
            ComponentClassification::Instrumentation => 0x0005,
            ComponentClassification::FirmwareOrBios => 0x0006,
            ComponentClassification::DiagnosticSoftware => 0x0007,
            ComponentClassification::OperatingSystem => 0x0008,
            ComponentClassification::Middleware => 0x0009,
            ComponentClassification::Firmware => 0x000a,
            ComponentClassification::BiosOrFcode => 0x000b,
            ComponentClassification::SupportOrServicePack => 0x000c,
            ComponentClassification::SoftwareBundle => 0x000d,
            ComponentClassification::DownstreamDevice => 0xffff,
        }
    }

    pub open spec fn parse(v: u16) -> Option<ComponentClassification> {
        if v == 0x0000 {
            Some(ComponentClassification::Unknown)
        } else if v == 0x0001 {
            Some(ComponentClassification::Other)
        } else if v == 0x0002 {
            Some(ComponentClassification::Driver)
        } else if v == 0x0003 {
            Some(ComponentClassification::ConfigurationSoftware)
        } else if v == 0x0004 {
            Some(ComponentClassification::ApplicationSoftware)
        } else if v == 0x0005 {
            Some(ComponentClassification::Instrumentation)
        } else if v == 0x0006 {
            Some(ComponentClassification::FirmwareOrBios)
        } else if v == 0x0007 {
            Some(ComponentClassification::DiagnosticSoftware)
        } else if v == 0x0008 {
            Some(ComponentClassification::OperatingSystem)
        } else if v == 0x0009 {
            Some(ComponentClassification::Middleware)
        } else if v == 0x000a {
            Some(ComponentClassification::Firmware)
        } else if v == 0x000b {
            Some(ComponentClassification::BiosOrFcode)
        } else if v == 0x000c {
            Some(ComponentClassification::SupportOrServicePack)
        } else if v == 0x000d {
            Some(ComponentClassification::SoftwareBundle)
        } else if v == 0xffff {
            Some(ComponentClassification::DownstreamDevice)
        } else {
            None
        }
    }

    /// Parsing the value of a variant gives the variant.
    pub proof fn lemma_parse_value(self)
        ensures
            Self::parse(self.value()) == Some(self),
    {
    }

    pub fn from_u16(v: u16) -> (r: Option<ComponentClassification>)
        ensures
            r == Self::parse(v),
            r matches Some(c) ==> c.value() == v,
    {
        match v {
            0x0000 => Some(ComponentClassification::Unknown),
            0x0001 => Some(ComponentClassification::Other),
            0x0002 => Some(ComponentClassification::Driver),
            0x0003 => Some(ComponentClassification::ConfigurationSoftware),
            0x0004 => Some(ComponentClassification::ApplicationSoftware),
            0x0005 => Some(ComponentClassification::Instrumentation),
            0x0006 => Some(ComponentClassification::FirmwareOrBios),
            0x0007 => Some(ComponentClassification::DiagnosticSoftware),
            0x0008 => Some(ComponentClassification::OperatingSystem),
            0x0009 => Some(ComponentClassification::Middleware),
            0x000a => Some(ComponentClassification::Firmware),
            0x000b => Some(ComponentClassification::BiosOrFcode),
            0x000c => Some(ComponentClassification::SupportOrServicePack),
            0x000d => Some(ComponentClassification::SoftwareBundle),
            0xffff => Some(ComponentClassification::DownstreamDevice),
            _ => None,
        }
    }
}

/// Encoding of a version string.
#[derive(Debug, Clone, Copy, PartialEq, Eq, Structural)]
pub enum VersionStringType {
    Unspecified,
    Ascii,
    Utf8,
    Utf16,
    Utf16Le,
    Utf16Be,
}

impl VersionStringType {
    pub open spec fn value(self) -> u8 {
        match self {
            VersionStringType::Unspecified => 0,
            VersionStringType::Ascii => 1,
            VersionStringType::Utf8 => 2,
            VersionStringType::Utf16 => 3,
            VersionStringType::Utf16Le => 4,
            VersionStringType::Utf16Be => 5,
        }
    }

    pub fn to_u8(self) -> (r: u8)
        ensures
            r == self.value(),
    {
        match self {
            VersionStringType::Unspecified => 0,
            VersionStringType::Ascii => 1,
            VersionStringType::Utf8 => 2,
            VersionStringType::Utf16 => 3,
            VersionStringType::Utf16Le => 4,
            VersionStringType::Utf16Be => 5,
        }
    }

    pub open spec fn parse(v: u8) -> Option<VersionStringType> {
        if v == 0 {
            Some(VersionStringType::Unspecified)
        } else if v == 1 {
            Some(VersionStringType::Ascii)
        } else if v == 2 {
            Some(VersionStringType::Utf8)
        } else if v == 3 {
            Some(VersionStringType::Utf16)
        } else if v == 4 {
            Some(VersionStringType::Utf16Le)
        } else if v == 5 {
            Some(VersionStringType::Utf16Be)
        } else {
            None
        }
    }

    /// Parsing the value of a variant gives the variant.
    pub proof fn lemma_parse_value(self)
        ensures
            Self::parse(self.value()) == Some(self),
    {
    }

    pub fn from_u8(v: u8) -> (r: Option<VersionStringType>)
        ensures
            r == Self::parse(v),
            r matches Some(c) ==> c.value() == v,
    {
        match v {
            0 => Some(VersionStringType::Unspecified),
            1 => Some(VersionStringType::Ascii),
            2 => Some(VersionStringType::Utf8),
            3 => Some(VersionStringType::Utf16),
            4 => Some(VersionStringType::Utf16Le),
            5 => Some(VersionStringType::Utf16Be),
            _ => None,
        }
    }
}

/// States of the firmware device update state machine.
#[derive(Debug, Clone, Copy, PartialEq, Eq, Structural)]
pub enum FirmwareDeviceState {
    Idle,
    LearnComponents,
    ReadyXfer,
    Download,
    Verify,
    Apply,
    Activate,
}

impl FirmwareDeviceState {
    pub open spec fn value(self) -> u8 {
        match self {
            FirmwareDeviceState::Idle => 0,
            FirmwareDeviceState::LearnComponents => 1,
            FirmwareDeviceState::ReadyXfer => 2,
            FirmwareDeviceState::Download => 3,
            FirmwareDeviceState::Verify => 4,
            FirmwareDeviceState::Apply => 5,
            FirmwareDeviceState::Activate => 6,
        }
    }

    pub fn to_u8(self) -> (r: u8)
        ensures
            r == self.value(),
    {
        match self {
            FirmwareDeviceState::Idle => 0,
            FirmwareDeviceState::LearnComponents => 1,
            FirmwareDeviceState::ReadyXfer => 2,
            FirmwareDeviceState::Download => 3,
            FirmwareDeviceState::Verify => 4,
            FirmwareDeviceState::Apply => 5,
            FirmwareDeviceState::Activate => 6,
        }
    }

    pub open spec fn parse(v: u8) -> Option<FirmwareDeviceState> {
        if v == 0 {
            Some(FirmwareDeviceState::Idle)
        } else if v == 1 {
            Some(FirmwareDeviceState::LearnComponents)
        } else if v == 2 {
            Some(FirmwareDeviceState::ReadyXfer)
        } else if v == 3 {
            Some(FirmwareDeviceState::Download)
        } else if v == 4 {
            Some(FirmwareDeviceState::Verify)
        } else if v == 5 {
            Some(FirmwareDeviceState::Apply)
        } else if v == 6 {
            Some(FirmwareDeviceState::Activate)
        } else {
            None
        }
    }

    /// Parsing the value of a variant gives the variant.
    pub proof fn lemma_parse_value(self)
        ensures
            Self::parse(self.value()) == Some(self),
    {
    }

    pub fn from_u8(v: u8) -> (r: Option<FirmwareDeviceState>)
        ensures
            r == Self::parse(v),
            r matches Some(c) ==> c.value() == v,
    {
        match v {
            0 => Some(FirmwareDeviceState::Idle),
            1 => Some(FirmwareDeviceState::LearnComponents),
            2 => Some(FirmwareDeviceState::ReadyXfer),
            3 => Some(FirmwareDeviceState::Download),
            4 => Some(FirmwareDeviceState::Verify),
            5 => Some(FirmwareDeviceState::Apply),
            6 => Some(FirmwareDeviceState::Activate),
            _ => None,
        }
    }
}

/// Whether a passed component can be updated.
#[derive(Debug, Clone, Copy, PartialEq, Eq, Structural)]
pub enum ComponentResponse {
    CompCanBeUpdated,
    CompCannotBeUpdated,
}

impl ComponentResponse {
    pub open spec fn value(self) -> u8 {
        match self {
            ComponentResponse::CompCanBeUpdated => 0,
            ComponentResponse::CompCannotBeUpdated => 1,
        }
    }

    pub fn to_u8(self) -> (r: u8)
        ensures
            r == self.value(),
    {
        match self {
            ComponentResponse::CompCanBeUpdated => 0,
            ComponentResponse::CompCannotBeUpdated => 1,
        }
    }

    pub open spec fn parse(v: u8) -> Option<ComponentResponse> {
        if v == 0 {
            Some(ComponentResponse::CompCanBeUpdated)
        } else if v == 1 {
            Some(ComponentResponse::CompCannotBeUpdated)
        } else {
            None
        }
    }

    /// Parsing the value of a variant gives the variant.
    pub proof fn lemma_parse_value(self)
        ensures
            Self::parse(self.value()) == Some(self),
    {
    }

    pub fn from_u8(v: u8) -> (r: Option<ComponentResponse>)
        ensures
            r == Self::parse(v),
            r matches Some(c) ==> c.value() == v,
    {
        match v {
            0 => Some(ComponentResponse::CompCanBeUpdated),
            1 => Some(ComponentResponse::CompCannotBeUpdated),
            _ => None,
        }
    }
}

/// Reason a component can or cannot be updated.
#[derive(Debug, Clone, Copy, PartialEq, Eq, Structural)]
pub enum ComponentResponseCode {
    CompCanBeUpdated,
    CompComparisonStampIdentical,
    CompComparisonStampLower,
    InvalidCompComparisonStamp,
    CompConflict,
    CompPrerequisitesNotMet,
    CompNotSupported,
    CompSecurityRestrictions,
    IncompleteCompImageSet,
    ActiveImageNotUpdateableSubsequently,
    CompVerStrIdentical,
    CompVerStrLower,
}

impl ComponentResponseCode {
    pub open spec fn value(self) -> u8 {
        match self {
            ComponentResponseCode::CompCanBeUpdated => 0x00,
            ComponentResponseCode::CompComparisonStampIdentical => 0x01,
            ComponentResponseCode::CompComparisonStampLower => 0x02,
            ComponentResponseCode::InvalidCompComparisonStamp => 0x03,
            ComponentResponseCode::CompConflict => 0x04,
            ComponentResponseCode::CompPrerequisitesNotMet => 0x05,
            ComponentResponseCode::CompNotSupported => 0x06,
            ComponentResponseCode::CompSecurityRestrictions => 0x07,
            ComponentResponseCode::IncompleteCompImageSet => 0x08,
            ComponentResponseCode::ActiveImageNotUpdateableSubsequently => 0x09,
            ComponentResponseCode::CompVerStrIdentical => 0x0a,
            ComponentResponseCode::CompVerStrLower => 0x0b,
        }
    }

    pub fn to_u8(self) -> (r: u8)
        ensures
            r == self.value(),
    {
        match self {
            ComponentResponseCode::CompCanBeUpdated => 0x00,
            ComponentResponseCode::CompComparisonStampIdentical => 0x01,
            ComponentResponseCode::CompComparisonStampLower => 0x02,
            ComponentResponseCode::InvalidCompComparisonStamp => 0x03,
            ComponentResponseCode::CompConflict => 0x04,
            ComponentResponseCode::CompPrerequisitesNotMet => 0x05,
            ComponentResponseCode::CompNotSupported => 0x06,
            ComponentResponseCode::CompSecurityRestrictions => 0x07,
            ComponentResponseCode::IncompleteCompImageSet => 0x08,
            ComponentResponseCode::ActiveImageNotUpdateableSubsequently => 0x09,
            ComponentResponseCode::CompVerStrIdentical => 0x0a,
            ComponentResponseCode::CompVerStrLower => 0x0b,
        }
    }

    pub open spec fn parse(v: u8) -> Option<ComponentResponseCode> {
        if v == 0x00 {
            Some(ComponentResponseCode::CompCanBeUpdated)
        } else if v == 0x01 {
            Some(ComponentResponseCode::CompComparisonStampIdentical)
        } else if v == 0x02 {
            Some(ComponentResponseCode::CompComparisonStampLower)
        } else if v == 0x03 {
            Some(ComponentResponseCode::InvalidCompComparisonStamp)
        } else if v == 0x04 {
            Some(ComponentResponseCode::CompConflict)
        } else if v == 0x05 {
            Some(ComponentResponseCode::CompPrerequisitesNotMet)
        } else if v == 0x06 {
            Some(ComponentResponseCode::CompNotSupported)
        } else if v == 0x07 {
            Some(ComponentResponseCode::CompSecurityRestrictions)
        } else if v == 0x08 {
            Some(ComponentResponseCode::IncompleteCompImageSet)
        } else if v == 0x09 {
            Some(ComponentResponseCode::ActiveImageNotUpdateableSubsequently)
        } else if v == 0x0a {
            Some(ComponentResponseCode::CompVerStrIdentical)
        } else if v == 0x0b {
            Some(ComponentResponseCode::CompVerStrLower)
        } else {
            None
        }
    }

    /// Parsing the value of a variant gives the variant.
    pub proof fn lemma_parse_value(self)
        ensures
            Self::parse(self.value()) == Some(self),
    {
    }

    pub fn from_u8(v: u8) -> (r: Option<ComponentResponseCode>)
        ensures
            r == Self::parse(v),
            r matches Some(c) ==> c.value() == v,
    {
        match v {
            0x00 => Some(ComponentResponseCode::CompCanBeUpdated),
            0x01 => Some(ComponentResponseCode::CompComparisonStampIdentical),
            0x02 => Some(ComponentResponseCode::CompComparisonStampLower),
            0x03 => Some(ComponentResponseCode::InvalidCompComparisonStamp),
            0x04 => Some(ComponentResponseCode::CompConflict),
            0x05 => Some(ComponentResponseCode::CompPrerequisitesNotMet),
            0x06 => Some(ComponentResponseCode::CompNotSupported),
            0x07 => Some(ComponentResponseCode::CompSecurityRestrictions),
            0x08 => Some(ComponentResponseCode::IncompleteCompImageSet),
            0x09 => Some(ComponentResponseCode::ActiveImageNotUpdateableSubsequently),
            0x0a => Some(ComponentResponseCode::CompVerStrIdentical),
            0x0b => Some(ComponentResponseCode::CompVerStrLower),
            _ => None,
        }
    }
}

/// Whether an offered component update is accepted.
#[derive(Debug, Clone, Copy, PartialEq, Eq, Structural)]
pub enum ComponentCompatibilityResponse {
    CompCanBeUpdated,
    CompCannotBeUpdated,
}

impl ComponentCompatibilityResponse {
    pub open spec fn value(self) -> u8 {
        match self {
            ComponentCompatibilityResponse::CompCanBeUpdated => 0,
            ComponentCompatibilityResponse::CompCannotBeUpdated => 1,
        }
    }

    pub fn to_u8(self) -> (r: u8)
        ensures
            r == self.value(),
    {
        match self {
            ComponentCompatibilityResponse::CompCanBeUpdated => 0,
            ComponentCompatibilityResponse::CompCannotBeUpdated => 1,
        }
    }

    pub open spec fn parse(v: u8) -> Option<ComponentCompatibilityResponse> {
        if v == 0 {
            Some(ComponentCompatibilityResponse::CompCanBeUpdated)
        } else if v == 1 {
            Some(ComponentCompatibilityResponse::CompCannotBeUpdated)
        } else {
            None
        }
    }

    /// Parsing the value of a variant gives the variant.
    pub proof fn lemma_parse_value(self)
        ensures
            Self::parse(self.value()) == Some(self),
    {
    }

    pub fn from_u8(v: u8) -> (r: Option<ComponentCompatibilityResponse>)
        ensures
            r == Self::parse(v),
            r matches Some(c) ==> c.value() == v,
    {
        match v {
            0 => Some(ComponentCompatibilityResponse::CompCanBeUpdated),
            1 => Some(ComponentCompatibilityResponse::CompCannotBeUpdated),
            _ => None,
        }
    }
}

/// Reason an offered component update is or is not accepted.
#[derive(Debug, Clone, Copy, PartialEq, Eq, Structural)]
pub enum ComponentCompatibilityResponseCode {
    NoResponseCode,
    CompComparisonStampIdentical,
    CompComparisonStampLower,
    InvalidCompComparisonStamp,
    CompConflict,
    CompPrerequisitesNotMet,
    CompNotSupported,
    CompSecurityRestrictions,
    IncompleteCompImageSet,
    CompInfoNoMatch,
    CompVerStrIdentical,
    CompVerStrLower,
}

impl ComponentCompatibilityResponseCode {
    pub open spec fn value(self) -> u8 {
        match self {
            ComponentCompatibilityResponseCode::NoResponseCode => 0x00,
            ComponentCompatibilityResponseCode::CompComparisonStampIdentical => 0x01,
            ComponentCompatibilityResponseCode::CompComparisonStampLower => 0x02,
            ComponentCompatibilityResponseCode::InvalidCompComparisonStamp => 0x03,
            ComponentCompatibilityResponseCode::CompConflict => 0x04,
            ComponentCompatibilityResponseCode::CompPrerequisitesNotMet => 0x05,
            ComponentCompatibilityResponseCode::CompNotSupported => 0x06,
            ComponentCompatibilityResponseCode::CompSecurityRestrictions => 0x07,
            ComponentCompatibilityResponseCode::IncompleteCompImageSet => 0x08,
            ComponentCompatibilityResponseCode::CompInfoNoMatch => 0x09,
            ComponentCompatibilityResponseCode::CompVerStrIdentical => 0x0a,
            ComponentCompatibilityResponseCode::CompVerStrLower => 0x0b,
        }
    }

    pub fn to_u8(self) -> (r: u8)
        ensures
            r == self.value(),
    {
        match self {
            ComponentCompatibilityResponseCode::NoResponseCode => 0x00,
            ComponentCompatibilityResponseCode::CompComparisonStampIdentical => 0x01,
            ComponentCompatibilityResponseCode::CompComparisonStampLower => 0x02,
            ComponentCompatibilityResponseCode::InvalidCompComparisonStamp => 0x03,
            ComponentCompatibilityResponseCode::CompConflict => 0x04,
            ComponentCompatibilityResponseCode::CompPrerequisitesNotMet => 0x05,
            ComponentCompatibilityResponseCode::CompNotSupported => 0x06,
            ComponentCompatibilityResponseCode::CompSecurityRestrictions => 0x07,
            ComponentCompatibilityResponseCode::IncompleteCompImageSet => 0x08,
            ComponentCompatibilityResponseCode::CompInfoNoMatch => 0x09,
            ComponentCompatibilityResponseCode::CompVerStrIdentical => 0x0a,
            ComponentCompatibilityResponseCode::CompVerStrLower => 0x0b,
        }
    }

    pub open spec fn parse(v: u8) -> Option<ComponentCompatibilityResponseCode> {
        if v == 0x00 {
            Some(ComponentCompatibilityResponseCode::NoResponseCode)
        } else if v == 0x01 {
            Some(ComponentCompatibilityResponseCode::CompComparisonStampIdentical)
        } else if v == 0x02 {
            Some(ComponentCompatibilityResponseCode::CompComparisonStampLower)
        } else if v == 0x03 {
            Some(ComponentCompatibilityResponseCode::InvalidCompComparisonStamp)
        } else if v == 0x04 {
            Some(ComponentCompatibilityResponseCode::CompConflict)
        } else if v == 0x05 {
            Some(ComponentCompatibilityResponseCode::CompPrerequisitesNotMet)
        } else if v == 0x06 {
            Some(ComponentCompatibilityResponseCode::CompNotSupported)
        } else if v == 0x07 {
            Some(ComponentCompatibilityResponseCode::CompSecurityRestrictions)
        } else if v == 0x08 {
            Some(ComponentCompatibilityResponseCode::IncompleteCompImageSet)
        } else if v == 0x09 {
            Some(ComponentCompatibilityResponseCode::CompInfoNoMatch)
        } else if v == 0x0a {
            Some(ComponentCompatibilityResponseCode::CompVerStrIdentical)
        } else if v == 0x0b {
            Some(ComponentCompatibilityResponseCode::CompVerStrLower)
        } else {
            None
        }
    }

    /// Parsing the value of a variant gives the variant.
    pub proof fn lemma_parse_value(self)
        ensures
            Self::parse(self.value()) == Some(self),
    {
    }

    pub fn from_u8(v: u8) -> (r: Option<ComponentCompatibilityResponseCode>)
        ensures
            r == Self::parse(v),
            r matches Some(c) ==> c.value() == v,
    {
        match v {
            0x00 => Some(ComponentCompatibilityResponseCode::NoResponseCode),
            0x01 => Some(ComponentCompatibilityResponseCode::CompComparisonStampIdentical),
            0x02 => Some(ComponentCompatibilityResponseCode::CompComparisonStampLower),
            0x03 => Some(ComponentCompatibilityResponseCode::InvalidCompComparisonStamp),
            0x04 => Some(ComponentCompatibilityResponseCode::CompConflict),
            0x05 => Some(ComponentCompatibilityResponseCode::CompPrerequisitesNotMet),
            0x06 => Some(ComponentCompatibilityResponseCode::CompNotSupported),
            0x07 => Some(ComponentCompatibilityResponseCode::CompSecurityRestrictions),
            0x08 => Some(ComponentCompatibilityResponseCode::IncompleteCompImageSet),
            0x09 => Some(ComponentCompatibilityResponseCode::CompInfoNoMatch),
            0x0a => Some(ComponentCompatibilityResponseCode::CompVerStrIdentical),
            0x0b => Some(ComponentCompatibilityResponseCode::CompVerStrLower),
            _ => None,
        }
    }
}

/// Descriptor type values.
#[derive(Debug, Clone, Copy, PartialEq, Eq, Structural)]
pub enum DescriptorType {
    PciVendorId,
    IanaEnterpriseId,
    Uuid,
    PnpVendorId,
    AcpiVendorId,
    IeeeAssignedCompanyId,
    ScsiVendorId,
    PciDeviceId,
    PciSubsystemVendorId,
    PciSubsystemId,
    PciRevisionId,
    VendorDefined,
}

impl DescriptorType {
    pub open spec fn value(self) -> u16 {
        match self {
            DescriptorType::PciVendorId => 0x0000,
            DescriptorType::IanaEnterpriseId => 0x0001,
            DescriptorType::Uuid => 0x0002,
            DescriptorType::PnpVendorId => 0x0003,
            DescriptorType::AcpiVendorId => 0x0004,
            DescriptorType::IeeeAssignedCompanyId => 0x0005,
            DescriptorType::ScsiVendorId => 0x0006,
            DescriptorType::PciDeviceId => 0x0100,
            DescriptorType::PciSubsystemVendorId => 0x0101,
            DescriptorType::PciSubsystemId => 0x0102,
            DescriptorType::PciRevisionId => 0x0103,
            DescriptorType::VendorDefined => 0xffff,
        }
    }

    pub fn to_u16(self) -> (r: u16)
        ensures
            r == self.value(),
    {
        match self {
            DescriptorType::PciVendorId => 0x0000,
            DescriptorType::IanaEnterpriseId => 0x0001,
            DescriptorType::Uuid => 0x0002,
            DescriptorType::PnpVendorId => 0x0003,
            DescriptorType::AcpiVendorId => 0x0004,
            DescriptorType::IeeeAssignedCompanyId => 0x0005,
            DescriptorType::ScsiVendorId => 0x0006,
            DescriptorType::PciDeviceId => 0x0100,
            DescriptorType::PciSubsystemVendorId => 0x0101,
            DescriptorType::PciSubsystemId => 0x0102,
            DescriptorType::PciRevisionId => 0x0103,
            DescriptorType::VendorDefined => 0xffff,
        }
    }

    pub open spec fn parse(v: u16) -> Option<DescriptorType> {
        if v == 0x0000 {
            Some(DescriptorType::PciVendorId)
        } else if v == 0x0001 {
            Some(DescriptorType::IanaEnterpriseId)
        } else if v == 0x0002 {
            Some(DescriptorType::Uuid)
        } else if v == 0x0003 {
            Some(DescriptorType::PnpVendorId)
        } else if v == 0x0004 {
            Some(DescriptorType::AcpiVendorId)
        } else if v == 0x0005 {
            Some(DescriptorType::IeeeAssignedCompanyId)
        } else if v == 0x0006 {
            Some(DescriptorType::ScsiVendorId)
        } else if v == 0x0100 {
            Some(DescriptorType::PciDeviceId)
        } else if v == 0x0101 {
            Some(DescriptorType::PciSubsystemVendorId)
        } else if v == 0x0102 {
            Some(DescriptorType::PciSubsystemId)
        } else if v == 0x0103 {
            Some(DescriptorType::PciRevisionId)
        } else if v == 0xffff {
            Some(DescriptorType::VendorDefined)
        } else {
            None
        }
    }

    /// Parsing the value of a variant gives the variant.
    pub proof fn lemma_parse_value(self)
        ensures
            Self::parse(self.value()) == Some(self),
    {
    }

    pub fn from_u16(v: u16) -> (r: Option<DescriptorType>)
        ensures
            r == Self::parse(v),
            r matches Some(c) ==> c.value() == v,
    {
        match v {
            0x0000 => Some(DescriptorType::PciVendorId),
            0x0001 => Some(DescriptorType::IanaEnterpriseId),
            0x0002 => Some(DescriptorType::Uuid),
            0x0003 => Some(DescriptorType::PnpVendorId),
            0x0004 => Some(DescriptorType::AcpiVendorId),
            0x0005 => Some(DescriptorType::IeeeAssignedCompanyId),
            0x0006 => Some(DescriptorType::ScsiVendorId),
            0x0100 => Some(DescriptorType::PciDeviceId),
            0x0101 => Some(DescriptorType::PciSubsystemVendorId),
            0x0102 => Some(DescriptorType::PciSubsystemId),
            0x0103 => Some(DescriptorType::PciRevisionId),
            0xffff => Some(DescriptorType::VendorDefined),
            _ => None,
        }
    }
}

/// Capabilities of a firmware device during an update.
#[derive(Debug, Clone, Copy, PartialEq, Eq)]
pub struct FirmwareDeviceCapability(pub u32);

impl FirmwareDeviceCapability {
    /// Bit 0: the device can recover from a failed component update.
    pub fn component_update_failure_recovery(&self) -> (r: bool)
        ensures
            r == bit_of(self.0, 0),
    {
        get_bit(self.0, 0)
    }

    /// Bit 1: the device allows a failed component update to be retried.
    pub fn component_update_failure_retry(&self) -> (r: bool)
        ensures
            r == bit_of(self.0, 1),
    {
        get_bit(self.0, 1)
    }

    /// Bit 2: the device keeps functioning during an update.
    pub fn func_during_update(&self) -> (r: bool)
        ensures
            r == bit_of(self.0, 2),
    {
        get_bit(self.0, 2)
    }
}

/// Activation methods a component supports.
#[derive(Debug, Clone, Copy, PartialEq, Eq)]
pub struct ComponentActivationMethods(pub u16);

/// Options the update agent requests for a component update.
#[derive(Debug, Clone, Copy, PartialEq, Eq)]
pub struct UpdateOptionFlags(pub u32);

impl UpdateOptionFlags {
    /// Bit 0: update even when the comparison stamp does not allow it.
    pub fn request_force_update(&self) -> (r: bool)
        ensures
            r == bit_of(self.0, 0),
    {
        get_bit(self.0, 0)
    }

    pub fn set_request_force_update(&mut self, b: bool)
        ensures
            final(self).0 == with_bit(old(self).0, 0, b),
    {
        set_bit(&mut self.0, 0, b)
    }

    /// Bit 1: the component carries opaque data.
    pub fn component_opaque_data(&self) -> (r: bool)
        ensures
            r == bit_of(self.0, 1),
    {
        get_bit(self.0, 1)
    }

    pub fn set_component_opaque_data(&mut self, b: bool)
        ensures
            final(self).0 == with_bit(old(self).0, 1, b),
    {
        set_bit(&mut self.0, 1, b)
    }
}

/// Setting one of the two option bits reads back as set and leaves the other
/// as it was.
pub proof fn lemma_update_option_bits(v: u32, b: bool)
    ensures
        bit_of(with_bit(v, 0, b), 0) == b,
        bit_of(with_bit(v, 0, b), 1) == bit_of(v, 1),
        bit_of(with_bit(v, 1, b), 1) == b,
        bit_of(with_bit(v, 1, b), 0) == bit_of(v, 0),
{
    vstd::arithmetic::power2::lemma2_to64();
}

/// ASCII lower case of a byte.
pub open spec fn lower(c: u8) -> u8 {
    if 65 <= c <= 90 {
        (c + 32) as u8
    } else {
        c
    }
}

/// `a` and `b` are equal but for the case of ASCII letters.
pub open spec fn same_ignoring_case(a: Seq<u8>, b: Seq<u8>) -> bool {
    a.len() == b.len() && forall|i: int| 0 <= i < a.len() ==> lower(a[i]) == lower(b[i])
}

/// Compares two byte strings without regard to the case of ASCII letters.
pub fn eq_ignore_case(a: &[u8], b: &[u8]) -> (r: bool)
    ensures
        r == same_ignoring_case(a@, b@),
{
    if a.len() != b.len() {
        return false;
    }
    let mut i: usize = 0;
    while i < a.len()
        invariant
            a@.len() == b@.len(),
            0 <= i <= a@.len(),
            forall|k: int| 0 <= k < i ==> lower(a@[k]) == lower(b@[k]),
        decreases a@.len() - i,
    {
        let x = if 65 <= a[i] && a[i] <= 90 { a[i] + 32 } else { a[i] };
        let y = if 65 <= b[i] && b[i] <= 90 { b[i] + 32 } else { b[i] };
        if x != y {
            return false;
        }
        i = i + 1;
    }
    true
}

/// Names accepted for a version string type, in any case.
pub open spec fn name_unspecified() -> Seq<u8> {
    seq![117u8, 110, 115, 112, 101, 99, 105, 102, 105, 101, 100]
}

pub open spec fn name_ascii() -> Seq<u8> {
    seq![97u8, 115, 99, 105, 105]
}

pub open spec fn name_utf8() -> Seq<u8> {
    seq![117u8, 116, 102, 56]
}

pub open spec fn name_utf16() -> Seq<u8> {
    seq![117u8, 116, 102, 49, 54]
}

pub open spec fn name_utf16le() -> Seq<u8> {
    seq![117u8, 116, 102, 49, 54, 108, 101]
}

pub open spec fn name_utf16be() -> Seq<u8> {
    seq![117u8, 116, 102, 49, 54, 98, 101]
}

/// The version string type that `name` names: "unspecified", "ascii",
/// "utf8", "utf16", "utf16le" or "utf16be", in any case.
pub open spec fn version_string_type_named(name: Seq<u8>) -> Option<VersionStringType> {
    if same_ignoring_case(name, name_unspecified()) {
        Some(VersionStringType::Unspecified)
    } else if same_ignoring_case(name, name_ascii()) {
        Some(VersionStringType::Ascii)
    } else if same_ignoring_case(name, name_utf8()) {
        Some(VersionStringType::Utf8)
    } else if same_ignoring_case(name, name_utf16()) {
        Some(VersionStringType::Utf16)
    } else if same_ignoring_case(name, name_utf16le()) {
        Some(VersionStringType::Utf16Le)
    } else if same_ignoring_case(name, name_utf16be()) {
        Some(VersionStringType::Utf16Be)
    } else {
        None
    }
}

impl VersionStringType {
    /// The type named by `name`, see `version_string_type_named`.
    pub fn from_name(name: &str) -> (r: Option<VersionStringType>)
        ensures
            r == version_string_type_named(name.spec_bytes()),
    {
        let n = name.as_bytes();
        let unspecified: [u8; 11] = [117, 110, 115, 112, 101, 99, 105, 102, 105, 101, 100];
        let ascii: [u8; 5] = [97, 115, 99, 105, 105];
        let utf8: [u8; 4] = [117, 116, 102, 56];
        let utf16: [u8; 5] = [117, 116, 102, 49, 54];
        let utf16le: [u8; 7] = [117, 116, 102, 49, 54, 108, 101];
        let utf16be: [u8; 7] = [117, 116, 102, 49, 54, 98, 101];
        assert(unspecified@ =~= name_unspecified());
        assert(ascii@ =~= name_ascii());
        assert(utf8@ =~= name_utf8());
        assert(utf16@ =~= name_utf16());
        assert(utf16le@ =~= name_utf16le());
        assert(utf16be@ =~= name_utf16be());
        if eq_ignore_case(n, &unspecified) {
            Some(VersionStringType::Unspecified)
        } else if eq_ignore_case(n, &ascii) {
            Some(VersionStringType::Ascii)
        } else if eq_ignore_case(n, &utf8) {
            Some(VersionStringType::Utf8)
        } else if eq_ignore_case(n, &utf16) {
            Some(VersionStringType::Utf16)
        } else if eq_ignore_case(n, &utf16le) {
            Some(VersionStringType::Utf16Le)
        } else if eq_ignore_case(n, &utf16be) {
            Some(VersionStringType::Utf16Be)
        } else {
            None
        }
    }
}

/// A version string: its type, its length and up to 32 bytes of text.
#[derive(Debug, Clone, Copy, PartialEq, Eq)]
pub struct PldmFirmwareString {
    pub str_type: u8,
    pub str_len: u8,
    pub str_data: [u8; 32],
}

impl PldmFirmwareString {
    /// The length fits the data array.
    pub open spec fn valid(&self) -> bool {
        self.str_len <= 32
    }

    /// The text of the string.
    pub open spec fn text(&self) -> Seq<u8> {
        self.str_data@.subrange(0, self.str_len as int)
    }

    /// Valid, with zeros after the text.
    pub open spec fn canonical(&self) -> bool {
        self.valid() && self.str_data@.subrange(self.str_len as int, 32) == zeros(
            (32 - self.str_len) as nat,
        )
    }

    /// The string whose type is named `str_type` and whose text is `fw_str`.
    pub fn new(str_type: &str, fw_str: &str) -> (r: Result<PldmFirmwareString, PldmError>)
        ensures
            version_string_type_named(str_type.spec_bytes()) is None ==> r == Err::<
                PldmFirmwareString,
                PldmError,
            >(PldmError::InvalidVersionStringType),
            version_string_type_named(str_type.spec_bytes()) is Some && fw_str.spec_bytes().len()
                > 32 ==> r == Err::<PldmFirmwareString, PldmError>(
                PldmError::InvalidVersionStringLength,
            ),
            r matches Ok(s) ==> {
                &&& version_string_type_named(str_type.spec_bytes()) == Some(
                    VersionStringType::parse(s.str_type).unwrap(),
                )
                &&& VersionStringType::parse(s.str_type) is Some
                &&& s.str_len == fw_str.spec_bytes().len()
                &&& s.str_data@ == fw_str.spec_bytes() + zeros((32 - s.str_len) as nat)
                &&& s.canonical()
            },
            r is Ok <==> version_string_type_named(str_type.spec_bytes()) is Some
                && fw_str.spec_bytes().len() <= 32,
    {
        let t = match VersionStringType::from_name(str_type) {
            Some(t) => t,
            None => return Err(PldmError::InvalidVersionStringType),
        };
        let bytes = fw_str.as_bytes();
        if bytes.len() > 32 {
            return Err(PldmError::InvalidVersionStringLength);
        }
        let mut data = [0u8; 32];
        let mut i: usize = 0;
        while i < bytes.len()
            invariant
                bytes@.len() <= 32,
                0 <= i <= bytes@.len(),
                data@.len() == 32,
                forall|k: int| 0 <= k < i ==> data@[k] == bytes@[k],
                forall|k: int| i <= k < 32 ==> data@[k] == 0,
            decreases bytes@.len() - i,
        {
            data[i] = bytes[i];
            i = i + 1;
        }
        let s = PldmFirmwareString { str_type: t.to_u8(), str_len: bytes.len() as u8, str_data: data };
        assert(s.str_data@ =~= bytes@ + zeros((32 - s.str_len) as nat));
        assert(s.str_data@.subrange(s.str_len as int, 32) =~= zeros((32 - s.str_len) as nat));
        Ok(s)
    }

    /// The string with its length capped at 32 and its text copied.
    pub fn clamped(&self) -> (r: PldmFirmwareString)
        ensures
            r.str_type == self.str_type,
            r.str_len == if self.str_len <= 32 { self.str_len } else { 32 },
            r.text() == self.str_data@.subrange(0, r.str_len as int),
            r.canonical(),
    {
        let len: usize = if self.str_len <= 32 { self.str_len as usize } else { 32 };
        let mut data = [0u8; 32];
        let mut i: usize = 0;
        while i < len
            invariant
                len <= 32,
                0 <= i <= len,
                data@.len() == 32,
                forall|k: int| 0 <= k < i ==> data@[k] == self.str_data@[k],
                forall|k: int| i <= k < 32 ==> data@[k] == 0,
            decreases len - i,
        {
            data[i] = self.str_data[i];
            i = i + 1;
        }
        let r = PldmFirmwareString { str_type: self.str_type, str_len: len as u8, str_data: data };
        assert(r.text() =~= self.str_data@.subrange(0, r.str_len as int));
        assert(r.str_data@.subrange(r.str_len as int, 32) =~= zeros((32 - r.str_len) as nat));
        r
    }
}

/// Outcome of reading a version string whose type and length bytes are at
/// `off`: the length must fit the data array and the text the buffer.
pub open spec fn string_at(bytes: Seq<u8>, off: int) -> Result<PldmFirmwareString, PldmCodecError> {
    if bytes.len() < off + 2 {
        Err(PldmCodecError::BufferTooShort)
    } else if bytes[off + 1] > 32 {
        Err(PldmCodecError::InvalidData)
    } else if bytes.len() < off + 2 + bytes[off + 1] {
        Err(PldmCodecError::BufferTooShort)
    } else {
        Ok(
            PldmFirmwareString {
                str_type: bytes[off],
                str_len: bytes[off + 1],
                str_data: arr::<32>(bytes.subrange(off + 2, off + 2 + bytes[off + 1]) + zeros(
                    (32 - bytes[off + 1]) as nat,
                )),
            },
        )
    }
}

impl PldmCodec for PldmFirmwareString {
    open spec fn encodable(&self) -> bool {
        self.valid()
    }

    open spec fn encoding(&self) -> Seq<u8> {
        seq![self.str_type, self.str_len] + self.text()
    }

    open spec fn decoding(bytes: Seq<u8>) -> Result<PldmFirmwareString, PldmCodecError> {
        string_at(bytes, 0)
    }

    fn encode(&self, buffer: &mut [u8]) -> (r: Result<usize, PldmCodecError>) {
        let mut v: Vec<u8> = Vec::new();
        push8(&mut v, self.str_type);
        push8(&mut v, self.str_len);
        push_prefix(&mut v, &self.str_data, self.str_len as usize);
        assert(v@ =~= self.encoding());
        put(&v, buffer)
    }

    fn decode(buffer: &[u8]) -> (r: Result<PldmFirmwareString, PldmCodecError>) {
        read_string(buffer, 0)
    }
}

/// Reads a version string whose type and length bytes are at `off`.
pub fn read_string(buffer: &[u8], off: usize) -> (r: Result<PldmFirmwareString, PldmCodecError>)
    requires
        off <= buffer@.len(),
    ensures
        r == string_at(buffer@, off as int),
{
    if buffer.len() - off < 2 {
        return Err(PldmCodecError::BufferTooShort);
    }
    let len = buffer[off + 1];
    if len > 32 {
        return Err(PldmCodecError::InvalidData);
    }
    if buffer.len() - off - 2 < len as usize {
        return Err(PldmCodecError::BufferTooShort);
    }
    let data = bytes_from::<32>(buffer, off + 2, len as usize);
    let s = PldmFirmwareString { str_type: buffer[off], str_len: len, str_data: data };
    proof {
        lemma_arr::<32>(
            buffer@.subrange(off + 2, off + 2 + len) + zeros((32 - len) as nat),
            data,
        );
    }
    Ok(s)
}

/// A canonical string decodes back to itself, whatever follows it.
pub proof fn lemma_string_round_trip(s: PldmFirmwareString, pre: Seq<u8>, post: Seq<u8>)
    requires
        s.canonical(),
    ensures
        string_at(pre + s.encoding() + post, pre.len() as int) == Ok::<
            PldmFirmwareString,
            PldmCodecError,
        >(s),
{
    let b = pre + s.encoding() + post;
    let off = pre.len() as int;
    let n = s.str_len as int;
    assert(b[off] == s.str_type);
    assert(b[off + 1] == s.str_len);
    let t = b.subrange(off + 2, off + 2 + n) + zeros((32 - n) as nat);
    assert(t =~= s.str_data@) by {
        assert(b.subrange(off + 2, off + 2 + n) =~= s.text());
        assert(s.str_data@ =~= s.text() + s.str_data@.subrange(n, 32));
    }
    lemma_arr::<32>(t, s.str_data);
}

/// A device or component identifier: its type, its length and up to 64
/// bytes of data.
#[derive(Debug, Clone, Copy, PartialEq, Eq)]
pub struct Descriptor {
    pub descriptor_type: u16,
    pub descriptor_length: u16,
    pub descriptor_data: [u8; 64],
}

impl Descriptor {
    /// The descriptor with type, length and data all zero.
    pub fn empty() -> (r: Descriptor)
        ensures
            r.descriptor_type == 0,
            r.descriptor_length == 0,
            r.descriptor_data@ == zeros(64),
    {
        let r = Descriptor { descriptor_type: 0, descriptor_length: 0, descriptor_data: [0u8; 64] };
        assert(r.descriptor_data@ =~= zeros(64));
        r
    }

    pub open spec fn valid(&self) -> bool {
        self.descriptor_length <= 64
    }

    pub open spec fn data(&self) -> Seq<u8> {
        self.descriptor_data@.subrange(0, self.descriptor_length as int)
    }

    /// Size of the encoded descriptor.
    pub fn codec_size_in_bytes(&self) -> (r: usize)
        ensures
            r == 4 + self.descriptor_length,
    {
        4 + self.descriptor_length as usize
    }
}

/// Outcome of reading a descriptor at `off`.
pub open spec fn descriptor_at(bytes: Seq<u8>, off: int) -> Result<Descriptor, PldmCodecError> {
    if bytes.len() < off + 4 {
        Err(PldmCodecError::BufferTooShort)
    } else if get16(bytes, off + 2) > 64 {
        Err(PldmCodecError::InvalidData)
    } else if bytes.len() < off + 4 + get16(bytes, off + 2) {
        Err(PldmCodecError::BufferTooShort)
    } else {
        Ok(
            Descriptor {
                descriptor_type: get16(bytes, off),
                descriptor_length: get16(bytes, off + 2),
                descriptor_data: arr::<64>(
                    bytes.subrange(off + 4, off + 4 + get16(bytes, off + 2)) + zeros(
                        (64 - get16(bytes, off + 2)) as nat,
                    ),
                ),
            },
        )
    }
}

/// Reads a descriptor at `off`.
pub fn read_descriptor(buffer: &[u8], off: usize) -> (r: Result<Descriptor, PldmCodecError>)
    requires
        off <= buffer@.len(),
    ensures
        r == descriptor_at(buffer@, off as int),
{
    if buffer.len() - off < 4 {
        return Err(PldmCodecError::BufferTooShort);
    }
    let t = read16(buffer, off);
    let len = read16(buffer, off + 2);
    if len > 64 {
        return Err(PldmCodecError::InvalidData);
    }
    if buffer.len() - off - 4 < len as usize {
        return Err(PldmCodecError::BufferTooShort);
    }
    let data = bytes_from::<64>(buffer, off + 4, len as usize);
    proof {
        lemma_arr::<64>(buffer@.subrange(off + 4, off + 4 + len) + zeros((64 - len) as nat), data);
    }
    Ok(Descriptor { descriptor_type: t, descriptor_length: len, descriptor_data: data })
}

/// Appends the encoding of `d` to `v`.
pub fn push_descriptor(v: &mut Vec<u8>, d: &Descriptor)
    requires
        d.valid(),
    ensures
        final(v)@ == old(v)@ + d.encoding(),
{
    push16(v, d.descriptor_type);
    push16(v, d.descriptor_length);
    push_prefix(v, &d.descriptor_data, d.descriptor_length as usize);
    assert(v@ =~= old(v)@ + d.encoding());
}

impl PldmCodec for Descriptor {
    open spec fn encodable(&self) -> bool {
        self.valid()
    }

    open spec fn encoding(&self) -> Seq<u8> {
        le16(self.descriptor_type) + le16(self.descriptor_length) + self.data()
    }

    open spec fn decoding(bytes: Seq<u8>) -> Result<Descriptor, PldmCodecError> {
        descriptor_at(bytes, 0)
    }

    fn encode(&self, buffer: &mut [u8]) -> (r: Result<usize, PldmCodecError>) {
        let mut v: Vec<u8> = Vec::new();
        push_descriptor(&mut v, self);
        assert(v@ =~= self.encoding());
        put(&v, buffer)
    }

    fn decode(buffer: &[u8]) -> (r: Result<Descriptor, PldmCodecError>) {
        read_descriptor(buffer, 0)
    }
}

/// Total length of `count` descriptors laid out from `off` on, if they fit.
pub open spec fn descriptors_len(blob: Seq<u8>, off: int, count: nat) -> Option<int>
    decreases count,
{
    if count == 0 {
        Some(0)
    } else if blob.len() < off + 4 || blob.len() < off + 4 + get16(blob, off + 2) {
        None
    } else {
        match descriptors_len(blob, off + 4 + get16(blob, off + 2), (count - 1) as nat) {
            Some(rest) => Some(4 + get16(blob, off + 2) + rest),
            None => None,
        }
    }
}

impl Descriptor {
    /// Length of the first `count` descriptors of `blob`: each is a type, a
    /// length and that many bytes of data, all inside `blob`.
    pub fn try_get_descriptor_length_from_blob(blob: &[u8], count: usize) -> (r: Result<
        usize,
        PldmError,
    >)
        ensures
            r matches Ok(n) ==> descriptors_len(blob@, 0, count as nat) == Some(n as int),
            r is Err ==> descriptors_len(blob@, 0, count as nat) is None && r == Err::<
                usize,
                PldmError,
            >(PldmError::InvalidDescriptorLength),
    {
        let mut off: usize = 0;
        let mut i: usize = 0;
        while i < count
            invariant
                0 <= i <= count,
                off <= blob@.len(),
                descriptors_len(blob@, 0, count as nat) == match descriptors_len(
                    blob@,
                    off as int,
                    (count - i) as nat,
                ) {
                    Some(rest) => Some(off + rest),
                    None => None::<int>,
                },
            decreases count - i,
        {
            if blob.len() - off < 4 {
                return Err(PldmError::InvalidDescriptorLength);
            }
            let len = read16(blob, off + 2);
            if blob.len() - off - 4 < len as usize {
                return Err(PldmError::InvalidDescriptorLength);
            }
            off = off + 4 + len as usize;
            i = i + 1;
        }
        Ok(off)
    }
}

} // verus!
