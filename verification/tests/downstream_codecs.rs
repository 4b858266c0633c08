use pldm::codec::{PldmCodec, PldmCodecWithLifetime};
use pldm::message::firmware_update::query_downstream::{
    CapabilitiesDuringUpdate, DDWillSendGetPackageDataCommand, DownstreamDevice,
    DownstreamDeviceIndex, DownstreamDeviceParameterTable, GetDownstreamFirmwareParametersPortion,
    GetDownstreamFirmwareParametersRequest, GetDownstreamFirmwareParametersResponse,
    GetDownstreamFirmwareParametersResponseCode, QueryDownstreamDeviceResponse,
    QueryDownstreamDevicesRequest, QueryDownstreamIdentifiersRequest,
    QueryDownstreamIdentifiersResponse, QueryDownstreamIdentifiersResponseCode,
    RequestDownstreamDeviceUpdateCode, RequestDownstreamDeviceUpdateRequest,
    RequestDownstreamDeviceUpdateResponse, DEVICE_HEADER_SIZE, PARAMETER_TABLE_FIXED_SIZE,
    PORTION_HEADER_SIZE,
};
use pldm::protocol::base::{InstanceId, PldmBaseCompletionCode, TransferOperationFlag};
use pldm::protocol::firmware_update::{
    ComponentActivationMethods, Descriptor, DescriptorType, FirmwareDeviceCapability,
    PldmFirmwareString,
};

#[test]
fn test_query_downstream_devices_request_codec() {
    let instance_id: InstanceId = 0x01;
    let req = QueryDownstreamDevicesRequest::new(instance_id);

    let mut buffer_encode = [0u8; QueryDownstreamDevicesRequest::SIZE];
    req.encode(&mut buffer_encode).unwrap();

    let decoded = QueryDownstreamDevicesRequest::decode(&buffer_encode).unwrap();
    assert_eq!(req, decoded);
}

#[test]
fn test_query_downstream_devices_response_codec() {
    let instance_id: InstanceId = 0x01;
    let resp = QueryDownstreamDeviceResponse::new(
        instance_id,
        PldmBaseCompletionCode::Success,
        1u8,
        1u16,
        1u16,
    );

    let mut buffer_encode = [0u8; QueryDownstreamDeviceResponse::SIZE];
    resp.encode(&mut buffer_encode).unwrap();

    let decoded = QueryDownstreamDeviceResponse::decode(&buffer_encode).unwrap();
    assert_eq!(resp, decoded);
}

#[test]
fn test_query_downstream_identifiers_request_codec() {
    let instance_id: InstanceId = 0x01;
    let downstream_data_device_handle = 0x12345678;
    let transfer_op_flag = TransferOperationFlag::GetFirstPart;

    let req = QueryDownstreamIdentifiersRequest::new(
        instance_id,
        downstream_data_device_handle,
        transfer_op_flag,
    );

    let mut buffer_encode = [0u8; QueryDownstreamIdentifiersRequest::SIZE];
    req.encode(&mut buffer_encode).unwrap();

    let decoded = QueryDownstreamIdentifiersRequest::decode(&buffer_encode).unwrap();
    assert_eq!(req, decoded);
}

#[test]
fn test_query_downstream_identifiers_response_codec() {
    let instance_id: InstanceId = 0x01;
    let resp = QueryDownstreamIdentifiersResponse::new(
        instance_id,
        QueryDownstreamIdentifiersResponseCode::BaseCodes(PldmBaseCompletionCode::Success),
        0x12345678,
        TransferOperationFlag::GetFirstPart.to_u8(),
        &[0u8; 16],
    );

    let mut buffer_encode = [0u8; 128];
    let bytes_written = resp.encode(&mut buffer_encode).unwrap();
    let decoded =
        QueryDownstreamIdentifiersResponse::decode(&buffer_encode[..bytes_written]).unwrap();
    assert_eq!(resp, decoded);
}

#[test]
fn test_get_downstream_firmware_parameters_request_codec() {
    let instance_id: InstanceId = 0x01;
    let req = GetDownstreamFirmwareParametersRequest::new(
        instance_id,
        0x12345678,
        TransferOperationFlag::GetFirstPart,
    );

    let mut buffer_encode = [0u8; GetDownstreamFirmwareParametersRequest::SIZE];
    req.encode(&mut buffer_encode).unwrap();

    let decoded = GetDownstreamFirmwareParametersRequest::decode(&buffer_encode).unwrap();
    assert_eq!(req, decoded);
}

fn parameter_table() -> DownstreamDeviceParameterTable {
    let downstream_device_index = DownstreamDeviceIndex::try_from(1).unwrap();
    let acvs = PldmFirmwareString::new("ascii", "test").unwrap();
    let pcvs = PldmFirmwareString::new("ascii", "test").unwrap();

    DownstreamDeviceParameterTable::new(
        downstream_device_index,
        12345,
        acvs,
        pcvs,
        "20250101",
        12346,
        ComponentActivationMethods(0),
        CapabilitiesDuringUpdate(0),
        "20250202",
    )
    .unwrap()
}

#[test]
fn test_device_parameter_table_codec() {
    let table = parameter_table();

    const STR_DATA_OFFSET: usize = PARAMETER_TABLE_FIXED_SIZE;

    let mut buffer = [0u8; STR_DATA_OFFSET + 4 + 4];
    let bytes_written = table.encode(&mut buffer).unwrap();

    let mut offset = STR_DATA_OFFSET;
    assert_eq!(&buffer[offset..offset + 4], b"test");
    offset += 4;

    assert_eq!(&buffer[offset..offset + 4], b"test");

    let decoded = DownstreamDeviceParameterTable::decode(&buffer[..bytes_written]).unwrap();
    assert_eq!(table, decoded);
}

#[test]
fn test_get_downstream_firmware_parameters_portion_codec() {
    let downstream_device_parameter_table = parameter_table();

    let portion = GetDownstreamFirmwareParametersPortion {
        get_downstream_firmware_parameters_capability: FirmwareDeviceCapability(0u32),
        downstream_device_count: 1,
        downstream_device_parameter_table,
    };

    let mut buffer = [0u8; 0xff0];
    let bytes_written = portion.encode(&mut buffer).unwrap();

    let decoded =
        GetDownstreamFirmwareParametersPortion::decode(&buffer[..bytes_written]).unwrap();
    assert_eq!(portion, decoded);
}

#[test]
fn test_get_downstream_firmware_parameters_response_codec() {
    let instance_id: InstanceId = 0x01;
    let cap: FirmwareDeviceCapability = FirmwareDeviceCapability(0u32);

    let portion = GetDownstreamFirmwareParametersPortion {
        get_downstream_firmware_parameters_capability: cap,
        downstream_device_count: 1,
        downstream_device_parameter_table: parameter_table(),
    };

    let resp = GetDownstreamFirmwareParametersResponse::new(
        instance_id,
        GetDownstreamFirmwareParametersResponseCode::BaseCodes(PldmBaseCompletionCode::Success),
        0x12345678,
        TransferOperationFlag::GetFirstPart.to_u8(),
        portion,
    );

    let mut buffer_encode = [0u8; 0xff0];
    let bytes_written = resp.encode(&mut buffer_encode).unwrap();

    let decoded =
        GetDownstreamFirmwareParametersResponse::decode(&buffer_encode[..bytes_written]).unwrap();
    assert_eq!(resp, decoded);
}

#[test]
fn test_request_downstream_device_update_request_codec() {
    let instance_id: InstanceId = 0x01;
    let req = RequestDownstreamDeviceUpdateRequest::new(instance_id, 1024, 4, 512);

    let mut buffer_encode = [0u8; RequestDownstreamDeviceUpdateRequest::SIZE];
    req.encode(&mut buffer_encode).unwrap();

    let decoded = RequestDownstreamDeviceUpdateRequest::decode(&buffer_encode).unwrap();
    assert_eq!(req, decoded);
}

#[test]
fn test_request_downstream_device_update_response_codec() {
    let instance_id: InstanceId = 0x01;
    let resp = RequestDownstreamDeviceUpdateResponse::new(
        instance_id,
        RequestDownstreamDeviceUpdateCode::BaseCodes(PldmBaseCompletionCode::Success),
        256,
        DDWillSendGetPackageDataCommand::FDPShouldObtainLearn,
        512,
    );

    let mut buffer_encode = [0u8; RequestDownstreamDeviceUpdateResponse::SIZE];
    resp.encode(&mut buffer_encode).unwrap();

    let decoded = RequestDownstreamDeviceUpdateResponse::decode(&buffer_encode).unwrap();
    assert_eq!(resp, decoded);
}

#[test]
fn test_downstream_device_codec() {
    let descriptor = Descriptor {
        descriptor_type: 0xff,
        descriptor_length: 0x02,
        descriptor_data: [0u8; 64],
    };
    let descriptors: [Descriptor; 3] = [descriptor, descriptor, descriptor];

    const DESC_LEN: usize = 4 + 64;
    let mut descriptor_bytes_max: [u8; DESC_LEN * 3] = [0u8; DESC_LEN * 3];
    let mut offset = 0;

    for desc in descriptors.iter() {
        let encoded = desc.encode(&mut descriptor_bytes_max[offset..]).unwrap();
        offset += encoded;
    }

    let downstream_device_index = DownstreamDeviceIndex::try_from(1).unwrap();
    let downstream_device = DownstreamDevice::new(downstream_device_index, &descriptor_bytes_max);

    let mut buffer = [0u8; 256];
    let bytes_written = downstream_device.encode(&mut buffer).unwrap();
    let decoded = DownstreamDevice::decode(&buffer[..bytes_written]).unwrap();
    assert_eq!(downstream_device, decoded);
}

#[test]
fn test_iterator_query_downstream_identifiers_response() {
    const DSC_DATA_LEN: usize = 16;
    let instance_id: InstanceId = 0x01;
    // downstream_devices_length = 1 (u32), number_of_downstream_devices = 1 (u16)
    let ph: [u8; PORTION_HEADER_SIZE] = [1, 0, 0, 0, 1, 0];
    // downstream_devices_index = 1 (u16), downstream_descriptor_count = 3 (u8)
    let dsdh: [u8; DEVICE_HEADER_SIZE] = [1, 0, 3];
    let dsc_0: Descriptor = Descriptor {
        descriptor_type: DescriptorType::VendorDefined.to_u16(),
        descriptor_length: DSC_DATA_LEN as u16,
        descriptor_data: [0u8; 64],
    };

    let mut dsc_1 = dsc_0;
    dsc_1.descriptor_data[0..16].clone_from_slice(&[1u8; 16]);

    let mut dsc_2 = dsc_0;
    dsc_2.descriptor_data[0..16].clone_from_slice(&[2u8; 16]);

    const LEN: usize = PORTION_HEADER_SIZE + DEVICE_HEADER_SIZE + 3 * (2 * 2 + DSC_DATA_LEN);

    let mut offset = 0;
    let mut portion: [u8; LEN] = [0u8; LEN];

    portion[0..offset + PORTION_HEADER_SIZE].copy_from_slice(&ph);
    offset += PORTION_HEADER_SIZE;

    portion[offset..offset + DEVICE_HEADER_SIZE].copy_from_slice(&dsdh);
    offset += DEVICE_HEADER_SIZE;

    for desc in [dsc_0, dsc_1, dsc_2].iter() {
        let size = &desc.encode(&mut portion[offset..]).unwrap();
        offset += size;
    }

    let mut qdir = QueryDownstreamIdentifiersResponse::new(
        instance_id,
        QueryDownstreamIdentifiersResponseCode::BaseCodes(PldmBaseCompletionCode::Success),
        0x12345678,
        0x00,
        &portion,
    );

    let mut qdir_iter = qdir.next();
    let mut dsd_iter = qdir_iter.as_mut().unwrap().next();
    assert!(dsd_iter.is_some());
    assert_eq!(dsc_0, dsd_iter.unwrap());

    dsd_iter = qdir_iter.as_mut().unwrap().next();
    assert!(dsd_iter.is_some());
    assert_eq!(dsc_1, dsd_iter.unwrap());

    dsd_iter = qdir_iter.as_mut().unwrap().next();
    assert!(dsd_iter.is_some());
    assert_eq!(dsc_2, dsd_iter.unwrap());

    qdir_iter = qdir.next();
    assert!(qdir_iter.is_none());

    assert!(qdir.try_at(0).is_ok());
    assert!(qdir.try_at(1).is_err());
}

#[test]
fn try_at_counts_from_the_start_of_the_portion() {
    const DSC_DATA_LEN: usize = 4;
    // two devices of one descriptor each: indices 7 and 9
    let ph: [u8; PORTION_HEADER_SIZE] = [2, 0, 0, 0, 2, 0];
    let dsc = Descriptor {
        descriptor_type: DescriptorType::VendorDefined.to_u16(),
        descriptor_length: DSC_DATA_LEN as u16,
        descriptor_data: [5u8; 64],
    };
    const LEN: usize = PORTION_HEADER_SIZE + 2 * (DEVICE_HEADER_SIZE + 2 * 2 + DSC_DATA_LEN);
    let mut portion = [0u8; LEN];
    let mut offset = 0;
    portion[..PORTION_HEADER_SIZE].copy_from_slice(&ph);
    offset += PORTION_HEADER_SIZE;
    for index in [7u8, 9u8] {
        portion[offset..offset + DEVICE_HEADER_SIZE].copy_from_slice(&[index, 0, 1]);
        offset += DEVICE_HEADER_SIZE;
        offset += dsc.encode(&mut portion[offset..]).unwrap();
    }
    assert_eq!(offset, LEN);

    let mut qdir = QueryDownstreamIdentifiersResponse::new(
        1,
        QueryDownstreamIdentifiersResponseCode::BaseCodes(PldmBaseCompletionCode::Success),
        0,
        0x05,
        &portion,
    );
    assert_eq!(qdir.next().unwrap().downstream_device_index, 7);
    assert_eq!(qdir.try_at(0).unwrap().downstream_device_index, 7);
    assert_eq!(qdir.try_at(1).unwrap().downstream_device_index, 9);
    assert!(qdir.try_at(2).is_err());
    assert_eq!(qdir.next().unwrap().downstream_device_index, 9);
}
