pub mod fw_component;
pub mod mctp_transport;
pub mod crc32;
