pub mod activate_fw;
pub mod activate_pending_component;
pub mod update_security_revision;
pub mod request_fw_data;
pub mod get_package_data;
pub mod query_downstream;
pub mod request_cancel;
pub mod transfer_complete;
pub mod verify_complete;
pub mod apply_complete;
pub mod get_status;
pub mod request_update;
pub mod pass_component;
pub mod update_component;
pub mod get_fw_params;
pub mod query_devid;
pub mod string_bounds;
