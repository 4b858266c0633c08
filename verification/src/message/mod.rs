pub mod firmware_update;
