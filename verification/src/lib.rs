//! Decision logic for turning a Windows installation image into a bootable USB drive.

pub mod boot_laws;
pub mod bootsect;
pub mod call_laws;
pub mod copies;
pub mod copy_laws;
pub mod copying;
pub mod disk;
pub mod diskpart;
pub mod drive_laws;
pub mod error;
pub mod fat32;
pub mod format_laws;
pub mod host;
pub mod jobs;
pub mod panel_laws;
pub mod progress;
pub mod runs;
pub mod scan;
pub mod size;
pub mod text;
pub mod text_laws;
pub mod ui;
pub mod usb;
pub mod usb_writer;
pub mod utf16;
pub mod view_laws;
pub mod volumes;
pub mod writer_laws;
