pub mod catalog;
pub mod extension;
pub mod link;
pub mod materialize;
pub mod pager;
pub mod sysex;
pub mod url;
