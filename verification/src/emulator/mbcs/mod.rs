pub mod mbc;
pub mod mbc1;
pub mod mbc5;
pub mod rom;
