pub mod canonical;
pub mod hexcode;
pub mod command;
pub mod dispatch;
pub mod gateway;
pub mod interaction;
pub mod json;
pub mod parse;
pub mod signature;
