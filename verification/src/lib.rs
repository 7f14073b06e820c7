//! A small panel applet library: a popup/settings state machine and a
//! placeholder content widget that extracts the body text of an inline
//! `data:text/html,` source by a naive literal scan.

pub mod applet;
pub mod extract;
pub mod widget;
