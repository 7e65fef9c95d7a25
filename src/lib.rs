//! A small film web site: the decisions its service makes at startup and the
//! text its pages return.

pub mod config;
pub mod startup;
pub mod pages;
pub mod api;
