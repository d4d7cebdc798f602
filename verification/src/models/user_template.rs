//! User-template models.

use std::collections::HashMap;

use vstd::prelude::*;

verus! {

/// The body for creating a user template.
#[derive(Debug)]
pub struct UserTemplateCreate {
    pub name: Option<String>,
    pub data_limit: u64,
    pub expire_duration: u64,
    pub username_prefix: String,
    pub username_suffix: String,
    pub inbounds: HashMap<String, Vec<String>>,
}

/// The body for modifying a user template.
#[derive(Debug)]
pub struct UserTemplateModify {
    pub name: Option<String>,
    pub data_limit: u64,
    pub expire_duration: u64,
    pub username_prefix: String,
    pub username_suffix: String,
    pub inbounds: HashMap<String, Vec<String>>,
}

/// A user template as the panel reports it.
#[derive(Debug)]
pub struct UserTemplateResponse {
    pub name: Option<String>,
    pub data_limit: u64,
    pub expire_duration: u64,
    pub username_prefix: String,
    pub username_suffix: String,
    pub inbounds: HashMap<String, Vec<String>>,
    pub id: u64,
}

} // verus!
