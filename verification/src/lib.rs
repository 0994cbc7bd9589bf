//! Core of the NixMCP server: which `nix` commands each tool runs and how
//! their results become package and option records.

pub mod client;
pub mod command;
pub mod expressions;
pub mod json;
pub mod laws;
pub mod models;
pub mod text;

pub use client::NixClient;
pub use command::{CommandOutput, NixCommand};
pub use models::{
    GetOptionRequest, GetPackageRequest, InspectFlakeRequest, NixosOption, Package,
    PackageMetadata, SearchOptionsRequest, SearchPackagesRequest,
};
