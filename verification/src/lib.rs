//! Version information for Windows executables: the data of a VERSIONINFO
//! resource and the resource script that describes it.
pub mod attributes;
pub mod codes;
pub mod decimal;
pub mod layout;
pub mod link;
pub mod text;
pub mod versioninfo;

pub use crate::link::LinkState;
pub use crate::versioninfo::{
    CargoEnv, CharacterSet, FileFlagMask, FileFlags, FileInfo, FileOS, FileType, Language,
    RCString, SubTypeDriver, SubTypeFont, Version, VersionInfo,
};
