//! The metadata record for one directory entry, as the caller hands it in.

use vstd::prelude::*;

verus! {

/// The kind of a directory entry; a symbolic link carries its target path.
pub enum NodeType {
    File,
    Directory,
    SymLink(String),
}

/// One entry's metadata, already resolved by the traversal component.
/// The formatter only reads it.
pub struct Meta {
    /// The entry's base name.
    pub name: String,
    /// File, directory, or symbolic link with its target.
    pub node_type: NodeType,
    /// Permission bits; only the low nine bits carry permission state.
    pub mode: u32,
    /// Modification time in whole seconds since the epoch, negative for
    /// instants before it, or `None` when the platform could not supply one.
    pub modified_secs: Option<i64>,
    /// Size in bytes.
    pub byte_length: u64,
    /// The size figure already rendered by the caller's size formatter.
    pub size_value: String,
    /// The size unit already rendered by the caller's size formatter.
    pub size_unit: String,
}

} // verus!
