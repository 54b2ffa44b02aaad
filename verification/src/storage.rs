//! What the firmware file protocol reports about a node: its kind, and
//! for files the size.  The protocol calls themselves stay outside the
//! library; these are the plain values its answers reduce to.

use vstd::prelude::*;

verus! {

/// Whether a node of the volume is a file or a directory.
#[derive(Clone, Copy, Debug, PartialEq, Eq, Structural)]
pub enum NodeType {
    File,
    Directory,
}

impl NodeType {
    /// Whether this is a file.
    pub fn is_file(self) -> (r: bool)
        ensures
            r == (self == NodeType::File),
    {
        match self {
            NodeType::File => true,
            _ => false,
        }
    }

    /// Whether this is a directory.
    pub fn is_directory(self) -> (r: bool)
        ensures
            r == (self == NodeType::Directory),
    {
        match self {
            NodeType::Directory => true,
            _ => false,
        }
    }
}

/// What a node's information record holds: a file's byte size, or the
/// fact that the node is a directory.
#[derive(Clone, Copy, Debug, PartialEq, Eq, Structural)]
pub enum NodeInfo {
    File(u64),
    Directory,
}

impl NodeInfo {
    /// The kind of the node.
    pub fn node_type(&self) -> (r: NodeType)
        ensures
            r == (match self {
                NodeInfo::File(_) => NodeType::File,
                NodeInfo::Directory => NodeType::Directory,
            }),
    {
        match self {
            NodeInfo::File(_) => NodeType::File,
            NodeInfo::Directory => NodeType::Directory,
        }
    }

    /// The byte size, which only a file has.
    pub fn size(&self) -> (r: Option<u64>)
        ensures
            r == (match self {
                NodeInfo::File(size) => Some(*size),
                NodeInfo::Directory => None::<u64>,
            }),
    {
        match self {
            NodeInfo::File(size) => Some(*size),
            NodeInfo::Directory => None,
        }
    }
}

} // verus!
