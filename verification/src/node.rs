//! File-system entries as structured nodes.
//!
//! A directory listing surfaces each immediate child of a directory as
//! a [`FileNode`]: a fresh process-unique identifier, the base name,
//! the full path, and whether the entry is a file or a folder. A flat
//! listing never carries inline content and never carries children.
//! The enumeration of the host directory is host I/O and is done by
//! the surrounding application, which hands the plain entry records to
//! [`list_nodes`] in enumeration order.

use vstd::prelude::*;

verus! {

/// Whether a file-system entry is a regular file or a folder.
#[derive(Clone, Copy, Debug, PartialEq, Eq, Structural)]
pub enum NodeKind {
    File,
    Folder,
}

/// One file-system entry as surfaced to the caller.
#[derive(Debug)]
pub struct FileNode {
    /// Process-unique identifier, generated fresh on every listing.
    pub id: String,
    /// Base name of the entry.
    pub name: String,
    /// Fully qualified path of the entry.
    pub path: String,
    /// File or folder.
    pub kind: NodeKind,
    /// Inline text content; populated only by an explicit read, never
    /// by a directory listing.
    pub content: Option<String>,
    /// Child nodes; populated only by a recursive listing. The flat
    /// listing never populates it.
    pub children: Option<Vec<FileNode>>,
}

impl FileNode {
    /// A folder never carries inline content.
    pub open spec fn well_formed(&self) -> bool {
        self.kind == NodeKind::Folder ==> self.content is None
    }
}

/// One immediate child of a directory, as plain values: base name,
/// full path, and whether the host metadata marked it a directory.
#[derive(Clone, Debug)]
pub struct DirEntryRecord {
    pub name: String,
    pub path: String,
    pub is_dir: bool,
}

/// The node kind an entry record maps to.
pub open spec fn kind_of_entry(is_dir: bool) -> NodeKind {
    if is_dir {
        NodeKind::Folder
    } else {
        NodeKind::File
    }
}

/// How a listed node reflects the entry record it was built from: the
/// name, path and kind carry over, the identifier is a fresh 36
/// character string, and neither content nor children is populated.
pub open spec fn node_reflects_entry(node: FileNode, entry: DirEntryRecord) -> bool {
    &&& node.name@ == entry.name@
    &&& node.path@ == entry.path@
    &&& node.kind == kind_of_entry(entry.is_dir)
    &&& node.content is None
    &&& node.children is None
    &&& node.id@.len() == 36
}

/// Relies on uuid::Uuid::new_v4 and its hyphenated string form: a
/// fresh random identifier of exactly 36 characters.
#[verifier::external_body]
fn fresh_node_id() -> (r: String)
    ensures
        r@.len() == 36,
{
    uuid::Uuid::new_v4().to_string()
}

/// Builds the flat listing for a directory out of its entry records,
/// one node per record, in the given enumeration order.
pub fn list_nodes(entries: Vec<DirEntryRecord>) -> (r: Vec<FileNode>)
    ensures
        r@.len() == entries@.len(),
        forall|i: int| 0 <= i < r@.len() ==> node_reflects_entry(#[trigger] r@[i], entries@[i]),
        forall|i: int| 0 <= i < r@.len() ==> (#[trigger] r@[i]).well_formed(),
{
    let mut nodes: Vec<FileNode> = Vec::new();
    let n = entries.len();
    for idx in 0..n
        invariant
            n == entries@.len(),
            nodes@.len() == idx,
            forall|i: int|
                0 <= i < idx ==> node_reflects_entry(#[trigger] nodes@[i], entries@[i]),
    {
        let entry = &entries[idx];
        let kind = if entry.is_dir {
            NodeKind::Folder
        } else {
            NodeKind::File
        };
        let node = FileNode {
            id: fresh_node_id(),
            name: entry.name.clone(),
            path: entry.path.clone(),
            kind,
            content: Option::None,
            children: Option::None,
        };
        nodes.push(node);
    }
    nodes
}

} // verus!
