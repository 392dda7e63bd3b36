use vstd::prelude::*;

verus! {

/// A file or folder node of the graph.
pub struct TiramisuRecord {
    pub name: String,
    pub node_id: String,
    pub tiramisu_path: String,
    pub file_extension: String,
    pub original_path: String,
    pub node_type: String,
    pub file_hash: String,
}

/// A containment edge: the folder `parent` holds the node `child`.
pub struct RelationshipRecord {
    pub relationship: String,
    pub parent: String,
    pub child: String,
}

/// Which node a relationship record stands for.
pub enum NodeRef {
    Folder(int),
    File(int),
}

/// The records of one run: folders (the root first), files, and one
/// containment edge for each node but the root, all in insertion order.
///
/// The ghost links pair each non-root node with its own edge, both ways.
pub struct Dataset {
    pub folders: Vec<TiramisuRecord>,
    pub files: Vec<TiramisuRecord>,
    pub relationships: Vec<RelationshipRecord>,
    pub folder_edge: Ghost<Seq<int>>,
    pub file_edge: Ghost<Seq<int>>,
    pub edge_node: Ghost<Seq<NodeRef>>,
}

pub open spec fn contains_label() -> Seq<char> {
    seq!['C', 'O', 'N', 'T', 'A', 'I', 'N', 'S']
}

impl Dataset {
    /// The edge `k` stands for a node whose link points back to it, and whose
    /// id is the edge's child.
    pub open spec fn edge_ok(&self, k: int) -> bool {
        &&& self.relationships@[k].relationship@ == contains_label()
        &&& match self.edge_node@[k] {
            NodeRef::Folder(i) => 1 <= i < self.folders@.len() && self.folder_edge@[i] == k
                && self.relationships@[k].child@ == self.folders@[i].node_id@,
            NodeRef::File(i) => 0 <= i < self.files@.len() && self.file_edge@[i] == k
                && self.relationships@[k].child@ == self.files@[i].node_id@,
        }
    }

    pub open spec fn wf(&self) -> bool {
        &&& self.folders@.len() >= 1
        &&& self.folder_edge@.len() == self.folders@.len()
        &&& self.file_edge@.len() == self.files@.len()
        &&& self.edge_node@.len() == self.relationships@.len()
        &&& self.relationships@.len() + 1 == self.folders@.len() + self.files@.len()
        &&& forall|k: int| 0 <= k < self.relationships@.len() ==> #[trigger] self.edge_ok(k)
        &&& forall|i: int| 1 <= i < self.folders@.len() ==> {
            &&& 0 <= #[trigger] self.folder_edge@[i] < self.relationships@.len()
            &&& self.edge_node@[self.folder_edge@[i]] == NodeRef::Folder(i)
        }
        &&& forall|i: int| 0 <= i < self.files@.len() ==> {
            &&& 0 <= #[trigger] self.file_edge@[i] < self.relationships@.len()
            &&& self.edge_node@[self.file_edge@[i]] == NodeRef::File(i)
        }
    }

    /// A dataset that holds the root folder alone.
    pub fn new(root: TiramisuRecord) -> (r: Dataset)
        ensures
            r.wf(),
            r.folders@ == seq![root],
            r.files@.len() == 0,
            r.relationships@.len() == 0,
    {
        let mut folders: Vec<TiramisuRecord> = Vec::new();
        folders.push(root);
        let ghost first: Seq<int> = seq![-1int];
        Dataset {
            folders,
            files: Vec::new(),
            relationships: Vec::new(),
            folder_edge: Ghost(first),
            file_edge: Ghost(Seq::empty()),
            edge_node: Ghost(Seq::empty()),
        }
    }

    fn contains_edge(parent: String, child: &String) -> (r: RelationshipRecord)
        ensures
            r.relationship@ == contains_label(),
            r.parent == parent,
            r.child@ == child@,
    {
        proof { reveal_strlit("CONTAINS"); }
        RelationshipRecord { relationship: "CONTAINS".to_owned(), parent, child: child.clone() }
    }

    /// Appends a folder and its edge from the folder `parent`.
    pub fn add_folder(&mut self, record: TiramisuRecord, parent: String)
        requires
            old(self).wf(),
        ensures
            final(self).wf(),
            final(self).folders@ == old(self).folders@.push(record),
            final(self).files@ == old(self).files@,
            final(self).relationships@.len() == old(self).relationships@.len() + 1,
            final(self).relationships@.drop_last() == old(self).relationships@,
            final(self).relationships@.last().parent == parent,
            final(self).relationships@.last().child@ == record.node_id@,
    {
        let edge = Self::contains_edge(parent, &record.node_id);
        let ghost i = self.folders@.len() as int;
        let ghost k = self.relationships@.len() as int;
        self.folders.push(record);
        self.relationships.push(edge);
        self.folder_edge = Ghost(self.folder_edge@.push(k));
        self.edge_node = Ghost(self.edge_node@.push(NodeRef::Folder(i)));
        assert(self.relationships@.drop_last() =~= old(self).relationships@);
        assert forall|j: int| 0 <= j < self.relationships@.len() implies #[trigger] self.edge_ok(j) by {
            if j < k {
                assert(old(self).edge_ok(j));
            }
        }
    }

    /// Appends a file and its edge from the folder `parent`.
    pub fn add_file(&mut self, record: TiramisuRecord, parent: String)
        requires
            old(self).wf(),
        ensures
            final(self).wf(),
            final(self).folders@ == old(self).folders@,
            final(self).files@ == old(self).files@.push(record),
            final(self).relationships@.len() == old(self).relationships@.len() + 1,
            final(self).relationships@.drop_last() == old(self).relationships@,
            final(self).relationships@.last().parent == parent,
            final(self).relationships@.last().child@ == record.node_id@,
    {
        let edge = Self::contains_edge(parent, &record.node_id);
        let ghost i = self.files@.len() as int;
        let ghost k = self.relationships@.len() as int;
        self.files.push(record);
        self.relationships.push(edge);
        self.file_edge = Ghost(self.file_edge@.push(k));
        self.edge_node = Ghost(self.edge_node@.push(NodeRef::File(i)));
        assert(self.relationships@.drop_last() =~= old(self).relationships@);
        assert forall|j: int| 0 <= j < self.relationships@.len() implies #[trigger] self.edge_ok(j) by {
            if j < k {
                assert(old(self).edge_ok(j));
            }
        }
    }
}

/// Every node but the root has exactly one containment edge of its own, whose
/// child is the node's id; every edge belongs to exactly one such node.
pub proof fn containment_is_complete(ds: &Dataset)
    requires
        ds.wf(),
    ensures
        ds.relationships@.len() == ds.folders@.len() - 1 + ds.files@.len(),
        forall|i: int| 1 <= i < ds.folders@.len() ==> {
            let k = #[trigger] ds.folder_edge@[i];
            &&& 0 <= k < ds.relationships@.len()
            &&& ds.relationships@[k].child@ == ds.folders@[i].node_id@
            &&& forall|j: int| 1 <= j < ds.folders@.len() && ds.folder_edge@[j] == k ==> j == i
            &&& forall|j: int| 0 <= j < ds.files@.len() ==> ds.file_edge@[j] != k
        },
        forall|i: int| 0 <= i < ds.files@.len() ==> {
            let k = #[trigger] ds.file_edge@[i];
            &&& 0 <= k < ds.relationships@.len()
            &&& ds.relationships@[k].child@ == ds.files@[i].node_id@
            &&& forall|j: int| 0 <= j < ds.files@.len() && ds.file_edge@[j] == k ==> j == i
            &&& forall|j: int| 1 <= j < ds.folders@.len() ==> ds.folder_edge@[j] != k
        },
        forall|k: int| 0 <= k < ds.relationships@.len() ==> match #[trigger] ds.edge_node@[k] {
            NodeRef::Folder(i) => 1 <= i < ds.folders@.len() && ds.folder_edge@[i] == k,
            NodeRef::File(i) => 0 <= i < ds.files@.len() && ds.file_edge@[i] == k,
        },
{
    assert forall|k: int| 0 <= k < ds.relationships@.len() implies match #[trigger] ds.edge_node@[k] {
        NodeRef::Folder(i) => 1 <= i < ds.folders@.len() && ds.folder_edge@[i] == k,
        NodeRef::File(i) => 0 <= i < ds.files@.len() && ds.file_edge@[i] == k,
    } by {
        assert(ds.edge_ok(k));
    }
    assert forall|i: int| 1 <= i < ds.folders@.len() implies ds.relationships@[#[trigger] ds.folder_edge@[i]].child@ == ds.folders@[i].node_id@ by {
        assert(ds.edge_ok(ds.folder_edge@[i]));
    }
    assert forall|i: int| 0 <= i < ds.files@.len() implies ds.relationships@[#[trigger] ds.file_edge@[i]].child@ == ds.files@[i].node_id@ by {
        assert(ds.edge_ok(ds.file_edge@[i]));
    }
}

/// No two nodes of the dataset share an id.
pub open spec fn ids_distinct(ds: &Dataset) -> bool {
    &&& forall|i: int, j: int| 0 <= i < j < ds.folders@.len() ==> ds.folders@[i].node_id@ != ds.folders@[j].node_id@
    &&& forall|i: int, j: int| 0 <= i < j < ds.files@.len() ==> ds.files@[i].node_id@ != ds.files@[j].node_id@
    &&& forall|i: int, j: int| 0 <= i < ds.folders@.len() && 0 <= j < ds.files@.len() ==> ds.folders@[i].node_id@ != ds.files@[j].node_id@
}

/// Where node ids are distinct, the edge of a node is the only one whose
/// child is that node's id, and no edge has the root as its child.
pub proof fn edges_are_unique_by_id(ds: &Dataset)
    requires
        ds.wf(),
        ids_distinct(ds),
    ensures
        forall|k: int| 0 <= k < ds.relationships@.len() ==> #[trigger] ds.relationships@[k].child@ != ds.folders@[0].node_id@,
        forall|i: int, k: int| 1 <= i < ds.folders@.len() && 0 <= k < ds.relationships@.len()
            && #[trigger] ds.relationships@[k].child@ == #[trigger] ds.folders@[i].node_id@ ==> k == ds.folder_edge@[i],
        forall|i: int, k: int| 0 <= i < ds.files@.len() && 0 <= k < ds.relationships@.len()
            && #[trigger] ds.relationships@[k].child@ == #[trigger] ds.files@[i].node_id@ ==> k == ds.file_edge@[i],
{
    assert forall|k: int| 0 <= k < ds.relationships@.len() implies #[trigger] ds.relationships@[k].child@ != ds.folders@[0].node_id@ by {
        assert(ds.edge_ok(k));
    }
    assert forall|i: int, k: int| 1 <= i < ds.folders@.len() && 0 <= k < ds.relationships@.len()
        && #[trigger] ds.relationships@[k].child@ == #[trigger] ds.folders@[i].node_id@ implies k == ds.folder_edge@[i] by {
        assert(ds.edge_ok(k));
        match ds.edge_node@[k] {
            NodeRef::Folder(m) => {
                if m < i {
                    assert(ds.folders@[m].node_id@ != ds.folders@[i].node_id@);
                } else if m > i {
                    assert(ds.folders@[i].node_id@ != ds.folders@[m].node_id@);
                }
            },
            NodeRef::File(m) => {
                assert(ds.folders@[i].node_id@ != ds.files@[m].node_id@);
            },
        }
    }
    assert forall|i: int, k: int| 0 <= i < ds.files@.len() && 0 <= k < ds.relationships@.len()
        && #[trigger] ds.relationships@[k].child@ == #[trigger] ds.files@[i].node_id@ implies k == ds.file_edge@[i] by {
        assert(ds.edge_ok(k));
        match ds.edge_node@[k] {
            NodeRef::Folder(m) => {
                assert(ds.folders@[m].node_id@ != ds.files@[i].node_id@);
            },
            NodeRef::File(m) => {
                if m < i {
                    assert(ds.files@[m].node_id@ != ds.files@[i].node_id@);
                } else if m > i {
                    assert(ds.files@[i].node_id@ != ds.files@[m].node_id@);
                }
            },
        }
    }
}

} // verus!
