//! Workflows (master batch records): a named diagram of nodes placed on a
//! canvas and edges between them, saved and read back as a whole.
//!
//! Node positions are `f64` on the canvas; here they travel as their IEEE-754
//! bit patterns (`f64::to_bits`), which nothing in this crate inspects.

use vstd::prelude::*;
use vstd::string::*;
use crate::ident::{fresh_id, id_string, id_text, is_fresh_id};
use crate::paging::{limit_or, page_or_first, saturating_page, skipped, wrapped, strict_window, Window};
use crate::text::{trim_owned, trimmed};
use crate::time::Timestamp;

verus! {

/// A workflow as stored (without its diagram).
#[derive(Debug)]
pub struct WorkflowModel {
    pub id: u128,
    pub name: String,
    pub description: String,
    pub created_at: Timestamp,
    pub updated_at: Timestamp,
}

/// A node of a workflow diagram as stored.
#[derive(Debug)]
pub struct NodeModel {
    pub id: u128,
    pub workflow_id: u128,
    /// The node's identifier on the drawing canvas.
    pub canvas_id: String,
    pub node_type: String,
    pub label: String,
    pub pos_x: u64,
    pub pos_y: u64,
    pub created_at: Timestamp,
    pub updated_at: Timestamp,
}

/// An edge of a workflow diagram as stored, between two canvas ids.
#[derive(Debug)]
pub struct EdgeModel {
    pub id: u128,
    pub workflow_id: u128,
    pub from_node_canvas_id: String,
    pub to_node_canvas_id: String,
    pub label: String,
    pub created_at: Timestamp,
}

/// Query of `GET /api/workflows`.
#[derive(Debug)]
pub struct FilterOptions {
    pub page: Option<usize>,
    pub limit: Option<usize>,
}

impl FilterOptions {
    /// 20 workflows a page by default.
    pub fn window(&self) -> (r: Window)
        ensures
            r.limit == limit_or(self.limit, 20) as i64,
            r.offset == wrapped(page_or_first(self.page), limit_or(self.limit, 20)) as i64,
            page_or_first(self.page) >= 1 && skipped(page_or_first(self.page), limit_or(self.limit, 20)) <= usize::MAX
                ==> r.offset == skipped(page_or_first(self.page), limit_or(self.limit, 20)) as i64,
    {
        strict_window(self.page, self.limit, 20)
    }
}

/// Body of `POST /api/workflows`.
#[derive(Debug)]
pub struct CreateWorkflowBody {
    pub name: String,
    pub description: String,
}

/// A patch of a workflow's name and description.
#[derive(Debug)]
pub struct UpdateWorkflowBody {
    pub name: Option<String>,
    pub description: Option<String>,
}

/// A node as the editor sends it.
#[derive(Debug)]
pub struct NodeBody {
    pub canvas_id: String,
    pub node_type: String,
    pub label: String,
    pub pos_x: u64,
    pub pos_y: u64,
}

/// An edge as the editor sends it.
#[derive(Debug)]
pub struct EdgeBody {
    pub from_node_canvas_id: String,
    pub to_node_canvas_id: String,
    pub label: String,
}

/// Body of `PUT /api/workflows/:id/diagram`: the whole diagram.
#[derive(Debug)]
pub struct SaveDiagramBody {
    pub name: String,
    pub description: String,
    pub nodes: Vec<NodeBody>,
    pub edges: Vec<EdgeBody>,
}

/// The workflow that `POST /api/workflows` stores.
pub fn create_workflow(body: &CreateWorkflowBody, id: u128, now: Timestamp) -> (r: WorkflowModel)
    ensures
        r.id == id,
        r.name@ == trimmed(body.name@),
        r.description@ == trimmed(body.description@),
        r.created_at == now,
        r.updated_at == now,
{
    WorkflowModel {
        id,
        name: trim_owned(body.name.as_str()),
        description: trim_owned(body.description.as_str()),
        created_at: now,
        updated_at: now,
    }
}

/// The stored node for a node that the editor sent.
pub open spec fn stores_node(n: NodeModel, b: NodeBody, workflow: u128) -> bool {
    &&& n.workflow_id == workflow
    &&& n.canvas_id@ == b.canvas_id@
    &&& n.node_type@ == b.node_type@
    &&& n.label@ == b.label@
    &&& n.pos_x == b.pos_x
    &&& n.pos_y == b.pos_y
    &&& n.created_at == n.updated_at
}

/// The stored edge for an edge that the editor sent.
pub open spec fn stores_edge(e: EdgeModel, b: EdgeBody, workflow: u128) -> bool {
    &&& e.workflow_id == workflow
    &&& e.from_node_canvas_id@ == b.from_node_canvas_id@
    &&& e.to_node_canvas_id@ == b.to_node_canvas_id@
    &&& e.label@ == b.label@
}

/// What `PUT /api/workflows/:id/diagram` writes: the new name and
/// description, and the rows that replace all nodes and edges of the
/// workflow.
#[derive(Debug)]
pub struct DiagramPlan {
    pub name: String,
    pub description: String,
    pub updated_at: Timestamp,
    pub nodes: Vec<NodeModel>,
    pub edges: Vec<EdgeModel>,
}

/// The rows of a saved diagram: name and description trimmed; one node row
/// per node sent and one edge row per edge sent, in the order sent, each
/// with a fresh identifier.
pub open spec fn plans_diagram(workflow_id: u128, body: SaveDiagramBody, plan: DiagramPlan) -> bool {
    &&& plan.name@ == trimmed(body.name@)
    &&& plan.description@ == trimmed(body.description@)
    &&& plan.nodes@.len() == body.nodes@.len()
    &&& forall|i: int|
        0 <= i < plan.nodes@.len() ==> stores_node(#[trigger] plan.nodes@[i], body.nodes@[i], workflow_id)
            && is_fresh_id(plan.nodes@[i].id)
    &&& plan.edges@.len() == body.edges@.len()
    &&& forall|i: int|
        0 <= i < plan.edges@.len() ==> stores_edge(#[trigger] plan.edges@[i], body.edges@[i], workflow_id)
            && is_fresh_id(plan.edges@[i].id)
}

/// What `PUT /api/workflows/:id/diagram` writes; each row also carries the
/// time it was made.
pub fn save_diagram(workflow_id: u128, body: &SaveDiagramBody) -> (r: DiagramPlan)
    ensures
        plans_diagram(workflow_id, *body, r),
{
    let now = Timestamp::now();
    let mut nodes: Vec<NodeModel> = Vec::new();
    for i in 0..body.nodes.len()
        invariant
            nodes.len() == i,
            forall|j: int|
                0 <= j < i ==> stores_node(#[trigger] nodes[j], body.nodes[j], workflow_id)
                    && is_fresh_id(nodes[j].id),
    {
        let b = &body.nodes[i];
        let at = Timestamp::now();
        nodes.push(
            NodeModel {
                id: fresh_id(),
                workflow_id,
                canvas_id: b.canvas_id.clone(),
                node_type: b.node_type.clone(),
                label: b.label.clone(),
                pos_x: b.pos_x,
                pos_y: b.pos_y,
                created_at: at,
                updated_at: at,
            },
        );
    }
    let mut edges: Vec<EdgeModel> = Vec::new();
    for i in 0..body.edges.len()
        invariant
            edges.len() == i,
            forall|j: int|
                0 <= j < i ==> stores_edge(#[trigger] edges[j], body.edges[j], workflow_id)
                    && is_fresh_id(edges[j].id),
    {
        let b = &body.edges[i];
        edges.push(
            EdgeModel {
                id: fresh_id(),
                workflow_id,
                from_node_canvas_id: b.from_node_canvas_id.clone(),
                to_node_canvas_id: b.to_node_canvas_id.clone(),
                label: b.label.clone(),
                created_at: Timestamp::now(),
            },
        );
    }
    DiagramPlan {
        name: trim_owned(body.name.as_str()),
        description: trim_owned(body.description.as_str()),
        updated_at: now,
        nodes,
        edges,
    }
}

/// A workflow in a list.
#[derive(Debug)]
pub struct WorkflowListItem {
    pub id: String,
    pub name: String,
    pub description: String,
    pub created_at: String,
    pub updated_at: String,
}

pub open spec fn lists_workflow(r: WorkflowListItem, w: WorkflowModel) -> bool {
    &&& r.id@ == id_text(w.id)
    &&& r.name@ == w.name@
    &&& r.description@ == w.description@
    &&& r.created_at@ == w.created_at.text()
    &&& r.updated_at@ == w.updated_at.text()
}

impl WorkflowListItem {
    pub fn from(w: &WorkflowModel) -> (r: WorkflowListItem)
        ensures
            lists_workflow(r, *w),
    {
        WorkflowListItem {
            id: id_string(w.id),
            name: w.name.clone(),
            description: w.description.clone(),
            created_at: w.created_at.to_rfc3339(),
            updated_at: w.updated_at.to_rfc3339(),
        }
    }
}

/// The items of `GET /api/workflows`, in the order of the rows.
pub fn workflow_list(rows: &Vec<WorkflowModel>) -> (r: Vec<WorkflowListItem>)
    ensures
        r.len() == rows.len(),
        forall|i: int| 0 <= i < rows.len() ==> lists_workflow(#[trigger] r[i], rows[i]),
{
    let mut r: Vec<WorkflowListItem> = Vec::new();
    for i in 0..rows.len()
        invariant
            r.len() == i,
            forall|j: int| 0 <= j < i ==> lists_workflow(#[trigger] r[j], rows[j]),
    {
        r.push(WorkflowListItem::from(&rows[i]));
    }
    r
}

/// A node as the API shows it.
#[derive(Debug)]
pub struct NodeResponse {
    pub id: String,
    pub canvas_id: String,
    pub node_type: String,
    pub label: String,
    pub pos_x: u64,
    pub pos_y: u64,
}

pub open spec fn shows_node(r: NodeResponse, n: NodeModel) -> bool {
    &&& r.id@ == id_text(n.id)
    &&& r.canvas_id@ == n.canvas_id@
    &&& r.node_type@ == n.node_type@
    &&& r.label@ == n.label@
    &&& r.pos_x == n.pos_x
    &&& r.pos_y == n.pos_y
}

impl NodeResponse {
    pub fn from(n: &NodeModel) -> (r: NodeResponse)
        ensures
            shows_node(r, *n),
    {
        NodeResponse {
            id: id_string(n.id),
            canvas_id: n.canvas_id.clone(),
            node_type: n.node_type.clone(),
            label: n.label.clone(),
            pos_x: n.pos_x,
            pos_y: n.pos_y,
        }
    }
}

/// An edge as the API shows it.
#[derive(Debug)]
pub struct EdgeResponse {
    pub id: String,
    pub from_node_canvas_id: String,
    pub to_node_canvas_id: String,
    pub label: String,
}

pub open spec fn shows_edge(r: EdgeResponse, e: EdgeModel) -> bool {
    &&& r.id@ == id_text(e.id)
    &&& r.from_node_canvas_id@ == e.from_node_canvas_id@
    &&& r.to_node_canvas_id@ == e.to_node_canvas_id@
    &&& r.label@ == e.label@
}

impl EdgeResponse {
    pub fn from(e: &EdgeModel) -> (r: EdgeResponse)
        ensures
            shows_edge(r, *e),
    {
        EdgeResponse {
            id: id_string(e.id),
            from_node_canvas_id: e.from_node_canvas_id.clone(),
            to_node_canvas_id: e.to_node_canvas_id.clone(),
            label: e.label.clone(),
        }
    }
}

/// A workflow with its whole diagram, as `GET /api/workflows/:id` shows it.
#[derive(Debug)]
pub struct WorkflowFullResponse {
    pub id: String,
    pub name: String,
    pub description: String,
    pub nodes: Vec<NodeResponse>,
    pub edges: Vec<EdgeResponse>,
    pub created_at: String,
    pub updated_at: String,
}

/// `r` shows the workflow `wf` with the nodes and edges given, in their
/// order.
pub open spec fn shows_full_workflow(
    r: WorkflowFullResponse,
    wf: WorkflowModel,
    nodes: Seq<NodeModel>,
    edges: Seq<EdgeModel>,
) -> bool {
    &&& r.id@ == id_text(wf.id)
    &&& r.name@ == wf.name@
    &&& r.description@ == wf.description@
    &&& r.created_at@ == wf.created_at.text()
    &&& r.updated_at@ == wf.updated_at.text()
    &&& r.nodes@.len() == nodes.len()
    &&& forall|i: int| 0 <= i < nodes.len() ==> shows_node(#[trigger] r.nodes@[i], nodes[i])
    &&& r.edges@.len() == edges.len()
    &&& forall|i: int| 0 <= i < edges.len() ==> shows_edge(#[trigger] r.edges@[i], edges[i])
}

impl WorkflowFullResponse {
    /// The workflow, its nodes and its edges, in the order given (the
    /// queries sort them by creation time).
    pub fn from_parts(wf: &WorkflowModel, nodes: &Vec<NodeModel>, edges: &Vec<EdgeModel>) -> (r:
        WorkflowFullResponse)
        ensures
            shows_full_workflow(r, *wf, nodes@, edges@),
    {
        let mut ns: Vec<NodeResponse> = Vec::new();
        for i in 0..nodes.len()
            invariant
                ns.len() == i,
                forall|j: int| 0 <= j < i ==> shows_node(#[trigger] ns[j], nodes[j]),
        {
            ns.push(NodeResponse::from(&nodes[i]));
        }
        let mut es: Vec<EdgeResponse> = Vec::new();
        for i in 0..edges.len()
            invariant
                es.len() == i,
                forall|j: int| 0 <= j < i ==> shows_edge(#[trigger] es[j], edges[j]),
        {
            es.push(EdgeResponse::from(&edges[i]));
        }
        WorkflowFullResponse {
            id: id_string(wf.id),
            name: wf.name.clone(),
            description: wf.description.clone(),
            nodes: ns,
            edges: es,
            created_at: wf.created_at.to_rfc3339(),
            updated_at: wf.updated_at.to_rfc3339(),
        }
    }
}

/// What identifies a node on the canvas: id, type, label and position.
pub open spec fn node_body_key(b: NodeBody) -> (Seq<char>, Seq<char>, Seq<char>, u64, u64) {
    (b.canvas_id@, b.node_type@, b.label@, b.pos_x, b.pos_y)
}

pub open spec fn node_model_key(n: NodeModel) -> (Seq<char>, Seq<char>, Seq<char>, u64, u64) {
    (n.canvas_id@, n.node_type@, n.label@, n.pos_x, n.pos_y)
}

pub open spec fn node_response_key(n: NodeResponse) -> (Seq<char>, Seq<char>, Seq<char>, u64, u64) {
    (n.canvas_id@, n.node_type@, n.label@, n.pos_x, n.pos_y)
}

/// What identifies an edge: its two ends and its label.
pub open spec fn edge_body_key(b: EdgeBody) -> (Seq<char>, Seq<char>, Seq<char>) {
    (b.from_node_canvas_id@, b.to_node_canvas_id@, b.label@)
}

pub open spec fn edge_model_key(e: EdgeModel) -> (Seq<char>, Seq<char>, Seq<char>) {
    (e.from_node_canvas_id@, e.to_node_canvas_id@, e.label@)
}

pub open spec fn edge_response_key(e: EdgeResponse) -> (Seq<char>, Seq<char>, Seq<char>) {
    (e.from_node_canvas_id@, e.to_node_canvas_id@, e.label@)
}

/// Two sequences with the same elements, counted with repetition, keep
/// the same elements under any map.
proof fn lemma_map_keeps_multiset<A, B>(a: Seq<A>, b: Seq<A>, f: spec_fn(A) -> B)
    requires
        a.to_multiset() == b.to_multiset(),
    ensures
        a.map_values(f).to_multiset() == b.map_values(f).to_multiset(),
    decreases a.len(),
{
    broadcast use vstd::seq_lib::group_to_multiset_ensures, vstd::multiset::group_multiset_axioms;

    if a.len() == 0 {
        assert(a.to_multiset().len() == a.len());
        assert(b.to_multiset().len() == b.len());
        assert(b.len() == 0);
        assert(a.map_values(f) =~= b.map_values(f));
    } else {
        let x = a.last();
        let a0 = a.drop_last();
        assert(a == a0.push(x));
        assert(a.to_multiset() =~= a0.to_multiset().insert(x));
        assert(b.to_multiset().count(x) > 0);
        assert(b.contains(x));
        let j = choose|j: int| 0 <= j < b.len() && b[j] == x;
        let b0 = b.remove(j);
        assert(b0.to_multiset() =~= b.to_multiset().remove(x));
        assert(a0.to_multiset() =~= a.to_multiset().remove(x));
        lemma_map_keeps_multiset(a0, b0, f);
        assert(a.map_values(f) =~= a0.map_values(f).push(f(x)));
        let bm = b.map_values(f);
        assert(bm.remove(j) =~= b0.map_values(f));
        assert(bm.remove(j).to_multiset() =~= bm.to_multiset().remove(f(x)));
        assert(bm.to_multiset().count(f(x)) > 0) by {
            assert(bm[j] == f(x));
            assert(bm.contains(f(x)));
        }
        assert(bm.to_multiset() =~= b0.map_values(f).to_multiset().insert(f(x)));
    }
}

/// Saving a diagram and then reading the workflow back, with nothing
/// written in between, shows the trimmed name and description sent and
/// exactly the nodes and edges sent (as multisets: the read sorts them by
/// creation time).
pub proof fn lemma_saved_diagram_reads_back(
    workflow_id: u128,
    body: SaveDiagramBody,
    plan: DiagramPlan,
    wf: WorkflowModel,
    nodes: Seq<NodeModel>,
    edges: Seq<EdgeModel>,
    shown: WorkflowFullResponse,
)
    requires
        plans_diagram(workflow_id, body, plan),
        wf.id == workflow_id,
        wf.name@ == plan.name@,
        wf.description@ == plan.description@,
        nodes.to_multiset() == plan.nodes@.to_multiset(),
        edges.to_multiset() == plan.edges@.to_multiset(),
        shows_full_workflow(shown, wf, nodes, edges),
    ensures
        shown.id@ == id_text(workflow_id),
        shown.name@ == trimmed(body.name@),
        shown.description@ == trimmed(body.description@),
        shown.nodes@.map_values(|r: NodeResponse| node_response_key(r)).to_multiset()
            == body.nodes@.map_values(|b: NodeBody| node_body_key(b)).to_multiset(),
        shown.edges@.map_values(|r: EdgeResponse| edge_response_key(r)).to_multiset()
            == body.edges@.map_values(|b: EdgeBody| edge_body_key(b)).to_multiset(),
{
    let nk = |n: NodeModel| node_model_key(n);
    let ek = |e: EdgeModel| edge_model_key(e);
    lemma_map_keeps_multiset(nodes, plan.nodes@, nk);
    lemma_map_keeps_multiset(edges, plan.edges@, ek);
    assert(shown.nodes@.map_values(|r: NodeResponse| node_response_key(r)) =~= nodes.map_values(nk));
    assert(plan.nodes@.map_values(nk) =~= body.nodes@.map_values(|b: NodeBody| node_body_key(b)));
    assert(shown.edges@.map_values(|r: EdgeResponse| edge_response_key(r)) =~= edges.map_values(ek));
    assert(plan.edges@.map_values(ek) =~= body.edges@.map_values(|b: EdgeBody| edge_body_key(b)));
}

} // verus!
