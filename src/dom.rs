use vstd::prelude::*;

verus! {

/// The kinds of element that the page model knows.
#[derive(Clone, Copy, Debug, PartialEq, Eq, Structural)]
pub enum ElementKind {
    Html,
    Head,
    Style,
    Script,
    Body,
    P,
    H1,
    H2,
    A,
}

#[derive(Clone, Debug, PartialEq, Eq)]
pub struct Attribute {
    pub name: String,
    pub value: String,
}

#[derive(Clone, Debug, PartialEq, Eq)]
pub struct Element {
    pub kind: ElementKind,
    pub attributes: Vec<Attribute>,
}

#[derive(Clone, Debug, PartialEq, Eq)]
pub enum NodeKind {
    Document,
    Element(Element),
    Text(String),
}

/// A node of the tree; its links are positions in the tree's node list.
#[derive(Clone, Debug, PartialEq, Eq)]
pub struct Node {
    pub kind: NodeKind,
    pub first_child: Option<usize>,
    pub next_sibling: Option<usize>,
}

/// A document tree, its nodes held in one list. Every link points further
/// down the list, so the links form no cycle.
#[derive(Clone, Debug)]
pub struct Dom {
    nodes: Vec<Node>,
}

/// Whether `link`, leaving position `n` of a list of `len` nodes, points further down the list.
pub open spec fn link_ok(link: Option<usize>, n: int, len: int) -> bool {
    match link {
        Some(j) => n < j < len,
        None => true,
    }
}

pub open spec fn nodes_wf(nodes: Seq<Node>) -> bool {
    forall|n: int|
        0 <= n < nodes.len() ==> link_ok(#[trigger] nodes[n].first_child, n, nodes.len() as int)
            && link_ok(nodes[n].next_sibling, n, nodes.len() as int)
}

/// `link` where it points further down than `n`, within a list of `len` nodes; else no link.
pub open spec fn forward(link: Option<usize>, n: int, len: int) -> Option<usize> {
    match link {
        Some(j) => if n < j < len {
            Some(j)
        } else {
            None
        },
        None => None,
    }
}

pub open spec fn is_element_of(node: Node, kind: ElementKind) -> bool {
    node.kind matches NodeKind::Element(e) && e.kind == kind
}

pub open spec fn has_id(node: Node, id: Seq<char>) -> bool {
    node.kind matches NodeKind::Element(e) && exists|i: int|
        0 <= i < e.attributes@.len() && e.attributes@[i].name@ == "id"@
            && #[trigger] e.attributes@[i].value@ == id
}

/// The first node, in document order, of the node at `at`, its descendants and
/// its later siblings with theirs, that satisfies `p`.
pub open spec fn first_match(nodes: Seq<Node>, at: Option<usize>, p: spec_fn(Node) -> bool) -> Option<
    usize,
>
    decreases
            match at {
                Some(n) => nodes.len() - n,
                None => 0,
            },
{
    match at {
        None => None,
        Some(n) => if n >= nodes.len() {
            None
        } else if p(nodes[n as int]) {
            Some(n)
        } else {
            let in_children = first_match(nodes, forward(nodes[n as int].first_child, n as int, nodes.len() as int), p);
            if in_children is Some {
                in_children
            } else {
                first_match(nodes, forward(nodes[n as int].next_sibling, n as int, nodes.len() as int), p)
            }
        },
    }
}

/// The text of the first child of `at`, where that child is a text node; else empty.
pub open spec fn child_text(nodes: Seq<Node>, at: Option<usize>) -> Seq<char> {
    match at {
        Some(n) => match forward(nodes[n as int].first_child, n as int, nodes.len() as int) {
            Some(c) => match nodes[c as int].kind {
                NodeKind::Text(s) => s@,
                _ => Seq::empty(),
            },
            None => Seq::empty(),
        },
        None => Seq::empty(),
    }
}

pub open spec fn element_test(kind: ElementKind) -> spec_fn(Node) -> bool {
    |node: Node| is_element_of(node, kind)
}

pub open spec fn id_test(id: Seq<char>) -> spec_fn(Node) -> bool {
    |node: Node| has_id(node, id)
}

/// Whether two strings hold the same characters.
fn same_text(a: &str, b: &str) -> (r: bool)
    ensures
        r == (a@ == b@),
{
    let n = a.unicode_len();
    if n != b.unicode_len() {
        return false;
    }
    let mut i: usize = 0;
    while i < n
        invariant
            i <= n,
            n == a@.len(),
            n == b@.len(),
            forall|j: int| 0 <= j < i ==> a@[j] == b@[j],
        decreases n - i,
    {
        if a.get_char(i) != b.get_char(i) {
            return false;
        }
        i = i + 1;
    }
    assert(a@ =~= b@);
    true
}

impl Dom {
    pub closed spec fn spec_nodes(&self) -> Seq<Node> {
        self.nodes@
    }

    pub open spec fn wf(&self) -> bool {
        nodes_wf(self.spec_nodes())
    }

    /// A tree over `nodes`, where every link points further down the list.
    pub fn from_nodes(nodes: Vec<Node>) -> (r: Option<Dom>)
        ensures
            nodes_wf(nodes@) ==> (r matches Some(d) && d.spec_nodes() == nodes@),
            !nodes_wf(nodes@) ==> r is None,
    {
        let len = nodes.len();
        let mut n: usize = 0;
        while n < len
            invariant
                n <= len,
                len == nodes@.len(),
                forall|m: int|
                    0 <= m < n ==> link_ok(#[trigger] nodes@[m].first_child, m, len as int)
                        && link_ok(nodes@[m].next_sibling, m, len as int),
            decreases len - n,
        {
            let ok_child = match nodes[n].first_child {
                Some(j) => n < j && j < len,
                None => true,
            };
            let ok_sibling = match nodes[n].next_sibling {
                Some(j) => n < j && j < len,
                None => true,
            };
            if !(ok_child && ok_sibling) {
                return None;
            }
            n = n + 1;
        }
        Some(Dom { nodes })
    }

    pub fn nodes(&self) -> (r: &Vec<Node>)
        ensures
            r@ == self.spec_nodes(),
    {
        &self.nodes
    }
}

/// Whether an element holds an attribute `id` with the value `id_name`.
fn element_has_id(e: &Element, id_name: &String) -> (r: bool)
    ensures
        r == exists|i: int|
            0 <= i < e.attributes@.len() && e.attributes@[i].name@ == "id"@
                && #[trigger] e.attributes@[i].value@ == id_name@,
{
    let mut i: usize = 0;
    while i < e.attributes.len()
        invariant
            i <= e.attributes@.len(),
            forall|j: int|
                0 <= j < i ==> !(e.attributes@[j].name@ == "id"@ && #[trigger] e.attributes@[j].value@
                    == id_name@),
        decreases e.attributes@.len() - i,
    {
        let a = &e.attributes[i];
        if same_text(a.name.as_str(), "id") && same_text(a.value.as_str(), id_name.as_str()) {
            return true;
        }
        i = i + 1;
    }
    false
}

/// The first element of kind `element_kind`, in document order, among the node
/// at `node`, its descendants and its later siblings with theirs.
pub fn get_target_element_node(dom: &Dom, node: Option<usize>, element_kind: ElementKind) -> (r:
    Option<usize>)
    requires
        dom.wf(),
    ensures
        r == first_match(dom.spec_nodes(), node, element_test(element_kind)),
    decreases
            match node {
                Some(n) => dom.spec_nodes().len() - n,
                None => 0,
            },
{
    let n = match node {
        None => return None,
        Some(n) => n,
    };
    if n >= dom.nodes.len() {
        return None;
    }
    let here = &dom.nodes[n];
    let matches = match &here.kind {
        NodeKind::Element(e) => e.kind == element_kind,
        _ => false,
    };
    if matches {
        return Some(n);
    }
    proof {
        assert(link_ok(dom.spec_nodes()[n as int].first_child, n as int, dom.spec_nodes().len() as int));
    }
    let in_children = get_target_element_node(dom, here.first_child, element_kind);
    if in_children.is_some() {
        return in_children;
    }
    get_target_element_node(dom, here.next_sibling, element_kind)
}

/// The first element with the attribute `id` set to `id_name`, in document
/// order, among the node at `node`, its descendants and its later siblings with theirs.
pub fn get_element_by_id(dom: &Dom, node: Option<usize>, id_name: &String) -> (r: Option<usize>)
    requires
        dom.wf(),
    ensures
        r == first_match(dom.spec_nodes(), node, id_test(id_name@)),
    decreases
            match node {
                Some(n) => dom.spec_nodes().len() - n,
                None => 0,
            },
{
    let n = match node {
        None => return None,
        Some(n) => n,
    };
    if n >= dom.nodes.len() {
        return None;
    }
    let here = &dom.nodes[n];
    let matches = match &here.kind {
        NodeKind::Element(e) => element_has_id(e, id_name),
        _ => false,
    };
    if matches {
        return Some(n);
    }
    proof {
        assert(link_ok(dom.spec_nodes()[n as int].first_child, n as int, dom.spec_nodes().len() as int));
    }
    let in_children = get_element_by_id(dom, here.first_child, id_name);
    if in_children.is_some() {
        return in_children;
    }
    get_element_by_id(dom, here.next_sibling, id_name)
}

/// The text inside the first element of kind `kind` of the tree under `root`.
fn element_content(dom: &Dom, root: usize, kind: ElementKind) -> (r: String)
    requires
        dom.wf(),
    ensures
        r@ == child_text(
            dom.spec_nodes(),
            first_match(dom.spec_nodes(), Some(root), element_test(kind)),
        ),
{
    let found = match get_target_element_node(dom, Some(root), kind) {
        Some(n) => n,
        None => return String::new(),
    };
    proof {
        lemma_first_match_in_range(dom.spec_nodes(), Some(root), element_test(kind));
        assert(link_ok(dom.spec_nodes()[found as int].first_child, found as int, dom.spec_nodes().len() as int));
    }
    let child = match dom.nodes[found].first_child {
        Some(c) => c,
        None => return String::new(),
    };
    match &dom.nodes[child].kind {
        NodeKind::Text(s) => s.clone(),
        _ => String::new(),
    }
}

/// The text of the first `style` element of the tree under `root`, or empty.
pub fn get_style_content(dom: &Dom, root: usize) -> (r: String)
    requires
        dom.wf(),
    ensures
        r@ == child_text(
            dom.spec_nodes(),
            first_match(dom.spec_nodes(), Some(root), element_test(ElementKind::Style)),
        ),
{
    element_content(dom, root, ElementKind::Style)
}

/// The text of the first `script` element of the tree under `root`, or empty.
pub fn get_js_content(dom: &Dom, root: usize) -> (r: String)
    requires
        dom.wf(),
    ensures
        r@ == child_text(
            dom.spec_nodes(),
            first_match(dom.spec_nodes(), Some(root), element_test(ElementKind::Script)),
        ),
{
    element_content(dom, root, ElementKind::Script)
}

/// A node that the search finds lies in the tree.
pub proof fn lemma_first_match_in_range(nodes: Seq<Node>, at: Option<usize>, p: spec_fn(Node) -> bool)
    ensures
        first_match(nodes, at, p) matches Some(n) ==> n < nodes.len() && p(nodes[n as int]),
    decreases
            match at {
                Some(n) => nodes.len() - n,
                None => 0,
            },
{
    match at {
        None => {},
        Some(n) => {
            if n < nodes.len() && !p(nodes[n as int]) {
                lemma_first_match_in_range(nodes, forward(nodes[n as int].first_child, n as int, nodes.len() as int), p);
                lemma_first_match_in_range(nodes, forward(nodes[n as int].next_sibling, n as int, nodes.len() as int), p);
            }
        },
    }
}

} // verus!
