use vstd::prelude::*;
use vstd::string::*;

verus! {

// ---------------------------------------------------------------------------
// Document model
// ---------------------------------------------------------------------------

/// One element of a parsed XML document: its local tag name (namespace
/// prefix stripped), the index of its parent, and the text immediately
/// following its opening tag, if any.
pub struct XmlNode {
    pub name: String,
    pub parent: usize,
    pub text: Option<String>,
}

pub ghost struct XmlNodeModel {
    pub name: Seq<char>,
    pub parent: int,
    pub text: Option<Seq<char>>,
}

impl View for XmlNode {
    type V = XmlNodeModel;

    open spec fn view(&self) -> XmlNodeModel {
        XmlNodeModel {
            name: self.name@,
            parent: self.parent as int,
            text: match self.text {
                Some(ref t) => Some(t@),
                None => None,
            },
        }
    }
}

/// A parsed XML document, flattened in document order.  Index 0 is a
/// synthetic root standing above the top element; every element's parent
/// has a smaller index.
pub struct XmlDoc {
    pub nodes: Vec<XmlNode>,
}

impl View for XmlDoc {
    type V = Seq<XmlNodeModel>;

    open spec fn view(&self) -> Seq<XmlNodeModel> {
        Seq::new(self.nodes@.len(), |i: int| self.nodes@[i]@)
    }
}

/// Structural soundness of a flattened document.
pub open spec fn doc_wf(d: Seq<XmlNodeModel>) -> bool {
    &&& d.len() >= 1
    &&& d[0].parent == 0
    &&& forall|i: int| 1 <= i < d.len() ==> 0 <= #[trigger] d[i].parent < i
}

/// What parsing a given document text yields: `None` for malformed XML,
/// otherwise the flattened element tree.
pub uninterp spec fn xml_doc_of(s: Seq<char>) -> Option<Seq<XmlNodeModel>>;

/// Relies on `roxmltree::Document::parse`: rejects malformed XML, and
/// yields the element tree, which the body flattens in document order into
/// local names, parent links, and each element's leading text.
#[verifier::external_body]
pub fn parse_xml(s: &str) -> (r: Option<XmlDoc>)
    ensures
        r is Some <==> xml_doc_of(s@) is Some,
        r matches Some(d) ==> Some(d@) == xml_doc_of(s@) && doc_wf(d@),
{
    let doc = roxmltree::Document::parse(s).ok()?;
    let mut nodes = vec![XmlNode { name: "".into(), parent: 0, text: None }];
    let mut ix = std::collections::HashMap::new();
    ix.insert(doc.root().id(), 0);
    for n in doc.root().descendants() {
        if n.is_element() {
            let parent = ix[&n.parent().unwrap().id()];
            ix.insert(n.id(), nodes.len());
            let name = n.tag_name().name().into();
            nodes.push(XmlNode { name, parent, text: n.text().map(|t| t.to_string()) });
        }
    }
    Some(XmlDoc { nodes })
}

// ---------------------------------------------------------------------------
// Navigation
// ---------------------------------------------------------------------------

/// The first node at or after `j` that is a child of `p` named `name`.
pub open spec fn find_child_from(d: Seq<XmlNodeModel>, p: int, name: Seq<char>, j: int) -> Option<
    int,
>
    decreases d.len() - j,
{
    if j < 0 || j >= d.len() {
        None
    } else if d[j].parent == p && j != p && d[j].name == name {
        Some(j)
    } else {
        find_child_from(d, p, name, j + 1)
    }
}

/// The first child of `p` named `name`, in document order.
pub open spec fn find_child(d: Seq<XmlNodeModel>, p: int, name: Seq<char>) -> Option<int> {
    find_child_from(d, p, name, p + 1)
}

/// One `descend` step of the cursor: absence propagates.
pub open spec fn descend(d: Seq<XmlNodeModel>, node: Option<int>, name: Seq<char>) -> Option<int> {
    match node {
        Some(p) => find_child(d, p, name),
        None => None,
    }
}

/// The text under the cursor: absence propagates.
pub open spec fn text_at(d: Seq<XmlNodeModel>, node: Option<int>) -> Option<Seq<char>> {
    match node {
        Some(i) => if 0 <= i < d.len() {
            d[i].text
        } else {
            None
        },
        None => None,
    }
}

pub open spec fn opt_int(o: Option<usize>) -> Option<int> {
    match o {
        Some(i) => Some(i as int),
        None => None,
    }
}

/// A read-only cursor over a parsed document: the current element, or none.
/// Chained `get` calls perform a fixed-path lookup in which a missing
/// intermediate element propagates absence to the end.
pub struct Cursor<'a> {
    pub doc: &'a XmlDoc,
    pub node: Option<usize>,
}

impl<'a> Cursor<'a> {
    pub open spec fn wf(self) -> bool {
        self.node matches Some(i) ==> i < self.doc@.len()
    }

    /// A cursor over the synthetic root of the document.
    pub fn new(doc: &'a XmlDoc) -> (r: Cursor<'a>)
        requires
            doc@.len() >= 1,
        ensures
            r.doc == doc,
            opt_int(r.node) == Some(0int),
            r.wf(),
    {
        Cursor { doc, node: Some(0) }
    }

    /// Descends to the first direct child tagged `name`, or to an empty
    /// cursor if there is none or this cursor is already empty.
    pub fn get(&self, name: &str) -> (r: Cursor<'a>)
        requires
            self.wf(),
        ensures
            r.doc == self.doc,
            opt_int(r.node) == descend(self.doc@, opt_int(self.node), name@),
            r.wf(),
    {
        let p = match self.node {
            Some(p) => p,
            None => {
                return Cursor { doc: self.doc, node: None };
            },
        };
        let wanted = name.to_owned();
        let n = self.doc.nodes.len();
        let mut j = p + 1;
        while j < n
            invariant
                p + 1 <= j <= n == self.doc@.len(),
                opt_int(self.node) == Some(p as int),
                find_child(self.doc@, p as int, name@) == find_child_from(
                    self.doc@,
                    p as int,
                    name@,
                    j as int,
                ),
                wanted@ == name@,
            decreases n - j,
        {
            let nd = &self.doc.nodes[j];
            if nd.parent == p && j != p && nd.name == wanted {
                return Cursor { doc: self.doc, node: Some(j) };
            }
            j = j + 1;
        }
        Cursor { doc: self.doc, node: None }
    }

    /// The element's text, or none.
    pub fn text(&self) -> (r: Option<String>)
        requires
            self.wf(),
        ensures
            match r {
                Some(t) => text_at(self.doc@, opt_int(self.node)) == Some(t@),
                None => text_at(self.doc@, opt_int(self.node)) is None,
            },
    {
        match self.node {
            Some(i) => match &self.doc.nodes[i].text {
                Some(t) => Some(t.clone()),
                None => None,
            },
            None => None,
        }
    }
}

} // verus!
