//! A plain-value model of the slice of the host document this backend
//! touches.
//!
//! The backend reads and writes very little of the page: it looks elements
//! up by identifier, creates and appends one surface element, reads bounding
//! boxes, writes the `cursor` style property, and reads the viewport size.
//! [`Document`] holds exactly that, so the backend's decisions are ordinary
//! verified code over it; an adapter that talks to a live page converts at
//! the boundary.

use vstd::prelude::*;

verus! {

/// What kind of element a node of the page model is.
#[derive(Debug, Copy, Clone, PartialEq, Eq, Structural)]
pub enum ElementKind {
    /// A drawable surface element.
    Canvas,
    /// Any other element; usable only as a container.
    Other,
}

/// One element of the page model.
pub struct Element {
    /// The element's identifier, if it has one.
    pub id: Option<String>,
    /// Whether the element is a drawable surface.
    pub kind: ElementKind,
    /// Whether the element is attached to the document tree.
    pub attached: bool,
    /// The element this one was appended to, if the model created it.
    pub parent: Option<usize>,
    /// Bounding-box left edge, in logical pixels.
    pub x: i64,
    /// Bounding-box top edge, in logical pixels.
    pub y: i64,
    /// Bounding-box width, in logical pixels.
    pub width: u64,
    /// Bounding-box height, in logical pixels.
    pub height: u64,
    /// The element's effective `cursor` style property.
    pub cursor: String,
}

/// The host document and viewport, as this backend sees them.
pub struct Document {
    /// The elements of the page, in tree order.
    pub elements: Vec<Element>,
    /// Current viewport width, in physical pixels.
    pub viewport_width: u64,
    /// Current viewport height, in physical pixels.
    pub viewport_height: u64,
}

/// Whether an element carries the given identifier.
pub open spec fn elem_has_id(e: Element, id: Seq<char>) -> bool {
    match e.id {
        Some(s) => s@ == id,
        None => false,
    }
}

/// Whether two elements agree on everything but the `cursor` style
/// property: what a cursor write leaves untouched of the written element.
pub open spec fn same_but_cursor(a: Element, b: Element) -> bool {
    &&& a.id == b.id
    &&& a.kind == b.kind
    &&& a.attached == b.attached
    &&& a.parent == b.parent
    &&& a.x == b.x
    &&& a.y == b.y
    &&& a.width == b.width
    &&& a.height == b.height
}

/// The index of the first element carrying the given identifier, if any:
/// what looking an identifier up in the document yields.
pub open spec fn first_with_id(s: Seq<Element>, id: Seq<char>) -> Option<int>
    decreases s.len(),
{
    if s.len() == 0 {
        None
    } else if elem_has_id(s[0], id) {
        Some(0int)
    } else {
        match first_with_id(s.drop_first(), id) {
            Some(i) => Some(i + 1),
            None => None,
        }
    }
}

proof fn lemma_first_with_id_none(s: Seq<Element>, id: Seq<char>)
    requires
        forall|j: int| 0 <= j < s.len() ==> !elem_has_id(#[trigger] s[j], id),
    ensures
        first_with_id(s, id) is None,
    decreases s.len(),
{
    if s.len() > 0 {
        assert(forall|j: int|
            0 <= j < s.drop_first().len() ==> !elem_has_id(#[trigger] s.drop_first()[j], id))
            by {
            assert(forall|j: int|
                0 <= j < s.drop_first().len() ==> s.drop_first()[j] == s[j + 1]);
        }
        lemma_first_with_id_none(s.drop_first(), id);
    }
}

proof fn lemma_first_with_id_found(s: Seq<Element>, id: Seq<char>, i: int)
    requires
        0 <= i < s.len(),
        elem_has_id(s[i], id),
        forall|j: int| 0 <= j < i ==> !elem_has_id(#[trigger] s[j], id),
    ensures
        first_with_id(s, id) == Some(i),
    decreases i,
{
    if i == 0 {
    } else {
        assert(s.drop_first()[i - 1] == s[i]);
        assert(forall|j: int|
            0 <= j < i - 1 ==> !elem_has_id(#[trigger] s.drop_first()[j], id)) by {
            assert(forall|j: int|
                0 <= j < s.drop_first().len() ==> s.drop_first()[j] == s[j + 1]);
        }
        lemma_first_with_id_found(s.drop_first(), id, i - 1);
    }
}

impl Document {
    /// Looks an element up by identifier: the first element of the document
    /// carrying it, as the host's lookup yields it.
    pub fn element_by_id(&self, id: &String) -> (r: Option<usize>)
        ensures
            match r {
                Some(i) => i < self.elements@.len() && first_with_id(self.elements@, id@) == Some(
                    i as int,
                ),
                None => first_with_id(self.elements@, id@) is None,
            },
    {
        let n: usize = self.elements.len();
        let mut i: usize = 0;
        while i < n
            invariant
                n == self.elements@.len(),
                i <= n,
                forall|j: int| 0 <= j < i ==> !elem_has_id(#[trigger] self.elements@[j], id@),
            decreases n - i,
        {
            let hit = match &self.elements[i].id {
                Some(s) => *s == *id,
                None => false,
            };
            if hit {
                proof {
                    lemma_first_with_id_found(self.elements@, id@, i as int);
                }
                return Some(i);
            }
            i = i + 1;
        }
        proof {
            lemma_first_with_id_none(self.elements@, id@);
        }
        None
    }
}

/// The event-loop collaborator's registration interface: the one thing this
/// backend asks of it is to take note of a freshly bound surface, so that
/// per-frame processing and resize and input observation can target it.
pub struct EventLoopWindowTarget {
    /// The surfaces registered so far, as indices into the page model, in
    /// registration order.
    pub registered: Vec<usize>,
}

impl EventLoopWindowTarget {
    /// Registers a surface for future per-frame and input processing.
    pub fn setup_window(&mut self, surface: usize)
        ensures
            final(self).registered@ == old(self).registered@.push(surface),
    {
        self.registered.push(surface);
    }
}

} // verus!
