//! The breadcrumb: a path of levels, of which the last is the current page.
use vstd::prelude::*;
use crate::element::CallbackId;

verus! {

/// One level of a breadcrumb.
#[derive(Clone, Debug)]
pub struct BreadcrumbItem {
    pub label: String,
    /// Run when the level is clicked; a level without one is not clickable.
    pub on_click: Option<CallbackId>,
}

impl BreadcrumbItem {
    /// A level labelled `label`, not clickable.
    pub fn new(label: &str) -> (r: BreadcrumbItem)
        ensures
            r.label@ == label@,
            r.on_click is None,
    {
        BreadcrumbItem { label: label.to_owned(), on_click: None }
    }

    /// Sets the callback run when the level is clicked.
    pub fn on_click(self, handler: CallbackId) -> (r: BreadcrumbItem)
        ensures
            r == (BreadcrumbItem { on_click: Some(handler), ..self }),
    {
        BreadcrumbItem { on_click: Some(handler), ..self }
    }
}

/// How one level is drawn.
#[derive(Clone, Copy, Debug, PartialEq, Eq, Structural)]
pub struct BreadcrumbSegment {
    /// The level is the current page, drawn in the accent color.
    pub is_current: bool,
    /// The callback a click runs: only levels before the current one react.
    pub click: Option<CallbackId>,
    /// A chevron follows the level.
    pub chevron: bool,
}

/// A breadcrumb.
#[derive(Clone, Debug)]
pub struct Breadcrumb {
    pub items: Vec<BreadcrumbItem>,
}

/// How the level at `ix` of `n` levels is drawn.
pub open spec fn segment_spec(item: BreadcrumbItem, ix: int, n: int) -> BreadcrumbSegment {
    let last = if n > 0 { n - 1 } else { 0 };
    BreadcrumbSegment {
        is_current: ix == last,
        click: if ix == last { None } else { item.on_click },
        chevron: ix < last,
    }
}

impl Breadcrumb {
    /// A breadcrumb of `items`, the last being the current page.
    pub fn new(items: Vec<BreadcrumbItem>) -> (r: Breadcrumb)
        ensures
            r.items@ == items@,
    {
        Breadcrumb { items }
    }

    /// How each level is drawn: the last is current and not clickable, the others
    /// are clickable when they have a callback and are followed by a chevron.
    pub fn segments(&self) -> (r: Vec<BreadcrumbSegment>)
        ensures
            r@.len() == self.items@.len(),
            forall|i: int|
                0 <= i < r@.len() ==> #[trigger] r@[i] == segment_spec(
                    self.items@[i],
                    i,
                    self.items@.len() as int,
                ),
    {
        let n = self.items.len();
        let last = if n > 0 { n - 1 } else { 0 };
        let mut out: Vec<BreadcrumbSegment> = Vec::new();
        let mut ix: usize = 0;
        while ix < n
            invariant
                n == self.items@.len(),
                last == (if n > 0 { n - 1 } else { 0 }),
                0 <= ix <= n,
                out@.len() == ix,
                forall|i: int|
                    0 <= i < ix ==> #[trigger] out@[i] == segment_spec(self.items@[i], i, n as int),
            decreases n - ix,
        {
            let is_current = ix == last;
            let click = if is_current { None } else { self.items[ix].on_click };
            out.push(BreadcrumbSegment { is_current, click, chevron: ix < last });
            ix = ix + 1;
        }
        out
    }
}

/// Exactly one level of a non-empty breadcrumb is current, the last, and it is
/// neither clickable nor followed by a chevron.
pub proof fn lemma_single_current_level(items: Seq<BreadcrumbItem>, i: int)
    requires
        items.len() > 0,
        0 <= i < items.len(),
    ensures
        segment_spec(items[i], i, items.len() as int).is_current == (i == items.len() - 1),
        segment_spec(items[i], i, items.len() as int).is_current ==> segment_spec(
            items[i],
            i,
            items.len() as int,
        ).click is None && !segment_spec(items[i], i, items.len() as int).chevron,
{
}

} // verus!
