//! Inventory items: the platform's record and its host-facing projection.

use vstd::prelude::*;
use vstd::std_specs::convert::FromSpecImpl;

verus! {

/// An item as the platform's inventory subsystem reports it.
#[derive(Clone, Copy, Debug, PartialEq, Eq)]
pub struct PlatformItem {
    /// The instance identifier of this stack of items.
    pub item_id: u64,
    /// The item definition the stack belongs to.
    pub definition: i32,
    pub quantity: u16,
    pub flags: u16,
}

/// The read-only projection of an item that is handed to the host.
///
/// The host represents `item_id` as a double; that last conversion is done
/// at the boundary, so the identifier is kept here as the integer it is.
#[derive(Clone, Copy, Debug, PartialEq, Eq)]
pub struct JsInventoryItem {
    pub item_id: u64,
    pub definition: i32,
    pub quantity: u16,
    pub flags: u16,
}

impl JsInventoryItem {
    /// The projection of one platform item: every field, unchanged.
    pub open spec fn of(item: PlatformItem) -> JsInventoryItem {
        JsInventoryItem {
            item_id: item.item_id,
            definition: item.definition,
            quantity: item.quantity,
            flags: item.flags,
        }
    }
}

impl FromSpecImpl<PlatformItem> for JsInventoryItem {
    open spec fn obeys_from_spec() -> bool {
        true
    }

    open spec fn from_spec(item: PlatformItem) -> JsInventoryItem {
        JsInventoryItem::of(item)
    }
}

impl From<PlatformItem> for JsInventoryItem {
    /// Copies every field of the platform's record, unchanged.
    fn from(item: PlatformItem) -> (js: JsInventoryItem) {
        JsInventoryItem {
            item_id: item.item_id,
            definition: item.definition,
            quantity: item.quantity,
            flags: item.flags,
        }
    }
}

/// The projection of a whole sequence: one host item per platform item, at
/// the same position.
pub open spec fn project(items: Seq<PlatformItem>) -> Seq<JsInventoryItem> {
    Seq::new(items.len(), |i: int| JsInventoryItem::of(items[i]))
}

/// Projects every item of `items`, keeping their order and their number.
pub fn project_items(items: &Vec<PlatformItem>) -> (out: Vec<JsInventoryItem>)
    ensures
        out@ == project(items@),
{
    let mut out: Vec<JsInventoryItem> = Vec::new();
    let mut i: usize = 0;
    while i < items.len()
        invariant
            i <= items@.len(),
            out@.len() == i,
            forall|k: int| 0 <= k < i ==> out@[k] == JsInventoryItem::of(#[trigger] items@[k]),
        decreases items@.len() - i,
    {
        out.push(JsInventoryItem::from(items[i]));
        i += 1;
    }
    out
}

/// Projection neither drops nor adds an item, and the item at each position
/// comes from the platform item at that position.
pub proof fn lemma_project_positions(items: Seq<PlatformItem>)
    ensures
        project(items).len() == items.len(),
        forall|i: int|
            0 <= i < items.len() ==> {
                &&& (#[trigger] project(items)[i]).item_id == items[i].item_id
                &&& project(items)[i].definition == items[i].definition
                &&& project(items)[i].quantity == items[i].quantity
                &&& project(items)[i].flags == items[i].flags
            },
{
}

} // verus!
