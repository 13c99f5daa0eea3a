use vstd::prelude::*;

verus! {

/// The closed set of synthetic event types.
#[derive(Clone, Copy, Debug, PartialEq, Eq, Structural)]
pub enum EventKind {
    Click,
    PageView,
    AddToCart,
    Purchase,
    Scroll,
}

pub const KIND_COUNT: u64 = 5;

/// The smallest and one past the largest synthetic user id.
pub const USER_ID_LOW: u64 = 1;
pub const USER_ID_HIGH: u64 = 1_000_000_000;

/// The kind at a position of the closed set.
pub open spec fn kind_at(i: nat) -> EventKind {
    if i == 0 {
        EventKind::Click
    } else if i == 1 {
        EventKind::PageView
    } else if i == 2 {
        EventKind::AddToCart
    } else if i == 3 {
        EventKind::Purchase
    } else {
        EventKind::Scroll
    }
}

/// The wire tag of a kind.
pub open spec fn type_tag(k: EventKind) -> Seq<char> {
    match k {
        EventKind::Click => "click"@,
        EventKind::PageView => "page_view"@,
        EventKind::AddToCart => "add_to_cart"@,
        EventKind::Purchase => "purchase"@,
        EventKind::Scroll => "scroll"@,
    }
}

/// The actions that go with a kind.
pub open spec fn actions_of(k: EventKind) -> Seq<Seq<char>> {
    match k {
        EventKind::Click => seq!["submit"@, "link"@, "image"@, "button"@],
        EventKind::PageView => seq!["load"@, "unload"@],
        EventKind::AddToCart => seq!["product_card"@, "quick_add"@],
        EventKind::Purchase => seq!["checkout_complete"@, "paypal"@],
        EventKind::Scroll => seq!["page_bottom"@, "element_visible"@],
    }
}

/// The kind at position `i` of the closed set.
pub fn kind_from_index(i: u64) -> (r: EventKind)
    requires
        i < KIND_COUNT,
    ensures
        r == kind_at(i as nat),
{
    if i == 0 {
        EventKind::Click
    } else if i == 1 {
        EventKind::PageView
    } else if i == 2 {
        EventKind::AddToCart
    } else if i == 3 {
        EventKind::Purchase
    } else {
        EventKind::Scroll
    }
}

/// The wire tag of a kind.
pub fn event_type(k: EventKind) -> (r: &'static str)
    ensures
        r@ == type_tag(k),
{
    match k {
        EventKind::Click => "click",
        EventKind::PageView => "page_view",
        EventKind::AddToCart => "add_to_cart",
        EventKind::Purchase => "purchase",
        EventKind::Scroll => "scroll",
    }
}

/// How many actions go with a kind.
pub fn action_count(k: EventKind) -> (r: u64)
    ensures
        r as nat == actions_of(k).len(),
{
    match k {
        EventKind::Click => 4,
        _ => 2,
    }
}

/// The action at position `i` of a kind's set.
pub fn action_name(k: EventKind, i: u64) -> (r: &'static str)
    requires
        i < actions_of(k).len(),
    ensures
        r@ == actions_of(k)[i as int],
{
    match k {
        EventKind::Click => if i == 0 {
            "submit"
        } else if i == 1 {
            "link"
        } else if i == 2 {
            "image"
        } else {
            "button"
        },
        EventKind::PageView => if i == 0 {
            "load"
        } else {
            "unload"
        },
        EventKind::AddToCart => if i == 0 {
            "product_card"
        } else {
            "quick_add"
        },
        EventKind::Purchase => if i == 0 {
            "checkout_complete"
        } else {
            "paypal"
        },
        EventKind::Scroll => if i == 0 {
            "page_bottom"
        } else {
            "element_visible"
        },
    }
}

/// The part of a synthetic event that the driver picks: its user, kind and action.
pub struct EventShape {
    pub user_id: u64,
    pub kind: EventKind,
    pub action: &'static str,
}

/// A shape is valid when its user id is in range and its action goes with its kind.
pub open spec fn shape_valid(s: EventShape) -> bool {
    USER_ID_LOW <= s.user_id < USER_ID_HIGH && actions_of(s.kind).contains(s.action@)
}

/// Relies on rand's `rng` and `Rng::random_range`: a value of `lo..hi` from the
/// thread-local generator (it panics on an empty range, which `requires` excludes).
#[verifier::external_body]
fn draw_in(lo: u64, hi: u64) -> (r: u64)
    requires
        lo < hi,
    ensures
        lo <= r < hi,
{
    rand::Rng::random_range(&mut rand::rng(), lo..hi)
}

/// Picks a random kind, one of its actions and a user id in range.
pub fn random_shape() -> (r: EventShape)
    ensures
        shape_valid(r),
{
    let kind = kind_from_index(draw_in(0, KIND_COUNT));
    let i = draw_in(0, action_count(kind));
    let action = action_name(kind, i);
    let user_id = draw_in(USER_ID_LOW, USER_ID_HIGH);
    assert(actions_of(kind)[i as int] == action@);
    EventShape { user_id, kind, action }
}

} // verus!
