//! Order records and their writing as JSON.
//!
//! A record is written as an object of its three fields in the order of
//! their declaration, without spaces, and a list of records as an array.
//! The two strings of a record are written by `serde_json`; a record is
//! written where both of them are.
use crate::decimal::{signed_decimal, signed_decimal_string};
use vstd::prelude::*;
use vstd::string::*;

verus! {

/// The state of one order.
#[derive(Debug, Clone, PartialEq, Eq)]
pub struct OrderStatus {
    pub order_id: i32,
    pub order_date: String,
    pub order_status: String,
}

/// An order as a mathematical value.
pub struct OrderView {
    pub id: int,
    pub date: Seq<char>,
    pub status: Seq<char>,
}

impl View for OrderStatus {
    type V = OrderView;

    open spec fn view(&self) -> OrderView {
        OrderView {
            id: self.order_id as int,
            date: self.order_date@,
            status: self.order_status@,
        }
    }
}

/// The views of a sequence of orders.
pub open spec fn order_views(orders: Seq<OrderStatus>) -> Seq<OrderView> {
    Seq::new(orders.len(), |i: int| orders[i]@)
}

/// The error of `serde_json`.
#[verifier::external_type_specification]
#[verifier::external_body]
pub struct ExJsonError(serde_json::Error);

/// What `serde_json` makes of the characters `s` as a JSON string: `s` in
/// double quotes, with the characters that JSON does not take as they are
/// written as escapes; or `None` where it gives an error.
pub uninterp spec fn json_string(s: Seq<char>) -> Option<Seq<char>>;

/// Calls `serde_json::to_string` on a string slice. What the call gives, a
/// text or an error, depends on the characters of the slice alone: it writes
/// them into a buffer of its own and reads nothing else. Nothing is claimed
/// of which slices give a text.
#[verifier::external_body]
fn encode_string(s: &str) -> (r: Result<String, serde_json::Error>)
    ensures
        match r {
            Ok(text) => json_string(s@) == Some(text@),
            Err(_) => json_string(s@) is None,
        },
{
    serde_json::to_string(s)
}

/// An order as a JSON object, given its two strings as JSON strings.
pub open spec fn order_object(id: int, date: Seq<char>, status: Seq<char>) -> Seq<char> {
    "{\"order_id\":"@ + signed_decimal(id) + ",\"order_date\":"@ + date + ",\"order_status\":"@
        + status + "}"@
}

/// An order as a JSON object; `None` where one of its two strings cannot
/// be written as a JSON string.
pub open spec fn order_json(o: OrderView) -> Option<Seq<char>> {
    match (json_string(o.date), json_string(o.status)) {
        (Some(date), Some(status)) => Some(order_object(o.id, date, status)),
        _ => None,
    }
}

/// JSON values one after the other, with a comma between two of them.
pub open spec fn comma_joined(items: Seq<Seq<char>>) -> Seq<char>
    decreases items.len(),
{
    if items.len() == 0 {
        Seq::empty()
    } else if items.len() == 1 {
        items[0]
    } else {
        comma_joined(items.drop_last()) + ","@ + items.last()
    }
}

/// JSON values as a JSON array.
pub open spec fn json_array(items: Seq<Seq<char>>) -> Seq<char> {
    "["@ + comma_joined(items) + "]"@
}

/// Every one of the orders can be written as a JSON object.
pub open spec fn all_written(orders: Seq<OrderView>) -> bool {
    forall|i: int| 0 <= i < orders.len() ==> order_json(#[trigger] orders[i]) is Some
}

/// Orders as a JSON array of objects; `None` where one of them cannot be
/// written.
pub open spec fn orders_json(orders: Seq<OrderView>) -> Option<Seq<char>> {
    if all_written(orders) {
        Some(json_array(Seq::new(orders.len(), |i: int| order_json(orders[i])->Some_0)))
    } else {
        None
    }
}

/// Writes the JSON object of an order whose two strings are given as JSON
/// strings.
pub fn write_order_object(id: i32, date: &str, status: &str) -> (r: String)
    ensures
        r@ == order_object(id as int, date@, status@),
{
    let mut out = "{\"order_id\":".to_owned();
    out.append(signed_decimal_string(id as i64).as_str());
    out.append(",\"order_date\":");
    out.append(date);
    out.append(",\"order_status\":");
    out.append(status);
    out.append("}");
    out
}

/// Writes JSON values as a JSON array.
pub fn write_json_array(items: &Vec<String>) -> (r: String)
    ensures
        r@ == json_array(crate::text::views(items@)),
{
    let ghost all = crate::text::views(items@);
    let mut out = "[".to_owned();
    let n: usize = items.len();
    let mut i: usize = 0;
    proof {
        assert(all.take(0) =~= Seq::<Seq<char>>::empty());
        assert("["@ + comma_joined(all.take(0)) =~= "["@);
    }
    while i < n
        invariant
            i <= n,
            n == items.len(),
            all == crate::text::views(items@),
            out@ == "["@ + comma_joined(all.take(i as int)),
        decreases n - i,
    {
        proof {
            assert(all.take(i + 1).drop_last() =~= all.take(i as int));
            assert(all.take(i + 1).last() == items@[i as int]@);
        }
        if i > 0 {
            out.append(",");
            proof {
                assert("["@ + comma_joined(all.take(i + 1)) =~= "["@ + comma_joined(
                    all.take(i as int),
                ) + ","@ + items@[i as int]@);
            }
        } else {
            proof {
                assert(all.take(1)[0] == items@[0]@);
                assert("["@ + comma_joined(all.take(1)) =~= "["@ + comma_joined(all.take(0))
                    + items@[0]@);
            }
        }
        out.append(items[i].as_str());
        i += 1;
    }
    proof {
        assert(all.take(n as int) =~= all);
    }
    out.append("]");
    out
}

impl OrderStatus {
    /// Writes the order as a JSON object. Returns `None` where one of its
    /// strings cannot be written as a JSON string.
    pub fn to_json(&self) -> (r: Option<String>)
        ensures
            match r {
                Some(text) => order_json(self@) == Some(text@),
                None => order_json(self@) is None,
            },
    {
        match encode_string(self.order_date.as_str()) {
            Ok(date) => match encode_string(self.order_status.as_str()) {
                Ok(status) => Some(
                    write_order_object(self.order_id, date.as_str(), status.as_str()),
                ),
                Err(_) => None,
            },
            Err(_) => None,
        }
    }
}

/// Writes orders as a JSON array of objects. Returns `None` where one of them
/// cannot be written.
pub fn write_orders(orders: &Vec<OrderStatus>) -> (r: Option<String>)
    ensures
        match r {
            Some(text) => orders_json(order_views(orders@)) == Some(text@),
            None => orders_json(order_views(orders@)) is None,
        },
{
    let ghost all = order_views(orders@);
    let mut items: Vec<String> = Vec::new();
    let n: usize = orders.len();
    let mut i: usize = 0;
    while i < n
        invariant
            i <= n,
            n == orders.len(),
            items.len() == i,
            all == order_views(orders@),
            forall|j: int| 0 <= j < i ==> order_json(#[trigger] all[j]) == Some(items@[j]@),
        decreases n - i,
    {
        proof {
            assert(all[i as int] == orders@[i as int]@);
        }
        match orders[i].to_json() {
            Some(item) => {
                items.push(item);
            },
            None => {
                proof {
                    assert(order_json(all[i as int]) is None);
                    assert(!all_written(all));
                }
                return None;
            },
        }
        i += 1;
    }
    proof {
        assert(all_written(all));
        assert(crate::text::views(items@) =~= Seq::new(
            all.len(),
            |i: int| order_json(all[i])->Some_0,
        ));
    }
    Some(write_json_array(&items))
}

} // verus!
