//! Replacing an order: the builder and the exact JSON body it patches
//! with.

use crate::strutil::opt_json_member;
use crate::strutil::push_opt_member;
use crate::trading::AccountType;
use crate::trading::order::create::TimeInForce;
use vstd::prelude::*;
use vstd::string::StrSliceExecFns;
use vstd::string::StringExecFns;

verus! {

/// Builder for replacing one working order.
pub struct ReplaceOrderQuery {
    pub order_id: String,
    pub qty: Option<String>,
    pub time_in_force: Option<String>,
    pub limit_price: Option<String>,
    pub stop_price: Option<String>,
    pub trail: Option<String>,
    pub client_order_id: Option<String>,
}

impl ReplaceOrderQuery {
    /// The set members of the body, each with a leading comma.
    pub open spec fn spec_members(self) -> Seq<char> {
        opt_json_member(",\"qty\":"@, self.qty) + opt_json_member(
            ",\"time_in_force\":"@,
            self.time_in_force,
        ) + opt_json_member(",\"limit_price\":"@, self.limit_price) + opt_json_member(
            ",\"stop_price\":"@,
            self.stop_price,
        ) + opt_json_member(",\"trail\":"@, self.trail) + opt_json_member(
            ",\"client_order_id\":"@,
            self.client_order_id,
        )
    }

    /// The exact JSON body this replacement patches with: the set
    /// members in declaration order, the order id not among them.
    pub open spec fn spec_body(self) -> Seq<char> {
        if self.spec_members().len() == 0 {
            "{}"@
        } else {
            "{"@ + self.spec_members().skip(1) + "}"@
        }
    }

    /// A fresh replacement of the order with the given id.
    pub fn new(order_id: &str) -> (r: Self)
        ensures
            r.order_id@ == order_id@,
            r.qty is None,
            r.time_in_force is None,
            r.limit_price is None,
            r.stop_price is None,
            r.trail is None,
            r.client_order_id is None,
    {
        ReplaceOrderQuery {
            order_id: order_id.to_owned(),
            qty: None,
            time_in_force: None,
            limit_price: None,
            stop_price: None,
            trail: None,
            client_order_id: None,
        }
    }

    /// Sets the new quantity.
    pub fn qty(self, qty: &str) -> (r: Self)
        ensures
            r.qty matches Some(s) && s@ == qty@,
            r == (Self { qty: r.qty, ..self }),
    {
        Self { qty: Some(qty.to_owned()), ..self }
    }

    /// Sets the new duration.
    pub fn time_in_force(self, time_in_force: TimeInForce) -> (r: Self)
        ensures
            r.time_in_force matches Some(s) && s@ == time_in_force.spec_word(),
            r == (Self { time_in_force: r.time_in_force, ..self }),
    {
        Self { time_in_force: Some(time_in_force.word()), ..self }
    }

    /// Sets the new limit price.
    pub fn limit_price(self, limit_price: &str) -> (r: Self)
        ensures
            r.limit_price matches Some(s) && s@ == limit_price@,
            r == (Self { limit_price: r.limit_price, ..self }),
    {
        Self { limit_price: Some(limit_price.to_owned()), ..self }
    }

    /// Sets the new stop price.
    pub fn stop_price(self, stop_price: &str) -> (r: Self)
        ensures
            r.stop_price matches Some(s) && s@ == stop_price@,
            r == (Self { stop_price: r.stop_price, ..self }),
    {
        Self { stop_price: Some(stop_price.to_owned()), ..self }
    }

    /// Sets the new trailing offset.
    pub fn trail(self, trail: &str) -> (r: Self)
        ensures
            r.trail matches Some(s) && s@ == trail@,
            r == (Self { trail: r.trail, ..self }),
    {
        Self { trail: Some(trail.to_owned()), ..self }
    }

    /// Sets the caller's own id for the replacement.
    pub fn client_order_id(self, client_order_id: &str) -> (r: Self)
        ensures
            r.client_order_id matches Some(s) && s@ == client_order_id@,
            r == (Self { client_order_id: r.client_order_id, ..self }),
    {
        Self { client_order_id: Some(client_order_id.to_owned()), ..self }
    }

    /// The route of the order this replacement patches.
    pub fn order_route(&self, account_type: &AccountType) -> (r: String)
        ensures
            (account_type matches AccountType::Live ==> r@
                == "https://api.alpaca.markets/v2/orders/"@ + self.order_id@),
            (account_type matches AccountType::Paper ==> r@
                == "https://paper-api.alpaca.markets/v2/orders/"@ + self.order_id@),
    {
        let mut q: String = match account_type {
            AccountType::Live => "https://api.alpaca.markets/v2/orders/".to_owned(),
            AccountType::Paper => "https://paper-api.alpaca.markets/v2/orders/".to_owned(),
        };
        q.append(self.order_id.as_str());
        q
    }

    /// Writes the JSON body this replacement patches with.
    pub fn body_json(&self) -> (r: String)
        ensures
            r@ == self.spec_body(),
    {
        let mut members = String::new();
        push_opt_member(&mut members, ",\"qty\":", &self.qty);
        push_opt_member(&mut members, ",\"time_in_force\":", &self.time_in_force);
        push_opt_member(&mut members, ",\"limit_price\":", &self.limit_price);
        push_opt_member(&mut members, ",\"stop_price\":", &self.stop_price);
        push_opt_member(&mut members, ",\"trail\":", &self.trail);
        push_opt_member(&mut members, ",\"client_order_id\":", &self.client_order_id);
        assert(members@ =~= self.spec_members());
        if members.as_str().unicode_len() == 0 {
            let b: String = "{}".to_owned();
            b
        } else {
            let mut b: String = "{".to_owned();
            let inner = members.as_str().substring_char(1, members.as_str().unicode_len());
            b.append(inner);
            b.append("}");
            assert(b@ =~= self.spec_body());
            b
        }
    }
}

} // verus!
