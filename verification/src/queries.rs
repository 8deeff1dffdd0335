//! The order in which deliveries are listed.

use vstd::prelude::*;

verus! {

/// Sort order for deliveries.
#[derive(Debug, Clone, Copy, Default, PartialEq, Eq, Structural)]
pub enum DeliverySort {
    /// Newest delivery first.
    #[default]
    Date,
    /// Lowest KL divergence first.
    KlDivergence,
    /// Lowest refusal rate (`refused / max(total_prompts, 1)`) first.
    Refusal,
}


impl DeliverySort {
    /// The SQL `ORDER BY` expression that lists deliveries in this order.
    pub open spec fn order_expr(self) -> Seq<char> {
        match self {
            DeliverySort::Date => "delivered_at DESC"@,
            DeliverySort::KlDivergence => "kl_divergence ASC"@,
            DeliverySort::Refusal => "(CAST(refused AS REAL) / MAX(total_prompts, 1)) ASC"@,
        }
    }

    /// The SQL `ORDER BY` expression that lists deliveries in this order.
    pub fn order_by(&self) -> (r: &'static str)
        ensures
            r@ == self.order_expr(),
    {
        match self {
            DeliverySort::Date => "delivered_at DESC",
            DeliverySort::KlDivergence => "kl_divergence ASC",
            DeliverySort::Refusal => "(CAST(refused AS REAL) / MAX(total_prompts, 1)) ASC",
        }
    }
}

} // verus!
