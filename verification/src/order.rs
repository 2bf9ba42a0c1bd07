use vstd::prelude::*;

verus! {

/// Arguments supplied explicitly by the caller of a settlement instruction.
///
/// Public keys and asset names are carried as plain byte strings; a public
/// key is 32 bytes.
#[derive(Clone, Debug, PartialEq, Eq)]
pub struct SettleOrderPaymentArgs {
    pub token: Vec<u8>,
    pub order_id: u128,
    pub nonce: u128,
}

/// Mathematical image of [`SettleOrderPaymentArgs`].
pub struct ArgsV {
    pub token: Seq<u8>,
    pub order_id: u128,
    pub nonce: u128,
}

impl View for SettleOrderPaymentArgs {
    type V = ArgsV;

    open spec fn view(&self) -> ArgsV {
        ArgsV { token: self.token@, order_id: self.order_id, nonce: self.nonce }
    }
}

/// A settlement order as certified by the oracle's signature: decoded from
/// the trailing bytes of the signature instruction, never persisted.
#[derive(Clone, Debug, PartialEq, Eq)]
pub struct SettleFullOrder {
    pub order_id: u128,
    pub token: Vec<u8>,
    pub nonce: u128,
    pub settle_amount: u64,
    pub sell_order_value: u64,
    pub side: Vec<u8>,
    pub customer: Vec<u8>,
    pub order_ids: Vec<u128>,
    pub sellet_amounts: Vec<u128>,
}

/// Mathematical image of [`SettleFullOrder`].
pub struct OrderV {
    pub order_id: u128,
    pub token: Seq<u8>,
    pub nonce: u128,
    pub settle_amount: u64,
    pub sell_order_value: u64,
    pub side: Seq<u8>,
    pub customer: Seq<u8>,
    pub order_ids: Seq<u128>,
    pub sellet_amounts: Seq<u128>,
}

impl View for SettleFullOrder {
    type V = OrderV;

    open spec fn view(&self) -> OrderV {
        OrderV {
            order_id: self.order_id,
            token: self.token@,
            nonce: self.nonce,
            settle_amount: self.settle_amount,
            sell_order_value: self.sell_order_value,
            side: self.side@,
            customer: self.customer@,
            order_ids: self.order_ids@,
            sellet_amounts: self.sellet_amounts@,
        }
    }
}

/// Arguments for listing a tradable asset in the token registry.
#[derive(Clone, Debug, PartialEq, Eq)]
pub struct RegisterTokenArgs {
    pub token_name: Vec<u8>,
    pub token_mint_account: Vec<u8>,
    pub settle_time: u64,
    pub settle_duration: u64,
}

} // verus!
