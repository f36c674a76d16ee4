//! Bitget order placement: the request an order becomes.
use crate::error::{Error, Result};
use crate::exchange::ExchangeId;
use crate::margin::MarginMode;
use crate::text::{all_ws, copy_string, is_blank, opt_view, owned, IntoText};
use crate::trade::{OrderType, PlaceOrderRequest, TimeInForce};
use vstd::prelude::*;

verus! {

/// The parameters of a Bitget V2 futures place-order request.
#[derive(Debug, Clone, PartialEq, Eq)]
pub struct BitgetNewOrderRequest {
    pub symbol: String,
    pub product_type: String,
    pub margin_mode: String,
    pub margin_coin: String,
    pub size: String,
    pub side: String,
    /// `limit` or `market`.
    pub order_type: String,
    pub price: Option<String>,
    pub trade_side: Option<String>,
    pub force: Option<String>,
    pub client_oid: Option<String>,
    pub reduce_only: Option<String>,
    pub preset_stop_loss_price: Option<String>,
}

impl BitgetNewOrderRequest {
    /// A market order with no option set.
    pub fn market<A: IntoText, B: IntoText, C: IntoText, D: IntoText, E: IntoText, F: IntoText>(
        symbol: A,
        product_type: B,
        margin_mode: C,
        margin_coin: D,
        size: E,
        side: F,
    ) -> (r: Self)
        ensures
            r.symbol@ == symbol.text_view(),
            r.product_type@ == product_type.text_view(),
            r.margin_mode@ == margin_mode.text_view(),
            r.margin_coin@ == margin_coin.text_view(),
            r.size@ == size.text_view(),
            r.side@ == side.text_view(),
            r.order_type@ == "market"@,
            r.price is None,
            r.trade_side is None,
            r.force is None,
            r.client_oid is None,
            r.reduce_only is None,
            r.preset_stop_loss_price is None,
    {
        BitgetNewOrderRequest {
            symbol: symbol.into_text(),
            product_type: product_type.into_text(),
            margin_mode: margin_mode.into_text(),
            margin_coin: margin_coin.into_text(),
            size: size.into_text(),
            side: side.into_text(),
            order_type: owned("market"),
            price: None,
            trade_side: None,
            force: None,
            client_oid: None,
            reduce_only: None,
            preset_stop_loss_price: None,
        }
    }

    /// A limit order at `price` with no other option set.
    pub fn limit<A: IntoText, B: IntoText, C: IntoText, D: IntoText, E: IntoText, F: IntoText, G: IntoText>(
        symbol: A,
        product_type: B,
        margin_mode: C,
        margin_coin: D,
        size: E,
        side: F,
        price: G,
    ) -> (r: Self)
        ensures
            r.symbol@ == symbol.text_view(),
            r.product_type@ == product_type.text_view(),
            r.margin_mode@ == margin_mode.text_view(),
            r.margin_coin@ == margin_coin.text_view(),
            r.size@ == size.text_view(),
            r.side@ == side.text_view(),
            r.order_type@ == "limit"@,
            opt_view(r.price) == Some(price.text_view()),
            r.trade_side is None,
            r.force is None,
            r.client_oid is None,
            r.reduce_only is None,
            r.preset_stop_loss_price is None,
    {
        BitgetNewOrderRequest {
            symbol: symbol.into_text(),
            product_type: product_type.into_text(),
            margin_mode: margin_mode.into_text(),
            margin_coin: margin_coin.into_text(),
            size: size.into_text(),
            side: side.into_text(),
            order_type: owned("limit"),
            price: Some(price.into_text()),
            trade_side: None,
            force: None,
            client_oid: None,
            reduce_only: None,
            preset_stop_loss_price: None,
        }
    }

    pub fn with_trade_side<T: IntoText>(self, value: T) -> (r: Self)
        ensures
            opt_view(r.trade_side) == Some(value.text_view()),
            r == (Self { trade_side: r.trade_side, ..self }),
    {
        Self { trade_side: Some(value.into_text()), ..self }
    }

    pub fn with_force<T: IntoText>(self, value: T) -> (r: Self)
        ensures
            opt_view(r.force) == Some(value.text_view()),
            r == (Self { force: r.force, ..self }),
    {
        Self { force: Some(value.into_text()), ..self }
    }

    pub fn with_client_oid<T: IntoText>(self, value: T) -> (r: Self)
        ensures
            opt_view(r.client_oid) == Some(value.text_view()),
            r == (Self { client_oid: r.client_oid, ..self }),
    {
        Self { client_oid: Some(value.into_text()), ..self }
    }

    pub fn with_reduce_only<T: IntoText>(self, value: T) -> (r: Self)
        ensures
            opt_view(r.reduce_only) == Some(value.text_view()),
            r == (Self { reduce_only: r.reduce_only, ..self }),
    {
        Self { reduce_only: Some(value.into_text()), ..self }
    }

    pub fn with_preset_stop_loss_price<T: IntoText>(self, value: T) -> (r: Self)
        ensures
            opt_view(r.preset_stop_loss_price) == Some(value.text_view()),
            r == (Self { preset_stop_loss_price: r.preset_stop_loss_price, ..self }),
    {
        Self { preset_stop_loss_price: Some(value.into_text()), ..self }
    }
}

/// Bitget's margin mode of an optional margin mode; crossed when none is given.
pub fn bitget_margin_mode(value: Option<&MarginMode>) -> (r: String)
    ensures
        r@ == match value {
            Some(m) => m.bitget_spec(),
            None => "crossed"@,
        },
{
    match value {
        Some(m) => m.as_bitget_margin_mode(),
        None => owned("crossed"),
    }
}

pub open spec fn bitget_force_spec(value: Option<TimeInForce>) -> Option<Seq<char>> {
    match value {
        Some(TimeInForce::Gtc) => Some("gtc"@),
        Some(TimeInForce::Ioc) => Some("ioc"@),
        Some(TimeInForce::Fok) => Some("fok"@),
        Some(TimeInForce::PostOnly) => Some("post_only"@),
        None => None,
    }
}

/// Bitget's `force` of a time in force.
pub fn bitget_force(value: Option<TimeInForce>) -> (r: Option<&'static str>)
    ensures
        match r {
            Some(f) => bitget_force_spec(value) == Some(f@),
            None => bitget_force_spec(value) is None,
        },
{
    match value {
        Some(TimeInForce::Gtc) => Some("gtc"),
        Some(TimeInForce::Ioc) => Some("ioc"),
        Some(TimeInForce::Fok) => Some("fok"),
        Some(TimeInForce::PostOnly) => Some("post_only"),
        None => None,
    }
}

/// The attached stop-loss price of an order when it is not blank.
pub open spec fn attached_stop_loss(source: PlaceOrderRequest) -> Option<Seq<char>> {
    match source.attached_stop_loss_price {
        Some(p) => if all_ws(p@) {
            None
        } else {
            Some(p@)
        },
        None => None,
    }
}

/// Carries a non-blank attached stop-loss price of the order into Bitget's
/// preset stop-loss price; otherwise leaves the request as it is.
pub fn bitget_apply_attached_stop_loss(request: BitgetNewOrderRequest, source: &PlaceOrderRequest) -> (r:
    BitgetNewOrderRequest)
    ensures
        match attached_stop_loss(*source) {
            Some(p) => opt_view(r.preset_stop_loss_price) == Some(p) && r == (
            BitgetNewOrderRequest { preset_stop_loss_price: r.preset_stop_loss_price, ..request }),
            None => r == request,
        },
{
    match &source.attached_stop_loss_price {
        Some(price) => if is_blank(price.as_str()) {
            request
        } else {
            request.with_preset_stop_loss_price(copy_string(price))
        },
        None => request,
    }
}

/// The margin coin of an order: the one asked for, else the instrument's
/// settlement asset, else its quote asset.
pub open spec fn order_margin_coin(request: PlaceOrderRequest) -> Seq<char> {
    match request.margin_coin {
        Some(c) => c@,
        None => request.instrument.settle_view(),
    }
}

/// `target` is the Bitget request of an acceptable `request`.
pub open spec fn bitget_order_of(request: PlaceOrderRequest, product_type: Seq<char>, target: BitgetNewOrderRequest) -> bool {
    &&& target.symbol@ == request.instrument.symbol_spec(ExchangeId::Bitget)
    &&& target.product_type@ == product_type
    &&& target.margin_mode@ == match request.margin_mode {
        Some(m) => m.bitget_spec(),
        None => "crossed"@,
    }
    &&& target.margin_coin@ == order_margin_coin(request)
    &&& target.size@ == request.size@
    &&& target.side@ == request.side.lower_spec()
    &&& target.order_type@ == match request.order_type {
        OrderType::Limit => "limit"@,
        OrderType::Market => "market"@,
    }
    &&& opt_view(target.price) == match request.order_type {
        OrderType::Limit => opt_view(request.price),
        OrderType::Market => None,
    }
    &&& opt_view(target.trade_side) == opt_view(request.trade_side)
    &&& opt_view(target.force) == bitget_force_spec(request.time_in_force)
    &&& opt_view(target.client_oid) == opt_view(request.client_order_id)
    &&& opt_view(target.reduce_only) == match request.reduce_only {
        Some(true) => Some("YES"@),
        Some(false) => Some("NO"@),
        None => None,
    }
    &&& opt_view(target.preset_stop_loss_price) == attached_stop_loss(request)
}

/// The Bitget request of an order for the account's product type. A Bitget
/// order names its position by trade side, not by position side, so a
/// request with a position side is refused as unsupported; a limit order
/// without a price is refused.
pub fn bitget_place_order_request(request: &PlaceOrderRequest, product_type: &str) -> (r: Result<
    BitgetNewOrderRequest,
>)
    ensures
        request.position_side is Some ==> (r matches Err(e) && e.is_unsupported(
            ExchangeId::Bitget,
            "position side on place_order"@,
        )),
        request.position_side is None && request.order_type == OrderType::Limit && request.price is None
            ==> (r matches Err(e) && e.is_adapter(ExchangeId::Bitget, "limit orders require price"@)),
        request.position_side is None && !(request.order_type == OrderType::Limit && request.price is None)
            ==> (r matches Ok(target) && bitget_order_of(*request, product_type@, target)),
{
    if request.position_side.is_some() {
        return Err(Error::Unsupported { exchange: ExchangeId::Bitget, capability: "position side on place_order" });
    }
    let symbol = request.instrument.symbol_for(ExchangeId::Bitget);
    let margin_coin = match &request.margin_coin {
        Some(c) => copy_string(c),
        None => match &request.instrument.settlement {
            Some(s) => copy_string(s),
            None => copy_string(&request.instrument.quote),
        },
    };
    let margin_mode = bitget_margin_mode(request.margin_mode.as_ref());
    let mut target = match request.order_type {
        OrderType::Limit => {
            let price = match &request.price {
                Some(p) => copy_string(p),
                None => {
                    return Err(
                        Error::Adapter {
                            exchange: ExchangeId::Bitget,
                            message: owned("limit orders require price"),
                        },
                    )
                },
            };
            BitgetNewOrderRequest::limit(
                symbol,
                owned(product_type),
                margin_mode,
                margin_coin,
                copy_string(&request.size),
                request.side.lower(),
                price,
            )
        },
        OrderType::Market => BitgetNewOrderRequest::market(
            symbol,
            owned(product_type),
            margin_mode,
            margin_coin,
            copy_string(&request.size),
            request.side.lower(),
        ),
    };
    if let Some(trade_side) = &request.trade_side {
        target = target.with_trade_side(copy_string(trade_side));
    }
    if let Some(force) = bitget_force(request.time_in_force) {
        target = target.with_force(force);
    }
    if let Some(client_oid) = &request.client_order_id {
        target = target.with_client_oid(copy_string(client_oid));
    }
    if let Some(reduce_only) = request.reduce_only {
        target = target.with_reduce_only(
            if reduce_only {
                "YES"
            } else {
                "NO"
            },
        );
    }
    Ok(bitget_apply_attached_stop_loss(target, request))
}

} // verus!
