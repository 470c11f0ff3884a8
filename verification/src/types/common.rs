//! Enumerations shared by the statement records.

use crate::text::same_text;
use vstd::prelude::*;

verus! {

/// Asset category of a security.
#[derive(Clone, Copy, Debug, PartialEq, Eq, Hash, Structural)]
pub enum AssetCategory {
    /// Stock.
    Stock,
    /// Option.
    Option,
    /// Future.
    Future,
    /// Option on a future.
    FutureOption,
    /// Cash or foreign exchange.
    Cash,
    /// Bond.
    Bond,
    /// Contract for difference.
    Cfd,
    /// Any other category.
    Unknown,
}

/// Side of a trade.
#[derive(Clone, Copy, Debug, PartialEq, Eq, Hash, Structural)]
pub enum BuySell {
    /// Buy.
    Buy,
    /// Sell.
    Sell,
    /// Any other side.
    Unknown,
}

/// Whether a trade opens or closes a position.
#[derive(Clone, Copy, Debug, PartialEq, Eq, Hash, Structural)]
pub enum OpenClose {
    /// Opening trade.
    Open,
    /// Closing trade.
    Close,
    /// Close and open on the same day.
    CloseOpen,
    /// Any other indicator.
    Unknown,
}

/// Order type.
#[derive(Clone, Copy, Debug, PartialEq, Eq, Hash, Structural)]
pub enum OrderType {
    /// Market order.
    Market,
    /// Limit order.
    Limit,
    /// Stop order.
    Stop,
    /// Stop limit order.
    StopLimit,
    /// Market on close.
    MarketOnClose,
    /// Limit on close.
    LimitOnClose,
    /// Market if touched.
    MarketIfTouched,
    /// Limit if touched.
    LimitIfTouched,
    /// Trailing stop.
    TrailingStop,
    /// Any other order type.
    Unknown,
}

/// Put or call, for options.
#[derive(Clone, Copy, Debug, PartialEq, Eq, Hash, Structural)]
pub enum PutCall {
    /// Put option.
    Put,
    /// Call option.
    Call,
    /// Any other right.
    Unknown,
}

/// The asset category that a statement code names; any other code names `Unknown`.
pub open spec fn asset_category_of(code: Seq<char>) -> AssetCategory {
    if code == "STK"@ {
        AssetCategory::Stock
    } else if code == "OPT"@ {
        AssetCategory::Option
    } else if code == "FUT"@ {
        AssetCategory::Future
    } else if code == "FOP"@ {
        AssetCategory::FutureOption
    } else if code == "CASH"@ {
        AssetCategory::Cash
    } else if code == "BOND"@ {
        AssetCategory::Bond
    } else if code == "CFD"@ {
        AssetCategory::Cfd
    } else {
        AssetCategory::Unknown
    }
}

impl AssetCategory {
    /// Reads the code that a statement uses for this value.
    pub fn from_code(code: &str) -> (r: AssetCategory)
        ensures
            r == asset_category_of(code@),
    {
        if same_text(code, "STK") {
            AssetCategory::Stock
        } else if same_text(code, "OPT") {
            AssetCategory::Option
        } else if same_text(code, "FUT") {
            AssetCategory::Future
        } else if same_text(code, "FOP") {
            AssetCategory::FutureOption
        } else if same_text(code, "CASH") {
            AssetCategory::Cash
        } else if same_text(code, "BOND") {
            AssetCategory::Bond
        } else if same_text(code, "CFD") {
            AssetCategory::Cfd
        } else {
            AssetCategory::Unknown
        }
    }
}

/// The side that a statement code names; any other code names `Unknown`.
pub open spec fn buy_sell_of(code: Seq<char>) -> BuySell {
    if code == "BUY"@ {
        BuySell::Buy
    } else if code == "SELL"@ {
        BuySell::Sell
    } else {
        BuySell::Unknown
    }
}

impl BuySell {
    /// Reads the code that a statement uses for this value.
    pub fn from_code(code: &str) -> (r: BuySell)
        ensures
            r == buy_sell_of(code@),
    {
        if same_text(code, "BUY") {
            BuySell::Buy
        } else if same_text(code, "SELL") {
            BuySell::Sell
        } else {
            BuySell::Unknown
        }
    }
}

/// The indicator that a statement code names; any other code names `Unknown`.
pub open spec fn open_close_of(code: Seq<char>) -> OpenClose {
    if code == "O"@ {
        OpenClose::Open
    } else if code == "C"@ {
        OpenClose::Close
    } else if code == "C;O"@ {
        OpenClose::CloseOpen
    } else {
        OpenClose::Unknown
    }
}

impl OpenClose {
    /// Reads the code that a statement uses for this value.
    pub fn from_code(code: &str) -> (r: OpenClose)
        ensures
            r == open_close_of(code@),
    {
        if same_text(code, "O") {
            OpenClose::Open
        } else if same_text(code, "C") {
            OpenClose::Close
        } else if same_text(code, "C;O") {
            OpenClose::CloseOpen
        } else {
            OpenClose::Unknown
        }
    }
}

/// The order type that a statement code names; any other code names `Unknown`.
pub open spec fn order_type_of(code: Seq<char>) -> OrderType {
    if code == "MKT"@ {
        OrderType::Market
    } else if code == "LMT"@ {
        OrderType::Limit
    } else if code == "STP"@ {
        OrderType::Stop
    } else if code == "STP LMT"@ {
        OrderType::StopLimit
    } else if code == "MOC"@ {
        OrderType::MarketOnClose
    } else if code == "LOC"@ {
        OrderType::LimitOnClose
    } else if code == "MIT"@ {
        OrderType::MarketIfTouched
    } else if code == "LIT"@ {
        OrderType::LimitIfTouched
    } else if code == "TRAIL"@ {
        OrderType::TrailingStop
    } else {
        OrderType::Unknown
    }
}

impl OrderType {
    /// Reads the code that a statement uses for this value.
    pub fn from_code(code: &str) -> (r: OrderType)
        ensures
            r == order_type_of(code@),
    {
        if same_text(code, "MKT") {
            OrderType::Market
        } else if same_text(code, "LMT") {
            OrderType::Limit
        } else if same_text(code, "STP") {
            OrderType::Stop
        } else if same_text(code, "STP LMT") {
            OrderType::StopLimit
        } else if same_text(code, "MOC") {
            OrderType::MarketOnClose
        } else if same_text(code, "LOC") {
            OrderType::LimitOnClose
        } else if same_text(code, "MIT") {
            OrderType::MarketIfTouched
        } else if same_text(code, "LIT") {
            OrderType::LimitIfTouched
        } else if same_text(code, "TRAIL") {
            OrderType::TrailingStop
        } else {
            OrderType::Unknown
        }
    }
}

/// The right that a statement code names; any other code names `Unknown`.
pub open spec fn put_call_of(code: Seq<char>) -> PutCall {
    if code == "P"@ {
        PutCall::Put
    } else if code == "C"@ {
        PutCall::Call
    } else {
        PutCall::Unknown
    }
}

impl PutCall {
    /// Reads the code that a statement uses for this value.
    pub fn from_code(code: &str) -> (r: PutCall)
        ensures
            r == put_call_of(code@),
    {
        if same_text(code, "P") {
            PutCall::Put
        } else if same_text(code, "C") {
            PutCall::Call
        } else {
            PutCall::Unknown
        }
    }
}

} // verus!
