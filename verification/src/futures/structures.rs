//! Records and codes of the futures API.

use vstd::prelude::*;
use vstd::string::*;
use crate::signer::text_of;

verus! {

/// The side of a futures order. Closing sides are kept apart from opening
/// sides: the exchange nets a close against an existing position and starts
/// a new one on an open.
#[derive(Debug, PartialEq, Eq, Structural, Clone, Copy)]
pub enum OrderDirection {
    OpenLong,
    CloseShort,
    OpenShort,
    CloseLong,
}

impl OrderDirection {
    /// The code the exchange uses for this side.
    pub open spec fn spec_code(self) -> u64 {
        match self {
            OrderDirection::OpenLong => 1,
            OrderDirection::CloseShort => 2,
            OrderDirection::OpenShort => 3,
            OrderDirection::CloseLong => 4,
        }
    }

    /// The code the exchange uses for this side.
    #[verifier::when_used_as_spec(spec_code)]
    pub fn code(self) -> (c: u64)
        ensures
            c == self.spec_code(),
    {
        match self {
            OrderDirection::OpenLong => 1,
            OrderDirection::CloseShort => 2,
            OrderDirection::OpenShort => 3,
            OrderDirection::CloseLong => 4,
        }
    }

    /// The side with the given code, if there is one.
    pub fn from_code(c: u64) -> (side: Option<OrderDirection>)
        ensures
            match side {
                Some(s) => s.spec_code() == c,
                None => c < 1 || c > 4,
            },
    {
        if c == 1 {
            Some(OrderDirection::OpenLong)
        } else if c == 2 {
            Some(OrderDirection::CloseShort)
        } else if c == 3 {
            Some(OrderDirection::OpenShort)
        } else if c == 4 {
            Some(OrderDirection::CloseLong)
        } else {
            None
        }
    }

    /// The direction in which the order moves the book.
    pub open spec fn spec_position_type(&self) -> PositionType {
        match *self {
            OrderDirection::CloseLong => PositionType::Short,
            OrderDirection::CloseShort => PositionType::Long,
            OrderDirection::OpenLong => PositionType::Long,
            OrderDirection::OpenShort => PositionType::Short,
        }
    }

    /// The direction in which the order moves the book: buying for
    /// `OpenLong` and `CloseShort`, selling for the other two.
    #[verifier::when_used_as_spec(spec_position_type)]
    pub fn position_type(&self) -> (p: PositionType)
        ensures
            p == self.spec_position_type(),
    {
        match self {
            OrderDirection::CloseLong => PositionType::Short,
            OrderDirection::CloseShort => PositionType::Long,
            OrderDirection::OpenLong => PositionType::Long,
            OrderDirection::OpenShort => PositionType::Short,
        }
    }

    /// Whether the order nets against an existing position.
    pub open spec fn is_close(self) -> bool {
        self == OrderDirection::CloseShort || self == OrderDirection::CloseLong
    }
}

/// The direction of a position.
#[derive(Debug, PartialEq, Eq, Structural, Clone, Copy, Hash)]
pub enum PositionType {
    Long,
    Short,
}

impl PositionType {
    /// The code the exchange uses for this direction.
    pub open spec fn spec_code(self) -> u64 {
        match self {
            PositionType::Long => 1,
            PositionType::Short => 2,
        }
    }

    /// The code the exchange uses for this direction.
    #[verifier::when_used_as_spec(spec_code)]
    pub fn code(self) -> (c: u64)
        ensures
            c == self.spec_code(),
    {
        match self {
            PositionType::Long => 1,
            PositionType::Short => 2,
        }
    }

    /// The direction with the given code, if there is one.
    pub fn from_code(c: u64) -> (direction: Option<PositionType>)
        ensures
            match direction {
                Some(d) => d.spec_code() == c,
                None => c != 1 && c != 2,
            },
    {
        if c == 1 {
            Some(PositionType::Long)
        } else if c == 2 {
            Some(PositionType::Short)
        } else {
            None
        }
    }

    /// The opposite direction.
    pub open spec fn spec_inverse(&self) -> PositionType {
        match *self {
            PositionType::Long => PositionType::Short,
            PositionType::Short => PositionType::Long,
        }
    }

    /// The opposite direction.
    #[verifier::when_used_as_spec(spec_inverse)]
    pub fn inverse(&self) -> (p: PositionType)
        ensures
            p == self.spec_inverse(),
    {
        match self {
            PositionType::Long => PositionType::Short,
            PositionType::Short => PositionType::Long,
        }
    }

    /// The side that opens a position in this direction.
    pub open spec fn spec_open_side(self) -> OrderDirection {
        match self {
            PositionType::Long => OrderDirection::OpenLong,
            PositionType::Short => OrderDirection::OpenShort,
        }
    }

    /// The side that opens a position in this direction.
    #[verifier::when_used_as_spec(spec_open_side)]
    pub fn open_side(self) -> (side: OrderDirection)
        ensures
            side == self.spec_open_side(),
    {
        match self {
            PositionType::Long => OrderDirection::OpenLong,
            PositionType::Short => OrderDirection::OpenShort,
        }
    }

    /// The side that closes a position in this direction.
    pub open spec fn spec_close_side(self) -> OrderDirection {
        match self {
            PositionType::Long => OrderDirection::CloseLong,
            PositionType::Short => OrderDirection::CloseShort,
        }
    }

    /// The side that closes a position in this direction.
    #[verifier::when_used_as_spec(spec_close_side)]
    pub fn close_side(self) -> (side: OrderDirection)
        ensures
            side == self.spec_close_side(),
    {
        match self {
            PositionType::Long => OrderDirection::CloseLong,
            PositionType::Short => OrderDirection::CloseShort,
        }
    }

    /// The name of the direction.
    pub fn name(&self) -> (text: String)
        ensures
            text@ == (match *self {
                PositionType::Long => "Long"@,
                PositionType::Short => "Short"@,
            }),
    {
        match self {
            PositionType::Long => String::from_str("Long"),
            PositionType::Short => String::from_str("Short"),
        }
    }
}

/// Inverting a direction twice gives it back, and the inverse is never the
/// direction itself.
pub proof fn inverse_is_an_involution(p: PositionType)
    ensures
        p.spec_inverse().spec_inverse() == p,
        p.spec_inverse() != p,
{
}

/// An opening order moves the book in the direction it opens; a closing
/// order moves it against the direction it closes.
pub proof fn sides_move_the_book(p: PositionType)
    ensures
        p.spec_open_side().spec_position_type() == p,
        p.spec_close_side().spec_position_type() == p.spec_inverse(),
        !p.spec_open_side().is_close(),
        p.spec_close_side().is_close(),
{
}

/// Margin mode of a position: collateral ring-fenced per position, or
/// shared across the account.
#[derive(Debug, PartialEq, Eq, Structural, Clone, Copy)]
pub enum OpenType {
    Isolated,
    Cross,
}

impl OpenType {
    /// The code the exchange uses for this margin mode.
    pub open spec fn spec_code(self) -> u64 {
        match self {
            OpenType::Isolated => 1,
            OpenType::Cross => 2,
        }
    }

    /// The code the exchange uses for this margin mode.
    #[verifier::when_used_as_spec(spec_code)]
    pub fn code(self) -> (c: u64)
        ensures
            c == self.spec_code(),
    {
        match self {
            OpenType::Isolated => 1,
            OpenType::Cross => 2,
        }
    }

    /// The margin mode with the given code, if there is one.
    pub fn from_code(c: u64) -> (mode: Option<OpenType>)
        ensures
            match mode {
                Some(m) => m.spec_code() == c,
                None => c != 1 && c != 2,
            },
    {
        if c == 1 {
            Some(OpenType::Isolated)
        } else if c == 2 {
            Some(OpenType::Cross)
        } else {
            None
        }
    }
}

/// How a futures order is to be executed.
#[derive(Debug, PartialEq, Eq, Structural, Clone, Copy)]
pub enum OrderType {
    Limit,
    PostOnly,
    TransactOrCancelInstantly,
    TransactCompletelyOrCancelCompletely,
    Market,
    ConvertMarketToCurrentPrice,
}

impl OrderType {
    /// The code the exchange uses for this order type.
    pub open spec fn spec_code(self) -> u64 {
        match self {
            OrderType::Limit => 1,
            OrderType::PostOnly => 2,
            OrderType::TransactOrCancelInstantly => 3,
            OrderType::TransactCompletelyOrCancelCompletely => 4,
            OrderType::Market => 5,
            OrderType::ConvertMarketToCurrentPrice => 6,
        }
    }

    /// The code the exchange uses for this order type.
    #[verifier::when_used_as_spec(spec_code)]
    pub fn code(self) -> (c: u64)
        ensures
            c == self.spec_code(),
    {
        match self {
            OrderType::Limit => 1,
            OrderType::PostOnly => 2,
            OrderType::TransactOrCancelInstantly => 3,
            OrderType::TransactCompletelyOrCancelCompletely => 4,
            OrderType::Market => 5,
            OrderType::ConvertMarketToCurrentPrice => 6,
        }
    }

    /// The order type with the given code, if there is one.
    pub fn from_code(c: u64) -> (kind: Option<OrderType>)
        ensures
            match kind {
                Some(k) => k.spec_code() == c,
                None => c < 1 || c > 6,
            },
    {
        if c == 1 {
            Some(OrderType::Limit)
        } else if c == 2 {
            Some(OrderType::PostOnly)
        } else if c == 3 {
            Some(OrderType::TransactOrCancelInstantly)
        } else if c == 4 {
            Some(OrderType::TransactCompletelyOrCancelCompletely)
        } else if c == 5 {
            Some(OrderType::Market)
        } else if c == 6 {
            Some(OrderType::ConvertMarketToCurrentPrice)
        } else {
            None
        }
    }
}

/// What the exchange returns for an accepted order.
#[derive(Debug, Clone)]
pub struct OrderReceipt {
    pub order_id: String,
    pub timestamp: u128,
}

/// An open position as the exchange reported it. The bucket it belongs to is
/// the triple of symbol, leverage and margin mode; the held volume is what
/// the exchange held at the time of the report.
#[derive(Debug, Clone)]
pub struct FuturesPosition {
    pub position_id: i64,
    pub symbol: String,
    pub open_type: OpenType,
    pub leverage: u64,
    pub position_type: PositionType,
    pub hold_vol: u64,
}

/// One order to be placed.
#[derive(Debug, Clone)]
pub struct OrderInstruction {
    pub symbol: String,
    pub side: OrderDirection,
    pub vol: u64,
    /// The limit price as decimal text, if the order carries one.
    pub price: Option<String>,
    pub leverage: u64,
    pub open_type: OpenType,
    pub order_type: OrderType,
}

/// What an instruction says, as plain values.
pub struct OrderInstructionView {
    pub symbol: Seq<char>,
    pub side: OrderDirection,
    pub vol: u64,
    pub price: Option<Seq<char>>,
    pub leverage: u64,
    pub open_type: OpenType,
    pub order_type: OrderType,
}

impl View for OrderInstruction {
    type V = OrderInstructionView;

    open spec fn view(&self) -> OrderInstructionView {
        OrderInstructionView {
            symbol: self.symbol@,
            side: self.side,
            vol: self.vol,
            price: text_of(self.price),
            leverage: self.leverage,
            open_type: self.open_type,
            order_type: self.order_type,
        }
    }
}

/// The envelope that every private futures reply shares.
#[derive(Debug, Clone)]
pub struct FuturesResponse {
    pub success: bool,
    pub code: i64,
    pub data: Option<serde_json::Value>,
    pub message: Option<String>,
}

/// `serde_json::Value`, carried through as an opaque payload.
#[verifier::external_type_specification]
#[verifier::external_body]
pub struct ExValue(serde_json::Value);

} // verus!
