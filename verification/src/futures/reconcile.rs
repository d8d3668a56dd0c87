//! Reconciling an account's open positions with a directional target.
//!
//! The target names a bucket (symbol, leverage, margin mode), a direction
//! and a volume. An opposite position in that bucket is closed first, up to
//! the requested volume; what is left of the request is opened in the target
//! direction. A position in the target direction is left as it is and added
//! to. No instruction ever has a zero volume.

use vstd::prelude::*;
use vstd::string::*;
use crate::signer::str_text;
use super::structures::{
    FuturesPosition,
    OpenType,
    OrderDirection,
    OrderInstruction,
    OrderInstructionView,
    OrderType,
    PositionType,
};
use super::MexcFutures;

verus! {

/// Whether `position` lies in the bucket of symbol, leverage and margin
/// mode.
pub open spec fn in_bucket(
    position: FuturesPosition,
    symbol: Seq<char>,
    leverage: u64,
    open_type: OpenType,
) -> bool {
    &&& position.symbol@ == symbol
    &&& position.leverage == leverage
    &&& position.open_type == open_type
}

/// The index of the first position at or after `from` that lies in the
/// bucket.
pub open spec fn first_in_bucket(
    positions: Seq<FuturesPosition>,
    symbol: Seq<char>,
    leverage: u64,
    open_type: OpenType,
    from: int,
) -> Option<int>
    decreases positions.len() - from,
{
    if from < 0 || from >= positions.len() {
        None
    } else if in_bucket(positions[from], symbol, leverage, open_type) {
        Some(from)
    } else {
        first_in_bucket(positions, symbol, leverage, open_type, from + 1)
    }
}

/// Direction and held volume of the position in the bucket, if the account
/// has one.
pub open spec fn held_in_bucket(
    positions: Seq<FuturesPosition>,
    symbol: Seq<char>,
    leverage: u64,
    open_type: OpenType,
) -> Option<(PositionType, u64)> {
    match first_in_bucket(positions, symbol, leverage, open_type, 0) {
        Some(i) => Some((positions[i].position_type, positions[i].hold_vol)),
        None => None,
    }
}

/// The volume to close: the smaller of the held and the requested volume
/// where the held position is opposite to the target, nothing otherwise.
pub open spec fn volume_to_close(
    held: Option<(PositionType, u64)>,
    direction: PositionType,
    contract_units: u64,
) -> u64 {
    match held {
        Some((held_direction, hold_vol)) => if held_direction == direction {
            0
        } else if hold_vol >= contract_units {
            contract_units
        } else {
            hold_vol
        },
        None => 0,
    }
}

/// Sides and volumes of the orders that move the bucket toward the target,
/// in the order in which they are to be placed.
pub open spec fn directional_steps(
    held: Option<(PositionType, u64)>,
    direction: PositionType,
    contract_units: u64,
) -> Seq<(OrderDirection, u64)> {
    let closing = volume_to_close(held, direction, contract_units);
    let opening = (contract_units - closing) as u64;
    let close_steps = if closing > 0 {
        seq![(direction.spec_inverse().spec_close_side(), closing)]
    } else {
        Seq::empty()
    };
    if opening > 0 {
        close_steps.push((direction.spec_open_side(), opening))
    } else {
        close_steps
    }
}

/// The instruction for one step of a request.
pub open spec fn instruction_for(
    step: (OrderDirection, u64),
    symbol: Seq<char>,
    price: Option<Seq<char>>,
    leverage: u64,
    open_type: OpenType,
    order_type: OrderType,
) -> OrderInstructionView {
    OrderInstructionView {
        symbol,
        side: step.0,
        vol: step.1,
        price,
        leverage,
        open_type,
        order_type,
    }
}

/// The instructions that a request gives rise to on an account with the
/// given open positions.
pub open spec fn planned_orders(
    positions: Seq<FuturesPosition>,
    symbol: Seq<char>,
    contract_units: u64,
    price: Option<Seq<char>>,
    leverage: u64,
    direction: PositionType,
    open_type: OpenType,
    order_type: OrderType,
) -> Seq<OrderInstructionView> {
    directional_steps(
        held_in_bucket(positions, symbol, leverage, open_type),
        direction,
        contract_units,
    ).map_values(
        |step: (OrderDirection, u64)|
            instruction_for(step, symbol, price, leverage, open_type, order_type),
    )
}

/// The instructions of `orders`, each as plain values, in order.
pub open spec fn instruction_views(orders: Seq<OrderInstruction>) -> Seq<OrderInstructionView> {
    orders.map_values(|o: OrderInstruction| o@)
}

/// Finds the position of the bucket among `positions`: the first one whose
/// symbol, leverage and margin mode all agree.
pub fn find_position(
    positions: &Vec<FuturesPosition>,
    symbol: &str,
    leverage: u64,
    open_type: OpenType,
) -> (found: Option<usize>)
    ensures
        match found {
            Some(i) => first_in_bucket(positions@, symbol@, leverage, open_type, 0) == Some(
                i as int,
            ) && i < positions.len(),
            None => first_in_bucket(positions@, symbol@, leverage, open_type, 0) is None,
        },
{
    let wanted = String::from_str(symbol);
    let mut i: usize = 0;
    while i < positions.len()
        invariant
            i <= positions.len(),
            wanted@ == symbol@,
            first_in_bucket(positions@, symbol@, leverage, open_type, 0) == first_in_bucket(
                positions@,
                symbol@,
                leverage,
                open_type,
                i as int,
            ),
        decreases positions.len() - i,
    {
        let p = &positions[i];
        if p.symbol == wanted && p.leverage == leverage && p.open_type == open_type {
            return Some(i);
        }
        i += 1;
    }
    None
}

fn make_instruction(
    symbol: &str,
    side: OrderDirection,
    vol: u64,
    price: Option<&str>,
    leverage: u64,
    open_type: OpenType,
    order_type: OrderType,
) -> (order: OrderInstruction)
    ensures
        order@ == instruction_for(
            (side, vol),
            symbol@,
            str_text(price),
            leverage,
            open_type,
            order_type,
        ),
{
    let price = match price {
        Some(p) => Some(p.to_owned()),
        None => None,
    };
    OrderInstruction {
        symbol: symbol.to_owned(),
        side,
        vol,
        price,
        leverage,
        open_type,
        order_type,
    }
}

impl MexcFutures {
    /// Decides which orders move the bucket of `symbol`, `leverage` and
    /// `open_type` toward `contract_units` in `direction`, given the open
    /// positions of the account, and returns them in the order in which
    /// they are to be placed: the close, if any, before the open.
    ///
    /// The decision needs no credential and cannot fail.
    pub fn submit_directional_orders(
        &self,
        open_positions: &Vec<FuturesPosition>,
        symbol: &str,
        contract_units: u64,
        price: Option<&str>,
        leverage: u64,
        direction: PositionType,
        open_type: OpenType,
        order_type: OrderType,
    ) -> (orders: Vec<OrderInstruction>)
        ensures
            instruction_views(orders@) == planned_orders(
                open_positions@,
                symbol@,
                contract_units,
                str_text(price),
                leverage,
                direction,
                open_type,
                order_type,
            ),
            orders@.len() == directional_steps(
                held_in_bucket(open_positions@, symbol@, leverage, open_type),
                direction,
                contract_units,
            ).len(),
            forall|i: int|
                0 <= i < orders@.len() ==> (#[trigger] orders@[i])@ == instruction_for(
                    directional_steps(
                        held_in_bucket(open_positions@, symbol@, leverage, open_type),
                        direction,
                        contract_units,
                    )[i],
                    symbol@,
                    str_text(price),
                    leverage,
                    open_type,
                    order_type,
                ),
    {
        let mut orders: Vec<OrderInstruction> = Vec::new();
        let mut remaining: u64 = contract_units;
        let ghost held = held_in_bucket(open_positions@, symbol@, leverage, open_type);
        if let Some(i) = find_position(open_positions, symbol, leverage, open_type) {
            let position = &open_positions[i];
            if position.position_type != direction {
                let closing: u64 = if position.hold_vol >= contract_units {
                    contract_units
                } else {
                    position.hold_vol
                };
                if closing > 0 {
                    orders.push(
                        make_instruction(
                            symbol,
                            direction.inverse().close_side(),
                            closing,
                            price,
                            leverage,
                            open_type,
                            order_type,
                        ),
                    );
                }
                remaining = contract_units - closing;
            }
        }
        if remaining > 0 {
            orders.push(
                make_instruction(
                    symbol,
                    direction.open_side(),
                    remaining,
                    price,
                    leverage,
                    open_type,
                    order_type,
                ),
            );
        }
        proof {
            assert(remaining == contract_units - volume_to_close(held, direction, contract_units));
            assert(instruction_views(orders@) =~= planned_orders(
                open_positions@,
                symbol@,
                contract_units,
                str_text(price),
                leverage,
                direction,
                open_type,
                order_type,
            ));
        }
        orders
    }
}

/// A request for no volume gives no instruction, whatever the account
/// holds.
pub proof fn no_volume_no_orders(
    positions: Seq<FuturesPosition>,
    symbol: Seq<char>,
    price: Option<Seq<char>>,
    leverage: u64,
    direction: PositionType,
    open_type: OpenType,
    order_type: OrderType,
)
    ensures
        directional_steps(
            held_in_bucket(positions, symbol, leverage, open_type),
            direction,
            0,
        ).len() == 0,
        planned_orders(
            positions,
            symbol,
            0,
            price,
            leverage,
            direction,
            open_type,
            order_type,
        ).len() == 0,
{
}

/// A request gives at most two instructions; none has a zero volume; a
/// close comes before an open; and the volumes add up to the requested
/// volume.
pub proof fn steps_are_well_formed(
    held: Option<(PositionType, u64)>,
    direction: PositionType,
    contract_units: u64,
)
    ensures
        ({
            let steps = directional_steps(held, direction, contract_units);
            &&& steps.len() <= 2
            &&& forall|i: int| 0 <= i < steps.len() ==> (#[trigger] steps[i]).1 > 0
            &&& forall|i: int| 1 <= i < steps.len() ==> !(#[trigger] steps[i]).0.is_close()
            &&& steps.len() == 2 ==> steps[0].0.is_close()
            &&& forall|i: int|
                0 <= i < steps.len() ==> (#[trigger] steps[i]).0.spec_position_type() == direction
            &&& steps.len() == 0 ==> contract_units == 0
            &&& steps.len() == 1 ==> steps[0].1 == contract_units
            &&& steps.len() == 2 ==> steps[0].1 + steps[1].1 == contract_units
        }),
{
}

/// Every instruction of a request carries a volume above zero and the
/// symbol, price, leverage, margin mode and order type of the request, and
/// there are at most two of them.
pub proof fn planned_orders_carry_the_request(
    positions: Seq<FuturesPosition>,
    symbol: Seq<char>,
    contract_units: u64,
    price: Option<Seq<char>>,
    leverage: u64,
    direction: PositionType,
    open_type: OpenType,
    order_type: OrderType,
)
    ensures
        ({
            let orders = planned_orders(
                positions,
                symbol,
                contract_units,
                price,
                leverage,
                direction,
                open_type,
                order_type,
            );
            &&& orders.len() <= 2
            &&& forall|i: int|
                0 <= i < orders.len() ==> {
                    &&& (#[trigger] orders[i]).vol > 0
                    &&& orders[i].vol <= contract_units
                    &&& orders[i].symbol == symbol
                    &&& orders[i].price == price
                    &&& orders[i].leverage == leverage
                    &&& orders[i].open_type == open_type
                    &&& orders[i].order_type == order_type
                    &&& orders[i].side.spec_position_type() == direction
                }
        }),
{
    steps_are_well_formed(
        held_in_bucket(positions, symbol, leverage, open_type),
        direction,
        contract_units,
    );
}

/// With no position in the bucket, or with one in the target direction, the
/// whole requested volume is opened and nothing is closed.
pub proof fn nothing_opposite_opens_all(
    held: Option<(PositionType, u64)>,
    direction: PositionType,
    contract_units: u64,
)
    requires
        contract_units > 0,
        held matches Some(h) ==> h.0 == direction,
    ensures
        directional_steps(held, direction, contract_units) == seq![
            (direction.spec_open_side(), contract_units),
        ],
{
    assert(directional_steps(held, direction, contract_units) =~= seq![
        (direction.spec_open_side(), contract_units),
    ]);
}

/// An opposite position that holds less than the requested volume is closed
/// in full, and the difference is opened.
pub proof fn smaller_opposite_is_flattened(
    hold_vol: u64,
    direction: PositionType,
    contract_units: u64,
)
    requires
        0 < hold_vol < contract_units,
    ensures
        directional_steps(Some((direction.spec_inverse(), hold_vol)), direction, contract_units)
            == seq![
            (direction.spec_inverse().spec_close_side(), hold_vol),
            (direction.spec_open_side(), (contract_units - hold_vol) as u64),
        ],
{
    assert(directional_steps(
        Some((direction.spec_inverse(), hold_vol)),
        direction,
        contract_units,
    ) =~= seq![
        (direction.spec_inverse().spec_close_side(), hold_vol),
        (direction.spec_open_side(), (contract_units - hold_vol) as u64),
    ]);
}

/// An opposite position that holds at least the requested volume absorbs
/// the request: the requested volume is closed and nothing is opened.
pub proof fn larger_opposite_absorbs(hold_vol: u64, direction: PositionType, contract_units: u64)
    requires
        0 < contract_units <= hold_vol,
    ensures
        directional_steps(Some((direction.spec_inverse(), hold_vol)), direction, contract_units)
            == seq![(direction.spec_inverse().spec_close_side(), contract_units)],
{
    assert(directional_steps(
        Some((direction.spec_inverse(), hold_vol)),
        direction,
        contract_units,
    ) =~= seq![(direction.spec_inverse().spec_close_side(), contract_units)]);
}

/// Reconciling is a function of the snapshot and the target: two results
/// for the same positions and the same request are the same list of
/// instructions.
pub proof fn reconciling_twice_agrees(
    first: Seq<OrderInstruction>,
    second: Seq<OrderInstruction>,
    positions: Seq<FuturesPosition>,
    symbol: Seq<char>,
    contract_units: u64,
    price: Option<Seq<char>>,
    leverage: u64,
    direction: PositionType,
    open_type: OpenType,
    order_type: OrderType,
)
    requires
        instruction_views(first) == planned_orders(
            positions,
            symbol,
            contract_units,
            price,
            leverage,
            direction,
            open_type,
            order_type,
        ),
        instruction_views(second) == planned_orders(
            positions,
            symbol,
            contract_units,
            price,
            leverage,
            direction,
            open_type,
            order_type,
        ),
    ensures
        first.len() == second.len(),
        forall|i: int| 0 <= i < first.len() ==> (#[trigger] first[i])@ == second[i]@,
{
    assert(instruction_views(first).len() == first.len());
    assert(instruction_views(second).len() == second.len());
    assert forall|i: int| 0 <= i < first.len() implies (#[trigger] first[i])@ == second[i]@ by {
        assert(instruction_views(first)[i] == first[i]@);
        assert(instruction_views(second)[i] == second[i]@);
    }
}

/// Positions outside the bucket do not matter: two accounts that hold the
/// same in the bucket get the same instructions.
pub proof fn other_buckets_are_ignored(
    positions_a: Seq<FuturesPosition>,
    positions_b: Seq<FuturesPosition>,
    symbol: Seq<char>,
    contract_units: u64,
    price: Option<Seq<char>>,
    leverage: u64,
    direction: PositionType,
    open_type: OpenType,
    order_type: OrderType,
)
    requires
        held_in_bucket(positions_a, symbol, leverage, open_type) == held_in_bucket(
            positions_b,
            symbol,
            leverage,
            open_type,
        ),
    ensures
        planned_orders(
            positions_a,
            symbol,
            contract_units,
            price,
            leverage,
            direction,
            open_type,
            order_type,
        ) == planned_orders(
            positions_b,
            symbol,
            contract_units,
            price,
            leverage,
            direction,
            open_type,
            order_type,
        ),
{
}

} // verus!
