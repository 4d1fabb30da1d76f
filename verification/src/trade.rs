//! The Trade state machine: order data, alert derivation, and the reaction
//! to alert-fired notifications.

use crate::base::{OrderSide, OrderType, TradeId};
use crate::market_data::AlertId;
use vstd::prelude::*;

verus! {

/// A price level.  Values are plain integers counting the instrument's
/// smallest representable price increment (so 0.8011 on a four-decimal
/// symbol is the level 8011).
#[derive(Debug, Clone, Copy, PartialEq, Eq, Structural)]
pub enum Price {
    /// An absolute price level.
    Abs(u64),
    /// A pip-based offset against a reference price.  No resolution context
    /// exists in this core, so resolution yields the documented placeholder
    /// value 0 rather than a silently wrong level.
    Pip(u64),
}

/// The absolute value a `Price` resolves to.  A pip-relative offset has no
/// reference price in this core and resolves to the placeholder 0.
pub open spec fn resolve_spec(p: Price) -> u64 {
    match p {
        Price::Abs(v) => v,
        Price::Pip(_) => 0,
    }
}

/// Resolves a price to its absolute value, as `resolve_spec` states.
pub fn resolve_price(p: &Price) -> (r: u64)
    ensures
        r == resolve_spec(*p),
{
    match p {
        Price::Abs(v) => *v,
        Price::Pip(_) => 0,
    }
}

/// What the trader wants: order type, symbol, side, and the optional entry,
/// stop-loss and target price levels.
#[derive(Debug, Clone)]
pub struct OrderData {
    pub order_type: OrderType,
    pub symbol: String,
    pub side: OrderSide,
    pub price: Option<Price>,
    pub stoploss: Option<Price>,
    pub targets: Option<Vec<Price>>,
}

/// Mathematical model of an `OrderData` value.
pub struct OrderDataView {
    pub order_type: OrderType,
    pub symbol: Seq<char>,
    pub side: OrderSide,
    pub price: Option<Price>,
    pub stoploss: Option<Price>,
    pub targets: Option<Seq<Price>>,
}

impl View for OrderData {
    type V = OrderDataView;

    open spec fn view(&self) -> OrderDataView {
        OrderDataView {
            order_type: self.order_type,
            symbol: self.symbol@,
            side: self.side,
            price: self.price,
            stoploss: self.stoploss,
            targets: match self.targets {
                Some(ts) => Some(ts@),
                None => None,
            },
        }
    }
}

impl OrderDataView {
    /// The resolved entry price, when an entry price is set.
    pub open spec fn resolved_entry(self) -> Option<u64> {
        match self.price {
            Some(p) => Some(resolve_spec(p)),
            None => None,
        }
    }

    /// The resolved stop-loss price, when a stop-loss is set.
    pub open spec fn resolved_stoploss(self) -> Option<u64> {
        match self.stoploss {
            Some(p) => Some(resolve_spec(p)),
            None => None,
        }
    }

    /// The resolved target prices, in list order, when targets are set.
    pub open spec fn resolved_targets(self) -> Option<Seq<u64>> {
        match self.targets {
            Some(ts) => Some(ts.map_values(|p: Price| resolve_spec(p))),
            None => None,
        }
    }

    /// A well-formed order names a non-empty symbol.
    pub open spec fn valid(self) -> bool {
        self.symbol.len() > 0
    }
}

impl OrderData {
    /// The entry price resolved to an absolute value, if one is set.
    pub fn get_entry(&self) -> (r: Option<u64>)
        ensures
            r == self@.resolved_entry(),
    {
        match &self.price {
            Some(p) => Some(resolve_price(p)),
            None => None,
        }
    }

    /// The stop-loss price resolved to an absolute value, if one is set.
    pub fn get_stoploss(&self) -> (r: Option<u64>)
        ensures
            r == self@.resolved_stoploss(),
    {
        match &self.stoploss {
            Some(p) => Some(resolve_price(p)),
            None => None,
        }
    }

    /// The target prices resolved to absolute values, if targets are set.
    pub fn get_targets(&self) -> (r: Option<Vec<u64>>)
        ensures
            r is Some <==> self@.targets is Some,
            (r matches Some(v) ==> self@.resolved_targets() matches Some(s) && v@ == s),
    {
        match &self.targets {
            Some(ts) => {
                let mut out: Vec<u64> = Vec::new();
                let mut i: usize = 0;
                while i < ts.len()
                    invariant
                        i <= ts@.len(),
                        out@ == ts@.take(i as int).map_values(|p: Price| resolve_spec(p)),
                    decreases ts@.len() - i,
                {
                    out.push(resolve_price(&ts[i]));
                    proof {
                        assert(ts@.take(i + 1 as int) =~= ts@.take(i as int).push(ts@[i as int]));
                        assert(ts@.take(i + 1 as int).map_values(|p: Price| resolve_spec(p)) =~= ts@.take(
                            i as int,
                        ).map_values(|p: Price| resolve_spec(p)).push(resolve_spec(ts@[i as int])));
                    }
                    i += 1;
                }
                proof {
                    assert(ts@.take(ts@.len() as int) =~= ts@);
                }
                Some(out)
            },
            None => None,
        }
    }
}

impl Default for OrderData {
    fn default() -> (r: Self)
        ensures
            r@.order_type == OrderType::Market,
            r@.side == OrderSide::Buy,
            r@.symbol.len() == 0,
            r@.price is None,
            r@.stoploss is None,
            r@.targets is None,
    {
        OrderData {
            order_type: OrderType::Market,
            symbol: String::new(),
            side: OrderSide::Buy,
            price: None,
            stoploss: None,
            targets: None,
        }
    }
}

/// The semantic role of one active alert.
#[derive(Debug, Clone, Copy, PartialEq, Eq, Structural)]
pub enum AlertType {
    /// Entry trigger of a stop or stop-limit order.
    StopTrigger,
    /// Entry trigger of a limit order.
    LimitTrigger,
    /// A take-profit target of a live position.
    Target,
    /// The stop-loss of a live position.
    Stoploss,
}

/// The stop-loss alert a live position needs: one `Stoploss` alert at the
/// resolved stop-loss price, when a stop-loss is set.
pub open spec fn stoploss_alerts(od: OrderDataView) -> Seq<(AlertType, u64)> {
    match od.stoploss {
        Some(p) => seq![(AlertType::Stoploss, resolve_spec(p))],
        None => Seq::<(AlertType, u64)>::empty(),
    }
}

/// The target alerts a live position needs: one `Target` alert per entry of
/// the target list, at the resolved target price, in list order.
pub open spec fn target_alerts(od: OrderDataView) -> Seq<(AlertType, u64)> {
    match od.targets {
        Some(ts) => ts.map_values(|p: Price| (AlertType::Target, resolve_spec(p))),
        None => Seq::<(AlertType, u64)>::empty(),
    }
}

/// All alerts a live position needs: the stop-loss alert, then the targets.
pub open spec fn position_alerts(od: OrderDataView) -> Seq<(AlertType, u64)> {
    stoploss_alerts(od) + target_alerts(od)
}

/// The role carried by the entry trigger of a pending (non-market) order.
pub open spec fn trigger_alert_type(ot: OrderType) -> AlertType {
    if ot == OrderType::Limit {
        AlertType::LimitTrigger
    } else {
        AlertType::StopTrigger
    }
}

/// The alerts `NewOrder` derives from an order specification: a market order
/// needs its position alerts at once; any other order needs a single entry
/// trigger at the resolved entry price, and none at all when no entry price
/// is set (a documented inert state, not an error).
pub open spec fn derived_alerts(od: OrderDataView) -> Seq<(AlertType, u64)> {
    if od.order_type == OrderType::Market {
        position_alerts(od)
    } else {
        match od.price {
            Some(p) => seq![(trigger_alert_type(od.order_type), resolve_spec(p))],
            None => Seq::<(AlertType, u64)>::empty(),
        }
    }
}

/// Builds the position alerts of `position_alerts` as concrete values.
pub fn derive_position_plan(od: &OrderData) -> (plan: Vec<(AlertType, u64)>)
    ensures
        plan@ == position_alerts(od@),
{
    let mut plan: Vec<(AlertType, u64)> = Vec::new();
    match &od.stoploss {
        Some(p) => {
            plan.push((AlertType::Stoploss, resolve_price(p)));
        },
        None => {},
    }
    match &od.targets {
        Some(ts) => {
            let mut i: usize = 0;
            while i < ts.len()
                invariant
                    i <= ts@.len(),
                    od@.targets == Some(ts@),
                    plan@ == stoploss_alerts(od@) + ts@.take(i as int).map_values(
                        |p: Price| (AlertType::Target, resolve_spec(p)),
                    ),
                decreases ts@.len() - i,
            {
                plan.push((AlertType::Target, resolve_price(&ts[i])));
                proof {
                    let f = |p: Price| (AlertType::Target, resolve_spec(p));
                    assert(ts@.take(i + 1 as int).map_values(f) =~= ts@.take(i as int).map_values(
                        f,
                    ).push(f(ts@[i as int])));
                    assert(stoploss_alerts(od@) + ts@.take(i + 1 as int).map_values(f)
                        =~= (stoploss_alerts(od@) + ts@.take(i as int).map_values(f)).push(
                        f(ts@[i as int]),
                    ));
                }
                i += 1;
            }
            proof {
                assert(ts@.take(ts@.len() as int) =~= ts@);
            }
        },
        None => {
            proof {
                assert(plan@ =~= position_alerts(od@));
            }
        },
    }
    plan
}

/// Builds the alerts of `derived_alerts` as concrete values.
pub fn derive_alert_plan(od: &OrderData) -> (plan: Vec<(AlertType, u64)>)
    ensures
        plan@ == derived_alerts(od@),
{
    match od.order_type {
        OrderType::Market => derive_position_plan(od),
        _ => {
            let mut plan: Vec<(AlertType, u64)> = Vec::new();
            match &od.price {
                Some(p) => {
                    let role = match od.order_type {
                        OrderType::Limit => AlertType::LimitTrigger,
                        _ => AlertType::StopTrigger,
                    };
                    plan.push((role, resolve_price(p)));
                },
                None => {},
            }
            proof {
                assert(plan@ =~= derived_alerts(od@));
            }
            plan
        },
    }
}

/// Ghost record of one call the trade made on its dispatch boundary.
pub enum AlertCall {
    Register { symbol: Seq<char>, alert_id: Seq<char>, price: u64 },
    Cancel { alert_id: Seq<char> },
}

/// The dispatch boundary: the external alert engine that actually watches
/// prices.  `calls` is the abstract record of every request the handler has
/// received, in order; both operations append exactly one entry to it.
/// `register_price_alert` must be idempotent-safe against duplicate
/// identifiers, and `cancel_alert` must tolerate identifiers that already
/// fired or were never registered.
pub trait PriceAlertHandler: Sized {
    /// The register/cancel requests this handler has received so far.
    spec fn calls(&self) -> Seq<AlertCall>;

    /// Begin watching `symbol` for the given price level; a later crossing
    /// is reported back through the alert identifier.
    fn register_price_alert(&mut self, symbol: &str, alert_id: AlertId, price: u64)
        ensures
            final(self).calls() == old(self).calls().push(
                (AlertCall::Register { symbol: symbol@, alert_id: alert_id@, price }),
            ),
    ;

    /// Stop watching the level registered under the given identifier.
    fn cancel_alert(&mut self, alert_id: &AlertId)
        ensures
            final(self).calls() == old(self).calls().push(
                (AlertCall::Cancel { alert_id: alert_id@ }),
            ),
    ;
}

/// One recorded dispatch-boundary call, as a concrete value.
#[derive(Debug)]
pub enum AlertEvent {
    Register { symbol: String, alert_id: AlertId, price: u64 },
    Cancel { alert_id: AlertId },
}

impl View for AlertEvent {
    type V = AlertCall;

    open spec fn view(&self) -> AlertCall {
        match self {
            AlertEvent::Register { symbol, alert_id, price } => (AlertCall::Register {
                symbol: symbol@,
                alert_id: alert_id@,
                price: *price,
            }),
            AlertEvent::Cancel { alert_id } => (AlertCall::Cancel { alert_id: alert_id@ }),
        }
    }
}

/// A dispatch-boundary implementation that only records the requests it
/// receives, in order.  It stands in for a real alert engine wherever the
/// calls a trade makes are to be observed.
pub struct RecordingHandler {
    pub events: Vec<AlertEvent>,
}

impl RecordingHandler {
    pub fn new() -> (r: Self)
        ensures
            r.calls() == Seq::<AlertCall>::empty(),
    {
        let r = RecordingHandler { events: Vec::new() };
        proof {
            assert(r.events@.map_values(|e: AlertEvent| e@) =~= Seq::<AlertCall>::empty());
        }
        r
    }
}

impl PriceAlertHandler for RecordingHandler {
    closed spec fn calls(&self) -> Seq<AlertCall> {
        self.events@.map_values(|e: AlertEvent| e@)
    }

    fn register_price_alert(&mut self, symbol: &str, alert_id: AlertId, price: u64) {
        let owned: String = symbol.to_string();
        self.events.push(AlertEvent::Register { symbol: owned, alert_id, price });
        proof {
            assert(self.events@.map_values(|e: AlertEvent| e@) =~= old(self).events@.map_values(
                |e: AlertEvent| e@,
            ).push(self.events@.last()@));
        }
    }

    fn cancel_alert(&mut self, alert_id: &AlertId) {
        let owned: AlertId = alert_id.clone();
        self.events.push(AlertEvent::Cancel { alert_id: owned });
        proof {
            assert(self.events@.map_values(|e: AlertEvent| e@) =~= old(self).events@.map_values(
                |e: AlertEvent| e@,
            ).push(self.events@.last()@));
        }
    }
}

/// Lifecycle state of a trade.  `Finished` and `Cancelled` are terminal:
/// once either is reached, commands are no-ops.
#[derive(Debug, Clone, Copy, PartialEq, Eq, Structural)]
pub enum TradeState {
    Initial,
    Pending,
    InProgress,
    Finished,
    Cancelled,
}

impl Default for TradeState {
    fn default() -> (r: Self)
        ensures
            r == TradeState::Initial,
    {
        TradeState::Initial
    }
}

/// Whether a state admits no further transitions.
pub open spec fn is_terminal(s: TradeState) -> bool {
    s == TradeState::Finished || s == TradeState::Cancelled
}

/// The index of the first live-alert entry carrying the given identifier,
/// if any entry does.
pub open spec fn first_match(entries: Seq<(Seq<char>, AlertType)>, id: Seq<char>) -> Option<int>
    decreases entries.len(),
{
    if entries.len() == 0 {
        None
    } else if entries[0].0 == id {
        Some(0)
    } else {
        match first_match(entries.drop_first(), id) {
            Some(i) => Some(i + 1),
            None => None,
        }
    }
}

/// When the first `k` entries do not carry `id`, the first match is either
/// at `k` (when entry `k` carries it) or absent (when `k` is the length).
proof fn lemma_first_match_prefix(entries: Seq<(Seq<char>, AlertType)>, id: Seq<char>, k: int)
    requires
        0 <= k <= entries.len(),
        forall|j: int| 0 <= j < k ==> entries[j].0 != id,
    ensures
        k == entries.len() ==> first_match(entries, id) is None,
        k < entries.len() && entries[k].0 == id ==> first_match(entries, id) == Some(k),
    decreases entries.len(),
{
    if entries.len() > 0 && entries[0].0 != id && k > 0 {
        assert forall|j: int| 0 <= j < k - 1 implies entries.drop_first()[j].0 != id by {
            assert(entries.drop_first()[j] == entries[j + 1]);
        }
        lemma_first_match_prefix(entries.drop_first(), id, k - 1);
    }
}

/// What `first_match` means: it is absent exactly when no entry carries the
/// identifier, and otherwise names the least index that carries it.
pub proof fn lemma_first_match_spec(entries: Seq<(Seq<char>, AlertType)>, id: Seq<char>)
    ensures
        match first_match(entries, id) {
            None => forall|j: int| 0 <= j < entries.len() ==> (#[trigger] entries[j]).0 != id,
            Some(i) => {
                &&& 0 <= i < entries.len()
                &&& entries[i].0 == id
                &&& forall|j: int| 0 <= j < i ==> (#[trigger] entries[j]).0 != id
            },
        },
    decreases entries.len(),
{
    if entries.len() > 0 && entries[0].0 != id {
        lemma_first_match_spec(entries.drop_first(), id);
        match first_match(entries.drop_first(), id) {
            None => {
                assert forall|j: int| 0 <= j < entries.len() implies (#[trigger] entries[j]).0
                    != id by {
                    if j > 0 {
                        assert(entries[j] == entries.drop_first()[j - 1]);
                    }
                }
            },
            Some(i) => {
                assert(entries[i + 1] == entries.drop_first()[i]);
                assert forall|j: int| 0 <= j < i + 1 implies (#[trigger] entries[j]).0 != id by {
                    if j > 0 {
                        assert(entries[j] == entries.drop_first()[j - 1]);
                    }
                }
            },
        }
    }
}

/// The cancel requests that clearing the given live alerts issues, in order.
pub open spec fn cancel_calls(entries: Seq<(Seq<char>, AlertType)>) -> Seq<AlertCall> {
    entries.map_values(|e: (Seq<char>, AlertType)| (AlertCall::Cancel { alert_id: e.0 }))
}

/// The register requests that installing the planned alerts issues: one per
/// planned alert, at the plan's price, under the identifier recorded in the
/// matching live-alert entry.
pub open spec fn register_calls(
    symbol: Seq<char>,
    entries: Seq<(Seq<char>, AlertType)>,
    plan: Seq<(AlertType, u64)>,
) -> Seq<AlertCall>
    recommends
        entries.len() == plan.len(),
{
    Seq::new(
        plan.len(),
        |i: int| (AlertCall::Register { symbol, alert_id: entries[i].0, price: plan[i].1 }),
    )
}

/// The live-alert entries carry exactly the roles of the plan, in order.
pub open spec fn roles_match(
    entries: Seq<(Seq<char>, AlertType)>,
    plan: Seq<(AlertType, u64)>,
) -> bool {
    &&& entries.len() == plan.len()
    &&& forall|i: int| 0 <= i < plan.len() ==> (#[trigger] entries[i]).1 == plan[i].0
}

/// A command issued to a trade.
#[derive(Debug, Clone)]
pub enum OrderCmd {
    NewOrder { order_data: OrderData },
    CloseTrade,
    CancelTrade,
}

/// Mathematical model of an `OrderCmd` value.
pub enum OrderCmdView {
    NewOrder { order_data: OrderDataView },
    CloseTrade,
    CancelTrade,
}

impl View for OrderCmd {
    type V = OrderCmdView;

    open spec fn view(&self) -> OrderCmdView {
        match self {
            OrderCmd::NewOrder { order_data } => (OrderCmdView::NewOrder {
                order_data: order_data@,
            }),
            OrderCmd::CloseTrade => OrderCmdView::CloseTrade,
            OrderCmd::CancelTrade => OrderCmdView::CancelTrade,
        }
    }
}

/// The aggregate tracking one order's lifecycle and its associated price
/// alerts.  Live alerts are kept as a list of (identifier, role) entries;
/// the list behaves as a mapping keyed by identifier, looked up at the first
/// matching entry, since the identifier generator makes collisions
/// negligible rather than impossible.
pub struct Trade<H: PriceAlertHandler> {
    id: TradeId,
    order_data: Option<OrderData>,
    state: TradeState,
    alert_handler: H,
    alerts: Vec<(AlertId, AlertType)>,
}

impl<H: PriceAlertHandler> Trade<H> {
    /// The trade's identifier token.
    pub closed spec fn spec_id(&self) -> Seq<char> {
        self.id@
    }

    /// The order specification the trade currently holds, if any.
    pub closed spec fn spec_order(&self) -> Option<OrderDataView> {
        match self.order_data {
            Some(od) => Some(od@),
            None => None,
        }
    }

    /// The trade's lifecycle state.
    pub closed spec fn spec_state(&self) -> TradeState {
        self.state
    }

    /// The live alerts, as (identifier, role) entries in registration order.
    pub closed spec fn spec_alerts(&self) -> Seq<(Seq<char>, AlertType)> {
        self.alerts@.map_values(|e: (AlertId, AlertType)| (e.0@, e.1))
    }

    /// Every dispatch-boundary request issued through this trade's handler.
    pub closed spec fn spec_calls(&self) -> Seq<AlertCall> {
        self.alert_handler.calls()
    }

    /// Well-formedness: a trade holding no order data has no live alerts.
    pub open spec fn wf(&self) -> bool {
        self.spec_order() is None ==> self.spec_alerts().len() == 0
    }

    /// Creates a trade in `Initial`, with no order data and no alerts, under
    /// the given identifier or a freshly generated one.
    pub fn new(trade_id: Option<TradeId>, alert_handler: H) -> (r: Self)
        ensures
            r.wf(),
            r.spec_state() == TradeState::Initial,
            r.spec_order() is None,
            r.spec_alerts() == Seq::<(Seq<char>, AlertType)>::empty(),
            r.spec_calls() == alert_handler.calls(),
            (trade_id matches Some(id) ==> r.spec_id() == id@),
            trade_id is None ==> r.spec_id().len() == 21,
    {
        let r = Trade {
            id: match trade_id {
                Some(tid) => tid,
                None => TradeId::new(),
            },
            alert_handler,
            order_data: None,
            state: TradeState::Initial,
            alerts: Vec::new(),
        };
        proof {
            assert(r.spec_alerts() =~= Seq::<(Seq<char>, AlertType)>::empty());
        }
        r
    }

    /// The trade's identifier.
    pub fn trade_id(&self) -> (r: TradeId)
        ensures
            r@ == self.spec_id(),
    {
        self.id.clone()
    }

    fn set_state(&mut self, state: TradeState)
        ensures
            final(self).spec_state() == state,
            final(self).spec_id() == old(self).spec_id(),
            final(self).spec_order() == old(self).spec_order(),
            final(self).spec_alerts() == old(self).spec_alerts(),
            final(self).spec_calls() == old(self).spec_calls(),
    {
        self.state = state;
    }

    /// The trade's current lifecycle state.
    pub fn state(&self) -> (r: TradeState)
        ensures
            r == self.spec_state(),
    {
        self.state
    }

    /// The live alerts, as (identifier, role) pairs in registration order.
    pub fn alerts(&self) -> (r: &Vec<(AlertId, AlertType)>)
        ensures
            self.spec_alerts() == r@.map_values(|e: (AlertId, AlertType)| (e.0@, e.1)),
    {
        &self.alerts
    }

    /// The dispatch-boundary handler the trade was constructed with.
    pub fn handler(&self) -> (r: &H)
        ensures
            r.calls() == self.spec_calls(),
    {
        &self.alert_handler
    }

    /// Cancels every live alert through the dispatch boundary, in entry
    /// order, and clears the live-alert list.  State and order data are
    /// untouched.
    pub fn cancel_all_price_alert(&mut self)
        ensures
            final(self).spec_id() == old(self).spec_id(),
            final(self).spec_state() == old(self).spec_state(),
            final(self).spec_order() == old(self).spec_order(),
            final(self).spec_alerts() == Seq::<(Seq<char>, AlertType)>::empty(),
            final(self).spec_calls() == old(self).spec_calls() + cancel_calls(
                old(self).spec_alerts(),
            ),
    {
        let mut i: usize = 0;
        while i < self.alerts.len()
            invariant
                i <= self.alerts@.len(),
                self.id == old(self).id,
                self.state == old(self).state,
                self.order_data == old(self).order_data,
                self.alerts == old(self).alerts,
                self.alert_handler.calls() == old(self).alert_handler.calls() + cancel_calls(
                    old(self).spec_alerts().take(i as int),
                ),
            decreases self.alerts@.len() - i,
        {
            let aid = self.alerts[i].0.clone();
            self.alert_handler.cancel_alert(&aid);
            proof {
                let entries = old(self).spec_alerts();
                assert(entries[i as int] == (old(self).alerts@[i as int].0@, old(
                    self,
                ).alerts@[i as int].1));
                assert(entries.take(i + 1 as int) =~= entries.take(i as int).push(
                    entries[i as int],
                ));
                assert(cancel_calls(entries.take(i + 1 as int)) =~= cancel_calls(
                    entries.take(i as int),
                ).push((AlertCall::Cancel { alert_id: aid@ })));
                assert(old(self).alert_handler.calls() + cancel_calls(entries.take(i + 1 as int))
                    =~= (old(self).alert_handler.calls() + cancel_calls(entries.take(i as int))).push(
                    (AlertCall::Cancel { alert_id: aid@ }),
                ));
            }
            i += 1;
        }
        proof {
            assert(old(self).spec_alerts().take(old(self).spec_alerts().len() as int) =~= old(
                self,
            ).spec_alerts());
        }
        self.alerts = Vec::new();
        proof {
            assert(self.spec_alerts() =~= Seq::<(Seq<char>, AlertType)>::empty());
        }
    }

    /// Assigns each planned alert a fresh identifier, records it in the
    /// live-alert list, and registers it with the dispatch boundary under
    /// the stored order's symbol.
    fn register_alerts(&mut self, plan: Vec<(AlertType, u64)>)
        requires
            old(self).spec_order() is Some,
        ensures
            final(self).spec_id() == old(self).spec_id(),
            final(self).spec_state() == old(self).spec_state(),
            final(self).spec_order() == old(self).spec_order(),
            final(self).spec_alerts().len() == old(self).spec_alerts().len() + plan@.len(),
            final(self).spec_alerts().take(old(self).spec_alerts().len() as int) == old(
                self,
            ).spec_alerts(),
            roles_match(
                final(self).spec_alerts().skip(old(self).spec_alerts().len() as int),
                plan@,
            ),
            final(self).spec_calls() == old(self).spec_calls() + register_calls(
                old(self).spec_order()->Some_0.symbol,
                final(self).spec_alerts().skip(old(self).spec_alerts().len() as int),
                plan@,
            ),
    {
        let symbol: String = match &self.order_data {
            Some(od) => od.symbol.clone(),
            None => String::new(),
        };
        let ghost base: int = old(self).spec_alerts().len() as int;
        let mut i: usize = 0;
        while i < plan.len()
            invariant
                i <= plan@.len(),
                base == old(self).spec_alerts().len(),
                symbol@ == old(self).spec_order()->Some_0.symbol,
                self.id == old(self).id,
                self.state == old(self).state,
                self.order_data == old(self).order_data,
                self.spec_alerts().len() == base + i,
                self.spec_alerts().take(base) == old(self).spec_alerts(),
                roles_match(self.spec_alerts().skip(base), plan@.take(i as int)),
                self.alert_handler.calls() == old(self).alert_handler.calls() + register_calls(
                    symbol@,
                    self.spec_alerts().skip(base),
                    plan@.take(i as int),
                ),
            decreases plan@.len() - i,
        {
            let (role, price) = plan[i];
            let aid = AlertId::new();
            let aid_for_handler = aid.clone();
            let ghost pre_alerts = self.spec_alerts();
            self.alerts.push((aid, role));
            self.alert_handler.register_price_alert(symbol.as_str(), aid_for_handler, price);
            proof {
                assert(self.spec_alerts() =~= pre_alerts.push((aid_for_handler@, role)));
                assert(self.spec_alerts().take(base) =~= pre_alerts.take(base));
                assert(self.spec_alerts().skip(base) =~= pre_alerts.skip(base).push(
                    (aid_for_handler@, role),
                ));
                assert(plan@.take(i + 1 as int) =~= plan@.take(i as int).push(plan@[i as int]));
                assert(register_calls(symbol@, self.spec_alerts().skip(base), plan@.take(i + 1 as int))
                    =~= register_calls(symbol@, pre_alerts.skip(base), plan@.take(i as int)).push(
                    (AlertCall::Register { symbol: symbol@, alert_id: aid_for_handler@, price }),
                ));
                assert(old(self).alert_handler.calls() + register_calls(
                    symbol@,
                    self.spec_alerts().skip(base),
                    plan@.take(i + 1 as int),
                ) =~= (old(self).alert_handler.calls() + register_calls(
                    symbol@,
                    pre_alerts.skip(base),
                    plan@.take(i as int),
                )).push((AlertCall::Register { symbol: symbol@, alert_id: aid_for_handler@, price })));
            }
            i += 1;
        }
        proof {
            assert(plan@.take(plan@.len() as int) =~= plan@);
        }
    }

    /// What `tick` guarantees: in a terminal state every command is a no-op;
    /// otherwise `NewOrder` cancels every previous alert, installs exactly
    /// the derived alerts of the new order data (one register per derived
    /// alert, at its resolved price, after all cancels), replaces the stored
    /// order data, and moves to `Pending`; `CloseTrade` and `CancelTrade`
    /// cancel every live alert, leave the alert set empty, and move to their
    /// terminal state.
    pub open spec fn tick_post(pre: Self, post: Self, cmd: OrderCmdView) -> bool {
        if is_terminal(pre.spec_state()) {
            post == pre
        } else {
            match cmd {
                OrderCmdView::NewOrder { order_data } => {
                    &&& post.spec_id() == pre.spec_id()
                    &&& post.spec_state() == TradeState::Pending
                    &&& post.spec_order() == Some(order_data)
                    &&& roles_match(post.spec_alerts(), derived_alerts(order_data))
                    &&& post.spec_calls() == pre.spec_calls() + cancel_calls(pre.spec_alerts())
                        + register_calls(
                        order_data.symbol,
                        post.spec_alerts(),
                        derived_alerts(order_data),
                    )
                },
                OrderCmdView::CloseTrade => {
                    &&& post.spec_id() == pre.spec_id()
                    &&& post.spec_state() == TradeState::Finished
                    &&& post.spec_order() == pre.spec_order()
                    &&& post.spec_alerts() == Seq::<(Seq<char>, AlertType)>::empty()
                    &&& post.spec_calls() == pre.spec_calls() + cancel_calls(pre.spec_alerts())
                },
                OrderCmdView::CancelTrade => {
                    &&& post.spec_id() == pre.spec_id()
                    &&& post.spec_state() == TradeState::Cancelled
                    &&& post.spec_order() == pre.spec_order()
                    &&& post.spec_alerts() == Seq::<(Seq<char>, AlertType)>::empty()
                    &&& post.spec_calls() == pre.spec_calls() + cancel_calls(pre.spec_alerts())
                },
            }
        }
    }

    /// Processes one command, exactly as `tick_post` states.
    pub fn tick(&mut self, order_cmd: OrderCmd)
        requires
            old(self).wf(),
            (order_cmd@ matches OrderCmdView::NewOrder { order_data } ==> order_data.valid()),
        ensures
            final(self).wf(),
            Self::tick_post(*old(self), *final(self), order_cmd@),
    {
        if matches!(self.state, TradeState::Finished | TradeState::Cancelled) {
            return ;
        }
        match order_cmd {
            OrderCmd::NewOrder { order_data } => {
                self.cancel_all_price_alert();
                let plan = derive_alert_plan(&order_data);
                self.order_data = Some(order_data);
                let ghost mid = *self;
                self.register_alerts(plan);
                self.set_state(TradeState::Pending);
                proof {
                    assert(mid.spec_alerts() =~= Seq::<(Seq<char>, AlertType)>::empty());
                    assert(self.spec_alerts().skip(0) =~= self.spec_alerts());
                    assert(self.spec_alerts().take(0) =~= Seq::<(Seq<char>, AlertType)>::empty());
                }
            },
            OrderCmd::CloseTrade => {
                self.cancel_all_price_alert();
                self.set_state(TradeState::Finished);
            },
            OrderCmd::CancelTrade => {
                self.cancel_all_price_alert();
                self.set_state(TradeState::Cancelled);
            },
        }
    }

    fn find_alert_index(&self, alert_id: &AlertId) -> (r: Option<usize>)
        ensures
            (r matches Some(i) ==> first_match(self.spec_alerts(), alert_id@) == Some(i as int)),
            r is None ==> first_match(self.spec_alerts(), alert_id@) is None,
    {
        let mut idx: usize = 0;
        while idx < self.alerts.len()
            invariant
                idx <= self.alerts@.len(),
                forall|j: int| 0 <= j < idx ==> (#[trigger] self.spec_alerts()[j]).0 != alert_id@,
            decreases self.alerts@.len() - idx,
        {
            if self.alerts[idx].0 == *alert_id {
                proof {
                    assert(self.spec_alerts()[idx as int].0 == alert_id@);
                    lemma_first_match_prefix(self.spec_alerts(), alert_id@, idx as int);
                }
                return Some(idx);
            }
            proof {
                assert(self.spec_alerts()[idx as int].0 != alert_id@);
            }
            idx += 1;
        }
        proof {
            lemma_first_match_prefix(self.spec_alerts(), alert_id@, self.spec_alerts().len() as int);
        }
        None
    }

    /// What `on_alert` guarantees.  An identifier with no live entry changes
    /// nothing and issues no dispatch call.  Otherwise the first matching
    /// entry leaves the live set and its role decides the reaction: a fired
    /// stop-loss finishes the trade; a fired target only records the removal
    /// (the documented minimal policy: target hits do not end the trade); a
    /// fired entry trigger moves the trade to `InProgress` and installs the
    /// stored order's position alerts, one register per derived alert.
    pub open spec fn on_alert_post(pre: Self, post: Self, id: Seq<char>) -> bool {
        match first_match(pre.spec_alerts(), id) {
            None => post == pre,
            Some(i) => {
                let role = pre.spec_alerts()[i].1;
                let remaining = pre.spec_alerts().remove(i);
                &&& post.spec_id() == pre.spec_id()
                &&& post.spec_order() == pre.spec_order()
                &&& (role == AlertType::Stoploss ==> {
                    &&& post.spec_state() == TradeState::Finished
                    &&& post.spec_alerts() == remaining
                    &&& post.spec_calls() == pre.spec_calls()
                })
                &&& (role == AlertType::Target ==> {
                    &&& post.spec_state() == pre.spec_state()
                    &&& post.spec_alerts() == remaining
                    &&& post.spec_calls() == pre.spec_calls()
                })
                &&& ((role == AlertType::LimitTrigger || role == AlertType::StopTrigger) ==> {
                    let od = pre.spec_order()->Some_0;
                    &&& post.spec_state() == TradeState::InProgress
                    &&& post.spec_alerts().len() == remaining.len() + position_alerts(od).len()
                    &&& post.spec_alerts().take(remaining.len() as int) == remaining
                    &&& roles_match(
                        post.spec_alerts().skip(remaining.len() as int),
                        position_alerts(od),
                    )
                    &&& post.spec_calls() == pre.spec_calls() + register_calls(
                        od.symbol,
                        post.spec_alerts().skip(remaining.len() as int),
                        position_alerts(od),
                    )
                })
            },
        }
    }

    /// Reacts to a fired alert, exactly as `on_alert_post` states.
    pub fn on_alert(&mut self, alert_id: AlertId)
        requires
            old(self).wf(),
        ensures
            final(self).wf(),
            Self::on_alert_post(*old(self), *final(self), alert_id@),
    {
        proof {
            lemma_first_match_spec(old(self).spec_alerts(), alert_id@);
        }
        let found = self.find_alert_index(&alert_id);
        match found {
            None => {},
            Some(i) => {
                let (_fired, role) = self.alerts.remove(i);
                proof {
                    assert(self.spec_alerts() =~= old(self).spec_alerts().remove(i as int));
                }
                match role {
                    AlertType::Stoploss => {
                        self.set_state(TradeState::Finished);
                    },
                    AlertType::Target => {},
                    AlertType::LimitTrigger | AlertType::StopTrigger => {
                        self.set_state(TradeState::InProgress);
                        let plan = match &self.order_data {
                            Some(od) => derive_position_plan(od),
                            None => Vec::new(),
                        };
                        let ghost mid = *self;
                        self.register_alerts(plan);
                        proof {
                            assert(mid.spec_alerts() == old(self).spec_alerts().remove(i as int));
                        }
                    },
                }
            },
        }
    }
}

} // verus!
